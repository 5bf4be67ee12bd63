//! The single-slot cache coordinator.
//!
//! The coordinator owns one slot holding at most one cached [`IpInfo`] record
//! together with the time at which it was fetched. A read serves the cached
//! record while it is younger than [`CACHE_DURATION_MS`]; otherwise the caller
//! fetches upstream outside any critical section and hands the outcome back to
//! [`Coordinator::resolve_fetch`], which commits a success atomically (record
//! and timestamp together) and leaves the slot untouched on failure.
//!
//! Time enters the library only as readings of a monotonic clock, in
//! milliseconds. The network call itself is performed by the surrounding
//! program between the freshness check and the resolve step, so the slot is
//! never held across network latency.

use vstd::prelude::*;

use crate::record::IpInfo;

verus! {

/// Freshness window in milliseconds: a cached record at least this old is
/// stale and eligible for refetch.
pub const CACHE_DURATION_MS: u64 = 60000;

/// A cached record paired with the monotonic-clock reading (in milliseconds)
/// at which its fetch completed. The pair is always written together.
#[derive(Debug, Clone)]
pub struct CachedResponse {
    pub data: IpInfo,
    pub timestamp: u64,
}

/// Why a fetch attempt produced no record.
#[derive(Debug, Clone, Copy, PartialEq, Eq, Structural)]
pub enum FetchError {
    /// The upstream service could not be reached (connection refused,
    /// timeout, DNS failure).
    Network,
    /// The upstream response was not well-formed for the expected schema.
    Parse,
}

/// The single-slot cache coordinator. Created empty at startup; mutated only
/// by [`Coordinator::resolve_fetch`], which replaces the record and its
/// timestamp together.
pub struct Coordinator {
    slot: Option<CachedResponse>,
}

impl Coordinator {
    /// The cached record, if any.
    pub closed spec fn record(&self) -> Option<IpInfo> {
        match self.slot {
            Some(c) => Some(c.data),
            None => None,
        }
    }

    /// The clock reading at which the cached record was fetched, if any.
    pub closed spec fn fetched_at(&self) -> Option<u64> {
        match self.slot {
            Some(c) => Some(c.timestamp),
            None => None,
        }
    }

    /// The clock is monotonic: any stored timestamp is no later than the
    /// current reading.
    pub open spec fn clock_valid(&self, now_ms: u64) -> bool {
        self.fetched_at() matches Some(t) ==> t <= now_ms
    }

    /// A record is fresh at `now_ms` when it exists and its age is strictly
    /// below the freshness window.
    pub open spec fn fresh_at(&self, now_ms: u64) -> bool {
        &&& self.record() is Some
        &&& self.fetched_at() matches Some(t) && t <= now_ms && now_ms - t < CACHE_DURATION_MS
    }

    /// What a read at `now_ms` serves from the cache: the stored record while
    /// it is fresh, nothing once it is stale or absent.
    pub open spec fn fresh_record(&self, now_ms: u64) -> Option<IpInfo> {
        if self.fresh_at(now_ms) {
            self.record()
        } else {
            None
        }
    }

    /// The coordinator state after a successful fetch of `data` completing at
    /// `now_ms`: both fields of the slot replaced together.
    pub closed spec fn after_success(self, data: IpInfo, now_ms: u64) -> Coordinator {
        Coordinator { slot: Some(CachedResponse { data, timestamp: now_ms }) }
    }

    /// The coordinator state after a failed fetch: unchanged, from any state.
    pub open spec fn after_failure(self) -> Coordinator {
        self
    }

    /// An empty slot: no record, no timestamp.
    pub fn new() -> (c: Coordinator)
        ensures
            c.record() is None,
            c.fetched_at() is None,
    {
        Coordinator { slot: None }
    }

    /// The fast path: serve a copy of the cached record exactly when it is
    /// fresh at `now_ms`, without any fetch. Returns `None` when the slot is
    /// empty or the record's age has reached the freshness window, in which
    /// case the caller fetches upstream and commits the outcome with
    /// [`Coordinator::resolve_fetch`].
    pub fn check_cache(&self, now_ms: u64) -> (r: Option<IpInfo>)
        requires
            self.clock_valid(now_ms),
        ensures
            r == self.fresh_record(now_ms),
    {
        match &self.slot {
            Some(c) => {
                if now_ms - c.timestamp < CACHE_DURATION_MS {
                    Some(c.data.clone())
                } else {
                    None
                }
            },
            None => None,
        }
    }

    /// Commit the outcome of a fetch that completed at `now_ms`.
    ///
    /// On success the slot is overwritten with the new record and the
    /// completion timestamp, both together, and the record is returned to the
    /// caller. On failure the slot is left exactly as it was — stale or empty
    /// data is preserved, never cleared — and the error is returned unchanged,
    /// so a later call simply retries.
    pub fn resolve_fetch(&mut self, outcome: Result<IpInfo, FetchError>, now_ms: u64) -> (r: Result<
        IpInfo,
        FetchError,
    >)
        ensures
            outcome matches Ok(d) ==> {
                &&& *final(self) == old(self).after_success(d, now_ms)
                &&& final(self).record() == Some(d)
                &&& final(self).fetched_at() == Some(now_ms)
                &&& r == Ok::<IpInfo, FetchError>(d)
            },
            outcome matches Err(e) ==> {
                &&& *final(self) == old(self).after_failure()
                &&& r == Err::<IpInfo, FetchError>(e)
            },
    {
        match outcome {
            Ok(data) => {
                let stored = data.clone();
                self.slot = Some(CachedResponse { data: stored, timestamp: now_ms });
                Ok(data)
            },
            Err(e) => Err(e),
        }
    }

    /// The cached record, for observation; `Some` exactly when the slot is
    /// populated.
    pub fn cached_record(&self) -> (r: Option<&IpInfo>)
        ensures
            match r {
                Some(d) => self.record() == Some(*d),
                None => self.record() is None,
            },
    {
        match &self.slot {
            Some(c) => Some(&c.data),
            None => None,
        }
    }

    /// The timestamp of the cached record, for observation; `Some` exactly
    /// when the slot is populated.
    pub fn cached_at(&self) -> (r: Option<u64>)
        ensures
            r == self.fetched_at(),
    {
        match &self.slot {
            Some(c) => Some(c.timestamp),
            None => None,
        }
    }
}

/// Freshness bound: once a successful fetch populates the slot at time `t`,
/// every read strictly inside the freshness window serves exactly that record,
/// so no fetch is made ([`Coordinator::check_cache`] returns it directly).
pub proof fn lemma_freshness_bound(c: Coordinator, rec: IpInfo, t: u64, now_ms: u64)
    requires
        c.record() == Some(rec),
        c.fetched_at() == Some(t),
        t <= now_ms,
        now_ms - t < CACHE_DURATION_MS,
    ensures
        c.fresh_at(now_ms),
        c.fresh_record(now_ms) == Some(rec),
{
}

/// Expiry triggers refetch: once the record's age reaches the freshness
/// window, a read serves nothing from the cache, so the caller must invoke the
/// fetcher.
pub proof fn lemma_expiry_triggers_refetch(c: Coordinator, t: u64, now_ms: u64)
    requires
        c.fetched_at() == Some(t),
        t <= now_ms,
        now_ms - t >= CACHE_DURATION_MS,
    ensures
        !c.fresh_at(now_ms),
        c.fresh_record(now_ms) is None,
{
}

/// Atomic pairing: in every reachable or unreachable coordinator state, the
/// slot holds a record exactly when it holds a timestamp — the two are never
/// observable apart.
pub proof fn lemma_atomic_pairing(c: Coordinator)
    ensures
        c.record() is Some <==> c.fetched_at() is Some,
{
}

/// A successful fetch of `data` completing at `now_ms` leaves the slot holding
/// exactly that record with exactly that timestamp, whatever it held before.
pub proof fn lemma_after_success(c: Coordinator, data: IpInfo, now_ms: u64)
    ensures
        c.after_success(data, now_ms).record() == Some(data),
        c.after_success(data, now_ms).fetched_at() == Some(now_ms),
{
}

/// Failure preserves prior state: a failed fetch changes nothing, so a reader
/// whose clock reading is still inside the window of the previously cached
/// record is served that record, unchanged.
pub proof fn lemma_failure_preserves_prior_state(c: Coordinator, rec: IpInfo, t: u64, now_ms: u64)
    requires
        c.record() == Some(rec),
        c.fetched_at() == Some(t),
        t <= now_ms,
        now_ms - t < CACHE_DURATION_MS,
    ensures
        c.after_failure() == c,
        c.after_failure().fresh_record(now_ms) == Some(rec),
{
}

/// No-data failure propagation: a failed fetch against an empty slot leaves it
/// empty — no record, no timestamp, nothing to serve at any time. The error
/// itself is returned unchanged by [`Coordinator::resolve_fetch`].
pub proof fn lemma_no_data_failure(c: Coordinator, now_ms: u64)
    requires
        c.record() is None,
    ensures
        c.after_failure().record() is None,
        c.after_failure().fetched_at() is None,
        c.after_failure().fresh_record(now_ms) is None,
{
}

} // verus!
