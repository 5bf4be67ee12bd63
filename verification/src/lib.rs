//! A single-slot, time-bounded cache coordinator for a public-IP geolocation
//! gateway.
//!
//! The library holds the gateway's core logic: how concurrent requests share
//! one cached geolocation record, how staleness is detected against a fixed
//! freshness window, and how the slot is updated so that a record and its
//! fetch timestamp are never observed apart. The HTTP transport and the
//! upstream API client are deliberately outside the library; they hand in
//! fetch outcomes and clock readings as plain values.

pub mod cache;
pub mod record;

pub use cache::CachedResponse;
pub use cache::Coordinator;
pub use cache::FetchError;
pub use cache::CACHE_DURATION_MS;
pub use record::IpInfo;
