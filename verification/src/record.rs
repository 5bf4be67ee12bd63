//! The geolocation record served by the gateway.
//!
//! A record is immutable once constructed and is handed out by value, so it
//! can be shared across concurrent readers without synchronization. Every
//! field the upstream service may omit is an explicit `Option`; absence is
//! never encoded with a sentinel value.

use vstd::prelude::*;

verus! {

/// One geolocation result, as fetched from the upstream service.
///
/// `latitude` and `longitude` are fixed-point coordinates in microdegrees
/// (degrees multiplied by one million), so that positions can be carried and
/// compared exactly.
#[derive(Debug, PartialEq)]
pub struct IpInfo {
    pub ip: String,
    pub country: Option<String>,
    pub country_code: Option<String>,
    pub city: Option<String>,
    pub region: Option<String>,
    pub region_code: Option<String>,
    pub zip: Option<String>,
    pub latitude: Option<i64>,
    pub longitude: Option<i64>,
    pub timezone: Option<String>,
    pub asn: Option<String>,
    pub org: Option<String>,
}

fn clone_opt_string(o: &Option<String>) -> (r: Option<String>)
    ensures
        r == *o,
{
    match o {
        Some(s) => Some(s.clone()),
        None => None,
    }
}

impl Clone for IpInfo {
    /// A clone is equal to the original record, so a cached record can be
    /// handed out by value while the slot keeps its own copy.
    fn clone(&self) -> (r: Self)
        ensures
            r == *self,
    {
        IpInfo {
            ip: self.ip.clone(),
            country: clone_opt_string(&self.country),
            country_code: clone_opt_string(&self.country_code),
            city: clone_opt_string(&self.city),
            region: clone_opt_string(&self.region),
            region_code: clone_opt_string(&self.region_code),
            zip: clone_opt_string(&self.zip),
            latitude: self.latitude,
            longitude: self.longitude,
            timezone: clone_opt_string(&self.timezone),
            asn: clone_opt_string(&self.asn),
            org: clone_opt_string(&self.org),
        }
    }
}

} // verus!
