use vstd::prelude::*;

use crate::utils::{response_handler, Envelope, STATUS_OK};

verus! {

/// What the health endpoint reports.
#[derive(Debug, Clone)]
pub struct Health {
    pub health: String,
    pub server_time: String,
}

/// An RFC 3339 timestamp in UTC as chrono writes it: at least
/// `YYYY-MM-DDTHH:MM:SS` followed by the offset `+00:00`.
pub open spec fn utc_rfc3339_shape(s: Seq<char>) -> bool {
    &&& s.len() >= 25
    &&& s.subrange(s.len() - 6, s.len() as int) == "+00:00"@
}

/// Relies on `chrono::Utc::now().to_rfc3339()`: the current time as an
/// RFC 3339 timestamp, written with a numeric `+00:00` offset rather than
/// `Z`.
#[verifier::external_body]
fn now_rfc3339() -> (r: String)
    ensures
        utc_rfc3339_shape(r@),
{
    chrono::Utc::now().to_rfc3339()
}

/// The health report for a given server time.
pub fn health_at(server_time: String) -> (r: Envelope<Health>)
    ensures
        r.code == STATUS_OK,
        r.message@ == "success"@,
        r.error is None,
        r.data is Some,
        r.data->Some_0.health@ == "ok"@,
        r.data->Some_0.server_time == server_time,
{
    let report = Health { health: "ok".to_string(), server_time };
    response_handler(STATUS_OK, "success".to_string(), Some(report), None)
}

/// The health endpoint: always succeeds, with the current server time.
pub fn health() -> (r: Envelope<Health>)
    ensures
        r.code == STATUS_OK,
        r.message@ == "success"@,
        r.error is None,
        r.data is Some,
        r.data->Some_0.health@ == "ok"@,
        utc_rfc3339_shape(r.data->Some_0.server_time@),
{
    health_at(now_rfc3339())
}

} // verus!
