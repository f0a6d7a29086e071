//! The provider: it owns the time computation. Given a zone name it reports
//! the current time as that zone shows it, or as UTC shows it when it does
//! not know the name.

use vstd::prelude::*;
use crate::clock::{now, rfc3339_text, to_rfc3339, Instant};
use crate::health::{health_at, health_report};
use crate::ident::{is_minted, mint};
use crate::message::{Health, TimeResponse, TimeResponseView};
use crate::zone::{name_or_default, requested_name, resolve, zone_of};

verus! {

/// The query of the provider's time endpoint; both parts are optional.
#[derive(Clone, Debug, PartialEq, Eq)]
pub struct TimeQuery {
    pub timezone: Option<String>,
    pub request_id: Option<String>,
}

/// The port the provider listens on.
pub const PORT: u16 = 4000;

/// The provider's descriptor.
pub fn root() -> (text: &'static str)
    ensures
        text@ == "API2 - Time Service Provider"@,
{
    "API2 - Time Service Provider"
}

/// The provider's liveness report, stamped with the clock's reading.
pub fn health_check() -> (report: Health)
    ensures
        report.status@ == "healthy"@,
        report.service@ == "api2"@,
        exists|at: Instant| at.is_valid() && report@ == health_report("api2"@, at),
{
    let at = now();
    health_at("api2", at)
}

/// The provider's answer to a request for `timezone` under the identifier
/// `request_id` at the moment `at`: the moment as the resolved zone shows it,
/// the zone name exactly as it was asked for (`UTC` when none was), the
/// identifier unchanged, and the provider's mark as the source.
pub open spec fn time_reply(timezone: Option<Seq<char>>, request_id: Seq<char>, at: Instant)
    -> TimeResponseView {
    let name = requested_name(timezone);
    TimeResponseView {
        timestamp: rfc3339_text(at.secs as int, at.nanos as int, zone_of(name)),
        timezone: name,
        request_id,
        source: "api2-service"@,
    }
}

/// Whether `id` can be the identifier of the answer to a request that came
/// with `given`: the given identifier itself, or a freshly minted one when
/// none was given.
pub open spec fn identifies(given: Option<Seq<char>>, id: Seq<char>) -> bool {
    match given {
        Some(own) => id == own,
        None => is_minted(id),
    }
}

/// Answers a time request at a given moment under a given identifier.
pub fn get_time_at(timezone: Option<String>, request_id: String, at: Instant) -> (answer:
    TimeResponse)
    requires
        at.is_valid(),
    ensures
        answer@ == time_reply(timezone.deep_view(), request_id@, at),
{
    let name = name_or_default(timezone);
    let zone = resolve(name.as_str());
    TimeResponse {
        timestamp: to_rfc3339(at, zone),
        timezone: name,
        request_id,
        source: String::from_str("api2-service"),
    }
}

/// Answers a time request: keeps the identifier it came with or mints one,
/// reads the clock, and reports the time. There is no failing input.
pub fn get_time(params: TimeQuery) -> (answer: TimeResponse)
    ensures
        identifies(params.request_id.deep_view(), answer.request_id@),
        exists|at: Instant|
            at.is_valid() && answer@ == time_reply(
                params.timezone.deep_view(),
                answer.request_id@,
                at,
            ),
{
    let request_id = match params.request_id {
        Some(given) => given,
        None => mint(),
    };
    let at = now();
    get_time_at(params.timezone, request_id, at)
}

} // verus!
