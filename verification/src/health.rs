//! The liveness report that both services give.

use vstd::prelude::*;
use crate::clock::{rfc3339_text, to_rfc3339, Instant};
use crate::message::{Health, HealthView};
use crate::zone::Zone;

verus! {

/// What a service named `service` reports at the moment `now`: that it is
/// healthy, who it is, and the time in UTC.
pub open spec fn health_report(service: Seq<char>, now: Instant) -> HealthView {
    HealthView {
        status: "healthy"@,
        service,
        timestamp: rfc3339_text(now.secs as int, now.nanos as int, Zone::Utc),
    }
}

/// The liveness report of `service` for a given moment. The status is
/// `healthy` whatever the moment and whoever asks.
pub fn health_at(service: &str, now: Instant) -> (report: Health)
    requires
        now.is_valid(),
    ensures
        report@ == health_report(service@, now),
        report.status@ == "healthy"@,
{
    Health {
        status: String::from_str("healthy"),
        service: String::from_str(service),
        timestamp: to_rfc3339(now, Zone::Utc),
    }
}

} // verus!
