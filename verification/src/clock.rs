//! Moments in time, read from the system clock and written out as
//! offset-aware date-times.

use vstd::prelude::*;
use crate::zone::Zone;

verus! {

/// The last whole second the calendar behind the formatter can hold:
/// 23:59:59 on 31 December of the year 262142, counted from the Unix epoch.
pub const MAX_UNIX_SECONDS: i64 = 8_210_266_876_799;

/// A moment on the UTC time line: whole seconds since 1970-01-01T00:00:00Z
/// and the nanoseconds into that second.
#[derive(Clone, Copy, Debug, PartialEq, Eq, Structural)]
pub struct Instant {
    pub secs: i64,
    pub nanos: u32,
}

impl Instant {
    /// A moment at or after the epoch that the calendar can hold, with a
    /// proper sub-second part. Every moment the clock hands out is one.
    pub open spec fn is_valid(&self) -> bool {
        &&& 0 <= self.secs <= MAX_UNIX_SECONDS
        &&& self.nanos < 1_000_000_000
    }

    /// Builds a moment from its two parts, if they make a valid one.
    pub fn new(secs: i64, nanos: u32) -> (made: Option<Instant>)
        ensures
            made == if (Instant { secs, nanos }).is_valid() {
                Some(Instant { secs, nanos })
            } else {
                None::<Instant>
            },
    {
        if 0 <= secs && secs <= MAX_UNIX_SECONDS && nanos < 1_000_000_000 {
            Some(Instant { secs, nanos })
        } else {
            None
        }
    }
}

/// The RFC 3339 text of the moment `secs`.`nanos` as a clock in `zone` shows
/// it: date, `T`, time of day, an optional fraction, and the zone's offset
/// from UTC at that moment as `+hh:mm` or `-hh:mm`.
pub uninterp spec fn rfc3339_text(secs: int, nanos: int, zone: Zone) -> Seq<char>;

/// Reads the system clock through `chrono::Utc::now`.
///
/// Taken on trust: the reading lies at or after the Unix epoch and within the
/// calendar's range, and its sub-second part is below one second. Nothing is
/// claimed about which moment it is, nor that two readings are ordered.
#[verifier::external_body]
pub(crate) fn now() -> (at: Instant)
    ensures
        at.is_valid(),
{
    let reading = chrono::Utc::now();
    Instant { secs: reading.timestamp(), nanos: reading.timestamp_subsec_nanos() }
}

/// Writes a moment out with `chrono::DateTime::to_rfc3339`, after moving it
/// into `zone` with `chrono::DateTime::with_timezone` and the zone tables of
/// `chrono_tz` (UTC needs no move).
///
/// Taken on trust: the text depends on the moment and the zone alone, so it
/// is the one that `rfc3339_text` names. A valid moment is always accepted by
/// `chrono::DateTime::from_timestamp`.
#[verifier::external_body]
pub(crate) fn to_rfc3339(at: Instant, zone: Zone) -> (text: String)
    requires
        at.is_valid(),
    ensures
        text@ == rfc3339_text(at.secs as int, at.nanos as int, zone),
{
    let utc = chrono::DateTime::from_timestamp(at.secs, at.nanos).unwrap();
    match zone {
        Zone::Utc => utc.to_rfc3339(),
        Zone::UsEastern => utc.with_timezone(&chrono_tz::US::Eastern).to_rfc3339(),
        Zone::UsPacific => utc.with_timezone(&chrono_tz::US::Pacific).to_rfc3339(),
        Zone::EuropeBerlin => utc.with_timezone(&chrono_tz::Europe::Berlin).to_rfc3339(),
    }
}

} // verus!
