//! The time zones the provider knows, and the names it knows them by.

use vstd::prelude::*;
use crate::text::same_text;

verus! {

/// A zone the provider can report the time in.
#[derive(Clone, Copy, Debug, PartialEq, Eq, Structural)]
pub enum Zone {
    Utc,
    UsEastern,
    UsPacific,
    EuropeBerlin,
}

/// Whether `name` is one of the seven names the provider recognises.
/// The match is exact and case-sensitive.
pub open spec fn is_supported(name: Seq<char>) -> bool {
    ||| name == "UTC"@
    ||| name == "EST"@
    ||| name == "US/Eastern"@
    ||| name == "PST"@
    ||| name == "US/Pacific"@
    ||| name == "CET"@
    ||| name == "Europe/Berlin"@
}

/// The zone a name stands for. A name that is not recognised stands for UTC.
pub open spec fn zone_of(name: Seq<char>) -> Zone {
    if name == "EST"@ || name == "US/Eastern"@ {
        Zone::UsEastern
    } else if name == "PST"@ || name == "US/Pacific"@ {
        Zone::UsPacific
    } else if name == "CET"@ || name == "Europe/Berlin"@ {
        Zone::EuropeBerlin
    } else {
        Zone::Utc
    }
}

/// The zone name a request asks for: the one it gives, or `UTC` when it gives
/// none.
pub open spec fn requested_name(timezone: Option<Seq<char>>) -> Seq<char> {
    match timezone {
        Some(name) => name,
        None => "UTC"@,
    }
}

/// Fills in `UTC` for a request that names no zone.
pub fn name_or_default(timezone: Option<String>) -> (name: String)
    ensures
        name@ == requested_name(timezone.deep_view()),
{
    match timezone {
        Some(name) => name,
        None => String::from_str("UTC"),
    }
}

/// Tells whether the provider recognises `name`; when it does not, the time
/// is still served, in UTC.
pub fn supported(name: &str) -> (known: bool)
    ensures
        known == is_supported(name@),
{
    same_text(name, "UTC") || same_text(name, "EST") || same_text(name, "US/Eastern")
        || same_text(name, "PST") || same_text(name, "US/Pacific") || same_text(name, "CET")
        || same_text(name, "Europe/Berlin")
}

/// Resolves a zone name by the fixed table; anything outside it resolves to
/// UTC without complaint.
pub fn resolve(name: &str) -> (zone: Zone)
    ensures
        zone == zone_of(name@),
{
    if same_text(name, "EST") || same_text(name, "US/Eastern") {
        Zone::UsEastern
    } else if same_text(name, "PST") || same_text(name, "US/Pacific") {
        Zone::UsPacific
    } else if same_text(name, "CET") || same_text(name, "Europe/Berlin") {
        Zone::EuropeBerlin
    } else {
        Zone::Utc
    }
}

} // verus!
