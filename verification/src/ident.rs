//! Request identifiers: opaque tokens that tie one request's log lines and
//! replies together across both services.

use vstd::prelude::*;

verus! {

/// A lower-case hexadecimal digit.
pub open spec fn is_lower_hex(c: char) -> bool {
    ('0' <= c && c <= '9') || ('a' <= c && c <= 'f')
}

/// Whether `c` may stand at place `i` of a minted identifier: a hyphen after
/// the groups of 8, 4, 4 and 4 digits, a lower-case hexadecimal digit
/// elsewhere.
pub open spec fn fits_at(i: int, c: char) -> bool {
    if i == 8 || i == 13 || i == 18 || i == 23 {
        c == '-'
    } else {
        is_lower_hex(c)
    }
}

/// The shape of a freshly minted identifier: 36 characters in five groups of
/// lower-case hexadecimal digits, 8-4-4-4-12, joined by hyphens, the third
/// group opening with the version digit `4`.
pub open spec fn is_minted(id: Seq<char>) -> bool {
    &&& id.len() == 36
    &&& forall|i: int| 0 <= i < 36 ==> fits_at(i, #[trigger] id[i])
    &&& id[14] == '4'
}

/// Mints an identifier with `uuid::Uuid::new_v4`, written out by the `Display`
/// of `uuid::Uuid`.
///
/// Taken on trust: the text has the hyphenated lower-case form of a version 4
/// UUID. Which digits it holds is left to chance, so nothing says that two
/// identifiers differ.
#[verifier::external_body]
pub(crate) fn mint() -> (id: String)
    ensures
        is_minted(id@),
{
    uuid::Uuid::new_v4().to_string()
}

} // verus!
