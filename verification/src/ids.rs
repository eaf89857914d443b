//! Account, player and world identifiers (UUIDs held as their 128-bit value)
//! and their text form.

use uuid::Uuid;
use vstd::prelude::*;
use vstd::arithmetic::power::pow;

verus! {

/// Lower-case hexadecimal digit of a value in `0..16`.
pub open spec fn hex_digit(n: int) -> char {
    if n < 10 {
        (48 + n) as char
    } else {
        (87 + n) as char
    }
}

/// The `k`-th hexadecimal digit (from the most significant, `0..32`) of `v`.
pub open spec fn nibble(v: u128, k: int) -> int {
    (v as int / pow(16, (31 - k) as nat)) % 16
}

/// Position among the 32 digits of the character at position `p` of the
/// hyphenated form (hyphens sit at 8, 13, 18 and 23).
pub open spec fn digit_position(p: int) -> int {
    if p < 8 {
        p
    } else if p < 13 {
        p - 1
    } else if p < 18 {
        p - 2
    } else if p < 23 {
        p - 3
    } else {
        p - 4
    }
}

/// The hyphenated lower-case form of a UUID, as `Uuid`'s `Display` prints it:
/// the 32 hex digits of the big-endian value in groups of 8-4-4-4-12.
pub open spec fn hyphenated(v: u128) -> Seq<char> {
    Seq::new(36, |p: int| if p == 8 || p == 13 || p == 18 || p == 23 {
        '-'
    } else {
        hex_digit(nibble(v, digit_position(p)))
    })
}

/// What `Uuid::parse_str` returns for a text (the value of the UUID, or
/// `None` for an error). It accepts several textual forms.
pub uninterp spec fn uuid_parse(s: Seq<char>) -> Option<u128>;

/// `Uuid::new_v4()`: a fresh random (version 4) UUID. Nothing is claimed of
/// the value.
#[verifier::external_body]
pub(crate) fn new_uuid() -> u128 {
    Uuid::new_v4().as_u128()
}

/// `Uuid::from_u128(v).to_string()`: the hyphenated lower-case text of a UUID
/// (the `Display` of `Uuid` formats it as lower-case hyphenated hex of the
/// big-endian value), which `Uuid::parse_str` reads back as the same UUID.
#[verifier::external_body]
pub(crate) fn uuid_string(v: u128) -> (s: String)
    ensures
        s@ == hyphenated(v),
        uuid_parse(s@) == Some(v),
{
    Uuid::from_u128(v).to_string()
}

/// `Uuid::parse_str`: the UUID a text denotes, if it is one. The result is
/// named, not stated: the accepted forms are left to the `uuid` crate.
#[verifier::external_body]
pub(crate) fn parse_uuid(s: &str) -> (r: Option<u128>)
    ensures
        r == uuid_parse(s@),
{
    match Uuid::parse_str(s) {
        Ok(u) => Some(u.as_u128()),
        Err(_) => None,
    }
}

} // verus!
