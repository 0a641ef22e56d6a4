//! Identifiers: 128-bit UUID values, their text form, and fresh ones.

use vstd::prelude::*;

use crate::text::hex_digit;

verus! {

/// The `k`-th hexadecimal digit (0 = most significant) of the 128 bits `v`.
pub open spec fn uuid_nibble(v: u128, k: int) -> nat {
    ((v >> ((124 - 4 * k) as u128)) & 15u128) as nat
}

/// Where the `i`-th character of the hyphenated text takes its digit from.
pub open spec fn uuid_digit_index(i: int) -> int {
    if i < 8 {
        i
    } else if i < 13 {
        i - 1
    } else if i < 18 {
        i - 2
    } else if i < 23 {
        i - 3
    } else {
        i - 4
    }
}

/// The hyphenated lower-case text of the UUID with bits `v`, as
/// `Uuid::to_string` writes it: 32 hexadecimal digits, most significant
/// first, in groups of 8-4-4-4-12 joined by hyphens.
pub open spec fn uuid_text(v: u128) -> Seq<char> {
    Seq::new(
        36,
        |i: int|
            if i == 8 || i == 13 || i == 18 || i == 23 {
                '-'
            } else {
                hex_digit(uuid_nibble(v, uuid_digit_index(i)))
            },
    )
}

/// What `Uuid::parse_str` makes of a text: the UUID it denotes, if it is one
/// of the formats that the parser accepts (simple, hyphenated, braced, URN).
pub uninterp spec fn uuid_parse(s: Seq<char>) -> Option<u128>;

/// The hyphenated text of the UUID with bits `v` (`Uuid::to_string`).
#[verifier::external_body]
pub fn uuid_to_string(v: u128) -> (s: String)
    ensures
        s@ == uuid_text(v),
{
    uuid::Uuid::from_u128(v).to_string()
}

/// Parses a UUID (`Uuid::parse_str`); the hyphenated text of a UUID parses
/// back to it.
#[verifier::external_body]
pub fn parse_uuid(s: &str) -> (r: Option<u128>)
    ensures
        r == uuid_parse(s@),
        forall|v: u128| s@ == uuid_text(v) ==> r == Some(v),
{
    uuid::Uuid::parse_str(s).ok().map(|u| u.as_u128())
}

/// A fresh random (version 4) UUID (`Uuid::new_v4`); nothing is promised
/// of its bits.
#[verifier::external_body]
pub fn new_uuid_v4() -> u128 {
    uuid::Uuid::new_v4().as_u128()
}

/// The current time as microseconds since the Unix epoch (`Utc::now`);
/// nothing is promised of the value.
#[verifier::external_body]
pub fn now_micros() -> i64 {
    chrono::Utc::now().timestamp_micros()
}

} // verus!
