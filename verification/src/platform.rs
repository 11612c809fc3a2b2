//! Identifiers, clock readings and number formatting.

use vstd::prelude::*;

verus! {

/// An instant, as milliseconds since the Unix epoch (UTC).
#[derive(Clone, Copy, Debug, PartialEq, Eq, Structural)]
pub struct Timestamp {
    pub millis: i64,
}

/// The lower-case hexadecimal digit for `n`, where `0 <= n < 16`.
pub open spec fn hex_digit(n: int) -> char {
    if n < 10 {
        ('0' as int + n) as char
    } else {
        ('a' as int + (n - 10)) as char
    }
}

/// `value` written in lower-case hexadecimal on exactly `digits` digits,
/// most significant first (higher digits are dropped).
pub open spec fn hex_text(value: nat, digits: nat) -> Seq<char>
    decreases digits,
{
    if digits == 0 {
        Seq::empty()
    } else {
        hex_text(value / 16, (digits - 1) as nat).push(hex_digit((value % 16) as int))
    }
}

/// The canonical text of a 128-bit identifier: 32 lower-case hexadecimal
/// digits, most significant first, in groups of 8-4-4-4-12 joined by hyphens.
pub open spec fn uuid_text(id: u128) -> Seq<char> {
    let digits = hex_text(id as nat, 32);
    digits.subrange(0, 8) + seq!['-'] + digits.subrange(8, 12) + seq!['-'] + digits.subrange(12, 16)
        + seq!['-'] + digits.subrange(16, 20) + seq!['-'] + digits.subrange(20, 32)
}

/// The decimal digits of `n`, most significant first, without leading zeros.
pub open spec fn decimal_digits(n: nat) -> Seq<char>
    decreases n,
{
    if n < 10 {
        seq![('0' as int + n) as char]
    } else {
        decimal_digits(n / 10).push(('0' as int + n % 10) as char)
    }
}

/// `n` in decimal, with a leading `-` when negative.
pub open spec fn decimal_text(n: int) -> Seq<char> {
    if n < 0 {
        seq!['-'] + decimal_digits((-n) as nat)
    } else {
        decimal_digits(n as nat)
    }
}

/// Draws a fresh random identifier with `uuid::Uuid::new_v4`. Nothing is
/// claimed about the value: two calls may return anything.
#[verifier::external_body]
pub(crate) fn new_uuid() -> (id: u128) {
    uuid::Uuid::new_v4().as_u128()
}

/// Renders an identifier with `uuid::Uuid`'s `Display`, which writes the
/// hyphenated lower-case form that [`uuid_text`] describes.
#[verifier::external_body]
pub(crate) fn uuid_to_string(id: u128) -> (text: String)
    ensures
        text@ == uuid_text(id),
{
    uuid::Uuid::from_u128(id).to_string()
}

/// Reads the wall clock with `chrono::Utc::now`, truncated to milliseconds.
/// Nothing is claimed about the value.
#[verifier::external_body]
pub(crate) fn now() -> (t: Timestamp) {
    Timestamp { millis: chrono::Utc::now().timestamp_millis() }
}

/// Formats an integer with the standard library's `Display` for `i64`:
/// decimal digits, preceded by `-` for a negative number.
#[verifier::external_body]
pub(crate) fn int_to_string(n: i64) -> (text: String)
    ensures
        text@ == decimal_text(n as int),
{
    n.to_string()
}

/// Whether `c` occurs in `s`.
pub fn contains_char(s: &str, c: char) -> (found: bool)
    ensures
        found == s@.contains(c),
{
    for x in iter: s.chars()
        invariant
            iter.seq() == s@,
            forall|j: int| 0 <= j < iter.index() ==> s@[j] != c,
    {
        if x == c {
            return true;
        }
    }
    false
}

} // verus!
