//! Fresh identifiers and the wall clock.
//!
//! Identifiers are random version-4 UUIDs held as `u128`; timestamps are
//! milliseconds since the Unix epoch. Both come from outside crates and
//! depend on chance or time, so their contracts say only what holds of every
//! outcome.
use vstd::prelude::*;
use vstd::arithmetic::power::pow;

use crate::text::digit_char;

verus! {

/// The nil identifier (all bits zero), used where a record has no owner yet.
pub const NIL_ID: u128 = 0;

/// Calls `uuid::Uuid::new_v4` and returns its 128-bit value.
///
/// `new_v4` sets the version and variant bits of its random value, so the
/// result is never the nil id; nothing else about it is stated (it is random).
#[verifier::external_body]
pub(crate) fn fresh_id() -> (id: u128)
    ensures
        id != NIL_ID,
{
    uuid::Uuid::new_v4().as_u128()
}

/// Calls `chrono::Utc::now` and returns `timestamp_millis` of it.
///
/// The result is the current time, so no value is stated for it.
#[verifier::external_body]
pub(crate) fn now_millis() -> (t: i64) {
    chrono::Utc::now().timestamp_millis()
}

/// The text that chrono's `format(pattern)` writes for the UTC instant
/// `ms` milliseconds after the Unix epoch (strftime-style patterns).
pub uninterp spec fn utc_format(ms: int, pattern: Seq<char>) -> Seq<char>;

/// The pattern of a date and time to the second: `%Y-%m-%d %H:%M:%S`.
pub open spec fn datetime_pattern() -> Seq<char> {
    "%Y-%m-%d %H:%M:%S"@
}

/// Calls `chrono::Utc::now`, takes its `timestamp_millis`, and formats that
/// instant with `format(pattern)` (through `DateTime::from_timestamp_millis`,
/// which accepts every current time).
///
/// The instant is the current time, so no value is stated for it; the text
/// is stated to be the formatting of that instant. The pattern is the
/// date-and-time pattern, which chrono formats without error.
#[verifier::external_body]
pub(crate) fn now_with_label(pattern: &str) -> (r: (i64, String))
    requires
        pattern@ == datetime_pattern(),
    ensures
        r.1@ == utc_format(r.0 as int, pattern@),
{
    let ms = chrono::Utc::now().timestamp_millis();
    match chrono::DateTime::from_timestamp_millis(ms) {
        Some(instant) => (ms, instant.format(pattern).to_string()),
        None => (ms, String::new()),
    }
}

/// The lower-case hexadecimal digit of `d` (below sixteen).
pub open spec fn hex_digit(d: int) -> char {
    if d < 10 {
        digit_char(d)
    } else if d == 10 {
        'a'
    } else if d == 11 {
        'b'
    } else if d == 12 {
        'c'
    } else if d == 13 {
        'd'
    } else if d == 14 {
        'e'
    } else {
        'f'
    }
}

/// The 32 hexadecimal digits of `id`, most significant first.
pub open spec fn hex_digits(id: u128) -> Seq<char> {
    Seq::new(32, |i: int| hex_digit((id as int / pow(16, (31 - i) as nat)) % 16))
}

/// The hyphenated lower-case text of the UUID whose value is `id`: its 32
/// hexadecimal digits in groups of 8, 4, 4, 4 and 12, joined by `-`.
pub open spec fn uuid_text(id: u128) -> Seq<char> {
    let h = hex_digits(id);
    h.subrange(0, 8) + "-"@ + h.subrange(8, 12) + "-"@ + h.subrange(12, 16) + "-"@
        + h.subrange(16, 20) + "-"@ + h.subrange(20, 32)
}

/// Calls `uuid::Uuid::from_u128` and formats the UUID with `Display`,
/// which uuid documents as the hyphenated lower-case form.
#[verifier::external_body]
pub(crate) fn format_uuid(id: u128) -> (r: String)
    ensures
        r@ == uuid_text(id),
{
    uuid::Uuid::from_u128(id).to_string()
}

} // verus!
