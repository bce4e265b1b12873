//! JSON documents are held as their text. These wrappers ask `serde_json`
//! what a document holds; each names its result by a spec function of the
//! text, since JSON's grammar takes pages to state.
use vstd::prelude::*;

use crate::ids::hex_digit;

verus! {

/// Whether `text` parses as JSON (`serde_json::from_str::<Value>` succeeds).
pub uninterp spec fn json_valid(text: Seq<char>) -> bool;

/// When `text` parses to a JSON object that has `key`, the compact
/// serialization (`Value::to_string`) of that member's value.
pub uninterp spec fn json_member(text: Seq<char>, key: Seq<char>) -> Option<Seq<char>>;

/// When `text` parses to a JSON string, that string's contents.
pub uninterp spec fn json_string(text: Seq<char>) -> Option<Seq<char>>;

/// The text that `serde_json::to_string_pretty` writes for the value that
/// `text` parses to.
pub uninterp spec fn json_pretty(text: Seq<char>) -> Seq<char>;

/// How serde_json writes the character `c` inside a string: `"` and `\`
/// after a backslash; backspace, tab, line feed, form feed and carriage
/// return as `\b`, `\t`, `\n`, `\f`, `\r`; any other character below
/// 0x20 as `\u00` and two lower-case hexadecimal digits; every other
/// character as it is.
pub open spec fn escaped_char(c: char) -> Seq<char> {
    let u = c as int;
    if c == '"' {
        seq!['\\', '"']
    } else if c == '\\' {
        seq!['\\', '\\']
    } else if u == 0x08 {
        seq!['\\', 'b']
    } else if u == 0x09 {
        seq!['\\', 't']
    } else if u == 0x0a {
        seq!['\\', 'n']
    } else if u == 0x0c {
        seq!['\\', 'f']
    } else if u == 0x0d {
        seq!['\\', 'r']
    } else if u < 0x20 {
        seq!['\\', 'u', '0', '0', hex_digit(u / 16), hex_digit(u % 16)]
    } else {
        seq![c]
    }
}

/// The characters of `s`, each escaped as serde_json writes it in a string.
pub open spec fn escaped(s: Seq<char>) -> Seq<char>
    decreases s.len(),
{
    if s.len() == 0 {
        Seq::empty()
    } else {
        escaped(s.drop_last()) + escaped_char(s.last())
    }
}

/// The compact JSON text of the string `s` (`serde_json::to_string(&str)`):
/// `s` escaped, between double quotes.
pub open spec fn json_quote(s: Seq<char>) -> Seq<char> {
    seq!['"'] + escaped(s) + seq!['"']
}

/// The message of the error that `serde_json::from_str::<Value>` reports for
/// `text` when it does not parse (`Error`'s `Display`).
pub uninterp spec fn json_error(text: Seq<char>) -> Seq<char>;

/// Calls `serde_json::from_str::<Value>`: `None` when `text` parses, else the
/// error's message.
#[verifier::external_body]
pub(crate) fn json_parse_error(text: &str) -> (r: Option<String>)
    ensures
        r is None <==> json_valid(text@),
        r matches Some(m) ==> m@ == json_error(text@),
{
    match serde_json::from_str::<serde_json::Value>(text) {
        Ok(_) => None,
        Err(error) => Some(error.to_string()),
    }
}

/// Calls `serde_json::from_str::<Value>` and then `Value::get(key)`, and
/// returns the member's value as compact JSON text.
#[verifier::external_body]
pub(crate) fn json_get(text: &str, key: &str) -> (r: Option<String>)
    ensures
        r matches Some(v) ==> json_member(text@, key@) == Some(v@),
        r is None ==> json_member(text@, key@) is None,
{
    match serde_json::from_str::<serde_json::Value>(text) {
        Ok(value) => value.get(key).map(|member| member.to_string()),
        Err(_) => None,
    }
}

/// Calls `serde_json::from_str::<Value>` and then `Value::as_str`.
#[verifier::external_body]
pub(crate) fn json_as_str(text: &str) -> (r: Option<String>)
    ensures
        r matches Some(v) ==> json_string(text@) == Some(v@),
        r is None ==> json_string(text@) is None,
{
    match serde_json::from_str::<serde_json::Value>(text) {
        Ok(value) => value.as_str().map(|s| s.to_string()),
        Err(_) => None,
    }
}

/// Calls `serde_json::to_string_pretty` on the value that `text` parses to;
/// `None` when `text` does not parse.
#[verifier::external_body]
pub(crate) fn json_to_pretty(text: &str) -> (r: Option<String>)
    ensures
        r is Some <==> json_valid(text@),
        r matches Some(p) ==> p@ == json_pretty(text@),
{
    match serde_json::from_str::<serde_json::Value>(text) {
        Ok(value) => serde_json::to_string_pretty(&value).ok(),
        Err(_) => None,
    }
}

/// Calls `serde_json::to_string` on a string: its JSON literal, quoted and
/// escaped (serde_json's `format_escaped_str` and its `ESCAPE` table; it
/// cannot fail on a string).
#[verifier::external_body]
pub(crate) fn json_quote_str(s: &str) -> (r: String)
    ensures
        r@ == json_quote(s@),
{
    serde_json::to_string(s).unwrap_or_default()
}

/// When `text` parses to a JSON array, the compact serialization of each of
/// its elements, in order.
pub uninterp spec fn json_elements(text: Seq<char>) -> Option<Seq<Seq<char>>>;

/// When `text` parses to a JSON boolean, its value.
pub uninterp spec fn json_boolean(text: Seq<char>) -> Option<bool>;

/// When `text` parses to a JSON number that is a non-negative integer
/// fitting in 64 bits, its value (`Value::as_u64`).
pub uninterp spec fn json_unsigned(text: Seq<char>) -> Option<u64>;

/// Whether `text` parses to a JSON object.
pub uninterp spec fn json_object(text: Seq<char>) -> bool;

/// Calls `serde_json::from_str::<Value>` and then `Value::as_array`, and
/// returns each element as compact JSON text.
#[verifier::external_body]
pub(crate) fn json_array(text: &str) -> (r: Option<Vec<String>>)
    ensures
        match json_elements(text@) {
            Some(items) => r matches Some(v) && v@.map_values(|t: String| t@) == items,
            None => r is None,
        },
{
    match serde_json::from_str::<serde_json::Value>(text) {
        Ok(serde_json::Value::Array(items)) => Some(items.iter().map(|item| item.to_string()).collect()),
        _ => None,
    }
}

/// Calls `serde_json::from_str::<Value>` and then `Value::as_bool`.
#[verifier::external_body]
pub(crate) fn json_as_bool(text: &str) -> (r: Option<bool>)
    ensures
        r == json_boolean(text@),
{
    match serde_json::from_str::<serde_json::Value>(text) {
        Ok(value) => value.as_bool(),
        Err(_) => None,
    }
}

/// Calls `serde_json::from_str::<Value>` and then `Value::as_u64`.
#[verifier::external_body]
pub(crate) fn json_as_u64(text: &str) -> (r: Option<u64>)
    ensures
        r == json_unsigned(text@),
{
    match serde_json::from_str::<serde_json::Value>(text) {
        Ok(value) => value.as_u64(),
        Err(_) => None,
    }
}

/// Calls `serde_json::from_str::<Value>` and then `Value::is_object`.
#[verifier::external_body]
pub(crate) fn json_is_object(text: &str) -> (r: bool)
    ensures
        r == json_object(text@),
{
    match serde_json::from_str::<serde_json::Value>(text) {
        Ok(value) => value.is_object(),
        Err(_) => false,
    }
}

} // verus!
