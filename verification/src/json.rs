//! The calls into `serde_json`, each behind a contract that is believed, not
//! proved.
//!
//! `serde_json` reads a whole document and writes string literals. The
//! journal's own layout of a document is put together and taken apart by
//! verified code elsewhere in the crate.

use vstd::prelude::*;

verus! {

/// A JSON value as `serde_json` holds it once it has read a document.
#[verifier::external_type_specification]
#[verifier::external_body]
pub struct ExValue(serde_json::Value);

/// The reason `serde_json` gives for refusing a document.
#[verifier::external_type_specification]
#[verifier::external_body]
pub struct ExJsonError(serde_json::Error);

/// The JSON string literal that `serde_json::to_vec` writes for `text`:
/// the text between double quotes, escaped where JSON asks for it, as UTF-8.
pub uninterp spec fn quoted(text: Seq<char>) -> Seq<u8>;

/// The members of the JSON object `value` whose values are strings, by key.
/// It is empty where `value` is no object.
pub uninterp spec fn string_members(value: serde_json::Value) -> Map<Seq<char>, Seq<char>>;

/// The members of the JSON object `value` whose values are integers that fit
/// in 64 signed bits, by key. It is empty where `value` is no object.
pub uninterp spec fn integer_members(value: serde_json::Value) -> Map<Seq<char>, int>;

/// What `serde_json::from_slice` makes of `bytes` when asked for an array of
/// values: for each element its string and integer members, or `None` where
/// `serde_json` refuses `bytes` as a JSON array.
pub uninterp spec fn document(bytes: Seq<u8>) -> Option<
    Seq<(Map<Seq<char>, Seq<char>>, Map<Seq<char>, int>)>,
>;

/// The members of each value of `items`, in order.
pub open spec fn members(items: Seq<serde_json::Value>) -> Seq<
    (Map<Seq<char>, Seq<char>>, Map<Seq<char>, int>),
> {
    items.map_values(|v: serde_json::Value| (string_members(v), integer_members(v)))
}

/// Calls `serde_json::to_vec` on a string slice. The contract claims that the
/// call cannot fail, since writing a string into a vector has no way to, and
/// gives the bytes it returns the name `quoted`.
#[verifier::external_body]
pub(crate) fn quote(text: &str) -> (out: Vec<u8>)
    ensures
        out@ == quoted(text@),
{
    serde_json::to_vec(text).unwrap_or_default()
}

/// Calls `serde_json::from_slice` for a vector of values. The contract
/// claims only that success and the values read depend on the bytes alone,
/// under the name `document`.
#[verifier::external_body]
pub(crate) fn parse_array(bytes: &[u8]) -> (parsed: Result<
    Vec<serde_json::Value>,
    serde_json::Error,
>)
    ensures
        match parsed {
            Ok(items) => document(bytes@) == Some(members(items@)),
            Err(_) => document(bytes@) is None,
        },
{
    serde_json::from_slice(bytes)
}

/// Calls `Value::get` with a key and `Value::as_str` on what is found. The
/// contract claims that the result is the string member of that name, if
/// the value is an object that has one.
#[verifier::external_body]
pub(crate) fn string_member(value: &serde_json::Value, key: &str) -> (found: Option<String>)
    ensures
        match found {
            Some(s) => string_members(*value).contains_key(key@) && string_members(*value)[key@]
                == s@,
            None => !string_members(*value).contains_key(key@),
        },
{
    Some(value.get(key)?.as_str()?.to_owned())
}

/// Calls `Value::get` with a key and `Value::as_i64` on what is found. The
/// contract claims that the result is the integer member of that name, if
/// the value is an object that has one and the integer fits.
#[verifier::external_body]
pub(crate) fn integer_member(value: &serde_json::Value, key: &str) -> (found: Option<i64>)
    ensures
        match found {
            Some(n) => integer_members(*value).contains_key(key@) && integer_members(*value)[key@]
                == n,
            None => !integer_members(*value).contains_key(key@),
        },
{
    value.get(key)?.as_i64()
}

} // verus!
