//! Reading string members out of JSON text, through `serde_json`.
use vstd::prelude::*;

verus! {

/// `serde_json::Error`, carried opaquely out of the parsing wrappers.
#[verifier::external_type_specification]
#[verifier::external_body]
pub struct ExJsonError(serde_json::Error);

/// What `serde_json` finds for member `key` of the JSON document `text`:
/// `None` when `serde_json` refuses the text (it is not JSON, or nests
/// deeper than the parser's limit), `Some(None)` when the document is not an
/// object or has no member `key` holding a string, and otherwise the string.
pub uninterp spec fn json_member(text: Seq<char>, key: Seq<char>) -> Option<Option<Seq<char>>>;

/// What `serde_json` finds for member `key` of the first element of the JSON
/// document `text`: `None` when `serde_json` refuses the text, `Some(None)` when the
/// document is not a non-empty array, `Some(Some(None))` when that element
/// has no member `key` holding a string, and otherwise the string.
pub uninterp spec fn json_first_member(text: Seq<char>, key: Seq<char>) -> Option<
    Option<Option<Seq<char>>>,
>;

/// An optional string as an optional character sequence.
pub open spec fn opt_view(o: Option<String>) -> Option<Seq<char>> {
    match o {
        Some(s) => Some(s@),
        None => None,
    }
}

/// Relies on `serde_json::from_str` into a `Value`, then `Value::get` with a
/// string key and `Value::as_str`: the result depends on the text and the key
/// alone, and the member is read only from an object and only as a string.
#[verifier::external_body]
pub(crate) fn str_member(text: &str, key: &str) -> (r: Result<Option<String>, serde_json::Error>)
    ensures
        match r {
            Ok(m) => json_member(text@, key@) == Some(opt_view(m)),
            Err(_) => json_member(text@, key@).is_none(),
        },
{
    match serde_json::from_str::<serde_json::Value>(text) {
        Ok(v) => Ok(v.get(key).and_then(serde_json::Value::as_str).map(str::to_owned)),
        Err(e) => Err(e),
    }
}

/// Relies on `serde_json::from_str` into a `Value`, then `Value::get` with
/// the index 0 and with a string key, and `Value::as_str`: the result depends
/// on the text and the key alone, the element is read only from an array and
/// the member only from an object, as a string.
#[verifier::external_body]
pub(crate) fn first_record_str_member(text: &str, key: &str) -> (r: Result<
    Option<Option<String>>,
    serde_json::Error,
>)
    ensures
        match r {
            Ok(Some(m)) => json_first_member(text@, key@) == Some(Some(opt_view(m))),
            Ok(None) => json_first_member(text@, key@) == Some(None::<Option<Seq<char>>>),
            Err(_) => json_first_member(text@, key@).is_none(),
        },
{
    match serde_json::from_str::<serde_json::Value>(text) {
        Ok(v) => match v.get(0) {
            Some(rec) => Ok(Some(rec.get(key).and_then(serde_json::Value::as_str).map(str::to_owned))),
            None => Ok(None),
        },
        Err(e) => Err(e),
    }
}

} // verus!
