//! Reading values out of JSON text, through `serde_json`.
use vstd::prelude::*;

verus! {

/// Whether `serde_json` accepts a text as a JSON document.
pub uninterp spec fn json_parses(text: Seq<char>) -> bool;

/// The string that the member `key` of the JSON document `text` holds, if the document
/// is an object with such a member and that member is a JSON string.
pub uninterp spec fn json_string_member(text: Seq<char>, key: Seq<char>) -> Option<Seq<char>>;

/// Relies on `serde_json::from_str::<serde_json::Value>` to read `text`, then on
/// `Value::get` and `Value::as_str` to pick the string member `key`: whether the text
/// parses, and what the member holds, depend on the text and the key alone. A parse
/// error comes back as its message.
#[verifier::external_body]
pub(crate) fn string_member(text: &str, key: &str) -> (r: Result<Option<String>, String>)
    ensures
        r is Ok == json_parses(text@),
        r is Ok ==> match r->Ok_0 {
            Some(s) => json_string_member(text@, key@) == Some(s@),
            None => json_string_member(text@, key@) is None,
        },
{
    match serde_json::from_str::<serde_json::Value>(text) {
        Ok(v) => Ok(v.get(key).and_then(serde_json::Value::as_str).map(String::from)),
        Err(e) => Err(e.to_string()),
    }
}

} // verus!
