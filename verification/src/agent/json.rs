//! Reading JSON payloads through `serde_json`. Nothing here is proved: the
//! contracts state what the parser is trusted to do.

use vstd::prelude::*;

verus! {

/// `serde_json::Value`, a decoded JSON document. Its contents are read only
/// through [`text_member`].
#[verifier::external_type_specification]
#[verifier::external_body]
pub struct ExJsonValue(serde_json::Value);

/// The string-valued members of a JSON document: for an object, each key whose
/// value is a JSON string, mapped to that string; empty for any other value.
pub uninterp spec fn text_members(value: serde_json::Value) -> Map<Seq<char>, Seq<char>>;

/// What `serde_json::from_str` makes of a text: `None` where the text is not
/// one well-formed JSON document, otherwise the string-valued members of the
/// document it denotes.
pub uninterp spec fn parsed_members(text: Seq<char>) -> Option<Map<Seq<char>, Seq<char>>>;

/// Calls `serde_json::from_str` for a `serde_json::Value`. The outcome depends
/// on the text alone: success exactly where [`parsed_members`] is `Some`, and
/// then the document holds those string-valued members.
#[verifier::external_body]
pub(crate) fn parse_document(text: &str) -> (parsed: Result<serde_json::Value, serde_json::Error>)
    ensures
        parsed matches Ok(value) ==> parsed_members(text@) == Some(text_members(value)),
        parsed is Err ==> parsed_members(text@) is None,
{
    serde_json::from_str::<serde_json::Value>(text)
}

/// Calls `serde_json::Value::get` with a string key and `Value::as_str` on
/// what it finds: the member's text where the document is an object that holds
/// the key with a string value, `None` in every other case.
#[verifier::external_body]
pub(crate) fn text_member(value: &serde_json::Value, key: &str) -> (found: Option<String>)
    ensures
        found matches Some(text) ==> text_members(*value).contains_key(key@)
            && text_members(*value)[key@] == text@,
        found is None ==> !text_members(*value).contains_key(key@),
{
    value.get(key).and_then(serde_json::Value::as_str).map(String::from)
}

} // verus!
