//! The JSON codec this crate relies on: `serde_json`, behind contracts that
//! are taken on trust.

use vstd::prelude::*;

verus! {

/// The error type of `serde_json`; nothing inside it is visible to proofs.
#[verifier::external_type_specification]
#[verifier::external_body]
pub struct ExJsonError(serde_json::Error);

/// A parsed JSON document of `serde_json`; nothing inside it is visible to
/// proofs except through [`text_members`].
#[verifier::external_type_specification]
#[verifier::external_body]
pub struct ExJsonValue(serde_json::Value);

/// The JSON string literal that `serde_json::to_string` writes for `text`,
/// quotes included.
pub uninterp spec fn string_literal(text: Seq<char>) -> Seq<char>;

/// What `serde_json::from_slice` makes of `bytes` read as one JSON document:
/// `None` where it rejects them, else the string-valued members of the
/// document by name (no member at all unless the document is an object).
pub uninterp spec fn document_members(bytes: Seq<u8>) -> Option<Map<Seq<char>, Seq<char>>>;

/// The string-valued members of a parsed document, by name: what
/// `serde_json::Value::get` finds under a name when the value found is a
/// JSON string. A document that is not an object has no members.
pub uninterp spec fn text_members(document: serde_json::Value) -> Map<Seq<char>, Seq<char>>;

/// Calls `serde_json::to_string` on a string slice. Trusted: the call
/// succeeds, and the literal it gives is a function of the text alone,
/// named by [`string_literal`]. It succeeds because a string slice is
/// written piece by piece into a byte vector in memory, and the only errors
/// on that path are those of the writer, which a byte vector never gives.
#[verifier::external_body]
pub(crate) fn quote(text: &str) -> (r: Result<String, serde_json::Error>)
    ensures
        r is Ok,
        r matches Ok(literal) ==> literal@ == string_literal(text@),
{
    serde_json::to_string(text)
}

/// Calls `serde_json::from_slice` to read one `serde_json::Value` from
/// `bytes`. Trusted: whether the bytes are accepted, and which string-valued
/// members the document then has, is a function of the bytes alone, named by
/// [`document_members`].
#[verifier::external_body]
pub(crate) fn parse(bytes: &[u8]) -> (r: Result<serde_json::Value, serde_json::Error>)
    ensures
        r matches Ok(document) ==> document_members(bytes@) == Some(text_members(document)),
        r is Err ==> document_members(bytes@) is None,
{
    serde_json::from_slice(bytes)
}

/// Calls `serde_json::Value::get` with a member name and hands out the text
/// found there when it is a JSON string. Trusted: the result is `Some`
/// exactly for the names in [`text_members`], with the text stored there.
#[verifier::external_body]
pub(crate) fn text_member(document: &serde_json::Value, name: &str) -> (r: Option<String>)
    ensures
        r matches Some(text) ==> text_members(*document).contains_key(name@) && text_members(
            *document,
        )[name@] == text@,
        r is None ==> !text_members(*document).contains_key(name@),
{
    match document.get(name) {
        Some(serde_json::Value::String(text)) => Some(text.clone()),
        _ => None,
    }
}

} // verus!
