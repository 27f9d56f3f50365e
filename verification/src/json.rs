//! Calls into `serde_json` for the JSON metadata of notes.
use vstd::prelude::*;

verus! {

/// The JSON document that `serde_json::from_str::<serde_json::Value>` reads
/// from the text, or `None` when it rejects the text. It depends on the text alone.
pub uninterp spec fn json_document(text: Seq<char>) -> Option<serde_json::Value>;

/// Whether `serde_json` reads the text as a JSON document.
pub open spec fn json_parses(text: Seq<char>) -> bool {
    json_document(text) is Some
}

/// `serde_json::from_str::<serde_json::Value>`: reads the text as a JSON
/// document. The document read is named by `json_document`: the call succeeds
/// exactly when `json_document` gives a document, and returns that document.
#[verifier::external_body]
pub(crate) fn parse_json(text: &str) -> (res: Result<serde_json::Value, serde_json::Error>)
    ensures
        match res {
            Ok(v) => json_document(text@) == Some(v),
            Err(_) => json_document(text@) is None,
        },
{
    serde_json::from_str::<serde_json::Value>(text)
}

/// `serde_json::Value::Null`, the metadata of a note created without any: the
/// document that `serde_json` reads from the text `null`.
#[verifier::external_body]
pub(crate) fn json_null() -> (res: serde_json::Value)
    ensures
        json_document("null"@) == Some(res),
{
    serde_json::Value::Null
}

} // verus!
