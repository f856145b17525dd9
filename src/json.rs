//! Decoding request bodies: UTF-8 text, then a JSON document written back out.
use vstd::prelude::*;
use vstd::utf8::{decode_utf8, valid_utf8};

verus! {

/// What serde_json makes of `text` read as one `serde_json::Value`: the document written
/// back out as compact JSON, or the description of why reading failed. Beside
/// well-formedness, its reader bounds how deeply arrays and objects nest.
pub uninterp spec fn json_reading(text: Seq<char>) -> Result<Seq<char>, Seq<char>>;

/// Whether serde_json reads `text` as one JSON document.
pub open spec fn parses_as_json(text: Seq<char>) -> bool {
    json_reading(text) is Ok
}

/// The compact JSON text of the document that `text` holds.
pub open spec fn json_rendering(text: Seq<char>) -> Seq<char> {
    json_reading(text)->Ok_0
}

/// Why serde_json could not read `text` as a JSON document.
pub open spec fn json_error_description(text: Seq<char>) -> Seq<char> {
    json_reading(text)->Err_0
}

pub open spec fn text_result_view(r: Result<String, String>) -> Result<Seq<char>, Seq<char>> {
    match r {
        Ok(s) => Ok(s@),
        Err(e) => Err(e@),
    }
}

/// Relies on `std::str::from_utf8`: it succeeds exactly on valid UTF-8, with the text
/// that the bytes encode.
#[verifier::external_body]
pub(crate) fn utf8_text(bytes: &[u8]) -> (r: Option<&str>)
    ensures
        r is Some <==> valid_utf8(bytes@),
        r matches Some(t) ==> t@ == decode_utf8(bytes@),
{
    std::str::from_utf8(bytes).ok()
}

/// Relies on `serde_json::from_str` into a `serde_json::Value`, which succeeds exactly
/// when the text is one JSON document, and on `Display` of the value it returns (compact
/// JSON) or of the error (where reading failed). Both depend on the text alone.
#[verifier::external_body]
pub(crate) fn reserialize_json(text: &str) -> (r: Result<String, String>)
    ensures
        text_result_view(r) == json_reading(text@),
{
    match serde_json::from_str::<serde_json::Value>(text) {
        Ok(v) => Ok(v.to_string()),
        Err(e) => Err(e.to_string()),
    }
}

} // verus!
