use vstd::prelude::*;

verus! {

/// Declares `serde_json::Value`, the structured value a raw call passes
/// through untouched; the library looks at nothing inside one.
#[verifier::external_type_specification]
#[verifier::external_body]
pub struct ExValue(serde_json::Value);

/// Declares `serde_json::Error`, the parser's own error; the library
/// maps it to its input-error type without reading it.
#[verifier::external_type_specification]
#[verifier::external_body]
pub struct ExJsonError(serde_json::Error);

/// Whether a byte string is a JSON array literal: parsing it as an array
/// of JSON values succeeds. Parsing is a function of the bytes alone.
pub uninterp spec fn json_array_wf(s: Seq<u8>) -> bool;

/// The number of elements of the JSON array literal that `s` holds.
pub uninterp spec fn json_array_len(s: Seq<u8>) -> nat;

/// Relies on `serde_json::from_slice::<Vec<Value>>`: it parses the bytes
/// as a JSON array and returns its elements in order, failing exactly
/// when the bytes are not such an array. Which byte strings parse, and
/// how many elements come back, is named, not stated.
#[verifier::external_body]
pub(crate) fn parse_json_array(s: &[u8]) -> (r: Result<Vec<serde_json::Value>, serde_json::Error>)
    ensures
        r is Ok <==> json_array_wf(s@),
        r matches Ok(v) ==> v@.len() == json_array_len(s@),
{
    serde_json::from_slice::<Vec<serde_json::Value>>(s)
}

} // verus!
