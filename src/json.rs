use vstd::prelude::*;

verus! {

#[verifier::external_type_specification]
#[verifier::external_body]
pub struct ExValue(serde_json::Value);

#[verifier::external_type_specification]
#[verifier::external_body]
pub struct ExJsonError(serde_json::Error);

/// The JSON value that a text parses to, or `None` where the text is not valid JSON.
pub uninterp spec fn json_parse_of(text: Seq<char>) -> Option<serde_json::Value>;

/// The JSON text that a value is written out as, or `None` where writing it fails.
pub uninterp spec fn json_text_of(v: serde_json::Value) -> Option<Seq<char>>;

/// Relies on serde_json::from_str: whether the text parses, and to which value, depends on
/// the text alone.
#[verifier::external_body]
pub(crate) fn parse_json(text: &str) -> (r: Result<serde_json::Value, serde_json::Error>)
    ensures
        r is Ok <==> json_parse_of(text@) is Some,
        r matches Ok(v) ==> json_parse_of(text@) == Some(v),
{
    serde_json::from_str(text)
}

/// Relies on serde_json::to_string: whether the value can be written out, and as which text,
/// depends on the value alone.
#[verifier::external_body]
pub(crate) fn write_json(v: &serde_json::Value) -> (r: Result<String, serde_json::Error>)
    ensures
        r is Ok <==> json_text_of(*v) is Some,
        r matches Ok(t) ==> json_text_of(*v) == Some(t@),
{
    serde_json::to_string(v)
}

} // verus!
