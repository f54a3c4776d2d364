//! JSON values as `serde_json` holds them. The library reads nothing inside
//! such a value: it parses the text a model sends, hands the value to a
//! tool, and writes what the tool returns back as text.

use vstd::prelude::*;

verus! {

/// `serde_json::Value`, carried through without a look inside.
#[verifier::external_type_specification]
#[verifier::external_body]
pub struct ExValue(serde_json::Value);

/// `serde_json::Error`, of which only its presence is read.
#[verifier::external_type_specification]
#[verifier::external_body]
pub struct ExError(serde_json::Error);

/// The compact JSON text of a value: what `serde_json::to_string` writes
/// for it.
pub uninterp spec fn json_text(v: serde_json::Value) -> Seq<char>;

/// The compact JSON text of the value that `text` parses to, or `None`
/// where `serde_json::from_str` does not accept `text`.
pub uninterp spec fn json_parse(text: Seq<char>) -> Option<Seq<char>>;

/// Calls `serde_json::from_str` at type `Value`. Taken on trust: that
/// whether `text` is accepted, and the value it gives, depend on the
/// characters of `text` alone, which is what `json_parse` names.
#[verifier::external_body]
pub(crate) fn parse_value(text: &str) -> (r: Result<serde_json::Value, serde_json::Error>)
    ensures
        match r {
            Ok(v) => json_parse(text@) == Some(json_text(v)),
            Err(_) => json_parse(text@) is None,
        },
{
    serde_json::from_str::<serde_json::Value>(text)
}

/// Calls `serde_json::to_string` on a `Value`. Taken on trust: that the
/// text, where one is written, depends on the value alone, which is what
/// `json_text` names. Nothing is said of when writing fails.
#[verifier::external_body]
pub(crate) fn render_value(v: &serde_json::Value) -> (r: Result<String, serde_json::Error>)
    ensures
        r matches Ok(s) ==> s@ == json_text(*v),
{
    serde_json::to_string(v)
}

/// Calls `Value::default`, which gives `Value::Null`. Taken on trust: that
/// this value is written as `null`.
#[verifier::external_body]
pub(crate) fn null_value() -> (r: serde_json::Value)
    ensures
        json_text(r) == "null"@,
{
    serde_json::Value::default()
}

/// Calls `Value::clone`. Taken on trust: that the copy is written as the
/// value it was made from.
#[verifier::external_body]
pub(crate) fn copy_value(v: &serde_json::Value) -> (r: serde_json::Value)
    ensures
        json_text(r) == json_text(*v),
{
    v.clone()
}

/// The compact JSON text of the arguments handed to a tool when the model
/// sent `text`: those it parses to, or `null` where it does not parse.
pub open spec fn arguments_text(text: Seq<char>) -> Seq<char> {
    match json_parse(text) {
        Some(t) => t,
        None => "null"@,
    }
}

/// The arguments for a tool call whose argument text is `text`. Text that is
/// not JSON gives the null value, so that a tool finds every field missing
/// and falls back on its defaults.
pub fn parse_arguments(text: &str) -> (r: serde_json::Value)
    ensures
        json_text(r) == arguments_text(text@),
{
    match parse_value(text) {
        Ok(v) => v,
        Err(_) => null_value(),
    }
}

/// What is recorded for a tool whose result could not be written as text.
pub open spec fn unwritable_result() -> Seq<char> {
    "{\"error\":\"the tool result could not be written as JSON\"}"@
}

/// Whether `text` is something that is recorded for a tool's result: the
/// JSON text of a value, or the report that a value could not be written.
pub open spec fn recordable(text: Seq<char>) -> bool {
    text == unwritable_result() || exists|result: serde_json::Value| text == json_text(result)
}

/// The text recorded for a tool's result, given what writing it gave.
pub open spec fn payload_text(written: Result<String, serde_json::Error>) -> Seq<char> {
    match written {
        Ok(s) => s@,
        Err(_) => unwritable_result(),
    }
}

/// The text recorded in the history for a tool result: the JSON that was
/// written, or a JSON object that reports the failure to write it.
pub fn payload(written: Result<String, serde_json::Error>) -> (r: String)
    ensures
        r@ == payload_text(written),
{
    match written {
        Ok(s) => s,
        Err(_) => "{\"error\":\"the tool result could not be written as JSON\"}".to_string(),
    }
}

} // verus!
