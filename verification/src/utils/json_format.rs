//! Pretty-printing of JSON response bodies, done by `serde_json`.
use vstd::prelude::*;

use crate::text::owned;

verus! {

#[verifier::external_type_specification]
#[verifier::external_body]
pub struct ExJsonValue(serde_json::Value);

#[verifier::external_type_specification]
#[verifier::external_body]
pub struct ExJsonError(serde_json::Error);

/// The JSON value `serde_json::from_str::<serde_json::Value>` reads from a
/// text, or `None` when the text is not JSON.
pub uninterp spec fn json_parse(text: Seq<char>) -> Option<serde_json::Value>;

/// The text `serde_json::to_string_pretty` writes for a JSON value, or
/// `None` if it reports an error.
pub uninterp spec fn json_pretty(v: serde_json::Value) -> Option<Seq<char>>;

/// `serde_json::from_str::<serde_json::Value>`: the claim is only that its
/// outcome is [`json_parse`] of the text, a function of the text alone.
#[verifier::external_body]
fn parse_json(text: &str) -> (r: Result<serde_json::Value, serde_json::Error>)
    ensures
        match r {
            Ok(v) => json_parse(text@) == Some(v),
            Err(_) => json_parse(text@) is None,
        },
{
    serde_json::from_str::<serde_json::Value>(text)
}

/// `serde_json::to_string_pretty` on a JSON value: the claim is only that its
/// outcome is [`json_pretty`] of the value.
#[verifier::external_body]
fn write_json_pretty(v: &serde_json::Value) -> (r: Result<String, serde_json::Error>)
    ensures
        match r {
            Ok(t) => json_pretty(*v) == Some(t@),
            Err(_) => json_pretty(*v) is None,
        },
{
    serde_json::to_string_pretty(v)
}

/// A body as shown: its pretty-printed JSON when it parses and prints,
/// otherwise the body unchanged.
pub open spec fn pretty_printed(input: Seq<char>) -> Seq<char> {
    match json_parse(input) {
        Some(v) => match json_pretty(v) {
            Some(t) => t,
            None => input,
        },
        None => input,
    }
}

/// The text to show for `input` given what pretty-printing produced: that
/// text if there is one, otherwise the input.
pub fn pretty_or_input(input: &str, pretty: Option<String>) -> (r: String)
    ensures
        r@ == match pretty {
            Some(t) => t@,
            None => input@,
        },
{
    match pretty {
        Some(t) => t,
        None => owned(input),
    }
}

/// Pretty-print a JSON string. Returns the input unchanged if parsing fails.
pub fn pretty_print(input: &str) -> (r: String)
    ensures
        r@ == pretty_printed(input@),
{
    let pretty = match parse_json(input) {
        Ok(value) => match write_json_pretty(&value) {
            Ok(t) => Some(t),
            Err(_) => None,
        },
        Err(_) => None,
    };
    pretty_or_input(input, pretty)
}


// ── Laws ─────────────────────────────────────────────────────────────────────

/// Whenever the text parses as JSON and serde_json prints the value, the
/// shown text is serde_json's pretty text of the parsed value, whatever
/// whitespace the input holds; text that does not parse is shown unchanged.
pub proof fn lemma_pretty_is_serde_pretty(input: Seq<char>, v: serde_json::Value, t: Seq<char>)
    ensures
        json_parse(input) == Some(v) && json_pretty(v) == Some(t) ==> pretty_printed(input) == t,
        json_parse(input) is None ==> pretty_printed(input) == input,
        json_parse(input) == Some(v) && json_pretty(v) is None ==> pretty_printed(input) == input,
{
}

} // verus!
