//! The JSON reading the tool needs, done by `serde_json`.

use vstd::prelude::*;

verus! {

#[verifier::external_type_specification]
#[verifier::external_body]
pub struct ExJsonValue(serde_json::Value);

/// Whether `serde_json` accepts `text` as one JSON value (surrounding
/// whitespace allowed, nothing else after it).
pub uninterp spec fn json_text_valid(text: Seq<char>) -> bool;

/// The value `serde_json` parses from `text`, when it accepts it.
pub uninterp spec fn json_value_of(text: Seq<char>) -> serde_json::Value;

/// The string that the JSON string literal `text` denotes, when `text` is
/// exactly one JSON string (surrounding whitespace allowed).
pub uninterp spec fn json_string_literal(text: Seq<char>) -> Option<Seq<char>>;

/// `serde_json::from_str::<serde_json::Value>`: parses `text` as a JSON
/// value. Claimed: it succeeds exactly when `json_text_valid` holds of the
/// text, and the value it yields is `json_value_of` the text.
#[verifier::external_body]
pub(crate) fn json_from_str(text: &str) -> (r: Option<serde_json::Value>)
    ensures
        r is Some <==> json_text_valid(text@),
        r matches Some(v) ==> v == json_value_of(text@),
{
    serde_json::from_str::<serde_json::Value>(text).ok()
}

/// `serde_json::from_str::<String>`: decodes `text` as one JSON string.
/// Claimed: the result is the string `json_string_literal` names for the
/// text, and there is none when it names none.
#[verifier::external_body]
pub(crate) fn json_string_from_str(text: &str) -> (r: Option<String>)
    ensures
        match json_string_literal(text@) {
            Some(t) => r matches Some(s) && s@ == t,
            None => r is None,
        },
{
    serde_json::from_str::<String>(text).ok()
}

} // verus!
