//! What the library takes on trust from the crates it calls.
//!
//! Nothing in this file is proved. Each item names the function it stands
//! for and says what is claimed of it; the rest of the crate is verified
//! against these claims and against nothing else.

use colored::Colorize;
use vstd::prelude::*;

use crate::style::{is_styling, Tone};
use crate::value::JsonModel;

verus! {

/// `regex::Regex`, carried through as an opaque value.
#[verifier::external_type_specification]
#[verifier::external_body]
pub struct ExRegex(regex::Regex);

/// `serde_json::Value`, carried through as an opaque value.
#[verifier::external_type_specification]
#[verifier::external_body]
pub struct ExValue(serde_json::Value);

/// `serde_json::Error`, carried through as an opaque value.
#[verifier::external_type_specification]
#[verifier::external_body]
pub struct ExJsonError(serde_json::Error);

/// Whether `regex::Regex::new` compiles `pattern`.
pub uninterp spec fn regex_accepts(pattern: Seq<char>) -> bool;

/// The pattern that a compiled expression was built from: what
/// `regex::Regex::as_str` returns for it.
pub uninterp spec fn regex_source(re: regex::Regex) -> Seq<char>;

/// What `regex::Regex::replace_all` returns for the expression compiled from
/// `pattern`, the text `haystack` and the replacement template
/// `replacement`.
pub uninterp spec fn regex_replaced(
    pattern: Seq<char>,
    haystack: Seq<char>,
    replacement: Seq<char>,
) -> Seq<char>;

/// What `serde_json::from_str` returns for `text` at the type
/// `serde_json::Value`: what the value holds, or the text of the error.
pub uninterp spec fn json_parsed(text: Seq<char>) -> Result<JsonModel, Seq<char>>;

/// What a `serde_json::Value` holds. A number is held by the text that
/// `serde_json::Number` displays, an object by its members in the order in
/// which its map walks them.
pub uninterp spec fn value_model(value: serde_json::Value) -> JsonModel;

/// The text that a `serde_json::Error` displays.
pub uninterp spec fn error_message(error: serde_json::Error) -> Seq<char>;

/// What `serde_json::to_string_pretty` returns for a `serde_json::Value`
/// that holds `value`: the text written, or the text of the error.
pub uninterp spec fn json_pretty(value: JsonModel) -> Result<Seq<char>, Seq<char>>;

/// Calls `regex::Regex::new`.
///
/// Claimed: whether a pattern compiles depends on the pattern alone, and the
/// compiled expression is built from that pattern.
#[verifier::external_body]
pub(crate) fn compile_pattern(pattern: &str) -> (r: Option<regex::Regex>)
    ensures
        r is Some <==> regex_accepts(pattern@),
        r matches Some(re) ==> regex_source(re) == pattern@,
{
    regex::Regex::new(pattern).ok()
}

/// Calls `regex::Regex::replace_all` with a template as the replacement.
///
/// Claimed: the text returned depends on the expression through its pattern
/// alone, and on the haystack and the template.
#[verifier::external_body]
pub(crate) fn replace_all(re: &regex::Regex, haystack: &str, replacement: &str) -> (r: String)
    ensures
        r@ == regex_replaced(regex_source(*re), haystack@, replacement@),
{
    re.replace_all(haystack, replacement).into_owned()
}

/// Calls `serde_json::from_str` at the type `serde_json::Value`.
///
/// Claimed: the value or the error returned depends on the text alone.
#[verifier::external_body]
pub(crate) fn parse_text(text: &str) -> (r: Result<serde_json::Value, serde_json::Error>)
    ensures
        match r {
            Ok(value) => json_parsed(text@) == Ok::<JsonModel, Seq<char>>(value_model(value)),
            Err(error) => json_parsed(text@) == Err::<JsonModel, Seq<char>>(error_message(error)),
        },
{
    serde_json::from_str::<serde_json::Value>(text)
}

/// Calls `serde_json::to_string_pretty` on a `serde_json::Value`.
///
/// Claimed: the text or the error returned depends on the value through
/// what it holds alone.
#[verifier::external_body]
pub(crate) fn pretty_text(value: &serde_json::Value) -> (r: Result<String, serde_json::Error>)
    ensures
        match r {
            Ok(text) => json_pretty(value_model(*value)) == Ok::<Seq<char>, Seq<char>>(text@),
            Err(error) => json_pretty(value_model(*value)) == Err::<Seq<char>, Seq<char>>(
                error_message(error),
            ),
        },
{
    serde_json::to_string_pretty(value)
}

/// Calls `to_string` on a `serde_json::Error`.
#[verifier::external_body]
pub(crate) fn error_text(error: &serde_json::Error) -> (r: String)
    ensures
        r@ == error_message(*error),
{
    error.to_string()
}

/// One level of a `serde_json::Value`: which variant it is, with its fields.
/// The elements of an array and the values of an object are still values of
/// `serde_json`.
pub(crate) enum Node<'a> {
    Null,
    Bool(bool),
    Number(String),
    Text(String),
    Array(&'a Vec<serde_json::Value>),
    Object(Vec<(&'a String, &'a serde_json::Value)>),
}

/// Whether `node` is one level of a value that holds `model`.
pub(crate) open spec fn is_level_of(node: Node<'_>, model: JsonModel) -> bool {
    match node {
        Node::Null => model == JsonModel::Null,
        Node::Bool(b) => model == JsonModel::Bool(b),
        Node::Number(text) => model == JsonModel::Number(text@),
        Node::Text(text) => model == JsonModel::String(text@),
        Node::Array(items) => {
            &&& model matches JsonModel::Array(models)
            &&& models.len() == items.len()
            &&& forall|i: int| 0 <= i < items.len() ==> models[i] == value_model(#[trigger] items[i])
        },
        Node::Object(members) => {
            &&& model matches JsonModel::Object(entries)
            &&& entries.len() == members.len()
            &&& forall|i: int|
                0 <= i < members.len() ==> (#[trigger] entries[i]) == (
                    members[i].0@,
                    value_model(*members[i].1),
                )
            &&& forall|i: int, j: int|
                0 <= i < j < members.len() ==> (#[trigger] entries[i]).0 != (#[trigger] entries[j]).0
        },
    }
}

/// Tells the variants of a `serde_json::Value` apart and hands out their
/// fields: a number by `to_string` on the `serde_json::Number`, the members
/// of an object by `serde_json::Map::iter`.
///
/// Claimed: the level handed out is that of what the value holds, and, a map
/// of `serde_json` holding each key once, no two members have the same key.
#[verifier::external_body]
pub(crate) fn unpack(value: &serde_json::Value) -> (r: Node<'_>)
    ensures
        is_level_of(r, value_model(*value)),
{
    match value {
        serde_json::Value::Null => Node::Null,
        serde_json::Value::Bool(b) => Node::Bool(*b),
        serde_json::Value::Number(n) => Node::Number(n.to_string()),
        serde_json::Value::String(s) => Node::Text(s.clone()),
        serde_json::Value::Array(items) => Node::Array(items),
        serde_json::Value::Object(map) => Node::Object(map.iter().collect()),
    }
}

/// Calls `colored::Colorize::color` on the text and `to_string` on the
/// `ColoredString` that it gives.
///
/// `colored` styles or does not: it goes by the variables `CLICOLOR_FORCE`,
/// `NO_COLOR` and `CLICOLOR`, by whether standard output is a terminal, and
/// by `colored::control::set_override`. Claimed: the text comes back either
/// as it was, or between the sequence of its tone and the reset sequence,
/// with the tone switched on again after each reset sequence inside it. No
/// more is claimed, so two calls may differ. (The claim supposes that the
/// switch is not turned while a call runs.)
#[verifier::external_body]
pub(crate) fn paint(text: &str, tone: Tone) -> (r: String)
    ensures
        is_styling(text@, tone, r@),
{
    let color = match tone {
        Tone::Green => colored::Color::Green,
        Tone::Yellow => colored::Color::Yellow,
        Tone::BrightBlue => colored::Color::BrightBlue,
        Tone::Magenta => colored::Color::Magenta,
    };
    text.color(color).to_string()
}

/// `String::push` adds one character at the end.
pub assume_specification[ std::string::String::push ](text: &mut std::string::String, ch: char)
    ensures
        final(text)@ == old(text)@.push(ch),
;

} // verus!
