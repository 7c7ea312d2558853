//! The normaliser: four textual rewrites in a fixed order, then a strict
//! JSON parse.
//!
//! The rewrites are regular-expression replacements, and the regex engine
//! has to take their patterns before any of them can run. The functions
//! that rewrite therefore ask for [`rules_accepted`]; [`rules_compile`]
//! tells whether it holds.

use vstd::pervasive::unreached;
use vstd::prelude::*;

use crate::trusted::{
    compile_pattern, error_text, json_parsed, json_pretty, parse_text, pretty_text, regex_accepts,
    regex_replaced, replace_all,
};
use crate::value::{to_json_value, JsonModel, JsonValue, ParseError};

verus! {

/// A run of ASCII letters between square brackets, such as `[Object]`.
pub const PLACEHOLDER_PATTERN: &'static str = r"\[([A-Za-z]+)\]";

/// The placeholder again, brackets included, in double quotes.
pub const PLACEHOLDER_QUOTED: &'static str = "\"[$1]\"";

/// A date and time of the form `YYYY-MM-DDTHH:MM:SS.mmmZ`.
pub const TIMESTAMP_PATTERN: &'static str = r"(\d{4}-\d{2}-\d{2}T\d{2}:\d{2}:\d{2}\.\d{3}Z)";

/// The timestamp in double quotes.
pub const TIMESTAMP_QUOTED: &'static str = "\"$1\"";

/// A run of digits followed by the letter `n`.
pub const BIGINT_PATTERN: &'static str = r"(\d+)n";

/// The digits without the `n`.
pub const BIGINT_DIGITS: &'static str = "$1";

/// The word `undefined`, standing alone.
pub const UNDEFINED_PATTERN: &'static str = r"\bundefined\b";

/// What stands in for `undefined`.
pub const UNDEFINED_NULL: &'static str = "null";

/// Whether the regex engine takes each of the four rules.
pub open spec fn rules_accepted() -> bool {
    &&& regex_accepts(PLACEHOLDER_PATTERN@)
    &&& regex_accepts(TIMESTAMP_PATTERN@)
    &&& regex_accepts(BIGINT_PATTERN@)
    &&& regex_accepts(UNDEFINED_PATTERN@)
}

/// First rewrite: every bracketed placeholder is put in double quotes.
pub open spec fn placeholders_quoted(text: Seq<char>) -> Seq<char> {
    regex_replaced(PLACEHOLDER_PATTERN@, text, PLACEHOLDER_QUOTED@)
}

/// Second rewrite: every timestamp is put in double quotes.
pub open spec fn timestamps_quoted(text: Seq<char>) -> Seq<char> {
    regex_replaced(TIMESTAMP_PATTERN@, text, TIMESTAMP_QUOTED@)
}

/// Third rewrite: every run of digits loses the `n` that follows it.
pub open spec fn bigints_stripped(text: Seq<char>) -> Seq<char> {
    regex_replaced(BIGINT_PATTERN@, text, BIGINT_DIGITS@)
}

/// Fourth rewrite: every standalone `undefined` becomes `null`.
pub open spec fn undefined_replaced(text: Seq<char>) -> Seq<char> {
    regex_replaced(UNDEFINED_PATTERN@, text, UNDEFINED_NULL@)
}

/// The four rewrites in their order, each applied to what the one before it
/// left.
pub open spec fn normalized(raw: Seq<char>) -> Seq<char> {
    undefined_replaced(bigints_stripped(timestamps_quoted(placeholders_quoted(raw))))
}

/// What processing makes of an input: the pretty text of the value that the
/// normalised input denotes, or the diagnostic of whichever step failed.
pub open spec fn processed(raw: Seq<char>) -> Result<Seq<char>, Seq<char>> {
    match json_parsed(normalized(raw)) {
        Ok(value) => json_pretty(value),
        Err(message) => Err(message),
    }
}

/// Tells whether the regex engine takes each of the four rules.
pub fn rules_compile() -> (b: bool)
    ensures
        b == rules_accepted(),
{
    compile_pattern(PLACEHOLDER_PATTERN).is_some() && compile_pattern(TIMESTAMP_PATTERN).is_some()
        && compile_pattern(BIGINT_PATTERN).is_some() && compile_pattern(
        UNDEFINED_PATTERN,
    ).is_some()
}

/// Replaces every match of one rule in `text`.
fn rewrite(pattern: &str, text: &str, replacement: &str) -> (r: String)
    requires
        regex_accepts(pattern@),
    ensures
        r@ == regex_replaced(pattern@, text@, replacement@),
{
    match compile_pattern(pattern) {
        Some(re) => replace_all(&re, text, replacement),
        None => unreached(),
    }
}

/// Applies the four rewrites to a raw input, in their order.
pub fn normalize(raw: &str) -> (r: String)
    requires
        rules_accepted(),
    ensures
        r@ == normalized(raw@),
{
    let quoted = rewrite(PLACEHOLDER_PATTERN, raw, PLACEHOLDER_QUOTED);
    let dated = rewrite(TIMESTAMP_PATTERN, quoted.as_str(), TIMESTAMP_QUOTED);
    let stripped = rewrite(BIGINT_PATTERN, dated.as_str(), BIGINT_DIGITS);
    rewrite(UNDEFINED_PATTERN, stripped.as_str(), UNDEFINED_NULL)
}

/// Whether `parsed` is what normalising and parsing `raw` gives: the value
/// that the normalised text denotes, no key twice in any of its objects, or
/// else the parser's diagnostic.
pub open spec fn is_parsed(raw: Seq<char>, parsed: Result<JsonValue, ParseError>) -> bool {
    match parsed {
        Ok(value) => json_parsed(normalized(raw)) == Ok::<_, Seq<char>>(value@)
            && value@.keys_unique(),
        Err(error) => json_parsed(normalized(raw)) == Err::<JsonModel, _>(error.message@),
    }
}

/// Normalises a raw input and parses it.
///
/// The value comes back exactly when the normalised text is well-formed
/// JSON; otherwise the error carries the parser's diagnostic.
pub fn normalize_and_parse(raw: &str) -> (r: Result<JsonValue, ParseError>)
    requires
        rules_accepted(),
    ensures
        is_parsed(raw@, r),
{
    let text = normalize(raw);
    match parse_text(text.as_str()) {
        Ok(value) => Ok(to_json_value(&value)),
        Err(error) => Err(ParseError { message: error_text(&error) }),
    }
}

/// Normalises a raw input and parses it, or gives nothing where the regex
/// engine refuses one of the rules.
pub fn try_normalize_and_parse(raw: &str) -> (r: Option<Result<JsonValue, ParseError>>)
    ensures
        r is Some <==> rules_accepted(),
        r matches Some(parsed) ==> is_parsed(raw@, parsed),
{
    if rules_compile() {
        Some(normalize_and_parse(raw))
    } else {
        None
    }
}

/// Normalises a raw input, parses it and writes the value out again as
/// pretty JSON text.
///
/// The text comes back exactly when the normalised input is well-formed
/// JSON and writing the value out succeeds; otherwise the error carries the
/// diagnostic of the step that failed.
pub fn process_json(json_input: &str) -> (r: Result<String, ParseError>)
    requires
        rules_accepted(),
    ensures
        match r {
            Ok(text) => processed(json_input@) == Ok::<_, Seq<char>>(text@),
            Err(error) => processed(json_input@) == Err::<Seq<char>, _>(error.message@),
        },
{
    let text = normalize(json_input);
    match parse_text(text.as_str()) {
        Ok(value) => match pretty_text(&value) {
            Ok(pretty) => Ok(pretty),
            Err(error) => Err(ParseError { message: error_text(&error) }),
        },
        Err(error) => Err(ParseError { message: error_text(&error) }),
    }
}

} // verus!
