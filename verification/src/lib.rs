//! Lenient JSON normalisation and a colourising pretty-printer.
//!
//! A raw, JSON-like text is repaired by four textual rewrites, parsed, written
//! out as pretty JSON, parsed again and printed with one colour for each kind
//! of value.

pub mod laws;
pub mod layout;
pub mod normalize;
pub mod pipeline;
pub mod printer;
pub mod style;
pub mod trusted;
pub mod value;

pub use normalize::{
    normalize, normalize_and_parse, process_json, rules_compile, try_normalize_and_parse,
};
pub use pipeline::{error_line, run, Outcome};
pub use printer::{
    colorize_json, format_array, format_json_value, format_object, try_colorize_json,
};
pub use style::Tone;
pub use value::{JsonValue, ParseError};
