//! One run of the tool, from the raw argument to what is to be written out.

use vstd::prelude::*;
use vstd::string::StringExecFns;

use crate::normalize::{process_json, processed, rules_accepted, rules_compile};
use crate::printer::{colorizes, try_colorize_json};
use crate::trusted::json_parsed;
use crate::value::ParseError;

verus! {

/// How a run ends.
#[derive(Debug, PartialEq, Eq)]
pub enum Outcome {
    /// The input was displayable: the coloured text for standard output.
    Shown(String),
    /// The normalised input was not well-formed JSON: the line for standard
    /// error. The process is to end with status 1.
    Rejected(String),
    /// The regex engine refused one of the rules, or the pretty text did not
    /// parse again. Neither is the input's fault.
    Fault,
}

impl Outcome {
    /// The status with which the process is to end: 0 after showing the
    /// text, 1 after rejecting the input, none of its own choosing after a
    /// fault.
    pub open spec fn status(self) -> Option<i32> {
        match self {
            Outcome::Shown(_) => Some(0i32),
            Outcome::Rejected(_) => Some(1i32),
            Outcome::Fault => None,
        }
    }

    /// Gives the status with which the process is to end.
    pub fn exit_code(&self) -> (code: Option<i32>)
        ensures
            code == self.status(),
    {
        match self {
            Outcome::Shown(_) => Some(0),
            Outcome::Rejected(_) => Some(1),
            Outcome::Fault => None,
        }
    }
}

/// The line reported for a parser diagnostic.
pub open spec fn error_report(message: Seq<char>) -> Seq<char> {
    "Error processing JSON: "@ + message
}

/// Writes the line that reports a parser diagnostic: the words
/// `Error processing JSON: `, then the diagnostic.
pub fn error_line(error: &ParseError) -> (r: String)
    ensures
        r@ == error_report(error.message@),
{
    let mut line = String::from_str("Error processing JSON: ");
    line.append(error.message.as_str());
    line
}

/// Whether `outcome` is how a run on `raw` may end.
pub open spec fn is_outcome(raw: Seq<char>, outcome: Outcome) -> bool {
    match outcome {
        Outcome::Shown(text) => {
            &&& rules_accepted()
            &&& processed(raw) matches Ok(pretty)
            &&& colorizes(pretty, text@)
        },
        Outcome::Rejected(line) => {
            &&& rules_accepted()
            &&& processed(raw) matches Err(message)
            &&& line@ == error_report(message)
        },
        Outcome::Fault => {
            ||| !rules_accepted()
            ||| processed(raw) matches Ok(pretty) && json_parsed(pretty) is Err
        },
    }
}

/// Runs the tool on one raw argument: normalise, parse, pretty-print, parse
/// again and colour.
///
/// A displayable input is shown, a malformed one is rejected with the
/// parser's diagnostic, and only a refusal by the regex engine or by the
/// second parse ends in a fault.
pub fn run(json_input: &str) -> (r: Outcome)
    ensures
        is_outcome(json_input@, r),
{
    if !rules_compile() {
        return Outcome::Fault;
    }
    match process_json(json_input) {
        Ok(pretty) => match try_colorize_json(pretty.as_str()) {
            Some(text) => Outcome::Shown(text),
            None => Outcome::Fault,
        },
        Err(error) => Outcome::Rejected(error_line(&error)),
    }
}

} // verus!
