//! Terminal styling: the four tones of the printer and what a styled text is.

use vstd::prelude::*;

verus! {

/// The emphasis given to one kind of JSON value.
#[derive(Clone, Copy, Debug, PartialEq, Eq)]
pub enum Tone {
    /// Strings and object keys.
    Green,
    /// Numbers.
    Yellow,
    /// Booleans.
    BrightBlue,
    /// Null.
    Magenta,
}

/// The escape character that opens every styling sequence.
pub open spec fn escape() -> char {
    '\x1b'
}

/// The sequence that ends a styled stretch.
pub open spec fn reset_sequence() -> Seq<char> {
    seq![escape(), '[', '0', 'm']
}

/// The sequence that switches the foreground to `tone`.
pub open spec fn tone_sequence(tone: Tone) -> Seq<char> {
    match tone {
        Tone::Green => seq![escape(), '[', '3', '2', 'm'],
        Tone::Yellow => seq![escape(), '[', '3', '3', 'm'],
        Tone::BrightBlue => seq![escape(), '[', '9', '4', 'm'],
        Tone::Magenta => seq![escape(), '[', '3', '5', 'm'],
    }
}

/// `text` with the tone switched on again after every reset sequence inside
/// it, so that a reset within the text does not end the styled stretch.
pub open spec fn reinstated(text: Seq<char>, tone: Tone) -> Seq<char>
    decreases text.len(),
{
    if text.len() == 0 {
        text
    } else if reset_sequence().is_prefix_of(text) {
        reset_sequence() + tone_sequence(tone) + reinstated(
            text.skip(reset_sequence().len() as int),
            tone,
        )
    } else {
        seq![text[0]] + reinstated(text.skip(1), tone)
    }
}

/// `text` wrapped in the emphasis of `tone`.
pub open spec fn styled(text: Seq<char>, tone: Tone) -> Seq<char> {
    tone_sequence(tone) + reinstated(text, tone) + reset_sequence()
}

/// Whether `out` is one of the two forms in which a text of tone `tone` is
/// shown: styled where the terminal is to be coloured, bare where it is not.
pub open spec fn is_styling(text: Seq<char>, tone: Tone, out: Seq<char>) -> bool {
    out == text || out == styled(text, tone)
}

} // verus!
