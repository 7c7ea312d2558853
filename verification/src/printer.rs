//! The colourising printer: one tone for each kind of value, and the layout
//! of arrays and objects around their rendered members.

use vstd::pervasive::unreached;
use vstd::prelude::*;

use crate::layout::{array_text, layout_array, layout_object, object_text};
use crate::trusted::{json_parsed, paint, parse_text};
use crate::value::to_json_value;
use crate::style::{is_styling, styled, Tone};
use crate::value::{lemma_array_view, lemma_object_view, JsonModel, JsonValue};

verus! {

/// The text of the null value before styling.
pub open spec fn null_text() -> Seq<char> {
    seq!['n', 'u', 'l', 'l']
}

/// The text of a boolean before styling.
pub open spec fn bool_text(b: bool) -> Seq<char> {
    if b {
        seq!['t', 'r', 'u', 'e']
    } else {
        seq!['f', 'a', 'l', 's', 'e']
    }
}

/// Whether `out` is a printed form of `value`.
///
/// A string is shown in green without quotes, a number in yellow, a boolean
/// in bright blue and null in magenta; an array or an object is the layout
/// of the printed forms of its members, keys in green. Each styled piece may
/// stand in either of its two forms (see [`is_styling`]).
pub open spec fn renders(value: JsonModel, out: Seq<char>) -> bool
    decreases value, 0nat,
{
    match value {
        JsonModel::Null => is_styling(null_text(), Tone::Magenta, out),
        JsonModel::Bool(b) => is_styling(bool_text(b), Tone::BrightBlue, out),
        JsonModel::Number(n) => is_styling(n, Tone::Yellow, out),
        JsonModel::String(s) => is_styling(s, Tone::Green, out),
        JsonModel::Array(items) => renders_array(items, out),
        JsonModel::Object(entries) => renders_object(entries, out),
    }
}

/// Whether `parts` holds, element by element, a printed form of `items`.
pub open spec fn renders_each(items: Seq<JsonModel>, parts: Seq<Seq<char>>) -> bool
    decreases items, 0nat,
{
    &&& parts.len() == items.len()
    &&& forall|i: int| 0 <= i < items.len() ==> renders(items[i], #[trigger] parts[i])
}

/// Whether `out` is a printed form of the array of `items`.
pub open spec fn renders_array(items: Seq<JsonModel>, out: Seq<char>) -> bool
    decreases items, 1nat,
{
    exists|parts: Seq<Seq<char>>| renders_each(items, parts) && out == #[trigger] array_text(parts)
}

/// Whether `members` holds, member by member, a shown form of the key and a
/// printed form of the value of `entries`.
pub open spec fn renders_members(
    entries: Seq<(Seq<char>, JsonModel)>,
    members: Seq<(Seq<char>, Seq<char>)>,
) -> bool
    decreases entries, 0nat,
{
    &&& members.len() == entries.len()
    &&& forall|i: int|
        0 <= i < entries.len() ==> {
            &&& is_styling(entries[i].0, Tone::Green, (#[trigger] members[i]).0)
            &&& renders(entries[i].1, members[i].1)
        }
}

/// Whether `out` is a printed form of the object of `entries`.
pub open spec fn renders_object(entries: Seq<(Seq<char>, JsonModel)>, out: Seq<char>) -> bool
    decreases entries, 1nat,
{
    exists|members: Seq<(Seq<char>, Seq<char>)>|
        renders_members(entries, members) && out == #[trigger] object_text(members)
}

/// A text of tone `tone` as it is shown with the colour switch on or off.
pub open spec fn shown(text: Seq<char>, tone: Tone, on: bool) -> Seq<char> {
    if on {
        styled(text, tone)
    } else {
        text
    }
}

/// The printed form of `value` when every piece of it is styled (`on`) or
/// every piece is bare.
pub open spec fn printed(value: JsonModel, on: bool) -> Seq<char>
    decreases value, 0nat,
{
    match value {
        JsonModel::Null => shown(null_text(), Tone::Magenta, on),
        JsonModel::Bool(b) => shown(bool_text(b), Tone::BrightBlue, on),
        JsonModel::Number(n) => shown(n, Tone::Yellow, on),
        JsonModel::String(s) => shown(s, Tone::Green, on),
        JsonModel::Array(items) => array_text(printed_items(items, on)),
        JsonModel::Object(entries) => object_text(printed_members(entries, on)),
    }
}

/// The printed forms of the elements of an array, one by one.
pub open spec fn printed_items(items: Seq<JsonModel>, on: bool) -> Seq<Seq<char>>
    decreases items, 1nat,
{
    Seq::new(
        items.len(),
        |i: int|
            if 0 <= i < items.len() {
                printed(items[i], on)
            } else {
                Seq::empty()
            },
    )
}

/// The shown keys and printed values of the members of an object, one by
/// one.
pub open spec fn printed_members(entries: Seq<(Seq<char>, JsonModel)>, on: bool) -> Seq<
    (Seq<char>, Seq<char>),
>
    decreases entries, 1nat,
{
    Seq::new(
        entries.len(),
        |i: int|
            if 0 <= i < entries.len() {
                (shown(entries[i].0, Tone::Green, on), printed(entries[i].1, on))
            } else {
                (Seq::empty(), Seq::empty())
            },
    )
}

/// Prints a value in colour: a string in green, a number in yellow, a
/// boolean in bright blue, null in magenta, an array or an object as the
/// layout of its printed members.
pub fn format_json_value(value: &JsonValue) -> (r: String)
    ensures
        renders(value@, r@),
    decreases value,
{
    match value {
        JsonValue::Object(map) => {
            proof {
                lemma_object_view(*map);
            }
            format_object(map)
        },
        JsonValue::Array(vec) => {
            proof {
                lemma_array_view(*vec);
            }
            format_array(vec)
        },
        JsonValue::String(s) => paint(s.as_str(), Tone::Green),
        JsonValue::Number(n) => paint(n.as_str(), Tone::Yellow),
        JsonValue::Bool(b) => {
            proof {
                reveal_strlit("true");
                reveal_strlit("false");
                assert("true"@ == bool_text(true));
                assert("false"@ == bool_text(false));
            }
            paint(
                if *b {
                    "true"
                } else {
                    "false"
                },
                Tone::BrightBlue,
            )
        },
        JsonValue::Null => {
            proof {
                reveal_strlit("null");
                assert("null"@ == null_text());
            }
            paint("null", Tone::Magenta)
        },
    }
}

/// Prints the members of an object in colour, in their order.
pub fn format_object(map: &Vec<(String, JsonValue)>) -> (r: String)
    ensures
        renders_object(map.deep_view(), r@),
    decreases map,
{
    let mut members: Vec<(String, String)> = Vec::new();
    let mut i: usize = 0;
    while i < map.len()
        invariant
            i <= map.len(),
            members.len() == i,
            forall|j: int|
                0 <= j < i ==> {
                    &&& is_styling(map[j].0@, Tone::Green, (#[trigger] members[j]).0@)
                    &&& renders(map[j].1@, members[j].1@)
                },
        decreases map.len() - i,
    {
        let key = paint(map[i].0.as_str(), Tone::Green);
        let part = format_json_value(&map[i].1);
        members.push((key, part));
        i += 1;
    }
    let out = layout_object(&members);
    proof {
        assert(renders_members(map.deep_view(), members.deep_view()));
    }
    out
}

/// Prints the elements of an array in colour, in their order.
pub fn format_array(vec: &Vec<JsonValue>) -> (r: String)
    ensures
        renders_array(vec.deep_view(), r@),
    decreases vec,
{
    let mut parts: Vec<String> = Vec::new();
    let mut i: usize = 0;
    while i < vec.len()
        invariant
            i <= vec.len(),
            parts.len() == i,
            forall|j: int| 0 <= j < i ==> renders(vec[j]@, #[trigger] parts[j]@),
        decreases vec.len() - i,
    {
        let part = format_json_value(&vec[i]);
        parts.push(part);
        i += 1;
    }
    let out = layout_array(&parts);
    proof {
        assert(renders_each(vec.deep_view(), parts.deep_view()));
    }
    out
}

/// Whether `out` is a printed form of the value that `json_str` denotes.
pub open spec fn colorizes(json_str: Seq<char>, out: Seq<char>) -> bool {
    json_parsed(json_str) matches Ok(value) && renders(value, out)
}

/// Parses JSON text and prints the value in colour. The text has to be
/// well-formed JSON.
pub fn colorize_json(json_str: &str) -> (r: String)
    requires
        json_parsed(json_str@) is Ok,
    ensures
        colorizes(json_str@, r@),
{
    match parse_text(json_str) {
        Ok(parsed) => {
            let value = to_json_value(&parsed);
            format_json_value(&value)
        },
        Err(_) => unreached(),
    }
}

/// Parses JSON text and prints the value in colour, or gives nothing where
/// the text is not well-formed JSON.
pub fn try_colorize_json(json_str: &str) -> (r: Option<String>)
    ensures
        r is Some <==> json_parsed(json_str@) is Ok,
        r matches Some(text) ==> colorizes(json_str@, text@),
{
    match parse_text(json_str) {
        Ok(_) => Some(colorize_json(json_str)),
        Err(_) => None,
    }
}

} // verus!
