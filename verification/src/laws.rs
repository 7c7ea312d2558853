//! What holds of the library as a whole, stated over the models that the
//! contracts of its functions use.

use vstd::prelude::*;

use crate::layout::{array_text, object_text};
use crate::normalize::{normalized, processed};
use crate::printer::{
    colorizes, printed, printed_items, printed_members, renders, renders_each, renders_members,
};
use crate::style::{is_styling, Tone};
use crate::trusted::{json_parsed, json_pretty};
use crate::value::JsonModel;

verus! {

/// Colouring again changes nothing: where the pretty text of a value parses
/// back to that value, colouring the pretty text prints exactly what
/// colouring the value prints.
pub proof fn law_recolorize(value: JsonModel, pretty: Seq<char>, out: Seq<char>)
    requires
        json_pretty(value) == Ok::<_, Seq<char>>(pretty),
        json_parsed(pretty) == Ok::<_, Seq<char>>(value),
    ensures
        colorizes(pretty, out) <==> renders(value, out),
{
}

/// Colouring looks at a text only through the value it denotes: two texts
/// that denote one value are printed alike.
pub proof fn law_colorize_by_value(first: Seq<char>, second: Seq<char>, out: Seq<char>)
    requires
        json_parsed(first) is Ok,
        json_parsed(first) == json_parsed(second),
    ensures
        colorizes(first, out) <==> colorizes(second, out),
{
}

/// Processing succeeds only on an input whose normalised text is well-formed
/// JSON, and what it then returns is the pretty text of the value parsed.
pub proof fn law_processed_from_parsed(raw: Seq<char>)
    requires
        processed(raw) is Ok,
    ensures
        json_parsed(normalized(raw)) matches Ok(value) && processed(raw) == json_pretty(value),
{
}

/// The form in which every piece is styled and the form in which every piece
/// is bare are both printed forms of a value.
pub proof fn law_printed_renders(value: JsonModel, on: bool)
    ensures
        renders(value, printed(value, on)),
    decreases value,
{
    match value {
        JsonModel::Array(items) => {
            let parts = printed_items(items, on);
            assert forall|i: int| 0 <= i < items.len() implies renders(
                items[i],
                #[trigger] parts[i],
            ) by {
                law_printed_renders(items[i], on);
            }
            assert(renders_each(items, parts));
        },
        JsonModel::Object(entries) => {
            let members = printed_members(entries, on);
            assert forall|i: int| 0 <= i < entries.len() implies {
                &&& is_styling(entries[i].0, Tone::Green, (#[trigger] members[i]).0)
                &&& renders(entries[i].1, members[i].1)
            } by {
                law_printed_renders(entries[i].1, on);
            }
            assert(renders_members(entries, members));
        },
        _ => {},
    }
}

/// An array without elements has one printed form, two brackets around one
/// empty line, and an object without members has one, two braces around one
/// empty line.
pub proof fn law_empty_collections(out: Seq<char>)
    ensures
        renders(JsonModel::Array(Seq::empty()), out) <==> out == seq!['[', '\n', '\n', ']'],
        renders(JsonModel::Object(Seq::empty()), out) <==> out == seq!['{', '\n', '\n', '}'],
{
    let no_parts = Seq::<Seq<char>>::empty();
    let no_members = Seq::<(Seq<char>, Seq<char>)>::empty();
    assert(array_text(no_parts) =~= seq!['[', '\n', '\n', ']']);
    assert(object_text(no_members) =~= seq!['{', '\n', '\n', '}']);
    assert(renders_each(Seq::empty(), no_parts));
    assert(renders_members(Seq::empty(), no_members));
    assert forall|parts: Seq<Seq<char>>| renders_each(Seq::empty(), parts) implies parts
        == no_parts by {
        assert(parts =~= no_parts);
    }
    assert forall|members: Seq<(Seq<char>, Seq<char>)>|
        renders_members(Seq::empty(), members) implies members == no_members by {
        assert(members =~= no_members);
    }
}

} // verus!
