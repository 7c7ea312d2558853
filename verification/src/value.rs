//! The JSON value the library works on, and its mathematical model.

use vstd::prelude::*;

use crate::trusted::{is_level_of, unpack, value_model, Node};

verus! {

/// A JSON document as a mathematical value.
pub enum JsonModel {
    Null,
    Bool(bool),
    /// A number, by the text in which it is written out.
    Number(Seq<char>),
    /// A string, by its content (no quotes, no escapes).
    String(Seq<char>),
    /// The elements in their order.
    Array(Seq<JsonModel>),
    /// The members, key and value, in the order of their first appearance.
    Object(Seq<(Seq<char>, JsonModel)>),
}

impl JsonModel {
    /// No object holds a key twice, at any depth.
    pub open spec fn keys_unique(self) -> bool
        decreases self,
    {
        match self {
            JsonModel::Array(items) => forall|i: int|
                0 <= i < items.len() ==> (#[trigger] items[i]).keys_unique(),
            JsonModel::Object(entries) => {
                &&& forall|i: int, j: int|
                    0 <= i < j < entries.len() ==> (#[trigger] entries[i]).0 != (#[trigger] entries[j]).0
                &&& forall|i: int| 0 <= i < entries.len() ==> (#[trigger] entries[i]).1.keys_unique()
            },
            _ => true,
        }
    }
}

/// A parsed JSON document. Its model is its view.
#[derive(Debug, PartialEq, Eq)]
pub enum JsonValue {
    Null,
    Bool(bool),
    /// A number, by the text in which it is written out.
    Number(String),
    /// A string, by its content (no quotes, no escapes).
    String(String),
    /// The elements in their order.
    Array(Vec<JsonValue>),
    /// The members, key and value, in the order of their first appearance.
    Object(Vec<(String, JsonValue)>),
}

/// Why an input is not displayable: the normalised text is not well-formed
/// JSON.
#[derive(Debug, PartialEq, Eq)]
pub struct ParseError {
    /// The diagnostic of the JSON parser.
    pub message: String,
}

impl View for JsonValue {
    type V = JsonModel;

    open spec fn view(&self) -> JsonModel
        decreases self,
    {
        match self {
            JsonValue::Null => JsonModel::Null,
            JsonValue::Bool(b) => JsonModel::Bool(*b),
            JsonValue::Number(n) => JsonModel::Number(n@),
            JsonValue::String(s) => JsonModel::String(s@),
            JsonValue::Array(items) => JsonModel::Array(
                Seq::new(
                    items.len() as nat,
                    |i: int|
                        if 0 <= i < items.len() {
                            items[i].view()
                        } else {
                            JsonModel::Null
                        },
                ),
            ),
            JsonValue::Object(entries) => JsonModel::Object(
                Seq::new(
                    entries.len() as nat,
                    |i: int|
                        if 0 <= i < entries.len() {
                            member_model(entries[i])
                        } else {
                            (Seq::empty(), JsonModel::Null)
                        },
                ),
            ),
        }
    }
}

/// The key and the model of one member of an object.
pub open spec fn member_model(entry: (String, JsonValue)) -> (Seq<char>, JsonModel)
    decreases entry,
{
    (entry.0@, entry.1.view())
}

impl DeepView for JsonValue {
    type V = JsonModel;

    open spec fn deep_view(&self) -> JsonModel {
        self.view()
    }
}

/// The model of an array is the sequence of its elements' models.
pub proof fn lemma_array_view(items: Vec<JsonValue>)
    ensures
        JsonValue::Array(items)@ == JsonModel::Array(items.deep_view()),
{
    assert(JsonValue::Array(items)@->Array_0 =~= items.deep_view());
}

/// The model of an object is the sequence of its members' keys and models.
pub proof fn lemma_object_view(entries: Vec<(String, JsonValue)>)
    ensures
        JsonValue::Object(entries)@ == JsonModel::Object(entries.deep_view()),
{
    let members = JsonValue::Object(entries)@->Object_0;
    assert forall|i: int| 0 <= i < members.len() implies members[i] == entries.deep_view()[i] by {
        assert(members[i] == member_model(entries[i]));
    }
    assert(members =~= entries.deep_view());
}

/// Copies a `serde_json::Value` into a [`JsonValue`], level by level.
pub(crate) fn to_json_value(value: &serde_json::Value) -> (r: JsonValue)
    ensures
        r@ == value_model(*value),
        r@.keys_unique(),
    decreases value_model(*value),
{
    let ghost model = value_model(*value);
    match unpack(value) {
        Node::Null => JsonValue::Null,
        Node::Bool(b) => JsonValue::Bool(b),
        Node::Number(text) => JsonValue::Number(text),
        Node::Text(text) => JsonValue::String(text),
        Node::Array(items) => {
            let ghost models = model->Array_0;
            let mut copies: Vec<JsonValue> = Vec::new();
            let mut i: usize = 0;
            while i < items.len()
                invariant
                    i <= items.len(),
                    copies.len() == i,
                    model == JsonModel::Array(models),
                    model == value_model(*value),
                    models.len() == items.len(),
                    forall|j: int| 0 <= j < items.len() ==> models[j] == value_model(#[trigger] items[j]),
                    forall|j: int|
                        0 <= j < i ==> (#[trigger] copies[j])@ == models[j] && copies[j]@.keys_unique(),
                decreases items.len() - i,
            {
                proof {
                    assert(models[i as int] == value_model(items[i as int]));
                    assert(decreases_to!(model => model->Array_0));
                    assert(decreases_to!(model->Array_0 => model->Array_0[i as int]));
                }
                let copy = to_json_value(&items[i]);
                copies.push(copy);
                i += 1;
            }
            proof {
                lemma_array_view(copies);
                assert(copies.deep_view() =~= models);
            }
            JsonValue::Array(copies)
        },
        Node::Object(members) => {
            let ghost entries = model->Object_0;
            let mut copies: Vec<(String, JsonValue)> = Vec::new();
            let mut i: usize = 0;
            while i < members.len()
                invariant
                    i <= members.len(),
                    copies.len() == i,
                    model == JsonModel::Object(entries),
                    model == value_model(*value),
                    entries.len() == members.len(),
                    forall|j: int|
                        0 <= j < members.len() ==> (#[trigger] entries[j]) == (
                            members[j].0@,
                            value_model(*members[j].1),
                        ),
                    forall|j: int|
                        0 <= j < i ==> (#[trigger] copies[j]).0@ == entries[j].0 && copies[j].1@
                            == entries[j].1 && copies[j].1@.keys_unique(),
                decreases members.len() - i,
            {
                let key = members[i].0.clone();
                proof {
                    assert(entries[i as int].1 == value_model(*members[i as int].1));
                    assert(decreases_to!(model => model->Object_0));
                    assert(decreases_to!(model->Object_0 => model->Object_0[i as int]));
                    assert(decreases_to!(model->Object_0[i as int] => model->Object_0[i as int].1));
                }
                let copy = to_json_value(members[i].1);
                copies.push((key, copy));
                i += 1;
            }
            proof {
                lemma_object_view(copies);
                assert(copies.deep_view() =~= entries);
            }
            JsonValue::Object(copies)
        },
    }
}

} // verus!
