//! The structured values that commands are made of, and their mathematical model.
use vstd::prelude::*;

verus! {

/// The mathematical model of a structured value: a JSON-like tree whose
/// objects keep their entries in insertion order.
pub enum Json {
    Null,
    Bool(bool),
    Number(serde_json::Number),
    Str(Seq<char>),
    Array(Seq<Json>),
    Object(Seq<(Seq<char>, Json)>),
}

/// No two entries of `entries` share a key.
pub open spec fn keys_distinct(entries: Seq<(Seq<char>, Json)>) -> bool {
    forall|i: int, j: int|
        0 <= i < j < entries.len() ==> #[trigger] entries[i].0 != #[trigger] entries[j].0
}

impl Json {
    /// Every object in the tree maps each of its keys to one value: the shape
    /// that the external dynamic representation can express.
    pub open spec fn wf(self) -> bool
        decreases self,
    {
        match self {
            Json::Array(items) => forall|i: int| 0 <= i < items.len() ==> (#[trigger] items[i]).wf(),
            Json::Object(entries) => {
                &&& keys_distinct(entries)
                &&& forall|i: int| 0 <= i < entries.len() ==> (#[trigger] entries[i]).1.wf()
            },
            _ => true,
        }
    }
}

/// A structured value: null, a boolean, a number, a string, an array, or an
/// object whose entries are kept in insertion order.
#[derive(Debug, PartialEq)]
pub enum StructuredValue {
    Null,
    Bool(bool),
    Number(serde_json::Number),
    String(String),
    Array(Vec<StructuredValue>),
    Object(Vec<(String, StructuredValue)>),
}

impl View for StructuredValue {
    type V = Json;

    open spec fn view(&self) -> Json
        decreases self,
    {
        match self {
            StructuredValue::Null => Json::Null,
            StructuredValue::Bool(b) => Json::Bool(*b),
            StructuredValue::Number(n) => Json::Number(*n),
            StructuredValue::String(s) => Json::Str(s@),
            StructuredValue::Array(items) => Json::Array(
                Seq::new(
                    items.len() as nat,
                    |i: int|
                        if 0 <= i < items.len() {
                            items[i].view()
                        } else {
                            Json::Null
                        },
                ),
            ),
            StructuredValue::Object(entries) => Json::Object(
                Seq::new(
                    entries.len() as nat,
                    |i: int|
                        (
                            entries[i].0@,
                            if 0 <= i < entries.len() {
                                entries[i].1.view()
                            } else {
                                Json::Null
                            },
                        ),
                ),
            ),
        }
    }
}

} // verus!
