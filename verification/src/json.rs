use vstd::prelude::*;

pub mod parse;

verus! {

/// The mathematical value of a JSON document: a finite tree.
pub enum JsonView {
    Null,
    Bool(bool),
    /// An integer that is kept exactly.
    Int(int),
    /// Any other number: one with a fraction or an exponent, a negative
    /// zero, an integer too large to keep.
    Fraction,
    Str(Seq<char>),
    Array(Seq<JsonView>),
    /// The entries of an object, each a key and its value, in order.
    Object(Seq<(Seq<char>, JsonView)>),
}

/// A JSON document held in memory. A number that is no integer, or too
/// large an integer, is kept as `Fraction`, without its value: no record of
/// this library holds one.
#[derive(Debug, PartialEq, Eq)]
pub enum Json {
    Null,
    Bool(bool),
    Int(i128),
    Fraction,
    Str(String),
    Array(Vec<Json>),
    Object(Vec<(String, Json)>),
}

/// One entry of an object's tree.
pub open spec fn entry(key: Seq<char>, value: JsonView) -> (Seq<char>, JsonView) {
    (key, value)
}

impl View for Json {
    type V = JsonView;

    open spec fn view(&self) -> JsonView
        decreases self,
    {
        match self {
            Json::Null => JsonView::Null,
            Json::Bool(b) => JsonView::Bool(*b),
            Json::Int(n) => JsonView::Int(*n as int),
            Json::Fraction => JsonView::Fraction,
            Json::Str(s) => JsonView::Str(s@),
            Json::Array(items) => JsonView::Array(
                Seq::new(items@.len(), |i: int| if 0 <= i < items@.len() { items@[i]@ } else { JsonView::Null }),
            ),
            Json::Object(entries) => JsonView::Object(
                Seq::new(
                    entries@.len(),
                    |i: int| entry(entries@[i].0@, if 0 <= i < entries@.len() { entries@[i].1@ } else { JsonView::Null }),
                ),
            ),
        }
    }
}

/// The tree of an array holds the trees of its items, in order.
pub proof fn lemma_array_view(items: Vec<Json>)
    ensures
        Json::Array(items)@ is Array,
        Json::Array(items)@->Array_0.len() == items@.len(),
        forall|k: int| 0 <= k < items@.len() ==> #[trigger] Json::Array(items)@->Array_0[k] == items@[k]@,
{
}

/// The tree of an object holds its keys and the trees of their values, in
/// order.
pub proof fn lemma_object_view(entries: Vec<(String, Json)>)
    ensures
        Json::Object(entries)@ is Object,
        Json::Object(entries)@->Object_0.len() == entries@.len(),
        forall|k: int| 0 <= k < entries@.len() ==> {
            &&& (#[trigger] Json::Object(entries)@->Object_0[k]).0 == entries@[k].0@
            &&& Json::Object(entries)@->Object_0[k].1 == entries@[k].1@
        },
{
}

} // verus!
