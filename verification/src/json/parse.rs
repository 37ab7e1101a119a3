use vstd::prelude::*;
use crate::json::{lemma_array_view, lemma_object_view, Json, JsonView};

verus! {

/// `serde_json::Value`: carried through, and read only by the wrappers below.
#[verifier::external_type_specification]
#[verifier::external_body]
pub struct ExValue(serde_json::Value);

/// `serde_json::Error`: carried through, never read.
#[verifier::external_type_specification]
#[verifier::external_body]
pub struct ExJsonError(serde_json::Error);

/// What `serde_json::from_str::<serde_json::Value>` makes of a text: the tree
/// of the value it returns, or `None` where it returns an error. Where the
/// text writes a key of an object more than once, the value holds the key
/// once, with what was written last.
pub uninterp spec fn parsed_text(text: Seq<char>) -> Option<JsonView>;

/// The tree that a `serde_json::Value` holds. An integer that `as_u64` or
/// `as_i64` hands out is `Int`, any other number `Fraction`; the entries of an
/// object stand in the order in which its map walks them.
pub uninterp spec fn tree_of(value: serde_json::Value) -> JsonView;

/// Calls `serde_json::from_str` for a `serde_json::Value`. Trusted: the result
/// is what `parsed_text` names, and nothing more is claimed of it.
#[verifier::external_body]
fn read_value(text: &str) -> (r: Result<serde_json::Value, serde_json::Error>)
    ensures
        match r {
            Ok(v) => parsed_text(text@) == Some(tree_of(v)),
            Err(_) => parsed_text(text@) is None,
        },
{
    serde_json::from_str::<serde_json::Value>(text)
}

/// Tells the variants of `serde_json::Value` apart and copies out a scalar,
/// reading a number with `Number::as_u64` and `Number::as_i64`. Trusted: the
/// result is `None` for an array or an object, and otherwise the scalar that
/// the value's tree is.
#[verifier::external_body]
fn scalar_of(value: &serde_json::Value) -> (r: Option<Json>)
    ensures
        r is None <==> (tree_of(*value) is Array || tree_of(*value) is Object),
        r matches Some(j) ==> j@ == tree_of(*value),
{
    match value {
        serde_json::Value::Null => Some(Json::Null),
        serde_json::Value::Bool(b) => Some(Json::Bool(*b)),
        serde_json::Value::Number(n) => Some(match (n.as_u64(), n.as_i64()) {
            (Some(u), _) => Json::Int(u as i128),
            (None, Some(i)) => Json::Int(i as i128),
            (None, None) => Json::Fraction,
        }),
        serde_json::Value::String(s) => Some(Json::Str(s.clone())),
        serde_json::Value::Array(_) => None,
        serde_json::Value::Object(_) => None,
    }
}

/// Calls `serde_json::Value::as_array` and hands out the items by reference.
/// Trusted: the result is `Some` exactly for an array, and its items are, in
/// order, the items of the value's tree.
#[verifier::external_body]
fn array_items(value: &serde_json::Value) -> (r: Option<Vec<&serde_json::Value>>)
    ensures
        r is Some <==> tree_of(*value) is Array,
        r matches Some(items) ==> {
            &&& items@.len() == tree_of(*value)->Array_0.len()
            &&& forall|i: int| 0 <= i < items@.len() ==> tree_of(*#[trigger] items@[i]) == tree_of(*value)->Array_0[i]
        },
{
    value.as_array().map(|items| items.iter().collect())
}

/// Calls `serde_json::Value::as_object` and walks the map with `Map::iter`,
/// copying each key. Trusted: the result is `Some` exactly for an object, and
/// its entries are, in order, the entries of the value's tree.
#[verifier::external_body]
fn object_entries(value: &serde_json::Value) -> (r: Option<Vec<(String, &serde_json::Value)>>)
    ensures
        r is Some <==> tree_of(*value) is Object,
        r matches Some(entries) ==> {
            &&& entries@.len() == tree_of(*value)->Object_0.len()
            &&& forall|i: int| 0 <= i < entries@.len() ==> {
                &&& (#[trigger] entries@[i]).0@ == tree_of(*value)->Object_0[i].0
                &&& tree_of(*entries@[i].1) == tree_of(*value)->Object_0[i].1
            }
        },
{
    value.as_object().map(|entries| entries.iter().map(|(k, v)| (k.clone(), v)).collect())
}

/// Copies a `serde_json::Value` into a `Json` with the same tree.
fn json_of(value: &serde_json::Value) -> (j: Json)
    ensures
        j@ == tree_of(*value),
    decreases tree_of(*value),
{
    if let Some(scalar) = scalar_of(value) {
        return scalar;
    }
    if let Some(items) = array_items(value) {
        let mut out: Vec<Json> = Vec::new();
        let mut i: usize = 0;
        while i < items.len()
            invariant
                i <= items@.len(),
                tree_of(*value) is Array,
                items@.len() == tree_of(*value)->Array_0.len(),
                forall|k: int| 0 <= k < items@.len() ==> tree_of(*#[trigger] items@[k]) == tree_of(*value)->Array_0[k],
                out@.len() == i,
                forall|k: int| 0 <= k < i ==> (#[trigger] out@[k])@ == tree_of(*value)->Array_0[k],
            decreases items@.len() - i,
        {
            let child = json_of(items[i]);
            out.push(child);
            i = i + 1;
        }
        proof {
            lemma_array_view(out);
        }
        let j = Json::Array(out);
        assert(j@->Array_0 =~= tree_of(*value)->Array_0);
        return j;
    }
    match object_entries(value) {
        Some(entries) => {
            let mut out: Vec<(String, Json)> = Vec::new();
            let mut i: usize = 0;
            while i < entries.len()
                invariant
                    i <= entries@.len(),
                    tree_of(*value) is Object,
                    entries@.len() == tree_of(*value)->Object_0.len(),
                    forall|k: int| 0 <= k < entries@.len() ==> {
                        &&& (#[trigger] entries@[k]).0@ == tree_of(*value)->Object_0[k].0
                        &&& tree_of(*entries@[k].1) == tree_of(*value)->Object_0[k].1
                    },
                    out@.len() == i,
                    forall|k: int| 0 <= k < i ==> {
                        &&& (#[trigger] out@[k]).0@ == tree_of(*value)->Object_0[k].0
                        &&& out@[k].1@ == tree_of(*value)->Object_0[k].1
                    },
                decreases entries@.len() - i,
            {
                let key = entries[i].0.clone();
                let child = json_of(entries[i].1);
                out.push((key, child));
                i = i + 1;
            }
            proof {
                lemma_object_view(out);
            }
            let j = Json::Object(out);
            assert(j@->Object_0 =~= tree_of(*value)->Object_0);
            j
        },
        None => {
            proof {
                assert(false);
            }
            Json::Null
        },
    }
}

impl Json {
    /// Reads a JSON text. The result is the tree that the text denotes, or
    /// `None` where the text is not JSON. A key that an object writes more
    /// than once is not refused: the tree holds it once, with the value
    /// written last.
    pub fn parse(text: &str) -> (r: Option<Json>)
        ensures
            match r {
                Some(j) => parsed_text(text@) == Some(j@),
                None => parsed_text(text@) is None,
            },
    {
        match read_value(text) {
            Ok(value) => Some(json_of(&value)),
            Err(_) => None,
        }
    }
}

} // verus!
