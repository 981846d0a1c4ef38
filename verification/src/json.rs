//! Reading the catalog source with `serde_json`.
//!
//! `serde_json` parses the text; this module walks the value it hands back
//! and rebuilds it as a [`RawValue`]. Nothing is proved of `serde_json`
//! itself: a `serde_json::Value` is opaque here, [`json_content`] names what
//! it holds, and each private function below that calls into `serde_json`
//! states, without proof, what that call tells about the content.

use vstd::prelude::*;
use crate::raw::{entry_trees, lemma_content_of_collections, trees, RawTree, RawValue};

verus! {

/// Declares `serde_json::Value`, so that it can be named here. Nothing of
/// what is inside such a value is known but through [`json_content`].
#[verifier::external_type_specification]
#[verifier::external_body]
pub struct ExJsonValue(serde_json::Value);

/// Declares `serde_json::Error`, so that it can be named here. Nothing is
/// read from it.
#[verifier::external_type_specification]
#[verifier::external_body]
pub struct ExJsonError(serde_json::Error);

/// What `serde_json` makes of a text: the content of the value that it
/// reads, or `None` where it reports an error.
pub uninterp spec fn json_document(text: Seq<char>) -> Option<RawTree>;

/// What a `serde_json::Value` holds. `Null`, `Bool`, `String`, `Array` and
/// `Object` stand as the variants of the same meaning, arrays element by
/// element and objects entry by entry in the order in which the object's map
/// hands its entries out. A `Number` stands with what
/// `serde_json::Number::as_i64` gives for it.
pub uninterp spec fn json_content(value: serde_json::Value) -> RawTree;

/// The contents of a run of `serde_json` values, in order.
pub open spec fn json_contents(values: Seq<serde_json::Value>) -> Seq<RawTree> {
    values.map_values(|value: serde_json::Value| json_content(value))
}

/// The contents of a run of borrowed object entries, in order.
pub open spec fn json_entry_contents(entries: Seq<(&String, &serde_json::Value)>) -> Seq<
    (Seq<char>, RawTree),
> {
    entries.map_values(|entry: (&String, &serde_json::Value)| (entry.0@, json_content(*entry.1)))
}

/// Calls `serde_json::from_str` to read one `serde_json::Value`.
///
/// Stated without proof: whether the call succeeds, and with which content,
/// depends on the text alone. [`json_document`] names that outcome.
#[verifier::external_body]
fn parse_value(text: &str) -> (r: Result<serde_json::Value, serde_json::Error>)
    ensures
        match r {
            Ok(value) => json_document(text@) == Some(json_content(value)),
            Err(_) => json_document(text@) is None,
        },
{
    serde_json::from_str::<serde_json::Value>(text)
}

/// Calls `serde_json::Value::is_null`.
///
/// Stated without proof: it answers `true` for `Value::Null` and for nothing
/// else.
#[verifier::external_body]
fn is_null(value: &serde_json::Value) -> (r: bool)
    ensures
        r == (json_content(*value) is Null),
{
    value.is_null()
}

/// Calls `serde_json::Value::as_bool`.
///
/// Stated without proof: it gives the boolean of a `Value::Bool` and `None`
/// for every other value.
#[verifier::external_body]
fn as_bool(value: &serde_json::Value) -> (r: Option<bool>)
    ensures
        match r {
            Some(b) => json_content(*value) == RawTree::Bool(b),
            None => !(json_content(*value) is Bool),
        },
{
    value.as_bool()
}

/// Calls `serde_json::Value::as_i64`.
///
/// Stated without proof: for a `Value::Number` it gives what
/// `serde_json::Number::as_i64` gives, which is how [`json_content`] records
/// a number.
#[verifier::external_body]
fn as_i64(value: &serde_json::Value) -> (r: Option<i64>)
    ensures
        json_content(*value) is Number ==> json_content(*value) == RawTree::Number(r),
{
    value.as_i64()
}

/// Calls `serde_json::Value::as_str`.
///
/// Stated without proof: it gives the text of a `Value::String` and `None`
/// for every other value.
#[verifier::external_body]
fn as_str(value: &serde_json::Value) -> (r: Option<&str>)
    ensures
        match r {
            Some(s) => json_content(*value) == RawTree::Text(s@),
            None => !(json_content(*value) is Text),
        },
{
    value.as_str()
}

/// Calls `serde_json::Value::as_array`.
///
/// Stated without proof: it gives the elements of a `Value::Array`, in
/// order, and `None` for every other value.
#[verifier::external_body]
fn as_array(value: &serde_json::Value) -> (r: Option<&Vec<serde_json::Value>>)
    ensures
        match r {
            Some(items) => json_content(*value) == RawTree::List(json_contents(items@)),
            None => !(json_content(*value) is List),
        },
{
    value.as_array()
}

/// Calls `serde_json::Value::as_object` and collects what
/// `serde_json::Map::iter` hands out.
///
/// Stated without proof: it gives the entries of a `Value::Object`, in the
/// map's order, and `None` for every other value.
#[verifier::external_body]
fn as_entries(value: &serde_json::Value) -> (r: Option<Vec<(&String, &serde_json::Value)>>)
    ensures
        match r {
            Some(entries) => json_content(*value) == RawTree::Record(
                json_entry_contents(entries@),
            ),
            None => !(json_content(*value) is Record),
        },
{
    value.as_object().map(|object| object.iter().collect())
}

/// Rebuilds a `serde_json::Value` as a raw value of the same content.
fn raw_value(value: &serde_json::Value) -> (r: RawValue)
    ensures
        r@ == json_content(*value),
    decreases json_content(*value),
{
    if is_null(value) {
        return RawValue::Null;
    }
    if let Some(b) = as_bool(value) {
        return RawValue::Bool(b);
    }
    if let Some(s) = as_str(value) {
        return RawValue::Text(s.to_owned());
    }
    if let Some(items) = as_array(value) {
        let mut list: Vec<RawValue> = Vec::new();
        let mut i: usize = 0;
        while i < items.len()
            invariant
                i <= items.len(),
                list@.len() == i,
                json_content(*value) == RawTree::List(json_contents(items@)),
                forall|k: int| 0 <= k < i ==> (#[trigger] list@[k])@ == json_content(items@[k]),
            decreases items.len() - i,
        {
            proof {
                let whole = json_content(*value);
                assert(whole->List_0[i as int] == json_content(items@[i as int]));
                assert(decreases_to!(whole => whole->List_0));
                assert(decreases_to!(whole->List_0 => whole->List_0[i as int]));
            }
            list.push(raw_value(&items[i]));
            i += 1;
        }
        proof {
            lemma_content_of_collections(RawValue::List(list));
            assert(trees(list@) =~= json_contents(items@));
        }
        return RawValue::List(list);
    }
    if let Some(entries) = as_entries(value) {
        let mut record: Vec<(String, RawValue)> = Vec::new();
        let mut i: usize = 0;
        while i < entries.len()
            invariant
                i <= entries.len(),
                record@.len() == i,
                json_content(*value) == RawTree::Record(json_entry_contents(entries@)),
                forall|k: int|
                    0 <= k < i ==> (#[trigger] record@[k]).0@ == entries@[k].0@ && record@[k].1@
                        == json_content(*entries@[k].1),
            decreases entries.len() - i,
        {
            proof {
                let whole = json_content(*value);
                assert(whole->Record_0[i as int].1 == json_content(*entries@[i as int].1));
                assert(decreases_to!(whole => whole->Record_0));
                assert(decreases_to!(whole->Record_0 => whole->Record_0[i as int]));
                assert(decreases_to!(whole->Record_0[i as int] => whole->Record_0[i as int].1));
            }
            let key = entries[i].0.clone();
            let entry = raw_value(entries[i].1);
            record.push((key, entry));
            i += 1;
        }
        proof {
            lemma_content_of_collections(RawValue::Record(record));
            assert(entry_trees(record@) =~= json_entry_contents(entries@));
        }
        return RawValue::Record(record);
    }
    RawValue::Number(as_i64(value))
}

/// Reads a text as one raw value; `None` where the text is not valid JSON.
pub fn read_document(text: &str) -> (r: Option<RawValue>)
    ensures
        match r {
            Some(value) => json_document(text@) == Some(value@),
            None => json_document(text@) is None,
        },
{
    match parse_value(text) {
        Ok(value) => Some(raw_value(&value)),
        Err(_) => None,
    }
}

} // verus!
