//! Raw, untyped catalog data as it comes out of the catalog source.

use vstd::prelude::*;

verus! {

/// A value of the catalog source before normalization.
#[derive(Debug, PartialEq, Eq)]
pub enum RawValue {
    Null,
    Bool(bool),
    /// A number. `Some` holds it where it is an integer that fits `i64`;
    /// `None` stands for every other number.
    Number(Option<i64>),
    Text(String),
    List(Vec<RawValue>),
    /// A record: its entries, each a key and a value. Where a key occurs
    /// more than once, its first entry counts.
    Record(Vec<(String, RawValue)>),
}

/// The mathematical content of a [`RawValue`].
pub enum RawTree {
    Null,
    Bool(bool),
    Number(Option<i64>),
    Text(Seq<char>),
    List(Seq<RawTree>),
    Record(Seq<(Seq<char>, RawTree)>),
}

/// The content of a raw value: its own shape, with texts as character
/// sequences and the elements of lists and records by their contents.
///
/// The definition follows the nesting of the value. A proof about a value
/// that is written out in full may need `reveal_with_fuel(content, n)` with
/// `n` above the depth of the nesting, or [`lemma_content_of_collections`]
/// for one level at a time.
pub open spec fn content(value: RawValue) -> RawTree
    decreases value,
{
    match value {
        RawValue::Null => RawTree::Null,
        RawValue::Bool(b) => RawTree::Bool(b),
        RawValue::Number(n) => RawTree::Number(n),
        RawValue::Text(s) => RawTree::Text(s@),
        RawValue::List(items) => RawTree::List(
            Seq::new(
                items@.len(),
                |i: int|
                    if 0 <= i < items@.len() {
                        content(items@[i])
                    } else {
                        RawTree::Null
                    },
            ),
        ),
        RawValue::Record(entries) => RawTree::Record(
            Seq::new(
                entries@.len(),
                |i: int|
                    if 0 <= i < entries@.len() {
                        (entries@[i].0@, content(entries@[i].1))
                    } else {
                        (Seq::empty(), RawTree::Null)
                    },
            ),
        ),
    }
}

impl View for RawValue {
    type V = RawTree;

    open spec fn view(&self) -> RawTree {
        content(*self)
    }
}

/// The contents of a run of raw values, in order.
pub open spec fn trees(items: Seq<RawValue>) -> Seq<RawTree> {
    items.map_values(|item: RawValue| item@)
}

/// The contents of the entries of a record, in order.
pub open spec fn entry_trees(entries: Seq<(String, RawValue)>) -> Seq<(Seq<char>, RawTree)> {
    entries.map_values(|entry: (String, RawValue)| (entry.0@, entry.1@))
}

/// The content of a list is the list of its elements' contents, and the
/// content of a record is the list of its entries' contents.
pub proof fn lemma_content_of_collections(value: RawValue)
    ensures
        value matches RawValue::List(items) ==> value@ == RawTree::List(trees(items@)),
        value matches RawValue::Record(entries) ==> value@ == RawTree::Record(
            entry_trees(entries@),
        ),
{
    match value {
        RawValue::List(items) => {
            assert(value@->List_0 =~= trees(items@));
        },
        RawValue::Record(entries) => {
            assert(value@->Record_0 =~= entry_trees(entries@));
        },
        _ => {},
    }
}

/// The value of the first entry whose key is `key`, `None` where no entry
/// has that key.
pub open spec fn field(entries: Seq<(Seq<char>, RawTree)>, key: Seq<char>) -> Option<RawTree>
    decreases entries.len(),
{
    if entries.len() == 0 {
        None
    } else if entries[0].0 == key {
        Some(entries[0].1)
    } else {
        field(entries.drop_first(), key)
    }
}

/// Looks a key up among the entries of a record.
pub fn lookup<'a>(entries: &'a Vec<(String, RawValue)>, key: &str) -> (r: Option<&'a RawValue>)
    ensures
        match r {
            Some(value) => field(entry_trees(entries@), key@) == Some(value@),
            None => field(entry_trees(entries@), key@) is None,
        },
{
    let wanted = key.to_owned();
    let ghost all = entry_trees(entries@);
    let mut i: usize = 0;
    assert(all.skip(0) =~= all);
    while i < entries.len()
        invariant
            i <= entries.len(),
            wanted@ == key@,
            all == entry_trees(entries@),
            field(all, key@) == field(all.skip(i as int), key@),
        decreases entries.len() - i,
    {
        let ghost rest = all.skip(i as int);
        assert(rest[0] == all[i as int]);
        assert(rest.drop_first() =~= all.skip(i + 1));
        if entries[i].0 == wanted {
            return Some(&entries[i].1);
        }
        i += 1;
    }
    assert(all.skip(i as int).len() == 0);
    None
}

} // verus!
