//! From the catalog source to the list of canonical items.
//!
//! A catalog is taken whole or not at all: the first record that cannot be
//! normalized, or that repeats an identifier, stops the load.

use vstd::prelude::*;
use crate::json::{json_document, read_document};
use crate::models::GameMod;
use crate::normalize::{bad, normalize_record, normalized, Field, Problem, SchemaError};
use crate::raw::{lemma_content_of_collections, trees, RawTree, RawValue};

verus! {

/// Why a catalog source holds no list of records.
#[derive(Debug, Clone, Copy, PartialEq, Eq, Structural)]
pub enum LoadError {
    /// The source is not well-formed structured text.
    Malformed,
    /// The source is well-formed, but it is not a list.
    NotAList,
}

/// Why a catalog could not be taken.
#[derive(Debug, Clone, Copy, PartialEq, Eq, Structural)]
pub enum CatalogError {
    Load(LoadError),
    /// The record at `index`, counted from zero, is the first that is not
    /// acceptable.
    Schema { index: usize, error: SchemaError },
}

impl LoadError {
    /// The problem in words.
    pub open spec fn text(self) -> Seq<char> {
        match self {
            LoadError::Malformed => "the catalog is not valid JSON"@,
            LoadError::NotAList => "the catalog is not a list of records"@,
        }
    }

    /// The problem in words.
    pub fn message(&self) -> (r: &'static str)
        ensures
            r@ == self.text(),
    {
        match self {
            LoadError::Malformed => "the catalog is not valid JSON",
            LoadError::NotAList => "the catalog is not a list of records",
        }
    }
}

/// Whether a record before position `k` normalizes to an item with the
/// identifier `id`.
pub open spec fn id_taken(records: Seq<RawTree>, k: int, id: Seq<char>) -> bool {
    exists|i: int|
        0 <= i < k && (#[trigger] normalized(records[i])) is Ok && normalized(records[i])->Ok_0.id
            == id
}

/// What is wrong with the record at position `k` of a catalog: the error of
/// its normalization, or a duplicate identifier where an earlier record
/// already has its identifier; `None` where the record is acceptable.
pub open spec fn fault(records: Seq<RawTree>, k: int) -> Option<SchemaError> {
    match normalized(records[k]) {
        Err(error) => Some(error),
        Ok(item) => if id_taken(records, k, item.id) {
            Some(bad(Field::Id, Problem::Duplicate))
        } else {
            None
        },
    }
}

/// Whether `items` is a valid catalog: every item meets the constraints of a
/// canonical item, and no identifier occurs twice.
pub open spec fn valid_catalog(items: Seq<GameMod>) -> bool {
    &&& forall|i: int| 0 <= i < items.len() ==> (#[trigger] items[i])@.well_formed()
    &&& forall|i: int, j: int|
        0 <= i < j < items.len() ==> (#[trigger] items[i])@.id != (#[trigger] items[j])@.id
}

/// A catalog that has been taken: canonical items, every one within the
/// constraints of a canonical item, no two with the same identifier.
#[derive(Debug, PartialEq, Eq)]
pub struct Catalog {
    items: Vec<GameMod>,
}

impl View for Catalog {
    type V = Seq<GameMod>;

    closed spec fn view(&self) -> Seq<GameMod> {
        self.items@
    }
}

impl Catalog {
    #[verifier::type_invariant]
    spec fn holds_a_valid_catalog(self) -> bool {
        valid_catalog(self.items@)
    }

    /// The items of the catalog, in the order of their records.
    pub fn items(&self) -> (r: &Vec<GameMod>)
        ensures
            r@ == self@,
            valid_catalog(r@),
    {
        proof {
            use_type_invariant(self);
        }
        &self.items
    }

    /// Gives the items of the catalog away.
    pub fn into_items(self) -> (r: Vec<GameMod>)
        ensures
            r@ == self@,
            valid_catalog(r@),
    {
        proof {
            use_type_invariant(&self);
        }
        self.items
    }
}

/// Whether `r` is the outcome of normalizing `records`: the canonical items
/// of all records, in order, where every record is acceptable; else the
/// position and the fault of the first record that is not.
pub open spec fn catalog_outcome(
    records: Seq<RawTree>,
    r: Result<Catalog, CatalogError>,
) -> bool {
    match r {
        Ok(catalog) => {
            &&& catalog@.len() == records.len()
            &&& forall|k: int|
                #![trigger fault(records, k)]
                #![trigger catalog@[k]]
                0 <= k < records.len() ==> {
                    &&& fault(records, k) is None
                    &&& normalized(records[k]) == Ok::<_, SchemaError>(catalog@[k]@)
                }
        },
        Err(CatalogError::Schema { index, error }) => {
            &&& index < records.len()
            &&& fault(records, index as int) == Some(error)
            &&& forall|k: int| 0 <= k < index ==> #[trigger] fault(records, k) is None
        },
        Err(CatalogError::Load(_)) => false,
    }
}

/// Whether `r` is the outcome of taking a catalog from what was read of its
/// source: a load error where nothing was read or what was read is no list,
/// else the outcome of normalizing the list's elements.
pub open spec fn document_outcome(
    document: Option<RawTree>,
    r: Result<Catalog, CatalogError>,
) -> bool {
    match document {
        None => r == Err::<Catalog, CatalogError>(CatalogError::Load(LoadError::Malformed)),
        Some(RawTree::List(records)) => catalog_outcome(records, r),
        Some(_) => r == Err::<Catalog, CatalogError>(CatalogError::Load(LoadError::NotAList)),
    }
}

/// The records decide the outcome: two outcomes of normalizing the same
/// records are the same error, or hold items of the same content, one for
/// one.
pub proof fn lemma_catalog_outcome_is_determined(
    records: Seq<RawTree>,
    first: Result<Catalog, CatalogError>,
    second: Result<Catalog, CatalogError>,
)
    requires
        catalog_outcome(records, first),
        catalog_outcome(records, second),
    ensures
        match (first, second) {
            (Ok(a), Ok(b)) => {
                &&& a@.len() == b@.len()
                &&& forall|k: int| 0 <= k < a@.len() ==> (#[trigger] a@[k])@ == b@[k]@
            },
            (Err(e), Err(f)) => e == f,
            _ => false,
        },
{
    match (first, second) {
        (Ok(a), Ok(b)) => {
            assert forall|k: int| 0 <= k < a@.len() implies (#[trigger] a@[k])@ == b@[k]@ by {
                assert(fault(records, k) is None);
            }
        },
        (
            Err(CatalogError::Schema { index: i, error: _ }),
            Err(CatalogError::Schema { index: j, error: _ }),
        ) => {
            if i < j {
                assert(fault(records, i as int) is None);
            } else if j < i {
                assert(fault(records, j as int) is None);
            }
        },
        (Ok(_), Err(CatalogError::Schema { index, error: _ })) => {
            assert(fault(records, index as int) is Some);
        },
        (Err(CatalogError::Schema { index, error: _ }), Ok(_)) => {
            assert(fault(records, index as int) is Some);
        },
        _ => {},
    }
}

/// Whether one of `items` has the identifier `id`.
fn holds_id(items: &Vec<GameMod>, id: &String) -> (r: bool)
    ensures
        r == exists|i: int| 0 <= i < items@.len() && (#[trigger] items@[i]).id@ == id@,
{
    let mut i: usize = 0;
    while i < items.len()
        invariant
            i <= items.len(),
            forall|k: int| 0 <= k < i ==> (#[trigger] items@[k]).id@ != id@,
        decreases items.len() - i,
    {
        if items[i].id == *id {
            return true;
        }
        i += 1;
    }
    false
}

/// Normalizes a whole catalog, record by record and in order. The result is
/// `Ok` exactly where every record normalizes and no two records share an
/// identifier.
pub fn normalize_catalog(records: &Vec<RawValue>) -> (r: Result<Catalog, CatalogError>)
    ensures
        catalog_outcome(trees(records@), r),
{
    let ghost raw = trees(records@);
    let mut items: Vec<GameMod> = Vec::new();
    let mut k: usize = 0;
    while k < records.len()
        invariant
            k <= records.len(),
            items@.len() == k,
            raw == trees(records@),
            valid_catalog(items@),
            forall|j: int|
                #![trigger fault(raw, j)]
                #![trigger items@[j]]
                0 <= j < k ==> {
                    &&& fault(raw, j) is None
                    &&& normalized(raw[j]) == Ok::<_, SchemaError>(items@[j]@)
                },
        decreases records.len() - k,
    {
        assert(raw[k as int] == records@[k as int]@);
        let item = match normalize_record(&records[k]) {
            Ok(item) => item,
            Err(error) => {
                return Err(CatalogError::Schema { index: k, error });
            },
        };
        let taken = holds_id(&items, &item.id);
        proof {
            if taken {
                let i = choose|i: int|
                    0 <= i < items@.len() && (#[trigger] items@[i]).id@ == item.id@;
                assert(normalized(raw[i]) == Ok::<_, SchemaError>(items@[i]@));
            } else {
                assert forall|i: int| 0 <= i < k && (#[trigger] normalized(
                    raw[i],
                )) is Ok implies normalized(raw[i])->Ok_0.id != item@.id by {
                    assert(items@[i].id@ != item.id@);
                }
            }
            assert(taken == id_taken(raw, k as int, item@.id));
        }
        if taken {
            return Err(
                CatalogError::Schema {
                    index: k,
                    error: SchemaError::BadField { field: Field::Id, problem: Problem::Duplicate },
                },
            );
        }
        items.push(item);
        k += 1;
    }
    Ok(Catalog { items })
}

/// The content of what was read of a catalog source.
pub open spec fn document_content(document: Option<RawValue>) -> Option<RawTree> {
    match document {
        Some(value) => Some(value@),
        None => None,
    }
}

/// Takes a catalog from what was read of its source, where `None` stands
/// for a source that could not be read as structured text.
pub fn catalog_from_document(document: Option<RawValue>) -> (r: Result<Catalog, CatalogError>)
    ensures
        document_outcome(document_content(document), r),
{
    match document {
        None => Err(CatalogError::Load(LoadError::Malformed)),
        Some(RawValue::List(records)) => {
            proof {
                lemma_content_of_collections(RawValue::List(records));
            }
            normalize_catalog(&records)
        },
        Some(_) => Err(CatalogError::Load(LoadError::NotAList)),
    }
}

/// Takes a catalog from the text of its source.
pub fn load_catalog(text: &str) -> (r: Result<Catalog, CatalogError>)
    ensures
        document_outcome(json_document(text@), r),
{
    catalog_from_document(read_document(text))
}

} // verus!
