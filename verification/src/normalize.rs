//! From a raw catalog record to a canonical item.
//!
//! A catalog source may write a list field as one string or as a list of
//! strings, and may leave optional fields out or set them to null.
//! Normalization brings every record into the one shape of [`GameMod`], or
//! says which field has no such shape and why.

use vstd::prelude::*;
use crate::models::{texts, GameMod, GameModView};
use crate::raw::{field, lemma_content_of_collections, lookup, trees, RawTree, RawValue};

verus! {

/// The fields of a catalog record, in the order in which they are checked.
#[derive(Debug, Clone, Copy, PartialEq, Eq, Structural)]
pub enum Field {
    Id,
    Title,
    Link,
    Image,
    Categories,
    Downloads,
    Author,
}

/// Why a raw value has no canonical form.
#[derive(Debug, Clone, Copy, PartialEq, Eq, Structural)]
pub enum Problem {
    /// A required field is not in the record.
    Missing,
    /// A value that must be a string is something else. Inside a list, an
    /// element is not a string.
    ExpectedString,
    /// A value that may be a string or a list of strings is neither.
    ExpectedStringOrList,
    /// A value that must be a list of strings is not a list.
    ExpectedList,
    /// A list has no elements.
    EmptyList,
    /// An identifier has no characters.
    EmptyString,
    /// A value that must be an integer is something else.
    ExpectedInteger,
    /// An integer does not fit the 32 bits of a download count.
    OutOfRange,
    /// An identifier occurs a second time in one catalog.
    Duplicate,
}

/// Why a raw value is no catalog item.
#[derive(Debug, Clone, Copy, PartialEq, Eq, Structural)]
pub enum SchemaError {
    /// The value is not a record.
    NotARecord,
    /// The first field, in the order of [`Field`], that has no canonical
    /// form.
    BadField { field: Field, problem: Problem },
}

impl Field {
    /// The key under which a record holds the field.
    pub open spec fn key(self) -> Seq<char> {
        match self {
            Field::Id => "id"@,
            Field::Title => "title"@,
            Field::Link => "link"@,
            Field::Image => "image"@,
            Field::Categories => "categories"@,
            Field::Downloads => "downloads"@,
            Field::Author => "author"@,
        }
    }

    /// The key under which a record holds the field.
    pub fn name(&self) -> (r: &'static str)
        ensures
            r@ == self.key(),
    {
        match self {
            Field::Id => "id",
            Field::Title => "title",
            Field::Link => "link",
            Field::Image => "image",
            Field::Categories => "categories",
            Field::Downloads => "downloads",
            Field::Author => "author",
        }
    }
}

impl Problem {
    /// The problem in words.
    pub open spec fn text(self) -> Seq<char> {
        match self {
            Problem::Missing => "missing"@,
            Problem::ExpectedString => "expected a string"@,
            Problem::ExpectedStringOrList => "expected a string or array of strings"@,
            Problem::ExpectedList => "expected an array of strings"@,
            Problem::EmptyList => "expected at least one string"@,
            Problem::EmptyString => "expected a non-empty string"@,
            Problem::ExpectedInteger => "expected an integer"@,
            Problem::OutOfRange => "integer out of range"@,
            Problem::Duplicate => "used by an earlier record"@,
        }
    }

    /// The problem in words.
    pub fn message(&self) -> (r: &'static str)
        ensures
            r@ == self.text(),
    {
        match self {
            Problem::Missing => "missing",
            Problem::ExpectedString => "expected a string",
            Problem::ExpectedStringOrList => "expected a string or array of strings",
            Problem::ExpectedList => "expected an array of strings",
            Problem::EmptyList => "expected at least one string",
            Problem::EmptyString => "expected a non-empty string",
            Problem::ExpectedInteger => "expected an integer",
            Problem::OutOfRange => "integer out of range",
            Problem::Duplicate => "used by an earlier record",
        }
    }
}

impl SchemaError {
    /// The diagnostic: the field's key, then what is wrong with it.
    pub open spec fn text(self) -> Seq<char> {
        match self {
            SchemaError::NotARecord => "expected a record"@,
            SchemaError::BadField { field, problem } => field.key() + ": "@ + problem.text(),
        }
    }

    /// The diagnostic: the field's key, then what is wrong with it.
    pub fn message(&self) -> (r: String)
        ensures
            r@ == self.text(),
    {
        match self {
            SchemaError::NotARecord => "expected a record".to_owned(),
            SchemaError::BadField { field, problem } => {
                let mut text = field.name().to_owned();
                text.append(": ");
                text.append(problem.message());
                text
            },
        }
    }
}

/// Whether every one of `items` is a string.
pub open spec fn all_text(items: Seq<RawTree>) -> bool {
    forall|i: int| 0 <= i < items.len() ==> items[i] is Text
}

/// The texts of `items`, in order, where all of them are strings.
pub open spec fn item_texts(items: Seq<RawTree>) -> Seq<Seq<char>> {
    items.map_values(|item: RawTree| item->Text_0)
}

/// The canonical form of a raw list: its texts, if it has at least one
/// element and all its elements are strings.
pub open spec fn canonical_items(items: Seq<RawTree>) -> Result<Seq<Seq<char>>, Problem> {
    if items.len() == 0 {
        Err(Problem::EmptyList)
    } else if all_text(items) {
        Ok(item_texts(items))
    } else {
        Err(Problem::ExpectedString)
    }
}

/// The canonical form of a string-or-list value: a single string becomes a
/// list of that one string, a list stands for itself, anything else has no
/// canonical form.
pub open spec fn canonical_list(value: RawTree) -> Result<Seq<Seq<char>>, Problem> {
    match value {
        RawTree::Text(s) => Ok(seq![s]),
        RawTree::List(items) => canonical_items(items),
        _ => Err(Problem::ExpectedStringOrList),
    }
}

/// Whether an optional field counts as absent: the record has no such key,
/// or it has the key with a null value.
pub open spec fn is_absent(value: Option<RawTree>) -> bool {
    value is None || value == Some(RawTree::Null)
}

/// The canonical form of an optional string-or-list field: absent where the
/// field is absent, else the canonical list of its value.
pub open spec fn canonical_optional_list(value: Option<RawTree>) -> Result<
    Option<Seq<Seq<char>>>,
    Problem,
> {
    if is_absent(value) {
        Ok(None)
    } else {
        match canonical_list(value->0) {
            Ok(list) => Ok(Some(list)),
            Err(problem) => Err(problem),
        }
    }
}

/// The canonical form of an optional field that must be written as a list.
pub open spec fn canonical_optional_items(value: Option<RawTree>) -> Result<
    Option<Seq<Seq<char>>>,
    Problem,
> {
    if is_absent(value) {
        Ok(None)
    } else {
        match value->0 {
            RawTree::List(items) => match canonical_items(items) {
                Ok(list) => Ok(Some(list)),
                Err(problem) => Err(problem),
            },
            _ => Err(Problem::ExpectedList),
        }
    }
}

/// The canonical form of a required string-or-list field.
pub open spec fn canonical_required_list(value: Option<RawTree>) -> Result<
    Seq<Seq<char>>,
    Problem,
> {
    match value {
        Some(v) => canonical_list(v),
        None => Err(Problem::Missing),
    }
}

/// The canonical form of a required string field.
pub open spec fn canonical_text(value: Option<RawTree>) -> Result<Seq<char>, Problem> {
    match value {
        Some(RawTree::Text(s)) => Ok(s),
        Some(_) => Err(Problem::ExpectedString),
        None => Err(Problem::Missing),
    }
}

/// The canonical form of an identifier: a required string with at least one
/// character.
pub open spec fn canonical_id(value: Option<RawTree>) -> Result<Seq<char>, Problem> {
    match canonical_text(value) {
        Ok(s) => if s.len() == 0 {
            Err(Problem::EmptyString)
        } else {
            Ok(s)
        },
        Err(problem) => Err(problem),
    }
}

/// The canonical form of an optional string field.
pub open spec fn canonical_optional_text(value: Option<RawTree>) -> Result<
    Option<Seq<char>>,
    Problem,
> {
    if is_absent(value) {
        Ok(None)
    } else {
        match value->0 {
            RawTree::Text(s) => Ok(Some(s)),
            _ => Err(Problem::ExpectedString),
        }
    }
}

/// The canonical form of a download count: a required integer within the
/// range of `i32`.
pub open spec fn canonical_count(value: Option<RawTree>) -> Result<int, Problem> {
    match value {
        Some(RawTree::Number(Some(n))) => if i32::MIN <= n <= i32::MAX {
            Ok(n as int)
        } else {
            Err(Problem::OutOfRange)
        },
        Some(_) => Err(Problem::ExpectedInteger),
        None => Err(Problem::Missing),
    }
}

/// The error that names `field` and `problem`.
pub open spec fn bad(field: Field, problem: Problem) -> SchemaError {
    SchemaError::BadField { field, problem }
}

/// The canonical item of a record with these entries. The fields are
/// checked in the order of [`Field`], and the first one without a canonical
/// form is the error. Keys that are no field of an item are ignored.
pub open spec fn normalized_entries(entries: Seq<(Seq<char>, RawTree)>) -> Result<
    GameModView,
    SchemaError,
> {
    let id = canonical_id(field(entries, Field::Id.key()));
    let title = canonical_text(field(entries, Field::Title.key()));
    let link = canonical_required_list(field(entries, Field::Link.key()));
    let image = canonical_optional_items(field(entries, Field::Image.key()));
    let categories = canonical_optional_list(field(entries, Field::Categories.key()));
    let downloads = canonical_count(field(entries, Field::Downloads.key()));
    let author = canonical_optional_text(field(entries, Field::Author.key()));
    if id is Err {
        Err(bad(Field::Id, id->Err_0))
    } else if title is Err {
        Err(bad(Field::Title, title->Err_0))
    } else if link is Err {
        Err(bad(Field::Link, link->Err_0))
    } else if image is Err {
        Err(bad(Field::Image, image->Err_0))
    } else if categories is Err {
        Err(bad(Field::Categories, categories->Err_0))
    } else if downloads is Err {
        Err(bad(Field::Downloads, downloads->Err_0))
    } else if author is Err {
        Err(bad(Field::Author, author->Err_0))
    } else {
        Ok(
            GameModView {
                id: id->Ok_0,
                title: title->Ok_0,
                link: link->Ok_0,
                image: image->Ok_0,
                categories: categories->Ok_0,
                downloads: downloads->Ok_0,
                author: author->Ok_0,
            },
        )
    }
}

/// The canonical item of a raw value: that of its entries where it is a
/// record, and none where it is anything else.
pub open spec fn normalized(record: RawTree) -> Result<GameModView, SchemaError> {
    match record {
        RawTree::Record(entries) => normalized_entries(entries),
        _ => Err(SchemaError::NotARecord),
    }
}

/// The content of a list result.
pub open spec fn list_view(r: Result<Vec<String>, Problem>) -> Result<Seq<Seq<char>>, Problem> {
    match r {
        Ok(list) => Ok(texts(list)),
        Err(problem) => Err(problem),
    }
}

/// The content of an optional-list result.
pub open spec fn optional_list_view(r: Result<Option<Vec<String>>, Problem>) -> Result<
    Option<Seq<Seq<char>>>,
    Problem,
> {
    match r {
        Ok(Some(list)) => Ok(Some(texts(list))),
        Ok(None) => Ok(None),
        Err(problem) => Err(problem),
    }
}

/// The content of a text result.
pub open spec fn text_view(r: Result<String, Problem>) -> Result<Seq<char>, Problem> {
    match r {
        Ok(s) => Ok(s@),
        Err(problem) => Err(problem),
    }
}

/// The content of an optional-text result.
pub open spec fn optional_text_view(r: Result<Option<String>, Problem>) -> Result<
    Option<Seq<char>>,
    Problem,
> {
    match r {
        Ok(Some(s)) => Ok(Some(s@)),
        Ok(None) => Ok(None),
        Err(problem) => Err(problem),
    }
}

/// The content of a count result.
pub open spec fn count_view(r: Result<i32, Problem>) -> Result<int, Problem> {
    match r {
        Ok(n) => Ok(n as int),
        Err(problem) => Err(problem),
    }
}

/// The content of a record result.
pub open spec fn item_view(r: Result<GameMod, SchemaError>) -> Result<GameModView, SchemaError> {
    match r {
        Ok(item) => Ok(item@),
        Err(error) => Err(error),
    }
}

/// The content of a field that may be missing from its record.
pub open spec fn field_content(value: Option<&RawValue>) -> Option<RawTree> {
    match value {
        Some(v) => Some(v@),
        None => None,
    }
}

/// Normalizes the elements of a raw list.
fn string_items(items: &Vec<RawValue>) -> (r: Result<Vec<String>, Problem>)
    ensures
        list_view(r) == canonical_items(trees(items@)),
{
    if items.len() == 0 {
        return Err(Problem::EmptyList);
    }
    let mut list: Vec<String> = Vec::new();
    let mut i: usize = 0;
    while i < items.len()
        invariant
            i <= items.len(),
            list@.len() == i,
            forall|k: int|
                0 <= k < i ==> (#[trigger] trees(items@)[k]) is Text && list@[k]@ == trees(
                    items@,
                )[k]->Text_0,
        decreases items.len() - i,
    {
        match &items[i] {
            RawValue::Text(s) => {
                list.push(s.clone());
            },
            _ => {
                assert(!(trees(items@)[i as int] is Text));
                return Err(Problem::ExpectedString);
            },
        }
        i += 1;
    }
    assert(texts(list) =~= item_texts(trees(items@)));
    Ok(list)
}

/// Normalizes a string-or-list value: one string gives a list of that
/// string, a list of strings gives its strings in order. An empty list, a
/// list with an element that is no string, and any other value are refused.
pub fn string_or_vec(value: &RawValue) -> (r: Result<Vec<String>, Problem>)
    ensures
        list_view(r) == canonical_list(value@),
{
    match value {
        RawValue::Text(s) => {
            let list = vec![s.clone()];
            assert(texts(list) =~= seq![s@]);
            Ok(list)
        },
        RawValue::List(items) => {
            proof {
                lemma_content_of_collections(*value);
            }
            string_items(items)
        },
        _ => Err(Problem::ExpectedStringOrList),
    }
}

/// Normalizes an optional string-or-list field. `None` stands for a record
/// without the field; that and a null value give `Ok(None)`, never an empty
/// list. Any other value is normalized as by [`string_or_vec`].
pub fn string_or_vec_option(value: Option<&RawValue>) -> (r: Result<Option<Vec<String>>, Problem>)
    ensures
        optional_list_view(r) == canonical_optional_list(field_content(value)),
{
    match value {
        None => Ok(None),
        Some(RawValue::Null) => Ok(None),
        Some(other) => match string_or_vec(other) {
            Ok(list) => Ok(Some(list)),
            Err(problem) => Err(problem),
        },
    }
}

/// Normalizes an optional field that must be written as a list.
fn string_items_option(value: Option<&RawValue>) -> (r: Result<Option<Vec<String>>, Problem>)
    ensures
        optional_list_view(r) == canonical_optional_items(field_content(value)),
{
    match value {
        None => Ok(None),
        Some(RawValue::Null) => Ok(None),
        Some(RawValue::List(items)) => {
            proof {
                lemma_content_of_collections(RawValue::List(*items));
            }
            match string_items(items) {
                Ok(list) => Ok(Some(list)),
                Err(problem) => Err(problem),
            }
        },
        Some(_) => Err(Problem::ExpectedList),
    }
}

/// Normalizes a required string-or-list field.
fn required_list(value: Option<&RawValue>) -> (r: Result<Vec<String>, Problem>)
    ensures
        list_view(r) == canonical_required_list(field_content(value)),
{
    match value {
        Some(v) => string_or_vec(v),
        None => Err(Problem::Missing),
    }
}

/// Normalizes a required string field.
fn required_text(value: Option<&RawValue>) -> (r: Result<String, Problem>)
    ensures
        text_view(r) == canonical_text(field_content(value)),
{
    match value {
        Some(RawValue::Text(s)) => Ok(s.clone()),
        Some(_) => Err(Problem::ExpectedString),
        None => Err(Problem::Missing),
    }
}

/// Normalizes an identifier.
fn required_id(value: Option<&RawValue>) -> (r: Result<String, Problem>)
    ensures
        text_view(r) == canonical_id(field_content(value)),
{
    match required_text(value) {
        Ok(s) => if s.as_str().is_empty() {
            Err(Problem::EmptyString)
        } else {
            Ok(s)
        },
        Err(problem) => Err(problem),
    }
}

/// Normalizes an optional string field.
fn optional_string(value: Option<&RawValue>) -> (r: Result<Option<String>, Problem>)
    ensures
        optional_text_view(r) == canonical_optional_text(field_content(value)),
{
    match value {
        None => Ok(None),
        Some(RawValue::Null) => Ok(None),
        Some(RawValue::Text(s)) => Ok(Some(s.clone())),
        Some(_) => Err(Problem::ExpectedString),
    }
}

/// Normalizes a download count.
fn required_count(value: Option<&RawValue>) -> (r: Result<i32, Problem>)
    ensures
        count_view(r) == canonical_count(field_content(value)),
{
    match value {
        Some(RawValue::Number(Some(n))) => {
            if i32::MIN as i64 <= *n && *n <= i32::MAX as i64 {
                Ok(*n as i32)
            } else {
                Err(Problem::OutOfRange)
            }
        },
        Some(_) => Err(Problem::ExpectedInteger),
        None => Err(Problem::Missing),
    }
}

/// Normalizes one raw record: `Ok` with its canonical item exactly where
/// [`normalized`] gives one, else the error that [`normalized`] gives.
pub fn normalize_record(record: &RawValue) -> (r: Result<GameMod, SchemaError>)
    ensures
        item_view(r) == normalized(record@),
        r matches Ok(item) ==> item@.well_formed(),
{
    let entries = match record {
        RawValue::Record(entries) => entries,
        _ => {
            return Err(SchemaError::NotARecord);
        },
    };
    proof {
        lemma_content_of_collections(*record);
    }
    let id = match required_id(lookup(entries, Field::Id.name())) {
        Ok(id) => id,
        Err(problem) => {
            return Err(SchemaError::BadField { field: Field::Id, problem });
        },
    };
    let title = match required_text(lookup(entries, Field::Title.name())) {
        Ok(title) => title,
        Err(problem) => {
            return Err(SchemaError::BadField { field: Field::Title, problem });
        },
    };
    let link = match required_list(lookup(entries, Field::Link.name())) {
        Ok(link) => link,
        Err(problem) => {
            return Err(SchemaError::BadField { field: Field::Link, problem });
        },
    };
    let image = match string_items_option(lookup(entries, Field::Image.name())) {
        Ok(image) => image,
        Err(problem) => {
            return Err(SchemaError::BadField { field: Field::Image, problem });
        },
    };
    let categories = match string_or_vec_option(lookup(entries, Field::Categories.name())) {
        Ok(categories) => categories,
        Err(problem) => {
            return Err(SchemaError::BadField { field: Field::Categories, problem });
        },
    };
    let downloads = match required_count(lookup(entries, Field::Downloads.name())) {
        Ok(downloads) => downloads,
        Err(problem) => {
            return Err(SchemaError::BadField { field: Field::Downloads, problem });
        },
    };
    let author = match optional_string(lookup(entries, Field::Author.name())) {
        Ok(author) => author,
        Err(problem) => {
            return Err(SchemaError::BadField { field: Field::Author, problem });
        },
    };
    Ok(GameMod { id, title, link, image, categories, downloads, author })
}

/// A canonical list written out again as a raw value: the list of its
/// texts, each as a string.
pub open spec fn written_list(list: Seq<Seq<char>>) -> RawTree {
    RawTree::List(list.map_values(|text: Seq<char>| RawTree::Text(text)))
}

/// Whether `value` writes an optional canonical list out: nothing or null
/// for an absent list, else the list written out.
pub open spec fn writes_optional_list(
    value: Option<RawTree>,
    list: Option<Seq<Seq<char>>>,
) -> bool {
    match list {
        None => is_absent(value),
        Some(l) => value == Some(written_list(l)),
    }
}

/// Whether the entries of a record write the canonical item `item` out:
/// every field under its own key, in its canonical shape.
pub open spec fn writes_item(entries: Seq<(Seq<char>, RawTree)>, item: GameModView) -> bool {
    &&& field(entries, Field::Id.key()) == Some(RawTree::Text(item.id))
    &&& field(entries, Field::Title.key()) == Some(RawTree::Text(item.title))
    &&& field(entries, Field::Link.key()) == Some(written_list(item.link))
    &&& writes_optional_list(field(entries, Field::Image.key()), item.image)
    &&& writes_optional_list(field(entries, Field::Categories.key()), item.categories)
    &&& field(entries, Field::Downloads.key()) matches Some(RawTree::Number(Some(n))) && n
        == item.downloads
    &&& match item.author {
        None => is_absent(field(entries, Field::Author.key())),
        Some(name) => field(entries, Field::Author.key()) == Some(RawTree::Text(name)),
    }
}

/// A string and the list of that one string have the same canonical form:
/// the list of that string.
pub proof fn lemma_string_and_singleton_agree(s: Seq<char>)
    ensures
        canonical_list(RawTree::Text(s)) == Ok::<Seq<Seq<char>>, Problem>(seq![s]),
        canonical_list(RawTree::List(seq![RawTree::Text(s)])) == canonical_list(RawTree::Text(s)),
{
    assert(item_texts(seq![RawTree::Text(s)]) =~= seq![s]);
}

/// A non-empty canonical list, written out again, normalizes to itself.
pub proof fn lemma_canonical_list_is_fixed(list: Seq<Seq<char>>)
    requires
        list.len() > 0,
    ensures
        canonical_list(written_list(list)) == Ok::<Seq<Seq<char>>, Problem>(list),
{
    let items = written_list(list)->List_0;
    assert(all_text(items));
    assert(item_texts(items) =~= list);
}

/// Normalizing twice is normalizing once: whatever a string-or-list value
/// normalizes to, that list written out again normalizes to the same list.
pub proof fn lemma_normalization_is_idempotent(value: RawTree)
    requires
        canonical_list(value) is Ok,
    ensures
        canonical_list(written_list(canonical_list(value)->Ok_0)) == canonical_list(value),
{
    lemma_canonical_list_is_fixed(canonical_list(value)->Ok_0);
}

/// A list with an element that is no string has no canonical form.
pub proof fn lemma_mixed_list_is_rejected(items: Seq<RawTree>, i: int)
    requires
        0 <= i < items.len(),
        !(items[i] is Text),
    ensures
        canonical_list(RawTree::List(items)) == Err::<Seq<Seq<char>>, Problem>(
            Problem::ExpectedString,
        ),
{
}

/// A value that is neither a string nor a list has no canonical form as a
/// string-or-list field.
pub proof fn lemma_other_shape_is_rejected(value: RawTree)
    requires
        !(value is Text),
        !(value is List),
    ensures
        canonical_list(value) == Err::<Seq<Seq<char>>, Problem>(Problem::ExpectedStringOrList),
{
}

/// A record whose `link` or `categories` is written in a shape without a
/// canonical form is no catalog item.
pub proof fn lemma_bad_list_fails_the_record(entries: Seq<(Seq<char>, RawTree)>)
    ensures
        (field(entries, Field::Link.key()) matches Some(value) && canonical_list(value) is Err)
            ==> normalized_entries(entries) is Err,
        (field(entries, Field::Categories.key()) matches Some(value) && value != RawTree::Null
            && canonical_list(value) is Err) ==> normalized_entries(entries) is Err,
{
}

/// An absent optional list stays absent, and an empty list is refused, so
/// the two are never confused.
pub proof fn lemma_absent_is_not_empty()
    ensures
        canonical_optional_list(None) == Ok::<Option<Seq<Seq<char>>>, Problem>(None),
        canonical_optional_list(Some(RawTree::Null)) == Ok::<Option<Seq<Seq<char>>>, Problem>(
            None,
        ),
        canonical_optional_list(Some(RawTree::List(Seq::empty()))) == Err::<
            Option<Seq<Seq<char>>>,
            Problem,
        >(Problem::EmptyList),
{
}

/// A record without a `categories` key normalizes, where it normalizes at
/// all, to an item without categories; a record whose `categories` is an
/// empty list does not normalize.
pub proof fn lemma_missing_categories_are_absent(entries: Seq<(Seq<char>, RawTree)>)
    ensures
        field(entries, Field::Categories.key()) is None && normalized_entries(entries) is Ok
            ==> normalized_entries(entries)->Ok_0.categories is None,
        field(entries, Field::Categories.key()) == Some(RawTree::List(Seq::empty()))
            ==> normalized_entries(entries) is Err,
{
}

/// Every canonical item that normalization gives meets the constraints of a
/// canonical item.
pub proof fn lemma_normalized_is_well_formed(record: RawTree)
    requires
        normalized(record) is Ok,
    ensures
        normalized(record)->Ok_0.well_formed(),
{
}

/// A canonical item, written out as a record, normalizes to itself.
pub proof fn lemma_canonical_item_is_fixed(entries: Seq<(Seq<char>, RawTree)>, item: GameModView)
    requires
        item.well_formed(),
        writes_item(entries, item),
    ensures
        normalized(RawTree::Record(entries)) == Ok::<GameModView, SchemaError>(item),
{
    lemma_canonical_list_is_fixed(item.link);
    if item.image is Some {
        lemma_canonical_list_is_fixed(item.image->0);
    }
    if item.categories is Some {
        lemma_canonical_list_is_fixed(item.categories->0);
    }
}

} // verus!
