use modscraper::normalize::{
    normalize_record, string_or_vec, string_or_vec_option, Field, Problem, SchemaError,
};
use modscraper::raw::lookup;
use modscraper::{GameMod, RawValue};

fn text(s: &str) -> RawValue {
    RawValue::Text(s.to_string())
}

fn list(items: Vec<RawValue>) -> RawValue {
    RawValue::List(items)
}

fn record(entries: Vec<(&str, RawValue)>) -> RawValue {
    RawValue::Record(entries.into_iter().map(|(k, v)| (k.to_string(), v)).collect())
}

fn full_record() -> Vec<(&'static str, RawValue)> {
    vec![
        ("id", text("m1")),
        ("title", text("Foo Mod")),
        ("link", text("http://x")),
        ("image", list(vec![text("a.png"), text("b.png")])),
        ("categories", text("tools")),
        ("downloads", RawValue::Number(Some(10))),
        ("author", text("ann")),
    ]
}

fn without(key: &str) -> RawValue {
    record(full_record().into_iter().filter(|(k, _)| *k != key).collect())
}

fn with(key: &str, value: RawValue) -> RawValue {
    let mut entries: Vec<(&str, RawValue)> =
        full_record().into_iter().filter(|(k, _)| *k != key).collect();
    entries.push((key, value));
    record(entries)
}

fn bad(field: Field, problem: Problem) -> Result<GameMod, SchemaError> {
    Err(SchemaError::BadField { field, problem })
}

#[test]
fn string_and_singleton_list_normalize_alike() {
    let from_string = string_or_vec(&text("a"));
    let from_list = string_or_vec(&list(vec![text("a")]));
    assert_eq!(from_string, Ok(vec!["a".to_string()]));
    assert_eq!(from_list, from_string);
}

#[test]
fn list_keeps_its_order() {
    let value = list(vec![text("b"), text("a"), text("c")]);
    assert_eq!(
        string_or_vec(&value),
        Ok(vec!["b".to_string(), "a".to_string(), "c".to_string()])
    );
}

#[test]
fn normalizing_twice_changes_nothing() {
    let once = string_or_vec(&text("a")).unwrap();
    let written = list(once.iter().map(|s| text(s)).collect());
    assert_eq!(string_or_vec(&written), Ok(once));
}

#[test]
fn mixed_list_is_rejected() {
    let value = list(vec![text("a"), RawValue::Number(Some(5))]);
    assert_eq!(string_or_vec(&value), Err(Problem::ExpectedString));
}

#[test]
fn mixed_list_is_rejected_wherever_the_stranger_stands() {
    let first = list(vec![RawValue::Null, text("a")]);
    let nested = list(vec![text("a"), list(vec![text("b")])]);
    assert_eq!(string_or_vec(&first), Err(Problem::ExpectedString));
    assert_eq!(string_or_vec(&nested), Err(Problem::ExpectedString));
}

#[test]
fn bare_number_is_rejected() {
    assert_eq!(string_or_vec(&RawValue::Number(Some(5))), Err(Problem::ExpectedStringOrList));
    assert_eq!(string_or_vec(&RawValue::Number(None)), Err(Problem::ExpectedStringOrList));
}

#[test]
fn other_shapes_are_rejected() {
    assert_eq!(string_or_vec(&RawValue::Null), Err(Problem::ExpectedStringOrList));
    assert_eq!(string_or_vec(&RawValue::Bool(true)), Err(Problem::ExpectedStringOrList));
    assert_eq!(string_or_vec(&record(vec![])), Err(Problem::ExpectedStringOrList));
}

#[test]
fn empty_list_is_rejected() {
    assert_eq!(string_or_vec(&list(vec![])), Err(Problem::EmptyList));
}

#[test]
fn absent_optional_list_stays_absent() {
    assert_eq!(string_or_vec_option(None), Ok(None));
    assert_eq!(string_or_vec_option(Some(&RawValue::Null)), Ok(None));
}

#[test]
fn empty_optional_list_is_rejected() {
    assert_eq!(string_or_vec_option(Some(&list(vec![]))), Err(Problem::EmptyList));
}

#[test]
fn present_optional_list_is_normalized() {
    assert_eq!(string_or_vec_option(Some(&text("a"))), Ok(Some(vec!["a".to_string()])));
    assert_eq!(
        string_or_vec_option(Some(&list(vec![text("a"), text("b")]))),
        Ok(Some(vec!["a".to_string(), "b".to_string()]))
    );
    assert_eq!(
        string_or_vec_option(Some(&RawValue::Number(Some(5)))),
        Err(Problem::ExpectedStringOrList)
    );
    assert_eq!(
        string_or_vec_option(Some(&list(vec![text("a"), RawValue::Number(Some(5))]))),
        Err(Problem::ExpectedString)
    );
}

#[test]
fn full_record_normalizes() {
    let item = normalize_record(&record(full_record())).unwrap();
    assert_eq!(
        item,
        GameMod {
            id: "m1".to_string(),
            title: "Foo Mod".to_string(),
            link: vec!["http://x".to_string()],
            image: Some(vec!["a.png".to_string(), "b.png".to_string()]),
            categories: Some(vec!["tools".to_string()]),
            downloads: 10,
            author: Some("ann".to_string()),
        }
    );
}

#[test]
fn record_without_categories_has_none() {
    let item = normalize_record(&without("categories")).unwrap();
    assert_eq!(item.categories, None);
    assert_eq!(item.id, "m1");
}

#[test]
fn record_with_empty_categories_fails() {
    assert_eq!(
        normalize_record(&with("categories", list(vec![]))),
        bad(Field::Categories, Problem::EmptyList)
    );
}

#[test]
fn null_optional_fields_are_absent() {
    let item = normalize_record(&with("categories", RawValue::Null)).unwrap();
    assert_eq!(item.categories, None);
    let item = normalize_record(&with("image", RawValue::Null)).unwrap();
    assert_eq!(item.image, None);
    let item = normalize_record(&with("author", RawValue::Null)).unwrap();
    assert_eq!(item.author, None);
}

#[test]
fn missing_optional_fields_are_absent() {
    let item = normalize_record(&record(vec![
        ("id", text("m2")),
        ("title", text("Foo Mod Two")),
        ("link", list(vec![text("http://y")])),
        ("downloads", RawValue::Number(Some(50))),
    ]))
    .unwrap();
    assert_eq!(
        item,
        GameMod {
            id: "m2".to_string(),
            title: "Foo Mod Two".to_string(),
            link: vec!["http://y".to_string()],
            image: None,
            categories: None,
            downloads: 50,
            author: None,
        }
    );
}

#[test]
fn missing_required_fields_are_named() {
    assert_eq!(normalize_record(&without("id")), bad(Field::Id, Problem::Missing));
    assert_eq!(normalize_record(&without("title")), bad(Field::Title, Problem::Missing));
    assert_eq!(normalize_record(&without("link")), bad(Field::Link, Problem::Missing));
    assert_eq!(normalize_record(&without("downloads")), bad(Field::Downloads, Problem::Missing));
}

#[test]
fn null_required_fields_are_rejected() {
    assert_eq!(
        normalize_record(&with("id", RawValue::Null)),
        bad(Field::Id, Problem::ExpectedString)
    );
    assert_eq!(
        normalize_record(&with("link", RawValue::Null)),
        bad(Field::Link, Problem::ExpectedStringOrList)
    );
    assert_eq!(
        normalize_record(&with("downloads", RawValue::Null)),
        bad(Field::Downloads, Problem::ExpectedInteger)
    );
}

#[test]
fn empty_id_is_rejected() {
    assert_eq!(normalize_record(&with("id", text(""))), bad(Field::Id, Problem::EmptyString));
}

#[test]
fn empty_title_is_kept() {
    let item = normalize_record(&with("title", text(""))).unwrap();
    assert_eq!(item.title, "");
}

#[test]
fn link_shapes() {
    let item = normalize_record(&with("link", list(vec![text("u"), text("v")]))).unwrap();
    assert_eq!(item.link, vec!["u".to_string(), "v".to_string()]);
    assert_eq!(
        normalize_record(&with("link", list(vec![]))),
        bad(Field::Link, Problem::EmptyList)
    );
    assert_eq!(
        normalize_record(&with("link", list(vec![text("u"), RawValue::Number(Some(5))]))),
        bad(Field::Link, Problem::ExpectedString)
    );
    assert_eq!(
        normalize_record(&with("link", RawValue::Number(Some(5)))),
        bad(Field::Link, Problem::ExpectedStringOrList)
    );
}

#[test]
fn image_must_be_written_as_a_list() {
    assert_eq!(
        normalize_record(&with("image", text("a.png"))),
        bad(Field::Image, Problem::ExpectedList)
    );
    assert_eq!(
        normalize_record(&with("image", list(vec![]))),
        bad(Field::Image, Problem::EmptyList)
    );
    assert_eq!(
        normalize_record(&with("image", list(vec![RawValue::Bool(false)]))),
        bad(Field::Image, Problem::ExpectedString)
    );
}

#[test]
fn downloads_must_be_a_32_bit_integer() {
    let item = normalize_record(&with("downloads", RawValue::Number(Some(2147483647)))).unwrap();
    assert_eq!(item.downloads, i32::MAX);
    let item = normalize_record(&with("downloads", RawValue::Number(Some(-2147483648)))).unwrap();
    assert_eq!(item.downloads, i32::MIN);
    assert_eq!(
        normalize_record(&with("downloads", RawValue::Number(Some(2147483648)))),
        bad(Field::Downloads, Problem::OutOfRange)
    );
    assert_eq!(
        normalize_record(&with("downloads", RawValue::Number(Some(-2147483649)))),
        bad(Field::Downloads, Problem::OutOfRange)
    );
    assert_eq!(
        normalize_record(&with("downloads", RawValue::Number(None))),
        bad(Field::Downloads, Problem::ExpectedInteger)
    );
    assert_eq!(
        normalize_record(&with("downloads", text("10"))),
        bad(Field::Downloads, Problem::ExpectedInteger)
    );
}

#[test]
fn author_must_be_a_string() {
    assert_eq!(
        normalize_record(&with("author", list(vec![text("ann")]))),
        bad(Field::Author, Problem::ExpectedString)
    );
}

#[test]
fn first_bad_field_in_schema_order_is_reported() {
    let value = record(vec![
        ("author", RawValue::Number(Some(1))),
        ("downloads", text("many")),
        ("link", list(vec![])),
        ("title", text("t")),
        ("id", text("m1")),
    ]);
    assert_eq!(normalize_record(&value), bad(Field::Link, Problem::EmptyList));
}

#[test]
fn unknown_keys_are_ignored() {
    let item = normalize_record(&with("rating", RawValue::Number(Some(5)))).unwrap();
    assert_eq!(item.id, "m1");
}

#[test]
fn first_entry_of_a_repeated_key_counts() {
    let mut entries = full_record();
    entries.push(("title", RawValue::Number(Some(1))));
    let item = normalize_record(&record(entries)).unwrap();
    assert_eq!(item.title, "Foo Mod");
}

#[test]
fn lookup_finds_the_first_entry_of_a_key() {
    let entries = vec![
        ("a".to_string(), RawValue::Number(Some(1))),
        ("b".to_string(), RawValue::Number(Some(2))),
        ("a".to_string(), RawValue::Number(Some(3))),
    ];
    assert_eq!(lookup(&entries, "a"), Some(&RawValue::Number(Some(1))));
    assert_eq!(lookup(&entries, "b"), Some(&RawValue::Number(Some(2))));
    assert_eq!(lookup(&entries, "c"), None);
    assert_eq!(lookup(&entries, ""), None);
    assert_eq!(lookup(&vec![], "a"), None);
}

#[test]
fn only_records_are_items() {
    assert_eq!(normalize_record(&text("m1")), Err(SchemaError::NotARecord));
    assert_eq!(normalize_record(&list(vec![])), Err(SchemaError::NotARecord));
    assert_eq!(normalize_record(&RawValue::Null), Err(SchemaError::NotARecord));
}

#[test]
fn canonical_record_is_a_fixed_point() {
    let item = normalize_record(&record(full_record())).unwrap();
    let written = record(vec![
        ("id", text(&item.id)),
        ("title", text(&item.title)),
        ("link", list(item.link.iter().map(|s| text(s)).collect())),
        ("image", list(item.image.as_ref().unwrap().iter().map(|s| text(s)).collect())),
        ("categories", list(item.categories.as_ref().unwrap().iter().map(|s| text(s)).collect())),
        ("downloads", RawValue::Number(Some(item.downloads as i64))),
        ("author", text(item.author.as_ref().unwrap())),
    ]);
    assert_eq!(normalize_record(&written), Ok(item));
}

#[test]
fn messages_name_field_and_problem() {
    let error =
        SchemaError::BadField { field: Field::Link, problem: Problem::ExpectedStringOrList };
    assert_eq!(error.message(), "link: expected a string or array of strings");
    let error =
        SchemaError::BadField { field: Field::Categories, problem: Problem::ExpectedString };
    assert_eq!(error.message(), "categories: expected a string");
    assert_eq!(SchemaError::NotARecord.message(), "expected a record");
    assert_eq!(Problem::Missing.message(), "missing");
    assert_eq!(Problem::ExpectedList.message(), "expected an array of strings");
    assert_eq!(Problem::EmptyList.message(), "expected at least one string");
    assert_eq!(Problem::EmptyString.message(), "expected a non-empty string");
    assert_eq!(Problem::ExpectedInteger.message(), "expected an integer");
    assert_eq!(Problem::OutOfRange.message(), "integer out of range");
    assert_eq!(Problem::Duplicate.message(), "used by an earlier record");
    assert_eq!(Field::Id.name(), "id");
    assert_eq!(Field::Title.name(), "title");
    assert_eq!(Field::Image.name(), "image");
    assert_eq!(Field::Downloads.name(), "downloads");
    assert_eq!(Field::Author.name(), "author");
}

#[test]
fn clone_keeps_every_field() {
    let item = normalize_record(&record(full_record())).unwrap();
    assert_eq!(item.clone(), item);
}
