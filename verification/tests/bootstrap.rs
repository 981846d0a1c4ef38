use modscraper::bootstrap::{
    BootstrapError, BootstrapRequest, BootstrapState, BootstrapStep, Bootstrapper,
    PAGINATION_CEILING,
};
use modscraper::catalog::{normalize_catalog, Catalog};
use modscraper::engine::EngineFailure;
use modscraper::{GameMod, RawValue};

fn item(id: &str, downloads: i32) -> GameMod {
    GameMod {
        id: id.to_string(),
        title: format!("Mod {}", id),
        link: vec![format!("http://{}", id)],
        image: None,
        categories: None,
        downloads,
        author: None,
    }
}

fn catalog(entries: &[(&str, i64)]) -> Catalog {
    let records = entries
        .iter()
        .map(|(id, downloads)| {
            RawValue::Record(vec![
                ("id".to_string(), RawValue::Text(id.to_string())),
                ("title".to_string(), RawValue::Text(format!("Mod {}", id))),
                ("link".to_string(), RawValue::Text(format!("http://{}", id))),
                ("downloads".to_string(), RawValue::Number(Some(*downloads))),
            ])
        })
        .collect();
    normalize_catalog(&records).unwrap()
}

fn refused(detail: &str) -> Result<(), EngineFailure> {
    Err(EngineFailure { detail: detail.to_string() })
}

fn after_accepted(n: usize) -> Bootstrapper {
    let mut setup = Bootstrapper::new(catalog(&[("m1", 10), ("m2", 50)]));
    for _ in 0..n {
        setup = setup.record(Ok(()));
    }
    setup
}

#[test]
fn setup_begins_with_index_creation() {
    let setup = after_accepted(0);
    assert_eq!(setup.state, BootstrapState::Pending(BootstrapStep::CreateIndex));
    match setup.request() {
        Some(BootstrapRequest::CreateIndex { uid }) => assert_eq!(uid, "mods"),
        other => panic!("unexpected request: {:?}", other),
    }
}

#[test]
fn second_request_submits_every_item_keyed_by_id() {
    let setup = after_accepted(1);
    assert_eq!(setup.state, BootstrapState::Pending(BootstrapStep::AddDocuments));
    match setup.request() {
        Some(BootstrapRequest::AddDocuments { uid, documents, primary_key }) => {
            assert_eq!(uid, "mods");
            assert_eq!(primary_key, "id");
            assert_eq!(documents, &vec![item("m1", 10), item("m2", 50)]);
        }
        other => panic!("unexpected request: {:?}", other),
    }
}

#[test]
fn third_request_sets_the_ranking_rules_in_order() {
    let setup = after_accepted(2);
    assert_eq!(setup.state, BootstrapState::Pending(BootstrapStep::SetRankingRules));
    match setup.request() {
        Some(BootstrapRequest::SetRankingRules { uid, rules }) => {
            assert_eq!(uid, "mods");
            assert_eq!(
                rules,
                vec![
                    "words",
                    "downloads:desc",
                    "typo",
                    "proximity",
                    "attribute",
                    "exactness",
                    "sort",
                ]
            );
        }
        other => panic!("unexpected request: {:?}", other),
    }
}

#[test]
fn downloads_rank_right_after_matched_words() {
    let setup = after_accepted(2);
    match setup.request() {
        Some(BootstrapRequest::SetRankingRules { rules, .. }) => {
            let downloads = rules.iter().position(|r| r == "downloads:desc").unwrap();
            let words = rules.iter().position(|r| r == "words").unwrap();
            let typo = rules.iter().position(|r| r == "typo").unwrap();
            assert_eq!(words, 0);
            assert_eq!(downloads, 1);
            assert!(downloads < typo);
        }
        other => panic!("unexpected request: {:?}", other),
    }
}

#[test]
fn fourth_request_raises_the_pagination_ceiling() {
    let setup = after_accepted(3);
    assert_eq!(setup.state, BootstrapState::Pending(BootstrapStep::SetPagination));
    assert_eq!(PAGINATION_CEILING, 1_000_000);
    match setup.request() {
        Some(BootstrapRequest::SetPagination { uid, max_total_hits }) => {
            assert_eq!(uid, "mods");
            assert_eq!(max_total_hits, 1_000_000);
        }
        other => panic!("unexpected request: {:?}", other),
    }
}

#[test]
fn fifth_request_sets_the_filterable_attributes() {
    let setup = after_accepted(4);
    assert_eq!(setup.state, BootstrapState::Pending(BootstrapStep::SetFilterableAttributes));
    match setup.request() {
        Some(BootstrapRequest::SetFilterableAttributes { uid, attributes }) => {
            assert_eq!(uid, "mods");
            assert_eq!(attributes, vec!["id", "categories", "author"]);
        }
        other => panic!("unexpected request: {:?}", other),
    }
}

#[test]
fn setup_is_complete_after_five_acceptances() {
    let setup = after_accepted(5);
    assert_eq!(setup.state, BootstrapState::Complete);
    assert!(setup.request().is_none());
    assert_eq!(setup.catalog.items(), &vec![item("m1", 10), item("m2", 50)]);
}

#[test]
fn complete_setup_stays_complete() {
    let setup = after_accepted(5).record(refused("late")).record(Ok(()));
    assert_eq!(setup.state, BootstrapState::Complete);
}

#[test]
fn refusal_fails_the_setup_at_its_step() {
    let steps = [
        BootstrapStep::CreateIndex,
        BootstrapStep::AddDocuments,
        BootstrapStep::SetRankingRules,
        BootstrapStep::SetPagination,
        BootstrapStep::SetFilterableAttributes,
    ];
    for (n, step) in steps.iter().enumerate() {
        let setup = after_accepted(n).record(refused("no"));
        assert_eq!(
            setup.state,
            BootstrapState::Failed(BootstrapError { step: *step, detail: "no".to_string() })
        );
        assert!(setup.request().is_none());
    }
}

#[test]
fn existing_index_fails_the_setup() {
    let setup = after_accepted(0).record(refused("index_already_exists"));
    match setup.state {
        BootstrapState::Failed(error) => {
            assert_eq!(error.step, BootstrapStep::CreateIndex);
            assert_eq!(error.message(), "Failed to create index: index_already_exists");
        }
        other => panic!("unexpected state: {:?}", other),
    }
}

#[test]
fn failed_setup_stays_failed() {
    let setup = after_accepted(2).record(refused("first")).record(Ok(())).record(refused("second"));
    assert_eq!(
        setup.state,
        BootstrapState::Failed(BootstrapError {
            step: BootstrapStep::SetRankingRules,
            detail: "first".to_string(),
        })
    );
}

#[test]
fn failure_messages_name_the_step() {
    let message =
        |step: BootstrapStep| BootstrapError { step, detail: "boom".to_string() }.message();
    assert_eq!(message(BootstrapStep::CreateIndex), "Failed to create index: boom");
    assert_eq!(message(BootstrapStep::AddDocuments), "Failed to add documents: boom");
    assert_eq!(message(BootstrapStep::SetRankingRules), "Failed to set ranking rules: boom");
    assert_eq!(message(BootstrapStep::SetPagination), "Failed to set pagination: boom");
    assert_eq!(
        message(BootstrapStep::SetFilterableAttributes),
        "Failed to set filterable attributes: boom"
    );
}

#[test]
fn steps_follow_each_other() {
    assert_eq!(BootstrapStep::CreateIndex.next(), Some(BootstrapStep::AddDocuments));
    assert_eq!(BootstrapStep::AddDocuments.next(), Some(BootstrapStep::SetRankingRules));
    assert_eq!(BootstrapStep::SetRankingRules.next(), Some(BootstrapStep::SetPagination));
    assert_eq!(BootstrapStep::SetPagination.next(), Some(BootstrapStep::SetFilterableAttributes));
    assert_eq!(BootstrapStep::SetFilterableAttributes.next(), None);
}

#[test]
fn empty_catalog_is_set_up_like_any_other() {
    let setup = Bootstrapper::new(catalog(&[])).record(Ok(()));
    match setup.request() {
        Some(BootstrapRequest::AddDocuments { documents, .. }) => assert!(documents.is_empty()),
        other => panic!("unexpected request: {:?}", other),
    }
}
