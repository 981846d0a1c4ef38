//! Setting up the search index at startup.
//!
//! The setup is five requests to the search engine, sent one after the other
//! in a fixed order. The [`Bootstrapper`] decides which request comes next
//! and what a refusal means; the caller sends each request and reports how
//! the engine answered. A request counts as done once the engine has
//! accepted it, whether or not the engine has finished working on it.

use vstd::prelude::*;
use crate::catalog::{valid_catalog, Catalog};
use crate::engine::{acceptance_view, index_name, index_uid, Acceptance};
use crate::models::{texts, GameMod};

verus! {

/// Number of matches up to which the engine is asked to report exact totals.
pub const PAGINATION_CEILING: usize = 1_000_000;

/// The requests of the setup, in the order in which they are sent.
#[derive(Debug, Clone, Copy, PartialEq, Eq, Structural)]
pub enum BootstrapStep {
    CreateIndex,
    AddDocuments,
    SetRankingRules,
    SetPagination,
    SetFilterableAttributes,
}

/// The field that identifies a document in the index.
pub open spec fn primary_key() -> Seq<char> {
    "id"@
}

/// The ranking rules, strongest first: the number of matched words, then the
/// download count (larger first), and only then typos, proximity, attribute
/// order, exactness and an explicit sort.
pub open spec fn ranking_rules() -> Seq<Seq<char>> {
    seq![
        "words"@,
        "downloads:desc"@,
        "typo"@,
        "proximity"@,
        "attribute"@,
        "exactness"@,
        "sort"@,
    ]
}

/// The fields by which a query may filter.
pub open spec fn filterable_attributes() -> Seq<Seq<char>> {
    seq!["id"@, "categories"@, "author"@]
}

impl BootstrapStep {
    /// Place of the step in the setup, counted from zero.
    pub open spec fn position(self) -> nat {
        match self {
            BootstrapStep::CreateIndex => 0,
            BootstrapStep::AddDocuments => 1,
            BootstrapStep::SetRankingRules => 2,
            BootstrapStep::SetPagination => 3,
            BootstrapStep::SetFilterableAttributes => 4,
        }
    }

    /// The step that follows this one, `None` after the last.
    pub open spec fn successor(self) -> Option<BootstrapStep> {
        match self {
            BootstrapStep::CreateIndex => Some(BootstrapStep::AddDocuments),
            BootstrapStep::AddDocuments => Some(BootstrapStep::SetRankingRules),
            BootstrapStep::SetRankingRules => Some(BootstrapStep::SetPagination),
            BootstrapStep::SetPagination => Some(BootstrapStep::SetFilterableAttributes),
            BootstrapStep::SetFilterableAttributes => None,
        }
    }

    /// How the diagnostic of a refusal at this step begins.
    pub open spec fn failure_prefix(self) -> Seq<char> {
        match self {
            BootstrapStep::CreateIndex => "Failed to create index: "@,
            BootstrapStep::AddDocuments => "Failed to add documents: "@,
            BootstrapStep::SetRankingRules => "Failed to set ranking rules: "@,
            BootstrapStep::SetPagination => "Failed to set pagination: "@,
            BootstrapStep::SetFilterableAttributes => "Failed to set filterable attributes: "@,
        }
    }

    /// The step that follows this one, `None` after the last.
    pub fn next(self) -> (r: Option<BootstrapStep>)
        ensures
            r == self.successor(),
    {
        match self {
            BootstrapStep::CreateIndex => Some(BootstrapStep::AddDocuments),
            BootstrapStep::AddDocuments => Some(BootstrapStep::SetRankingRules),
            BootstrapStep::SetRankingRules => Some(BootstrapStep::SetPagination),
            BootstrapStep::SetPagination => Some(BootstrapStep::SetFilterableAttributes),
            BootstrapStep::SetFilterableAttributes => None,
        }
    }
}

/// Why the setup stopped: the step that the engine refused, and its reason.
#[derive(Debug, PartialEq, Eq)]
pub struct BootstrapError {
    pub step: BootstrapStep,
    pub detail: String,
}

impl BootstrapError {
    /// The diagnostic: which step failed, then the engine's reason.
    pub fn message(&self) -> (r: String)
        ensures
            r@ == self.step.failure_prefix() + self.detail@,
    {
        let prefix = match self.step {
            BootstrapStep::CreateIndex => "Failed to create index: ",
            BootstrapStep::AddDocuments => "Failed to add documents: ",
            BootstrapStep::SetRankingRules => "Failed to set ranking rules: ",
            BootstrapStep::SetPagination => "Failed to set pagination: ",
            BootstrapStep::SetFilterableAttributes => "Failed to set filterable attributes: ",
        };
        let mut text = prefix.to_owned();
        text.append(self.detail.as_str());
        text
    }
}

/// Where the setup stands.
#[derive(Debug, PartialEq, Eq)]
pub enum BootstrapState {
    /// The request of this step is the next to be answered.
    Pending(BootstrapStep),
    /// The engine accepted all five requests.
    Complete,
    /// The engine refused a request; nothing more is sent.
    Failed(BootstrapError),
}

/// The content of a [`BootstrapState`].
pub enum Progress {
    Pending(BootstrapStep),
    Complete,
    Failed { step: BootstrapStep, detail: Seq<char> },
}

impl View for BootstrapState {
    type V = Progress;

    open spec fn view(&self) -> Progress {
        match *self {
            BootstrapState::Pending(step) => Progress::Pending(step),
            BootstrapState::Complete => Progress::Complete,
            BootstrapState::Failed(error) => Progress::Failed {
                step: error.step,
                detail: error.detail@,
            },
        }
    }
}

impl Progress {
    /// The state in which the setup begins.
    pub open spec fn initial() -> Progress {
        Progress::Pending(BootstrapStep::CreateIndex)
    }

    /// The state after the engine answered the pending request. An accepted
    /// request moves on to the next step, or completes the setup after the
    /// last one; a refused request fails the setup at that step. A setup
    /// that is complete or has failed stays as it is.
    pub open spec fn after(self, outcome: Result<(), Seq<char>>) -> Progress {
        match self {
            Progress::Pending(step) => match outcome {
                Ok(_) => match step.successor() {
                    Some(following) => Progress::Pending(following),
                    None => Progress::Complete,
                },
                Err(detail) => Progress::Failed { step, detail },
            },
            _ => self,
        }
    }
}

/// The state of a setup after the engine has answered `outcomes`, one after
/// the other, starting before the first request.
pub open spec fn progress_after(outcomes: Seq<Result<(), Seq<char>>>) -> Progress
    decreases outcomes.len(),
{
    if outcomes.len() == 0 {
        Progress::initial()
    } else {
        progress_after(outcomes.drop_last()).after(outcomes.last())
    }
}

/// The steps run in their fixed order and the first refusal is final.
///
/// After any run of answers the setup is pending at a step exactly when that
/// many requests came before it and all were accepted; it is complete
/// exactly when the first five answers were acceptances; and it has failed
/// at a step exactly when that step's answer was the first refusal, whose
/// reason it keeps.
pub proof fn lemma_setup_follows_the_order(outcomes: Seq<Result<(), Seq<char>>>)
    ensures
        match progress_after(outcomes) {
            Progress::Pending(step) => {
                &&& outcomes.len() == step.position()
                &&& forall|i: int| 0 <= i < outcomes.len() ==> outcomes[i] is Ok
            },
            Progress::Complete => {
                &&& outcomes.len() >= 5
                &&& forall|i: int| 0 <= i < 5 ==> outcomes[i] is Ok
            },
            Progress::Failed { step, detail } => {
                &&& step.position() < outcomes.len()
                &&& outcomes[step.position() as int] == Err::<(), Seq<char>>(detail)
                &&& forall|i: int| 0 <= i < step.position() ==> outcomes[i] is Ok
            },
        },
    decreases outcomes.len(),
{
    if outcomes.len() > 0 {
        let earlier = outcomes.drop_last();
        lemma_setup_follows_the_order(earlier);
        assert(forall|i: int| 0 <= i < earlier.len() ==> earlier[i] == outcomes[i]);
    }
}

/// One request to the search engine.
#[derive(Debug)]
pub enum BootstrapRequest<'a> {
    CreateIndex { uid: String },
    AddDocuments { uid: String, documents: &'a Vec<GameMod>, primary_key: String },
    SetRankingRules { uid: String, rules: Vec<String> },
    SetPagination { uid: String, max_total_hits: usize },
    SetFilterableAttributes { uid: String, attributes: Vec<String> },
}

impl<'a> BootstrapRequest<'a> {
    /// Whether this is the request of `step` for a catalog of `items`: the
    /// step's own kind of request, on the catalog's index, with exactly the
    /// values that the setup prescribes.
    pub open spec fn is_request_of(self, step: BootstrapStep, items: Seq<GameMod>) -> bool {
        match self {
            BootstrapRequest::CreateIndex { uid } => {
                &&& step == BootstrapStep::CreateIndex
                &&& uid@ == index_uid()
            },
            BootstrapRequest::AddDocuments { uid, documents, primary_key: key } => {
                &&& step == BootstrapStep::AddDocuments
                &&& uid@ == index_uid()
                &&& documents@ == items
                &&& key@ == primary_key()
            },
            BootstrapRequest::SetRankingRules { uid, rules } => {
                &&& step == BootstrapStep::SetRankingRules
                &&& uid@ == index_uid()
                &&& texts(rules) == ranking_rules()
            },
            BootstrapRequest::SetPagination { uid, max_total_hits } => {
                &&& step == BootstrapStep::SetPagination
                &&& uid@ == index_uid()
                &&& max_total_hits == PAGINATION_CEILING
            },
            BootstrapRequest::SetFilterableAttributes { uid, attributes } => {
                &&& step == BootstrapStep::SetFilterableAttributes
                &&& uid@ == index_uid()
                &&& texts(attributes) == filterable_attributes()
            },
        }
    }
}

/// The setup of the index for one catalog.
#[derive(Debug)]
pub struct Bootstrapper {
    /// The normalized catalog, submitted as it is.
    pub catalog: Catalog,
    pub state: BootstrapState,
}

impl Bootstrapper {
    /// A setup that has sent nothing yet.
    pub fn new(catalog: Catalog) -> (r: Self)
        ensures
            r.catalog == catalog,
            r.state@ == Progress::initial(),
    {
        Bootstrapper { catalog, state: BootstrapState::Pending(BootstrapStep::CreateIndex) }
    }

    /// The request to send now: that of the pending step, and none once the
    /// setup is complete or has failed. The documents of the second request
    /// are the whole catalog, and so a valid one.
    pub fn request(&self) -> (r: Option<BootstrapRequest<'_>>)
        ensures
            match self.state@ {
                Progress::Pending(step) => r matches Some(request) && request.is_request_of(
                    step,
                    self.catalog@,
                ),
                _ => r is None,
            },
            r matches Some(BootstrapRequest::AddDocuments { documents, .. }) ==> valid_catalog(
                documents@,
            ),
    {
        match &self.state {
            BootstrapState::Pending(step) => Some(
                match step {
                    BootstrapStep::CreateIndex => BootstrapRequest::CreateIndex {
                        uid: index_name(),
                    },
                    BootstrapStep::AddDocuments => BootstrapRequest::AddDocuments {
                        uid: index_name(),
                        documents: self.catalog.items(),
                        primary_key: "id".to_owned(),
                    },
                    BootstrapStep::SetRankingRules => {
                        let rules = vec![
                            "words".to_owned(),
                            "downloads:desc".to_owned(),
                            "typo".to_owned(),
                            "proximity".to_owned(),
                            "attribute".to_owned(),
                            "exactness".to_owned(),
                            "sort".to_owned(),
                        ];
                        assert(texts(rules) =~= ranking_rules());
                        BootstrapRequest::SetRankingRules { uid: index_name(), rules }
                    },
                    BootstrapStep::SetPagination => BootstrapRequest::SetPagination {
                        uid: index_name(),
                        max_total_hits: PAGINATION_CEILING,
                    },
                    BootstrapStep::SetFilterableAttributes => {
                        let attributes = vec![
                            "id".to_owned(),
                            "categories".to_owned(),
                            "author".to_owned(),
                        ];
                        assert(texts(attributes) =~= filterable_attributes());
                        BootstrapRequest::SetFilterableAttributes {
                            uid: index_name(),
                            attributes,
                        }
                    },
                },
            ),
            _ => None,
        }
    }

    /// Takes the engine's answer to the pending request and moves on.
    pub fn record(self, outcome: Acceptance) -> (r: Self)
        ensures
            r.catalog == self.catalog,
            r.state@ == self.state@.after(acceptance_view(outcome)),
    {
        let Bootstrapper { catalog, state } = self;
        let state = match state {
            BootstrapState::Pending(step) => match outcome {
                Ok(_) => match step.next() {
                    Some(following) => BootstrapState::Pending(following),
                    None => BootstrapState::Complete,
                },
                Err(failure) => BootstrapState::Failed(
                    BootstrapError { step, detail: failure.detail },
                ),
            },
            settled => settled,
        };
        Bootstrapper { catalog, state }
    }
}

} // verus!
