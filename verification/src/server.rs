//! Answering queries: the search gateway and the document gateway.
//!
//! Each gateway is two decisions around one request to the search engine:
//! what to ask the engine, and what to answer the caller once the engine has
//! replied. Sending the request is the caller's part.

use vstd::prelude::*;
use crate::engine::{index_name, index_uid, EngineFailure};
use crate::models::GameMod;

verus! {

/// Number of hits on one page of results.
pub const HITS_PER_PAGE: usize = 24;

/// The page that a search without a page number shows.
pub const FIRST_PAGE: usize = 1;

/// Status of an answer that reports a failed query.
pub const STATUS_INTERNAL_ERROR: u16 = 500;

/// Status of an answer that reports a missing item.
pub const STATUS_NOT_FOUND: u16 = 404;

/// What a caller of the search gateway supplies.
#[derive(Debug, PartialEq, Eq)]
pub struct QueryParameters {
    pub query: String,
    pub page: Option<usize>,
}

/// What the search gateway asks of the engine.
#[derive(Debug, PartialEq, Eq)]
pub struct SearchRequest {
    /// The index to search.
    pub uid: String,
    pub query: String,
    pub page: usize,
    pub hits_per_page: usize,
}

/// What the document gateway asks of the engine.
#[derive(Debug, PartialEq, Eq)]
pub struct DocumentRequest {
    /// The index to look in.
    pub uid: String,
    /// The identifier of the item.
    pub id: String,
}

/// One match as the engine reports it.
#[derive(Debug, PartialEq, Eq)]
pub struct EngineHit {
    /// The stored item.
    pub result: GameMod,
}

/// The engine's answer to a search.
#[derive(Debug, PartialEq, Eq)]
pub struct EngineResults {
    /// The matches of the requested page, best first.
    pub hits: Vec<EngineHit>,
    /// Exact number of matches, where the engine reports it.
    pub total_hits: Option<usize>,
    /// Exact number of pages, where the engine reports it.
    pub total_pages: Option<usize>,
    pub page: Option<usize>,
    pub processing_time_ms: usize,
}

/// What the search gateway answers.
#[derive(Debug, PartialEq, Eq)]
pub struct SearchResponse {
    pub hits: Vec<GameMod>,
    pub total_hits: Option<usize>,
    pub total_pages: Option<usize>,
    pub current_page: Option<usize>,
    pub search_time: usize,
}

/// The engine failed to answer a search.
#[derive(Debug, Clone, Copy, PartialEq, Eq, Structural)]
pub struct QueryError;

/// The index holds no item under the identifier asked for.
#[derive(Debug, Clone, Copy, PartialEq, Eq, Structural)]
pub struct NotFound;

/// The page to show: the one asked for, the first where none is.
pub open spec fn page_or_first(page: Option<usize>) -> usize {
    match page {
        Some(number) => number,
        None => FIRST_PAGE,
    }
}

/// The stored items of a run of hits, in the same order.
pub open spec fn hit_items(hits: Seq<EngineHit>) -> Seq<GameMod> {
    hits.map_values(|hit: EngineHit| hit.result)
}

/// The answer that shows the engine's results: the items of its hits in the
/// engine's order, its totals and page number as they are, and its
/// processing time.
pub open spec fn shown(results: EngineResults, response: SearchResponse) -> bool {
    &&& response.hits@ == hit_items(results.hits@)
    &&& response.total_hits == results.total_hits
    &&& response.total_pages == results.total_pages
    &&& response.current_page == results.page
    &&& response.search_time == results.processing_time_ms
}

impl SearchRequest {
    /// Whether this is the search to run for a caller's parameters: on the
    /// catalog's index, the query as given, pages of [`HITS_PER_PAGE`] hits,
    /// and the page asked for or else the first.
    pub open spec fn is_search_for(self, parameters: QueryParameters) -> bool {
        &&& self.uid@ == index_uid()
        &&& self.query == parameters.query
        &&& self.page == page_or_first(parameters.page)
        &&& self.hits_per_page == HITS_PER_PAGE
    }
}

/// The answer to a lookup by identifier: the stored item where the engine
/// found one, and [`NotFound`] for every failure of the engine.
pub open spec fn lookup_answer(outcome: Result<GameMod, EngineFailure>) -> Result<
    GameMod,
    NotFound,
> {
    match outcome {
        Ok(item) => Ok(item),
        Err(_) => Err(NotFound),
    }
}

/// The search to run for a caller's parameters.
pub fn search_request(parameters: QueryParameters) -> (r: SearchRequest)
    ensures
        r.is_search_for(parameters),
{
    let page = match parameters.page {
        Some(number) => number,
        None => FIRST_PAGE,
    };
    SearchRequest {
        uid: index_name(),
        query: parameters.query,
        page,
        hits_per_page: HITS_PER_PAGE,
    }
}

/// The lookup to run for an identifier: on the catalog's index, for that
/// identifier as given.
pub fn get_mod_request(id: String) -> (r: DocumentRequest)
    ensures
        r.uid@ == index_uid(),
        r.id == id,
{
    DocumentRequest { uid: index_name(), id }
}

/// A search without a page number is the search for the first page: the
/// same requests are right for both.
pub proof fn lemma_page_defaults_to_first(query: String, request: SearchRequest)
    ensures
        request.is_search_for(QueryParameters { query, page: None }) <==> request.is_search_for(
            QueryParameters { query, page: Some(FIRST_PAGE) },
        ),
{
}

/// Whatever went wrong in the engine, a lookup answers "not found": its
/// status is that of a missing item, never that of a failed query.
pub proof fn lemma_lookup_failure_is_not_found(failure: EngineFailure)
    ensures
        lookup_answer(Err(failure)) == Err::<GameMod, NotFound>(NotFound),
        STATUS_NOT_FOUND != STATUS_INTERNAL_ERROR,
{
}

/// The answer to a search, given what the engine replied: its results as
/// [`shown`], or a [`QueryError`] whenever the engine failed.
pub fn search_response(outcome: Result<EngineResults, EngineFailure>) -> (r: Result<
    SearchResponse,
    QueryError,
>)
    ensures
        match outcome {
            Ok(results) => r matches Ok(response) && shown(results, response),
            Err(_) => r == Err::<SearchResponse, QueryError>(QueryError),
        },
{
    match outcome {
        Ok(results) => {
            let EngineResults { hits, total_hits, total_pages, page, processing_time_ms } = results;
            let ghost reported = hits@;
            let mut items: Vec<GameMod> = Vec::new();
            for hit in it: hits.into_iter()
                invariant
                    it.seq() == reported,
                    items@ == hit_items(reported.take(it.index() as int)),
            {
                assert(reported.take(it.index() + 1) =~= reported.take(it.index() as int).push(
                    hit,
                ));
                items.push(hit.result);
            }
            assert(reported.take(reported.len() as int) =~= reported);
            Ok(
                SearchResponse {
                    hits: items,
                    total_hits,
                    total_pages,
                    current_page: page,
                    search_time: processing_time_ms,
                },
            )
        },
        Err(_) => Err(QueryError),
    }
}

/// The answer to a lookup by identifier, given what the engine replied.
pub fn get_mod_response(outcome: Result<GameMod, EngineFailure>) -> (r: Result<GameMod, NotFound>)
    ensures
        r == lookup_answer(outcome),
{
    match outcome {
        Ok(item) => Ok(item),
        Err(_) => Err(NotFound),
    }
}

impl QueryError {
    /// The status under which the failure is reported.
    pub fn status(&self) -> (r: u16)
        ensures
            r == STATUS_INTERNAL_ERROR,
    {
        STATUS_INTERNAL_ERROR
    }
}

impl NotFound {
    /// The status under which the failure is reported.
    pub fn status(&self) -> (r: u16)
        ensures
            r == STATUS_NOT_FOUND,
    {
        STATUS_NOT_FOUND
    }
}

} // verus!
