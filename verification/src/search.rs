//! Composing the query for a pair of optional search terms and running it.
pub mod engine;
pub mod laws;
pub mod types;

pub use types::{Hit, SearchError};

use vstd::prelude::*;
use crate::indexer::engine::{document_count, searcher_documents, searcher_fields};
use crate::indexer::types::{Catalog, PATIENT_ID_FIELD, PERSON_NAME_FIELD};
use engine::{
    all_ranking, best_of_ranking, fuzzy_ranking, ranked, search_all, search_best_of,
    search_fuzzy, searcher_field_count, smaller, window_accepted, window_of,
};

verus! {

/// No result at or beyond this rank is ever asked of the engine, which
/// reserves room for every rank up to the end of the window.
pub const MAX_WINDOW_END: usize = usize::MAX / 64;

/// A fuzzy match of `text` against the terms of one field, within an edit
/// distance of `distance`, a transposition counting as one edit.
#[derive(Debug)]
pub struct FuzzyTerm {
    pub field: u32,
    pub text: String,
    pub distance: u8,
}

/// The engine query that answers a search.
#[derive(Debug)]
pub enum QueryPlan {
    /// Every document matches.
    MatchAll,
    /// The documents that match one fuzzy term.
    Fuzzy(FuzzyTerm),
    /// The documents that match either term, each scored by the better of
    /// its two matches.
    BestOf(FuzzyTerm, FuzzyTerm),
}

/// A [`FuzzyTerm`] as mathematical values.
pub struct FuzzyTermView {
    pub field: u32,
    pub text: Seq<char>,
    pub distance: u8,
}

/// A [`QueryPlan`] as mathematical values.
pub enum QueryView {
    MatchAll,
    Fuzzy(FuzzyTermView),
    BestOf(FuzzyTermView, FuzzyTermView),
}

impl View for FuzzyTerm {
    type V = FuzzyTermView;

    open spec fn view(&self) -> FuzzyTermView {
        FuzzyTermView { field: self.field, text: self.text@, distance: self.distance }
    }
}

impl View for QueryPlan {
    type V = QueryView;

    open spec fn view(&self) -> QueryView {
        match self {
            QueryPlan::MatchAll => QueryView::MatchAll,
            QueryPlan::Fuzzy(term) => QueryView::Fuzzy(term@),
            QueryPlan::BestOf(first, second) => QueryView::BestOf(first@, second@),
        }
    }
}

impl QueryView {
    /// How many fields the catalog must have for the query to name only
    /// fields that exist.
    pub open spec fn fields_needed(self) -> int {
        match self {
            QueryView::MatchAll => 0,
            QueryView::Fuzzy(term) => term.field + 1,
            QueryView::BestOf(first, second) => if first.field >= second.field {
                first.field + 1
            } else {
                second.field + 1
            },
        }
    }
}

/// A search term as a fuzzy match on `field`.
pub open spec fn fuzzy(field: u32, text: Seq<char>, distance: u8) -> FuzzyTermView {
    FuzzyTermView { field, text, distance }
}

/// The query for the given terms.  Both present: the better of the two fuzzy
/// matches.  One present: the fuzzy match on its field.  None: everything.
pub open spec fn query_for(
    patient_id: Option<Seq<char>>,
    patient_name: Option<Seq<char>>,
    distance: u8,
) -> QueryView {
    match (patient_id, patient_name) {
        (Some(id), Some(name)) => QueryView::BestOf(
            fuzzy(PATIENT_ID_FIELD, id, distance),
            fuzzy(PERSON_NAME_FIELD, name, distance),
        ),
        (Some(id), None) => QueryView::Fuzzy(fuzzy(PATIENT_ID_FIELD, id, distance)),
        (None, Some(name)) => QueryView::Fuzzy(fuzzy(PERSON_NAME_FIELD, name, distance)),
        (None, None) => QueryView::MatchAll,
    }
}

/// The view of an optional text.
pub open spec fn text_view(text: Option<String>) -> Option<Seq<char>> {
    match text {
        Some(text) => Some(text@),
        None => None,
    }
}

/// Turns the optional search terms into the engine query.
/// `search_sensibility` is handed to the engine as it is.
pub fn compose_query(
    patient_id: Option<String>,
    patient_name: Option<String>,
    search_sensibility: u8,
) -> (plan: QueryPlan)
    ensures
        plan@ == query_for(text_view(patient_id), text_view(patient_name), search_sensibility),
{
    match (patient_id, patient_name) {
        (Some(id), Some(name)) => QueryPlan::BestOf(
            FuzzyTerm { field: PATIENT_ID_FIELD, text: id, distance: search_sensibility },
            FuzzyTerm { field: PERSON_NAME_FIELD, text: name, distance: search_sensibility },
        ),
        (Some(id), None) => QueryPlan::Fuzzy(
            FuzzyTerm { field: PATIENT_ID_FIELD, text: id, distance: search_sensibility },
        ),
        (None, Some(name)) => QueryPlan::Fuzzy(
            FuzzyTerm { field: PERSON_NAME_FIELD, text: name, distance: search_sensibility },
        ),
        (None, None) => QueryPlan::MatchAll,
    }
}

/// The first rank to return and how many ranks to return.
#[derive(Clone, Copy, PartialEq, Eq, Structural, Debug)]
pub struct Window {
    pub offset: usize,
    pub limit: usize,
}

/// The window of ranks that is asked of the engine, or `None` where no rank
/// is left to ask for.
///
/// The ranks asked for start at `offset` and stop `limit` ranks later, where
/// `limit` defaults to `count`, the number of documents in the catalog.  No
/// result ranks at `count` or beyond, so the window stops there at the
/// latest, and in any case at [`MAX_WINDOW_END`].
pub open spec fn window_for(offset: usize, limit: Option<u64>, count: u64) -> Option<Window> {
    let wanted: int = match limit {
        Some(limit) => limit as int,
        None => count as int,
    };
    let stop = smaller(offset + wanted, smaller(count as int, MAX_WINDOW_END as int));
    if offset < stop {
        Some(Window { offset, limit: (stop - offset) as usize })
    } else {
        None
    }
}

/// Computes the window of ranks to ask for.
pub fn result_window(offset: usize, limit: Option<u64>, count: u64) -> (window: Option<Window>)
    ensures
        window == window_for(offset, limit, count),
        window matches Some(w) ==> 0 < w.limit && w.offset + w.limit <= MAX_WINDOW_END && w.offset
            + w.limit <= count,
{
    let wanted: u64 = match limit {
        Some(limit) => limit,
        None => count,
    };
    let end: usize = if count <= MAX_WINDOW_END as u64 {
        count as usize
    } else {
        MAX_WINDOW_END
    };
    if offset >= end || wanted == 0 {
        None
    } else if wanted <= (end - offset) as u64 {
        Some(Window { offset, limit: wanted as usize })
    } else {
        Some(Window { offset, limit: end - offset })
    }
}

impl Window {
    /// The window lies within what the engine is ever asked for.
    pub open spec fn bounded(self) -> bool {
        0 < self.limit && self.offset + self.limit <= MAX_WINDOW_END
    }
}

/// What the engine ranks for `query`, when it answers.
pub open spec fn ranking_for(searcher: tantivy::Searcher, query: QueryView) -> Seq<Hit> {
    match query {
        QueryView::MatchAll => all_ranking(searcher),
        QueryView::Fuzzy(term) => fuzzy_ranking(searcher, term.field, term.text, term.distance),
        QueryView::BestOf(first, second) => best_of_ranking(
            searcher,
            first.field,
            first.text,
            first.distance,
            second.field,
            second.text,
            second.distance,
        ),
    }
}

/// What an answered query hands back: the ranks of `window` in the ranking
/// of `query`.  The ranking is in descending order of score, names no
/// document twice, and holds no more documents than the searcher sees, and
/// all of them where every document matches.
pub open spec fn answers(
    searcher: tantivy::Searcher,
    query: QueryView,
    window: Window,
    hits: Seq<Hit>,
) -> bool {
    &&& hits == window_of(ranking_for(searcher, query), window.offset as int, window.limit as int)
    &&& ranked(ranking_for(searcher, query))
    &&& ranking_for(searcher, query).len() <= searcher_documents(searcher).len()
    &&& query is MatchAll ==> ranking_for(searcher, query).len() == searcher_documents(
        searcher,
    ).len()
}

/// Turns the engine's answer into the search result: the hits as they are, or
/// the engine's failure as a search failure, never as an empty list.
pub fn search_result(found: Result<Vec<Hit>, tantivy::TantivyError>) -> (result: Result<
    Vec<Hit>,
    SearchError,
>)
    ensures
        match found {
            Ok(hits) => result == Ok::<Vec<Hit>, SearchError>(hits),
            Err(error) => result == Err::<Vec<Hit>, SearchError>(SearchError::Searcher(error)),
        },
{
    match found {
        Ok(hits) => Ok(hits),
        Err(error) => Err(SearchError::Searcher(error)),
    }
}

/// Runs `plan` on `searcher` and returns the ranks of `window`.
///
/// A plan that names a field which the searcher's schema lacks is refused
/// with `MissingField`, which carries the highest field that the plan names.
/// Any other plan goes to the engine, whose failure becomes `Searcher`.
pub fn run_query(searcher: &tantivy::Searcher, plan: &QueryPlan, window: Window) -> (result:
    Result<Vec<Hit>, SearchError>)
    requires
        window.bounded(),
    ensures
        match result {
            Ok(hits) => {
                &&& plan@.fields_needed() <= searcher_fields(*searcher).len()
                &&& answers(*searcher, plan@, window, hits@)
            },
            Err(SearchError::MissingField { field }) => {
                &&& field + 1 == plan@.fields_needed()
                &&& field >= searcher_fields(*searcher).len()
            },
            Err(SearchError::Searcher(_)) => plan@.fields_needed() <= searcher_fields(
                *searcher,
            ).len(),
        },
{
    let fields = searcher_field_count(searcher);
    assert(window_accepted(window.limit, window.offset));
    match plan {
        QueryPlan::MatchAll => search_result(search_all(searcher, window.limit, window.offset)),
        QueryPlan::Fuzzy(term) => {
            if term.field as u64 >= fields as u64 {
                return Err(SearchError::MissingField { field: term.field });
            }
            search_result(
                search_fuzzy(
                    searcher,
                    term.field,
                    &term.text,
                    term.distance,
                    window.limit,
                    window.offset,
                ),
            )
        },
        QueryPlan::BestOf(first, second) => {
            let highest: u32 = if first.field >= second.field {
                first.field
            } else {
                second.field
            };
            if highest as u64 >= fields as u64 {
                return Err(SearchError::MissingField { field: highest });
            }
            search_result(
                search_best_of(
                    searcher,
                    first.field,
                    &first.text,
                    first.distance,
                    second.field,
                    &second.text,
                    second.distance,
                    window.limit,
                    window.offset,
                ),
            )
        },
    }
}

/// What a search on `searcher` owes for `query` in `window`: nothing but the
/// empty list where the window is empty, and else what [`run_query`] owes.
pub open spec fn search_owes(
    searcher: tantivy::Searcher,
    query: QueryView,
    window: Option<Window>,
    result: Result<Vec<Hit>, SearchError>,
) -> bool {
    match window {
        None => result matches Ok(hits) && hits@ == Seq::<Hit>::empty(),
        Some(window) => match result {
            Ok(hits) => {
                &&& query.fields_needed() <= searcher_fields(searcher).len()
                &&& answers(searcher, query, window, hits@)
            },
            Err(SearchError::MissingField { field }) => {
                &&& field + 1 == query.fields_needed()
                &&& field >= searcher_fields(searcher).len()
            },
            Err(SearchError::Searcher(_)) => query.fields_needed() <= searcher_fields(
                searcher,
            ).len(),
        },
    }
}

/// Searches the catalog for the given terms.
///
/// With both terms, a document matches if either field matches, and is
/// scored by the better match; with one term, its field must match; without
/// a term, every document matches.  The result holds the ranks `offset ..
/// offset + limit`, best score first, where `limit` defaults to the number of
/// documents in the catalog.  An empty result is no failure, and a failure of
/// the engine is never turned into an empty result.
pub fn search_catalog(
    catalog: &Catalog,
    patient_id: Option<String>,
    patient_name: Option<String>,
    offset: usize,
    limit: Option<u64>,
    search_sensibility: u8,
) -> (result: Result<Vec<Hit>, SearchError>)
    ensures
        search_owes(
            catalog.searcher,
            query_for(text_view(patient_id), text_view(patient_name), search_sensibility),
            window_for(offset, limit, searcher_documents(catalog.searcher).len() as u64),
            result,
        ),
{
    let count = document_count(&catalog.searcher);
    let plan = compose_query(patient_id, patient_name, search_sensibility);
    match result_window(offset, limit, count) {
        None => Ok(Vec::new()),
        Some(window) => run_query(&catalog.searcher, &plan, window),
    }
}

} // verus!
