//! The document engine, as far as a search uses it.
//!
//! Everything in this file is believed, not proved.  What the engine ranks
//! for a query is not written out here: it is spoken of through the functions
//! without a body below, each a function of the searcher, which never
//! changes, and of the query.  A search hands back a window of that ranking.
use vstd::prelude::*;
use crate::indexer::engine::{searcher_documents, searcher_fields};
use super::types::Hit;

verus! {

/// The documents in which a term of field `field` is within `distance` edits
/// of `text` (a transposition counting as one), best score first, documents
/// of equal score in the order of their addresses.
pub uninterp spec fn fuzzy_ranking(
    searcher: tantivy::Searcher,
    field: u32,
    text: Seq<char>,
    distance: u8,
) -> Seq<Hit>;

/// The documents that match at least one of two such terms, each document
/// scored by the better of its matches, in the same order.
pub uninterp spec fn best_of_ranking(
    searcher: tantivy::Searcher,
    first_field: u32,
    first_text: Seq<char>,
    first_distance: u8,
    second_field: u32,
    second_text: Seq<char>,
    second_distance: u8,
) -> Seq<Hit>;

/// All documents, in the same order.
pub uninterp spec fn all_ranking(searcher: tantivy::Searcher) -> Seq<Hit>;

/// A ranking is in order and names no document twice: the scores do not
/// rise from one rank to the next, and no two ranks hold the same address.
/// (The engine's scores are not negative, so their bit patterns are ordered
/// as the scores are.)
pub open spec fn ranked(ranking: Seq<Hit>) -> bool {
    forall|i: int, j: int|
        0 <= i < j < ranking.len() ==> {
            &&& (#[trigger] ranking[i]).score_bits >= (#[trigger] ranking[j]).score_bits
            &&& (ranking[i].segment_ord != ranking[j].segment_ord || ranking[i].doc_id
                != ranking[j].doc_id)
        }
}

/// The smaller of two numbers.
pub open spec fn smaller(one: int, other: int) -> int {
    if one <= other {
        one
    } else {
        other
    }
}

/// The ranks `offset .. offset + limit` of a ranking, as far as it reaches.
pub open spec fn window_of(ranking: Seq<Hit>, offset: int, limit: int) -> Seq<Hit> {
    ranking.subrange(
        smaller(offset, ranking.len() as int),
        smaller(offset + limit, ranking.len() as int),
    )
}

/// The windows that the engine takes: `TopDocs::with_limit` panics on a limit
/// of zero, and room is reserved for twice the ranks up to the window's end.
pub open spec fn window_accepted(limit: usize, offset: usize) -> bool {
    0 < limit && (offset + limit) * 64 <= usize::MAX
}

/// `Schema::num_fields` on `Searcher::schema`: how many fields the searcher's
/// schema has.
#[verifier::external_body]
pub(crate) fn searcher_field_count(searcher: &tantivy::Searcher) -> (count: usize)
    ensures
        count == searcher_fields(*searcher).len(),
{
    searcher.schema().num_fields()
}

/// `Searcher::search` with a `FuzzyTermQuery` and a `TopDocs` collector
/// ordered by score: the asked window of the ranking, which is in descending
/// order of score and names no document twice.  The engine panics on a field
/// that the schema lacks.
#[verifier::external_body]
pub(crate) fn search_fuzzy(
    searcher: &tantivy::Searcher,
    field: u32,
    text: &String,
    distance: u8,
    limit: usize,
    offset: usize,
) -> (found: Result<Vec<Hit>, tantivy::TantivyError>)
    requires
        field < searcher_fields(*searcher).len(),
        window_accepted(limit, offset),
    ensures
        found matches Ok(hits) ==> {
            &&& hits@ == window_of(
                fuzzy_ranking(*searcher, field, text@, distance),
                offset as int,
                limit as int,
            )
            &&& fuzzy_ranking(*searcher, field, text@, distance).len() <= searcher_documents(
                *searcher,
            ).len()
            &&& ranked(fuzzy_ranking(*searcher, field, text@, distance))
        },
{
    let term = tantivy::Term::from_field_text(tantivy::schema::Field::from_field_id(field), text);
    let query = tantivy::query::FuzzyTermQuery::new(term, distance, true);
    let collector = tantivy::collector::TopDocs::with_limit(limit).and_offset(offset);
    searcher.search(&query, &collector.order_by_score()).map(
        |ranked| ranked.into_iter().map(|(score, at)| Hit::of(score.to_bits(), at.segment_ord, at.doc_id)).collect(),
    )
}

/// `Searcher::search` with a `DisjunctionMaxQuery` over two `FuzzyTermQuery`
/// and a `TopDocs` collector ordered by score: the asked window of the
/// ranking, which is in descending order of score and names no document
/// twice.  The engine panics on a field that the schema lacks.
#[verifier::external_body]
pub(crate) fn search_best_of(
    searcher: &tantivy::Searcher,
    first_field: u32,
    first_text: &String,
    first_distance: u8,
    second_field: u32,
    second_text: &String,
    second_distance: u8,
    limit: usize,
    offset: usize,
) -> (found: Result<Vec<Hit>, tantivy::TantivyError>)
    requires
        first_field < searcher_fields(*searcher).len(),
        second_field < searcher_fields(*searcher).len(),
        window_accepted(limit, offset),
    ensures
        found matches Ok(hits) ==> {
            &&& hits@ == window_of(
                best_of_ranking(
                    *searcher,
                    first_field,
                    first_text@,
                    first_distance,
                    second_field,
                    second_text@,
                    second_distance,
                ),
                offset as int,
                limit as int,
            )
            &&& best_of_ranking(
                *searcher,
                first_field,
                first_text@,
                first_distance,
                second_field,
                second_text@,
                second_distance,
            ).len() <= searcher_documents(*searcher).len()
            &&& ranked(
                best_of_ranking(
                    *searcher,
                    first_field,
                    first_text@,
                    first_distance,
                    second_field,
                    second_text@,
                    second_distance,
                ),
            )
        },
{
    let first = tantivy::Term::from_field_text(tantivy::schema::Field::from_field_id(first_field), first_text);
    let second = tantivy::Term::from_field_text(tantivy::schema::Field::from_field_id(second_field), second_text);
    let query = tantivy::query::DisjunctionMaxQuery::new(vec![
        Box::new(tantivy::query::FuzzyTermQuery::new(first, first_distance, true)),
        Box::new(tantivy::query::FuzzyTermQuery::new(second, second_distance, true)),
    ]);
    let collector = tantivy::collector::TopDocs::with_limit(limit).and_offset(offset);
    searcher.search(&query, &collector.order_by_score()).map(
        |ranked| ranked.into_iter().map(|(score, at)| Hit::of(score.to_bits(), at.segment_ord, at.doc_id)).collect(),
    )
}

/// `Searcher::search` with an `AllQuery` and a `TopDocs` collector ordered by
/// score: the asked window of the ranking, which is in descending order of
/// score and holds every document once.
#[verifier::external_body]
pub(crate) fn search_all(searcher: &tantivy::Searcher, limit: usize, offset: usize) -> (found:
    Result<Vec<Hit>, tantivy::TantivyError>)
    requires
        window_accepted(limit, offset),
    ensures
        found matches Ok(hits) ==> {
            &&& hits@ == window_of(all_ranking(*searcher), offset as int, limit as int)
            &&& all_ranking(*searcher).len() == searcher_documents(*searcher).len()
            &&& ranked(all_ranking(*searcher))
        },
{
    let collector = tantivy::collector::TopDocs::with_limit(limit).and_offset(offset);
    searcher.search(&tantivy::query::AllQuery, &collector.order_by_score()).map(
        |ranked| ranked.into_iter().map(|(score, at)| Hit::of(score.to_bits(), at.segment_ord, at.doc_id)).collect(),
    )
}

} // verus!
