//! What holds of every window of a ranking.
use vstd::prelude::*;
use super::engine::{ranked, smaller, window_of};
use super::types::Hit;
use super::{query_for, window_for, MAX_WINDOW_END};
use crate::indexer::catalog_fields;

verus! {

/// The ranks that a search asks for: `limit` ranks from `offset` on, all of
/// them from `offset` on where no limit is given.
pub open spec fn asked_window(ranking: Seq<Hit>, offset: usize, limit: Option<u64>) -> Seq<Hit> {
    match limit {
        Some(limit) => window_of(ranking, offset as int, limit as int),
        None => window_of(ranking, offset as int, ranking.len() as int),
    }
}

/// A window holds no more hits than its limit, and none that the ranking
/// lacks.
pub proof fn window_is_within_limit(ranking: Seq<Hit>, offset: int, limit: int)
    requires
        0 <= offset,
        0 <= limit,
    ensures
        window_of(ranking, offset, limit).len() <= limit,
        window_of(ranking, offset, limit).len() <= ranking.len(),
        forall|i: int|
            0 <= i < window_of(ranking, offset, limit).len() ==> window_of(
                ranking,
                offset,
                limit,
            )[i] == ranking[offset + i],
{
}

/// Cutting the window to what can rank does not change the answer: for a
/// ranking of at most `count` documents, the window handed to the engine
/// holds the ranks that were asked for, and where no window is left there
/// are none.
pub proof fn cut_window_is_the_asked_window(
    ranking: Seq<Hit>,
    offset: usize,
    limit: Option<u64>,
    count: u64,
)
    requires
        ranking.len() <= count <= MAX_WINDOW_END,
    ensures
        match window_for(offset, limit, count) {
            Some(window) => window_of(ranking, window.offset as int, window.limit as int)
                == asked_window(ranking, offset, limit),
            None => asked_window(ranking, offset, limit) == Seq::<Hit>::empty(),
        },
{
    match window_for(offset, limit, count) {
        Some(window) => {
            assert(window_of(ranking, window.offset as int, window.limit as int) =~= asked_window(
                ranking,
                offset,
                limit,
            ));
        },
        None => {
            assert(asked_window(ranking, offset, limit) =~= Seq::<Hit>::empty());
        },
    }
}

/// Without an offset and a limit the window is the whole ranking.
pub proof fn no_limit_lists_everything(ranking: Seq<Hit>)
    ensures
        asked_window(ranking, 0, None) == ranking,
{
    assert(asked_window(ranking, 0, None) =~= ranking);
}

/// An offset of one with a limit of one gives the second rank and nothing
/// else.
pub proof fn second_rank_alone(ranking: Seq<Hit>)
    requires
        ranking.len() >= 2,
    ensures
        asked_window(ranking, 1, Some(1)) == seq![ranking[1]],
{
    assert(asked_window(ranking, 1, Some(1)) =~= seq![ranking[1]]);
}

/// A window that follows another continues it: the ranks from `offset` on
/// are the first `first` of them, then the rest.
pub proof fn windows_join(ranking: Seq<Hit>, offset: int, first: int, rest: int)
    requires
        0 <= offset,
        0 <= first,
        0 <= rest,
    ensures
        window_of(ranking, offset, first + rest) == window_of(ranking, offset, first) + window_of(
            ranking,
            offset + first,
            rest,
        ),
{
    assert(window_of(ranking, offset, first + rest) =~= window_of(ranking, offset, first)
        + window_of(ranking, offset + first, rest));
}

/// A window of a ranking is itself in descending order of score and names
/// no document twice.
pub proof fn window_is_ranked(ranking: Seq<Hit>, offset: int, limit: int)
    requires
        ranked(ranking),
        0 <= offset,
        0 <= limit,
    ensures
        ranked(window_of(ranking, offset, limit)),
{
    let window = window_of(ranking, offset, limit);
    assert forall|i: int, j: int| 0 <= i < j < window.len() implies {
        &&& (#[trigger] window[i]).score_bits >= (#[trigger] window[j]).score_bits
        &&& (window[i].segment_ord != window[j].segment_ord || window[i].doc_id
            != window[j].doc_id)
    } by {
        assert(window[i] == ranking[offset + i]);
        assert(window[j] == ranking[offset + j]);
    }
}

/// Listing a catalog of `count` documents gives as many hits as were asked
/// for, as far as the catalog reaches from `offset` on: `limit` of them, or
/// all that are left.
pub proof fn listing_holds_what_is_left(
    ranking: Seq<Hit>,
    offset: usize,
    limit: Option<u64>,
    count: u64,
)
    requires
        ranking.len() == count,
    ensures
        asked_window(ranking, offset, limit).len() == smaller(
            match limit {
                Some(limit) => limit as int,
                None => count as int,
            },
            if offset <= count {
                count - offset
            } else {
                0
            },
        ),
{
}

/// No query names a field that the catalog's schema lacks: a search on a
/// catalog with the catalog's own fields is never refused for a missing
/// field.
pub proof fn catalog_has_every_queried_field(
    patient_id: Option<Seq<char>>,
    patient_name: Option<Seq<char>>,
    distance: u8,
)
    ensures
        query_for(patient_id, patient_name, distance).fields_needed() <= catalog_fields().len(),
{
}

} // verus!
