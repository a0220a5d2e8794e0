//! What a search hands back.
use vstd::prelude::*;

verus! {

/// Why a search gave no result list.
#[derive(Debug)]
pub enum SearchError {
    /// The engine failed to run the query.
    Searcher(tantivy::TantivyError),
    /// The query names the field with ordinal `field`, which the catalog was
    /// not built with.
    MissingField { field: u32 },
}

/// One ranked result: where the document is in the searcher it came from, and
/// its relevance score.
///
/// The score is kept as the bit pattern of the engine's 32-bit score, from
/// which the caller gets the number back unchanged.
#[derive(Clone, Copy, PartialEq, Eq, Structural, Debug)]
pub struct Hit {
    pub score_bits: u32,
    pub segment_ord: u32,
    pub doc_id: u32,
}

impl Hit {
    /// The hit with the given score bits and document address.
    pub fn of(score_bits: u32, segment_ord: u32, doc_id: u32) -> (hit: Hit)
        ensures
            hit == (Hit { score_bits, segment_ord, doc_id }),
    {
        Hit { score_bits, segment_ord, doc_id }
    }
}

} // verus!
