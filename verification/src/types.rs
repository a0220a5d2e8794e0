//! The arguments of a run and its failures.
use vstd::prelude::*;
use crate::indexer::types::IndexerError;
use crate::search::types::SearchError;

verus! {

/// Depth of the directory scan where none is given.
pub const DEFAULT_MAX_DEPTH: u64 = 20;

/// Edit distance of the fuzzy match where none is given.
pub const DEFAULT_SEARCH_SENSIBILITY: u8 = 2;

/// What a run is asked to do.
#[derive(Debug)]
pub struct Args {
    /// Path to scan for files.
    pub path: String,
    /// Value to search for in the identifier field.
    pub patient_id: Option<String>,
    /// Value to search for in the name field.
    pub person_name: Option<String>,
    /// How many directory levels below `path` are scanned.
    pub max_depth: u64,
    /// The rank of the first result to return.
    pub offset: usize,
    /// How many results to return; all of them where `None`.
    pub limit: Option<u64>,
    /// Directory that holds the persistent catalogs; the catalog is kept in
    /// memory where `None`.
    pub disk_index: Option<String>,
    /// Rebuild a persistent catalog that exists already.
    pub regenerate: bool,
    /// The largest edit distance under which a term still matches.
    pub search_sensibility: u8,
}

impl Args {
    /// The arguments of a run over `path` with every option left out: no
    /// search term, the default depth, all results from the first on, a
    /// catalog in memory, the default edit distance.
    pub fn for_path(path: String) -> (args: Args)
        ensures
            args.path == path,
            args.patient_id is None,
            args.person_name is None,
            args.max_depth == DEFAULT_MAX_DEPTH,
            args.offset == 0,
            args.limit is None,
            args.disk_index is None,
            !args.regenerate,
            args.search_sensibility == DEFAULT_SEARCH_SENSIBILITY,
    {
        Args {
            path,
            patient_id: None,
            person_name: None,
            max_depth: DEFAULT_MAX_DEPTH,
            offset: 0,
            limit: None,
            disk_index: None,
            regenerate: false,
            search_sensibility: DEFAULT_SEARCH_SENSIBILITY,
        }
    }
}

/// Why a run failed: in its indexing phase or in its search phase.
#[derive(Debug)]
pub enum CommandError {
    Indexing(IndexerError),
    Search(SearchError),
}

} // verus!
