//! Data carried through an indexing run: extracted records, run statistics,
//! the error taxonomy and the finished catalog.
use vstd::prelude::*;

verus! {

#[verifier::external_type_specification]
#[verifier::external_body]
pub struct ExTantivyError(tantivy::TantivyError);

#[verifier::external_type_specification]
#[verifier::external_body]
pub struct ExSchema(tantivy::schema::Schema);

#[verifier::external_type_specification]
#[verifier::external_body]
pub struct ExSearcher(tantivy::Searcher);

#[verifier::external_type_specification]
#[verifier::external_body]
pub struct ExDirContentError(fs_extra::error::Error);

#[verifier::external_type_specification]
#[verifier::external_body]
pub struct ExIoError(std::io::Error);

#[verifier::external_type_specification]
#[verifier::external_body]
#[verifier::reject_recursive_types(T)]
pub struct ExPoisonError<T>(std::sync::PoisonError<T>);

#[verifier::external_type_specification]
#[verifier::external_body]
pub struct ExReadError(dicom::object::ReadError);

#[verifier::external_type_specification]
#[verifier::external_body]
pub struct ExAccessError(dicom::object::AccessError);

#[verifier::external_type_specification]
#[verifier::external_body]
pub struct ExConvertValueError(dicom::core::value::ConvertValueError);

#[verifier::external_type_specification]
#[verifier::external_body]
pub struct ExUtf8Error(core::str::Utf8Error);

/// Ordinal of the identifier field in the catalog schema.
pub const PATIENT_ID_FIELD: u32 = 0;

/// Ordinal of the name field in the catalog schema.
pub const PERSON_NAME_FIELD: u32 = 1;

/// Ordinal of the path field in the catalog schema.
pub const FILE_PATH_FIELD: u32 = 2;

/// A structural failure of an indexing run.  Per-file failures never show up
/// here: they are counted in [`IndexerStats`].
#[derive(Debug)]
pub enum IndexerError {
    /// The directory tree could not be enumerated.
    GetDirContent(fs_extra::error::Error),
    /// An existing persistent catalog could not be opened.
    OpenIndexerInDir(tantivy::TantivyError),
    /// A new persistent catalog could not be created.
    CreateIndexerInDir(tantivy::TantivyError),
    /// The directory of a new persistent catalog could not be made.
    CreateIndexerMakeDir(String, std::io::Error),
    /// The directory of a catalog to regenerate could not be removed.
    CreateIndexerRemoveDir(String, std::io::Error),
    /// The engine refused to hand out its writer.
    InstanceWriter(tantivy::TantivyError),
    /// The commit that ends the run failed.
    CommitIndex(String),
    /// The engine could not produce a reader over the finished catalog.
    ProduceReader(tantivy::TantivyError),
    /// The run statistics were left unusable by a worker.
    GetStats(std::sync::PoisonError<IndexerStats>),
}

/// Why the two identifying fields could not be read from one file.
#[derive(Debug)]
pub enum DicomError {
    /// The file could not be opened or parsed.
    OpenFile(String, dicom::object::ReadError),
    /// The named element is missing from the file.
    GetElement(String, dicom::object::AccessError),
    /// The named element does not hold a primitive value.
    GetElementBytes(String, dicom::core::value::ConvertValueError),
    /// The bytes of the named element are not UTF-8 text.
    ToString(String, core::str::Utf8Error),
}

/// The two identifying fields of one file.
#[derive(Debug)]
pub struct DicomInfo {
    pub person_name: String,
    pub patient_id: String,
}

/// What an [`IndexerStats`] holds, as mathematical values.
pub struct StatsView {
    pub errors: nat,
    pub error_files: Seq<Seq<char>>,
    pub skipped: nat,
    pub skipped_files: Seq<Seq<char>>,
}

/// Counts and paths of the files that an indexing run did not index.
#[derive(Debug)]
pub struct IndexerStats {
    pub errors: u64,
    pub error_files: Vec<String>,
    pub skipped: u64,
    pub skipped_files: Vec<String>,
}

/// The view of each path in a list of paths.
pub open spec fn paths_view(paths: Seq<String>) -> Seq<Seq<char>> {
    paths.map_values(|p: String| p@)
}

impl View for IndexerStats {
    type V = StatsView;

    open spec fn view(&self) -> StatsView {
        StatsView {
            errors: self.errors as nat,
            error_files: paths_view(self.error_files@),
            skipped: self.skipped as nat,
            skipped_files: paths_view(self.skipped_files@),
        }
    }
}

impl StatsView {
    /// Statistics of a run in which nothing went wrong yet.
    pub open spec fn empty() -> StatsView {
        StatsView { errors: 0, error_files: Seq::empty(), skipped: 0, skipped_files: Seq::empty() }
    }

    /// Each count equals the length of its list.
    pub open spec fn well_formed(self) -> bool {
        self.errors == self.error_files.len() && self.skipped == self.skipped_files.len()
    }

    /// The statistics after one more file was classified as an error.
    pub open spec fn with_error(self, file: Seq<char>) -> StatsView {
        StatsView { errors: self.errors + 1, error_files: self.error_files.push(file), ..self }
    }

    /// The statistics after one more file was classified as skipped.
    pub open spec fn with_skipped(self, file: Seq<char>) -> StatsView {
        StatsView { skipped: self.skipped + 1, skipped_files: self.skipped_files.push(file), ..self }
    }
}

impl Default for IndexerStats {
    fn default() -> (stats: IndexerStats)
        ensures
            stats@ == StatsView::empty(),
    {
        let stats = IndexerStats {
            errors: 0,
            error_files: Vec::new(),
            skipped: 0,
            skipped_files: Vec::new(),
        };
        assert(stats@.error_files =~= Seq::empty());
        assert(stats@.skipped_files =~= Seq::empty());
        stats
    }
}

impl IndexerStats {
    /// Each count equals the length of its list.
    pub open spec fn well_formed(&self) -> bool {
        self@.well_formed()
    }

    /// Records `file` as one that failed extraction or insertion.
    pub fn record_error(&mut self, file: &String)
        requires
            old(self).well_formed(),
        ensures
            final(self)@ == old(self)@.with_error(file@),
            final(self).well_formed(),
    {
        self.error_files.push(file.clone());
        let listed: usize = self.error_files.len();
        assert(self.errors < listed);
        self.errors = self.errors + 1;
        assert(self@.error_files =~= old(self)@.error_files.push(file@));
    }

    /// Records `file` as one that was passed over because the writer was
    /// not available.
    pub fn record_skipped(&mut self, file: &String)
        requires
            old(self).well_formed(),
        ensures
            final(self)@ == old(self)@.with_skipped(file@),
            final(self).well_formed(),
    {
        self.skipped_files.push(file.clone());
        let listed: usize = self.skipped_files.len();
        assert(self.skipped < listed);
        self.skipped = self.skipped + 1;
        assert(self@.skipped_files =~= old(self)@.skipped_files.push(file@));
    }
}

/// A finished, read-only catalog: the schema, a searcher over the committed
/// documents, and the statistics of the run that built it, if one did.
pub struct Catalog {
    pub schema: tantivy::schema::Schema,
    pub searcher: tantivy::Searcher,
    pub stats: Option<IndexerStats>,
}

} // verus!
