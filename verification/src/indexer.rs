//! Building a catalog from candidate files.
//!
//! The caller reads the file system: it looks whether a persistent catalog is
//! there, removes, makes or opens its directory as [`storage_plan`] says, and
//! enumerates and opens the candidate files.  What is decided from that, and
//! what the engine is asked to do, stands here.
pub mod dicom;
pub mod engine;
pub mod laws;
pub mod location;
pub mod process;
pub mod types;

pub use dicom::{read_dicom_file, read_element_string_value, DicomFileField, FieldNameAndTag};
pub use location::index_run_location;
pub use process::{
    perform_indexing, run_indexing, Candidate, Disposition, RunReport, WriterAccess,
};
pub use types::{
    Catalog, DicomError, DicomInfo, IndexerError, IndexerStats, StatsView, FILE_PATH_FIELD,
    PATIENT_ID_FIELD, PERSON_NAME_FIELD,
};

use vstd::prelude::*;
use vstd::multiset::Multiset;
use engine::{
    add_stored_string_field, build_schema, create_in_ram, index_already_exists, index_documents,
    index_fields, new_schema_builder, open_searcher, schema_fields, searcher_documents,
    searcher_fields, CatalogDocument, FieldView,
};
use process::{admissible, count_documents, documents_after, run_accounts_for, stats_after};

verus! {

/// A field of the catalog: a text field whose values are indexed as they
/// are, each as one term, and stored, so that they come back verbatim.
pub open spec fn catalog_field(name: Seq<char>) -> FieldView {
    FieldView { name, tokenized: false, stored: true }
}

/// The fields of every catalog document, in schema order: the identifier,
/// the name and the path, at the ordinals [`PATIENT_ID_FIELD`],
/// [`PERSON_NAME_FIELD`] and [`FILE_PATH_FIELD`].
pub open spec fn catalog_fields() -> Seq<FieldView> {
    seq![
        catalog_field("patient_id"@),
        catalog_field("person_name"@),
        catalog_field("file_path"@),
    ]
}

/// The schema of the catalog: three stored text fields, always in the same
/// order, so that a field means the same when the catalog is built and when
/// it is queried.
pub fn catalog_schema() -> (schema: tantivy::schema::Schema)
    ensures
        schema_fields(schema) == catalog_fields(),
{
    proof {
        reveal_strlit("patient_id");
        reveal_strlit("person_name");
        reveal_strlit("file_path");
    }
    let mut builder = new_schema_builder();
    let identifier = add_stored_string_field(&mut builder, "patient_id");
    assert("person_name"@.len() != "patient_id"@.len());
    let name = add_stored_string_field(&mut builder, "person_name");
    assert("file_path"@.len() != "patient_id"@.len());
    assert("file_path"@.len() != "person_name"@.len());
    let path = add_stored_string_field(&mut builder, "file_path");
    assert(identifier == PATIENT_ID_FIELD && name == PERSON_NAME_FIELD && path == FILE_PATH_FIELD);
    let schema = build_schema(builder);
    assert(schema_fields(schema) =~= catalog_fields());
    schema
}

/// What is to be done about storage before a catalog can be handed out.
#[derive(Debug)]
pub enum StoragePlan {
    /// No persistent location was asked for: build the catalog in memory.
    Ephemeral,
    /// Open the catalog that is at `location`, without indexing anything.
    Reopen { location: String },
    /// Build a new catalog at `location`; where `remove_first` is set, the
    /// catalog that is there is deleted before.
    Build { location: String, remove_first: bool },
}

/// The plan for a persistent `location`, if one was asked for, where
/// `exists` tells whether a catalog is there already and `regenerate` asks
/// for an existing one to be rebuilt.
///
/// Without a location the catalog is built in memory.  An existing catalog is
/// reopened, unless it is to be regenerated: then it is removed and built
/// anew.  A missing one is built.
pub open spec fn planned(location: Option<String>, regenerate: bool, exists: bool) -> StoragePlan {
    match location {
        None => StoragePlan::Ephemeral,
        Some(place) => if exists && !regenerate {
            StoragePlan::Reopen { location: place }
        } else {
            StoragePlan::Build { location: place, remove_first: exists }
        },
    }
}

/// Decides how the catalog is stored.
pub fn storage_plan(location: Option<String>, regenerate: bool, exists: bool) -> (plan:
    StoragePlan)
    ensures
        plan == planned(location, regenerate, exists),
{
    match location {
        None => StoragePlan::Ephemeral,
        Some(place) => {
            if exists && !regenerate {
                StoragePlan::Reopen { location: place }
            } else {
                StoragePlan::Build { location: place, remove_first: exists }
            }
        },
    }
}

/// A persistent catalog that is to be regenerated is never reopened: it is
/// built anew, and what is stored at its location is removed first.
pub proof fn regeneration_rebuilds(place: String, exists: bool)
    ensures
        planned(Some(place), true, exists) == (StoragePlan::Build {
            location: place,
            remove_first: exists,
        }),
{
}

/// A catalog built on storage that held nothing holds the documents that the
/// engine accepted in this run, and nothing else: what it holds does not
/// depend on an earlier run.
pub proof fn fresh_build_holds_this_run_only(
    candidates: Seq<Candidate>,
    stats: StatsView,
    held: Multiset<CatalogDocument>,
)
    requires
        run_accounts_for(candidates, Multiset::empty(), stats, held),
    ensures
        exists|outcomes: Seq<Disposition>|
            {
                &&& #[trigger] admissible(candidates, outcomes)
                &&& stats == stats_after(candidates, outcomes)
                &&& held == documents_after(candidates, outcomes)
            },
{
    let outcomes = choose|outcomes: Seq<Disposition>|
        {
            &&& #[trigger] admissible(candidates, outcomes)
            &&& stats == stats_after(candidates, outcomes)
            &&& held == Multiset::<CatalogDocument>::empty().add(
                documents_after(candidates, outcomes),
            )
        };
    assert(Multiset::<CatalogDocument>::empty().add(documents_after(candidates, outcomes))
        =~= documents_after(candidates, outcomes));
}

/// The index that the caller prepared as the storage plan said.
pub enum PreparedStorage {
    /// Nothing was prepared: the catalog is built in memory.
    Ephemeral,
    /// An existing catalog was opened.
    Reopened(tantivy::Index),
    /// A new, persistent index was created.
    Created(tantivy::Index),
}

impl PreparedStorage {
    /// The documents in the prepared index before anything is indexed.
    pub open spec fn documents(self) -> Multiset<CatalogDocument> {
        match self {
            PreparedStorage::Ephemeral => Multiset::empty(),
            PreparedStorage::Reopened(index) => index_documents(index),
            PreparedStorage::Created(index) => index_documents(index),
        }
    }

    /// The fields of the index that the catalog comes to stand on.
    pub open spec fn fields(self) -> Seq<FieldView> {
        match self {
            PreparedStorage::Ephemeral => catalog_fields(),
            PreparedStorage::Reopened(index) => index_fields(index),
            PreparedStorage::Created(index) => index_fields(index),
        }
    }
}

/// Wraps a finished index into a read-only catalog.  The only failure is
/// that of producing a reader (`ProduceReader`).
pub fn open_catalog(
    index: &tantivy::Index,
    schema: tantivy::schema::Schema,
    stats: Option<IndexerStats>,
) -> (opened: Result<Catalog, IndexerError>)
    ensures
        match opened {
            Ok(catalog) => {
                &&& catalog.schema == schema
                &&& catalog.stats == stats
                &&& searcher_documents(catalog.searcher) == index_documents(*index)
                &&& searcher_fields(catalog.searcher) == index_fields(*index)
            },
            Err(error) => error is ProduceReader,
        },
{
    match open_searcher(index) {
        Ok(searcher) => Ok(Catalog { schema, searcher, stats }),
        Err(error) => Err(IndexerError::ProduceReader(error)),
    }
}

/// Makes the catalog of a run: a failed run fails the catalog with the
/// run's own failure, unchanged; after a successful run the catalog stands
/// on the run's index and carries its statistics.
pub fn catalog_of_run(
    run: Result<(tantivy::Index, IndexerStats), IndexerError>,
    schema: tantivy::schema::Schema,
) -> (built: Result<Catalog, IndexerError>)
    ensures
        match run {
            Err(failure) => built == Err::<Catalog, IndexerError>(failure),
            Ok((indexed, stats)) => match built {
                Ok(catalog) => {
                    &&& catalog.schema == schema
                    &&& catalog.stats == Some(stats)
                    &&& searcher_documents(catalog.searcher) == index_documents(indexed)
                    &&& searcher_fields(catalog.searcher) == index_fields(indexed)
                },
                Err(error) => error is ProduceReader,
            },
        },
{
    match run {
        Ok((indexed, stats)) => open_catalog(&indexed, schema, Some(stats)),
        Err(failure) => Err(failure),
    }
}

/// Makes sure that an index which was created for a build holds nothing, so
/// that the catalog built on it holds the documents of this run alone.  An
/// index that holds a document already is refused as one that was there
/// before (`CreateIndexerInDir`); the only other failure is that of
/// producing a reader to count with (`ProduceReader`).
pub fn fresh_index(index: tantivy::Index) -> (fresh: Result<tantivy::Index, IndexerError>)
    ensures
        match fresh {
            Ok(same) => same == index && index_documents(index)
                == Multiset::<CatalogDocument>::empty(),
            Err(error) => {
                ||| error is ProduceReader
                ||| error is CreateIndexerInDir && index_documents(index).len() > 0
            },
        },
{
    match count_documents(&index) {
        Err(error) => Err(error),
        Ok(count) => {
            if count == 0 {
                proof {
                    vstd::multiset::lemma_multiset_empty_len(index_documents(index));
                }
                Ok(index)
            } else {
                Err(IndexerError::CreateIndexerInDir(index_already_exists()))
            }
        },
    }
}

/// What [`index_path`] owes for the prepared storage and the candidates.
///
/// A reopened catalog comes without statistics and holds what its index
/// held; it can fail only for want of a reader.  A built catalog carries the
/// statistics of its run and holds the documents that the engine accepted in
/// that run, and nothing from before.  It fails as the run fails, for want of
/// a reader, or because the created index was not new.
pub open spec fn catalog_owed(
    storage: PreparedStorage,
    candidates: Seq<Candidate>,
    built: Result<Catalog, IndexerError>,
) -> bool {
    match built {
        Ok(catalog) => {
            &&& schema_fields(catalog.schema) == catalog_fields()
            &&& searcher_fields(catalog.searcher) == storage.fields()
            &&& storage is Reopened ==> {
                &&& catalog.stats is None
                &&& searcher_documents(catalog.searcher) == storage.documents()
            }
            &&& !(storage is Reopened) ==> {
                &&& catalog.stats is Some
                &&& catalog.stats->0.well_formed()
                &&& storage.documents() == Multiset::<CatalogDocument>::empty()
                &&& run_accounts_for(
                    candidates,
                    Multiset::empty(),
                    catalog.stats->0@,
                    searcher_documents(catalog.searcher),
                )
            }
        },
        Err(error) => {
            &&& error is InstanceWriter || error is CommitIndex || error is ProduceReader
                || error is CreateIndexerInDir
            &&& storage is Reopened ==> error is ProduceReader
            &&& error is CreateIndexerInDir ==> storage is Created && storage.documents().len()
                > 0
        },
    }
}

/// Hands out the catalog over the prepared storage.
///
/// A reopened catalog is handed out as it is, without statistics and without
/// looking at `candidates`.  Otherwise the candidates are indexed, into the
/// created index, which must be new, or into a new one in memory, and the
/// catalog carries the statistics of that run.  The run's own failures are
/// passed on unchanged (see [`catalog_of_run`]).
pub fn index_path(storage: PreparedStorage, candidates: &Vec<Candidate>) -> (built: Result<
    Catalog,
    IndexerError,
>)
    ensures
        catalog_owed(storage, candidates@, built),
{
    let schema = catalog_schema();
    let index = match storage {
        PreparedStorage::Reopened(index) => {
            return open_catalog(&index, schema, None);
        },
        PreparedStorage::Created(index) => match fresh_index(index) {
            Ok(index) => index,
            Err(error) => {
                return Err(error);
            },
        },
        PreparedStorage::Ephemeral => create_in_ram(&schema),
    };
    catalog_of_run(perform_indexing(index, candidates, &schema), schema)
}

/// Hands out the catalog over the prepared storage for the files that were
/// enumerated, if they could be.
///
/// Where a catalog is to be built and the enumeration failed, nothing is
/// indexed and the failure is handed on as `GetDirContent`.  A reopened
/// catalog needs no enumeration, and a failed one does not touch it.
/// Otherwise this is [`index_path`] on the enumerated candidates.
pub fn index_enumerated(
    storage: PreparedStorage,
    enumerated: Result<Vec<Candidate>, fs_extra::error::Error>,
) -> (built: Result<Catalog, IndexerError>)
    ensures
        match enumerated {
            Err(failure) => if storage is Reopened {
                catalog_owed(storage, Seq::empty(), built)
            } else {
                built == Err::<Catalog, IndexerError>(IndexerError::GetDirContent(failure))
            },
            Ok(candidates) => catalog_owed(storage, candidates@, built),
        },
{
    match enumerated {
        Ok(candidates) => index_path(storage, &candidates),
        Err(failure) => match storage {
            PreparedStorage::Reopened(index) => index_path(
                PreparedStorage::Reopened(index),
                &Vec::new(),
            ),
            _ => Err(IndexerError::GetDirContent(failure)),
        },
    }
}

/// Regenerating a catalog leaves nothing of the earlier one: the plan is to
/// remove what is there and build, and the catalog built on the created
/// index holds the documents that the engine accepted of the candidates at
/// hand, and no other.
pub proof fn regenerated_catalog_holds_this_run_only(
    place: String,
    exists: bool,
    created: tantivy::Index,
    candidates: Seq<Candidate>,
    built: Result<Catalog, IndexerError>,
)
    requires
        catalog_owed(PreparedStorage::Created(created), candidates, built),
        built is Ok,
    ensures
        planned(Some(place), true, exists) == (StoragePlan::Build {
            location: place,
            remove_first: exists,
        }),
        exists|outcomes: Seq<Disposition>|
            {
                &&& #[trigger] admissible(candidates, outcomes)
                &&& built->Ok_0.stats->0@ == stats_after(candidates, outcomes)
                &&& searcher_documents(built->Ok_0.searcher) == documents_after(
                    candidates,
                    outcomes,
                )
            },
{
    fresh_build_holds_this_run_only(
        candidates,
        built->Ok_0.stats->0@,
        searcher_documents(built->Ok_0.searcher),
    );
}

} // verus!
