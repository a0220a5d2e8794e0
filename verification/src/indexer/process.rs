//! The indexing run: every candidate file is classified, the statistics are
//! kept, accepted documents are committed one by one, and a last commit ends
//! the run.
use vstd::prelude::*;
use vstd::multiset::Multiset;
use super::engine::{
    add_document, close_writer, commit, document_count, error_message, field_ordinals,
    index_documents, index_fields, open_searcher, open_writer, schema_fields, writer_accepted,
    writer_fields, writer_published, writer_staged, CatalogDocument, CatalogWriter,
};
use super::types::{
    DicomError, DicomInfo, IndexerError, IndexerStats, StatsView, FILE_PATH_FIELD,
    PATIENT_ID_FIELD, PERSON_NAME_FIELD,
};

verus! {

/// Memory handed to the engine's writer, in bytes.
pub const WRITER_MEMORY_BUDGET: usize = 50_000_000;

/// Whether the single writer was to be had when a candidate's turn came.
///
/// A caller that leaves the writer to the run grants it to every candidate;
/// one that shares it with other work marks the candidates that lost out.
#[derive(Clone, Copy, PartialEq, Eq, Structural, Debug)]
pub enum WriterAccess {
    Granted,
    Unavailable,
}

/// One enumerated file, with what extraction made of it and whether the
/// writer was to be had when its turn came.
#[derive(Debug)]
pub struct Candidate {
    pub file: String,
    pub extraction: Result<DicomInfo, Box<DicomError>>,
    pub access: WriterAccess,
}

/// What became of one candidate.
#[derive(Clone, Copy, PartialEq, Eq, Structural, Debug)]
pub enum Disposition {
    /// Extraction failed: an error.
    ExtractionFailed,
    /// Extraction succeeded, the writer was not available: a skip.
    Skipped,
    /// The engine refused the document: an error.
    Rejected,
    /// The document was accepted and its commit succeeded.
    Indexed,
    /// The document was accepted and its commit failed: neither an error nor
    /// a skip.  The document is left to a later commit; a run that ends well
    /// has made sure that it was published.
    CommitDeferred,
}

impl Disposition {
    /// Counted in `errors`.
    pub open spec fn is_error(self) -> bool {
        self == Disposition::ExtractionFailed || self == Disposition::Rejected
    }

    /// Counted in `skipped`.
    pub open spec fn is_skip(self) -> bool {
        self == Disposition::Skipped
    }

    /// The engine accepted the candidate's document.
    pub open spec fn is_accepted(self) -> bool {
        self == Disposition::Indexed || self == Disposition::CommitDeferred
    }
}

impl Candidate {
    /// The document that the candidate stands for, once extraction succeeded.
    pub open spec fn document(&self) -> CatalogDocument
        recommends
            self.extraction is Ok,
    {
        CatalogDocument {
            patient_id: self.extraction->Ok_0.patient_id@,
            person_name: self.extraction->Ok_0.person_name@,
            file_path: self.file@,
        }
    }

    /// The candidate reaches the engine: extraction succeeded and the writer
    /// was granted.
    pub open spec fn reaches_engine(&self) -> bool {
        self.extraction is Ok && self.access == WriterAccess::Granted
    }

    /// `outcome` is one that this candidate can end in.  A failed extraction
    /// is an error whatever the writer's state; after a good extraction an
    /// unavailable writer is a skip; only then does the engine decide.
    pub open spec fn admits(&self, outcome: Disposition) -> bool {
        if self.extraction is Err {
            outcome == Disposition::ExtractionFailed
        } else if self.access == WriterAccess::Unavailable {
            outcome == Disposition::Skipped
        } else {
            outcome == Disposition::Rejected || outcome.is_accepted()
        }
    }
}

/// What a candidate ends in when the engine has answered: a refused document
/// is an error; an accepted one is indexed, or left to a later commit where
/// its own commit failed.
pub open spec fn engine_outcome(accepted: bool, committed: bool) -> Disposition {
    if !accepted {
        Disposition::Rejected
    } else if committed {
        Disposition::Indexed
    } else {
        Disposition::CommitDeferred
    }
}

/// The outcome for the engine's answers `accepted` and `committed`.
pub fn settle(accepted: bool, committed: bool) -> (outcome: Disposition)
    ensures
        outcome == engine_outcome(accepted, committed),
{
    if !accepted {
        Disposition::Rejected
    } else if committed {
        Disposition::Indexed
    } else {
        Disposition::CommitDeferred
    }
}

/// The statistics after `file` ended in `outcome`.
pub open spec fn stats_step(stats: StatsView, file: Seq<char>, outcome: Disposition) -> StatsView {
    if outcome.is_error() {
        stats.with_error(file)
    } else if outcome.is_skip() {
        stats.with_skipped(file)
    } else {
        stats
    }
}

/// Every candidate has an outcome, and one that it admits.
pub open spec fn admissible(candidates: Seq<Candidate>, outcomes: Seq<Disposition>) -> bool {
    &&& outcomes.len() == candidates.len()
    &&& forall|i: int| 0 <= i < candidates.len() ==> (#[trigger] candidates[i]).admits(outcomes[i])
}

/// The statistics of a run in which the candidates ended as `outcomes` says.
pub open spec fn stats_after(candidates: Seq<Candidate>, outcomes: Seq<Disposition>) -> StatsView
    decreases candidates.len(),
{
    if candidates.len() == 0 {
        StatsView::empty()
    } else {
        stats_step(
            stats_after(candidates.drop_last(), outcomes.drop_last()),
            candidates.last().file@,
            outcomes.last(),
        )
    }
}

/// The documents that the engine accepted in such a run.
pub open spec fn documents_after(candidates: Seq<Candidate>, outcomes: Seq<Disposition>) -> Multiset<
    CatalogDocument,
>
    decreases candidates.len(),
{
    if candidates.len() == 0 {
        Multiset::empty()
    } else {
        let before = documents_after(candidates.drop_last(), outcomes.drop_last());
        if outcomes.last().is_accepted() {
            before.insert(candidates.last().document())
        } else {
            before
        }
    }
}

/// Everything that a writer holds: what is committed and what is staged.
pub open spec fn writer_holds(writer: CatalogWriter) -> Multiset<CatalogDocument> {
    writer_published(writer).add(writer_staged(writer))
}

/// What one more candidate with the given outcome adds to the documents that
/// the engine accepted.
pub open spec fn accepted_document(candidate: Candidate, outcome: Disposition) -> Multiset<
    CatalogDocument,
> {
    if outcome.is_accepted() {
        Multiset::singleton(candidate.document())
    } else {
        Multiset::empty()
    }
}

/// Handles one candidate: classifies it, keeps the statistics, and hands its
/// document to the writer, followed at once by a commit.
///
/// A failed extraction is an error whatever the writer's state.  After a good
/// extraction an unavailable writer is a skip, and the engine is not asked.
/// Otherwise the engine decides: see [`settle`].  The three ordinals are
/// those of the catalog's fields, under which the document's texts go.
///
/// The writer has taken the candidate's document exactly where the outcome
/// says that it was accepted.  Whatever the outcome, nothing that was
/// committed is lost, and the writer comes to hold nothing but what it held
/// and the accepted document.  Where the document's commit succeeded,
/// everything that the writer held is committed.
pub fn index_candidate(
    writer: &mut CatalogWriter,
    stats: &mut IndexerStats,
    first: u32,
    second: u32,
    third: u32,
    candidate: &Candidate,
) -> (outcome: Disposition)
    requires
        old(stats).well_formed(),
        first == PATIENT_ID_FIELD,
        second == PERSON_NAME_FIELD,
        third == FILE_PATH_FIELD,
    ensures
        candidate.admits(outcome),
        final(stats)@ == stats_step(old(stats)@, candidate.file@, outcome),
        final(stats).well_formed(),
        writer_fields(*final(writer)) == writer_fields(*old(writer)),
        writer_accepted(*final(writer)) == writer_accepted(*old(writer)).add(
            accepted_document(*candidate, outcome),
        ),
        writer_published(*old(writer)).subset_of(writer_published(*final(writer))),
        writer_holds(*final(writer)).subset_of(
            writer_holds(*old(writer)).add(accepted_document(*candidate, outcome)),
        ),
        !outcome.is_accepted() ==> {
            &&& writer_published(*final(writer)) == writer_published(*old(writer))
            &&& writer_staged(*final(writer)) == writer_staged(*old(writer))
        },
        outcome == Disposition::Indexed ==> {
            &&& writer_published(*final(writer)) == writer_holds(*old(writer)).insert(
                candidate.document(),
            )
            &&& writer_staged(*final(writer)) == Multiset::<CatalogDocument>::empty()
        },
{
    let outcome = match &candidate.extraction {
        Err(_) => Disposition::ExtractionFailed,
        Ok(info) => match candidate.access {
            WriterAccess::Unavailable => Disposition::Skipped,
            WriterAccess::Granted => {
                let added = add_document(
                    writer,
                    first,
                    second,
                    third,
                    &info.patient_id,
                    &info.person_name,
                    &candidate.file,
                );
                match added {
                    Ok(_) => {
                        let ghost staged = *writer;
                        let committed = commit(writer).is_ok();
                        proof {
                            let document = candidate.document();
                            assert(writer_holds(staged) =~= writer_holds(*old(writer)).insert(
                                document,
                            ));
                            assert(writer_holds(*old(writer)).add(Multiset::singleton(document))
                                =~= writer_holds(*old(writer)).insert(document));
                            assert(writer_accepted(*old(writer)).add(
                                Multiset::singleton(document),
                            ) =~= writer_accepted(*old(writer)).insert(document));
                            if committed {
                                assert(writer_holds(*writer) =~= writer_holds(staged));
                            }
                        }
                        settle(true, committed)
                    },
                    Err(_) => settle(false, false),
                }
            },
        },
    };
    match outcome {
        Disposition::ExtractionFailed | Disposition::Rejected => stats.record_error(
            &candidate.file,
        ),
        Disposition::Skipped => stats.record_skipped(&candidate.file),
        Disposition::Indexed | Disposition::CommitDeferred => {},
    }
    proof {
        if !outcome.is_accepted() {
            assert(writer_holds(*old(writer)).add(accepted_document(*candidate, outcome))
                =~= writer_holds(*old(writer)));
            assert(writer_accepted(*old(writer)).add(accepted_document(*candidate, outcome))
                =~= writer_accepted(*old(writer)));
        }
    }
    outcome
}

/// What a successful run over `candidates`, started on an index holding
/// `before`, leaves behind: statistics `stats` and an index holding `after`.
///
/// Some admissible outcome of every candidate accounts for the statistics
/// and for the index, which holds what it held before and every document
/// that the engine accepted, whether its own commit succeeded or not.
pub open spec fn run_accounts_for(
    candidates: Seq<Candidate>,
    before: Multiset<CatalogDocument>,
    stats: StatsView,
    after: Multiset<CatalogDocument>,
) -> bool {
    exists|outcomes: Seq<Disposition>|
        {
            &&& #[trigger] admissible(candidates, outcomes)
            &&& stats == stats_after(candidates, outcomes)
            &&& after == before.add(documents_after(candidates, outcomes))
        }
}

/// The writer that a run works with, or the failure of the run where the
/// engine handed out none.
pub fn writer_for_run(opened: Result<CatalogWriter, tantivy::TantivyError>) -> (writer: Result<
    CatalogWriter,
    IndexerError,
>)
    ensures
        match opened {
            Ok(handed) => writer == Ok::<CatalogWriter, IndexerError>(handed),
            Err(error) => writer == Err::<CatalogWriter, IndexerError>(
                IndexerError::InstanceWriter(error),
            ),
        },
{
    match opened {
        Ok(handed) => Ok(handed),
        Err(error) => Err(IndexerError::InstanceWriter(error)),
    }
}

/// What the commit that ends a run makes of the run: a failed last commit
/// fails the run with `CommitIndex`, whatever became of the candidates; a
/// successful one lets it stand.
pub fn conclude_run(last_commit: Result<u64, tantivy::TantivyError>) -> (concluded: Result<
    (),
    IndexerError,
>)
    ensures
        last_commit is Ok <==> concluded is Ok,
        concluded matches Err(error) ==> error is CommitIndex,
{
    match last_commit {
        Ok(_) => Ok(()),
        Err(error) => Err(IndexerError::CommitIndex(error_message(&error))),
    }
}

/// The message of a run that ended with fewer or more documents than it
/// should have.
pub open spec fn lost_documents_message() -> Seq<char> {
    "the index does not hold every accepted document after the last commit"@
}

/// Holds the index to account after the last commit: with `before` documents
/// at the start and `accepted` documents taken by the engine, it must hold
/// `before + accepted` documents.  A run whose index holds any other number
/// has lost a document that was left to a later commit, and fails with
/// `CommitIndex`: no document is lost in silence.
pub fn confirm_run(before: u64, accepted: u64, after: u64) -> (confirmed: Result<
    (),
    IndexerError,
>)
    ensures
        confirmed is Ok <==> after == before + accepted,
        confirmed matches Err(error) ==> error matches IndexerError::CommitIndex(message)
            && message@ == lost_documents_message(),
{
    match before.checked_add(accepted) {
        Some(expected) => {
            if expected == after {
                return Ok(());
            }
        },
        None => {},
    }
    Err(
        IndexerError::CommitIndex(
            "the index does not hold every accepted document after the last commit".to_string(),
        ),
    )
}

/// Counts the documents committed to an index.  The only failure is that of
/// producing a reader (`ProduceReader`).
pub fn count_documents(index: &tantivy::Index) -> (counted: Result<u64, IndexerError>)
    ensures
        match counted {
            Ok(count) => count == index_documents(*index).len(),
            Err(error) => error is ProduceReader,
        },
{
    match open_searcher(index) {
        Ok(searcher) => Ok(document_count(&searcher)),
        Err(error) => Err(IndexerError::ProduceReader(error)),
    }
}

/// A collection within a larger one of the same size is the larger one.
pub proof fn contained_and_as_many_is_equal(
    inner: Multiset<CatalogDocument>,
    outer: Multiset<CatalogDocument>,
)
    requires
        inner.subset_of(outer),
        inner.len() == outer.len(),
    ensures
        inner == outer,
{
    let rest = outer.sub(inner);
    vstd::multiset::axiom_len_sub(outer, inner);
    vstd::multiset::lemma_multiset_empty_len(rest);
    assert forall|document: CatalogDocument| inner.count(document) == outer.count(document) by {
        assert(rest.count(document) == 0);
        assert(inner.count(document) <= outer.count(document));
    }
    assert(inner =~= outer);
}

/// What a finished run hands back: the index, the statistics and what became
/// of each candidate, in the order of the candidates.
pub struct RunReport {
    pub index: tantivy::Index,
    pub stats: IndexerStats,
    pub outcomes: Vec<Disposition>,
}

/// Runs the indexing of `candidates` into `index`, whose schema is `schema`,
/// and reports what became of each candidate.
///
/// The candidates are handled in order under the one writer of the index;
/// none of them can fail the run.  A document whose own commit failed is left
/// to the commit that ends the run.  After that commit the documents of the
/// index are counted: a run that ends well has published every document that
/// the engine accepted, and nothing else.
///
/// The run fails when the engine hands out no writer (`InstanceWriter`, see
/// [`writer_for_run`]), when the last commit fails or has not published
/// every accepted document (`CommitIndex`, see [`conclude_run`] and
/// [`confirm_run`]), or when the documents cannot be counted
/// (`ProduceReader`).  The documents go under the first three fields of the
/// schema.
pub fn run_indexing(
    index: tantivy::Index,
    candidates: &Vec<Candidate>,
    schema: &tantivy::schema::Schema,
) -> (run: Result<RunReport, IndexerError>)
    requires
        schema_fields(*schema).len() >= 3,
    ensures
        match run {
            Ok(report) => {
                &&& admissible(candidates@, report.outcomes@)
                &&& report.stats@ == stats_after(candidates@, report.outcomes@)
                &&& report.stats.well_formed()
                &&& index_documents(report.index) == index_documents(index).add(
                    documents_after(candidates@, report.outcomes@),
                )
                &&& index_fields(report.index) == index_fields(index)
            },
            Err(error) => error is InstanceWriter || error is CommitIndex
                || error is ProduceReader,
        },
{
    let held_before = match count_documents(&index) {
        Ok(count) => count,
        Err(error) => {
            return Err(error);
        },
    };
    let ghost before = index_documents(index);
    let ghost fields = index_fields(index);
    let mut writer = match writer_for_run(open_writer(index, WRITER_MEMORY_BUDGET)) {
        Ok(writer) => writer,
        Err(error) => {
            return Err(error);
        },
    };
    let mut stats = IndexerStats::default();
    let mut outcomes: Vec<Disposition> = Vec::new();
    let ordinals = field_ordinals(schema);
    let first: u32 = ordinals[0];
    let second: u32 = ordinals[1];
    let third: u32 = ordinals[2];
    let mut taken: u64 = 0;
    let mut handled: usize = 0;
    assert(before.add(Multiset::<CatalogDocument>::empty()) =~= before);
    while handled < candidates.len()
        invariant
            handled <= candidates.len(),
            first == PATIENT_ID_FIELD,
            second == PERSON_NAME_FIELD,
            third == FILE_PATH_FIELD,
            stats.well_formed(),
            writer_fields(writer) == fields,
            admissible(candidates@.take(handled as int), outcomes@),
            stats@ == stats_after(candidates@.take(handled as int), outcomes@),
            writer_accepted(writer) == documents_after(
                candidates@.take(handled as int),
                outcomes@,
            ),
            taken == writer_accepted(writer).len(),
            taken <= handled,
            before.subset_of(writer_published(writer)),
            writer_holds(writer).subset_of(before.add(writer_accepted(writer))),
        decreases candidates.len() - handled,
    {
        let ghost earlier = candidates@.take(handled as int);
        let ghost earlier_outcomes = outcomes@;
        let ghost held = writer;
        let outcome = index_candidate(
            &mut writer,
            &mut stats,
            first,
            second,
            third,
            &candidates[handled],
        );
        match outcome {
            Disposition::Indexed | Disposition::CommitDeferred => {
                taken = taken + 1;
            },
            _ => {},
        }
        outcomes.push(outcome);
        proof {
            let now = candidates@.take(handled + 1);
            let candidate = candidates@[handled as int];
            let added = accepted_document(candidate, outcome);
            assert(now.drop_last() =~= earlier);
            assert(outcomes@.drop_last() =~= earlier_outcomes);
            assert(now.last() == candidate);
            assert(outcomes@.last() == outcome);
            assert(documents_after(now, outcomes@) =~= documents_after(
                earlier,
                earlier_outcomes,
            ).add(added));
            assert(before.add(writer_accepted(held)).add(added) =~= before.add(
                writer_accepted(writer),
            ));
            assert(writer_holds(writer).subset_of(before.add(writer_accepted(writer)))) by {
                assert forall|document: CatalogDocument|
                    writer_holds(writer).count(document) <= before.add(
                        writer_accepted(writer),
                    ).count(document) by {
                    assert(writer_holds(writer).count(document) <= writer_holds(held).add(
                        added,
                    ).count(document));
                    assert(writer_holds(held).count(document) <= before.add(
                        writer_accepted(held),
                    ).count(document));
                }
            }
            assert(before.subset_of(writer_published(writer))) by {
                assert forall|document: CatalogDocument|
                    before.count(document) <= writer_published(writer).count(document) by {
                    assert(before.count(document) <= writer_published(held).count(document));
                    assert(writer_published(held).count(document) <= writer_published(
                        writer,
                    ).count(document));
                }
            }
        }
        handled = handled + 1;
    }
    assert(candidates@.take(handled as int) =~= candidates@);
    let ghost held = writer;
    match conclude_run(commit(&mut writer)) {
        Err(error) => {
            return Err(error);
        },
        Ok(_) => {},
    }
    let indexed = close_writer(writer);
    let held_after = match count_documents(&indexed) {
        Ok(count) => count,
        Err(error) => {
            return Err(error);
        },
    };
    match confirm_run(held_before, taken, held_after) {
        Err(error) => Err(error),
        Ok(_) => {
            proof {
                let accepted = documents_after(candidates@, outcomes@);
                assert(index_documents(indexed) =~= writer_holds(held));
                assert(writer_accepted(held) == accepted);
                contained_and_as_many_is_equal(index_documents(indexed), before.add(accepted));
            }
            Ok(RunReport { index: indexed, stats, outcomes })
        },
    }
}

/// Runs the indexing of `candidates` into `index`, whose schema is `schema`,
/// and hands back the index and the statistics of the run: what
/// [`run_indexing`] reports, without the outcomes.
pub fn perform_indexing(
    index: tantivy::Index,
    candidates: &Vec<Candidate>,
    schema: &tantivy::schema::Schema,
) -> (run: Result<(tantivy::Index, IndexerStats), IndexerError>)
    requires
        schema_fields(*schema).len() >= 3,
    ensures
        match run {
            Ok((indexed, stats)) => {
                &&& stats.well_formed()
                &&& run_accounts_for(
                    candidates@,
                    index_documents(index),
                    stats@,
                    index_documents(indexed),
                )
                &&& index_fields(indexed) == index_fields(index)
            },
            Err(error) => error is InstanceWriter || error is CommitIndex
                || error is ProduceReader,
        },
{
    match run_indexing(index, candidates, schema) {
        Ok(report) => {
            assert(admissible(candidates@, report.outcomes@));
            Ok((report.index, report.stats))
        },
        Err(error) => Err(error),
    }
}

} // verus!
