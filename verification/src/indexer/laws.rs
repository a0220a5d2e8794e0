//! What holds of every indexing run, proved from the definitions of the
//! statistics and of the accepted documents.
use vstd::prelude::*;
use vstd::multiset::Multiset;
use super::engine::CatalogDocument;
use super::process::{
    admissible, documents_after, run_accounts_for, stats_after, Candidate, Disposition,
    WriterAccess,
};
use super::types::StatsView;

verus! {

/// How often `path` stands in `paths`.
pub open spec fn occurrences(paths: Seq<Seq<char>>, path: Seq<char>) -> nat
    decreases paths.len(),
{
    if paths.len() == 0 {
        0
    } else if paths.last() == path {
        occurrences(paths.drop_last(), path) + 1
    } else {
        occurrences(paths.drop_last(), path)
    }
}

/// No two candidates name the same file: the candidates are an enumerated set.
pub open spec fn distinct_files(candidates: Seq<Candidate>) -> bool {
    forall|i: int, j: int|
        0 <= i < j < candidates.len() ==> (#[trigger] candidates[i]).file@ != (
        #[trigger] candidates[j]).file@
}

proof fn lemma_prefix_admissible(candidates: Seq<Candidate>, outcomes: Seq<Disposition>)
    requires
        admissible(candidates, outcomes),
        candidates.len() > 0,
    ensures
        admissible(candidates.drop_last(), outcomes.drop_last()),
        candidates.last().admits(outcomes.last()),
{
    assert forall|i: int| 0 <= i < candidates.drop_last().len() implies (
    #[trigger] candidates.drop_last()[i]).admits(outcomes.drop_last()[i]) by {
        assert(candidates[i].admits(outcomes[i]));
    }
    assert(candidates[candidates.len() - 1].admits(outcomes[candidates.len() - 1]));
}

/// The counts of a run are the lengths of its lists.
pub proof fn stats_after_well_formed(candidates: Seq<Candidate>, outcomes: Seq<Disposition>)
    ensures
        stats_after(candidates, outcomes).well_formed(),
    decreases candidates.len(),
{
    if candidates.len() > 0 {
        stats_after_well_formed(candidates.drop_last(), outcomes.drop_last());
    }
}

/// A run in which every file is extracted, the writer is always granted and
/// the engine accepts every document counts no error and no skip, and accepts
/// as many documents as there are files.
pub proof fn clean_run_indexes_every_file(candidates: Seq<Candidate>, outcomes: Seq<Disposition>)
    requires
        admissible(candidates, outcomes),
        forall|i: int|
            0 <= i < candidates.len() ==> (#[trigger] candidates[i]).reaches_engine()
                && outcomes[i].is_accepted(),
    ensures
        stats_after(candidates, outcomes).errors + stats_after(candidates, outcomes).skipped == 0,
        stats_after(candidates, outcomes).error_files.len() == 0,
        stats_after(candidates, outcomes).skipped_files.len() == 0,
        documents_after(candidates, outcomes).len() == candidates.len(),
    decreases candidates.len(),
{
    if candidates.len() > 0 {
        lemma_prefix_admissible(candidates, outcomes);
        let earlier = candidates.drop_last();
        assert forall|i: int| 0 <= i < earlier.len() implies (#[trigger] earlier[i]).reaches_engine()
            && outcomes.drop_last()[i].is_accepted() by {
            assert(candidates[i].reaches_engine());
        }
        clean_run_indexes_every_file(earlier, outcomes.drop_last());
        assert(candidates[candidates.len() - 1].reaches_engine());
    }
}

proof fn lemma_unlisted_file(candidates: Seq<Candidate>, outcomes: Seq<Disposition>, path: Seq<char>)
    requires
        outcomes.len() == candidates.len(),
        forall|i: int| 0 <= i < candidates.len() ==> (#[trigger] candidates[i]).file@ != path,
    ensures
        occurrences(stats_after(candidates, outcomes).error_files, path) == 0,
        occurrences(stats_after(candidates, outcomes).skipped_files, path) == 0,
        forall|document: CatalogDocument|
            document.file_path == path ==> documents_after(candidates, outcomes).count(document)
                == 0,
    decreases candidates.len(),
{
    if candidates.len() > 0 {
        let earlier = candidates.drop_last();
        assert forall|i: int| 0 <= i < earlier.len() implies (#[trigger] earlier[i]).file@
            != path by {
            assert(candidates[i].file@ != path);
        }
        lemma_unlisted_file(earlier, outcomes.drop_last(), path);
        assert(candidates[candidates.len() - 1].file@ != path);
        let before = stats_after(earlier, outcomes.drop_last());
        assert(before.error_files.push(candidates.last().file@).drop_last()
            =~= before.error_files);
        assert(before.skipped_files.push(candidates.last().file@).drop_last()
            =~= before.skipped_files);
        assert forall|document: CatalogDocument| document.file_path == path implies documents_after(
            candidates,
            outcomes,
        ).count(document) == 0 by {
            assert(documents_after(earlier, outcomes.drop_last()).count(document) == 0);
            assert(candidates.last().document() != document);
        }
    }
}

/// Among distinct files, the file of candidate `at` stands once in the list
/// that its outcome belongs to and in no other, and the accepted documents
/// hold one document for it if it was accepted, and none if it was not.
pub proof fn each_file_is_accounted_once(
    candidates: Seq<Candidate>,
    outcomes: Seq<Disposition>,
    at: int,
)
    requires
        outcomes.len() == candidates.len(),
        distinct_files(candidates),
        0 <= at < candidates.len(),
    ensures
        occurrences(stats_after(candidates, outcomes).error_files, candidates[at].file@) == (
        if outcomes[at].is_error() {
            1nat
        } else {
            0nat
        }),
        occurrences(stats_after(candidates, outcomes).skipped_files, candidates[at].file@) == (
        if outcomes[at].is_skip() {
            1nat
        } else {
            0nat
        }),
        forall|document: CatalogDocument|
            document.file_path == candidates[at].file@ ==> documents_after(
                candidates,
                outcomes,
            ).count(document) == (if outcomes[at].is_accepted() && document
                == candidates[at].document() {
                1nat
            } else {
                0nat
            }),
    decreases candidates.len(),
{
    let path = candidates[at].file@;
    let earlier = candidates.drop_last();
    let earlier_outcomes = outcomes.drop_last();
    let last = candidates.len() - 1;
    let before = stats_after(earlier, earlier_outcomes);
    assert(before.error_files.push(candidates.last().file@).drop_last() =~= before.error_files);
    assert(before.skipped_files.push(candidates.last().file@).drop_last()
        =~= before.skipped_files);
    if at == last {
        assert forall|i: int| 0 <= i < earlier.len() implies (#[trigger] earlier[i]).file@
            != path by {
            assert(candidates[i].file@ != candidates[last].file@);
        }
        lemma_unlisted_file(earlier, earlier_outcomes, path);
    } else {
        assert forall|i: int, j: int| 0 <= i < j < earlier.len() implies (
        #[trigger] earlier[i]).file@ != (#[trigger] earlier[j]).file@ by {
            assert(candidates[i].file@ != candidates[j].file@);
        }
        each_file_is_accounted_once(earlier, earlier_outcomes, at);
        assert(candidates[at].file@ != candidates[last].file@);
        assert(earlier[at] == candidates[at]);
        assert(earlier_outcomes[at] == outcomes[at]);
    }
    assert forall|document: CatalogDocument| document.file_path == path implies documents_after(
        candidates,
        outcomes,
    ).count(document) == (if outcomes[at].is_accepted() && document == candidates[at].document() {
        1nat
    } else {
        0nat
    }) by {
        let held = documents_after(earlier, earlier_outcomes).count(document);
        if at == last {
            assert(held == 0);
        } else {
            assert(candidates.last().document() != document);
        }
    }
}

/// A file whose extraction failed stands exactly once among the error files
/// and never among the skipped files.
pub proof fn failed_extraction_is_one_error(
    candidates: Seq<Candidate>,
    outcomes: Seq<Disposition>,
    at: int,
)
    requires
        admissible(candidates, outcomes),
        distinct_files(candidates),
        0 <= at < candidates.len(),
        candidates[at].extraction is Err,
    ensures
        occurrences(stats_after(candidates, outcomes).error_files, candidates[at].file@) == 1,
        occurrences(stats_after(candidates, outcomes).skipped_files, candidates[at].file@) == 0,
{
    assert(candidates[at].admits(outcomes[at]));
    each_file_is_accounted_once(candidates, outcomes, at);
}

/// A file that was extracted while the writer was unavailable stands exactly
/// once among the skipped files, never among the error files, and no accepted
/// document names it.
pub proof fn unavailable_writer_is_one_skip(
    candidates: Seq<Candidate>,
    outcomes: Seq<Disposition>,
    at: int,
)
    requires
        admissible(candidates, outcomes),
        distinct_files(candidates),
        0 <= at < candidates.len(),
        candidates[at].extraction is Ok,
        candidates[at].access == WriterAccess::Unavailable,
    ensures
        occurrences(stats_after(candidates, outcomes).skipped_files, candidates[at].file@) == 1,
        occurrences(stats_after(candidates, outcomes).error_files, candidates[at].file@) == 0,
        forall|document: CatalogDocument|
            document.file_path == candidates[at].file@ ==> documents_after(
                candidates,
                outcomes,
            ).count(document) == 0,
{
    assert(candidates[at].admits(outcomes[at]));
    each_file_is_accounted_once(candidates, outcomes, at);
}

/// The documents of the candidates that reach the engine.
pub open spec fn eligible_documents(candidates: Seq<Candidate>) -> Multiset<CatalogDocument>
    decreases candidates.len(),
{
    if candidates.len() == 0 {
        Multiset::empty()
    } else {
        eligible_documents(candidates.drop_last()).add(contribution(candidates.last()))
    }
}

/// What one candidate adds to the documents: its own, if it reaches the
/// engine.
pub open spec fn contribution(candidate: Candidate) -> Multiset<CatalogDocument> {
    if candidate.reaches_engine() {
        Multiset::singleton(candidate.document())
    } else {
        Multiset::empty()
    }
}

/// Where the engine refuses nothing, it accepts the documents of exactly the
/// candidates that reach it.
pub proof fn accepted_are_the_eligible(candidates: Seq<Candidate>, outcomes: Seq<Disposition>)
    requires
        admissible(candidates, outcomes),
        forall|i: int| 0 <= i < candidates.len() ==> outcomes[i] != Disposition::Rejected,
    ensures
        documents_after(candidates, outcomes) == eligible_documents(candidates),
    decreases candidates.len(),
{
    if candidates.len() > 0 {
        lemma_prefix_admissible(candidates, outcomes);
        let last = candidates.len() - 1;
        assert forall|i: int| 0 <= i < last implies outcomes.drop_last()[i]
            != Disposition::Rejected by {
            assert(outcomes[i] != Disposition::Rejected);
        }
        accepted_are_the_eligible(candidates.drop_last(), outcomes.drop_last());
        assert(outcomes[last] != Disposition::Rejected);
        assert(documents_after(candidates, outcomes) =~= eligible_documents(candidates));
    }
}

proof fn lemma_eligible_without(candidates: Seq<Candidate>, at: int)
    requires
        0 <= at < candidates.len(),
    ensures
        eligible_documents(candidates) == eligible_documents(candidates.remove(at)).add(
            contribution(candidates[at]),
        ),
    decreases candidates.len(),
{
    let last = candidates.len() - 1;
    if at == last {
        assert(candidates.remove(at) =~= candidates.drop_last());
    } else {
        let earlier = candidates.drop_last();
        lemma_eligible_without(earlier, at);
        assert(candidates.remove(at).drop_last() =~= earlier.remove(at));
        assert(candidates.remove(at).last() == candidates.last());
        assert(earlier[at] == candidates[at]);
        assert(eligible_documents(candidates) =~= eligible_documents(candidates.remove(at)).add(
            contribution(candidates[at]),
        ));
    }
}

/// The eligible documents do not depend on the order of the candidates.
pub proof fn eligible_documents_ignore_order(one: Seq<Candidate>, other: Seq<Candidate>)
    requires
        one.to_multiset() == other.to_multiset(),
    ensures
        eligible_documents(one) == eligible_documents(other),
    decreases one.len(),
{
    one.to_multiset_ensures();
    other.to_multiset_ensures();
    assert(one.len() == other.len());
    if one.len() > 0 {
        let last = one.len() - 1;
        let moved = one.last();
        assert(one.contains(moved)) by {
            assert(one[last] == moved);
        }
        assert(other.to_multiset().count(moved) > 0);
        assert(other.contains(moved));
        let at = choose|at: int| 0 <= at < other.len() && other[at] == moved;
        assert(one.remove(last) =~= one.drop_last());
        assert(one.drop_last().to_multiset() =~= other.remove(at).to_multiset());
        eligible_documents_ignore_order(one.drop_last(), other.remove(at));
        lemma_eligible_without(other, at);
    }
}

/// Two runs over the same files, taken in any order, accept the same
/// documents where the engine refuses none: what the catalog holds does not
/// depend on which file was handled first.
pub proof fn runs_agree_in_any_order(
    one: Seq<Candidate>,
    one_run: Seq<Disposition>,
    other: Seq<Candidate>,
    other_run: Seq<Disposition>,
)
    requires
        one.to_multiset() == other.to_multiset(),
        admissible(one, one_run),
        admissible(other, other_run),
        forall|i: int| 0 <= i < one.len() ==> one_run[i] != Disposition::Rejected,
        forall|i: int| 0 <= i < other.len() ==> other_run[i] != Disposition::Rejected,
    ensures
        documents_after(one, one_run) == documents_after(other, other_run),
{
    accepted_are_the_eligible(one, one_run);
    accepted_are_the_eligible(other, other_run);
    eligible_documents_ignore_order(one, other);
}

/// A run from empty storage in which every file is extracted, the writer is
/// always granted and the engine accepts every document leaves an index that
/// holds one document for each file and nothing else, whatever became of the
/// single commits.
pub proof fn clean_run_fills_the_index(candidates: Seq<Candidate>, outcomes: Seq<Disposition>)
    requires
        admissible(candidates, outcomes),
        forall|i: int| 0 <= i < candidates.len() ==> (#[trigger] candidates[i]).reaches_engine(),
        forall|i: int| 0 <= i < candidates.len() ==> (#[trigger] outcomes[i]).is_accepted(),
    ensures
        documents_after(candidates, outcomes) == eligible_documents(candidates),
        documents_after(candidates, outcomes).len() == candidates.len(),
        stats_after(candidates, outcomes) == StatsView::empty(),
{
    assert forall|i: int| 0 <= i < candidates.len() implies (#[trigger] candidates[i]).reaches_engine()
        && outcomes[i].is_accepted() by {
        assert(outcomes[i].is_accepted());
    }
    clean_run_indexes_every_file(candidates, outcomes);
    assert forall|i: int| 0 <= i < candidates.len() implies outcomes[i]
        != Disposition::Rejected by {
        assert(outcomes[i].is_accepted());
    }
    accepted_are_the_eligible(candidates, outcomes);
    stats_after_well_formed(candidates, outcomes);
    let stats = stats_after(candidates, outcomes);
    assert(stats.error_files =~= Seq::<Seq<char>>::empty());
    assert(stats.skipped_files =~= Seq::<Seq<char>>::empty());
}

/// Every file ends in exactly one place: the accepted documents, the errors
/// and the skips of a run together are as many as its files.
pub proof fn every_file_ends_somewhere(candidates: Seq<Candidate>, outcomes: Seq<Disposition>)
    requires
        outcomes.len() == candidates.len(),
    ensures
        documents_after(candidates, outcomes).len() + stats_after(candidates, outcomes).errors
            + stats_after(candidates, outcomes).skipped == candidates.len(),
    decreases candidates.len(),
{
    if candidates.len() > 0 {
        every_file_ends_somewhere(candidates.drop_last(), outcomes.drop_last());
    }
}

/// After a successful run the documents of the index, the errors and the
/// skips add up: the index has grown by one document for every file that is
/// neither an error nor a skip.
pub proof fn run_accounts_for_every_file(
    candidates: Seq<Candidate>,
    before: Multiset<CatalogDocument>,
    stats: StatsView,
    after: Multiset<CatalogDocument>,
)
    requires
        run_accounts_for(candidates, before, stats, after),
    ensures
        after.len() + stats.errors + stats.skipped == before.len() + candidates.len(),
{
    let outcomes = choose|outcomes: Seq<Disposition>|
        {
            &&& #[trigger] admissible(candidates, outcomes)
            &&& stats == stats_after(candidates, outcomes)
            &&& after == before.add(documents_after(candidates, outcomes))
        };
    every_file_ends_somewhere(candidates, outcomes);
}

/// Among distinct files, on storage that held no document of the file of
/// candidate `at`: after a run the index holds the document of that file
/// once if the engine accepted it, and no document of that file otherwise.
/// So a file whose extraction failed, or that was skipped, has no document in
/// the index, and an accepted one has exactly one, whatever became of its own
/// commit.
pub proof fn index_holds_the_accepted_files(
    candidates: Seq<Candidate>,
    outcomes: Seq<Disposition>,
    at: int,
    before: Multiset<CatalogDocument>,
)
    requires
        outcomes.len() == candidates.len(),
        distinct_files(candidates),
        0 <= at < candidates.len(),
        forall|document: CatalogDocument|
            document.file_path == candidates[at].file@ ==> before.count(document) == 0,
    ensures
        forall|document: CatalogDocument|
            document.file_path == candidates[at].file@ ==> before.add(
                documents_after(candidates, outcomes),
            ).count(document) == (if outcomes[at].is_accepted() && document
                == candidates[at].document() {
                1nat
            } else {
                0nat
            }),
{
    each_file_is_accounted_once(candidates, outcomes, at);
}

/// How many candidates failed extraction.
pub open spec fn failed_extractions(candidates: Seq<Candidate>) -> nat
    decreases candidates.len(),
{
    if candidates.len() == 0 {
        0
    } else if candidates.last().extraction is Err {
        failed_extractions(candidates.drop_last()) + 1
    } else {
        failed_extractions(candidates.drop_last())
    }
}

proof fn lemma_errors_cover_failed_extractions(
    candidates: Seq<Candidate>,
    outcomes: Seq<Disposition>,
)
    requires
        admissible(candidates, outcomes),
    ensures
        stats_after(candidates, outcomes).errors >= failed_extractions(candidates),
    decreases candidates.len(),
{
    if candidates.len() > 0 {
        lemma_prefix_admissible(candidates, outcomes);
        lemma_errors_cover_failed_extractions(candidates.drop_last(), outcomes.drop_last());
    }
}

/// A run that counts no more errors than extractions failed is one in which
/// the engine refused no document.
pub proof fn no_error_beyond_extraction_means_no_refusal(
    candidates: Seq<Candidate>,
    outcomes: Seq<Disposition>,
)
    requires
        admissible(candidates, outcomes),
        stats_after(candidates, outcomes).errors == failed_extractions(candidates),
    ensures
        forall|i: int| 0 <= i < candidates.len() ==> outcomes[i] != Disposition::Rejected,
    decreases candidates.len(),
{
    if candidates.len() > 0 {
        let last = candidates.len() - 1;
        lemma_prefix_admissible(candidates, outcomes);
        lemma_errors_cover_failed_extractions(candidates.drop_last(), outcomes.drop_last());
        no_error_beyond_extraction_means_no_refusal(candidates.drop_last(), outcomes.drop_last());
        assert forall|i: int| 0 <= i < candidates.len() implies outcomes[i]
            != Disposition::Rejected by {
            if i < last {
                assert(outcomes.drop_last()[i] == outcomes[i]);
            }
        }
    }
}

/// A run from empty storage that counts no error, over files that were all
/// extracted while the writer was granted, counts no skip either and leaves
/// an index with one document for each file and nothing else.
pub proof fn run_without_errors_indexes_every_file(
    candidates: Seq<Candidate>,
    stats: StatsView,
    after: Multiset<CatalogDocument>,
)
    requires
        run_accounts_for(candidates, Multiset::empty(), stats, after),
        forall|i: int| 0 <= i < candidates.len() ==> (#[trigger] candidates[i]).reaches_engine(),
        stats.errors == 0,
    ensures
        stats == StatsView::empty(),
        after == eligible_documents(candidates),
        after.len() == candidates.len(),
{
    let outcomes = choose|outcomes: Seq<Disposition>|
        {
            &&& #[trigger] admissible(candidates, outcomes)
            &&& stats == stats_after(candidates, outcomes)
            &&& after == Multiset::<CatalogDocument>::empty().add(
                documents_after(candidates, outcomes),
            )
        };
    lemma_errors_cover_failed_extractions(candidates, outcomes);
    no_error_beyond_extraction_means_no_refusal(candidates, outcomes);
    assert forall|i: int| 0 <= i < candidates.len() implies (#[trigger] outcomes[i]).is_accepted() by {
        assert(candidates[i].admits(outcomes[i]));
        assert(candidates[i].reaches_engine());
        assert(outcomes[i] != Disposition::Rejected);
    }
    clean_run_fills_the_index(candidates, outcomes);
    assert(Multiset::<CatalogDocument>::empty().add(documents_after(candidates, outcomes))
        =~= documents_after(candidates, outcomes));
}

/// Two successful runs from storage holding the same, over the same files
/// taken in any order, leave indexes that hold the same documents, provided
/// neither counts an error beyond the failed extractions (the engine refused
/// nothing).
pub proof fn runs_on_the_same_files_leave_the_same_index(
    before: Multiset<CatalogDocument>,
    one: Seq<Candidate>,
    one_stats: StatsView,
    one_index: Multiset<CatalogDocument>,
    other: Seq<Candidate>,
    other_stats: StatsView,
    other_index: Multiset<CatalogDocument>,
)
    requires
        one.to_multiset() == other.to_multiset(),
        run_accounts_for(one, before, one_stats, one_index),
        run_accounts_for(other, before, other_stats, other_index),
        one_stats.errors == failed_extractions(one),
        other_stats.errors == failed_extractions(other),
    ensures
        one_index == other_index,
{
    let one_run = choose|outcomes: Seq<Disposition>|
        {
            &&& #[trigger] admissible(one, outcomes)
            &&& one_stats == stats_after(one, outcomes)
            &&& one_index == before.add(documents_after(one, outcomes))
        };
    let other_run = choose|outcomes: Seq<Disposition>|
        {
            &&& #[trigger] admissible(other, outcomes)
            &&& other_stats == stats_after(other, outcomes)
            &&& other_index == before.add(documents_after(other, outcomes))
        };
    no_error_beyond_extraction_means_no_refusal(one, one_run);
    no_error_beyond_extraction_means_no_refusal(other, other_run);
    runs_agree_in_any_order(one, one_run, other, other_run);
}

} // verus!
