use dicom_catalog::indexer::process::{
    conclude_run, confirm_run, count_documents, perform_indexing, run_indexing, settle,
};
use dicom_catalog::indexer::{
    catalog_of_run, catalog_schema, index_enumerated, index_path, Candidate, Catalog, DicomError, DicomInfo,
    Disposition, IndexerError, IndexerStats, PreparedStorage, WriterAccess, FILE_PATH_FIELD,
    PATIENT_ID_FIELD, PERSON_NAME_FIELD,
};
use dicom_catalog::output::output_field;
use dicom_catalog::search::search_catalog;
use tantivy::{DocAddress, TantivyDocument};

fn extracted(file: &str, patient_id: &str, person_name: &str) -> Candidate {
    Candidate {
        file: file.to_string(),
        extraction: Ok(DicomInfo {
            person_name: person_name.to_string(),
            patient_id: patient_id.to_string(),
        }),
        access: WriterAccess::Granted,
    }
}

fn unreadable(file: &str) -> Candidate {
    let not_text = String::from_utf8(vec![0xff, 0xfe]).unwrap_err().utf8_error();
    Candidate {
        file: file.to_string(),
        extraction: Err(Box::new(DicomError::ToString("PatientID".to_string(), not_text))),
        access: WriterAccess::Granted,
    }
}

fn contended(mut candidate: Candidate) -> Candidate {
    candidate.access = WriterAccess::Unavailable;
    candidate
}

fn triples(catalog: &Catalog) -> Vec<(String, String, String)> {
    let hits = search_catalog(catalog, None, None, 0, None, 0).expect("listing the catalog");
    let mut found: Vec<(String, String, String)> = hits
        .iter()
        .map(|hit| {
            let document: TantivyDocument = catalog
                .searcher
                .doc(DocAddress::new(hit.segment_ord, hit.doc_id))
                .expect("a listed document");
            (
                output_field(&document, 0),
                output_field(&document, 1),
                output_field(&document, 2),
            )
        })
        .collect();
    found.sort();
    found
}

fn triple(patient_id: &str, person_name: &str, file: &str) -> (String, String, String) {
    (patient_id.to_string(), person_name.to_string(), file.to_string())
}

fn count(paths: &[String], path: &str) -> usize {
    paths.iter().filter(|listed| listed.as_str() == path).count()
}

#[test]
fn new_stats_are_empty() {
    let stats = IndexerStats::default();
    assert_eq!(stats.errors, 0);
    assert_eq!(stats.skipped, 0);
    assert!(stats.error_files.is_empty());
    assert!(stats.skipped_files.is_empty());
}

#[test]
fn stats_count_what_they_list() {
    let mut stats = IndexerStats::default();
    stats.record_error(&"a.dcm".to_string());
    stats.record_skipped(&"b.dcm".to_string());
    stats.record_error(&"c.dcm".to_string());
    assert_eq!(stats.errors, 2);
    assert_eq!(stats.error_files, vec!["a.dcm".to_string(), "c.dcm".to_string()]);
    assert_eq!(stats.skipped, 1);
    assert_eq!(stats.skipped_files, vec!["b.dcm".to_string()]);
}

#[test]
fn clean_run_indexes_every_file() {
    let candidates = vec![
        extracted("a.dcm", "12345", "DOE^JANE"),
        extracted("b.dcm", "67890", "ROE^RICHARD"),
        extracted("c.dcm", "24680", "POE^EDGAR"),
    ];
    let catalog = index_path(PreparedStorage::Ephemeral, &candidates).expect("a finished run");
    let stats = catalog.stats.as_ref().expect("the statistics of the run");
    assert_eq!(stats.errors + stats.skipped, 0);
    assert!(stats.error_files.is_empty());
    assert!(stats.skipped_files.is_empty());
    assert_eq!(catalog.searcher.num_docs(), 3);
    assert_eq!(
        triples(&catalog),
        vec![
            triple("12345", "DOE^JANE", "a.dcm"),
            triple("24680", "POE^EDGAR", "c.dcm"),
            triple("67890", "ROE^RICHARD", "b.dcm"),
        ]
    );
}

#[test]
fn empty_run_gives_empty_catalog() {
    let catalog = index_path(PreparedStorage::Ephemeral, &Vec::new()).expect("a finished run");
    let stats = catalog.stats.as_ref().expect("the statistics of the run");
    assert_eq!(stats.errors, 0);
    assert_eq!(stats.skipped, 0);
    assert_eq!(catalog.searcher.num_docs(), 0);
    assert!(triples(&catalog).is_empty());
}

#[test]
fn failed_extraction_is_one_error() {
    let candidates = vec![
        extracted("a.dcm", "12345", "DOE^JANE"),
        unreadable("broken.dcm"),
        extracted("c.dcm", "24680", "POE^EDGAR"),
    ];
    let catalog = index_path(PreparedStorage::Ephemeral, &candidates).expect("a finished run");
    let stats = catalog.stats.as_ref().expect("the statistics of the run");
    assert_eq!(stats.errors, 1);
    assert_eq!(count(&stats.error_files, "broken.dcm"), 1);
    assert_eq!(count(&stats.skipped_files, "broken.dcm"), 0);
    assert_eq!(stats.skipped, 0);
    assert_eq!(catalog.searcher.num_docs(), 2);
}

#[test]
fn unavailable_writer_is_one_skip() {
    let candidates = vec![
        extracted("a.dcm", "12345", "DOE^JANE"),
        contended(extracted("busy.dcm", "67890", "ROE^RICHARD")),
    ];
    let catalog = index_path(PreparedStorage::Ephemeral, &candidates).expect("a finished run");
    let stats = catalog.stats.as_ref().expect("the statistics of the run");
    assert_eq!(stats.skipped, 1);
    assert_eq!(count(&stats.skipped_files, "busy.dcm"), 1);
    assert_eq!(count(&stats.error_files, "busy.dcm"), 0);
    assert_eq!(stats.errors, 0);
    assert_eq!(triples(&catalog), vec![triple("12345", "DOE^JANE", "a.dcm")]);
}

#[test]
fn failed_extraction_wins_over_unavailable_writer() {
    let candidates = vec![contended(unreadable("broken.dcm"))];
    let catalog = index_path(PreparedStorage::Ephemeral, &candidates).expect("a finished run");
    let stats = catalog.stats.as_ref().expect("the statistics of the run");
    assert_eq!(stats.error_files, vec!["broken.dcm".to_string()]);
    assert_eq!(stats.errors, 1);
    assert!(stats.skipped_files.is_empty());
    assert_eq!(stats.skipped, 0);
    assert_eq!(catalog.searcher.num_docs(), 0);
}

#[test]
fn two_runs_give_the_same_documents() {
    let candidates = vec![
        extracted("a.dcm", "12345", "DOE^JANE"),
        unreadable("broken.dcm"),
        extracted("c.dcm", "24680", "POE^EDGAR"),
    ];
    let first = index_path(PreparedStorage::Ephemeral, &candidates).expect("a finished run");
    let second = index_path(PreparedStorage::Ephemeral, &candidates).expect("a finished run");
    assert_eq!(triples(&first), triples(&second));
    assert_eq!(triples(&first).len(), 2);
}

#[test]
fn order_of_candidates_does_not_change_the_documents() {
    let forward = vec![
        extracted("a.dcm", "12345", "DOE^JANE"),
        extracted("b.dcm", "67890", "ROE^RICHARD"),
    ];
    let backward = vec![
        extracted("b.dcm", "67890", "ROE^RICHARD"),
        extracted("a.dcm", "12345", "DOE^JANE"),
    ];
    let first = index_path(PreparedStorage::Ephemeral, &forward).expect("a finished run");
    let second = index_path(PreparedStorage::Ephemeral, &backward).expect("a finished run");
    assert_eq!(triples(&first), triples(&second));
}

#[test]
fn created_index_is_filled_and_reopened_index_is_left_alone() {
    let index = tantivy::Index::create_in_ram(catalog_schema());
    let candidates = vec![extracted("a.dcm", "12345", "DOE^JANE")];
    let built = index_path(PreparedStorage::Created(index.clone()), &candidates)
        .expect("a finished run");
    assert!(built.stats.is_some());
    assert_eq!(triples(&built), vec![triple("12345", "DOE^JANE", "a.dcm")]);

    let ignored = vec![extracted("z.dcm", "99999", "NOT^INDEXED")];
    let reopened = index_path(PreparedStorage::Reopened(index), &ignored).expect("a catalog");
    assert!(reopened.stats.is_none());
    assert_eq!(triples(&reopened), vec![triple("12345", "DOE^JANE", "a.dcm")]);
}

#[test]
fn perform_indexing_returns_index_and_stats() {
    let schema = catalog_schema();
    let index = tantivy::Index::create_in_ram(schema.clone());
    let candidates = vec![
        extracted("a.dcm", "12345", "DOE^JANE"),
        unreadable("broken.dcm"),
        contended(extracted("busy.dcm", "67890", "ROE^RICHARD")),
    ];
    let (indexed, stats) = match perform_indexing(index, &candidates, &schema) {
        Ok(done) => done,
        Err(_) => panic!("the run failed"),
    };
    assert_eq!(stats.errors, 1);
    assert_eq!(stats.error_files, vec!["broken.dcm".to_string()]);
    assert_eq!(stats.skipped, 1);
    assert_eq!(stats.skipped_files, vec!["busy.dcm".to_string()]);
    let searcher = indexed.reader().expect("a reader").searcher();
    assert_eq!(searcher.num_docs(), 1);
}

#[test]
fn second_writer_on_one_index_fails_the_run() {
    let schema = catalog_schema();
    let index = tantivy::Index::create_in_ram(schema.clone());
    let held: tantivy::IndexWriter = index.writer(50_000_000).expect("the first writer");
    let outcome = perform_indexing(index.clone(), &Vec::new(), &schema);
    assert!(matches!(outcome, Err(IndexerError::InstanceWriter(_))));
    drop(held);
}

#[test]
fn catalog_schema_has_the_three_fields_in_order() {
    let schema = catalog_schema();
    let names: Vec<String> =
        schema.fields().map(|(_, entry)| entry.name().to_string()).collect();
    assert_eq!(names, vec!["patient_id", "person_name", "file_path"]);
    let ordinals: Vec<u32> = schema.fields().map(|(field, _)| field.field_id()).collect();
    assert_eq!(ordinals, vec![0, 1, 2]);
    assert_eq!(ordinals, vec![PATIENT_ID_FIELD, PERSON_NAME_FIELD, FILE_PATH_FIELD]);
    for (_, entry) in schema.fields() {
        assert!(entry.is_indexed());
        assert!(entry.is_stored());
        match entry.field_type() {
            tantivy::schema::FieldType::Str(options) => {
                let indexing = options.get_indexing_options().expect("an indexed field");
                assert_eq!(indexing.tokenizer(), "raw");
            }
            other => panic!("unexpected field type {:?}", other),
        }
    }
}

#[test]
fn run_reports_what_became_of_each_candidate() {
    let schema = catalog_schema();
    let index = tantivy::Index::create_in_ram(schema.clone());
    let candidates = vec![
        extracted("a.dcm", "12345", "DOE^JANE"),
        unreadable("broken.dcm"),
        contended(extracted("busy.dcm", "67890", "ROE^RICHARD")),
        contended(unreadable("both.dcm")),
        extracted("e.dcm", "24680", "POE^EDGAR"),
    ];
    let report = match run_indexing(index, &candidates, &schema) {
        Ok(report) => report,
        Err(error) => panic!("the run failed: {:?}", error),
    };
    assert_eq!(
        report.outcomes,
        vec![
            Disposition::Indexed,
            Disposition::ExtractionFailed,
            Disposition::Skipped,
            Disposition::ExtractionFailed,
            Disposition::Indexed,
        ]
    );
    assert_eq!(report.stats.errors, 2);
    assert_eq!(report.stats.error_files, vec!["broken.dcm".to_string(), "both.dcm".to_string()]);
    assert_eq!(report.stats.skipped, 1);
    assert_eq!(report.stats.skipped_files, vec!["busy.dcm".to_string()]);
    let searcher = report.index.reader().expect("a reader").searcher();
    assert_eq!(searcher.num_docs(), 2);
    assert_eq!(
        searcher.num_docs() + report.stats.errors + report.stats.skipped,
        candidates.len() as u64
    );
}

#[test]
fn documents_hold_their_texts_under_the_catalog_fields() {
    let catalog = index_path(
        PreparedStorage::Ephemeral,
        &vec![extracted("a.dcm", "12345", "DOE^JANE")],
    )
    .expect("a finished run");
    let hits = search_catalog(&catalog, None, None, 0, None, 0).expect("listing the catalog");
    let document: TantivyDocument = catalog
        .searcher
        .doc(DocAddress::new(hits[0].segment_ord, hits[0].doc_id))
        .expect("a listed document");
    assert_eq!(output_field(&document, PATIENT_ID_FIELD), "12345");
    assert_eq!(output_field(&document, PERSON_NAME_FIELD), "DOE^JANE");
    assert_eq!(output_field(&document, FILE_PATH_FIELD), "a.dcm");
}

#[test]
fn failed_last_commit_fails_the_run() {
    let failure = tantivy::TantivyError::InternalError("no space".to_string());
    match conclude_run(Err(failure)) {
        Err(IndexerError::CommitIndex(message)) => assert!(message.contains("no space")),
        other => panic!("unexpected conclusion {:?}", other),
    }
    assert!(conclude_run(Ok(7)).is_ok());
}

#[test]
fn failed_run_fails_the_catalog_with_the_same_failure() {
    let failed = Err(IndexerError::CommitIndex("no space".to_string()));
    match catalog_of_run(failed, catalog_schema()) {
        Err(IndexerError::CommitIndex(message)) => assert_eq!(message, "no space"),
        Err(other) => panic!("unexpected failure {:?}", other),
        Ok(_) => panic!("unexpected catalog"),
    }
    let refused = tantivy::TantivyError::InvalidArgument("budget".to_string());
    let failed = Err(IndexerError::InstanceWriter(refused));
    assert!(matches!(
        catalog_of_run(failed, catalog_schema()),
        Err(IndexerError::InstanceWriter(tantivy::TantivyError::InvalidArgument(_)))
    ));
    let schema = catalog_schema();
    let index = tantivy::Index::create_in_ram(schema.clone());
    let catalog = match catalog_of_run(Ok((index, IndexerStats::default())), schema) {
        Ok(catalog) => catalog,
        Err(error) => panic!("unexpected failure {:?}", error),
    };
    assert!(catalog.stats.is_some());
    assert_eq!(catalog.searcher.num_docs(), 0);
}

#[test]
fn dispositions_are_told_apart() {
    assert_ne!(Disposition::Indexed, Disposition::CommitDeferred);
    assert_ne!(Disposition::ExtractionFailed, Disposition::Rejected);
    assert_eq!(Disposition::Skipped, Disposition::Skipped);
}

#[test]
fn engine_answers_settle_the_outcome() {
    assert_eq!(settle(false, false), Disposition::Rejected);
    assert_eq!(settle(false, true), Disposition::Rejected);
    assert_eq!(settle(true, true), Disposition::Indexed);
    assert_eq!(settle(true, false), Disposition::CommitDeferred);
}

#[test]
fn failed_enumeration_fails_the_build_before_indexing() {
    let unreadable_root =
        fs_extra::error::Error::new(fs_extra::error::ErrorKind::NotFound, "no such directory");
    let index = tantivy::Index::create_in_ram(catalog_schema());
    let built = index_enumerated(PreparedStorage::Created(index.clone()), Err(unreadable_root));
    match built {
        Err(IndexerError::GetDirContent(cause)) => {
            assert!(matches!(cause.kind, fs_extra::error::ErrorKind::NotFound))
        }
        Err(other) => panic!("unexpected failure {:?}", other),
        Ok(_) => panic!("unexpected catalog"),
    }
    assert_eq!(index.reader().expect("a reader").searcher().num_docs(), 0);

    let enumerated = Ok(vec![extracted("a.dcm", "12345", "DOE^JANE")]);
    let catalog = index_enumerated(PreparedStorage::Ephemeral, enumerated).expect("a catalog");
    assert_eq!(triples(&catalog), vec![triple("12345", "DOE^JANE", "a.dcm")]);
}

#[test]
fn run_is_held_to_account_for_its_documents() {
    assert!(confirm_run(0, 0, 0).is_ok());
    assert!(confirm_run(3, 2, 5).is_ok());
    assert!(confirm_run(u64::MAX - 1, 1, u64::MAX).is_ok());
    for (before, accepted, after) in
        [(0u64, 1u64, 0u64), (3, 2, 4), (3, 2, 6), (0, 0, 1), (u64::MAX, 1, 0), (u64::MAX, 1, u64::MAX)]
    {
        match confirm_run(before, accepted, after) {
            Err(IndexerError::CommitIndex(message)) => assert_eq!(
                message,
                "the index does not hold every accepted document after the last commit"
            ),
            other => panic!("unexpected conclusion {:?}", other),
        }
    }
}

#[test]
fn documents_of_an_index_are_counted() {
    let schema = catalog_schema();
    let index = tantivy::Index::create_in_ram(schema.clone());
    assert_eq!(count_documents(&index).expect("a count"), 0);
    let candidates = vec![
        extracted("a.dcm", "12345", "DOE^JANE"),
        unreadable("broken.dcm"),
        extracted("c.dcm", "24680", "POE^EDGAR"),
    ];
    let (indexed, _) = perform_indexing(index, &candidates, &schema).expect("a finished run");
    assert_eq!(count_documents(&indexed).expect("a count"), 2);
}

#[test]
fn run_on_a_filled_index_adds_to_it() {
    let schema = catalog_schema();
    let index = tantivy::Index::create_in_ram(schema.clone());
    let first = vec![extracted("a.dcm", "12345", "DOE^JANE")];
    let (indexed, _) = perform_indexing(index, &first, &schema).expect("a finished run");
    let second = vec![
        extracted("b.dcm", "67890", "ROE^RICHARD"),
        contended(extracted("busy.dcm", "11111", "MOE^MARY")),
    ];
    let report = run_indexing(indexed, &second, &schema).expect("a finished run");
    assert_eq!(count_documents(&report.index).expect("a count"), 2);
    assert_eq!(report.stats.skipped, 1);
    assert_eq!(report.outcomes, vec![Disposition::Indexed, Disposition::Skipped]);
}

#[test]
fn created_index_that_is_not_new_is_refused() {
    let schema = catalog_schema();
    let index = tantivy::Index::create_in_ram(schema.clone());
    let earlier = vec![extracted("old.dcm", "00001", "OLD^RUN")];
    let (filled, _) = perform_indexing(index, &earlier, &schema).expect("a finished run");
    let now = vec![extracted("a.dcm", "12345", "DOE^JANE")];
    match index_path(PreparedStorage::Created(filled.clone()), &now) {
        Err(IndexerError::CreateIndexerInDir(tantivy::TantivyError::IndexAlreadyExists)) => {}
        Err(other) => panic!("unexpected failure {:?}", other),
        Ok(_) => panic!("unexpected catalog"),
    }
    assert_eq!(count_documents(&filled).expect("a count"), 1);
}

#[test]
fn regenerated_catalog_holds_the_files_at_hand_only() {
    let earlier = index_path(
        PreparedStorage::Ephemeral,
        &vec![extracted("old.dcm", "00001", "OLD^RUN"), extracted("a.dcm", "12345", "DOE^JANE")],
    )
    .expect("a finished run");
    assert_eq!(triples(&earlier).len(), 2);
    let created = tantivy::Index::create_in_ram(catalog_schema());
    let rebuilt = index_path(
        PreparedStorage::Created(created),
        &vec![extracted("a.dcm", "12345", "DOE^JANET"), extracted("b.dcm", "67890", "ROE^RICHARD")],
    )
    .expect("a finished run");
    assert!(rebuilt.stats.is_some());
    assert_eq!(
        triples(&rebuilt),
        vec![triple("12345", "DOE^JANET", "a.dcm"), triple("67890", "ROE^RICHARD", "b.dcm")]
    );
}
