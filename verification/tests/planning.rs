use dicom_catalog::indexer::{index_run_location, storage_plan, IndexerError, StoragePlan};
use dicom_catalog::output::output_field;
use dicom_catalog::search::SearchError;
use dicom_catalog::types::{Args, CommandError, DEFAULT_MAX_DEPTH, DEFAULT_SEARCH_SENSIBILITY};

fn location() -> Option<String> {
    Some("/var/index/%2Fdata".to_string())
}

#[test]
fn no_location_means_memory() {
    assert!(matches!(storage_plan(None, false, false), StoragePlan::Ephemeral));
    assert!(matches!(storage_plan(None, true, false), StoragePlan::Ephemeral));
    assert!(matches!(storage_plan(None, true, true), StoragePlan::Ephemeral));
    assert!(matches!(storage_plan(None, false, true), StoragePlan::Ephemeral));
}

#[test]
fn existing_catalog_is_reopened() {
    match storage_plan(location(), false, true) {
        StoragePlan::Reopen { location } => assert_eq!(location, "/var/index/%2Fdata"),
        other => panic!("unexpected plan {:?}", other),
    }
}

#[test]
fn missing_catalog_is_built() {
    match storage_plan(location(), false, false) {
        StoragePlan::Build { location, remove_first } => {
            assert_eq!(location, "/var/index/%2Fdata");
            assert!(!remove_first);
        }
        other => panic!("unexpected plan {:?}", other),
    }
    match storage_plan(location(), true, false) {
        StoragePlan::Build { location, remove_first } => {
            assert_eq!(location, "/var/index/%2Fdata");
            assert!(!remove_first);
        }
        other => panic!("unexpected plan {:?}", other),
    }
}

#[test]
fn regenerated_catalog_is_removed_and_built() {
    match storage_plan(location(), true, true) {
        StoragePlan::Build { location, remove_first } => {
            assert_eq!(location, "/var/index/%2Fdata");
            assert!(remove_first);
        }
        other => panic!("unexpected plan {:?}", other),
    }
}

#[test]
fn location_is_the_encoded_path_under_the_base() {
    let base = "/var/index".to_string();
    assert_eq!(
        index_run_location(&base, &"/data/scans 1".to_string()),
        "/var/index/%2Fdata%2Fscans%201"
    );
    assert_eq!(index_run_location(&base, &"a-b_c.d~e9Z".to_string()), "/var/index/a-b_c.d~e9Z");
    assert_eq!(index_run_location(&base, &"é".to_string()), "/var/index/%C3%A9");
    assert_eq!(index_run_location(&base, &"".to_string()), "/var/index/");
    assert_eq!(index_run_location(&"".to_string(), &"x/y".to_string()), "/x%2Fy");
}

#[test]
fn different_paths_get_different_locations() {
    let base = "idx".to_string();
    let plain = index_run_location(&base, &"a/b".to_string());
    let encoded = index_run_location(&base, &"a%2Fb".to_string());
    assert_eq!(plain, "idx/a%2Fb");
    assert_eq!(encoded, "idx/a%252Fb");
    assert_ne!(plain, encoded);
}

#[test]
fn stored_text_is_shown_and_absence_is_marked() {
    let mut document = tantivy::TantivyDocument::default();
    document.add_text(tantivy::schema::Field::from_field_id(0), "12345");
    document.add_text(tantivy::schema::Field::from_field_id(1), "DOE^JANE");
    document.add_u64(tantivy::schema::Field::from_field_id(3), 7);
    assert_eq!(output_field(&document, 0), "12345");
    assert_eq!(output_field(&document, 1), "DOE^JANE");
    assert_eq!(output_field(&document, 2), "##ERROR##");
    assert_eq!(output_field(&document, 3), "##ERROR##");
}

#[test]
fn arguments_default_as_documented() {
    let args = Args::for_path("/data".to_string());
    assert_eq!(args.path, "/data");
    assert_eq!(args.patient_id, None);
    assert_eq!(args.person_name, None);
    assert_eq!(args.max_depth, 20);
    assert_eq!(args.max_depth, DEFAULT_MAX_DEPTH);
    assert_eq!(args.offset, 0);
    assert_eq!(args.limit, None);
    assert_eq!(args.disk_index, None);
    assert!(!args.regenerate);
    assert_eq!(args.search_sensibility, 2);
    assert_eq!(args.search_sensibility, DEFAULT_SEARCH_SENSIBILITY);
}

#[test]
fn command_failures_keep_their_phase() {
    let indexing = CommandError::Indexing(IndexerError::CommitIndex("disk full".to_string()));
    match indexing {
        CommandError::Indexing(IndexerError::CommitIndex(message)) => {
            assert_eq!(message, "disk full")
        }
        other => panic!("unexpected failure {:?}", other),
    }
    let search = CommandError::Search(SearchError::MissingField { field: 1 });
    assert!(matches!(search, CommandError::Search(SearchError::MissingField { field: 1 })));
}
