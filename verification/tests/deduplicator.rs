use delta_kernel_core::columns::ColumnData;
use delta_kernel_core::deduplicator::{
    extract_dv_unique_id, CheckpointDeduplicator, FileActionKey, FileKeySet,
};

fn strings(values: &[Option<&str>]) -> ColumnData {
    ColumnData::Strings(values.iter().map(|v| v.map(|s| s.to_string())).collect())
}

/// Four files: plain, with a deletion vector, with a negative size, and no file at all.
fn columns() -> Vec<ColumnData> {
    vec![
        strings(&[Some("a"), Some("b"), Some("c"), None]),
        ColumnData::Longs(vec![Some(10), None, Some(-5), None]),
        strings(&[None, Some("u"), Some("i"), None]),
        strings(&[None, Some("xyz"), Some("inline"), None]),
        ColumnData::Integers(vec![None, Some(7), None, None]),
    ]
}

#[test]
fn file_actions_are_extracted_from_adds() {
    let seen = FileKeySet::new();
    let dedup = CheckpointDeduplicator::try_new(&seen, 0, 1, 2).unwrap();
    let columns = columns();

    let first = dedup.extract_file_action(0, &columns, false).unwrap().unwrap();
    assert_eq!(first.key.path, "a");
    assert_eq!(first.key.dv_unique_id, None);
    assert_eq!(first.size, 10);
    assert!(first.is_add);

    let second = dedup.extract_file_action(1, &columns, true).unwrap().unwrap();
    assert_eq!(second.key.dv_unique_id.as_deref(), Some("uxyz@7"));
    assert_eq!(second.size, 0);

    let third = dedup.extract_file_action(2, &columns, false).unwrap().unwrap();
    assert_eq!(third.key.dv_unique_id.as_deref(), Some("iinline"));
    assert_eq!(third.size, 0);

    assert!(dedup.extract_file_action(3, &columns, false).unwrap().is_none());
}

#[test]
fn a_deletion_vector_without_path_is_an_error() {
    let columns = vec![
        strings(&[Some("u")]),
        strings(&[None]),
        ColumnData::Integers(vec![None]),
    ];
    let message = extract_dv_unique_id(0, &columns, 0).unwrap_err().to_text();
    assert_eq!(message, "Data missing for field deletionVector.pathOrInlineDv");
}

#[test]
fn a_column_of_the_wrong_type_is_an_error() {
    let seen = FileKeySet::new();
    let dedup = CheckpointDeduplicator::try_new(&seen, 0, 1, 2).unwrap();
    let mut columns = columns();
    columns[0] = ColumnData::Longs(vec![Some(1)]);
    let message = dedup.extract_file_action(0, &columns, false).unwrap_err().to_text();
    assert!(message.contains("add.path"), "{message}");
}

#[test]
fn files_are_filtered_by_path_and_deletion_vector_and_not_recorded() {
    let mut seen = FileKeySet::new();
    assert!(seen.insert(FileActionKey::new("a", None)));
    assert!(!seen.insert(FileActionKey::new("a", None)));
    let mut dedup = CheckpointDeduplicator::try_new(&seen, 0, 1, 2).unwrap();
    assert!(dedup.check_and_record_seen(FileActionKey::new("a", None)));
    for _ in 0..2 {
        assert!(!dedup.check_and_record_seen(FileActionKey::new("a", Some("u1".to_string()))));
        assert!(!dedup.check_and_record_seen(FileActionKey::new("b", None)));
    }
    assert!(!dedup.is_log_batch());
}
