use delta_kernel_core::actions::{DomainMetadata, FileMeta, Format, Metadata, Protocol, SetTransaction};
use delta_kernel_core::crc::{
    Crc, DomainMetadataState, FileSizeHistogram, FileStats, FileStatsState, SetTransactionState,
};
use delta_kernel_core::columns::{ColumnBatch, ColumnData};
use delta_kernel_core::crc_replay::{
    CrcReplayAccumulator, CrcReplayVisitor, N_FIXED_COLS, N_METADATA_LEAVES, N_PROTOCOL_LEAVES,
};
use delta_kernel_core::engine::JsonHandler;
use delta_kernel_core::error::{DeltaResult, Error};
use delta_kernel_core::expressions::ColumnName;
use delta_kernel_core::log_segment::{
    fold_batches, IncrementalReplay, LogFile, LogSegment, ReplayEngine,
};
use delta_kernel_core::plans::nodes::{PredicateRef, SchemaRef};
use delta_kernel_core::schema::DataType;
use delta_kernel_core::string_map::StringMap;
use delta_kernel_core::test_support::assert_result_error_with_message;

fn safe_operations() -> Vec<String> {
    vec!["WRITE".to_string()]
}

fn accumulator() -> CrcReplayAccumulator {
    CrcReplayAccumulator::new(None, safe_operations())
}

fn on_commit_info_classifies(op: &str, is_safe: bool) {
    let mut acc = accumulator();
    acc.on_commit_info(Some(op), None);
    assert_eq!(acc.current_commit_saw_safe_op, is_safe);
    assert_eq!(acc.delta.is_incremental_safe, is_safe);
}

#[test]
fn on_commit_info_classifies_operation_safe() {
    on_commit_info_classifies("WRITE", true);
}

#[test]
fn on_commit_info_classifies_operation_unsafe_op() {
    on_commit_info_classifies("ANALYZE STATS", false);
}

#[test]
fn on_commit_info_ict_only_no_operation_does_not_mark_saw_safe_op() {
    let mut acc = accumulator();
    acc.on_commit_info(None, Some(1234));
    assert!(!acc.current_commit_saw_safe_op);
    assert!(acc.delta.is_incremental_safe);
    assert_eq!(acc.delta.in_commit_timestamp, Some(1234));
}

#[test]
fn on_commit_info_captures_ict_only_on_first_commit() {
    let mut acc = accumulator();
    acc.process_batch_start("v2.json");
    acc.on_commit_info(Some("WRITE"), Some(2000));
    assert_eq!(acc.delta.in_commit_timestamp, Some(2000));
    acc.process_batch_start("v1.json");
    acc.on_commit_info(Some("WRITE"), Some(1000));
    assert_eq!(acc.delta.in_commit_timestamp, Some(2000));
}

#[test]
fn on_commit_info_first_commit_none_ict_does_not_get_overwritten_by_older() {
    let mut acc = accumulator();
    acc.process_batch_start("v2.json");
    acc.on_commit_info(Some("WRITE"), None);
    assert_eq!(acc.delta.in_commit_timestamp, None);
    acc.process_batch_start("v1.json");
    acc.on_commit_info(Some("WRITE"), Some(1000));
    assert_eq!(acc.delta.in_commit_timestamp, None);
}

#[test]
fn on_add_increments_files_and_bytes() {
    let mut acc = accumulator();
    acc.on_add(100).unwrap();
    acc.on_add(200).unwrap();
    assert_eq!(acc.delta.file_stats.net_files(), 2);
    assert_eq!(acc.delta.file_stats.net_bytes(), 300);
    assert!(acc.delta.is_incremental_safe);
}

#[test]
fn on_add_rejects_a_negative_size() {
    let mut acc = accumulator();
    let message = acc.on_add(-7).unwrap_err().to_text();
    assert!(message.contains("-7"), "{message}");
}

#[test]
fn on_remove_with_size_decrements_files_and_bytes() {
    let mut acc = accumulator();
    acc.on_remove("p", Some(50)).unwrap();
    assert_eq!(acc.delta.file_stats.net_files(), -1);
    assert_eq!(acc.delta.file_stats.net_bytes(), -50);
    assert!(acc.delta.is_incremental_safe);
}

#[test]
fn on_remove_missing_size_trips_is_incremental_safe() {
    let mut acc = accumulator();
    acc.on_remove("p", None).unwrap();
    assert!(!acc.delta.is_incremental_safe);
    assert!(acc.current_commit_saw_file_action);
}

#[test]
fn on_domain_metadata_first_seen_in_reverse_wins() {
    let mut acc = accumulator();
    acc.on_domain_metadata("d".into(), "new".into(), false);
    acc.on_domain_metadata("d".into(), "old".into(), false);
    assert_eq!(acc.delta.domain_metadata.get("d").unwrap().configuration(), "new");
    assert!(!acc.delta.domain_metadata.get("d").unwrap().is_removed());
}

#[test]
fn on_domain_metadata_tombstone_is_kept() {
    let mut acc = accumulator();
    acc.on_domain_metadata("d".into(), "v".into(), true);
    assert!(acc.delta.domain_metadata.get("d").unwrap().is_removed());
}

#[test]
fn on_set_transaction_first_seen_in_reverse_wins() {
    let mut acc = accumulator();
    acc.on_set_transaction("a".into(), 99, Some(123));
    acc.on_set_transaction("a".into(), 1, Some(0));
    assert_eq!(acc.delta.set_transactions.get("a").unwrap().version, 99);
}

#[test]
fn accumulator_with_seed_histogram_inserts_into_seeded_bin() {
    let seed = FileSizeHistogram::create_empty_with_boundaries(vec![0, 200, 1000]).unwrap();
    let mut acc = CrcReplayAccumulator::new(Some(seed), safe_operations());
    acc.on_add(150).unwrap();
    let hist = acc.delta.file_stats.net_histogram.as_ref().unwrap();
    assert_eq!(hist.sorted_bin_boundaries(), &[0, 200, 1000]);
    assert_eq!(hist.file_counts()[0], 1);
    assert_eq!(hist.total_bytes()[0], 150);
}

#[test]
fn accumulator_with_no_seed_histogram_keeps_delta_histogram_none() {
    let mut acc = accumulator();
    acc.on_add(150).unwrap();
    assert!(acc.delta.file_stats.net_histogram.is_none());
}

#[test]
fn into_crc_delta_transfers_accumulated_state() {
    let mut acc = accumulator();
    acc.on_add(42).unwrap();
    let delta = acc.into_crc_delta();
    assert_eq!(delta.file_stats.net_files(), 1);
    assert_eq!(delta.file_stats.net_bytes(), 42);
}

#[test]
fn visitor_schema_length_matches_column_indices() {
    let visitor = CrcReplayVisitor { acc: accumulator() };
    let (names, types) = visitor.selected_column_names_and_types();
    let expected = N_FIXED_COLS + N_PROTOCOL_LEAVES + N_METADATA_LEAVES;
    assert_eq!(names.len(), expected);
    assert_eq!(types.len(), expected);
}

#[test]
fn visitor_reads_the_file_first_and_the_sizes_by_name() {
    let visitor = CrcReplayVisitor { acc: accumulator() };
    let (names, types) = visitor.selected_column_names_and_types();
    assert_eq!(names[0].to_text(), "_file");
    assert_eq!(names[1].to_text(), "commitInfo.operation");
    assert_eq!(names[3].to_text(), "add.size");
    assert_eq!(format!("{:?}", types[3]), "Primitive(Long)");
    assert_eq!(names[8].to_text(), "domainMetadata.removed");
    assert_eq!(format!("{:?}", types[8]), "Primitive(Boolean)");
}

#[test]
fn per_commit_invariant_holds_when_file_action_and_commit_info_split_across_batches_of_one_file() {
    let mut acc = accumulator();
    acc.process_batch_start("v1.json");
    acc.on_add(0).unwrap();
    acc.process_batch_start("v1.json");
    acc.on_commit_info(Some("WRITE"), None);
    acc.process_commit_file_end();
    assert!(acc.delta.is_incremental_safe);
}

#[test]
fn per_commit_invariant_trips_when_file_action_has_no_safe_op_across_batches() {
    let mut acc = accumulator();
    acc.process_batch_start("v1.json");
    acc.on_add(0).unwrap();
    acc.process_batch_start("v1.json");
    acc.process_commit_file_end();
    assert!(!acc.delta.is_incremental_safe);
}

#[test]
fn per_commit_invariant_trips_when_file_action_has_commit_info_but_no_operation() {
    let mut acc = accumulator();
    acc.process_batch_start("v1.json");
    acc.on_add(100).unwrap();
    acc.on_commit_info(None, Some(42));
    acc.process_commit_file_end();
    assert!(!acc.delta.is_incremental_safe);
}

#[test]
fn is_first_commit_stays_true_across_batches_of_same_file() {
    let mut acc = accumulator();
    acc.process_batch_start("v2.json");
    acc.process_batch_start("v2.json");
    acc.process_batch_start("v2.json");
    assert!(acc.is_first_commit);
}

#[test]
fn is_first_commit_becomes_false_after_file_transition() {
    let mut acc = accumulator();
    acc.process_batch_start("v2.json");
    acc.process_batch_start("v1.json");
    assert!(!acc.is_first_commit);
}

/// The actions of one row.
#[derive(Default)]
struct Row {
    operation: Option<&'static str>,
    in_commit_timestamp: Option<i64>,
    add_size: Option<i64>,
    remove_path: Option<&'static str>,
    remove_size: Option<i64>,
    domain: Option<&'static str>,
    domain_configuration: Option<&'static str>,
    domain_removed: Option<bool>,
    txn_app_id: Option<&'static str>,
    txn_version: Option<i64>,
    txn_last_updated: Option<i64>,
    protocol: Option<Protocol>,
    metadata: Option<Metadata>,
}

fn row() -> Row {
    Row::default()
}

fn strings<'a>(values: impl Iterator<Item = Option<&'a str>>) -> ColumnData {
    ColumnData::Strings(values.map(|v| v.map(|v| v.to_string())).collect())
}

fn lists<'a>(values: impl Iterator<Item = Option<&'a Vec<String>>>) -> ColumnData {
    ColumnData::Lists(values.map(|v| v.cloned()).collect())
}

fn maps<'a>(values: impl Iterator<Item = Option<&'a StringMap<String>>>) -> ColumnData {
    ColumnData::Maps(values.map(|v| v.map(|v| v.copy())).collect())
}

/// The columns that the replay selects, in their order.
fn columns(file: &str, rows: &[Row]) -> Vec<ColumnData> {
    let protocol = || rows.iter().map(|r| r.protocol.as_ref());
    let metadata = || rows.iter().map(|r| r.metadata.as_ref());
    vec![
        strings(rows.iter().map(|_| Some(file))),
        strings(rows.iter().map(|r| r.operation)),
        ColumnData::Longs(rows.iter().map(|r| r.in_commit_timestamp).collect()),
        ColumnData::Longs(rows.iter().map(|r| r.add_size).collect()),
        strings(rows.iter().map(|r| r.remove_path)),
        ColumnData::Longs(rows.iter().map(|r| r.remove_size).collect()),
        strings(rows.iter().map(|r| r.domain)),
        strings(rows.iter().map(|r| r.domain_configuration)),
        ColumnData::Booleans(rows.iter().map(|r| r.domain_removed).collect()),
        strings(rows.iter().map(|r| r.txn_app_id)),
        ColumnData::Longs(rows.iter().map(|r| r.txn_version).collect()),
        ColumnData::Longs(rows.iter().map(|r| r.txn_last_updated).collect()),
        ColumnData::Integers(protocol().map(|p| p.map(|p| p.min_reader_version)).collect()),
        ColumnData::Integers(protocol().map(|p| p.map(|p| p.min_writer_version)).collect()),
        lists(protocol().map(|p| p.and_then(|p| p.reader_features.as_ref()))),
        lists(protocol().map(|p| p.and_then(|p| p.writer_features.as_ref()))),
        strings(metadata().map(|m| m.map(|m| m.id.as_str()))),
        strings(metadata().map(|m| m.and_then(|m| m.name.as_deref()))),
        strings(metadata().map(|m| m.and_then(|m| m.description.as_deref()))),
        strings(metadata().map(|m| m.map(|m| m.format.provider.as_str()))),
        maps(metadata().map(|m| m.map(|m| &m.format.options))),
        strings(metadata().map(|m| m.map(|m| m.schema_string.as_str()))),
        lists(metadata().map(|m| m.map(|m| &m.partition_columns))),
        ColumnData::Longs(metadata().map(|m| m.and_then(|m| m.created_time)).collect()),
        maps(metadata().map(|m| m.map(|m| &m.configuration))),
    ]
}

fn protocol(writer_features: &[&str]) -> Protocol {
    Protocol {
        min_reader_version: 3,
        min_writer_version: 7,
        reader_features: Some(vec![]),
        writer_features: Some(writer_features.iter().map(|f| f.to_string()).collect()),
    }
}

fn metadata(id: &str, created_time: i64) -> Metadata {
    Metadata {
        id: id.to_string(),
        name: None,
        description: None,
        format: Format { provider: "parquet".to_string(), options: StringMap::new() },
        schema_string: "{\"type\":\"struct\",\"fields\":[]}".to_string(),
        partition_columns: vec![],
        created_time: Some(created_time),
        configuration: StringMap::new(),
    }
}

fn batch(file: &str, rows: Vec<Row>) -> ColumnBatch {
    ColumnBatch::try_new(rows.len(), columns(file, &rows)).unwrap()
}

fn visit(visitor: &mut CrcReplayVisitor, file: &str, rows: Vec<Row>) -> DeltaResult<()> {
    visitor.visit(rows.len(), &columns(file, &rows))
}

fn file(path: &str) -> FileMeta {
    FileMeta { location: path.to_string(), last_modified: 0, size: 0 }
}

fn commit(version: u64) -> LogFile {
    LogFile { version, location: file(&format!("v{version}.json")) }
}

fn segment(end_version: u64, latest_crc_file: Option<LogFile>) -> LogSegment {
    LogSegment {
        end_version,
        ascending_commit_files: (0..=end_version).map(commit).collect(),
        latest_crc_file,
    }
}

fn crc(version: u64) -> Crc {
    Crc {
        version,
        protocol: protocol(&["domainMetadata", "inCommitTimestamp"]),
        metadata: metadata("id-0", 0),
        file_stats_state: FileStatsState::Complete(FileStats {
            num_files: 0,
            table_size_bytes: 0,
            file_size_histogram: Some(
                FileSizeHistogram::create_empty_with_boundaries(vec![0, 8192, 16384]).unwrap(),
            ),
        }),
        domain_metadata_state: DomainMetadataState::Complete(StringMap::new()),
        set_transaction_state: SetTransactionState::Complete(StringMap::new()),
        in_commit_timestamp_opt: None,
    }
}

fn row_tracking_metadata() -> Metadata {
    let mut configuration = StringMap::new();
    configuration.insert("delta.enableRowTracking".to_string(), "true".to_string());
    Metadata { configuration, ..metadata("id-2", 2) }
}

/// Serves the commits of the table that the end-to-end tests read.
struct Table;

impl JsonHandler for Table {
    /// The location of a commit.
    type Data = String;

    fn parse_json(&self, json_strings: String, _output_schema: SchemaRef) -> DeltaResult<String> {
        Ok(json_strings)
    }

    fn read_json_files(
        &self,
        files: &Vec<FileMeta>,
        physical_schema: SchemaRef,
        predicate: Option<PredicateRef>,
    ) -> DeltaResult<Vec<DeltaResult<String>>> {
        assert_eq!(physical_schema.num_fields(), 8);
        assert!(predicate.is_none());
        Ok(files.iter().map(|f| Ok(f.location.clone())).collect())
    }

    fn write_json_file(
        &self,
        _path: &str,
        _data: Vec<DeltaResult<String>>,
        _overwrite: bool,
    ) -> DeltaResult<()> {
        Ok(())
    }
}

impl ReplayEngine for Table {
    fn read_crc_file(&self, file: &LogFile) -> Option<Crc> {
        Some(crc(file.version))
    }

    fn select_columns(
        &self,
        data: &String,
        names: &Vec<ColumnName>,
        types: &Vec<DataType>,
    ) -> DeltaResult<ColumnBatch> {
        assert_eq!((names.len(), types.len()), (25, 25));
        assert_eq!(names[3].to_text(), "add.size");
        Ok(batch(data, commit_rows(data)))
    }
}

fn commit_rows(location: &str) -> Vec<Row> {
    match location {
        "v1.json" => vec![
            Row { add_size: Some(100), ..row() },
            Row { add_size: Some(200), ..row() },
            Row { add_size: Some(10_000), ..row() },
            Row { add_size: Some(20_000), ..row() },
            Row {
                domain: Some("keep"),
                domain_configuration: Some("cfg"),
                domain_removed: Some(false),
                ..row()
            },
            Row {
                txn_app_id: Some("app1"),
                txn_version: Some(1),
                txn_last_updated: Some(1),
                ..row()
            },
            Row { operation: Some("WRITE"), ..row() },
        ],
        "v2.json" => vec![
            Row {
                protocol: Some(protocol(&["domainMetadata", "inCommitTimestamp", "rowTracking"])),
                ..row()
            },
            Row { metadata: Some(row_tracking_metadata()), ..row() },
            Row { remove_path: Some("a"), remove_size: Some(100), ..row() },
            Row {
                domain: Some("drop"),
                domain_configuration: Some(""),
                domain_removed: Some(true),
                ..row()
            },
            Row {
                txn_app_id: Some("app2"),
                txn_version: Some(5),
                txn_last_updated: Some(2),
                ..row()
            },
            Row {
                operation: Some("WRITE"),
                in_commit_timestamp: Some(9999),
                ..row()
            },
        ],
        other => panic!("unexpected commit {other}"),
    }
}

fn assert_is_version_two(crc: &Crc) {
    assert_eq!(crc.version, 2);
    assert_eq!(crc.protocol.min_writer_version, 7);
    assert_eq!(
        crc.protocol.writer_features.as_ref().unwrap(),
        &["domainMetadata", "inCommitTimestamp", "rowTracking"]
    );
    assert_eq!(crc.metadata.id, "id-2");
    assert_eq!(crc.metadata.configuration.get("delta.enableRowTracking").unwrap(), "true");
    assert_eq!(crc.in_commit_timestamp_opt, Some(9999));

    let DomainMetadataState::Complete(dm) = &crc.domain_metadata_state else {
        panic!("the domains must be complete");
    };
    assert_eq!(dm.get("keep").unwrap().configuration(), "cfg");
    assert!(!dm.contains_key("drop"));

    let SetTransactionState::Complete(txn) = &crc.set_transaction_state else {
        panic!("the transactions must be complete");
    };
    assert_eq!(txn.get("app1").unwrap().version, 1);
    assert_eq!(txn.get("app2").unwrap().version, 5);

    let FileStatsState::Complete(stats) = &crc.file_stats_state else {
        panic!("the file statistics must be complete");
    };
    assert_eq!(stats.num_files, 3);
    assert_eq!(stats.table_size_bytes, 30_200);
    let hist = stats.file_size_histogram.as_ref().unwrap();
    assert_eq!(hist.file_counts()[0], 1);
    assert_eq!(hist.total_bytes()[0], 200);
    assert_eq!(hist.file_counts()[1], 1);
    assert_eq!(hist.total_bytes()[1], 10_000);
    assert_eq!(hist.file_counts()[2], 1);
    assert_eq!(hist.total_bytes()[2], 20_000);
}

#[test]
fn end_to_end_smoke_full_coverage() {
    let advanced = segment(2, None)
        .build_incremental_crc_from_base(&Table, crc(0), safe_operations())
        .unwrap();
    assert_is_version_two(&advanced);
}

#[test]
fn replaying_in_two_steps_gives_the_same_checksum() {
    let seed = || FileSizeHistogram::create_empty_with_boundaries(vec![0, 8192, 16384]).ok();
    let commit = |location: &str| Ok(batch(location, commit_rows(location)));
    let change = |batches| fold_batches(batches, seed(), safe_operations()).unwrap();

    let both = change(vec![commit("v2.json"), commit("v1.json")]);
    let once = crc(0).apply(both, 2);
    let older = change(vec![commit("v1.json")]);
    let newer = change(vec![commit("v2.json")]);
    let twice = crc(0).apply(older, 1).apply(newer, 2);

    assert_is_version_two(&once);
    assert_is_version_two(&twice);
}

#[test]
fn build_incremental_crc_delta_errors_when_base_version_geq_end_version() {
    for base in [0, 5] {
        let result = segment(0, None).build_incremental_crc_delta(
            &Table,
            base,
            None,
            safe_operations(),
        );
        assert_eq!(
            assert_result_error_with_message(result, "must be strictly less than end_version"),
            Ok(())
        );
    }
}

#[test]
fn a_gap_after_the_base_is_an_error() {
    let mut holey = segment(2, None);
    holey.ascending_commit_files.remove(1);
    let result = holey.build_incremental_crc_delta(&Table, 0, None, safe_operations());
    assert_eq!(
        result.unwrap_err().to_text(),
        "build_incremental_crc_delta: segment is missing commit 1 (lowest commit above base_version is Some(2))"
    );
}

#[test]
fn files_are_replayed_from_the_newest_to_the_oldest() {
    let files = segment(3, None).replay_files(1).unwrap();
    let locations: Vec<&str> = files.iter().map(|f| f.location.as_str()).collect();
    assert_eq!(locations, ["v3.json", "v2.json"]);
}

#[test]
fn a_failed_batch_fails_the_replay() {
    let batches = vec![
        Ok(batch("v2.json", commit_rows("v2.json"))),
        Err(Error::generic("cannot read".to_string())),
    ];
    let result = fold_batches(batches, None, safe_operations());
    assert_eq!(result.unwrap_err().to_text(), "Generic delta kernel error: cannot read");
}

#[test]
fn the_checksum_file_is_the_base_where_it_is_newer() {
    let log = segment(2, Some(commit(0)));
    let built = log
        .try_build_incremental_crc(&Table, IncrementalReplay::Unlimited, safe_operations())
        .unwrap()
        .unwrap();
    assert_is_version_two(&built);
}

#[test]
fn replay_stops_at_its_limit() {
    let log = segment(2, Some(commit(0)));
    for (limit, expected) in [(0, false), (1, false), (2, true)] {
        let built = log
            .try_build_incremental_crc(&Table, IncrementalReplay::UpTo(limit), safe_operations())
            .unwrap();
        assert_eq!(built.is_some(), expected, "limit {limit}");
    }
    let built = log
        .try_build_incremental_crc(&Table, IncrementalReplay::Disabled, safe_operations())
        .unwrap();
    assert!(built.is_none());
}

#[test]
fn a_base_at_the_end_is_kept_and_without_a_base_there_is_none() {
    let log = segment(2, None);
    let kept = log
        .try_build_incremental_crc_with_base(
            &Table,
            Some(crc(2)),
            IncrementalReplay::Disabled,
            safe_operations(),
        )
        .unwrap()
        .unwrap();
    assert_eq!(kept.metadata.id, "id-0");
    let none = log
        .try_build_incremental_crc(&Table, IncrementalReplay::Unlimited, safe_operations())
        .unwrap();
    assert!(none.is_none());
}

#[test]
fn an_older_checksum_file_does_not_replace_the_base_in_memory() {
    let log = segment(2, Some(commit(0)));
    let picked = log.pick_latest_base_crc(&Table, Some(crc(1))).unwrap();
    assert_eq!(picked.version, 1);
    let picked = log.pick_latest_base_crc(&Table, None).unwrap();
    assert_eq!(picked.version, 0);
}

#[test]
fn visit_rejects_a_wrong_number_of_columns() {
    let mut visitor = CrcReplayVisitor { acc: accumulator() };
    let mut wrong = columns("v1.json", &[]);
    wrong.truncate(3);
    let message = visitor.visit(0, &wrong).unwrap_err().to_text();
    assert!(message.contains("Wrong number of CrcReplayVisitor getters: 3"), "{message}");
}

#[test]
fn an_empty_batch_changes_nothing() {
    let mut visitor = CrcReplayVisitor { acc: accumulator() };
    visit(&mut visitor, "v1.json", vec![]).unwrap();
    assert!(visitor.acc.current_file_url.is_none());
    assert!(visitor.acc.is_first_commit);
}

#[test]
fn a_batch_without_a_file_is_an_error() {
    let mut visitor = CrcReplayVisitor { acc: accumulator() };
    let mut nameless = columns("v1.json", &[row()]);
    nameless[0] = ColumnData::Strings(vec![None]);
    let message = visitor.visit(1, &nameless).unwrap_err().to_text();
    assert_eq!(message, "Data missing for field _file");
}

#[test]
fn the_newest_protocol_and_metadata_win() {
    let mut visitor = CrcReplayVisitor { acc: accumulator() };
    visit(&mut visitor, "v2.json", commit_rows("v2.json")).unwrap();
    let older = Row {
        protocol: Some(protocol(&[])),
        metadata: Some(metadata("id-1", 1)),
        ..row()
    };
    visit(&mut visitor, "v1.json", vec![older]).unwrap();
    let delta = visitor.acc.into_crc_delta();
    assert_eq!(delta.metadata.unwrap().id, "id-2");
    assert_eq!(delta.protocol.unwrap().writer_features.unwrap().len(), 3);
}

#[test]
fn a_domain_without_configuration_is_an_error() {
    let mut visitor = CrcReplayVisitor { acc: accumulator() };
    let bad = Row { domain: Some("d"), ..row() };
    let message = visit(&mut visitor, "v1.json", vec![bad]).unwrap_err().to_text();
    assert_eq!(message, "Data missing for field domainMetadata.configuration");
}

#[test]
fn a_transaction_without_version_is_an_error() {
    let mut visitor = CrcReplayVisitor { acc: accumulator() };
    let bad = Row { txn_app_id: Some("a"), ..row() };
    let message = visit(&mut visitor, "v1.json", vec![bad]).unwrap_err().to_text();
    assert_eq!(message, "Data missing for field txn.version");
}

#[test]
fn all_columns_of_protocol_and_metadata_are_read() {
    let mut visitor = CrcReplayVisitor { acc: accumulator() };
    let full = Metadata {
        name: Some("n".to_string()),
        description: Some("d".to_string()),
        partition_columns: vec!["p".to_string()],
        ..row_tracking_metadata()
    };
    let rows = vec![Row { protocol: Some(protocol(&["f"])), metadata: Some(full), ..row() }];
    visit(&mut visitor, "v1.json", rows).unwrap();
    let delta = visitor.acc.into_crc_delta();
    let protocol = delta.protocol.unwrap();
    assert_eq!((protocol.min_reader_version, protocol.min_writer_version), (3, 7));
    assert_eq!(protocol.reader_features.unwrap().len(), 0);
    assert_eq!(protocol.writer_features.unwrap(), ["f"]);
    let metadata = delta.metadata.unwrap();
    assert_eq!(metadata.id, "id-2");
    assert_eq!(metadata.name.as_deref(), Some("n"));
    assert_eq!(metadata.description.as_deref(), Some("d"));
    assert_eq!(metadata.format.provider, "parquet");
    assert!(metadata.format.options.is_empty());
    assert_eq!(metadata.schema_string, "{\"type\":\"struct\",\"fields\":[]}");
    assert_eq!(metadata.partition_columns, ["p"]);
    assert_eq!(metadata.created_time, Some(2));
    assert_eq!(metadata.configuration.get("delta.enableRowTracking").unwrap(), "true");
}

#[test]
fn the_first_column_of_another_type_is_reported() {
    for (column, field) in [
        (0, "_file"),
        (1, "commitInfo.operation"),
        (3, "add.size"),
        (6, "domainMetadata.domain"),
        (9, "txn.appId"),
        (12, "protocol.minReaderVersion"),
        (16, "metaData.id"),
    ] {
        let mut visitor = CrcReplayVisitor { acc: accumulator() };
        let mut wrong = columns("v1.json", &[row()]);
        wrong[column] = ColumnData::Maps(vec![None]);
        let message = visitor.visit(1, &wrong).unwrap_err().to_text();
        assert_eq!(message, format!("Generic delta kernel error: Unexpected column type for field {field}"));
    }
}

#[test]
fn a_column_that_no_action_needs_is_not_read() {
    let mut visitor = CrcReplayVisitor { acc: accumulator() };
    let mut wrong = columns("v1.json", &[row()]);
    wrong[5] = ColumnData::Maps(vec![None]);
    visitor.visit(1, &wrong).unwrap();
}

#[test]
fn the_columns_of_a_batch_have_its_rows() {
    assert!(ColumnBatch::try_new(2, columns("v1.json", &[row()])).is_none());
    let batch = ColumnBatch::try_new(1, columns("v1.json", &[row()])).unwrap();
    assert_eq!(batch.row_count(), 1);
    assert_eq!(batch.columns().len(), N_FIXED_COLS + N_PROTOCOL_LEAVES + N_METADATA_LEAVES);
}

#[test]
fn a_change_is_trusted_if_each_commit_that_changes_files_names_a_safe_operation() {
    let write = || Row { operation: Some("WRITE"), ..row() };
    let add = |size| Row { add_size: Some(size), ..row() };
    let remove = |size| Row { remove_path: Some("p"), remove_size: size, ..row() };
    let change = |batches: Vec<ColumnBatch>| {
        fold_batches(batches.into_iter().map(Ok).collect(), None, safe_operations()).unwrap()
    };

    let trusted = change(vec![
        batch("v2.json", vec![add(10), remove(Some(4))]),
        batch("v2.json", vec![write()]),
        batch("v1.json", vec![write(), add(20)]),
    ]);
    assert!(trusted.is_incremental_safe);
    assert_eq!(trusted.file_stats.net_files(), 1);
    assert_eq!(trusted.file_stats.net_bytes(), 26);

    let nameless = change(vec![batch("v2.json", vec![write()]), batch("v1.json", vec![add(1)])]);
    assert!(!nameless.is_incremental_safe);
    let sizeless = change(vec![batch("v1.json", vec![write(), remove(None)])]);
    assert!(!sizeless.is_incremental_safe);
}

#[test]
fn an_untrusted_change_loses_the_file_statistics() {
    let mut acc = accumulator();
    acc.on_remove("p", None).unwrap();
    let applied = crc(0).apply(acc.into_crc_delta(), 1);
    assert!(matches!(applied.file_stats_state, FileStatsState::Indeterminate));
}

#[test]
fn domains_that_are_not_tracked_stay_so() {
    let mut base = crc(0);
    base.domain_metadata_state = DomainMetadataState::Untracked;
    base.set_transaction_state = SetTransactionState::Untracked;
    let mut acc = accumulator();
    acc.on_domain_metadata("d".into(), "v".into(), false);
    let applied = base.apply(acc.into_crc_delta(), 1);
    assert!(matches!(applied.domain_metadata_state, DomainMetadataState::Untracked));
    assert!(matches!(applied.set_transaction_state, SetTransactionState::Untracked));
}

#[test]
fn histograms_reject_bad_boundaries_and_out_of_range_sizes() {
    for boundaries in [vec![], vec![1, 2], vec![0, 5, 5]] {
        assert!(FileSizeHistogram::create_empty_with_boundaries(boundaries).is_err());
    }
    let mut hist = FileSizeHistogram::create_empty_with_boundaries(vec![0, 10]).unwrap();
    assert!(hist.insert(-1).is_err());
    hist.insert(10).unwrap();
    assert_eq!(hist.file_counts(), &[0, 1]);
    hist.remove(10).unwrap();
    assert_eq!(hist.file_counts(), &[0, 0]);
    assert_eq!(hist.total_bytes(), &[0, 0]);
}

#[test]
fn actions_are_what_they_were_made_of() {
    let domain = DomainMetadata::remove("d".to_string(), "c".to_string());
    assert!(domain.is_removed());
    let txn = SetTransaction::new("a".to_string(), 4, None);
    assert_eq!((txn.app_id.as_str(), txn.version, txn.last_updated), ("a", 4, None));
}

#[test]
fn batches_can_be_cut_anywhere() {
    let whole = |location: &str| Ok(batch(location, commit_rows(location)));
    let expected = fold_batches(vec![whole("v2.json"), whole("v1.json")], None, safe_operations());
    let expected = format!("{:?}", expected.unwrap());
    let len = commit_rows("v1.json").len();
    for cut in 0..=len {
        let mut first = commit_rows("v1.json");
        let second = first.split_off(cut);
        let batches = vec![
            whole("v2.json"),
            Ok(batch("v1.json", first)),
            Ok(batch("v1.json", second)),
        ];
        let delta = fold_batches(batches, None, safe_operations()).unwrap();
        assert_eq!(format!("{delta:?}"), expected, "cut at {cut}");
    }
}
