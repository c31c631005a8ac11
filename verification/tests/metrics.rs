use std::sync::Arc;

use delta_kernel_core::actions::FileMeta;
use delta_kernel_core::engine::JsonHandler;
use delta_kernel_core::error::{DeltaResult, Error};
use delta_kernel_core::metrics::attrs::{Attr, AttrValue};
use delta_kernel_core::metrics::events::{
    emit_json_read_completed, emit_parquet_read_completed, emit_scan_metadata_completed,
    storage_metric_from_attrs, CommitFailureReason, CrcReadSuccess, DomainMetadataLoadSuccess,
    JsonReadCompleted, LogSegmentLoadSuccess, MetricEvent, ParquetReadCompleted,
    ProtocolMetadataLoadSuccess, ScanMetadataCompleted, ScanType, SetTransactionLoadSuccess,
    SnapshotBuildSuccess, TransactionCommitSuccess,
};
use delta_kernel_core::metrics::id::MetricId;
use delta_kernel_core::metrics::read::{MeteredJsonHandler, PrecountedMetricsIterator};
use delta_kernel_core::plans::nodes::{PredicateRef, SchemaRef};
use delta_kernel_core::schema::{DataType, PrimitiveType, StructField, StructType};

fn commit_success(operation_id: MetricId) -> TransactionCommitSuccess {
    TransactionCommitSuccess {
        operation_id,
        commit_version: 1,
        num_add_files: 0,
        num_remove_files: 0,
        add_files_bytes: 0,
        remove_files_bytes: 0,
        is_blind_append: false,
        data_change: false,
        operation: None,
        prepare_duration: 0,
        committer_duration: 0,
        total_duration: 0,
    }
}

fn flips_to(value: &str, expected: CommitFailureReason) {
    let id = MetricId::new();
    let mut event = MetricEvent::TransactionCommitSuccess(commit_success(id));
    event.record_str("failure_reason", value).unwrap();
    let MetricEvent::TransactionCommitFailure(failure) = event else {
        panic!("expected TransactionCommitFailure");
    };
    assert_eq!(failure.operation_id, id);
    assert_eq!(failure.reason, expected);
}

#[test]
fn record_str_failure_reason_flips_to_conflict() {
    flips_to("conflict", CommitFailureReason::Conflict);
}

#[test]
fn record_str_failure_reason_flips_to_retryable_io() {
    flips_to("retryable_io", CommitFailureReason::RetryableIo);
}

#[test]
fn record_str_failure_reason_flips_to_error() {
    flips_to("error", CommitFailureReason::Error);
}

#[test]
fn record_str_failure_reason_unknown_defaults_to_error() {
    flips_to("totally_unknown", CommitFailureReason::Error);
}

#[test]
fn record_str_operation_sets_field_without_flipping() {
    let mut event = MetricEvent::TransactionCommitSuccess(commit_success(MetricId::new()));
    event.record_str("operation", "WRITE").unwrap();
    let MetricEvent::TransactionCommitSuccess(success) = event else {
        panic!("expected TransactionCommitSuccess");
    };
    assert_eq!(success.operation.as_deref(), Some("WRITE"));
}

#[test]
fn into_failure_maps_commit_success_to_error_reason() {
    let id = MetricId::new();
    let failure = MetricEvent::TransactionCommitSuccess(commit_success(id)).into_failure();
    let MetricEvent::TransactionCommitFailure(failure) = failure else {
        panic!("expected TransactionCommitFailure");
    };
    assert_eq!(failure.operation_id, id);
    assert_eq!(failure.reason, CommitFailureReason::Error);
}

#[test]
fn the_first_failure_reason_stays() {
    let mut event = MetricEvent::TransactionCommitSuccess(commit_success(MetricId::new()));
    event.record_str("failure_reason", "conflict").unwrap();
    let _ = event.record_str("failure_reason", "error");
    let MetricEvent::TransactionCommitFailure(failure) = event.into_failure() else {
        panic!("expected TransactionCommitFailure");
    };
    assert_eq!(failure.reason, CommitFailureReason::Conflict);
}

fn text_attr(name: &str, text: &str) -> Attr {
    Attr { name: name.to_string(), value: AttrValue::Other, debug: text.to_string() }
}

fn str_attr(name: &str, text: &str) -> Attr {
    Attr {
        name: name.to_string(),
        value: AttrValue::Str(text.to_string()),
        debug: format!("{text:?}"),
    }
}

fn u64_attr(name: &str, value: u64) -> Attr {
    Attr { name: name.to_string(), value: AttrValue::U64(value), debug: value.to_string() }
}

const ID: &str = "67e55044-10b1-426f-9247-bb680e5fe0c8";

#[test]
fn identifiers_are_read_from_attributes() {
    let id = MetricId::from_attrs(&vec![text_attr("operation_id", ID)]);
    assert_eq!(id.0, 0x67e55044_10b1_426f_9247_bb680e5fe0c8);
    assert_eq!(id.to_text(), ID);
    assert_eq!(MetricId::from_attrs(&vec![text_attr("other", ID)]), MetricId(0));
    assert_eq!(MetricId::from_attrs(&vec![text_attr("operation_id", "no id")]), MetricId(0));
    let attrs = vec![text_attr("operation_id", ID), text_attr("operation_id", "no id")];
    assert_eq!(MetricId::from_attrs(&attrs), id);
}

#[test]
fn new_identifiers_are_random_uuids() {
    let a = MetricId::new();
    let b = MetricId::default();
    assert_ne!(a, b);
    for id in [a, b] {
        let text = id.to_text();
        assert_eq!(text.len(), 36);
        assert_eq!(&text[14..15], "4");
        assert_eq!(uuid::Uuid::from_u128(id.0).to_string(), text);
        assert_eq!(MetricId::from_attrs(&vec![text_attr("operation_id", &text)]), id);
    }
}

#[test]
fn a_log_segment_event_is_opened_recorded_and_closed() {
    let attrs = vec![text_attr("operation_id", ID)];
    let mut event =
        MetricEvent::LogSegmentLoadSuccess(LogSegmentLoadSuccess::from_attrs(&attrs));
    event.record_u64("num_commit_files", 3).unwrap();
    event.record_u64("num_checkpoint_files", 2).unwrap();
    event.record_u64("num_compaction_files", 1).unwrap();
    event.record_bool("has_latest_crc_file", true).unwrap();
    assert!(event.record_u64("nonsense", 1).is_err());
    assert!(event.record_bool("nonsense", true).is_err());
    event.set_duration_if_applicable(1_500_000);
    assert_eq!(
        event.to_text(),
        format!(
            "LogSegmentLoadSuccess(id={ID}, duration=1.5ms, commits=3, checkpoints=2, compactions=1, has_latest_crc=true)"
        )
    );
    assert_eq!(event.into_failure().to_text(), format!("LogSegmentLoadFailure(id={ID})"));
}

#[test]
fn a_commit_event_writes_its_operation_in_quotes() {
    let mut event = MetricEvent::TransactionCommitSuccess(TransactionCommitSuccess::from_attrs(
        &vec![text_attr("operation_id", ID)],
    ));
    assert!(event.to_text().contains("operation=None"), "{}", event.to_text());
    event.record_str("operation", "WRI\"TE").unwrap();
    event.record_u64("num_add_files", 2).unwrap();
    event.record_bool("is_blind_append", true).unwrap();
    event.set_duration_if_applicable(2_000_000_000);
    let text = event.to_text();
    assert!(text.contains("operation=Some(\"WRI\\\"TE\")"), "{text}");
    assert!(text.contains("2s"), "{text}");
}

#[test]
fn every_success_turns_into_its_failure() {
    let attrs = vec![text_attr("operation_id", ID)];
    let pairs = [
        (
            MetricEvent::ProtocolMetadataLoadSuccess(ProtocolMetadataLoadSuccess::from_attrs(
                &attrs,
            )),
            "ProtocolMetadataLoadFailure",
        ),
        (
            MetricEvent::SnapshotBuildSuccess(SnapshotBuildSuccess::from_attrs(&attrs)),
            "SnapshotBuildFailure",
        ),
        (
            MetricEvent::DomainMetadataLoadSuccess(DomainMetadataLoadSuccess::from_attrs(&attrs)),
            "DomainMetadataLoadFailure",
        ),
        (
            MetricEvent::SetTransactionLoadSuccess(SetTransactionLoadSuccess::from_attrs(&attrs)),
            "SetTransactionLoadFailure",
        ),
        (MetricEvent::CrcReadSuccess(CrcReadSuccess::from_attrs(&attrs)), "CrcReadFailure"),
    ];
    for (event, expected) in pairs {
        let text = event.into_failure().to_text();
        assert!(text.contains(expected), "{text}");
    }
}

#[test]
fn events_that_cannot_fail_stay() {
    let event = MetricEvent::JsonReadCompleted(JsonReadCompleted { num_files: 2, bytes_read: 9 });
    assert!(matches!(event.into_failure(), MetricEvent::JsonReadCompleted(_)));
}

#[test]
fn storage_events_are_told_apart_by_name() {
    let attrs = |name: &str| {
        vec![
            str_attr("name", name),
            u64_attr("duration_ns", 7),
            u64_attr("num_files", 2),
            u64_attr("bytes_read", 30),
        ]
    };
    let read = storage_metric_from_attrs(&attrs("read_completed"));
    let Some(MetricEvent::StorageReadCompleted(read)) = read else {
        panic!("expected StorageReadCompleted, got {read:?}");
    };
    assert_eq!((read.duration, read.num_files, read.bytes_read), (7, 2, 30));
    assert!(matches!(
        storage_metric_from_attrs(&attrs("list_completed")),
        Some(MetricEvent::StorageListCompleted(_))
    ));
    assert!(matches!(
        storage_metric_from_attrs(&attrs("copy_completed")),
        Some(MetricEvent::StorageCopyCompleted(_))
    ));
    assert!(storage_metric_from_attrs(&attrs("something else")).is_none());
    assert!(storage_metric_from_attrs(&vec![]).is_none());
}

#[test]
fn read_events_come_back_from_their_spans() {
    let json = JsonReadCompleted::from_attrs(&emit_json_read_completed(2, 150).attrs);
    assert_eq!((json.num_files, json.bytes_read), (2, 150));
    let parquet = ParquetReadCompleted::from_attrs(&emit_parquet_read_completed(4, 8).attrs);
    assert_eq!((parquet.num_files, parquet.bytes_read), (4, 8));
    assert_eq!(emit_json_read_completed(0, 0).name, JsonReadCompleted::SPAN_NAME);
    assert_eq!(emit_parquet_read_completed(0, 0).name, ParquetReadCompleted::SPAN_NAME);
}

#[test]
fn scan_events_come_back_from_their_spans() {
    let event = ScanMetadataCompleted {
        operation_id: MetricId::new(),
        scan_type: ScanType::ParallelPhase,
        duration: 1,
        num_add_files_seen: 2,
        num_active_add_files: 3,
        active_add_files_bytes: 4,
        num_remove_files_seen: 5,
        num_non_file_actions: 6,
        num_predicate_filtered: 7,
        peak_hash_set_size: 8,
        dedup_visitor_time_ms: 9,
        predicate_eval_time_ms: 10,
    };
    let span = emit_scan_metadata_completed(&event);
    assert_eq!(span.name, ScanMetadataCompleted::SPAN_NAME);
    let back = ScanMetadataCompleted::from_attrs(&span.attrs);
    assert_eq!(format!("{back:?}"), format!("{event:?}"));
}

#[test]
fn scan_types_are_parsed_from_their_texts() {
    for scan_type in [ScanType::SequentialPhase, ScanType::ParallelPhase, ScanType::Full] {
        assert_eq!(
            format!("{:?}", ScanType::parse(scan_type.as_text())),
            format!("{scan_type:?}")
        );
    }
    assert!(matches!(ScanType::parse("anything"), ScanType::Full));
}

#[test]
fn failure_reasons_are_parsed_from_their_texts() {
    for reason in [
        CommitFailureReason::Conflict,
        CommitFailureReason::RetryableIo,
        CommitFailureReason::Error,
    ] {
        assert_eq!(CommitFailureReason::parse(reason.as_text()), Some(reason));
    }
    assert_eq!(CommitFailureReason::parse("anything"), None);
}

#[derive(Debug)]
struct StubJsonHandler;

impl JsonHandler for StubJsonHandler {
    type Data = u8;

    fn parse_json(&self, json_strings: u8, _output_schema: SchemaRef) -> DeltaResult<u8> {
        Ok(json_strings + 1)
    }

    fn read_json_files(
        &self,
        _files: &Vec<FileMeta>,
        _physical_schema: SchemaRef,
        _predicate: Option<PredicateRef>,
    ) -> DeltaResult<Vec<DeltaResult<u8>>> {
        Ok(vec![])
    }

    fn write_json_file(
        &self,
        path: &str,
        _data: Vec<DeltaResult<u8>>,
        _overwrite: bool,
    ) -> DeltaResult<()> {
        Err(Error::generic(path.to_string()))
    }
}

fn fake_file(name: &str, size: u64) -> FileMeta {
    FileMeta { location: format!("memory:///_delta_log/{name}"), last_modified: 0, size }
}

fn delta_schema() -> SchemaRef {
    Arc::new(
        StructType::try_new(vec![StructField::nullable(
            "x",
            DataType::Primitive(PrimitiveType::Integer),
        )])
        .unwrap(),
    )
}

/// Takes an iterator to its end, or drops it at once, and returns the event that is emitted.
fn emitted<T>(mut iter: PrecountedMetricsIterator<Vec<T>>, consume: bool) -> JsonReadCompleted {
    let mut events = vec![];
    if consume {
        for _ in std::mem::take(&mut iter.inner) {
            events.extend(iter.after_next(false));
        }
        events.extend(iter.after_next(true));
        events.extend(iter.after_next(true));
    }
    events.extend(iter.on_drop());
    assert_eq!(events.len(), 1, "the event must be emitted exactly once");
    let (num_files, bytes_read) = events[0];
    JsonReadCompleted::from_attrs(&emit_json_read_completed(num_files, bytes_read).attrs)
}

#[test]
fn read_json_files_emits_json_read_completed() {
    let handler = MeteredJsonHandler::new(StubJsonHandler);
    let files = vec![fake_file("0.json", 100), fake_file("1.json", 50)];
    let iter = handler.read_json_files(&files, delta_schema(), None).unwrap();
    let e = emitted(iter, true);
    assert_eq!(e.num_files, 2);
    assert_eq!(e.bytes_read, 150);
}

#[test]
fn read_json_files_emits_on_drop_without_consumption() {
    let handler = MeteredJsonHandler::new(StubJsonHandler);
    let files = vec![fake_file("0.json", 100), fake_file("1.json", 50)];
    let iter = handler.read_json_files(&files, delta_schema(), None).unwrap();
    let e = emitted(iter, false);
    assert_eq!(e.num_files, 2);
    assert_eq!(e.bytes_read, 150);
}

#[test]
fn read_json_files_emits_zero_event_for_empty_input() {
    let handler = MeteredJsonHandler::new(StubJsonHandler);
    let iter = handler.read_json_files(&vec![], delta_schema(), None).unwrap();
    let e = emitted(iter, true);
    assert_eq!(e.num_files, 0);
    assert_eq!(e.bytes_read, 0);
}

#[test]
fn parsing_and_writing_pass_through() {
    let handler = MeteredJsonHandler::new(StubJsonHandler);
    assert_eq!(handler.parse_json(4, delta_schema()).unwrap(), 5);
    let result = handler.write_json_file("p", vec![], true);
    assert_eq!(result.unwrap_err().to_text(), "Generic delta kernel error: p");
}
