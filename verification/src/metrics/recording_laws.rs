//! What recording, timing and failing does to an event, and which span an event opens.

use vstd::prelude::*;

use crate::metrics::attr_laws::{
    gives_number, gives_string, lemma_gives_number, lemma_gives_string,
};
use crate::metrics::attrs::Attr;
use crate::metrics::events::{
    emit_json_read_completed, emit_parquet_read_completed, emit_scan_metadata_completed,
    storage_metric_from_attrs, CommitFailureReason, JsonReadCompleted, MetricEvent,
    ParquetReadCompleted, ScanMetadataCompleted, ScanType, SpanRequest,
};
use crate::metrics::laws::operation_of;

verus! {

/// The number that an event holds under a name, among those that are recorded while its span is open.
pub open spec fn number_in(event: MetricEvent, name: Seq<char>) -> Option<u64> {
    match event {
        MetricEvent::LogSegmentLoadSuccess(e) => if name == "num_commit_files"@ {
            Some(e.num_commit_files)
        } else if name == "num_checkpoint_files"@ {
            Some(e.num_checkpoint_files)
        } else if name == "num_compaction_files"@ {
            Some(e.num_compaction_files)
        } else {
            None
        },
        MetricEvent::SnapshotBuildSuccess(e) => if name == "version"@ {
            Some(e.version)
        } else {
            None
        },
        MetricEvent::TransactionCommitSuccess(e) => if name == "num_add_files"@ {
            Some(e.num_add_files)
        } else if name == "num_remove_files"@ {
            Some(e.num_remove_files)
        } else if name == "add_files_bytes"@ {
            Some(e.add_files_bytes)
        } else if name == "remove_files_bytes"@ {
            Some(e.remove_files_bytes)
        } else if name == "prepare_duration_ns"@ {
            Some(e.prepare_duration)
        } else if name == "committer_duration_ns"@ {
            Some(e.committer_duration)
        } else {
            None
        },
        MetricEvent::DomainMetadataLoadSuccess(e) => if name == "num_domains_returned"@ {
            Some(e.num_domains_returned)
        } else {
            None
        },
        MetricEvent::CrcReadSuccess(e) => if name == "bytes_read"@ {
            Some(e.bytes_read)
        } else {
            None
        },
        _ => None,
    }
}

/// The truth value that an event holds under a name.
pub open spec fn truth_in(event: MetricEvent, name: Seq<char>) -> Option<bool> {
    match event {
        MetricEvent::LogSegmentLoadSuccess(e) => if name == "has_latest_crc_file"@ {
            Some(e.has_latest_crc_file)
        } else {
            None
        },
        MetricEvent::TransactionCommitSuccess(e) => if name == "is_blind_append"@ {
            Some(e.is_blind_append)
        } else if name == "data_change"@ {
            Some(e.data_change)
        } else {
            None
        },
        MetricEvent::DomainMetadataLoadSuccess(e) => if name == "from_cache"@ {
            Some(e.from_cache)
        } else {
            None
        },
        MetricEvent::SetTransactionLoadSuccess(e) => if name == "from_cache"@ {
            Some(e.from_cache)
        } else if name == "found"@ {
            Some(e.found)
        } else {
            None
        },
        _ => None,
    }
}

/// The time that an event got when its span was closed, if it is one of those that get it then.
pub open spec fn time_of(event: MetricEvent) -> Option<u64> {
    match event {
        MetricEvent::LogSegmentLoadSuccess(e) => Some(e.duration),
        MetricEvent::ProtocolMetadataLoadSuccess(e) => Some(e.duration),
        MetricEvent::SnapshotBuildSuccess(e) => Some(e.duration),
        MetricEvent::TransactionCommitSuccess(e) => Some(e.total_duration),
        MetricEvent::DomainMetadataLoadSuccess(e) => Some(e.duration),
        MetricEvent::SetTransactionLoadSuccess(e) => Some(e.duration),
        MetricEvent::CrcReadSuccess(e) => Some(e.duration),
        _ => None,
    }
}

/// The number of the commit, and the operation that it was made by.
pub open spec fn commit_of(event: MetricEvent) -> Option<(u64, Option<String>)> {
    match event {
        MetricEvent::TransactionCommitSuccess(e) => Some((e.commit_version, e.operation)),
        _ => None,
    }
}

/// The name of the span that an event is carried by.
pub open spec fn span_of(event: MetricEvent) -> Seq<char> {
    if event is LogSegmentLoadSuccess || event is LogSegmentLoadFailure {
        "segment.for_snapshot"@
    } else if event is ProtocolMetadataLoadSuccess || event is ProtocolMetadataLoadFailure {
        "segment.read_metadata"@
    } else if event is SnapshotBuildSuccess || event is SnapshotBuildFailure {
        "snap.build"@
    } else if event is TransactionCommitSuccess || event is TransactionCommitFailure {
        "txn.commit"@
    } else if event is DomainMetadataLoadSuccess || event is DomainMetadataLoadFailure {
        "snap.get_domain_metadata"@
    } else if event is SetTransactionLoadSuccess || event is SetTransactionLoadFailure {
        "snap.get_app_id_version"@
    } else if event is CrcReadSuccess || event is CrcReadFailure {
        "crc_read_completed"@
    } else if event is JsonReadCompleted {
        "json_read_completed"@
    } else if event is ParquetReadCompleted {
        "parquet_read_completed"@
    } else if event is ScanMetadataCompleted {
        "scan.metadata_completed"@
    } else {
        "storage"@
    }
}

/// Are the two events alike in all but what is recorded or timed?
pub open spec fn same_kind(a: MetricEvent, b: MetricEvent) -> bool {
    &&& span_of(a) == span_of(b)
    &&& operation_of(a) == operation_of(b)
    &&& commit_of(a) == commit_of(b)
    &&& time_of(a) is Some <==> time_of(b) is Some
}

/// A number goes where its name says and leaves everything else as it was. A name that the event does not have is refused, and the error names the span.
pub proof fn law_recorded_number_is_held(
    event: &mut MetricEvent,
    name: &str,
    value: u64,
    r: Result<(), &'static str>,
)
    requires
        call_ensures(MetricEvent::record_u64, (event, name, value), r),
    ensures
        r is Ok <==> number_in(*old(event), name@) is Some,
        r is Ok ==> number_in(*final(event), name@) == Some(value),
        r is Ok ==> forall|other: Seq<char>|
            other != name@ ==> #[trigger] number_in(*final(event), other) == number_in(
                *old(event),
                other,
            ),
        r is Ok ==> forall|other: Seq<char>| #[trigger]
            truth_in(*final(event), other) == truth_in(*old(event), other),
        r is Ok ==> time_of(*final(event)) == time_of(*old(event)),
        r is Ok ==> same_kind(*final(event), *old(event)),
        r is Err ==> *final(event) == *old(event) && r->Err_0@ == span_of(*old(event)),
{
    lemma_names_differ();
}

/// A truth value goes where its name says and leaves everything else as it was. A name that the event does not have is refused, and the error names the span.
pub proof fn law_recorded_truth_is_held(
    event: &mut MetricEvent,
    name: &str,
    value: bool,
    r: Result<(), &'static str>,
)
    requires
        call_ensures(MetricEvent::record_bool, (event, name, value), r),
    ensures
        r is Ok <==> truth_in(*old(event), name@) is Some,
        r is Ok ==> truth_in(*final(event), name@) == Some(value),
        r is Ok ==> forall|other: Seq<char>|
            other != name@ ==> #[trigger] truth_in(*final(event), other) == truth_in(
                *old(event),
                other,
            ),
        r is Ok ==> forall|other: Seq<char>| #[trigger]
            number_in(*final(event), other) == number_in(*old(event), other),
        r is Ok ==> time_of(*final(event)) == time_of(*old(event)),
        r is Ok ==> same_kind(*final(event), *old(event)),
        r is Err ==> *final(event) == *old(event) && r->Err_0@ == span_of(*old(event)),
{
}

/// The time that its span was open is set in an event that has room for it, which keeps the rest. Other events stay as they are.
pub proof fn law_time_is_set(event: &mut MetricEvent, d: u64)
    requires
        call_ensures(MetricEvent::set_duration_if_applicable, (event, d), ()),
    ensures
        time_of(*old(event)) is Some ==> {
            &&& time_of(*final(event)) == Some(d)
            &&& same_kind(*final(event), *old(event))
            &&& forall|name: Seq<char>| #[trigger]
                number_in(*final(event), name) == number_in(*old(event), name)
            &&& forall|name: Seq<char>| #[trigger]
                truth_in(*final(event), name) == truth_in(*old(event), name)
        },
        time_of(*old(event)) is None ==> *final(event) == *old(event),
{
}

/// A failure reason makes a commit a failed one of the same operation. A reason that is not known is an error. Other events take no notice of it.
pub proof fn law_failure_reason_fails_the_commit(
    event: &mut MetricEvent,
    name: &str,
    reason: &str,
    r: Result<(), &'static str>,
)
    requires
        name@ == "failure_reason"@,
        call_ensures(MetricEvent::record_str, (event, name, reason), r),
    ensures
        r is Ok,
        match *old(event) {
            MetricEvent::TransactionCommitSuccess(e) => match *final(event) {
                MetricEvent::TransactionCommitFailure(f) => {
                    &&& f.operation_id == e.operation_id
                    &&& f.reason is Conflict <==> reason@ == "conflict"@
                    &&& f.reason is RetryableIo <==> reason@ == "retryable_io"@
                },
                _ => false,
            },
            _ => *final(event) == *old(event),
        },
{
    reveal_strlit("conflict");
    reveal_strlit("retryable_io");
    assert("conflict"@.len() == 8);
    assert("retryable_io"@.len() == 12);
}

/// A commit holds the operation that is recorded and keeps the rest. It refuses other strings; other events take no notice of any.
pub proof fn law_recorded_operation_is_held(
    event: &mut MetricEvent,
    name: &str,
    value: &str,
    r: Result<(), &'static str>,
)
    requires
        name@ != "failure_reason"@,
        call_ensures(MetricEvent::record_str, (event, name, value), r),
    ensures
        r is Err <==> *old(event) is TransactionCommitSuccess && name@ != "operation"@,
        r is Err ==> r->Err_0@ == "txn.commit"@,
        r is Err || !(*old(event) is TransactionCommitSuccess) ==> *final(event) == *old(event),
        r is Ok && *old(event) is TransactionCommitSuccess ==> {
            &&& commit_of(*final(event)) is Some
            &&& (commit_of(*final(event))->Some_0).0 == (commit_of(*old(event))->Some_0).0
            &&& (commit_of(*final(event))->Some_0).1 is Some
            &&& (commit_of(*final(event))->Some_0).1->Some_0@ == value@
            &&& operation_of(*final(event)) == operation_of(*old(event))
            &&& time_of(*final(event)) == time_of(*old(event))
            &&& forall|other: Seq<char>| #[trigger]
                number_in(*final(event), other) == number_in(*old(event), other)
            &&& forall|other: Seq<char>| #[trigger]
                truth_in(*final(event), other) == truth_in(*old(event), other)
        },
{
}

/// An event whose span ends in an error becomes the failure of the same operation. One that has no failure stays as it is.
pub proof fn law_failure_of_an_event(event: MetricEvent, r: MetricEvent)
    requires
        call_ensures(MetricEvent::into_failure, (event,), r),
    ensures
        time_of(event) is None ==> r == event,
        operation_of(r) == operation_of(event),
        span_of(r) == span_of(event),
        event is LogSegmentLoadSuccess ==> r is LogSegmentLoadFailure,
        event is ProtocolMetadataLoadSuccess ==> r is ProtocolMetadataLoadFailure,
        event is SnapshotBuildSuccess ==> r is SnapshotBuildFailure,
        event is TransactionCommitSuccess ==> r is TransactionCommitFailure
            && r->TransactionCommitFailure_0.reason is Error,
        event is DomainMetadataLoadSuccess ==> r is DomainMetadataLoadFailure,
        event is SetTransactionLoadSuccess ==> r is SetTransactionLoadFailure,
        event is CrcReadSuccess ==> r is CrcReadFailure,
{
}

/// The storage span carries a listing, a read or a copy, as its name says; the numbers are those of its attributes. No other name is known.
pub proof fn law_storage_event(attrs: Vec<Attr>, r: Option<MetricEvent>)
    requires
        call_ensures(storage_metric_from_attrs, (&attrs,), r),
    ensures
        match r {
            None => {
                ||| gives_string(attrs@, "name"@, None)
                ||| exists|s: Seq<char>|
                    {
                        &&& #[trigger] gives_string(attrs@, "name"@, Some(s))
                        &&& s != "list_completed"@
                        &&& s != "read_completed"@
                        &&& s != "copy_completed"@
                    }
            },
            Some(MetricEvent::StorageListCompleted(e)) => {
                &&& gives_string(attrs@, "name"@, Some("list_completed"@))
                &&& gives_number(attrs@, "duration_ns"@, e.duration)
                &&& gives_number(attrs@, "num_files"@, e.num_files)
            },
            Some(MetricEvent::StorageReadCompleted(e)) => {
                &&& gives_string(attrs@, "name"@, Some("read_completed"@))
                &&& gives_number(attrs@, "duration_ns"@, e.duration)
                &&& gives_number(attrs@, "num_files"@, e.num_files)
                &&& gives_number(attrs@, "bytes_read"@, e.bytes_read)
            },
            Some(MetricEvent::StorageCopyCompleted(e)) => {
                &&& gives_string(attrs@, "name"@, Some("copy_completed"@))
                &&& gives_number(attrs@, "duration_ns"@, e.duration)
            },
            _ => false,
        },
{
    lemma_gives_string(attrs@, "name"@);
    lemma_gives_number(attrs@, "duration_ns"@);
    lemma_gives_number(attrs@, "num_files"@);
    lemma_gives_number(attrs@, "bytes_read"@);
}

/// What a reader says of its files comes out of the span that it asks for.
pub proof fn law_reads_are_reported(
    num_files: u64,
    bytes_read: u64,
    json: SpanRequest,
    json_event: JsonReadCompleted,
    parquet: SpanRequest,
    parquet_event: ParquetReadCompleted,
)
    requires
        call_ensures(emit_json_read_completed, (num_files, bytes_read), json),
        call_ensures(JsonReadCompleted::from_attrs, (&json.attrs,), json_event),
        call_ensures(emit_parquet_read_completed, (num_files, bytes_read), parquet),
        call_ensures(ParquetReadCompleted::from_attrs, (&parquet.attrs,), parquet_event),
    ensures
        json.name@ == span_of(MetricEvent::JsonReadCompleted(json_event)),
        json_event.num_files == num_files,
        json_event.bytes_read == bytes_read,
        parquet.name@ == span_of(MetricEvent::ParquetReadCompleted(parquet_event)),
        parquet_event.num_files == num_files,
        parquet_event.bytes_read == bytes_read,
{
    crate::metrics::laws::law_read_event_round_trip(json.attrs@, num_files, bytes_read);
    crate::metrics::laws::law_read_event_round_trip(parquet.attrs@, num_files, bytes_read);
}

/// What is said of a scan comes out of the span that is asked for.
pub proof fn law_scans_are_reported(
    e: &ScanMetadataCompleted,
    span: SpanRequest,
    r: ScanMetadataCompleted,
)
    requires
        call_ensures(emit_scan_metadata_completed, (e,), span),
        call_ensures(ScanMetadataCompleted::from_attrs, (&span.attrs,), r),
    ensures
        r == *e,
        span.name@ == span_of(MetricEvent::ScanMetadataCompleted(r)),
{
    crate::metrics::laws::law_scan_event_round_trip(span.attrs@, *e);
}

/// Reasons and scan types are told by their names, and known again by them. A name that is not known is no reason, and a full scan.
pub proof fn law_names_of_reasons_and_scans(
    reason: CommitFailureReason,
    scan: ScanType,
    name: &'static str,
    scan_name: &'static str,
    text: &str,
    r: Option<CommitFailureReason>,
    s: ScanType,
)
    requires
        call_ensures(CommitFailureReason::as_text, (&reason,), name),
        call_ensures(ScanType::as_text, (&scan,), scan_name),
        call_ensures(CommitFailureReason::parse, (text,), r),
        call_ensures(ScanType::parse, (text,), s),
    ensures
        reason is Conflict ==> name@ == "conflict"@,
        reason is RetryableIo ==> name@ == "retryable_io"@,
        reason is Error ==> name@ == "error"@,
        scan is SequentialPhase ==> scan_name@ == "sequential"@,
        scan is ParallelPhase ==> scan_name@ == "parallel"@,
        scan is Full ==> scan_name@ == "full"@,
        text@ == name@ ==> r == Some(reason),
        text@ == scan_name@ ==> s == scan,
        r is None <==> text@ != "conflict"@ && text@ != "retryable_io"@ && text@ != "error"@,
        s is Full <==> text@ != "sequential"@ && text@ != "parallel"@,
{
    crate::metrics::laws::law_failure_reason_round_trip(reason);
    crate::metrics::laws::law_scan_type_round_trip(scan);
}

proof fn lemma_names_differ()
    ensures
        "num_commit_files"@ != "num_checkpoint_files"@,
        "num_commit_files"@ != "num_compaction_files"@,
        "num_checkpoint_files"@ != "num_compaction_files"@,
{
    reveal_strlit("num_commit_files");
    reveal_strlit("num_checkpoint_files");
    reveal_strlit("num_compaction_files");
    assert("num_commit_files"@.len() == 16);
    assert("num_checkpoint_files"@.len() == 20);
    assert("num_checkpoint_files"@[5] != "num_compaction_files"@[5]);
}

} // verus!
