//! What holds of every metric event.

use vstd::prelude::*;

use crate::metrics::attrs::{last_text, last_u64, Attr};
use crate::metrics::events::{
    are_read_attrs, are_scan_attrs, CommitFailureReason, JsonReadCompleted, MetricEvent,
    ParquetReadCompleted, ScanMetadataCompleted, ScanType,
};
use crate::metrics::id::{id_candidates, last_id, MetricId};

verus! {

/// The id of the operation that an event belongs to, if it carries one.
pub open spec fn operation_of(event: MetricEvent) -> Option<MetricId> {
    match event {
        MetricEvent::LogSegmentLoadSuccess(e) => Some(e.operation_id),
        MetricEvent::LogSegmentLoadFailure(e) => Some(e.operation_id),
        MetricEvent::ProtocolMetadataLoadSuccess(e) => Some(e.operation_id),
        MetricEvent::ProtocolMetadataLoadFailure(e) => Some(e.operation_id),
        MetricEvent::SnapshotBuildSuccess(e) => Some(e.operation_id),
        MetricEvent::SnapshotBuildFailure(e) => Some(e.operation_id),
        MetricEvent::TransactionCommitSuccess(e) => Some(e.operation_id),
        MetricEvent::TransactionCommitFailure(e) => Some(e.operation_id),
        MetricEvent::ScanMetadataCompleted(e) => Some(e.operation_id),
        _ => None,
    }
}

/// A failure stays a failure, and it belongs to the same operation and span as the success.
pub proof fn law_failure_keeps_operation_and_span(event: MetricEvent)
    ensures
        event.failure().failure() == event.failure(),
        operation_of(event.failure()) == operation_of(event),
        event.failure().span_name() == event.span_name(),
{
}

/// A commit that failed for a reason has that reason, whatever is recorded after it.
pub proof fn law_first_failure_reason_stays(event: MetricEvent, first: Seq<char>, second: Seq<char>)
    ensures
        event.failed_because(first).failed_because(second) == event.failed_because(first),
        event.failed_because(first).failure() == event.failed_because(first).failure().failure(),
        event is TransactionCommitSuccess ==> event.failed_because(first).failure()
            == event.failed_because(first),
{
}

/// Recording and timing an event does not change which operation and span it belongs to.
pub proof fn law_recording_keeps_operation_and_span(
    event: MetricEvent,
    name: Seq<char>,
    n: u64,
    b: bool,
)
    ensures
        event.with_u64(name, n) is Some ==> operation_of(event.with_u64(name, n)->0)
            == operation_of(event) && event.with_u64(name, n)->0.span_name() == event.span_name(),
        event.with_bool(name, b) is Some ==> operation_of(event.with_bool(name, b)->0)
            == operation_of(event) && event.with_bool(name, b)->0.span_name() == event.span_name(),
        operation_of(event.with_duration(n)) == operation_of(event),
        event.with_duration(n).span_name() == event.span_name(),
{
}

/// The name of a failure reason denotes that reason.
pub proof fn law_failure_reason_round_trip(reason: CommitFailureReason)
    ensures
        CommitFailureReason::named(reason.text()) == Some(reason),
{
    reveal_strlit("conflict");
    reveal_strlit("retryable_io");
    reveal_strlit("error");
    assert("conflict"@.len() == 8);
    assert("retryable_io"@.len() == 12);
    assert("error"@.len() == 5);
}

/// The name of a scan type denotes that scan type.
pub proof fn law_scan_type_round_trip(scan_type: ScanType)
    ensures
        ScanType::named(scan_type.text()) == scan_type,
{
    reveal_strlit("sequential");
    reveal_strlit("parallel");
    reveal_strlit("full");
    assert("sequential"@.len() == 10);
    assert("parallel"@.len() == 8);
    assert("full"@.len() == 4);
}

/// The event that a read reports is the one that the attributes of its span give back.
pub proof fn law_read_event_round_trip(attrs: Seq<Attr>, num_files: u64, bytes_read: u64)
    requires
        are_read_attrs(attrs, num_files, bytes_read),
    ensures
        JsonReadCompleted::opened(attrs) == (JsonReadCompleted { num_files, bytes_read }),
        ParquetReadCompleted::opened(attrs) == (ParquetReadCompleted { num_files, bytes_read }),
{
    reveal_strlit("num_files");
    reveal_strlit("bytes_read");
    assert("num_files"@.len() == 9);
    assert("bytes_read"@.len() == 10);
    reveal_with_fuel(last_u64, 3);
}

proof fn lemma_last_u64_at(attrs: Seq<Attr>, name: Seq<char>, i: int)
    requires
        0 <= i < attrs.len(),
        attrs[i].name@ == name,
        attrs[i].value is U64,
        forall|j: int| i < j < attrs.len() ==> (#[trigger] attrs[j]).name@ != name,
    ensures
        last_u64(attrs, name) == attrs[i].value->U64_0,
    decreases attrs.len(),
{
    if i < attrs.len() - 1 {
        assert(attrs[attrs.len() - 1].name@ != name);
        lemma_last_u64_at(attrs.drop_last(), name, i);
    }
}

proof fn lemma_no_more_candidates(attrs: Seq<Attr>, n: int)
    requires
        0 <= n <= attrs.len(),
        forall|j: int| n <= j < attrs.len() ==> (#[trigger] attrs[j]).name@ != "operation_id"@,
    ensures
        id_candidates(attrs, false) == id_candidates(attrs.take(n), false),
    decreases attrs.len(),
{
    if n == attrs.len() {
        assert(attrs.take(n) =~= attrs);
    } else {
        assert(attrs[attrs.len() - 1].name@ != "operation_id"@);
        assert(attrs.drop_last().take(n) =~= attrs.take(n));
        lemma_no_more_candidates(attrs.drop_last(), n);
    }
}

proof fn lemma_last_text_at(attrs: Seq<Attr>, name: Seq<char>, i: int)
    requires
        0 <= i < attrs.len(),
        attrs[i].name@ == name,
        attrs[i].value !is U64,
        forall|j: int| i < j < attrs.len() ==> (#[trigger] attrs[j]).name@ != name,
    ensures
        last_text(attrs, name) == Some(attrs[i].debug@),
    decreases attrs.len(),
{
    if i < attrs.len() - 1 {
        assert(attrs[attrs.len() - 1].name@ != name);
        lemma_last_text_at(attrs.drop_last(), name, i);
    }
}

/// The event that a scan reports is the one that the attributes of its span give back.
pub proof fn law_scan_event_round_trip(attrs: Seq<Attr>, e: ScanMetadataCompleted)
    requires
        are_scan_attrs(attrs, e),
    ensures
        ScanMetadataCompleted::opened(attrs) == e,
{
    reveal_strlit("duration_ns");
    reveal_strlit("num_add_files_seen");
    reveal_strlit("num_active_add_files");
    reveal_strlit("active_add_files_bytes");
    reveal_strlit("num_remove_files_seen");
    reveal_strlit("num_non_file_actions");
    reveal_strlit("num_predicate_filtered");
    reveal_strlit("peak_hash_set_size");
    reveal_strlit("dedup_visitor_time_ms");
    reveal_strlit("predicate_eval_time_ms");
    reveal_strlit("operation_id");
    reveal_strlit("scan_type");
    assert("duration_ns"@.len() == 11);
    assert("num_add_files_seen"@.len() == 18);
    assert("num_active_add_files"@.len() == 20);
    assert("active_add_files_bytes"@.len() == 22);
    assert("num_remove_files_seen"@.len() == 21);
    assert("num_non_file_actions"@.len() == 20);
    assert("num_predicate_filtered"@.len() == 22);
    assert("peak_hash_set_size"@.len() == 18);
    assert("dedup_visitor_time_ms"@.len() == 21);
    assert("predicate_eval_time_ms"@.len() == 22);
    assert("operation_id"@.len() == 12);
    assert("scan_type"@.len() == 9);
    assert("num_add_files_seen"@[0] != "peak_hash_set_size"@[0]);
    assert("num_active_add_files"@[4] != "num_non_file_actions"@[4]);
    assert("active_add_files_bytes"@[0] != "num_predicate_filtered"@[0]);
    assert("active_add_files_bytes"@[0] != "predicate_eval_time_ms"@[0]);
    assert("num_remove_files_seen"@[0] != "dedup_visitor_time_ms"@[0]);
    assert("num_predicate_filtered"@[0] != "predicate_eval_time_ms"@[0]);
    lemma_last_u64_at(attrs, "duration_ns"@, 2);
    lemma_last_u64_at(attrs, "num_add_files_seen"@, 3);
    lemma_last_u64_at(attrs, "num_active_add_files"@, 4);
    lemma_last_u64_at(attrs, "active_add_files_bytes"@, 5);
    lemma_last_u64_at(attrs, "num_remove_files_seen"@, 6);
    lemma_last_u64_at(attrs, "num_non_file_actions"@, 7);
    lemma_last_u64_at(attrs, "num_predicate_filtered"@, 8);
    lemma_last_u64_at(attrs, "peak_hash_set_size"@, 9);
    lemma_last_u64_at(attrs, "dedup_visitor_time_ms"@, 10);
    lemma_last_u64_at(attrs, "predicate_eval_time_ms"@, 11);
    lemma_no_more_candidates(attrs, 1);
    assert(id_candidates(attrs.take(0), false) =~= Seq::empty());
    assert(attrs.take(1).drop_last() =~= attrs.take(0));
    assert(id_candidates(attrs.take(1), false) == Seq::<Option<u128>>::empty().push(
        Some(e.operation_id.0),
    ));
    assert(last_id(Seq::<Option<u128>>::empty().push(Some(e.operation_id.0))) == e.operation_id.0);
    lemma_last_text_at(attrs, "scan_type"@, 1);
    law_scan_type_round_trip(e.scan_type);
}

} // verus!
