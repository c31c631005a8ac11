//! What the text of an event says of it.

use vstd::prelude::*;

use crate::metrics::events::{
    bool_text, duration_debug, opt_debug, str_debug, CommitFailureReason, CrcReadSuccess,
    DomainMetadataLoadSuccess, JsonReadCompleted, LogSegmentLoadFailure, LogSegmentLoadSuccess,
    MetricEvent, ParquetReadCompleted, ProtocolMetadataLoadFailure, ProtocolMetadataLoadSuccess,
    ScanMetadataCompleted, ScanType, SetTransactionLoadSuccess, SnapshotBuildFailure,
    SnapshotBuildSuccess, StorageCopyCompleted, StorageListCompleted, StorageReadCompleted,
    TransactionCommitFailure, TransactionCommitSuccess,
};
use crate::metrics::id::uuid_text;
use crate::text::{decimal, opt_text};

verus! {

/// Does the text say the value directly behind the label?
pub open spec fn says(text: Seq<char>, label: Seq<char>, value: Seq<char>) -> bool {
    exists|before: Seq<char>, after: Seq<char>| text == #[trigger] (before + label + value + after)
}

/// A truth value in words.
pub open spec fn yes_or_no(b: bool) -> Seq<char> {
    if b {
        "true"@
    } else {
        "false"@
    }
}

proof fn lemma_says_longer(text: Seq<char>, end: Seq<char>)
    ensures
        forall|l: Seq<char>, v: Seq<char>| says(text, l, v) ==> #[trigger] says(text + end, l, v),
{
    assert forall|l: Seq<char>, v: Seq<char>| says(text, l, v) implies #[trigger] says(
        text + end,
        l,
        v,
    ) by {
        let (before, after) = choose|before: Seq<char>, after: Seq<char>|
            text == #[trigger] (before + l + v + after);
        assert(text + end =~= before + l + v + (after + end));
    }
}

proof fn lemma_says_more(text: Seq<char>, label: Seq<char>, value: Seq<char>)
    ensures
        says(text + label + value, label, value),
        forall|l: Seq<char>, v: Seq<char>|
            says(text, l, v) ==> #[trigger] says(text + label + value, l, v),
{
    assert(text + label + value =~= text + label + value + Seq::<char>::empty());
    lemma_says_longer(text, label + value);
    assert(text + label + value =~= text + (label + value));
}

/// The text of such an event names the kind of the event and gives each part of it under its label.
pub proof fn law_text_of_log_segment_load_success(e: &LogSegmentLoadSuccess, event: &MetricEvent, r: String)
    requires
        *event == MetricEvent::LogSegmentLoadSuccess(*e),
        call_ensures(MetricEvent::to_text, (event,), r),
    ensures
        says(r@, "LogSegmentLoadSuccess(id="@, uuid_text(e.operation_id.0)),
        says(r@, ", duration="@, duration_debug(e.duration)),
        says(r@, ", commits="@, decimal(e.num_commit_files as nat)),
        says(r@, ", checkpoints="@, decimal(e.num_checkpoint_files as nat)),
        says(r@, ", compactions="@, decimal(e.num_compaction_files as nat)),
        says(r@, ", has_latest_crc="@, yes_or_no(e.has_latest_crc_file)),
{
    let text = "LogSegmentLoadSuccess(id="@ + uuid_text(e.operation_id.0);
    assert(text =~= Seq::empty() + "LogSegmentLoadSuccess(id="@ + uuid_text(e.operation_id.0));
    lemma_says_more(Seq::empty(), "LogSegmentLoadSuccess(id="@, uuid_text(e.operation_id.0));
    lemma_says_more(text, ", duration="@, duration_debug(e.duration));
    let text = text + ", duration="@ + duration_debug(e.duration);
    lemma_says_more(text, ", commits="@, decimal(e.num_commit_files as nat));
    let text = text + ", commits="@ + decimal(e.num_commit_files as nat);
    lemma_says_more(text, ", checkpoints="@, decimal(e.num_checkpoint_files as nat));
    let text = text + ", checkpoints="@ + decimal(e.num_checkpoint_files as nat);
    lemma_says_more(text, ", compactions="@, decimal(e.num_compaction_files as nat));
    let text = text + ", compactions="@ + decimal(e.num_compaction_files as nat);
    lemma_says_more(text, ", has_latest_crc="@, bool_text(e.has_latest_crc_file));
    let text = text + ", has_latest_crc="@ + bool_text(e.has_latest_crc_file);
    lemma_says_longer(text, ")"@);
}

/// The text of such an event names the kind of the event and gives each part of it under its label.
pub proof fn law_text_of_log_segment_load_failure(e: &LogSegmentLoadFailure, event: &MetricEvent, r: String)
    requires
        *event == MetricEvent::LogSegmentLoadFailure(*e),
        call_ensures(MetricEvent::to_text, (event,), r),
    ensures
        says(r@, "LogSegmentLoadFailure(id="@, uuid_text(e.operation_id.0)),
{
    let text = "LogSegmentLoadFailure(id="@ + uuid_text(e.operation_id.0);
    assert(text =~= Seq::empty() + "LogSegmentLoadFailure(id="@ + uuid_text(e.operation_id.0));
    lemma_says_more(Seq::empty(), "LogSegmentLoadFailure(id="@, uuid_text(e.operation_id.0));
    lemma_says_longer(text, ")"@);
}

/// The text of such an event names the kind of the event and gives each part of it under its label.
pub proof fn law_text_of_protocol_metadata_load_success(e: &ProtocolMetadataLoadSuccess, event: &MetricEvent, r: String)
    requires
        *event == MetricEvent::ProtocolMetadataLoadSuccess(*e),
        call_ensures(MetricEvent::to_text, (event,), r),
    ensures
        says(r@, "ProtocolMetadataLoadSuccess(id="@, uuid_text(e.operation_id.0)),
        says(r@, ", duration="@, duration_debug(e.duration)),
{
    let text = "ProtocolMetadataLoadSuccess(id="@ + uuid_text(e.operation_id.0);
    assert(text =~= Seq::empty() + "ProtocolMetadataLoadSuccess(id="@ + uuid_text(e.operation_id.0));
    lemma_says_more(Seq::empty(), "ProtocolMetadataLoadSuccess(id="@, uuid_text(e.operation_id.0));
    lemma_says_more(text, ", duration="@, duration_debug(e.duration));
    let text = text + ", duration="@ + duration_debug(e.duration);
    lemma_says_longer(text, ")"@);
}

/// The text of such an event names the kind of the event and gives each part of it under its label.
pub proof fn law_text_of_protocol_metadata_load_failure(e: &ProtocolMetadataLoadFailure, event: &MetricEvent, r: String)
    requires
        *event == MetricEvent::ProtocolMetadataLoadFailure(*e),
        call_ensures(MetricEvent::to_text, (event,), r),
    ensures
        says(r@, "ProtocolMetadataLoadFailure(id="@, uuid_text(e.operation_id.0)),
{
    let text = "ProtocolMetadataLoadFailure(id="@ + uuid_text(e.operation_id.0);
    assert(text =~= Seq::empty() + "ProtocolMetadataLoadFailure(id="@ + uuid_text(e.operation_id.0));
    lemma_says_more(Seq::empty(), "ProtocolMetadataLoadFailure(id="@, uuid_text(e.operation_id.0));
    lemma_says_longer(text, ")"@);
}

/// The text of such an event names the kind of the event and gives each part of it under its label.
pub proof fn law_text_of_snapshot_build_success(e: &SnapshotBuildSuccess, event: &MetricEvent, r: String)
    requires
        *event == MetricEvent::SnapshotBuildSuccess(*e),
        call_ensures(MetricEvent::to_text, (event,), r),
    ensures
        says(r@, "SnapshotBuildSuccess(id="@, uuid_text(e.operation_id.0)),
        says(r@, ", version="@, decimal(e.version as nat)),
        says(r@, ", duration="@, duration_debug(e.duration)),
{
    let text = "SnapshotBuildSuccess(id="@ + uuid_text(e.operation_id.0);
    assert(text =~= Seq::empty() + "SnapshotBuildSuccess(id="@ + uuid_text(e.operation_id.0));
    lemma_says_more(Seq::empty(), "SnapshotBuildSuccess(id="@, uuid_text(e.operation_id.0));
    lemma_says_more(text, ", version="@, decimal(e.version as nat));
    let text = text + ", version="@ + decimal(e.version as nat);
    lemma_says_more(text, ", duration="@, duration_debug(e.duration));
    let text = text + ", duration="@ + duration_debug(e.duration);
    lemma_says_longer(text, ")"@);
}

/// The text of such an event names the kind of the event and gives each part of it under its label.
pub proof fn law_text_of_snapshot_build_failure(e: &SnapshotBuildFailure, event: &MetricEvent, r: String)
    requires
        *event == MetricEvent::SnapshotBuildFailure(*e),
        call_ensures(MetricEvent::to_text, (event,), r),
    ensures
        says(r@, "SnapshotBuildFailure(id="@, uuid_text(e.operation_id.0)),
{
    let text = "SnapshotBuildFailure(id="@ + uuid_text(e.operation_id.0);
    assert(text =~= Seq::empty() + "SnapshotBuildFailure(id="@ + uuid_text(e.operation_id.0));
    lemma_says_more(Seq::empty(), "SnapshotBuildFailure(id="@, uuid_text(e.operation_id.0));
    lemma_says_longer(text, ")"@);
}

/// The text of such an event names the kind of the event and gives each part of it under its label.
pub proof fn law_text_of_transaction_commit_success(e: &TransactionCommitSuccess, event: &MetricEvent, r: String)
    requires
        *event == MetricEvent::TransactionCommitSuccess(*e),
        call_ensures(MetricEvent::to_text, (event,), r),
    ensures
        says(r@, "TransactionCommitSuccess(id="@, uuid_text(e.operation_id.0)),
        says(r@, ", version="@, decimal(e.commit_version as nat)),
        says(r@, ", total_duration="@, duration_debug(e.total_duration)),
        says(r@, ", prepare="@, duration_debug(e.prepare_duration)),
        says(r@, ", committer="@, duration_debug(e.committer_duration)),
        says(r@, ", add_files="@, decimal(e.num_add_files as nat)),
        says(r@, ", remove_files="@, decimal(e.num_remove_files as nat)),
        says(r@, ", add_bytes="@, decimal(e.add_files_bytes as nat)),
        says(r@, ", remove_bytes="@, decimal(e.remove_files_bytes as nat)),
        says(r@, ", is_blind_append="@, yes_or_no(e.is_blind_append)),
        says(r@, ", data_change="@, yes_or_no(e.data_change)),
        says(r@, ", operation="@, match e.operation {
                Some(name) => "Some("@ + str_debug(name@) + ")"@,
                None => "None"@,
            }),
{
    let text = "TransactionCommitSuccess(id="@ + uuid_text(e.operation_id.0);
    assert(text =~= Seq::empty() + "TransactionCommitSuccess(id="@ + uuid_text(e.operation_id.0));
    lemma_says_more(Seq::empty(), "TransactionCommitSuccess(id="@, uuid_text(e.operation_id.0));
    lemma_says_more(text, ", version="@, decimal(e.commit_version as nat));
    let text = text + ", version="@ + decimal(e.commit_version as nat);
    lemma_says_more(text, ", total_duration="@, duration_debug(e.total_duration));
    let text = text + ", total_duration="@ + duration_debug(e.total_duration);
    lemma_says_more(text, ", prepare="@, duration_debug(e.prepare_duration));
    let text = text + ", prepare="@ + duration_debug(e.prepare_duration);
    lemma_says_more(text, ", committer="@, duration_debug(e.committer_duration));
    let text = text + ", committer="@ + duration_debug(e.committer_duration);
    lemma_says_more(text, ", add_files="@, decimal(e.num_add_files as nat));
    let text = text + ", add_files="@ + decimal(e.num_add_files as nat);
    lemma_says_more(text, ", remove_files="@, decimal(e.num_remove_files as nat));
    let text = text + ", remove_files="@ + decimal(e.num_remove_files as nat);
    lemma_says_more(text, ", add_bytes="@, decimal(e.add_files_bytes as nat));
    let text = text + ", add_bytes="@ + decimal(e.add_files_bytes as nat);
    lemma_says_more(text, ", remove_bytes="@, decimal(e.remove_files_bytes as nat));
    let text = text + ", remove_bytes="@ + decimal(e.remove_files_bytes as nat);
    lemma_says_more(text, ", is_blind_append="@, bool_text(e.is_blind_append));
    let text = text + ", is_blind_append="@ + bool_text(e.is_blind_append);
    lemma_says_more(text, ", data_change="@, bool_text(e.data_change));
    let text = text + ", data_change="@ + bool_text(e.data_change);
    lemma_says_more(text, ", operation="@, opt_debug(opt_text(e.operation)));
    let text = text + ", operation="@ + opt_debug(opt_text(e.operation));
    lemma_says_longer(text, ")"@);
}

/// The text of such an event names the kind of the event and gives each part of it under its label.
pub proof fn law_text_of_transaction_commit_failure(e: &TransactionCommitFailure, event: &MetricEvent, r: String)
    requires
        *event == MetricEvent::TransactionCommitFailure(*e),
        call_ensures(MetricEvent::to_text, (event,), r),
    ensures
        says(r@, "TransactionCommitFailure(id="@, uuid_text(e.operation_id.0)),
        says(r@, ", reason="@, match e.reason {
                CommitFailureReason::Conflict => "conflict"@,
                CommitFailureReason::RetryableIo => "retryable_io"@,
                CommitFailureReason::Error => "error"@,
            }),
{
    let text = "TransactionCommitFailure(id="@ + uuid_text(e.operation_id.0);
    assert(text =~= Seq::empty() + "TransactionCommitFailure(id="@ + uuid_text(e.operation_id.0));
    lemma_says_more(Seq::empty(), "TransactionCommitFailure(id="@, uuid_text(e.operation_id.0));
    lemma_says_more(text, ", reason="@, e.reason.text());
    let text = text + ", reason="@ + e.reason.text();
    lemma_says_longer(text, ")"@);
}

/// The text of such an event names the kind of the event and gives each part of it under its label.
pub proof fn law_text_of_domain_metadata_load_success(e: &DomainMetadataLoadSuccess, event: &MetricEvent, r: String)
    requires
        *event == MetricEvent::DomainMetadataLoadSuccess(*e),
        call_ensures(MetricEvent::to_text, (event,), r),
    ensures
        says(r@, "DomainMetadataLoadSuccess(duration="@, duration_debug(e.duration)),
        says(r@, ", from_cache="@, yes_or_no(e.from_cache)),
        says(r@, ", num_domains_returned="@, decimal(e.num_domains_returned as nat)),
{
    let text = "DomainMetadataLoadSuccess(duration="@ + duration_debug(e.duration);
    assert(text =~= Seq::empty() + "DomainMetadataLoadSuccess(duration="@ + duration_debug(e.duration));
    lemma_says_more(Seq::empty(), "DomainMetadataLoadSuccess(duration="@, duration_debug(e.duration));
    lemma_says_more(text, ", from_cache="@, bool_text(e.from_cache));
    let text = text + ", from_cache="@ + bool_text(e.from_cache);
    lemma_says_more(text, ", num_domains_returned="@, decimal(e.num_domains_returned as nat));
    let text = text + ", num_domains_returned="@ + decimal(e.num_domains_returned as nat);
    lemma_says_longer(text, ")"@);
}

/// The text of such an event names the kind of the event and gives each part of it under its label.
pub proof fn law_text_of_set_transaction_load_success(e: &SetTransactionLoadSuccess, event: &MetricEvent, r: String)
    requires
        *event == MetricEvent::SetTransactionLoadSuccess(*e),
        call_ensures(MetricEvent::to_text, (event,), r),
    ensures
        says(r@, "SetTransactionLoadSuccess(duration="@, duration_debug(e.duration)),
        says(r@, ", from_cache="@, yes_or_no(e.from_cache)),
        says(r@, ", found="@, yes_or_no(e.found)),
{
    let text = "SetTransactionLoadSuccess(duration="@ + duration_debug(e.duration);
    assert(text =~= Seq::empty() + "SetTransactionLoadSuccess(duration="@ + duration_debug(e.duration));
    lemma_says_more(Seq::empty(), "SetTransactionLoadSuccess(duration="@, duration_debug(e.duration));
    lemma_says_more(text, ", from_cache="@, bool_text(e.from_cache));
    let text = text + ", from_cache="@ + bool_text(e.from_cache);
    lemma_says_more(text, ", found="@, bool_text(e.found));
    let text = text + ", found="@ + bool_text(e.found);
    lemma_says_longer(text, ")"@);
}

/// The text of such an event names the kind of the event and gives each part of it under its label.
pub proof fn law_text_of_crc_read_success(e: &CrcReadSuccess, event: &MetricEvent, r: String)
    requires
        *event == MetricEvent::CrcReadSuccess(*e),
        call_ensures(MetricEvent::to_text, (event,), r),
    ensures
        says(r@, "CrcReadSuccess(duration="@, duration_debug(e.duration)),
        says(r@, ", bytes="@, decimal(e.bytes_read as nat)),
{
    let text = "CrcReadSuccess(duration="@ + duration_debug(e.duration);
    assert(text =~= Seq::empty() + "CrcReadSuccess(duration="@ + duration_debug(e.duration));
    lemma_says_more(Seq::empty(), "CrcReadSuccess(duration="@, duration_debug(e.duration));
    lemma_says_more(text, ", bytes="@, decimal(e.bytes_read as nat));
    let text = text + ", bytes="@ + decimal(e.bytes_read as nat);
    lemma_says_longer(text, ")"@);
}

/// The text of such an event names the kind of the event and gives each part of it under its label.
pub proof fn law_text_of_json_read_completed(e: &JsonReadCompleted, event: &MetricEvent, r: String)
    requires
        *event == MetricEvent::JsonReadCompleted(*e),
        call_ensures(MetricEvent::to_text, (event,), r),
    ensures
        says(r@, "JsonReadCompleted(files="@, decimal(e.num_files as nat)),
        says(r@, ", bytes="@, decimal(e.bytes_read as nat)),
{
    let text = "JsonReadCompleted(files="@ + decimal(e.num_files as nat);
    assert(text =~= Seq::empty() + "JsonReadCompleted(files="@ + decimal(e.num_files as nat));
    lemma_says_more(Seq::empty(), "JsonReadCompleted(files="@, decimal(e.num_files as nat));
    lemma_says_more(text, ", bytes="@, decimal(e.bytes_read as nat));
    let text = text + ", bytes="@ + decimal(e.bytes_read as nat);
    lemma_says_longer(text, ")"@);
}

/// The text of such an event names the kind of the event and gives each part of it under its label.
pub proof fn law_text_of_parquet_read_completed(e: &ParquetReadCompleted, event: &MetricEvent, r: String)
    requires
        *event == MetricEvent::ParquetReadCompleted(*e),
        call_ensures(MetricEvent::to_text, (event,), r),
    ensures
        says(r@, "ParquetReadCompleted(files="@, decimal(e.num_files as nat)),
        says(r@, ", bytes="@, decimal(e.bytes_read as nat)),
{
    let text = "ParquetReadCompleted(files="@ + decimal(e.num_files as nat);
    assert(text =~= Seq::empty() + "ParquetReadCompleted(files="@ + decimal(e.num_files as nat));
    lemma_says_more(Seq::empty(), "ParquetReadCompleted(files="@, decimal(e.num_files as nat));
    lemma_says_more(text, ", bytes="@, decimal(e.bytes_read as nat));
    let text = text + ", bytes="@ + decimal(e.bytes_read as nat);
    lemma_says_longer(text, ")"@);
}

/// The text of such an event names the kind of the event and gives each part of it under its label.
pub proof fn law_text_of_scan_metadata_completed(e: &ScanMetadataCompleted, event: &MetricEvent, r: String)
    requires
        *event == MetricEvent::ScanMetadataCompleted(*e),
        call_ensures(MetricEvent::to_text, (event,), r),
    ensures
        says(r@, "ScanMetadataCompleted(id="@, uuid_text(e.operation_id.0)),
        says(r@, ", scan_type="@, match e.scan_type {
                ScanType::SequentialPhase => "sequential"@,
                ScanType::ParallelPhase => "parallel"@,
                ScanType::Full => "full"@,
            }),
        says(r@, ", duration="@, duration_debug(e.duration)),
        says(r@, ", add_files_seen="@, decimal(e.num_add_files_seen as nat)),
        says(r@, ", active_add_files="@, decimal(e.num_active_add_files as nat)),
        says(r@, ", active_add_files_bytes="@, decimal(e.active_add_files_bytes as nat)),
        says(r@, ", remove_files_seen="@, decimal(e.num_remove_files_seen as nat)),
        says(r@, ", non_file_actions="@, decimal(e.num_non_file_actions as nat)),
        says(r@, ", predicate_filtered="@, decimal(e.num_predicate_filtered as nat)),
        says(r@, ", peak_hash_set_size="@, decimal(e.peak_hash_set_size as nat)),
        says(r@, ", dedup_visitor_time_ms="@, decimal(e.dedup_visitor_time_ms as nat)),
        says(r@, ", predicate_eval_time_ms="@, decimal(e.predicate_eval_time_ms as nat)),
{
    let text = "ScanMetadataCompleted(id="@ + uuid_text(e.operation_id.0);
    assert(text =~= Seq::empty() + "ScanMetadataCompleted(id="@ + uuid_text(e.operation_id.0));
    lemma_says_more(Seq::empty(), "ScanMetadataCompleted(id="@, uuid_text(e.operation_id.0));
    lemma_says_more(text, ", scan_type="@, e.scan_type.text());
    let text = text + ", scan_type="@ + e.scan_type.text();
    lemma_says_more(text, ", duration="@, duration_debug(e.duration));
    let text = text + ", duration="@ + duration_debug(e.duration);
    lemma_says_more(text, ", add_files_seen="@, decimal(e.num_add_files_seen as nat));
    let text = text + ", add_files_seen="@ + decimal(e.num_add_files_seen as nat);
    lemma_says_more(text, ", active_add_files="@, decimal(e.num_active_add_files as nat));
    let text = text + ", active_add_files="@ + decimal(e.num_active_add_files as nat);
    lemma_says_more(text, ", active_add_files_bytes="@, decimal(e.active_add_files_bytes as nat));
    let text = text + ", active_add_files_bytes="@ + decimal(e.active_add_files_bytes as nat);
    lemma_says_more(text, ", remove_files_seen="@, decimal(e.num_remove_files_seen as nat));
    let text = text + ", remove_files_seen="@ + decimal(e.num_remove_files_seen as nat);
    lemma_says_more(text, ", non_file_actions="@, decimal(e.num_non_file_actions as nat));
    let text = text + ", non_file_actions="@ + decimal(e.num_non_file_actions as nat);
    lemma_says_more(text, ", predicate_filtered="@, decimal(e.num_predicate_filtered as nat));
    let text = text + ", predicate_filtered="@ + decimal(e.num_predicate_filtered as nat);
    lemma_says_more(text, ", peak_hash_set_size="@, decimal(e.peak_hash_set_size as nat));
    let text = text + ", peak_hash_set_size="@ + decimal(e.peak_hash_set_size as nat);
    lemma_says_more(text, ", dedup_visitor_time_ms="@, decimal(e.dedup_visitor_time_ms as nat));
    let text = text + ", dedup_visitor_time_ms="@ + decimal(e.dedup_visitor_time_ms as nat);
    lemma_says_more(text, ", predicate_eval_time_ms="@, decimal(e.predicate_eval_time_ms as nat));
    let text = text + ", predicate_eval_time_ms="@ + decimal(e.predicate_eval_time_ms as nat);
    lemma_says_longer(text, ")"@);
}

/// The text of such an event names the kind of the event and gives each part of it under its label.
pub proof fn law_text_of_storage_list_completed(e: &StorageListCompleted, event: &MetricEvent, r: String)
    requires
        *event == MetricEvent::StorageListCompleted(*e),
        call_ensures(MetricEvent::to_text, (event,), r),
    ensures
        says(r@, "StorageListCompleted(duration="@, duration_debug(e.duration)),
        says(r@, ", files="@, decimal(e.num_files as nat)),
{
    let text = "StorageListCompleted(duration="@ + duration_debug(e.duration);
    assert(text =~= Seq::empty() + "StorageListCompleted(duration="@ + duration_debug(e.duration));
    lemma_says_more(Seq::empty(), "StorageListCompleted(duration="@, duration_debug(e.duration));
    lemma_says_more(text, ", files="@, decimal(e.num_files as nat));
    let text = text + ", files="@ + decimal(e.num_files as nat);
    lemma_says_longer(text, ")"@);
}

/// The text of such an event names the kind of the event and gives each part of it under its label.
pub proof fn law_text_of_storage_read_completed(e: &StorageReadCompleted, event: &MetricEvent, r: String)
    requires
        *event == MetricEvent::StorageReadCompleted(*e),
        call_ensures(MetricEvent::to_text, (event,), r),
    ensures
        says(r@, "StorageReadCompleted(duration="@, duration_debug(e.duration)),
        says(r@, ", files="@, decimal(e.num_files as nat)),
        says(r@, ", bytes="@, decimal(e.bytes_read as nat)),
{
    let text = "StorageReadCompleted(duration="@ + duration_debug(e.duration);
    assert(text =~= Seq::empty() + "StorageReadCompleted(duration="@ + duration_debug(e.duration));
    lemma_says_more(Seq::empty(), "StorageReadCompleted(duration="@, duration_debug(e.duration));
    lemma_says_more(text, ", files="@, decimal(e.num_files as nat));
    let text = text + ", files="@ + decimal(e.num_files as nat);
    lemma_says_more(text, ", bytes="@, decimal(e.bytes_read as nat));
    let text = text + ", bytes="@ + decimal(e.bytes_read as nat);
    lemma_says_longer(text, ")"@);
}

/// The text of such an event names the kind of the event and gives each part of it under its label.
pub proof fn law_text_of_storage_copy_completed(e: &StorageCopyCompleted, event: &MetricEvent, r: String)
    requires
        *event == MetricEvent::StorageCopyCompleted(*e),
        call_ensures(MetricEvent::to_text, (event,), r),
    ensures
        says(r@, "StorageCopyCompleted(duration="@, duration_debug(e.duration)),
{
    let text = "StorageCopyCompleted(duration="@ + duration_debug(e.duration);
    assert(text =~= Seq::empty() + "StorageCopyCompleted(duration="@ + duration_debug(e.duration));
    lemma_says_more(Seq::empty(), "StorageCopyCompleted(duration="@, duration_debug(e.duration));
    lemma_says_longer(text, ")"@);
}

/// The failures that carry nothing are told by their names.
pub proof fn law_text_of_bare_failures(event: &MetricEvent, r: String)
    requires
        call_ensures(MetricEvent::to_text, (event,), r),
    ensures
        event is DomainMetadataLoadFailure ==> r@ == "DomainMetadataLoadFailure"@,
        event is SetTransactionLoadFailure ==> r@ == "SetTransactionLoadFailure"@,
        event is CrcReadFailure ==> r@ == "CrcReadFailure"@,
{
}

} // verus!
