//! What an event says when its span is opened.

use vstd::prelude::*;

use crate::metrics::attr_laws::{
    gives_number, gives_operation, gives_text, lemma_gives_number, lemma_gives_operation,
    lemma_gives_text,
};
use crate::metrics::attrs::Attr;
use crate::metrics::events::{
    CrcReadSuccess, DomainMetadataLoadSuccess, JsonReadCompleted, LogSegmentLoadSuccess,
    ParquetReadCompleted, ProtocolMetadataLoadSuccess, ScanMetadataCompleted,
    SetTransactionLoadSuccess, SnapshotBuildSuccess, TransactionCommitSuccess,
};

verus! {

/// The event of the load of a log segment starts with what the attributes of its span say; what they do not say is recorded later.
pub proof fn law_opened_log_segment_load_success(attrs: Vec<Attr>, r: LogSegmentLoadSuccess)
    requires
        call_ensures(LogSegmentLoadSuccess::from_attrs, (&attrs,), r),
    ensures
        gives_operation(attrs@, true, r.operation_id.0),
        r.num_commit_files == 0,
        r.num_checkpoint_files == 0,
        r.num_compaction_files == 0,
        !r.has_latest_crc_file,
        r.duration == 0,
{
    lemma_gives_operation(attrs@, true);
}

/// The event of the load of protocol and metadata starts with what the attributes of its span say; what they do not say is recorded later.
pub proof fn law_opened_protocol_metadata_load_success(attrs: Vec<Attr>, r: ProtocolMetadataLoadSuccess)
    requires
        call_ensures(ProtocolMetadataLoadSuccess::from_attrs, (&attrs,), r),
    ensures
        gives_operation(attrs@, true, r.operation_id.0),
        r.duration == 0,
{
    lemma_gives_operation(attrs@, true);
}

/// The event of the build of a snapshot starts with what the attributes of its span say; what they do not say is recorded later.
pub proof fn law_opened_snapshot_build_success(attrs: Vec<Attr>, r: SnapshotBuildSuccess)
    requires
        call_ensures(SnapshotBuildSuccess::from_attrs, (&attrs,), r),
    ensures
        gives_operation(attrs@, true, r.operation_id.0),
        r.version == 0,
        r.duration == 0,
{
    lemma_gives_operation(attrs@, true);
}

/// The event of a commit starts with what the attributes of its span say; what they do not say is recorded later.
pub proof fn law_opened_transaction_commit_success(attrs: Vec<Attr>, r: TransactionCommitSuccess)
    requires
        call_ensures(TransactionCommitSuccess::from_attrs, (&attrs,), r),
    ensures
        gives_operation(attrs@, true, r.operation_id.0),
        gives_number(attrs@, "commit_version"@, r.commit_version),
        r.num_add_files == 0,
        r.num_remove_files == 0,
        r.add_files_bytes == 0,
        r.remove_files_bytes == 0,
        !r.is_blind_append,
        !r.data_change,
        r.operation is None,
        r.prepare_duration == 0,
        r.committer_duration == 0,
        r.total_duration == 0,
{
    lemma_gives_operation(attrs@, true);
    lemma_gives_number(attrs@, "commit_version"@);
}

/// The event of the load of domain metadata starts with what the attributes of its span say; what they do not say is recorded later.
pub proof fn law_opened_domain_metadata_load_success(attrs: Vec<Attr>, r: DomainMetadataLoadSuccess)
    requires
        call_ensures(DomainMetadataLoadSuccess::from_attrs, (&attrs,), r),
    ensures
        !r.from_cache,
        r.num_domains_returned == 0,
        r.duration == 0,
{
}

/// The event of the load of a transaction starts with what the attributes of its span say; what they do not say is recorded later.
pub proof fn law_opened_set_transaction_load_success(attrs: Vec<Attr>, r: SetTransactionLoadSuccess)
    requires
        call_ensures(SetTransactionLoadSuccess::from_attrs, (&attrs,), r),
    ensures
        !r.from_cache,
        !r.found,
        r.duration == 0,
{
}

/// The event of the read of a checksum starts with what the attributes of its span say; what they do not say is recorded later.
pub proof fn law_opened_crc_read_success(attrs: Vec<Attr>, r: CrcReadSuccess)
    requires
        call_ensures(CrcReadSuccess::from_attrs, (&attrs,), r),
    ensures
        r.bytes_read == 0,
        r.duration == 0,
{
}

/// The event of a JSON read starts with what the attributes of its span say; what they do not say is recorded later.
pub proof fn law_opened_json_read_completed(attrs: Vec<Attr>, r: JsonReadCompleted)
    requires
        call_ensures(JsonReadCompleted::from_attrs, (&attrs,), r),
    ensures
        gives_number(attrs@, "num_files"@, r.num_files),
        gives_number(attrs@, "bytes_read"@, r.bytes_read),
{
    lemma_gives_number(attrs@, "num_files"@);
    lemma_gives_number(attrs@, "bytes_read"@);
}

/// The event of a Parquet read starts with what the attributes of its span say; what they do not say is recorded later.
pub proof fn law_opened_parquet_read_completed(attrs: Vec<Attr>, r: ParquetReadCompleted)
    requires
        call_ensures(ParquetReadCompleted::from_attrs, (&attrs,), r),
    ensures
        gives_number(attrs@, "num_files"@, r.num_files),
        gives_number(attrs@, "bytes_read"@, r.bytes_read),
{
    lemma_gives_number(attrs@, "num_files"@);
    lemma_gives_number(attrs@, "bytes_read"@);
}

/// The event of a scan starts with what the attributes of its span say; what they do not say is recorded later.
pub proof fn law_opened_scan_metadata_completed(attrs: Vec<Attr>, r: ScanMetadataCompleted)
    requires
        call_ensures(ScanMetadataCompleted::from_attrs, (&attrs,), r),
    ensures
        gives_operation(attrs@, false, r.operation_id.0),
        ({
            ||| gives_text(attrs@, "scan_type"@, Some("sequential"@)) && r.scan_type is SequentialPhase
            ||| gives_text(attrs@, "scan_type"@, Some("parallel"@)) && r.scan_type is ParallelPhase
            ||| r.scan_type is Full && (gives_text(attrs@, "scan_type"@, None) || exists|s: Seq<char>|
                #[trigger] gives_text(attrs@, "scan_type"@, Some(s)) && s != "sequential"@ && s
                    != "parallel"@)
        }),
        gives_number(attrs@, "duration_ns"@, r.duration),
        gives_number(attrs@, "num_add_files_seen"@, r.num_add_files_seen),
        gives_number(attrs@, "num_active_add_files"@, r.num_active_add_files),
        gives_number(attrs@, "active_add_files_bytes"@, r.active_add_files_bytes),
        gives_number(attrs@, "num_remove_files_seen"@, r.num_remove_files_seen),
        gives_number(attrs@, "num_non_file_actions"@, r.num_non_file_actions),
        gives_number(attrs@, "num_predicate_filtered"@, r.num_predicate_filtered),
        exists|n: u64| #[trigger] gives_number(attrs@, "peak_hash_set_size"@, n) && r.peak_hash_set_size == n as usize,
        gives_number(attrs@, "dedup_visitor_time_ms"@, r.dedup_visitor_time_ms),
        gives_number(attrs@, "predicate_eval_time_ms"@, r.predicate_eval_time_ms),
{
    lemma_gives_operation(attrs@, false);
    lemma_gives_text(attrs@, "scan_type"@);
    lemma_gives_number(attrs@, "duration_ns"@);
    lemma_gives_number(attrs@, "num_add_files_seen"@);
    lemma_gives_number(attrs@, "num_active_add_files"@);
    lemma_gives_number(attrs@, "active_add_files_bytes"@);
    lemma_gives_number(attrs@, "num_remove_files_seen"@);
    lemma_gives_number(attrs@, "num_non_file_actions"@);
    lemma_gives_number(attrs@, "num_predicate_filtered"@);
    lemma_gives_number(attrs@, "peak_hash_set_size"@);
    lemma_gives_number(attrs@, "dedup_visitor_time_ms"@);
    lemma_gives_number(attrs@, "predicate_eval_time_ms"@);
}

} // verus!
