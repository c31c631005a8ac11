//! Metric events emitted during operations.
//!
//! Each [`MetricEvent`] variant wraps a struct with the fields of the event. The fields are set when
//! the span of the operation is opened (`from_attrs`), while it is open (`record_*`) and when it is
//! closed (`set_duration`). Durations are in nanoseconds.

use vstd::prelude::*;

use crate::metrics::attrs::{
    find_str, find_text, find_u64, last_str, last_text, last_u64, Attr, AttrValue,
};
use crate::metrics::id::{
    last_operation_id, last_scan_id, parsed_uuid, uuid_text, uuid_to_string, MetricId,
};
use crate::text::{decimal, opt_text, push_decimal, same_text};

verus! {

/// How the debug format of `std::time::Duration` writes a duration of so many nanoseconds.
pub uninterp spec fn duration_debug(nanos: u64) -> Seq<char>;

/// How the debug format of `str` writes a string.
pub uninterp spec fn str_debug(text: Seq<char>) -> Seq<char>;

/// The debug format of `std::time::Duration`.
#[verifier::external_body]
fn duration_to_debug(nanos: u64) -> (r: String)
    ensures
        r@ == duration_debug(nanos),
{
    format!("{:?}", std::time::Duration::from_nanos(nanos))
}

/// The debug format of `str`.
#[verifier::external_body]
fn str_to_debug(text: &str) -> (r: String)
    ensures
        r@ == str_debug(text@),
{
    format!("{:?}", text)
}

/// A truth value as text.
pub open spec fn bool_text(b: bool) -> Seq<char> {
    if b {
        "true"@
    } else {
        "false"@
    }
}

/// An optional string in debug format.
pub open spec fn opt_debug(text: Option<Seq<char>>) -> Seq<char> {
    match text {
        Some(text) => "Some("@ + str_debug(text) + ")"@,
        None => "None"@,
    }
}

fn push_bool(out: &mut String, b: bool)
    ensures
        final(out)@ == old(out)@ + bool_text(b),
{
    if b {
        out.append("true");
    } else {
        out.append("false");
    }
}

fn push_duration(out: &mut String, nanos: u64)
    ensures
        final(out)@ == old(out)@ + duration_debug(nanos),
{
    let text = duration_to_debug(nanos);
    out.append(text.as_str());
}

fn push_id(out: &mut String, id: MetricId)
    ensures
        final(out)@ == old(out)@ + uuid_text(id.0),
{
    let text = id.to_text();
    out.append(text.as_str());
}

fn push_opt_debug(out: &mut String, text: &Option<String>)
    ensures
        final(out)@ == old(out)@ + opt_debug(opt_text(*text)),
{
    let ghost start = out@;
    match text {
        Some(text) => {
            out.append("Some(");
            let quoted = str_to_debug(text.as_str());
            out.append(quoted.as_str());
            out.append(")");
        },
        None => {
            out.append("None");
        },
    }
    assert(out@ =~= start + opt_debug(opt_text(*text)));
}

// === LogSegmentLoad ===

/// A log segment was listed and assembled for a snapshot.
#[derive(Debug, Clone, Copy)]
pub struct LogSegmentLoadSuccess {
    pub operation_id: MetricId,
    pub num_commit_files: u64,
    pub num_checkpoint_files: u64,
    pub num_compaction_files: u64,
    pub has_latest_crc_file: bool,
    pub duration: u64,
}

pub const LOG_SEGMENT_LOADED_SPAN: &'static str = "segment.for_snapshot";

impl LogSegmentLoadSuccess {
    /// The name of the span that carries the event.
    pub const SPAN_NAME: &'static str = LOG_SEGMENT_LOADED_SPAN;

    /// The event as it is when its span is opened with the given attributes.
    pub open spec fn opened(attrs: Seq<Attr>) -> LogSegmentLoadSuccess {
        LogSegmentLoadSuccess {
            operation_id: MetricId(last_operation_id(attrs)),
            num_commit_files: 0,
            num_checkpoint_files: 0,
            num_compaction_files: 0,
            has_latest_crc_file: false,
            duration: 0,
        }
    }

    /// The event as it is when its span is opened with the given attributes.
    pub fn from_attrs(attrs: &Vec<Attr>) -> (r: LogSegmentLoadSuccess)
        ensures
            r == LogSegmentLoadSuccess::opened(attrs@),
    {
        LogSegmentLoadSuccess {
            operation_id: MetricId::from_attrs(attrs),
            num_commit_files: 0,
            num_checkpoint_files: 0,
            num_compaction_files: 0,
            has_latest_crc_file: false,
            duration: 0,
        }
    }

    /// The event after a value was recorded under a name, if it has such a field.
    pub open spec fn with_u64(self, name: Seq<char>, value: u64) -> Option<LogSegmentLoadSuccess> {
        if name == "num_commit_files"@ {
            Some(LogSegmentLoadSuccess { num_commit_files: value, ..self })
        } else if name == "num_checkpoint_files"@ {
            Some(LogSegmentLoadSuccess { num_checkpoint_files: value, ..self })
        } else if name == "num_compaction_files"@ {
            Some(LogSegmentLoadSuccess { num_compaction_files: value, ..self })
        } else {
            None
        }
    }

    /// Records a value under a name while the span is open. The error is the name of the span.
    pub fn record_u64(&mut self, name: &str, value: u64) -> (r: Result<(), &'static str>)
        ensures
            match r {
                Ok(_) => old(self).with_u64(name@, value) == Some(*final(self)),
                Err(span) => old(self).with_u64(name@, value) is None && *final(self) == *old(
                    self,
                ) && span@ == Self::SPAN_NAME@,
            },
    {
        if same_text(name, "num_commit_files") {
            self.num_commit_files = value;
        } else if same_text(name, "num_checkpoint_files") {
            self.num_checkpoint_files = value;
        } else if same_text(name, "num_compaction_files") {
            self.num_compaction_files = value;
        } else {
            return Err(Self::SPAN_NAME);
        }
        Ok(())
    }

    /// The event after a value was recorded under a name, if it has such a field.
    pub open spec fn with_bool(self, name: Seq<char>, value: bool) -> Option<LogSegmentLoadSuccess> {
        if name == "has_latest_crc_file"@ {
            Some(LogSegmentLoadSuccess { has_latest_crc_file: value, ..self })
        } else {
            None
        }
    }

    /// Records a value under a name while the span is open. The error is the name of the span.
    pub fn record_bool(&mut self, name: &str, value: bool) -> (r: Result<(), &'static str>)
        ensures
            match r {
                Ok(_) => old(self).with_bool(name@, value) == Some(*final(self)),
                Err(span) => old(self).with_bool(name@, value) is None && *final(self) == *old(
                    self,
                ) && span@ == Self::SPAN_NAME@,
            },
    {
        if same_text(name, "has_latest_crc_file") {
            self.has_latest_crc_file = value;
        } else {
            return Err(Self::SPAN_NAME);
        }
        Ok(())
    }

    /// Sets the duration when the span is closed.
    pub fn set_duration(&mut self, d: u64)
        ensures
            *final(self) == (LogSegmentLoadSuccess { duration: d, ..*old(self) }),
    {
        self.duration = d;
    }

    /// The event as text.
    pub open spec fn text(self) -> Seq<char> {
        "LogSegmentLoadSuccess(id="@
            + uuid_text(self.operation_id.0)
            + ", duration="@
            + duration_debug(self.duration)
            + ", commits="@
            + decimal(self.num_commit_files as nat)
            + ", checkpoints="@
            + decimal(self.num_checkpoint_files as nat)
            + ", compactions="@
            + decimal(self.num_compaction_files as nat)
            + ", has_latest_crc="@
            + bool_text(self.has_latest_crc_file)
            + ")"@
    }

    /// The event as text.
    pub fn to_text(&self) -> (r: String)
        ensures
            r@ == self.text(),
    {
        let mut out = String::new();
        out.append("LogSegmentLoadSuccess(id=");
        push_id(&mut out, self.operation_id);
        out.append(", duration=");
        push_duration(&mut out, self.duration);
        out.append(", commits=");
        push_decimal(&mut out, self.num_commit_files as u128);
        out.append(", checkpoints=");
        push_decimal(&mut out, self.num_checkpoint_files as u128);
        out.append(", compactions=");
        push_decimal(&mut out, self.num_compaction_files as u128);
        out.append(", has_latest_crc=");
        push_bool(&mut out, self.has_latest_crc_file);
        out.append(")");
        assert(out@ =~= self.text());
        out
    }
}

/// Listing the log segment for a snapshot failed.
#[derive(Debug, Clone, Copy)]
pub struct LogSegmentLoadFailure {
    pub operation_id: MetricId,
}

impl LogSegmentLoadFailure {
    /// The event as text.
    pub open spec fn text(self) -> Seq<char> {
        "LogSegmentLoadFailure(id="@
            + uuid_text(self.operation_id.0)
            + ")"@
    }

    /// The event as text.
    pub fn to_text(&self) -> (r: String)
        ensures
            r@ == self.text(),
    {
        let mut out = String::new();
        out.append("LogSegmentLoadFailure(id=");
        push_id(&mut out, self.operation_id);
        out.append(")");
        assert(out@ =~= self.text());
        out
    }
}

// === ProtocolMetadataLoad ===

/// Protocol and metadata actions were read from the log.
#[derive(Debug, Clone, Copy)]
pub struct ProtocolMetadataLoadSuccess {
    pub operation_id: MetricId,
    pub duration: u64,
}

pub const PROTOCOL_METADATA_LOADED_SPAN: &'static str = "segment.read_metadata";

impl ProtocolMetadataLoadSuccess {
    /// The name of the span that carries the event.
    pub const SPAN_NAME: &'static str = PROTOCOL_METADATA_LOADED_SPAN;

    /// The event as it is when its span is opened with the given attributes.
    pub open spec fn opened(attrs: Seq<Attr>) -> ProtocolMetadataLoadSuccess {
        ProtocolMetadataLoadSuccess {
            operation_id: MetricId(last_operation_id(attrs)),
            duration: 0,
        }
    }

    /// The event as it is when its span is opened with the given attributes.
    pub fn from_attrs(attrs: &Vec<Attr>) -> (r: ProtocolMetadataLoadSuccess)
        ensures
            r == ProtocolMetadataLoadSuccess::opened(attrs@),
    {
        ProtocolMetadataLoadSuccess {
            operation_id: MetricId::from_attrs(attrs),
            duration: 0,
        }
    }

    /// Sets the duration when the span is closed.
    pub fn set_duration(&mut self, d: u64)
        ensures
            *final(self) == (ProtocolMetadataLoadSuccess { duration: d, ..*old(self) }),
    {
        self.duration = d;
    }

    /// The event as text.
    pub open spec fn text(self) -> Seq<char> {
        "ProtocolMetadataLoadSuccess(id="@
            + uuid_text(self.operation_id.0)
            + ", duration="@
            + duration_debug(self.duration)
            + ")"@
    }

    /// The event as text.
    pub fn to_text(&self) -> (r: String)
        ensures
            r@ == self.text(),
    {
        let mut out = String::new();
        out.append("ProtocolMetadataLoadSuccess(id=");
        push_id(&mut out, self.operation_id);
        out.append(", duration=");
        push_duration(&mut out, self.duration);
        out.append(")");
        assert(out@ =~= self.text());
        out
    }
}

/// Reading protocol and metadata from the log failed.
#[derive(Debug, Clone, Copy)]
pub struct ProtocolMetadataLoadFailure {
    pub operation_id: MetricId,
}

impl ProtocolMetadataLoadFailure {
    /// The event as text.
    pub open spec fn text(self) -> Seq<char> {
        "ProtocolMetadataLoadFailure(id="@
            + uuid_text(self.operation_id.0)
            + ")"@
    }

    /// The event as text.
    pub fn to_text(&self) -> (r: String)
        ensures
            r@ == self.text(),
    {
        let mut out = String::new();
        out.append("ProtocolMetadataLoadFailure(id=");
        push_id(&mut out, self.operation_id);
        out.append(")");
        assert(out@ =~= self.text());
        out
    }
}

// === SnapshotBuild ===

/// A snapshot was built successfully.
#[derive(Debug, Clone, Copy)]
pub struct SnapshotBuildSuccess {
    pub operation_id: MetricId,
    pub version: u64,
    pub duration: u64,
}

pub const SNAPSHOT_COMPLETED_SPAN: &'static str = "snap.build";

impl SnapshotBuildSuccess {
    /// The name of the span that carries the event.
    pub const SPAN_NAME: &'static str = SNAPSHOT_COMPLETED_SPAN;

    /// The event as it is when its span is opened with the given attributes.
    pub open spec fn opened(attrs: Seq<Attr>) -> SnapshotBuildSuccess {
        SnapshotBuildSuccess {
            operation_id: MetricId(last_operation_id(attrs)),
            version: 0,
            duration: 0,
        }
    }

    /// The event as it is when its span is opened with the given attributes.
    pub fn from_attrs(attrs: &Vec<Attr>) -> (r: SnapshotBuildSuccess)
        ensures
            r == SnapshotBuildSuccess::opened(attrs@),
    {
        SnapshotBuildSuccess {
            operation_id: MetricId::from_attrs(attrs),
            version: 0,
            duration: 0,
        }
    }

    /// The event after a value was recorded under a name, if it has such a field.
    pub open spec fn with_u64(self, name: Seq<char>, value: u64) -> Option<SnapshotBuildSuccess> {
        if name == "version"@ {
            Some(SnapshotBuildSuccess { version: value, ..self })
        } else {
            None
        }
    }

    /// Records a value under a name while the span is open. The error is the name of the span.
    pub fn record_u64(&mut self, name: &str, value: u64) -> (r: Result<(), &'static str>)
        ensures
            match r {
                Ok(_) => old(self).with_u64(name@, value) == Some(*final(self)),
                Err(span) => old(self).with_u64(name@, value) is None && *final(self) == *old(
                    self,
                ) && span@ == Self::SPAN_NAME@,
            },
    {
        if same_text(name, "version") {
            self.version = value;
        } else {
            return Err(Self::SPAN_NAME);
        }
        Ok(())
    }

    /// Sets the duration when the span is closed.
    pub fn set_duration(&mut self, d: u64)
        ensures
            *final(self) == (SnapshotBuildSuccess { duration: d, ..*old(self) }),
    {
        self.duration = d;
    }

    /// The event as text.
    pub open spec fn text(self) -> Seq<char> {
        "SnapshotBuildSuccess(id="@
            + uuid_text(self.operation_id.0)
            + ", version="@
            + decimal(self.version as nat)
            + ", duration="@
            + duration_debug(self.duration)
            + ")"@
    }

    /// The event as text.
    pub fn to_text(&self) -> (r: String)
        ensures
            r@ == self.text(),
    {
        let mut out = String::new();
        out.append("SnapshotBuildSuccess(id=");
        push_id(&mut out, self.operation_id);
        out.append(", version=");
        push_decimal(&mut out, self.version as u128);
        out.append(", duration=");
        push_duration(&mut out, self.duration);
        out.append(")");
        assert(out@ =~= self.text());
        out
    }
}

/// Building a snapshot failed.
#[derive(Debug, Clone, Copy)]
pub struct SnapshotBuildFailure {
    pub operation_id: MetricId,
}

impl SnapshotBuildFailure {
    /// The event as text.
    pub open spec fn text(self) -> Seq<char> {
        "SnapshotBuildFailure(id="@
            + uuid_text(self.operation_id.0)
            + ")"@
    }

    /// The event as text.
    pub fn to_text(&self) -> (r: String)
        ensures
            r@ == self.text(),
    {
        let mut out = String::new();
        out.append("SnapshotBuildFailure(id=");
        push_id(&mut out, self.operation_id);
        out.append(")");
        assert(out@ =~= self.text());
        out
    }
}

// === TransactionCommit ===

/// A transaction was committed successfully.
#[derive(Debug, Clone)]
pub struct TransactionCommitSuccess {
    pub operation_id: MetricId,
    pub commit_version: u64,
    pub num_add_files: u64,
    pub num_remove_files: u64,
    pub add_files_bytes: u64,
    pub remove_files_bytes: u64,
    pub is_blind_append: bool,
    pub data_change: bool,
    pub operation: Option<String>,
    /// Time assembling and validating the commit, before the committer is called.
    pub prepare_duration: u64,
    /// Time in the committer.
    pub committer_duration: u64,
    pub total_duration: u64,
}

pub const TRANSACTION_COMMIT_SPAN: &'static str = "txn.commit";

impl TransactionCommitSuccess {
    /// The name of the span that carries the event.
    pub const SPAN_NAME: &'static str = TRANSACTION_COMMIT_SPAN;

    /// The event as it is when its span is opened with the given attributes.
    pub open spec fn opened(attrs: Seq<Attr>) -> TransactionCommitSuccess {
        TransactionCommitSuccess {
            operation_id: MetricId(last_operation_id(attrs)),
            commit_version: last_u64(attrs, "commit_version"@),
            num_add_files: 0,
            num_remove_files: 0,
            add_files_bytes: 0,
            remove_files_bytes: 0,
            is_blind_append: false,
            data_change: false,
            operation: None,
            prepare_duration: 0,
            committer_duration: 0,
            total_duration: 0,
        }
    }

    /// The event as it is when its span is opened with the given attributes.
    pub fn from_attrs(attrs: &Vec<Attr>) -> (r: TransactionCommitSuccess)
        ensures
            r == TransactionCommitSuccess::opened(attrs@),
    {
        TransactionCommitSuccess {
            operation_id: MetricId::from_attrs(attrs),
            commit_version: find_u64(attrs, "commit_version"),
            num_add_files: 0,
            num_remove_files: 0,
            add_files_bytes: 0,
            remove_files_bytes: 0,
            is_blind_append: false,
            data_change: false,
            operation: None,
            prepare_duration: 0,
            committer_duration: 0,
            total_duration: 0,
        }
    }

    /// The event after a value was recorded under a name, if it has such a field.
    pub open spec fn with_u64(self, name: Seq<char>, value: u64) -> Option<TransactionCommitSuccess> {
        if name == "num_add_files"@ {
            Some(TransactionCommitSuccess { num_add_files: value, ..self })
        } else if name == "num_remove_files"@ {
            Some(TransactionCommitSuccess { num_remove_files: value, ..self })
        } else if name == "add_files_bytes"@ {
            Some(TransactionCommitSuccess { add_files_bytes: value, ..self })
        } else if name == "remove_files_bytes"@ {
            Some(TransactionCommitSuccess { remove_files_bytes: value, ..self })
        } else if name == "prepare_duration_ns"@ {
            Some(TransactionCommitSuccess { prepare_duration: value, ..self })
        } else if name == "committer_duration_ns"@ {
            Some(TransactionCommitSuccess { committer_duration: value, ..self })
        } else {
            None
        }
    }

    /// Records a value under a name while the span is open. The error is the name of the span.
    pub fn record_u64(&mut self, name: &str, value: u64) -> (r: Result<(), &'static str>)
        ensures
            match r {
                Ok(_) => old(self).with_u64(name@, value) == Some(*final(self)),
                Err(span) => old(self).with_u64(name@, value) is None && *final(self) == *old(
                    self,
                ) && span@ == Self::SPAN_NAME@,
            },
    {
        if same_text(name, "num_add_files") {
            self.num_add_files = value;
        } else if same_text(name, "num_remove_files") {
            self.num_remove_files = value;
        } else if same_text(name, "add_files_bytes") {
            self.add_files_bytes = value;
        } else if same_text(name, "remove_files_bytes") {
            self.remove_files_bytes = value;
        } else if same_text(name, "prepare_duration_ns") {
            self.prepare_duration = value;
        } else if same_text(name, "committer_duration_ns") {
            self.committer_duration = value;
        } else {
            return Err(Self::SPAN_NAME);
        }
        Ok(())
    }

    /// The event after a value was recorded under a name, if it has such a field.
    pub open spec fn with_bool(self, name: Seq<char>, value: bool) -> Option<TransactionCommitSuccess> {
        if name == "is_blind_append"@ {
            Some(TransactionCommitSuccess { is_blind_append: value, ..self })
        } else if name == "data_change"@ {
            Some(TransactionCommitSuccess { data_change: value, ..self })
        } else {
            None
        }
    }

    /// Records a value under a name while the span is open. The error is the name of the span.
    pub fn record_bool(&mut self, name: &str, value: bool) -> (r: Result<(), &'static str>)
        ensures
            match r {
                Ok(_) => old(self).with_bool(name@, value) == Some(*final(self)),
                Err(span) => old(self).with_bool(name@, value) is None && *final(self) == *old(
                    self,
                ) && span@ == Self::SPAN_NAME@,
            },
    {
        if same_text(name, "is_blind_append") {
            self.is_blind_append = value;
        } else if same_text(name, "data_change") {
            self.data_change = value;
        } else {
            return Err(Self::SPAN_NAME);
        }
        Ok(())
    }

    /// Sets the duration when the span is closed.
    pub fn set_duration(&mut self, d: u64)
        ensures
            *final(self) == (TransactionCommitSuccess { total_duration: d, ..*old(self) }),
    {
        self.total_duration = d;
    }

    /// Records a string under a name while the span is open. The error is the name of the span.
    pub fn record_str(&mut self, name: &str, value: &str) -> (r: Result<(), &'static str>)
        ensures
            match r {
                Ok(_) => name@ == "operation"@ && *final(self) == (TransactionCommitSuccess {
                    operation: final(self).operation,
                    ..*old(self)
                }) && opt_text(final(self).operation) == Some(value@),
                Err(span) => name@ != "operation"@ && *final(self) == *old(self) && span@
                    == Self::SPAN_NAME@,
            },
    {
        if same_text(name, "operation") {
            self.operation = Some(value.to_owned());
            Ok(())
        } else {
            Err(Self::SPAN_NAME)
        }
    }

    /// The event as text.
    pub open spec fn text(self) -> Seq<char> {
        "TransactionCommitSuccess(id="@
            + uuid_text(self.operation_id.0)
            + ", version="@
            + decimal(self.commit_version as nat)
            + ", total_duration="@
            + duration_debug(self.total_duration)
            + ", prepare="@
            + duration_debug(self.prepare_duration)
            + ", committer="@
            + duration_debug(self.committer_duration)
            + ", add_files="@
            + decimal(self.num_add_files as nat)
            + ", remove_files="@
            + decimal(self.num_remove_files as nat)
            + ", add_bytes="@
            + decimal(self.add_files_bytes as nat)
            + ", remove_bytes="@
            + decimal(self.remove_files_bytes as nat)
            + ", is_blind_append="@
            + bool_text(self.is_blind_append)
            + ", data_change="@
            + bool_text(self.data_change)
            + ", operation="@
            + opt_debug(opt_text(self.operation))
            + ")"@
    }

    /// The event as text.
    pub fn to_text(&self) -> (r: String)
        ensures
            r@ == self.text(),
    {
        let mut out = String::new();
        out.append("TransactionCommitSuccess(id=");
        push_id(&mut out, self.operation_id);
        out.append(", version=");
        push_decimal(&mut out, self.commit_version as u128);
        out.append(", total_duration=");
        push_duration(&mut out, self.total_duration);
        out.append(", prepare=");
        push_duration(&mut out, self.prepare_duration);
        out.append(", committer=");
        push_duration(&mut out, self.committer_duration);
        out.append(", add_files=");
        push_decimal(&mut out, self.num_add_files as u128);
        out.append(", remove_files=");
        push_decimal(&mut out, self.num_remove_files as u128);
        out.append(", add_bytes=");
        push_decimal(&mut out, self.add_files_bytes as u128);
        out.append(", remove_bytes=");
        push_decimal(&mut out, self.remove_files_bytes as u128);
        out.append(", is_blind_append=");
        push_bool(&mut out, self.is_blind_append);
        out.append(", data_change=");
        push_bool(&mut out, self.data_change);
        out.append(", operation=");
        push_opt_debug(&mut out, &self.operation);
        out.append(")");
        assert(out@ =~= self.text());
        out
    }
}

/// Why a transaction commit did not succeed.
#[derive(Debug, Clone, Copy, PartialEq, Eq, Structural)]
pub enum CommitFailureReason {
    /// The commit conflicted with a concurrently committed version.
    Conflict,
    /// A retryable IO error occurred during the commit.
    RetryableIo,
    /// A terminal (non-retryable) error occurred.
    Error,
}

impl CommitFailureReason {
    /// The name of the reason in the `failure_reason` field of a span.
    pub open spec fn text(self) -> Seq<char> {
        match self {
            CommitFailureReason::Conflict => "conflict"@,
            CommitFailureReason::RetryableIo => "retryable_io"@,
            CommitFailureReason::Error => "error"@,
        }
    }

    /// The reason of a name, if there is one of that name.
    pub open spec fn named(name: Seq<char>) -> Option<CommitFailureReason> {
        if name == CommitFailureReason::Conflict.text() {
            Some(CommitFailureReason::Conflict)
        } else if name == CommitFailureReason::RetryableIo.text() {
            Some(CommitFailureReason::RetryableIo)
        } else if name == CommitFailureReason::Error.text() {
            Some(CommitFailureReason::Error)
        } else {
            None
        }
    }

    /// The name of the reason in the `failure_reason` field of a span.
    pub fn as_text(&self) -> (r: &'static str)
        ensures
            r@ == self.text(),
    {
        match self {
            CommitFailureReason::Conflict => "conflict",
            CommitFailureReason::RetryableIo => "retryable_io",
            CommitFailureReason::Error => "error",
        }
    }

    /// The reason of a name, if there is one of that name.
    pub fn parse(name: &str) -> (r: Option<CommitFailureReason>)
        ensures
            r == CommitFailureReason::named(name@),
    {
        if same_text(name, "conflict") {
            Some(CommitFailureReason::Conflict)
        } else if same_text(name, "retryable_io") {
            Some(CommitFailureReason::RetryableIo)
        } else if same_text(name, "error") {
            Some(CommitFailureReason::Error)
        } else {
            None
        }
    }
}

/// A transaction commit did not succeed; `reason` tells conflicts, retryable IO and terminal
/// errors apart.
#[derive(Debug, Clone, Copy)]
pub struct TransactionCommitFailure {
    pub operation_id: MetricId,
    pub reason: CommitFailureReason,
}

impl TransactionCommitFailure {
    /// The event as text.
    pub open spec fn text(self) -> Seq<char> {
        "TransactionCommitFailure(id="@
            + uuid_text(self.operation_id.0)
            + ", reason="@
            + self.reason.text()
            + ")"@
    }

    /// The event as text.
    pub fn to_text(&self) -> (r: String)
        ensures
            r@ == self.text(),
    {
        let mut out = String::new();
        out.append("TransactionCommitFailure(id=");
        push_id(&mut out, self.operation_id);
        out.append(", reason=");
        out.append(self.reason.as_text());
        out.append(")");
        assert(out@ =~= self.text());
        out
    }
}

// === DomainMetadataLoad ===

/// Domain metadata was loaded, from the checksum cache or by a log replay.
#[derive(Debug, Clone, Copy)]
pub struct DomainMetadataLoadSuccess {
    pub from_cache: bool,
    pub num_domains_returned: u64,
    pub duration: u64,
}

pub const DOMAIN_METADATA_LOADED_SPAN: &'static str = "snap.get_domain_metadata";

impl DomainMetadataLoadSuccess {
    /// The name of the span that carries the event.
    pub const SPAN_NAME: &'static str = DOMAIN_METADATA_LOADED_SPAN;

    /// The event as it is when its span is opened with the given attributes.
    pub open spec fn opened(_attrs: Seq<Attr>) -> DomainMetadataLoadSuccess {
        DomainMetadataLoadSuccess {
            from_cache: false,
            num_domains_returned: 0,
            duration: 0,
        }
    }

    /// The event as it is when its span is opened with the given attributes.
    pub fn from_attrs(_attrs: &Vec<Attr>) -> (r: DomainMetadataLoadSuccess)
        ensures
            r == DomainMetadataLoadSuccess::opened(_attrs@),
    {
        DomainMetadataLoadSuccess {
            from_cache: false,
            num_domains_returned: 0,
            duration: 0,
        }
    }

    /// The event after a value was recorded under a name, if it has such a field.
    pub open spec fn with_u64(self, name: Seq<char>, value: u64) -> Option<DomainMetadataLoadSuccess> {
        if name == "num_domains_returned"@ {
            Some(DomainMetadataLoadSuccess { num_domains_returned: value, ..self })
        } else {
            None
        }
    }

    /// Records a value under a name while the span is open. The error is the name of the span.
    pub fn record_u64(&mut self, name: &str, value: u64) -> (r: Result<(), &'static str>)
        ensures
            match r {
                Ok(_) => old(self).with_u64(name@, value) == Some(*final(self)),
                Err(span) => old(self).with_u64(name@, value) is None && *final(self) == *old(
                    self,
                ) && span@ == Self::SPAN_NAME@,
            },
    {
        if same_text(name, "num_domains_returned") {
            self.num_domains_returned = value;
        } else {
            return Err(Self::SPAN_NAME);
        }
        Ok(())
    }

    /// The event after a value was recorded under a name, if it has such a field.
    pub open spec fn with_bool(self, name: Seq<char>, value: bool) -> Option<DomainMetadataLoadSuccess> {
        if name == "from_cache"@ {
            Some(DomainMetadataLoadSuccess { from_cache: value, ..self })
        } else {
            None
        }
    }

    /// Records a value under a name while the span is open. The error is the name of the span.
    pub fn record_bool(&mut self, name: &str, value: bool) -> (r: Result<(), &'static str>)
        ensures
            match r {
                Ok(_) => old(self).with_bool(name@, value) == Some(*final(self)),
                Err(span) => old(self).with_bool(name@, value) is None && *final(self) == *old(
                    self,
                ) && span@ == Self::SPAN_NAME@,
            },
    {
        if same_text(name, "from_cache") {
            self.from_cache = value;
        } else {
            return Err(Self::SPAN_NAME);
        }
        Ok(())
    }

    /// Sets the duration when the span is closed.
    pub fn set_duration(&mut self, d: u64)
        ensures
            *final(self) == (DomainMetadataLoadSuccess { duration: d, ..*old(self) }),
    {
        self.duration = d;
    }

    /// The event as text.
    pub open spec fn text(self) -> Seq<char> {
        "DomainMetadataLoadSuccess(duration="@
            + duration_debug(self.duration)
            + ", from_cache="@
            + bool_text(self.from_cache)
            + ", num_domains_returned="@
            + decimal(self.num_domains_returned as nat)
            + ")"@
    }

    /// The event as text.
    pub fn to_text(&self) -> (r: String)
        ensures
            r@ == self.text(),
    {
        let mut out = String::new();
        out.append("DomainMetadataLoadSuccess(duration=");
        push_duration(&mut out, self.duration);
        out.append(", from_cache=");
        push_bool(&mut out, self.from_cache);
        out.append(", num_domains_returned=");
        push_decimal(&mut out, self.num_domains_returned as u128);
        out.append(")");
        assert(out@ =~= self.text());
        out
    }
}

// === SetTransactionLoad ===

/// The progress of an application was loaded, from the checksum cache or by a log replay.
#[derive(Debug, Clone, Copy)]
pub struct SetTransactionLoadSuccess {
    pub from_cache: bool,
    /// Has the application a committed version that is not expired?
    pub found: bool,
    pub duration: u64,
}

pub const SET_TRANSACTION_LOADED_SPAN: &'static str = "snap.get_app_id_version";

impl SetTransactionLoadSuccess {
    /// The name of the span that carries the event.
    pub const SPAN_NAME: &'static str = SET_TRANSACTION_LOADED_SPAN;

    /// The event as it is when its span is opened with the given attributes.
    pub open spec fn opened(_attrs: Seq<Attr>) -> SetTransactionLoadSuccess {
        SetTransactionLoadSuccess {
            from_cache: false,
            found: false,
            duration: 0,
        }
    }

    /// The event as it is when its span is opened with the given attributes.
    pub fn from_attrs(_attrs: &Vec<Attr>) -> (r: SetTransactionLoadSuccess)
        ensures
            r == SetTransactionLoadSuccess::opened(_attrs@),
    {
        SetTransactionLoadSuccess {
            from_cache: false,
            found: false,
            duration: 0,
        }
    }

    /// The event after a value was recorded under a name, if it has such a field.
    pub open spec fn with_bool(self, name: Seq<char>, value: bool) -> Option<SetTransactionLoadSuccess> {
        if name == "from_cache"@ {
            Some(SetTransactionLoadSuccess { from_cache: value, ..self })
        } else if name == "found"@ {
            Some(SetTransactionLoadSuccess { found: value, ..self })
        } else {
            None
        }
    }

    /// Records a value under a name while the span is open. The error is the name of the span.
    pub fn record_bool(&mut self, name: &str, value: bool) -> (r: Result<(), &'static str>)
        ensures
            match r {
                Ok(_) => old(self).with_bool(name@, value) == Some(*final(self)),
                Err(span) => old(self).with_bool(name@, value) is None && *final(self) == *old(
                    self,
                ) && span@ == Self::SPAN_NAME@,
            },
    {
        if same_text(name, "from_cache") {
            self.from_cache = value;
        } else if same_text(name, "found") {
            self.found = value;
        } else {
            return Err(Self::SPAN_NAME);
        }
        Ok(())
    }

    /// Sets the duration when the span is closed.
    pub fn set_duration(&mut self, d: u64)
        ensures
            *final(self) == (SetTransactionLoadSuccess { duration: d, ..*old(self) }),
    {
        self.duration = d;
    }

    /// The event as text.
    pub open spec fn text(self) -> Seq<char> {
        "SetTransactionLoadSuccess(duration="@
            + duration_debug(self.duration)
            + ", from_cache="@
            + bool_text(self.from_cache)
            + ", found="@
            + bool_text(self.found)
            + ")"@
    }

    /// The event as text.
    pub fn to_text(&self) -> (r: String)
        ensures
            r@ == self.text(),
    {
        let mut out = String::new();
        out.append("SetTransactionLoadSuccess(duration=");
        push_duration(&mut out, self.duration);
        out.append(", from_cache=");
        push_bool(&mut out, self.from_cache);
        out.append(", found=");
        push_bool(&mut out, self.found);
        out.append(")");
        assert(out@ =~= self.text());
        out
    }
}

// === CrcRead ===

/// A checksum file was read and parsed. `bytes_read` is the raw byte count from storage.
#[derive(Debug, Clone, Copy)]
pub struct CrcReadSuccess {
    pub bytes_read: u64,
    pub duration: u64,
}

pub const CRC_READ_COMPLETED_SPAN: &'static str = "crc_read_completed";

impl CrcReadSuccess {
    /// The name of the span that carries the event.
    pub const SPAN_NAME: &'static str = CRC_READ_COMPLETED_SPAN;

    /// The event as it is when its span is opened with the given attributes.
    pub open spec fn opened(_attrs: Seq<Attr>) -> CrcReadSuccess {
        CrcReadSuccess {
            bytes_read: 0,
            duration: 0,
        }
    }

    /// The event as it is when its span is opened with the given attributes.
    pub fn from_attrs(_attrs: &Vec<Attr>) -> (r: CrcReadSuccess)
        ensures
            r == CrcReadSuccess::opened(_attrs@),
    {
        CrcReadSuccess {
            bytes_read: 0,
            duration: 0,
        }
    }

    /// The event after a value was recorded under a name, if it has such a field.
    pub open spec fn with_u64(self, name: Seq<char>, value: u64) -> Option<CrcReadSuccess> {
        if name == "bytes_read"@ {
            Some(CrcReadSuccess { bytes_read: value, ..self })
        } else {
            None
        }
    }

    /// Records a value under a name while the span is open. The error is the name of the span.
    pub fn record_u64(&mut self, name: &str, value: u64) -> (r: Result<(), &'static str>)
        ensures
            match r {
                Ok(_) => old(self).with_u64(name@, value) == Some(*final(self)),
                Err(span) => old(self).with_u64(name@, value) is None && *final(self) == *old(
                    self,
                ) && span@ == Self::SPAN_NAME@,
            },
    {
        if same_text(name, "bytes_read") {
            self.bytes_read = value;
        } else {
            return Err(Self::SPAN_NAME);
        }
        Ok(())
    }

    /// Sets the duration when the span is closed.
    pub fn set_duration(&mut self, d: u64)
        ensures
            *final(self) == (CrcReadSuccess { duration: d, ..*old(self) }),
    {
        self.duration = d;
    }

    /// The event as text.
    pub open spec fn text(self) -> Seq<char> {
        "CrcReadSuccess(duration="@
            + duration_debug(self.duration)
            + ", bytes="@
            + decimal(self.bytes_read as nat)
            + ")"@
    }

    /// The event as text.
    pub fn to_text(&self) -> (r: String)
        ensures
            r@ == self.text(),
    {
        let mut out = String::new();
        out.append("CrcReadSuccess(duration=");
        push_duration(&mut out, self.duration);
        out.append(", bytes=");
        push_decimal(&mut out, self.bytes_read as u128);
        out.append(")");
        assert(out@ =~= self.text());
        out
    }
}

// === File reads ===

/// JSON files were read. `bytes_read` is the sum of the sizes of the files, not of what was read
/// out of them.
#[derive(Debug, Clone, Copy)]
pub struct JsonReadCompleted {
    pub num_files: u64,
    pub bytes_read: u64,
}

impl JsonReadCompleted {
    /// The name of the span that carries the event.
    pub const SPAN_NAME: &'static str = "json_read_completed";

    /// The event as it is when its span is opened with the given attributes.
    pub open spec fn opened(attrs: Seq<Attr>) -> JsonReadCompleted {
        JsonReadCompleted {
            num_files: last_u64(attrs, "num_files"@),
            bytes_read: last_u64(attrs, "bytes_read"@),
        }
    }

    /// The event as it is when its span is opened with the given attributes.
    pub fn from_attrs(attrs: &Vec<Attr>) -> (r: JsonReadCompleted)
        ensures
            r == JsonReadCompleted::opened(attrs@),
    {
        JsonReadCompleted {
            num_files: find_u64(attrs, "num_files"),
            bytes_read: find_u64(attrs, "bytes_read"),
        }
    }

    /// The event as text.
    pub open spec fn text(self) -> Seq<char> {
        "JsonReadCompleted(files="@
            + decimal(self.num_files as nat)
            + ", bytes="@
            + decimal(self.bytes_read as nat)
            + ")"@
    }

    /// The event as text.
    pub fn to_text(&self) -> (r: String)
        ensures
            r@ == self.text(),
    {
        let mut out = String::new();
        out.append("JsonReadCompleted(files=");
        push_decimal(&mut out, self.num_files as u128);
        out.append(", bytes=");
        push_decimal(&mut out, self.bytes_read as u128);
        out.append(")");
        assert(out@ =~= self.text());
        out
    }
}

/// Parquet files were read. `bytes_read` is the sum of the sizes of the files, not of what was read
/// out of them.
#[derive(Debug, Clone, Copy)]
pub struct ParquetReadCompleted {
    pub num_files: u64,
    pub bytes_read: u64,
}

impl ParquetReadCompleted {
    /// The name of the span that carries the event.
    pub const SPAN_NAME: &'static str = "parquet_read_completed";

    /// The event as it is when its span is opened with the given attributes.
    pub open spec fn opened(attrs: Seq<Attr>) -> ParquetReadCompleted {
        ParquetReadCompleted {
            num_files: last_u64(attrs, "num_files"@),
            bytes_read: last_u64(attrs, "bytes_read"@),
        }
    }

    /// The event as it is when its span is opened with the given attributes.
    pub fn from_attrs(attrs: &Vec<Attr>) -> (r: ParquetReadCompleted)
        ensures
            r == ParquetReadCompleted::opened(attrs@),
    {
        ParquetReadCompleted {
            num_files: find_u64(attrs, "num_files"),
            bytes_read: find_u64(attrs, "bytes_read"),
        }
    }

    /// The event as text.
    pub open spec fn text(self) -> Seq<char> {
        "ParquetReadCompleted(files="@
            + decimal(self.num_files as nat)
            + ", bytes="@
            + decimal(self.bytes_read as nat)
            + ")"@
    }

    /// The event as text.
    pub fn to_text(&self) -> (r: String)
        ensures
            r@ == self.text(),
    {
        let mut out = String::new();
        out.append("ParquetReadCompleted(files=");
        push_decimal(&mut out, self.num_files as u128);
        out.append(", bytes=");
        push_decimal(&mut out, self.bytes_read as u128);
        out.append(")");
        assert(out@ =~= self.text());
        out
    }
}

// === ScanMetadataCompleted ===

/// Which way of running a scan an event comes from.
#[derive(Debug, Clone, Copy, PartialEq, Eq, Structural)]
pub enum ScanType {
    /// The sequential phase of a parallel scan.
    SequentialPhase,
    /// The parallel phase of a parallel scan.
    ParallelPhase,
    /// A scan in one piece.
    Full,
}

impl ScanType {
    /// The name in the `scan_type` field of a span.
    pub open spec fn text(self) -> Seq<char> {
        match self {
            ScanType::SequentialPhase => "sequential"@,
            ScanType::ParallelPhase => "parallel"@,
            ScanType::Full => "full"@,
        }
    }

    /// The scan type of a name. Unknown names are full scans.
    pub open spec fn named(name: Seq<char>) -> ScanType {
        if name == ScanType::SequentialPhase.text() {
            ScanType::SequentialPhase
        } else if name == ScanType::ParallelPhase.text() {
            ScanType::ParallelPhase
        } else {
            ScanType::Full
        }
    }

    /// The scan type of a name. Unknown names are full scans.
    pub fn parse(s: &str) -> (r: ScanType)
        ensures
            r == ScanType::named(s@),
    {
        if same_text(s, "sequential") {
            ScanType::SequentialPhase
        } else if same_text(s, "parallel") {
            ScanType::ParallelPhase
        } else {
            ScanType::Full
        }
    }

    /// The name in the `scan_type` field of a span.
    pub fn as_text(&self) -> (r: &'static str)
        ensures
            r@ == self.text(),
    {
        match self {
            ScanType::SequentialPhase => "sequential",
            ScanType::ParallelPhase => "parallel",
            ScanType::Full => "full",
        }
    }
}

/// The metadata of a scan was produced. A scan in two phases emits one event for each, with the same
/// `operation_id`.
#[derive(Debug, Clone, Copy)]
pub struct ScanMetadataCompleted {
    /// The operation that the event belongs to.
    pub operation_id: MetricId,
    /// Which way of running a scan the event comes from.
    pub scan_type: ScanType,
    /// Time from the start of the scan to the end of its iterator.
    pub duration: u64,
    /// Add files that entered deduplication.
    pub num_add_files_seen: u64,
    /// Add files that survived log replay.
    pub num_active_add_files: u64,
    /// Size in bytes of the files that survived log replay.
    pub active_add_files_bytes: u64,
    /// Remove files seen in commit files.
    pub num_remove_files_seen: u64,
    /// Other actions seen.
    pub num_non_file_actions: u64,
    /// Files filtered by predicates.
    pub num_predicate_filtered: u64,
    /// Peak size of the deduplication set.
    pub peak_hash_set_size: usize,
    /// Time spent in deduplication, in milliseconds.
    pub dedup_visitor_time_ms: u64,
    /// Time spent evaluating predicates, in milliseconds.
    pub predicate_eval_time_ms: u64,
}

impl ScanMetadataCompleted {
    /// The name of the span that carries the event.
    pub const SPAN_NAME: &'static str = "scan.metadata_completed";
}

/// The scan type recorded in the attributes of a span; without one, it is a full scan.
pub open spec fn last_scan_type(attrs: Seq<Attr>) -> ScanType {
    match last_text(attrs, "scan_type"@) {
        Some(name) => ScanType::named(name),
        None => ScanType::Full,
    }
}

fn find_scan_type(attrs: &Vec<Attr>) -> (r: ScanType)
    ensures
        r == last_scan_type(attrs@),
{
    match find_text(attrs, "scan_type") {
        Some(name) => ScanType::parse(name),
        None => ScanType::Full,
    }
}

impl ScanMetadataCompleted {
    /// The event as it is when its span is opened with the given attributes.
    pub open spec fn opened(attrs: Seq<Attr>) -> ScanMetadataCompleted {
        ScanMetadataCompleted {
            operation_id: MetricId(last_scan_id(attrs)),
            scan_type: last_scan_type(attrs),
            duration: last_u64(attrs, "duration_ns"@),
            num_add_files_seen: last_u64(attrs, "num_add_files_seen"@),
            num_active_add_files: last_u64(attrs, "num_active_add_files"@),
            active_add_files_bytes: last_u64(attrs, "active_add_files_bytes"@),
            num_remove_files_seen: last_u64(attrs, "num_remove_files_seen"@),
            num_non_file_actions: last_u64(attrs, "num_non_file_actions"@),
            num_predicate_filtered: last_u64(attrs, "num_predicate_filtered"@),
            peak_hash_set_size: last_u64(attrs, "peak_hash_set_size"@) as usize,
            dedup_visitor_time_ms: last_u64(attrs, "dedup_visitor_time_ms"@),
            predicate_eval_time_ms: last_u64(attrs, "predicate_eval_time_ms"@),
        }
    }

    /// The event as it is when its span is opened with the given attributes.
    pub fn from_attrs(attrs: &Vec<Attr>) -> (r: ScanMetadataCompleted)
        ensures
            r == ScanMetadataCompleted::opened(attrs@),
    {
        ScanMetadataCompleted {
            operation_id: MetricId::from_scan_attrs(attrs),
            scan_type: find_scan_type(attrs),
            duration: find_u64(attrs, "duration_ns"),
            num_add_files_seen: find_u64(attrs, "num_add_files_seen"),
            num_active_add_files: find_u64(attrs, "num_active_add_files"),
            active_add_files_bytes: find_u64(attrs, "active_add_files_bytes"),
            num_remove_files_seen: find_u64(attrs, "num_remove_files_seen"),
            num_non_file_actions: find_u64(attrs, "num_non_file_actions"),
            num_predicate_filtered: find_u64(attrs, "num_predicate_filtered"),
            peak_hash_set_size: find_u64(attrs, "peak_hash_set_size") as usize,
            dedup_visitor_time_ms: find_u64(attrs, "dedup_visitor_time_ms"),
            predicate_eval_time_ms: find_u64(attrs, "predicate_eval_time_ms"),
        }
    }

    /// The event as text.
    pub open spec fn text(self) -> Seq<char> {
        "ScanMetadataCompleted(id="@
            + uuid_text(self.operation_id.0)
            + ", scan_type="@
            + self.scan_type.text()
            + ", duration="@
            + duration_debug(self.duration)
            + ", add_files_seen="@
            + decimal(self.num_add_files_seen as nat)
            + ", active_add_files="@
            + decimal(self.num_active_add_files as nat)
            + ", active_add_files_bytes="@
            + decimal(self.active_add_files_bytes as nat)
            + ", remove_files_seen="@
            + decimal(self.num_remove_files_seen as nat)
            + ", non_file_actions="@
            + decimal(self.num_non_file_actions as nat)
            + ", predicate_filtered="@
            + decimal(self.num_predicate_filtered as nat)
            + ", peak_hash_set_size="@
            + decimal(self.peak_hash_set_size as nat)
            + ", dedup_visitor_time_ms="@
            + decimal(self.dedup_visitor_time_ms as nat)
            + ", predicate_eval_time_ms="@
            + decimal(self.predicate_eval_time_ms as nat)
            + ")"@
    }

    /// The event as text.
    pub fn to_text(&self) -> (r: String)
        ensures
            r@ == self.text(),
    {
        let mut out = String::new();
        out.append("ScanMetadataCompleted(id=");
        push_id(&mut out, self.operation_id);
        out.append(", scan_type=");
        out.append(self.scan_type.as_text());
        out.append(", duration=");
        push_duration(&mut out, self.duration);
        out.append(", add_files_seen=");
        push_decimal(&mut out, self.num_add_files_seen as u128);
        out.append(", active_add_files=");
        push_decimal(&mut out, self.num_active_add_files as u128);
        out.append(", active_add_files_bytes=");
        push_decimal(&mut out, self.active_add_files_bytes as u128);
        out.append(", remove_files_seen=");
        push_decimal(&mut out, self.num_remove_files_seen as u128);
        out.append(", non_file_actions=");
        push_decimal(&mut out, self.num_non_file_actions as u128);
        out.append(", predicate_filtered=");
        push_decimal(&mut out, self.num_predicate_filtered as u128);
        out.append(", peak_hash_set_size=");
        push_decimal(&mut out, self.peak_hash_set_size as u128);
        out.append(", dedup_visitor_time_ms=");
        push_decimal(&mut out, self.dedup_visitor_time_ms as u128);
        out.append(", predicate_eval_time_ms=");
        push_decimal(&mut out, self.predicate_eval_time_ms as u128);
        out.append(")");
        assert(out@ =~= self.text());
        out
    }
}

// === Storage events ===
//
// The three storage events share a span and differ in the `name` field of it.

pub const STORAGE_SPAN: &'static str = "storage";

/// A storage list operation completed.
#[derive(Debug, Clone, Copy)]
pub struct StorageListCompleted {
    pub duration: u64,
    pub num_files: u64,
}

impl StorageListCompleted {
    /// The value of the `name` field of the span.
    pub const NAME: &'static str = "list_completed";

    /// The event as text.
    pub open spec fn text(self) -> Seq<char> {
        "StorageListCompleted(duration="@
            + duration_debug(self.duration)
            + ", files="@
            + decimal(self.num_files as nat)
            + ")"@
    }

    /// The event as text.
    pub fn to_text(&self) -> (r: String)
        ensures
            r@ == self.text(),
    {
        let mut out = String::new();
        out.append("StorageListCompleted(duration=");
        push_duration(&mut out, self.duration);
        out.append(", files=");
        push_decimal(&mut out, self.num_files as u128);
        out.append(")");
        assert(out@ =~= self.text());
        out
    }
}

/// A storage read operation completed.
#[derive(Debug, Clone, Copy)]
pub struct StorageReadCompleted {
    pub duration: u64,
    pub num_files: u64,
    pub bytes_read: u64,
}

impl StorageReadCompleted {
    /// The value of the `name` field of the span.
    pub const NAME: &'static str = "read_completed";

    /// The event as text.
    pub open spec fn text(self) -> Seq<char> {
        "StorageReadCompleted(duration="@
            + duration_debug(self.duration)
            + ", files="@
            + decimal(self.num_files as nat)
            + ", bytes="@
            + decimal(self.bytes_read as nat)
            + ")"@
    }

    /// The event as text.
    pub fn to_text(&self) -> (r: String)
        ensures
            r@ == self.text(),
    {
        let mut out = String::new();
        out.append("StorageReadCompleted(duration=");
        push_duration(&mut out, self.duration);
        out.append(", files=");
        push_decimal(&mut out, self.num_files as u128);
        out.append(", bytes=");
        push_decimal(&mut out, self.bytes_read as u128);
        out.append(")");
        assert(out@ =~= self.text());
        out
    }
}

/// A storage copy or rename operation completed.
#[derive(Debug, Clone, Copy)]
pub struct StorageCopyCompleted {
    pub duration: u64,
}

impl StorageCopyCompleted {
    /// The value of the `name` field of the span.
    pub const NAME: &'static str = "copy_completed";

    /// The event as text.
    pub open spec fn text(self) -> Seq<char> {
        "StorageCopyCompleted(duration="@
            + duration_debug(self.duration)
            + ")"@
    }

    /// The event as text.
    pub fn to_text(&self) -> (r: String)
        ensures
            r@ == self.text(),
    {
        let mut out = String::new();
        out.append("StorageCopyCompleted(duration=");
        push_duration(&mut out, self.duration);
        out.append(")");
        assert(out@ =~= self.text());
        out
    }
}

/// The storage event of a span with the given attributes. None where the name of the event is missing
/// or unknown.
pub open spec fn storage_event(attrs: Seq<Attr>) -> Option<MetricEvent> {
    let duration = last_u64(attrs, "duration_ns"@);
    let num_files = last_u64(attrs, "num_files"@);
    let bytes_read = last_u64(attrs, "bytes_read"@);
    match last_str(attrs, "name"@) {
        None => None,
        Some(name) => if name == StorageListCompleted::NAME@ {
            Some(MetricEvent::StorageListCompleted(StorageListCompleted { duration, num_files }))
        } else if name == StorageReadCompleted::NAME@ {
            Some(
                MetricEvent::StorageReadCompleted(
                    StorageReadCompleted { duration, num_files, bytes_read },
                ),
            )
        } else if name == StorageCopyCompleted::NAME@ {
            Some(MetricEvent::StorageCopyCompleted(StorageCopyCompleted { duration }))
        } else {
            None
        },
    }
}

/// The storage event of a span with the given attributes. None where the name of the event is missing
/// or unknown.
pub fn storage_metric_from_attrs(attrs: &Vec<Attr>) -> (r: Option<MetricEvent>)
    ensures
        r == storage_event(attrs@),
{
    let duration = find_u64(attrs, "duration_ns");
    let num_files = find_u64(attrs, "num_files");
    let bytes_read = find_u64(attrs, "bytes_read");
    match find_str(attrs, "name") {
        None => None,
        Some(name) => if same_text(name, StorageListCompleted::NAME) {
            Some(MetricEvent::StorageListCompleted(StorageListCompleted { duration, num_files }))
        } else if same_text(name, StorageReadCompleted::NAME) {
            Some(
                MetricEvent::StorageReadCompleted(
                    StorageReadCompleted { duration, num_files, bytes_read },
                ),
            )
        } else if same_text(name, StorageCopyCompleted::NAME) {
            Some(MetricEvent::StorageCopyCompleted(StorageCopyCompleted { duration }))
        } else {
            None
        },
    }
}

// === MetricEvent ===

/// Metric events emitted during operations.
#[derive(Debug, Clone)]
pub enum MetricEvent {
    LogSegmentLoadSuccess(LogSegmentLoadSuccess),
    LogSegmentLoadFailure(LogSegmentLoadFailure),
    ProtocolMetadataLoadSuccess(ProtocolMetadataLoadSuccess),
    ProtocolMetadataLoadFailure(ProtocolMetadataLoadFailure),
    SnapshotBuildSuccess(SnapshotBuildSuccess),
    SnapshotBuildFailure(SnapshotBuildFailure),
    TransactionCommitSuccess(TransactionCommitSuccess),
    TransactionCommitFailure(TransactionCommitFailure),
    DomainMetadataLoadSuccess(DomainMetadataLoadSuccess),
    DomainMetadataLoadFailure,
    SetTransactionLoadSuccess(SetTransactionLoadSuccess),
    SetTransactionLoadFailure,
    CrcReadSuccess(CrcReadSuccess),
    CrcReadFailure,
    JsonReadCompleted(JsonReadCompleted),
    ParquetReadCompleted(ParquetReadCompleted),
    ScanMetadataCompleted(ScanMetadataCompleted),
    StorageListCompleted(StorageListCompleted),
    StorageReadCompleted(StorageReadCompleted),
    StorageCopyCompleted(StorageCopyCompleted),
}

impl MetricEvent {
    /// The name of the span that carries the event.
    pub open spec fn span_name(self) -> Seq<char> {
        match self {
            MetricEvent::LogSegmentLoadSuccess(_) => LogSegmentLoadSuccess::SPAN_NAME@,
            MetricEvent::LogSegmentLoadFailure(_) => LogSegmentLoadSuccess::SPAN_NAME@,
            MetricEvent::ProtocolMetadataLoadSuccess(_) => ProtocolMetadataLoadSuccess::SPAN_NAME@,
            MetricEvent::ProtocolMetadataLoadFailure(_) => ProtocolMetadataLoadSuccess::SPAN_NAME@,
            MetricEvent::SnapshotBuildSuccess(_) => SnapshotBuildSuccess::SPAN_NAME@,
            MetricEvent::SnapshotBuildFailure(_) => SnapshotBuildSuccess::SPAN_NAME@,
            MetricEvent::TransactionCommitSuccess(_) => TransactionCommitSuccess::SPAN_NAME@,
            MetricEvent::TransactionCommitFailure(_) => TransactionCommitSuccess::SPAN_NAME@,
            MetricEvent::DomainMetadataLoadSuccess(_) => DomainMetadataLoadSuccess::SPAN_NAME@,
            MetricEvent::DomainMetadataLoadFailure => DomainMetadataLoadSuccess::SPAN_NAME@,
            MetricEvent::SetTransactionLoadSuccess(_) => SetTransactionLoadSuccess::SPAN_NAME@,
            MetricEvent::SetTransactionLoadFailure => SetTransactionLoadSuccess::SPAN_NAME@,
            MetricEvent::CrcReadSuccess(_) => CrcReadSuccess::SPAN_NAME@,
            MetricEvent::CrcReadFailure => CrcReadSuccess::SPAN_NAME@,
            MetricEvent::JsonReadCompleted(_) => JsonReadCompleted::SPAN_NAME@,
            MetricEvent::ParquetReadCompleted(_) => ParquetReadCompleted::SPAN_NAME@,
            MetricEvent::ScanMetadataCompleted(_) => ScanMetadataCompleted::SPAN_NAME@,
            MetricEvent::StorageListCompleted(_) => STORAGE_SPAN@,
            MetricEvent::StorageReadCompleted(_) => STORAGE_SPAN@,
            MetricEvent::StorageCopyCompleted(_) => STORAGE_SPAN@,
        }
    }

    /// The event as text.
    pub open spec fn text(self) -> Seq<char> {
        match self {
            MetricEvent::LogSegmentLoadSuccess(e) => e.text(),
            MetricEvent::LogSegmentLoadFailure(e) => e.text(),
            MetricEvent::ProtocolMetadataLoadSuccess(e) => e.text(),
            MetricEvent::ProtocolMetadataLoadFailure(e) => e.text(),
            MetricEvent::SnapshotBuildSuccess(e) => e.text(),
            MetricEvent::SnapshotBuildFailure(e) => e.text(),
            MetricEvent::TransactionCommitSuccess(e) => e.text(),
            MetricEvent::TransactionCommitFailure(e) => e.text(),
            MetricEvent::DomainMetadataLoadSuccess(e) => e.text(),
            MetricEvent::DomainMetadataLoadFailure => "DomainMetadataLoadFailure"@,
            MetricEvent::SetTransactionLoadSuccess(e) => e.text(),
            MetricEvent::SetTransactionLoadFailure => "SetTransactionLoadFailure"@,
            MetricEvent::CrcReadSuccess(e) => e.text(),
            MetricEvent::CrcReadFailure => "CrcReadFailure"@,
            MetricEvent::JsonReadCompleted(e) => e.text(),
            MetricEvent::ParquetReadCompleted(e) => e.text(),
            MetricEvent::ScanMetadataCompleted(e) => e.text(),
            MetricEvent::StorageListCompleted(e) => e.text(),
            MetricEvent::StorageReadCompleted(e) => e.text(),
            MetricEvent::StorageCopyCompleted(e) => e.text(),
        }
    }

    /// The event as text.
    pub fn to_text(&self) -> (r: String)
        ensures
            r@ == self.text(),
    {
        match self {
            MetricEvent::LogSegmentLoadSuccess(e) => e.to_text(),
            MetricEvent::LogSegmentLoadFailure(e) => e.to_text(),
            MetricEvent::ProtocolMetadataLoadSuccess(e) => e.to_text(),
            MetricEvent::ProtocolMetadataLoadFailure(e) => e.to_text(),
            MetricEvent::SnapshotBuildSuccess(e) => e.to_text(),
            MetricEvent::SnapshotBuildFailure(e) => e.to_text(),
            MetricEvent::TransactionCommitSuccess(e) => e.to_text(),
            MetricEvent::TransactionCommitFailure(e) => e.to_text(),
            MetricEvent::DomainMetadataLoadSuccess(e) => e.to_text(),
            MetricEvent::DomainMetadataLoadFailure => "DomainMetadataLoadFailure".to_owned(),
            MetricEvent::SetTransactionLoadSuccess(e) => e.to_text(),
            MetricEvent::SetTransactionLoadFailure => "SetTransactionLoadFailure".to_owned(),
            MetricEvent::CrcReadSuccess(e) => e.to_text(),
            MetricEvent::CrcReadFailure => "CrcReadFailure".to_owned(),
            MetricEvent::JsonReadCompleted(e) => e.to_text(),
            MetricEvent::ParquetReadCompleted(e) => e.to_text(),
            MetricEvent::ScanMetadataCompleted(e) => e.to_text(),
            MetricEvent::StorageListCompleted(e) => e.to_text(),
            MetricEvent::StorageReadCompleted(e) => e.to_text(),
            MetricEvent::StorageCopyCompleted(e) => e.to_text(),
        }
    }

    /// The event with the duration set, if it is one whose duration is set when the span is closed.
    pub open spec fn with_duration(self, d: u64) -> MetricEvent {
        match self {
            MetricEvent::LogSegmentLoadSuccess(e) => MetricEvent::LogSegmentLoadSuccess(
                LogSegmentLoadSuccess { duration: d, ..e },
            ),
            MetricEvent::ProtocolMetadataLoadSuccess(e) => MetricEvent::ProtocolMetadataLoadSuccess(
                ProtocolMetadataLoadSuccess { duration: d, ..e },
            ),
            MetricEvent::SnapshotBuildSuccess(e) => MetricEvent::SnapshotBuildSuccess(
                SnapshotBuildSuccess { duration: d, ..e },
            ),
            MetricEvent::TransactionCommitSuccess(e) => MetricEvent::TransactionCommitSuccess(
                TransactionCommitSuccess { total_duration: d, ..e },
            ),
            MetricEvent::DomainMetadataLoadSuccess(e) => MetricEvent::DomainMetadataLoadSuccess(
                DomainMetadataLoadSuccess { duration: d, ..e },
            ),
            MetricEvent::SetTransactionLoadSuccess(e) => MetricEvent::SetTransactionLoadSuccess(
                SetTransactionLoadSuccess { duration: d, ..e },
            ),
            MetricEvent::CrcReadSuccess(e) => MetricEvent::CrcReadSuccess(
                CrcReadSuccess { duration: d, ..e },
            ),
            _ => self,
        }
    }

    /// Sets the duration of an event whose duration is set when the span is closed. Failure events carry
    /// none, storage and scan events got theirs when the span was opened, and read events have none.
    pub fn set_duration_if_applicable(&mut self, d: u64)
        ensures
            *final(self) == old(self).with_duration(d),
    {
        match self {
            MetricEvent::LogSegmentLoadSuccess(e) => e.set_duration(d),
            MetricEvent::ProtocolMetadataLoadSuccess(e) => e.set_duration(d),
            MetricEvent::SnapshotBuildSuccess(e) => e.set_duration(d),
            MetricEvent::TransactionCommitSuccess(e) => e.set_duration(d),
            MetricEvent::DomainMetadataLoadSuccess(e) => e.set_duration(d),
            MetricEvent::SetTransactionLoadSuccess(e) => e.set_duration(d),
            MetricEvent::CrcReadSuccess(e) => e.set_duration(d),
            MetricEvent::LogSegmentLoadFailure(_)
            | MetricEvent::ProtocolMetadataLoadFailure(_)
            | MetricEvent::SnapshotBuildFailure(_)
            | MetricEvent::TransactionCommitFailure(_)
            | MetricEvent::DomainMetadataLoadFailure
            | MetricEvent::SetTransactionLoadFailure
            | MetricEvent::CrcReadFailure
            | MetricEvent::JsonReadCompleted(_)
            | MetricEvent::ParquetReadCompleted(_)
            | MetricEvent::ScanMetadataCompleted(_)
            | MetricEvent::StorageListCompleted(_)
            | MetricEvent::StorageReadCompleted(_)
            | MetricEvent::StorageCopyCompleted(_) => {},
        }
    }

    /// The event after a value was recorded under a name, if it has such a field that is set while the
    /// span is open.
    pub open spec fn with_u64(self, name: Seq<char>, value: u64) -> Option<MetricEvent> {
        match self {
            MetricEvent::LogSegmentLoadSuccess(e) => match e.with_u64(name, value) {
                Some(e) => Some(MetricEvent::LogSegmentLoadSuccess(e)),
                None => None,
            },
            MetricEvent::SnapshotBuildSuccess(e) => match e.with_u64(name, value) {
                Some(e) => Some(MetricEvent::SnapshotBuildSuccess(e)),
                None => None,
            },
            MetricEvent::TransactionCommitSuccess(e) => match e.with_u64(name, value) {
                Some(e) => Some(MetricEvent::TransactionCommitSuccess(e)),
                None => None,
            },
            MetricEvent::DomainMetadataLoadSuccess(e) => match e.with_u64(name, value) {
                Some(e) => Some(MetricEvent::DomainMetadataLoadSuccess(e)),
                None => None,
            },
            MetricEvent::CrcReadSuccess(e) => match e.with_u64(name, value) {
                Some(e) => Some(MetricEvent::CrcReadSuccess(e)),
                None => None,
            },
            _ => None,
        }
    }

    /// Records a value under a name while the span is open. The error is the name of the span.
    pub fn record_u64(&mut self, name: &str, value: u64) -> (r: Result<(), &'static str>)
        ensures
            match r {
                Ok(_) => old(self).with_u64(name@, value) == Some(*final(self)),
                Err(span) => old(self).with_u64(name@, value) is None && *final(self) == *old(
                    self,
                ) && span@ == old(self).span_name(),
            },
    {
        match self {
            MetricEvent::LogSegmentLoadSuccess(e) => e.record_u64(name, value),
            MetricEvent::LogSegmentLoadFailure(_) => Err(LogSegmentLoadSuccess::SPAN_NAME),
            MetricEvent::ProtocolMetadataLoadSuccess(_) => Err(ProtocolMetadataLoadSuccess::SPAN_NAME),
            MetricEvent::ProtocolMetadataLoadFailure(_) => Err(ProtocolMetadataLoadSuccess::SPAN_NAME),
            MetricEvent::SnapshotBuildSuccess(e) => e.record_u64(name, value),
            MetricEvent::SnapshotBuildFailure(_) => Err(SnapshotBuildSuccess::SPAN_NAME),
            MetricEvent::TransactionCommitSuccess(e) => e.record_u64(name, value),
            MetricEvent::TransactionCommitFailure(_) => Err(TransactionCommitSuccess::SPAN_NAME),
            MetricEvent::DomainMetadataLoadSuccess(e) => e.record_u64(name, value),
            MetricEvent::DomainMetadataLoadFailure => Err(DomainMetadataLoadSuccess::SPAN_NAME),
            MetricEvent::SetTransactionLoadSuccess(_) => Err(SetTransactionLoadSuccess::SPAN_NAME),
            MetricEvent::SetTransactionLoadFailure => Err(SetTransactionLoadSuccess::SPAN_NAME),
            MetricEvent::CrcReadSuccess(e) => e.record_u64(name, value),
            MetricEvent::CrcReadFailure => Err(CrcReadSuccess::SPAN_NAME),
            MetricEvent::JsonReadCompleted(_) => Err(JsonReadCompleted::SPAN_NAME),
            MetricEvent::ParquetReadCompleted(_) => Err(ParquetReadCompleted::SPAN_NAME),
            MetricEvent::ScanMetadataCompleted(_) => Err(ScanMetadataCompleted::SPAN_NAME),
            MetricEvent::StorageListCompleted(_) => Err(STORAGE_SPAN),
            MetricEvent::StorageReadCompleted(_) => Err(STORAGE_SPAN),
            MetricEvent::StorageCopyCompleted(_) => Err(STORAGE_SPAN),
        }
    }

    /// The event after a value was recorded under a name, if it has such a field that is set while the
    /// span is open.
    pub open spec fn with_bool(self, name: Seq<char>, value: bool) -> Option<MetricEvent> {
        match self {
            MetricEvent::LogSegmentLoadSuccess(e) => match e.with_bool(name, value) {
                Some(e) => Some(MetricEvent::LogSegmentLoadSuccess(e)),
                None => None,
            },
            MetricEvent::TransactionCommitSuccess(e) => match e.with_bool(name, value) {
                Some(e) => Some(MetricEvent::TransactionCommitSuccess(e)),
                None => None,
            },
            MetricEvent::DomainMetadataLoadSuccess(e) => match e.with_bool(name, value) {
                Some(e) => Some(MetricEvent::DomainMetadataLoadSuccess(e)),
                None => None,
            },
            MetricEvent::SetTransactionLoadSuccess(e) => match e.with_bool(name, value) {
                Some(e) => Some(MetricEvent::SetTransactionLoadSuccess(e)),
                None => None,
            },
            _ => None,
        }
    }

    /// Records a value under a name while the span is open. The error is the name of the span.
    pub fn record_bool(&mut self, name: &str, value: bool) -> (r: Result<(), &'static str>)
        ensures
            match r {
                Ok(_) => old(self).with_bool(name@, value) == Some(*final(self)),
                Err(span) => old(self).with_bool(name@, value) is None && *final(self) == *old(
                    self,
                ) && span@ == old(self).span_name(),
            },
    {
        match self {
            MetricEvent::LogSegmentLoadSuccess(e) => e.record_bool(name, value),
            MetricEvent::LogSegmentLoadFailure(_) => Err(LogSegmentLoadSuccess::SPAN_NAME),
            MetricEvent::ProtocolMetadataLoadSuccess(_) => Err(ProtocolMetadataLoadSuccess::SPAN_NAME),
            MetricEvent::ProtocolMetadataLoadFailure(_) => Err(ProtocolMetadataLoadSuccess::SPAN_NAME),
            MetricEvent::SnapshotBuildSuccess(_) => Err(SnapshotBuildSuccess::SPAN_NAME),
            MetricEvent::SnapshotBuildFailure(_) => Err(SnapshotBuildSuccess::SPAN_NAME),
            MetricEvent::TransactionCommitSuccess(e) => e.record_bool(name, value),
            MetricEvent::TransactionCommitFailure(_) => Err(TransactionCommitSuccess::SPAN_NAME),
            MetricEvent::DomainMetadataLoadSuccess(e) => e.record_bool(name, value),
            MetricEvent::DomainMetadataLoadFailure => Err(DomainMetadataLoadSuccess::SPAN_NAME),
            MetricEvent::SetTransactionLoadSuccess(e) => e.record_bool(name, value),
            MetricEvent::SetTransactionLoadFailure => Err(SetTransactionLoadSuccess::SPAN_NAME),
            MetricEvent::CrcReadSuccess(_) => Err(CrcReadSuccess::SPAN_NAME),
            MetricEvent::CrcReadFailure => Err(CrcReadSuccess::SPAN_NAME),
            MetricEvent::JsonReadCompleted(_) => Err(JsonReadCompleted::SPAN_NAME),
            MetricEvent::ParquetReadCompleted(_) => Err(ParquetReadCompleted::SPAN_NAME),
            MetricEvent::ScanMetadataCompleted(_) => Err(ScanMetadataCompleted::SPAN_NAME),
            MetricEvent::StorageListCompleted(_) => Err(STORAGE_SPAN),
            MetricEvent::StorageReadCompleted(_) => Err(STORAGE_SPAN),
            MetricEvent::StorageCopyCompleted(_) => Err(STORAGE_SPAN),
        }
    }

    /// Records a string under a name while the span is open. A `failure_reason` makes a successful
    /// commit a failed one; an unknown reason is a terminal error. The error is the name of the span.
    pub fn record_str(&mut self, name: &str, value: &str) -> (r: Result<(), &'static str>)
        ensures
            if name@ == "failure_reason"@ {
                r is Ok && *final(self) == old(self).failed_because(value@)
            } else {
                match *old(self) {
                    MetricEvent::TransactionCommitSuccess(before) => match r {
                        Ok(_) => name@ == "operation"@ && (match *final(self) {
                            MetricEvent::TransactionCommitSuccess(after) => after == (
                            TransactionCommitSuccess { operation: after.operation, ..before })
                                && opt_text(after.operation) == Some(value@),
                            _ => false,
                        }),
                        Err(span) => name@ != "operation"@ && *final(self) == *old(self) && span@
                            == old(self).span_name(),
                    },
                    _ => r is Ok && *final(self) == *old(self),
                }
            },
    {
        if same_text(name, "failure_reason") {
            if let MetricEvent::TransactionCommitSuccess(e) = self {
                let operation_id = e.operation_id;
                let reason = match CommitFailureReason::parse(value) {
                    Some(reason) => reason,
                    None => CommitFailureReason::Error,
                };
                *self =
                MetricEvent::TransactionCommitFailure(
                    TransactionCommitFailure { operation_id, reason },
                );
            }
            return Ok(());
        }
        match self {
            MetricEvent::TransactionCommitSuccess(e) => e.record_str(name, value),
            _ => Ok(()),
        }
    }

    /// A successful commit as a failed one, with the reason of that name. Other events stay.
    pub open spec fn failed_because(self, reason: Seq<char>) -> MetricEvent {
        match self {
            MetricEvent::TransactionCommitSuccess(e) => MetricEvent::TransactionCommitFailure(
                TransactionCommitFailure {
                    operation_id: e.operation_id,
                    reason: match CommitFailureReason::named(reason) {
                        Some(reason) => reason,
                        None => CommitFailureReason::Error,
                    },
                },
            ),
            _ => self,
        }
    }

    /// The failure counterpart of a success event. Events without one stay.
    pub open spec fn failure(self) -> MetricEvent {
        match self {
            MetricEvent::LogSegmentLoadSuccess(e) => MetricEvent::LogSegmentLoadFailure(
                LogSegmentLoadFailure { operation_id: e.operation_id },
            ),
            MetricEvent::ProtocolMetadataLoadSuccess(e) => MetricEvent::ProtocolMetadataLoadFailure(
                ProtocolMetadataLoadFailure { operation_id: e.operation_id },
            ),
            MetricEvent::SnapshotBuildSuccess(e) => MetricEvent::SnapshotBuildFailure(
                SnapshotBuildFailure { operation_id: e.operation_id },
            ),
            MetricEvent::TransactionCommitSuccess(e) => MetricEvent::TransactionCommitFailure(
                TransactionCommitFailure {
                    operation_id: e.operation_id,
                    reason: CommitFailureReason::Error,
                },
            ),
            MetricEvent::DomainMetadataLoadSuccess(_) => MetricEvent::DomainMetadataLoadFailure,
            MetricEvent::SetTransactionLoadSuccess(_) => MetricEvent::SetTransactionLoadFailure,
            MetricEvent::CrcReadSuccess(_) => MetricEvent::CrcReadFailure,
            _ => self,
        }
    }

    /// Maps a success event to its failure counterpart when the span ends in an error.
    pub fn into_failure(self) -> (r: MetricEvent)
        ensures
            r == self.failure(),
    {
        match self {
            MetricEvent::LogSegmentLoadSuccess(e) => MetricEvent::LogSegmentLoadFailure(
                LogSegmentLoadFailure { operation_id: e.operation_id },
            ),
            MetricEvent::ProtocolMetadataLoadSuccess(e) => MetricEvent::ProtocolMetadataLoadFailure(
                ProtocolMetadataLoadFailure { operation_id: e.operation_id },
            ),
            MetricEvent::SnapshotBuildSuccess(e) => MetricEvent::SnapshotBuildFailure(
                SnapshotBuildFailure { operation_id: e.operation_id },
            ),
            MetricEvent::TransactionCommitSuccess(e) => MetricEvent::TransactionCommitFailure(
                TransactionCommitFailure {
                    operation_id: e.operation_id,
                    reason: CommitFailureReason::Error,
                },
            ),
            MetricEvent::DomainMetadataLoadSuccess(_) => MetricEvent::DomainMetadataLoadFailure,
            MetricEvent::SetTransactionLoadSuccess(_) => MetricEvent::SetTransactionLoadFailure,
            MetricEvent::CrcReadSuccess(_) => MetricEvent::CrcReadFailure,
            e => e,
        }
    }
}

// === Spans to open ===

/// A span that carries an event: its name and the attributes that it is opened with.
#[derive(Debug)]
pub struct SpanRequest {
    pub name: &'static str,
    pub attrs: Vec<Attr>,
}

/// A number under a name.
fn u64_attr(name: &str, value: u64) -> (r: Attr)
    ensures
        r.name@ == name@,
        r.value == AttrValue::U64(value),
        r.debug@ == decimal(value as nat),
{
    Attr {
        name: name.to_owned(),
        value: AttrValue::U64(value),
        debug: crate::text::decimal_text(value),
    }
}

/// A value under a name of which only the text is recorded.
fn text_attr(name: &str, text: String) -> (r: Attr)
    ensures
        r.name@ == name@,
        r.value == AttrValue::Other,
        r.debug@ == text@,
{
    Attr { name: name.to_owned(), value: AttrValue::Other, debug: text }
}

/// Is it the number under the name?
pub open spec fn is_u64_attr(attr: Attr, name: Seq<char>, value: u64) -> bool {
    attr.name@ == name && attr.value == AttrValue::U64(value) && attr.debug@ == decimal(value as nat)
}

/// Is it the text under the name?
pub open spec fn is_text_attr(attr: Attr, name: Seq<char>, text: Seq<char>) -> bool {
    attr.name@ == name && attr.value == AttrValue::Other && attr.debug@ == text
}

/// The attributes with which the span of a file read is opened.
pub open spec fn are_read_attrs(attrs: Seq<Attr>, num_files: u64, bytes_read: u64) -> bool {
    &&& attrs.len() == 2
    &&& is_u64_attr(attrs[0], "num_files"@, num_files)
    &&& is_u64_attr(attrs[1], "bytes_read"@, bytes_read)
}

fn read_attrs(num_files: u64, bytes_read: u64) -> (r: Vec<Attr>)
    ensures
        are_read_attrs(r@, num_files, bytes_read),
{
    let mut attrs: Vec<Attr> = Vec::new();
    attrs.push(u64_attr("num_files", num_files));
    attrs.push(u64_attr("bytes_read", bytes_read));
    attrs
}

/// The span of a [`MetricEvent::JsonReadCompleted`]. It is opened once for each read, when the iterator
/// over the files is exhausted or dropped.
pub fn emit_json_read_completed(num_files: u64, bytes_read: u64) -> (r: SpanRequest)
    ensures
        r.name@ == JsonReadCompleted::SPAN_NAME@,
        are_read_attrs(r.attrs@, num_files, bytes_read),
{
    SpanRequest { name: JsonReadCompleted::SPAN_NAME, attrs: read_attrs(num_files, bytes_read) }
}

/// The span of a [`MetricEvent::ParquetReadCompleted`]. It is opened once for each read, when the
/// iterator over the files is exhausted or dropped.
pub fn emit_parquet_read_completed(num_files: u64, bytes_read: u64) -> (r: SpanRequest)
    ensures
        r.name@ == ParquetReadCompleted::SPAN_NAME@,
        are_read_attrs(r.attrs@, num_files, bytes_read),
{
    SpanRequest { name: ParquetReadCompleted::SPAN_NAME, attrs: read_attrs(num_files, bytes_read) }
}

/// The attributes with which the span of a scan is opened.
pub open spec fn are_scan_attrs(attrs: Seq<Attr>, e: ScanMetadataCompleted) -> bool {
    &&& attrs.len() == 12
    &&& is_text_attr(attrs[0], "operation_id"@, uuid_text(e.operation_id.0))
    &&& parsed_uuid(attrs[0].debug@) == Some(e.operation_id.0)
    &&& is_text_attr(attrs[1], "scan_type"@, e.scan_type.text())
    &&& is_u64_attr(attrs[2], "duration_ns"@, e.duration)
    &&& is_u64_attr(attrs[3], "num_add_files_seen"@, e.num_add_files_seen)
    &&& is_u64_attr(attrs[4], "num_active_add_files"@, e.num_active_add_files)
    &&& is_u64_attr(attrs[5], "active_add_files_bytes"@, e.active_add_files_bytes)
    &&& is_u64_attr(attrs[6], "num_remove_files_seen"@, e.num_remove_files_seen)
    &&& is_u64_attr(attrs[7], "num_non_file_actions"@, e.num_non_file_actions)
    &&& is_u64_attr(attrs[8], "num_predicate_filtered"@, e.num_predicate_filtered)
    &&& is_u64_attr(attrs[9], "peak_hash_set_size"@, e.peak_hash_set_size as u64)
    &&& is_u64_attr(attrs[10], "dedup_visitor_time_ms"@, e.dedup_visitor_time_ms)
    &&& is_u64_attr(attrs[11], "predicate_eval_time_ms"@, e.predicate_eval_time_ms)
}

/// The span of a [`MetricEvent::ScanMetadataCompleted`]. It is opened when the iterator over the scan
/// metadata is exhausted or dropped.
pub fn emit_scan_metadata_completed(e: &ScanMetadataCompleted) -> (r: SpanRequest)
    ensures
        r.name@ == ScanMetadataCompleted::SPAN_NAME@,
        are_scan_attrs(r.attrs@, *e),
{
    let mut attrs: Vec<Attr> = Vec::new();
    attrs.push(text_attr("operation_id", uuid_to_string(e.operation_id.0)));
    attrs.push(text_attr("scan_type", e.scan_type.as_text().to_owned()));
    attrs.push(u64_attr("duration_ns", e.duration));
    attrs.push(u64_attr("num_add_files_seen", e.num_add_files_seen));
    attrs.push(u64_attr("num_active_add_files", e.num_active_add_files));
    attrs.push(u64_attr("active_add_files_bytes", e.active_add_files_bytes));
    attrs.push(u64_attr("num_remove_files_seen", e.num_remove_files_seen));
    attrs.push(u64_attr("num_non_file_actions", e.num_non_file_actions));
    attrs.push(u64_attr("num_predicate_filtered", e.num_predicate_filtered));
    attrs.push(u64_attr("peak_hash_set_size", e.peak_hash_set_size as u64));
    attrs.push(u64_attr("dedup_visitor_time_ms", e.dedup_visitor_time_ms));
    attrs.push(u64_attr("predicate_eval_time_ms", e.predicate_eval_time_ms));
    SpanRequest { name: ScanMetadataCompleted::SPAN_NAME, attrs }
}

} // verus!
