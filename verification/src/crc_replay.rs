//! Reverse log replay for incremental checksums.
//!
//! The commits after a base version, read from the newest to the oldest, are folded into a
//! [`CrcDelta`]. Applied to what is known at the base version, it gives what is known at the last
//! version.

use vstd::prelude::*;

use crate::actions::{DomainMetadata, MetadataView, ProtocolView, SetTransaction};
use crate::columns::{have_rows, ColumnData};
use crate::crc::{
    histogram_view, CrcDelta, CrcDeltaView, FileSizeHistogram, FileStatsDelta, FileStatsDeltaView,
    HistogramView,
};
use crate::error::{DeltaResult, Error, ErrorView};
use crate::expressions::ColumnName;
use crate::replay_rows::{
    batch_of, read_add_size, read_commit_info, read_domain, read_file_url, read_remove,
    read_transaction, readable, row_at, visit_metadata_at, visit_protocol_at, BatchView, RowView,
};
use crate::schema::{ArrayType, DataType, DataTypeView, MapType, PrimitiveType};
use crate::string_map::StringMap;
use crate::text::{
    decimal, decimal_int, decimal_int_text, decimal_text, join2, opt_str, opt_text, same_text, split_on,
    texts,
};

verus! {

/// The in-progress [`CrcDelta`] and what is needed to build it from the newest commit to the
/// oldest.
#[derive(Debug)]
pub struct CrcReplayAccumulator {
    pub delta: CrcDelta,
    /// True while the replay is still on the newest commit, the only one whose timestamp counts.
    pub is_first_commit: bool,
    /// The commit file that is being processed. Another URL means an older commit.
    pub current_file_url: Option<String>,
    /// Did the current commit add or remove a file?
    pub current_commit_saw_file_action: bool,
    /// Did the current commit name an operation after which file statistics can be trusted?
    pub current_commit_saw_safe_op: bool,
    /// The operations after which file statistics can be trusted.
    pub safe_operations: Vec<String>,
}

/// The state of a [`CrcReplayAccumulator`].
#[verifier::ext_equal]
pub struct ReplayView {
    pub delta: CrcDeltaView,
    pub is_first_commit: bool,
    pub current_file_url: Option<Seq<char>>,
    pub saw_file_action: bool,
    pub saw_safe_op: bool,
    pub safe_operations: Seq<Seq<char>>,
}

impl View for CrcReplayAccumulator {
    type V = ReplayView;

    open spec fn view(&self) -> ReplayView {
        ReplayView {
            delta: self.delta@,
            is_first_commit: self.is_first_commit,
            current_file_url: opt_text(self.current_file_url),
            saw_file_action: self.current_commit_saw_file_action,
            saw_safe_op: self.current_commit_saw_safe_op,
            safe_operations: texts(self.safe_operations@),
        }
    }
}

/// The state after a step, and whether the step failed.
pub type Step = (ReplayView, Result<(), ErrorView>);

/// The largest count of files or bytes.
pub open spec fn max_count() -> int {
    u64::MAX as int
}

/// The error for a negative file size.
pub open spec fn negative_size_error(size: i64) -> ErrorView {
    ErrorView::Generic("File size must not be negative: "@ + decimal_int(size as int))
}

/// The error for statistics that do not fit.
pub open spec fn overflow_error() -> ErrorView {
    ErrorView::InternalError("File statistics overflow"@)
}

/// The error of a histogram that cannot count a file.
pub open spec fn histogram_error() -> ErrorView {
    ErrorView::InternalError("File size out of range"@)
}

impl ReplayView {
    /// The state before the first batch.
    pub open spec fn start(
        seed_histogram: Option<HistogramView>,
        safe_operations: Seq<Seq<char>>,
    ) -> ReplayView {
        ReplayView {
            delta: CrcDeltaView {
                file_stats: FileStatsDeltaView {
                    gross_add_files: 0,
                    gross_add_bytes: 0,
                    gross_remove_files: 0,
                    gross_remove_bytes: 0,
                    net_histogram: seed_histogram,
                },
                protocol: None,
                metadata: None,
                domain_metadata: Map::empty(),
                set_transactions: Map::empty(),
                in_commit_timestamp: None,
                is_incremental_safe: true,
            },
            is_first_commit: true,
            current_file_url: None,
            saw_file_action: false,
            saw_safe_op: false,
            safe_operations,
        }
    }

    /// The state with other file statistics.
    pub open spec fn with_stats(self, file_stats: FileStatsDeltaView) -> ReplayView {
        ReplayView { delta: CrcDeltaView { file_stats, ..self.delta }, ..self }
    }

    /// The state in which file statistics are not trusted.
    pub open spec fn unsafe_now(self) -> ReplayView {
        ReplayView { delta: CrcDeltaView { is_incremental_safe: false, ..self.delta }, ..self }
    }

    /// The end of a commit: one that changed files without a safe operation is not trusted.
    pub open spec fn commit_end(self) -> ReplayView {
        if !self.delta.is_incremental_safe {
            self
        } else {
            ReplayView {
                delta: CrcDeltaView {
                    is_incremental_safe: self.saw_safe_op || !self.saw_file_action,
                    ..self.delta
                },
                saw_file_action: false,
                saw_safe_op: false,
                ..self
            }
        }
    }

    /// The start of a batch. A batch of another file ends the commit before it.
    pub open spec fn batch_start(self, url: Seq<char>) -> ReplayView {
        if self.current_file_url == Some(url) {
            self
        } else if self.current_file_url is None {
            ReplayView { current_file_url: Some(url), ..self }
        } else {
            ReplayView {
                is_first_commit: false,
                current_file_url: Some(url),
                ..self.commit_end()
            }
        }
    }

    /// A commitInfo action: the operation decides on safety, the timestamp counts in the newest
    /// commit.
    pub open spec fn commit_info(
        self,
        operation: Option<Seq<char>>,
        timestamp: Option<i64>,
    ) -> ReplayView {
        let classified = match operation {
            None => self,
            Some(op) => if self.safe_operations.contains(op) {
                ReplayView { saw_safe_op: true, ..self }
            } else {
                self.unsafe_now()
            },
        };
        if self.is_first_commit {
            ReplayView {
                delta: CrcDeltaView { in_commit_timestamp: timestamp, ..classified.delta },
                ..classified
            }
        } else {
            classified
        }
    }

    /// An add action.
    pub open spec fn add(self, size: i64) -> Step {
        let seen = ReplayView { saw_file_action: true, ..self };
        let stats = self.delta.file_stats;
        if !self.delta.is_incremental_safe {
            (seen, Ok(()))
        } else if stats.gross_add_files >= max_count() {
            (seen, Err(overflow_error()))
        } else {
            let files = FileStatsDeltaView { gross_add_files: stats.gross_add_files + 1, ..stats };
            if size < 0 {
                (seen.with_stats(files), Err(negative_size_error(size)))
            } else if stats.gross_add_bytes + size > max_count() {
                (seen.with_stats(files), Err(overflow_error()))
            } else {
                let bytes = FileStatsDeltaView {
                    gross_add_bytes: (stats.gross_add_bytes + size) as nat,
                    ..files
                };
                match stats.net_histogram {
                    None => (seen.with_stats(bytes), Ok(())),
                    Some(histogram) => match histogram.count(size, 1) {
                        None => (seen.with_stats(bytes), Err(histogram_error())),
                        Some(next) => (
                            seen.with_stats(
                                FileStatsDeltaView { net_histogram: Some(next), ..bytes },
                            ),
                            Ok(()),
                        ),
                    },
                }
            }
        }
    }

    /// A remove action. Without a size, file statistics cannot be tracked.
    pub open spec fn remove(self, size: Option<i64>) -> Step {
        let seen = ReplayView { saw_file_action: true, ..self };
        let stats = self.delta.file_stats;
        if !self.delta.is_incremental_safe {
            (seen, Ok(()))
        } else {
            match size {
                None => (seen.unsafe_now(), Ok(())),
                Some(size) => if stats.gross_remove_files >= max_count() {
                    (seen, Err(overflow_error()))
                } else {
                    let files = FileStatsDeltaView {
                        gross_remove_files: stats.gross_remove_files + 1,
                        ..stats
                    };
                    if size < 0 {
                        (seen.with_stats(files), Err(negative_size_error(size)))
                    } else if stats.gross_remove_bytes + size > max_count() {
                        (seen.with_stats(files), Err(overflow_error()))
                    } else {
                        let bytes = FileStatsDeltaView {
                            gross_remove_bytes: (stats.gross_remove_bytes + size) as nat,
                            ..files
                        };
                        match stats.net_histogram {
                            None => (seen.with_stats(bytes), Ok(())),
                            Some(histogram) => match histogram.count(size, -1) {
                                None => (seen.with_stats(bytes), Err(histogram_error())),
                                Some(next) => (
                                    seen.with_stats(
                                        FileStatsDeltaView { net_histogram: Some(next), ..bytes },
                                    ),
                                    Ok(()),
                                ),
                            },
                        }
                    }
                },
            }
        }
    }

    /// A domainMetadata action. The first one seen of a domain is its last one in the log.
    pub open spec fn domain_metadata(self, action: DomainMetadata) -> ReplayView {
        if self.delta.domain_metadata.contains_key(action.domain@) {
            self
        } else {
            ReplayView {
                delta: CrcDeltaView {
                    domain_metadata: self.delta.domain_metadata.insert(action.domain@, action),
                    ..self.delta
                },
                ..self
            }
        }
    }

    /// A txn action. The first one seen of an application is its last one in the log.
    pub open spec fn set_transaction(self, action: SetTransaction) -> ReplayView {
        if self.delta.set_transactions.contains_key(action.app_id@) {
            self
        } else {
            ReplayView {
                delta: CrcDeltaView {
                    set_transactions: self.delta.set_transactions.insert(action.app_id@, action),
                    ..self.delta
                },
                ..self
            }
        }
    }

    /// The commitInfo action of a row, if it has an operation or a timestamp.
    pub open spec fn row_commit_info(
        self,
        read: Result<(Option<Seq<char>>, Option<i64>), ErrorView>,
    ) -> Step {
        match read {
            Err(e) => (self, Err(e)),
            Ok((operation, timestamp)) => if operation is Some || timestamp is Some {
                (self.commit_info(operation, timestamp), Ok(()))
            } else {
                (self, Ok(()))
            },
        }
    }

    /// The add action of a row.
    pub open spec fn row_add(self, read: Result<Option<i64>, ErrorView>) -> Step {
        match read {
            Err(e) => (self, Err(e)),
            Ok(None) => (self, Ok(())),
            Ok(Some(size)) => self.add(size),
        }
    }

    /// The remove action of a row.
    pub open spec fn row_remove(self, read: Result<Option<Option<i64>>, ErrorView>) -> Step {
        match read {
            Err(e) => (self, Err(e)),
            Ok(None) => (self, Ok(())),
            Ok(Some(size)) => self.remove(size),
        }
    }

    /// The domainMetadata action of a row.
    pub open spec fn row_domain(self, read: Result<Option<DomainMetadata>, ErrorView>) -> Step {
        match read {
            Err(e) => (self, Err(e)),
            Ok(None) => (self, Ok(())),
            Ok(Some(action)) => (self.domain_metadata(action), Ok(())),
        }
    }

    /// The txn action of a row.
    pub open spec fn row_transaction(
        self,
        read: Result<Option<SetTransaction>, ErrorView>,
    ) -> Step {
        match read {
            Err(e) => (self, Err(e)),
            Ok(None) => (self, Ok(())),
            Ok(Some(action)) => (self.set_transaction(action), Ok(())),
        }
    }

    /// The protocol action of a row. It is read as long as none was seen.
    pub open spec fn row_protocol(self, read: Result<Option<ProtocolView>, ErrorView>) -> Step {
        if self.delta.protocol is Some {
            (self, Ok(()))
        } else {
            match read {
                Err(e) => (self, Err(e)),
                Ok(protocol) => (
                    ReplayView { delta: CrcDeltaView { protocol, ..self.delta }, ..self },
                    Ok(()),
                ),
            }
        }
    }

    /// The metadata action of a row. It is read as long as none was seen.
    pub open spec fn row_metadata(self, read: Result<Option<MetadataView>, ErrorView>) -> Step {
        if self.delta.metadata is Some {
            (self, Ok(()))
        } else {
            match read {
                Err(e) => (self, Err(e)),
                Ok(metadata) => (
                    ReplayView { delta: CrcDeltaView { metadata, ..self.delta }, ..self },
                    Ok(()),
                ),
            }
        }
    }

    /// The commitInfo and file actions of a row, up to the first that fails.
    pub open spec fn row_files(self, row: RowView) -> Step {
        let informed = self.row_commit_info(row.commit_info);
        if informed.1 is Err {
            informed
        } else {
            let added = informed.0.row_add(row.add_size);
            if added.1 is Err {
                added
            } else {
                added.0.row_remove(row.remove_size)
            }
        }
    }

    /// The domainMetadata, txn, protocol and metadata actions of a row, up to the first that fails.
    pub open spec fn row_others(self, row: RowView) -> Step {
        let domain = self.row_domain(row.domain);
        if domain.1 is Err {
            domain
        } else {
            let transaction = domain.0.row_transaction(row.transaction);
            if transaction.1 is Err {
                transaction
            } else {
                let protocol = transaction.0.row_protocol(row.protocol);
                if protocol.1 is Err {
                    protocol
                } else {
                    protocol.0.row_metadata(row.metadata)
                }
            }
        }
    }

    /// All actions of a row, up to the first that fails.
    pub open spec fn row(self, row: RowView) -> Step {
        let files = self.row_files(row);
        if files.1 is Err {
            files
        } else {
            files.0.row_others(row)
        }
    }

    /// All rows of a batch, up to the first that fails.
    pub open spec fn rows(self, rows: Seq<RowView>) -> Step
        decreases rows.len(),
    {
        if rows.len() == 0 {
            (self, Ok(()))
        } else {
            let before = self.rows(rows.drop_last());
            if before.1 is Err {
                before
            } else {
                before.0.row(rows.last())
            }
        }
    }

    /// A batch. It must have the columns that the replay reads.
    pub open spec fn batch(self, batch: BatchView) -> Step {
        if batch.num_columns != replay_column_count() {
            (
                self,
                Err(
                    ErrorView::InternalError(
                        "Wrong number of CrcReplayVisitor getters: "@ + decimal(batch.num_columns),
                    ),
                ),
            )
        } else if batch.rows.len() == 0 {
            (self, Ok(()))
        } else {
            match batch.file_url {
                Err(e) => (self, Err(e)),
                Ok(url) => self.batch_start(url).rows(batch.rows),
            }
        }
    }

    /// All batches, up to the first that could not be read or fails.
    pub open spec fn batches(self, batches: Seq<Result<BatchView, ErrorView>>) -> Result<
        ReplayView,
        ErrorView,
    >
        decreases batches.len(),
    {
        if batches.len() == 0 {
            Ok(self)
        } else {
            match self.batches(batches.drop_last()) {
                Err(e) => Err(e),
                Ok(before) => match batches.last() {
                    Err(e) => Err(e),
                    Ok(batch) => match before.batch(batch) {
                        (after, Ok(_)) => Ok(after),
                        (_, Err(e)) => Err(e),
                    },
                },
            }
        }
    }
}

/// The number of columns that the replay reads.
pub open spec fn replay_column_count() -> int {
    N_FIXED_COLS + N_PROTOCOL_LEAVES + N_METADATA_LEAVES
}

/// The columns outside protocol and metadata.
pub const N_FIXED_COLS: usize = 12;

/// The leaf columns of a protocol action.
pub const N_PROTOCOL_LEAVES: usize = 4;

/// The leaf columns of a metadata action.
pub const N_METADATA_LEAVES: usize = 9;

/// The size of a file as a count of bytes.
fn size_to_u64(size: i64) -> (r: DeltaResult<u64>)
    ensures
        match r {
            Ok(n) => size >= 0 && n == size,
            Err(e) => size < 0 && e@ == negative_size_error(size),
        },
{
    if size < 0 {
        let mut message = "File size must not be negative: ".to_owned();
        message.append(decimal_int_text(size).as_str());
        Err(Error::generic(message))
    } else {
        Ok(size as u64)
    }
}

fn overflow() -> (r: Error)
    ensures
        r@ == overflow_error(),
{
    Error::internal_error("File statistics overflow".to_owned())
}

/// The outcome of a step, by what its error says.
pub open spec fn outcome(r: DeltaResult<()>) -> Result<(), ErrorView> {
    match r {
        Ok(_) => Ok(()),
        Err(e) => Err(e@),
    }
}

impl CrcReplayAccumulator {
    /// The accumulator before the first batch. A seed histogram, which is empty, makes the replay
    /// track the histogram.
    pub fn new(seed_histogram: Option<FileSizeHistogram>, safe_operations: Vec<String>) -> (r: Self)
        ensures
            r@ == ReplayView::start(histogram_view(seed_histogram), texts(safe_operations@)),
    {
        CrcReplayAccumulator {
            delta: CrcDelta {
                file_stats: FileStatsDelta {
                    gross_add_files: 0,
                    gross_add_bytes: 0,
                    gross_remove_files: 0,
                    gross_remove_bytes: 0,
                    net_histogram: seed_histogram,
                },
                protocol: None,
                metadata: None,
                domain_metadata: StringMap::new(),
                set_transactions: StringMap::new(),
                in_commit_timestamp: None,
                is_incremental_safe: true,
            },
            is_first_commit: true,
            current_file_url: None,
            current_commit_saw_file_action: false,
            current_commit_saw_safe_op: false,
            safe_operations,
        }
    }

    /// Called for each batch, with the URL of its commit file.
    pub fn process_batch_start(&mut self, batch_file_url: &str)
        ensures
            final(self)@ == old(self)@.batch_start(batch_file_url@),
    {
        let same = match &self.current_file_url {
            Some(url) => same_text(url.as_str(), batch_file_url),
            None => false,
        };
        if same {
            return;
        }
        if self.current_file_url.is_some() {
            self.process_commit_file_end();
            self.is_first_commit = false;
        }
        self.current_file_url = Some(batch_file_url.to_owned());
    }

    /// Called at the end of each commit.
    pub fn process_commit_file_end(&mut self)
        ensures
            final(self)@ == old(self)@.commit_end(),
    {
        if !self.delta.is_incremental_safe {
            return;
        }
        if self.current_commit_saw_file_action && !self.current_commit_saw_safe_op {
            self.delta.is_incremental_safe = false;
        }
        self.current_commit_saw_file_action = false;
        self.current_commit_saw_safe_op = false;
    }

    /// Is it an operation after which file statistics can be trusted?
    fn is_incremental_safe_operation(&self, operation: &str) -> (r: bool)
        ensures
            r == self@.safe_operations.contains(operation@),
    {
        let mut i: usize = 0;
        while i < self.safe_operations.len()
            invariant
                i <= self.safe_operations@.len(),
                forall|k: int|
                    0 <= k < i ==> #[trigger] texts(self.safe_operations@)[k] != operation@,
            decreases self.safe_operations@.len() - i,
        {
            assert(texts(self.safe_operations@)[i as int] == self.safe_operations@[i as int]@);
            if same_text(self.safe_operations[i].as_str(), operation) {
                return true;
            }
            i += 1;
        }
        false
    }

    /// Called for each commitInfo row that has an operation or a timestamp.
    pub fn on_commit_info(&mut self, operation: Option<&str>, ict: Option<i64>)
        ensures
            final(self)@ == old(self)@.commit_info(opt_str(operation), ict),
    {
        if let Some(op) = operation {
            if self.is_incremental_safe_operation(op) {
                self.current_commit_saw_safe_op = true;
            } else {
                self.delta.is_incremental_safe = false;
            }
        }
        if self.is_first_commit {
            self.delta.in_commit_timestamp = ict;
        }
    }

    /// Called for each add row.
    pub fn on_add(&mut self, size: i64) -> (r: DeltaResult<()>)
        ensures
            (final(self)@, outcome(r)) == old(self)@.add(size),
    {
        self.current_commit_saw_file_action = true;
        if !self.delta.is_incremental_safe {
            return Ok(());
        }
        match self.delta.file_stats.gross_add_files.checked_add(1) {
            Some(files) => {
                self.delta.file_stats.gross_add_files = files;
            },
            None => {
                return Err(overflow());
            },
        }
        let bytes = match size_to_u64(size) {
            Ok(bytes) => bytes,
            Err(e) => {
                return Err(e);
            },
        };
        match self.delta.file_stats.gross_add_bytes.checked_add(bytes) {
            Some(total) => {
                self.delta.file_stats.gross_add_bytes = total;
            },
            None => {
                return Err(overflow());
            },
        }
        match self.delta.file_stats.net_histogram.take() {
            Some(histogram) => {
                let mut histogram = histogram;
                let r = histogram.insert(size);
                self.delta.file_stats.net_histogram = Some(histogram);
                r
            },
            None => Ok(()),
        }
    }

    /// Called for each remove row. Without a size, incremental tracking is impossible.
    pub fn on_remove(&mut self, path: &str, size: Option<i64>) -> (r: DeltaResult<()>)
        ensures
            (final(self)@, outcome(r)) == old(self)@.remove(size),
    {
        self.current_commit_saw_file_action = true;
        if !self.delta.is_incremental_safe {
            return Ok(());
        }
        let size = match size {
            Some(size) => size,
            None => {
                self.delta.is_incremental_safe = false;
                return Ok(());
            },
        };
        match self.delta.file_stats.gross_remove_files.checked_add(1) {
            Some(files) => {
                self.delta.file_stats.gross_remove_files = files;
            },
            None => {
                return Err(overflow());
            },
        }
        let bytes = match size_to_u64(size) {
            Ok(bytes) => bytes,
            Err(e) => {
                return Err(e);
            },
        };
        match self.delta.file_stats.gross_remove_bytes.checked_add(bytes) {
            Some(total) => {
                self.delta.file_stats.gross_remove_bytes = total;
            },
            None => {
                return Err(overflow());
            },
        }
        match self.delta.file_stats.net_histogram.take() {
            Some(histogram) => {
                let mut histogram = histogram;
                let r = histogram.remove(size);
                self.delta.file_stats.net_histogram = Some(histogram);
                r
            },
            None => Ok(()),
        }
    }

    /// Called for each domainMetadata row. Removals are kept: they are applied to the base.
    pub fn on_domain_metadata(&mut self, domain: String, configuration: String, removed: bool)
        ensures
            final(self)@ == old(self)@.domain_metadata(
                DomainMetadata { domain, configuration, removed },
            ),
    {
        if !self.delta.domain_metadata.contains_key(domain.as_str()) {
            let key = domain.clone();
            let action = if removed {
                DomainMetadata::remove(domain, configuration)
            } else {
                DomainMetadata::new(domain, configuration)
            };
            self.delta.domain_metadata.insert(key, action);
        }
    }

    /// Called for each txn row.
    pub fn on_set_transaction(&mut self, app_id: String, version: i64, last_updated: Option<i64>)
        ensures
            final(self)@ == old(self)@.set_transaction(
                SetTransaction { app_id, version, last_updated },
            ),
    {
        if !self.delta.set_transactions.contains_key(app_id.as_str()) {
            let key = app_id.clone();
            self.delta.set_transactions.insert(
                key,
                SetTransaction::new(app_id, version, last_updated),
            );
        }
    }

    /// The finished change.
    pub fn into_crc_delta(self) -> (r: CrcDelta)
        ensures
            r@ == self@.delta,
    {
        self.delta
    }
}

// === Visitor ===

/// The type of strings.
pub open spec fn string_type() -> DataTypeView {
    DataTypeView::Primitive(PrimitiveType::String)
}

/// The type of 64-bit numbers.
pub open spec fn long_type() -> DataTypeView {
    DataTypeView::Primitive(PrimitiveType::Long)
}

/// The type of 32-bit numbers.
pub open spec fn integer_type() -> DataTypeView {
    DataTypeView::Primitive(PrimitiveType::Integer)
}

/// The type of lists of strings.
pub open spec fn strings_type() -> DataTypeView {
    DataTypeView::Array { element_type: Box::new(string_type()), contains_null: false }
}

/// The type of maps from strings to strings.
pub open spec fn string_map_type() -> DataTypeView {
    DataTypeView::Mapping {
        key_type: Box::new(string_type()),
        value_type: Box::new(string_type()),
        value_contains_null: false,
    }
}

/// The columns that the replay reads: their dotted names and their types.
pub open spec fn replay_columns() -> Seq<(Seq<char>, DataTypeView)> {
    seq![
        ("_file"@, string_type()),
        ("commitInfo.operation"@, string_type()),
        ("commitInfo.inCommitTimestamp"@, long_type()),
        ("add.size"@, long_type()),
        ("remove.path"@, string_type()),
        ("remove.size"@, long_type()),
        ("domainMetadata.domain"@, string_type()),
        ("domainMetadata.configuration"@, string_type()),
        ("domainMetadata.removed"@, DataTypeView::Primitive(PrimitiveType::Boolean)),
        ("txn.appId"@, string_type()),
        ("txn.version"@, long_type()),
        ("txn.lastUpdated"@, long_type()),
        ("protocol.minReaderVersion"@, integer_type()),
        ("protocol.minWriterVersion"@, integer_type()),
        ("protocol.readerFeatures"@, strings_type()),
        ("protocol.writerFeatures"@, strings_type()),
        ("metaData.id"@, string_type()),
        ("metaData.name"@, string_type()),
        ("metaData.description"@, string_type()),
        ("metaData.format.provider"@, string_type()),
        ("metaData.format.options"@, string_map_type()),
        ("metaData.schemaString"@, string_type()),
        ("metaData.partitionColumns"@, strings_type()),
        ("metaData.createdTime"@, long_type()),
        ("metaData.configuration"@, string_map_type()),
    ]
}

/// The columns are those named by a list.
pub open spec fn columns_are(
    names: Seq<ColumnName>,
    types: Seq<DataType>,
    columns: Seq<(Seq<char>, DataTypeView)>,
) -> bool {
    &&& names.len() == columns.len()
    &&& types.len() == columns.len()
    &&& forall|i: int|
        0 <= i < columns.len() ==> (#[trigger] names[i])@ == split_on(columns[i].0, '.')
    &&& forall|i: int| 0 <= i < columns.len() ==> (#[trigger] types[i])@ == columns[i].1
}

pub(crate) fn strings() -> (r: DataType)
    ensures
        r@ == strings_type(),
{
    let element_type = DataType::Primitive(PrimitiveType::String);
    assert(element_type@ == string_type());
    DataType::Array(Box::new(ArrayType { element_type, contains_null: false }))
}

pub(crate) fn string_to_string() -> (r: DataType)
    ensures
        r@ == string_map_type(),
{
    let key_type = DataType::Primitive(PrimitiveType::String);
    let value_type = DataType::Primitive(PrimitiveType::String);
    assert(key_type@ == string_type());
    DataType::Mapping(Box::new(MapType { key_type, value_type, value_contains_null: false }))
}

fn push_column(
    names: &mut Vec<ColumnName>,
    types: &mut Vec<DataType>,
    name: &str,
    data_type: DataType,
)
    ensures
        forall|columns: Seq<(Seq<char>, DataTypeView)>| #[trigger]
            columns_are(old(names)@, old(types)@, columns) ==> columns_are(
                final(names)@,
                final(types)@,
                columns.push((name@, data_type@)),
            ),
{
    let ghost names_before = names@;
    let ghost types_before = types@;
    let column = ColumnName::from_naive_str_split(name);
    names.push(column);
    types.push(data_type);
    proof {
        assert forall|columns: Seq<(Seq<char>, DataTypeView)>| #[trigger]
            columns_are(names_before, types_before, columns) implies columns_are(
            names@,
            types@,
            columns.push((name@, data_type@)),
        ) by {
            let more = columns.push((name@, data_type@));
            assert forall|i: int| 0 <= i < more.len() implies (#[trigger] names@[i])@ == split_on(
                more[i].0,
                '.',
            ) by {
                if i < columns.len() {
                    assert(names@[i] == names_before[i]);
                }
            }
            assert forall|i: int| 0 <= i < more.len() implies (#[trigger] types@[i])@
                == more[i].1 by {
                if i < columns.len() {
                    assert(types@[i] == types_before[i]);
                }
            }
        }
    }
}

/// Hands the rows of batches to an accumulator.
#[derive(Debug)]
pub struct CrcReplayVisitor {
    pub acc: CrcReplayAccumulator,
}

impl CrcReplayVisitor {
    /// The names and types of the columns that the visitor reads.
    pub fn selected_column_names_and_types(&self) -> (r: (Vec<ColumnName>, Vec<DataType>))
        ensures
            columns_are(r.0@, r.1@, replay_columns()),
            r.0@.len() == replay_column_count(),
            r.1@.len() == replay_column_count(),
    {
        let mut names: Vec<ColumnName> = Vec::new();
        let mut types: Vec<DataType> = Vec::new();
        assert(columns_are(names@, types@, Seq::empty()));
        push_column(&mut names, &mut types, "_file", DataType::Primitive(PrimitiveType::String));
        push_column(
            &mut names,
            &mut types,
            "commitInfo.operation",
            DataType::Primitive(PrimitiveType::String),
        );
        push_column(
            &mut names,
            &mut types,
            "commitInfo.inCommitTimestamp",
            DataType::Primitive(PrimitiveType::Long),
        );
        push_column(&mut names, &mut types, "add.size", DataType::Primitive(PrimitiveType::Long));
        push_column(
            &mut names,
            &mut types,
            "remove.path",
            DataType::Primitive(PrimitiveType::String),
        );
        push_column(
            &mut names,
            &mut types,
            "remove.size",
            DataType::Primitive(PrimitiveType::Long),
        );
        push_column(
            &mut names,
            &mut types,
            "domainMetadata.domain",
            DataType::Primitive(PrimitiveType::String),
        );
        push_column(
            &mut names,
            &mut types,
            "domainMetadata.configuration",
            DataType::Primitive(PrimitiveType::String),
        );
        push_column(
            &mut names,
            &mut types,
            "domainMetadata.removed",
            DataType::Primitive(PrimitiveType::Boolean),
        );
        push_column(
            &mut names,
            &mut types,
            "txn.appId",
            DataType::Primitive(PrimitiveType::String),
        );
        push_column(
            &mut names,
            &mut types,
            "txn.version",
            DataType::Primitive(PrimitiveType::Long),
        );
        push_column(
            &mut names,
            &mut types,
            "txn.lastUpdated",
            DataType::Primitive(PrimitiveType::Long),
        );
        push_column(
            &mut names,
            &mut types,
            "protocol.minReaderVersion",
            DataType::Primitive(PrimitiveType::Integer),
        );
        push_column(
            &mut names,
            &mut types,
            "protocol.minWriterVersion",
            DataType::Primitive(PrimitiveType::Integer),
        );
        push_column(&mut names, &mut types, "protocol.readerFeatures", strings());
        push_column(&mut names, &mut types, "protocol.writerFeatures", strings());
        push_column(
            &mut names,
            &mut types,
            "metaData.id",
            DataType::Primitive(PrimitiveType::String),
        );
        push_column(
            &mut names,
            &mut types,
            "metaData.name",
            DataType::Primitive(PrimitiveType::String),
        );
        push_column(
            &mut names,
            &mut types,
            "metaData.description",
            DataType::Primitive(PrimitiveType::String),
        );
        push_column(
            &mut names,
            &mut types,
            "metaData.format.provider",
            DataType::Primitive(PrimitiveType::String),
        );
        push_column(&mut names, &mut types, "metaData.format.options", string_to_string());
        push_column(
            &mut names,
            &mut types,
            "metaData.schemaString",
            DataType::Primitive(PrimitiveType::String),
        );
        push_column(&mut names, &mut types, "metaData.partitionColumns", strings());
        push_column(
            &mut names,
            &mut types,
            "metaData.createdTime",
            DataType::Primitive(PrimitiveType::Long),
        );
        push_column(&mut names, &mut types, "metaData.configuration", string_to_string());
        (names, types)
    }

    /// Folds the rows of a batch into the accumulator, given the columns that the visitor selects.
    pub fn visit(&mut self, row_count: usize, columns: &Vec<ColumnData>) -> (r: DeltaResult<()>)
        requires
            have_rows(columns@, row_count as int),
        ensures
            (final(self).acc@, outcome(r)) == old(self).acc@.batch(
                batch_of(row_count as nat, columns@),
            ),
    {
        if columns.len() != N_FIXED_COLS + N_PROTOCOL_LEAVES + N_METADATA_LEAVES {
            return Err(
                Error::internal_error(
                    join2(
                        "Wrong number of CrcReplayVisitor getters: ",
                        decimal_text(columns.len() as u64).as_str(),
                    ),
                ),
            );
        }
        if row_count == 0 {
            return Ok(());
        }
        let ghost batch = batch_of(row_count as nat, columns@);
        match read_file_url(columns) {
            Err(e) => {
                return Err(e);
            },
            Ok(url) => self.acc.process_batch_start(url),
        }
        let ghost start = self.acc@;
        let ghost rows = batch.rows;
        let mut i: usize = 0;
        assert(rows.take(0) =~= Seq::empty());
        while i < row_count
            invariant
                i <= row_count,
                columns@.len() == replay_column_count(),
                have_rows(columns@, row_count as int),
                rows == batch_of(row_count as nat, columns@).rows,
                (self.acc@, Ok::<(), ErrorView>(())) == start.rows(rows.take(i as int)),
                old(self).acc@.batch(batch_of(row_count as nat, columns@)) == start.rows(rows),
            decreases row_count - i,
        {
            proof {
                assert(rows.take(i + 1).drop_last() =~= rows.take(i as int));
                assert(rows.take(i + 1).last() == row_at(columns@, i as int));
            }
            match self.visit_row(columns, i) {
                Ok(_) => {},
                Err(e) => {
                    proof {
                        lemma_rows_fail(start, rows, i + 1);
                    }
                    return Err(e);
                },
            }
            i += 1;
        }
        assert(rows.take(rows.len() as int) =~= rows);
        Ok(())
    }

    fn visit_row(&mut self, columns: &Vec<ColumnData>, i: usize) -> (r: DeltaResult<()>)
        requires
            readable(columns@, i as int),
        ensures
            (final(self).acc@, outcome(r)) == old(self).acc@.row(row_at(columns@, i as int)),
    {
        if let Err(e) = self.visit_file_actions(columns, i) {
            return Err(e);
        }
        self.visit_other_actions(columns, i)
    }

    fn visit_file_actions(&mut self, columns: &Vec<ColumnData>, i: usize) -> (r: DeltaResult<()>)
        requires
            readable(columns@, i as int),
        ensures
            (final(self).acc@, outcome(r)) == old(self).acc@.row_files(row_at(columns@, i as int)),
    {
        match read_commit_info(columns, i) {
            Err(e) => {
                return Err(e);
            },
            Ok((operation, ict)) => if operation.is_some() || ict.is_some() {
                self.acc.on_commit_info(operation, ict);
            },
        }
        match read_add_size(columns, i) {
            Err(e) => {
                return Err(e);
            },
            Ok(None) => {},
            Ok(Some(size)) => if let Err(e) = self.acc.on_add(size) {
                return Err(e);
            },
        }
        match read_remove(columns, i) {
            Err(e) => Err(e),
            Ok(None) => Ok(()),
            Ok(Some((path, size))) => self.acc.on_remove(path, size),
        }
    }

    fn visit_other_actions(&mut self, columns: &Vec<ColumnData>, i: usize) -> (r: DeltaResult<()>)
        requires
            readable(columns@, i as int),
        ensures
            (final(self).acc@, outcome(r)) == old(self).acc@.row_others(row_at(columns@, i as int)),
    {
        match read_domain(columns, i) {
            Err(e) => {
                return Err(e);
            },
            Ok(None) => {},
            Ok(Some(action)) => self.acc.on_domain_metadata(
                action.domain,
                action.configuration,
                action.removed,
            ),
        }
        match read_transaction(columns, i) {
            Err(e) => {
                return Err(e);
            },
            Ok(None) => {},
            Ok(Some(action)) => self.acc.on_set_transaction(
                action.app_id,
                action.version,
                action.last_updated,
            ),
        }
        if self.acc.delta.protocol.is_none() {
            match visit_protocol_at(columns, i) {
                Err(e) => {
                    return Err(e);
                },
                Ok(protocol) => self.acc.delta.protocol = protocol,
            }
        }
        if self.acc.delta.metadata.is_none() {
            match visit_metadata_at(columns, i) {
                Err(e) => {
                    return Err(e);
                },
                Ok(metadata) => self.acc.delta.metadata = metadata,
            }
        }
        Ok(())
    }
}

/// A row that fails is where the batch ends.
proof fn lemma_rows_fail(state: ReplayView, rows: Seq<RowView>, n: int)
    requires
        0 <= n <= rows.len(),
        state.rows(rows.take(n)).1 is Err,
    ensures
        state.rows(rows) == state.rows(rows.take(n)),
    decreases rows.len(),
{
    if n == rows.len() {
        assert(rows.take(n) =~= rows);
    } else {
        assert(rows.drop_last().take(n) =~= rows.take(n));
        lemma_rows_fail(state, rows.drop_last(), n);
    }
}

} // verus!
