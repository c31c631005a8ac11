//! Version checksums: what is known of a table at a version, and how a range of commits changes
//! it.

use vstd::prelude::*;

use crate::actions::{
    metadata_view, protocol_view, DomainMetadata, Metadata, MetadataView, Protocol, ProtocolView,
    SetTransaction, Version,
};
use crate::error::{DeltaResult, Error, ErrorView};
use crate::string_map::{
    distinct_keys, entries_map, lemma_entries_map_contains, lemma_entries_map_index, StringMap,
};

verus! {

/// How many files of which size there are, and how many bytes they hold.
///
/// A bin reaches from its boundary up to the next one. The counts of a change can be negative.
#[derive(Debug)]
pub struct FileSizeHistogram {
    sorted_bin_boundaries: Vec<i64>,
    file_counts: Vec<i64>,
    total_bytes: Vec<i64>,
}

/// What a [`FileSizeHistogram`] holds.
#[verifier::ext_equal]
pub struct HistogramView {
    pub boundaries: Seq<i64>,
    pub file_counts: Seq<i64>,
    pub total_bytes: Seq<i64>,
}

/// Boundaries begin at zero and ascend.
pub open spec fn valid_boundaries(boundaries: Seq<i64>) -> bool {
    &&& boundaries.len() > 0
    &&& boundaries[0] == 0
    &&& forall|i: int, j: int|
        0 <= i < j < boundaries.len() ==> #[trigger] boundaries[i] < #[trigger] boundaries[j]
}

/// The bin of a size: that of the last boundary which does not exceed it.
pub open spec fn bin_index(boundaries: Seq<i64>, size: i64) -> int
    decreases boundaries.len(),
{
    if boundaries.len() == 0 {
        -1
    } else if boundaries.last() <= size {
        boundaries.len() - 1
    } else {
        bin_index(boundaries.drop_last(), size)
    }
}

pub proof fn lemma_bin_index(boundaries: Seq<i64>, size: i64)
    requires
        valid_boundaries(boundaries),
        size >= 0,
    ensures
        0 <= bin_index(boundaries, size) < boundaries.len(),
    decreases boundaries.len(),
{
    if boundaries.last() > size {
        assert(boundaries.drop_last()[0] == boundaries[0]);
        assert forall|i: int, j: int|
            0 <= i < j < boundaries.drop_last().len() implies #[trigger] boundaries.drop_last()[i]
            < #[trigger] boundaries.drop_last()[j] by {
            assert(boundaries[i] < boundaries[j]);
        }
        lemma_bin_index(boundaries.drop_last(), size);
    }
}

/// Does the number fit in 64 bits with a sign?
pub open spec fn fits_i64(n: int) -> bool {
    i64::MIN <= n <= i64::MAX
}

impl HistogramView {
    /// The histogram without files.
    pub open spec fn empty(boundaries: Seq<i64>) -> HistogramView {
        HistogramView {
            boundaries,
            file_counts: Seq::new(boundaries.len(), |i: int| 0i64),
            total_bytes: Seq::new(boundaries.len(), |i: int| 0i64),
        }
    }

    /// The histogram with `files` more files of the given size, or None where a count does not
    /// fit or the size is negative.
    pub open spec fn count(self, size: i64, files: int) -> Option<HistogramView> {
        let i = bin_index(self.boundaries, size);
        let count = self.file_counts[i] + files;
        let bytes = self.total_bytes[i] + files * size;
        if size < 0 || !fits_i64(count) || !fits_i64(bytes) {
            None
        } else {
            Some(
                HistogramView {
                    boundaries: self.boundaries,
                    file_counts: self.file_counts.update(i, count as i64),
                    total_bytes: self.total_bytes.update(i, bytes as i64),
                },
            )
        }
    }

    /// The histogram of the files of both, or None where the bins differ or a count does not fit.
    pub open spec fn plus(self, other: HistogramView) -> Option<HistogramView> {
        if self.boundaries == other.boundaries && (forall|i: int|
            0 <= i < self.boundaries.len() ==> fits_i64(#[trigger] self.file_counts[i] + other.file_counts[i]))
            && (forall|i: int|
            0 <= i < self.boundaries.len() ==> fits_i64(#[trigger] self.total_bytes[i] + other.total_bytes[i])) {
            Some(
                HistogramView {
                    boundaries: self.boundaries,
                    file_counts: Seq::new(
                        self.boundaries.len(),
                        |i: int| (self.file_counts[i] + other.file_counts[i]) as i64,
                    ),
                    total_bytes: Seq::new(
                        self.boundaries.len(),
                        |i: int| (self.total_bytes[i] + other.total_bytes[i]) as i64,
                    ),
                },
            )
        } else {
            None
        }
    }
}

impl View for FileSizeHistogram {
    type V = HistogramView;

    closed spec fn view(&self) -> HistogramView {
        HistogramView {
            boundaries: self.sorted_bin_boundaries@,
            file_counts: self.file_counts@,
            total_bytes: self.total_bytes@,
        }
    }
}

/// A copy of a list of numbers.
fn copy_numbers(numbers: &Vec<i64>) -> (r: Vec<i64>)
    ensures
        r@ == numbers@,
{
    let mut out: Vec<i64> = Vec::new();
    let mut i: usize = 0;
    while i < numbers.len()
        invariant
            i <= numbers@.len(),
            out@ == numbers@.take(i as int),
        decreases numbers@.len() - i,
    {
        out.push(numbers[i]);
        i += 1;
        assert(out@ =~= numbers@.take(i as int));
    }
    assert(out@ =~= numbers@);
    out
}

/// A list of zeros.
fn zeros(n: usize) -> (r: Vec<i64>)
    ensures
        r@ == Seq::new(n as nat, |i: int| 0i64),
{
    let mut out: Vec<i64> = Vec::new();
    while out.len() < n
        invariant
            out@.len() <= n,
            forall|i: int| 0 <= i < out@.len() ==> #[trigger] out@[i] == 0,
        decreases n - out@.len(),
    {
        out.push(0);
    }
    assert(out@ =~= Seq::new(n as nat, |i: int| 0i64));
    out
}

/// Adds two lists of numbers, or returns None where a sum does not fit.
fn add_numbers(a: &Vec<i64>, b: &Vec<i64>) -> (r: Option<Vec<i64>>)
    requires
        a@.len() == b@.len(),
    ensures
        match r {
            Some(sums) => sums@.len() == a@.len() && forall|i: int|
                0 <= i < a@.len() ==> fits_i64(#[trigger] a@[i] + b@[i]) && sums@[i] == a@[i] + b@[i],
            None => exists|i: int| 0 <= i < a@.len() && !fits_i64(#[trigger] a@[i] + b@[i]),
        },
{
    let mut out: Vec<i64> = Vec::new();
    let mut i: usize = 0;
    while i < a.len()
        invariant
            i <= a@.len(),
            a@.len() == b@.len(),
            out@.len() == i,
            forall|k: int|
                0 <= k < i ==> fits_i64(#[trigger] a@[k] + b@[k]) && out@[k] == a@[k] + b@[k],
        decreases a@.len() - i,
    {
        match a[i].checked_add(b[i]) {
            Some(sum) => {
                out.push(sum);
            },
            None => {
                assert(!fits_i64(a@[i as int] + b@[i as int]));
                return None;
            },
        }
        i += 1;
    }
    Some(out)
}

/// Are two lists of numbers the same?
fn same_numbers(a: &Vec<i64>, b: &Vec<i64>) -> (r: bool)
    ensures
        r == (a@ == b@),
{
    if a.len() != b.len() {
        return false;
    }
    let mut i: usize = 0;
    while i < a.len()
        invariant
            i <= a@.len(),
            a@.len() == b@.len(),
            forall|k: int| 0 <= k < i ==> a@[k] == b@[k],
        decreases a@.len() - i,
    {
        if a[i] != b[i] {
            return false;
        }
        i += 1;
    }
    assert(a@ =~= b@);
    true
}

impl FileSizeHistogram {
    #[verifier::type_invariant]
    spec fn bins_match(self) -> bool {
        &&& valid_boundaries(self.sorted_bin_boundaries@)
        &&& self.file_counts@.len() == self.sorted_bin_boundaries@.len()
        &&& self.total_bytes@.len() == self.sorted_bin_boundaries@.len()
    }

    /// A histogram with the given bins and no files.
    pub fn create_empty_with_boundaries(sorted_bin_boundaries: Vec<i64>) -> (r: DeltaResult<
        FileSizeHistogram,
    >)
        ensures
            match r {
                Ok(h) => valid_boundaries(sorted_bin_boundaries@) && h@ == HistogramView::empty(
                    sorted_bin_boundaries@,
                ),
                Err(e) => !valid_boundaries(sorted_bin_boundaries@) && e@
                    == ErrorView::InternalError(
                    "Histogram boundaries must start at zero and ascend"@,
                ),
            },
    {
        let n = sorted_bin_boundaries.len();
        let mut valid = n > 0 && sorted_bin_boundaries[0] == 0;
        let mut i: usize = 1;
        while valid && i < n
            invariant
                n == sorted_bin_boundaries@.len(),
                valid ==> n > 0 && sorted_bin_boundaries@[0] == 0 && 1 <= i <= n,
                valid ==> forall|a: int, b: int|
                    0 <= a < b < i ==> #[trigger] sorted_bin_boundaries@[a]
                        < #[trigger] sorted_bin_boundaries@[b],
                !valid ==> !valid_boundaries(sorted_bin_boundaries@),
            decreases n - i + (if valid { 1int } else { 0int }),
        {
            if sorted_bin_boundaries[i - 1] < sorted_bin_boundaries[i] {
                i += 1;
            } else {
                valid = false;
            }
        }
        if !valid {
            return Err(
                Error::InternalError(
                    "Histogram boundaries must start at zero and ascend".to_owned(),
                ),
            );
        }
        Ok(
            FileSizeHistogram {
                file_counts: zeros(n),
                total_bytes: zeros(n),
                sorted_bin_boundaries,
            },
        )
    }

    /// The boundaries of the bins.
    pub fn sorted_bin_boundaries(&self) -> (r: &Vec<i64>)
        ensures
            r@ == self@.boundaries,
            valid_boundaries(r@),
    {
        proof {
            use_type_invariant(self);
        }
        &self.sorted_bin_boundaries
    }

    /// A copy of the boundaries of the bins.
    pub fn boundaries_copy(&self) -> (r: Vec<i64>)
        ensures
            r@ == self@.boundaries,
            valid_boundaries(r@),
    {
        copy_numbers(self.sorted_bin_boundaries())
    }

    /// The number of files in each bin.
    pub fn file_counts(&self) -> (r: &Vec<i64>)
        ensures
            r@ == self@.file_counts,
    {
        &self.file_counts
    }

    /// The bytes in the files of each bin.
    pub fn total_bytes(&self) -> (r: &Vec<i64>)
        ensures
            r@ == self@.total_bytes,
    {
        &self.total_bytes
    }

    /// The bin of a size.
    fn bin(&self, size: i64) -> (r: usize)
        requires
            size >= 0,
        ensures
            r == bin_index(self@.boundaries, size),
            r < self.file_counts@.len(),
            r < self.total_bytes@.len(),
    {
        proof {
            use_type_invariant(self);
            lemma_bin_index(self.sorted_bin_boundaries@, size);
        }
        let ghost boundaries = self.sorted_bin_boundaries@;
        assert(boundaries.take(boundaries.len() as int) =~= boundaries);
        let mut i: usize = self.sorted_bin_boundaries.len();
        while i > 0
            invariant
                i <= boundaries.len(),
                boundaries == self.sorted_bin_boundaries@,
                boundaries.len() == self.file_counts@.len() == self.total_bytes@.len(),
                0 <= bin_index(boundaries, size) < boundaries.len(),
                bin_index(boundaries, size) == bin_index(boundaries.take(i as int), size),
            decreases i,
        {
            i -= 1;
            if self.sorted_bin_boundaries[i] <= size {
                return i;
            }
            assert(boundaries.take(i + 1).drop_last() =~= boundaries.take(i as int));
        }
        0
    }

    /// Counts `files` more files of the given size; `files` is one or minus one.
    fn count(&mut self, size: i64, files: i64) -> (r: DeltaResult<()>)
        requires
            files == 1 || files == -1,
        ensures
            match r {
                Ok(_) => old(self)@.count(size, files as int) == Some(final(self)@),
                Err(e) => old(self)@.count(size, files as int) is None && final(self)@ == old(
                    self,
                )@ && e@ == ErrorView::InternalError("File size out of range"@),
            },
    {
        proof {
            use_type_invariant(&*self);
        }
        if size < 0 {
            return Err(Error::InternalError("File size out of range".to_owned()));
        }
        let i = self.bin(size);
        let delta: i64 = if files == 1 {
            size
        } else {
            -size
        };
        match (self.file_counts[i].checked_add(files), self.total_bytes[i].checked_add(delta)) {
            (Some(count), Some(bytes)) => {
                let mut file_counts = copy_numbers(&self.file_counts);
                let mut total_bytes = copy_numbers(&self.total_bytes);
                file_counts.set(i, count);
                total_bytes.set(i, bytes);
                *self =
                FileSizeHistogram {
                    sorted_bin_boundaries: copy_numbers(&self.sorted_bin_boundaries),
                    file_counts,
                    total_bytes,
                };
                assert(self@ =~= old(self)@.count(size, files as int)->0);
                Ok(())
            },
            _ => Err(Error::InternalError("File size out of range".to_owned())),
        }
    }

    /// Counts one more file.
    pub fn insert(&mut self, size: i64) -> (r: DeltaResult<()>)
        ensures
            match r {
                Ok(_) => old(self)@.count(size, 1) == Some(final(self)@),
                Err(e) => old(self)@.count(size, 1) is None && final(self)@ == old(self)@ && e@
                    == ErrorView::InternalError("File size out of range"@),
            },
    {
        self.count(size, 1)
    }

    /// Counts one file less.
    pub fn remove(&mut self, size: i64) -> (r: DeltaResult<()>)
        ensures
            match r {
                Ok(_) => old(self)@.count(size, -1) == Some(final(self)@),
                Err(e) => old(self)@.count(size, -1) is None && final(self)@ == old(self)@ && e@
                    == ErrorView::InternalError("File size out of range"@),
            },
    {
        self.count(size, -1)
    }

    /// The histogram of the files of both, or None where the bins differ or a count does not fit.
    pub fn plus(&self, other: &FileSizeHistogram) -> (r: Option<FileSizeHistogram>)
        ensures
            match r {
                Some(sum) => self@.plus(other@) == Some(sum@),
                None => self@.plus(other@) is None,
            },
    {
        proof {
            use_type_invariant(self);
            use_type_invariant(other);
        }
        if !same_numbers(&self.sorted_bin_boundaries, &other.sorted_bin_boundaries) {
            return None;
        }
        match (
            add_numbers(&self.file_counts, &other.file_counts),
            add_numbers(&self.total_bytes, &other.total_bytes),
        ) {
            (Some(file_counts), Some(total_bytes)) => {
                let sum = FileSizeHistogram {
                    sorted_bin_boundaries: copy_numbers(&self.sorted_bin_boundaries),
                    file_counts,
                    total_bytes,
                };
                assert(sum@ =~= self@.plus(other@)->0);
                Some(sum)
            },
            _ => None,
        }
    }
}

/// How a range of commits changes the file statistics.
#[derive(Debug)]
pub struct FileStatsDelta {
    pub gross_add_files: u64,
    pub gross_add_bytes: u64,
    pub gross_remove_files: u64,
    pub gross_remove_bytes: u64,
    /// The change of the histogram, if it is tracked.
    pub net_histogram: Option<FileSizeHistogram>,
}

/// What a [`FileStatsDelta`] says.
pub struct FileStatsDeltaView {
    pub gross_add_files: nat,
    pub gross_add_bytes: nat,
    pub gross_remove_files: nat,
    pub gross_remove_bytes: nat,
    pub net_histogram: Option<HistogramView>,
}

/// The view of an optional histogram.
pub open spec fn histogram_view(h: Option<FileSizeHistogram>) -> Option<HistogramView> {
    match h {
        Some(h) => Some(h@),
        None => None,
    }
}

impl View for FileStatsDelta {
    type V = FileStatsDeltaView;

    open spec fn view(&self) -> FileStatsDeltaView {
        FileStatsDeltaView {
            gross_add_files: self.gross_add_files as nat,
            gross_add_bytes: self.gross_add_bytes as nat,
            gross_remove_files: self.gross_remove_files as nat,
            gross_remove_bytes: self.gross_remove_bytes as nat,
            net_histogram: histogram_view(self.net_histogram),
        }
    }
}

impl FileStatsDeltaView {
    /// The files added less the files removed.
    pub open spec fn net_files(self) -> int {
        self.gross_add_files - self.gross_remove_files
    }

    /// The bytes added less the bytes removed.
    pub open spec fn net_bytes(self) -> int {
        self.gross_add_bytes - self.gross_remove_bytes
    }
}

impl FileStatsDelta {
    /// The files added less the files removed.
    pub fn net_files(&self) -> (r: i128)
        ensures
            r == self@.net_files(),
    {
        self.gross_add_files as i128 - self.gross_remove_files as i128
    }

    /// The bytes added less the bytes removed.
    pub fn net_bytes(&self) -> (r: i128)
        ensures
            r == self@.net_bytes(),
    {
        self.gross_add_bytes as i128 - self.gross_remove_bytes as i128
    }
}

/// How a range of commits changes what is known of a table.
#[derive(Debug)]
pub struct CrcDelta {
    pub file_stats: FileStatsDelta,
    pub protocol: Option<Protocol>,
    pub metadata: Option<Metadata>,
    /// The last action of each domain, removals among them.
    pub domain_metadata: StringMap<DomainMetadata>,
    pub set_transactions: StringMap<SetTransaction>,
    pub in_commit_timestamp: Option<i64>,
    /// Can the file statistics be trusted?
    pub is_incremental_safe: bool,
}

/// What a [`CrcDelta`] says.
pub struct CrcDeltaView {
    pub file_stats: FileStatsDeltaView,
    pub protocol: Option<ProtocolView>,
    pub metadata: Option<MetadataView>,
    pub domain_metadata: Map<Seq<char>, DomainMetadata>,
    pub set_transactions: Map<Seq<char>, SetTransaction>,
    pub in_commit_timestamp: Option<i64>,
    pub is_incremental_safe: bool,
}

impl View for CrcDelta {
    type V = CrcDeltaView;

    open spec fn view(&self) -> CrcDeltaView {
        CrcDeltaView {
            file_stats: self.file_stats@,
            protocol: protocol_view(self.protocol),
            metadata: metadata_view(self.metadata),
            domain_metadata: self.domain_metadata@,
            set_transactions: self.set_transactions@,
            in_commit_timestamp: self.in_commit_timestamp,
            is_incremental_safe: self.is_incremental_safe,
        }
    }
}

/// The number and size of the files of a table.
#[derive(Debug)]
pub struct FileStats {
    pub num_files: i64,
    pub table_size_bytes: i64,
    pub file_size_histogram: Option<FileSizeHistogram>,
}

/// What is known of the files of a table.
#[derive(Debug)]
pub enum FileStatsState {
    Complete(FileStats),
    /// Nothing that can be relied on.
    Indeterminate,
}

/// What a [`FileStatsState`] says.
pub enum FileStatsView {
    Complete { num_files: int, table_size_bytes: int, histogram: Option<HistogramView> },
    Indeterminate,
}

/// What is known of the metadata domains of a table.
#[derive(Debug)]
pub enum DomainMetadataState {
    Complete(StringMap<DomainMetadata>),
    /// They are not tracked.
    Untracked,
}

/// What is known of the progress of applications.
#[derive(Debug)]
pub enum SetTransactionState {
    Complete(StringMap<SetTransaction>),
    /// It is not tracked.
    Untracked,
}

/// What is known of a table at a version.
#[derive(Debug)]
pub struct Crc {
    pub version: Version,
    pub protocol: Protocol,
    pub metadata: Metadata,
    pub file_stats_state: FileStatsState,
    pub domain_metadata_state: DomainMetadataState,
    pub set_transaction_state: SetTransactionState,
    pub in_commit_timestamp_opt: Option<i64>,
}

/// What a [`Crc`] says. Metadata domains and transactions are None where they are not tracked.
pub struct CrcView {
    pub version: Version,
    pub protocol: ProtocolView,
    pub metadata: MetadataView,
    pub file_stats: FileStatsView,
    pub domain_metadata: Option<Map<Seq<char>, DomainMetadata>>,
    pub set_transactions: Option<Map<Seq<char>, SetTransaction>>,
    pub in_commit_timestamp: Option<i64>,
}

impl View for FileStatsState {
    type V = FileStatsView;

    open spec fn view(&self) -> FileStatsView {
        match *self {
            FileStatsState::Complete(stats) => FileStatsView::Complete {
                num_files: stats.num_files as int,
                table_size_bytes: stats.table_size_bytes as int,
                histogram: histogram_view(stats.file_size_histogram),
            },
            FileStatsState::Indeterminate => FileStatsView::Indeterminate,
        }
    }
}

impl View for Crc {
    type V = CrcView;

    open spec fn view(&self) -> CrcView {
        CrcView {
            version: self.version,
            protocol: self.protocol@,
            metadata: self.metadata@,
            file_stats: self.file_stats_state@,
            domain_metadata: match self.domain_metadata_state {
                DomainMetadataState::Complete(m) => Some(m@),
                DomainMetadataState::Untracked => None,
            },
            set_transactions: match self.set_transaction_state {
                SetTransactionState::Complete(m) => Some(m@),
                SetTransactionState::Untracked => None,
            },
            in_commit_timestamp: self.in_commit_timestamp_opt,
        }
    }
}

/// The metadata domains after a range of commits: a domain that the commits mention is as they
/// leave it, and is gone where they removed it.
pub open spec fn applied_domains(
    base: Map<Seq<char>, DomainMetadata>,
    changes: Map<Seq<char>, DomainMetadata>,
) -> Map<Seq<char>, DomainMetadata> {
    Map::new(
        |k: Seq<char>|
            if changes.contains_key(k) {
                !changes[k].removed
            } else {
                base.contains_key(k)
            },
        |k: Seq<char>|
            if changes.contains_key(k) {
                changes[k]
            } else {
                base[k]
            },
    )
}

/// The histogram after a range of commits. It is lost where the commits do not track it.
pub open spec fn applied_histogram(
    base: Option<HistogramView>,
    change: Option<HistogramView>,
) -> Option<HistogramView> {
    match (base, change) {
        (Some(base), Some(change)) => base.plus(change),
        _ => None,
    }
}

/// The file statistics after a range of commits. They are lost where the change cannot be trusted
/// or a count does not fit.
pub open spec fn applied_stats(base: FileStatsView, change: CrcDeltaView) -> FileStatsView {
    match base {
        FileStatsView::Complete { num_files, table_size_bytes, histogram } => {
            let files = num_files + change.file_stats.net_files();
            let bytes = table_size_bytes + change.file_stats.net_bytes();
            if change.is_incremental_safe && fits_i64(files) && fits_i64(bytes) {
                FileStatsView::Complete {
                    num_files: files,
                    table_size_bytes: bytes,
                    histogram: applied_histogram(histogram, change.file_stats.net_histogram),
                }
            } else {
                FileStatsView::Indeterminate
            }
        },
        FileStatsView::Indeterminate => FileStatsView::Indeterminate,
    }
}

impl CrcView {
    /// What is known of the table after a range of commits.
    pub open spec fn apply(self, change: CrcDeltaView, version: Version) -> CrcView {
        CrcView {
            version,
            protocol: match change.protocol {
                Some(protocol) => protocol,
                None => self.protocol,
            },
            metadata: match change.metadata {
                Some(metadata) => metadata,
                None => self.metadata,
            },
            file_stats: applied_stats(self.file_stats, change),
            domain_metadata: match self.domain_metadata {
                Some(base) => Some(applied_domains(base, change.domain_metadata)),
                None => None,
            },
            set_transactions: match self.set_transactions {
                Some(base) => Some(base.union_prefer_right(change.set_transactions)),
                None => None,
            },
            in_commit_timestamp: change.in_commit_timestamp,
        }
    }
}

fn apply_domains(base: StringMap<DomainMetadata>, changes: StringMap<DomainMetadata>) -> (r:
    StringMap<DomainMetadata>)
    ensures
        r@ == applied_domains(base@, changes@),
{
    let ghost all = changes@;
    let ghost start = base@;
    let mut out = base;
    let mut entries = changes.into_entries();
    while entries.len() > 0
        invariant
            distinct_keys(entries@),
            forall|k: Seq<char>| #[trigger]
                entries_map(entries@).contains_key(k) ==> all.contains_key(k) && entries_map(
                    entries@,
                )[k] == all[k],
            forall|k: Seq<char>| #[trigger]
                out@.contains_key(k) <==> if all.contains_key(k) && !entries_map(
                    entries@,
                ).contains_key(k) {
                    !all[k].removed
                } else {
                    start.contains_key(k)
                },
            forall|k: Seq<char>| #[trigger]
                out@.contains_key(k) ==> out@[k] == if all.contains_key(k) && !entries_map(
                    entries@,
                ).contains_key(k) {
                    all[k]
                } else {
                    start[k]
                },
        decreases entries@.len(),
    {
        let ghost before = entries@;
        let ghost done = out@;
        let (name, change) = entries.pop().unwrap();
        proof {
            assert(entries@ =~= before.drop_last());
            lemma_entries_map_contains(before, before.len() - 1);
            if entries_map(entries@).contains_key(name@) {
                let i = lemma_entries_map_index(entries@, name@);
                assert(before[i] == entries@[i]);
            }
            assert(entries_map(before).contains_key(name@));
            assert forall|k: Seq<char>| #[trigger]
                entries_map(entries@).contains_key(k) implies all.contains_key(k) && entries_map(
                entries@,
            )[k] == all[k] by {
                assert(entries_map(before).contains_key(k));
            }
        }
        if change.removed {
            out.remove(name.as_str());
        } else {
            out.insert(name, change);
        }
        proof {
            assert forall|k: Seq<char>| #[trigger]
                out@.contains_key(k) <==> if all.contains_key(k) && !entries_map(
                    entries@,
                ).contains_key(k) {
                    !all[k].removed
                } else {
                    start.contains_key(k)
                } by {
                assert(done.contains_key(k) <==> if all.contains_key(k) && !entries_map(
                    before,
                ).contains_key(k) {
                    !all[k].removed
                } else {
                    start.contains_key(k)
                });
            }
            assert forall|k: Seq<char>| #[trigger]
                out@.contains_key(k) implies out@[k] == if all.contains_key(k) && !entries_map(
                entries@,
            ).contains_key(k) {
                all[k]
            } else {
                start[k]
            } by {
                if k != name@ {
                    assert(done.contains_key(k));
                }
            }
        }
    }
    assert(out@ =~= applied_domains(start, all));
    out
}

fn apply_transactions(base: StringMap<SetTransaction>, changes: StringMap<SetTransaction>) -> (r:
    StringMap<SetTransaction>)
    ensures
        r@ == base@.union_prefer_right(changes@),
{
    let mut out = base;
    out.extend(changes);
    out
}

/// The number, if it fits in 64 bits with a sign.
fn to_i64(n: i128) -> (r: Option<i64>)
    ensures
        match r {
            Some(v) => v == n,
            None => !fits_i64(n as int),
        },
{
    if i64::MIN as i128 <= n && n <= i64::MAX as i128 {
        Some(n as i64)
    } else {
        None
    }
}

fn apply_stats(base: FileStatsState, change: &FileStatsDelta, safe: bool) -> (r: FileStatsState)
    ensures
        forall|d: CrcDeltaView|
            #![trigger applied_stats(base@, d)]
            d.file_stats == change@ && d.is_incremental_safe == safe ==> r@ == applied_stats(
                base@,
                d,
            ),
{
    match base {
        FileStatsState::Complete(stats) => {
            if !safe {
                return FileStatsState::Indeterminate;
            }
            let files = to_i64(stats.num_files as i128 + change.net_files());
            let bytes = to_i64(stats.table_size_bytes as i128 + change.net_bytes());
            match (files, bytes) {
                (Some(num_files), Some(table_size_bytes)) => {
                    let file_size_histogram = match (
                        &stats.file_size_histogram,
                        &change.net_histogram,
                    ) {
                        (Some(a), Some(b)) => a.plus(b),
                        _ => None,
                    };
                    FileStatsState::Complete(
                        FileStats { num_files, table_size_bytes, file_size_histogram },
                    )
                },
                _ => FileStatsState::Indeterminate,
            }
        },
        FileStatsState::Indeterminate => FileStatsState::Indeterminate,
    }
}

impl Crc {
    /// What is known of the table at `version`, from what is known at an earlier version and how
    /// the commits between them change it.
    pub fn apply(self, delta: CrcDelta, version: Version) -> (r: Crc)
        ensures
            r@ == self@.apply(delta@, version),
    {
        let file_stats_state = apply_stats(
            self.file_stats_state,
            &delta.file_stats,
            delta.is_incremental_safe,
        );
        assert(file_stats_state@ == applied_stats(self@.file_stats, delta@));
        Crc {
            version,
            protocol: match delta.protocol {
                Some(protocol) => protocol,
                None => self.protocol,
            },
            metadata: match delta.metadata {
                Some(metadata) => metadata,
                None => self.metadata,
            },
            file_stats_state,
            domain_metadata_state: match self.domain_metadata_state {
                DomainMetadataState::Complete(base) => DomainMetadataState::Complete(
                    apply_domains(base, delta.domain_metadata),
                ),
                DomainMetadataState::Untracked => DomainMetadataState::Untracked,
            },
            set_transaction_state: match self.set_transaction_state {
                SetTransactionState::Complete(base) => SetTransactionState::Complete(
                    apply_transactions(base, delta.set_transactions),
                ),
                SetTransactionState::Untracked => SetTransactionState::Untracked,
            },
            in_commit_timestamp_opt: delta.in_commit_timestamp,
        }
    }
}

} // verus!
