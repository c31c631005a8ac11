//! What a range of commits does to what is known of a table.

use vstd::prelude::*;

use crate::actions::Version;
use crate::crc::{
    bin_index, valid_boundaries, Crc, CrcDelta, DomainMetadataState, FileSizeHistogram,
    FileStatsState, HistogramView, SetTransactionState,
};
use crate::view_laws::{
    law_view_tells_metadata, law_view_tells_protocol, same_metadata, same_protocol,
};

verus! {

/// The version is the one asked for. Protocol and metadata are those of the change, in all their parts, and
/// stay as they were where the change has none. The timestamp is that of the change, also where it has none.
pub proof fn law_change_replaces_protocol_and_metadata(
    base: Crc,
    change: CrcDelta,
    version: Version,
    r: Crc,
)
    requires
        call_ensures(Crc::apply, (base, change, version), r),
    ensures
        r.version == version,
        r.in_commit_timestamp_opt == change.in_commit_timestamp,
        match change.protocol {
            Some(protocol) => same_protocol(r.protocol, protocol),
            None => same_protocol(r.protocol, base.protocol),
        },
        match change.metadata {
            Some(metadata) => same_metadata(r.metadata, metadata),
            None => same_metadata(r.metadata, base.metadata),
        },
{
    assert(r@.protocol == r.protocol@);
    assert(r@.metadata == r.metadata@);
    match change.protocol {
        Some(protocol) => law_view_tells_protocol(r.protocol, protocol),
        None => law_view_tells_protocol(r.protocol, base.protocol),
    }
    match change.metadata {
        Some(metadata) => law_view_tells_metadata(r.metadata, metadata),
        None => law_view_tells_metadata(r.metadata, base.metadata),
    }
}

/// A trusted change adds its files and bytes to those of the table and takes away those that it removes, as
/// long as the sums fit. Without trust, or without a known table, nothing is known of the files afterwards.
pub proof fn law_change_adds_to_file_statistics(
    base: Crc,
    change: CrcDelta,
    version: Version,
    r: Crc,
)
    requires
        call_ensures(Crc::apply, (base, change, version), r),
    ensures
        match (base.file_stats_state, r.file_stats_state) {
            (FileStatsState::Complete(before), FileStatsState::Complete(after)) => {
                &&& change.is_incremental_safe
                &&& after.num_files == before.num_files + change.file_stats.gross_add_files
                    - change.file_stats.gross_remove_files
                &&& after.table_size_bytes == before.table_size_bytes
                    + change.file_stats.gross_add_bytes - change.file_stats.gross_remove_bytes
            },
            (FileStatsState::Complete(before), FileStatsState::Indeterminate) => {
                let files = before.num_files + change.file_stats.gross_add_files
                    - change.file_stats.gross_remove_files;
                let bytes = before.table_size_bytes + change.file_stats.gross_add_bytes
                    - change.file_stats.gross_remove_bytes;
                !change.is_incremental_safe || !(i64::MIN <= files <= i64::MAX) || !(i64::MIN
                    <= bytes <= i64::MAX)
            },
            (FileStatsState::Indeterminate, after) => after is Indeterminate,
        },
{
    assert(r@.file_stats == r.file_stats_state@);
    assert(base@.file_stats == base.file_stats_state@);
}

/// Are these the histograms before and after a change: the same bins, and in each bin the files and bytes of
/// both?
pub open spec fn adds_up(before: HistogramView, change: HistogramView, after: HistogramView) -> bool {
    &&& before.boundaries == change.boundaries
    &&& after.boundaries == before.boundaries
    &&& after.file_counts.len() == before.boundaries.len()
    &&& after.total_bytes.len() == before.boundaries.len()
    &&& forall|i: int|
        0 <= i < before.boundaries.len() ==> #[trigger] after.file_counts[i]
            == before.file_counts[i] + change.file_counts[i]
    &&& forall|i: int|
        0 <= i < before.boundaries.len() ==> #[trigger] after.total_bytes[i]
            == before.total_bytes[i] + change.total_bytes[i]
}

/// Can the two histograms be added: are their bins the same, and do all sums fit?
pub open spec fn can_be_added(a: HistogramView, b: HistogramView) -> bool {
    &&& a.boundaries == b.boundaries
    &&& forall|i: int|
        0 <= i < a.boundaries.len() ==> i64::MIN <= #[trigger] a.file_counts[i] + b.file_counts[i]
            <= i64::MAX
    &&& forall|i: int|
        0 <= i < a.boundaries.len() ==> i64::MIN <= #[trigger] a.total_bytes[i] + b.total_bytes[i]
            <= i64::MAX
}

/// Adding histograms adds the counts of each bin, and fails exactly where they cannot be added.
pub proof fn law_histograms_add_up(
    a: FileSizeHistogram,
    b: FileSizeHistogram,
    r: Option<FileSizeHistogram>,
)
    requires
        call_ensures(FileSizeHistogram::plus, (&a, &b), r),
    ensures
        match r {
            Some(sum) => can_be_added(a@, b@) && adds_up(a@, b@, sum@),
            None => !can_be_added(a@, b@),
        },
{
}

/// The histogram after a trusted change is the sum of both. It is lost where one of them is missing or they
/// cannot be added.
pub proof fn law_change_adds_to_histogram(base: Crc, change: CrcDelta, version: Version, r: Crc)
    requires
        call_ensures(Crc::apply, (base, change, version), r),
        base.file_stats_state is Complete,
        r.file_stats_state is Complete,
    ensures
        match (
            base.file_stats_state->Complete_0.file_size_histogram,
            change.file_stats.net_histogram,
            r.file_stats_state->Complete_0.file_size_histogram,
        ) {
            (Some(before), Some(delta), Some(after)) => adds_up(before@, delta@, after@),
            (Some(before), Some(delta), None) => !can_be_added(before@, delta@),
            (_, _, after) => after is None,
        },
{
    assert(r@.file_stats == r.file_stats_state@);
    assert(base@.file_stats == base.file_stats_state@);
    assert(r.file_stats_state@->histogram == crate::crc::histogram_view(
        r.file_stats_state->Complete_0.file_size_histogram,
    ));
}

/// After a change a domain is as the change leaves it, is gone where the change removes it, and stays where
/// the change does not mention it. Domains that are not tracked stay so.
pub proof fn law_change_settles_domains(
    base: Crc,
    change: CrcDelta,
    version: Version,
    r: Crc,
    domain: Seq<char>,
)
    requires
        call_ensures(Crc::apply, (base, change, version), r),
    ensures
        match (base.domain_metadata_state, r.domain_metadata_state) {
            (DomainMetadataState::Complete(before), DomainMetadataState::Complete(after)) => {
                if !change.domain_metadata@.contains_key(domain) {
                    &&& after@.contains_key(domain) <==> before@.contains_key(domain)
                    &&& before@.contains_key(domain) ==> after@[domain] == before@[domain]
                } else if change.domain_metadata@[domain].removed {
                    !after@.contains_key(domain)
                } else {
                    &&& after@.contains_key(domain)
                    &&& after@[domain] == change.domain_metadata@[domain]
                }
            },
            (DomainMetadataState::Untracked, DomainMetadataState::Untracked) => true,
            _ => false,
        },
{
    assert(r@.domain_metadata == base@.apply(change@, version).domain_metadata);
}

/// After a change the progress of an application is that of the change, and stays where the change does not
/// mention the application. Progress that is not tracked stays so.
pub proof fn law_change_settles_transactions(
    base: Crc,
    change: CrcDelta,
    version: Version,
    r: Crc,
    app: Seq<char>,
)
    requires
        call_ensures(Crc::apply, (base, change, version), r),
    ensures
        match (base.set_transaction_state, r.set_transaction_state) {
            (SetTransactionState::Complete(before), SetTransactionState::Complete(after)) => {
                if change.set_transactions@.contains_key(app) {
                    &&& after@.contains_key(app)
                    &&& after@[app] == change.set_transactions@[app]
                } else {
                    &&& after@.contains_key(app) <==> before@.contains_key(app)
                    &&& before@.contains_key(app) ==> after@[app] == before@[app]
                }
            },
            (SetTransactionState::Untracked, SetTransactionState::Untracked) => true,
            _ => false,
        },
{
    assert(r@.set_transactions == base@.apply(change@, version).set_transactions);
}

/// Does the size fall into the bin: is it at least the boundary of the bin and below the next one?
pub open spec fn in_bin(boundaries: Seq<i64>, bin: int, size: i64) -> bool {
    &&& 0 <= bin < boundaries.len()
    &&& boundaries[bin] <= size
    &&& bin + 1 < boundaries.len() ==> size < boundaries[bin + 1]
}

/// The bin of a size is the one that it falls into, and there is no other.
pub proof fn law_size_falls_into_its_bin(boundaries: Seq<i64>, size: i64, bin: int)
    requires
        valid_boundaries(boundaries),
        size >= 0,
    ensures
        in_bin(boundaries, bin, size) <==> bin == bin_index(boundaries, size),
    decreases boundaries.len(),
{
    lemma_own_bin(boundaries, size);
    let own = bin_index(boundaries, size);
    if in_bin(boundaries, bin, size) && bin != own {
        if bin < own {
            assert(bin + 1 < own ==> boundaries[bin + 1] < boundaries[own]);
        } else {
            assert(own + 1 < bin ==> boundaries[own + 1] < boundaries[bin]);
        }
    }
}

proof fn lemma_own_bin(boundaries: Seq<i64>, size: i64)
    requires
        valid_boundaries(boundaries),
        size >= 0,
    ensures
        in_bin(boundaries, bin_index(boundaries, size), size),
    decreases boundaries.len(),
{
    if boundaries.last() > size {
        let rest = boundaries.drop_last();
        assert(rest[0] == boundaries[0]);
        assert forall|i: int, j: int| 0 <= i < j < rest.len() implies #[trigger] rest[i]
            < #[trigger] rest[j] by {
            assert(boundaries[i] < boundaries[j]);
        }
        lemma_own_bin(rest, size);
    }
}

/// Counting files of a size changes the bin into which the size falls, by so many files and their bytes, and
/// leaves the other bins as they are. It fails exactly for a negative size or a count that does not fit.
pub proof fn law_counting_changes_one_bin(h: HistogramView, size: i64, files: int, bin: int)
    requires
        valid_boundaries(h.boundaries),
        h.file_counts.len() == h.boundaries.len(),
        h.total_bytes.len() == h.boundaries.len(),
        0 <= bin < h.boundaries.len(),
    ensures
        size < 0 ==> h.count(size, files) is None,
        size >= 0 && in_bin(h.boundaries, bin, size) ==> (h.count(size, files) is None <==> !(
        i64::MIN <= h.file_counts[bin] + files <= i64::MAX) || !(i64::MIN <= h.total_bytes[bin]
            + files * size <= i64::MAX)),
        h.count(size, files) is Some ==> {
            let after = h.count(size, files)->0;
            &&& after.boundaries == h.boundaries
            &&& after.file_counts.len() == h.file_counts.len()
            &&& after.total_bytes.len() == h.total_bytes.len()
            &&& after.file_counts[bin] == h.file_counts[bin] + if in_bin(h.boundaries, bin, size) {
                files
            } else {
                0
            }
            &&& after.total_bytes[bin] == h.total_bytes[bin] + if in_bin(h.boundaries, bin, size) {
                files * size
            } else {
                0
            }
        },
{
    if size >= 0 {
        law_size_falls_into_its_bin(h.boundaries, size, bin);
        lemma_own_bin(h.boundaries, size);
    }
}

/// An empty histogram has the bins that it was made with and counts nothing. There is one for each list of
/// boundaries that begins at zero and ascends, and for no other.
pub proof fn law_empty_histogram(
    boundaries: Vec<i64>,
    r: crate::error::DeltaResult<FileSizeHistogram>,
)
    requires
        call_ensures(FileSizeHistogram::create_empty_with_boundaries, (boundaries,), r),
    ensures
        r is Ok <==> boundaries@.len() > 0 && boundaries@[0] == 0 && forall|i: int, j: int|
            0 <= i < j < boundaries@.len() ==> #[trigger] boundaries@[i] < #[trigger] boundaries@[j],
        r matches Ok(h) ==> {
            &&& h@.boundaries == boundaries@
            &&& h@.file_counts.len() == boundaries@.len()
            &&& h@.total_bytes.len() == boundaries@.len()
            &&& forall|i: int| 0 <= i < boundaries@.len() ==> #[trigger] h@.file_counts[i] == 0
            &&& forall|i: int| 0 <= i < boundaries@.len() ==> #[trigger] h@.total_bytes[i] == 0
        },
{
}

} // verus!
