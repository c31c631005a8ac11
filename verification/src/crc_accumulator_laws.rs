//! What each call of a replay does to the change that it gathers.

use vstd::prelude::*;

use crate::crc::{CrcDelta, FileSizeHistogram, HistogramView};
use crate::crc_laws::{in_bin, law_counting_changes_one_bin};
use crate::crc_content_laws::has_valid_bins;
use crate::crc_replay::{CrcReplayAccumulator, ReplayView};
use crate::error::DeltaResult;
use crate::text::texts;

verus! {

/// Do two states agree in all but the file statistics, the trust and what was seen of the commit?
pub open spec fn same_other_actions(a: ReplayView, b: ReplayView) -> bool {
    &&& a.delta.protocol == b.delta.protocol
    &&& a.delta.metadata == b.delta.metadata
    &&& a.delta.domain_metadata == b.delta.domain_metadata
    &&& a.delta.set_transactions == b.delta.set_transactions
    &&& a.safe_operations == b.safe_operations
}

/// Do two states agree in which commit they are?
pub open spec fn same_commit(a: ReplayView, b: ReplayView) -> bool {
    &&& a.is_first_commit == b.is_first_commit
    &&& a.current_file_url == b.current_file_url
}

/// Does a histogram differ from another by so many files of a size, in the bin of the size alone?
pub open spec fn counted(
    before: HistogramView,
    after: HistogramView,
    size: i64,
    files: int,
) -> bool {
    &&& after.boundaries == before.boundaries
    &&& after.file_counts.len() == before.file_counts.len()
    &&& after.total_bytes.len() == before.total_bytes.len()
    &&& forall|bin: int|
        0 <= bin < before.boundaries.len() ==> #[trigger] after.file_counts[bin]
            == before.file_counts[bin] + if in_bin(before.boundaries, bin, size) {
            files
        } else {
            0
        }
    &&& forall|bin: int|
        0 <= bin < before.boundaries.len() ==> #[trigger] after.total_bytes[bin]
            == before.total_bytes[bin] + if in_bin(before.boundaries, bin, size) {
            files * size
        } else {
            0
        }
}

proof fn lemma_counted(h: HistogramView, size: i64, files: int)
    requires
        has_valid_bins(Some(h)),
        h.count(size, files) is Some,
    ensures
        counted(h, h.count(size, files)->0, size, files),
{
    let after = h.count(size, files)->0;
    assert forall|bin: int| 0 <= bin < h.boundaries.len() implies #[trigger] after.file_counts[bin]
        == h.file_counts[bin] + if in_bin(h.boundaries, bin, size) {
        files
    } else {
        0
    } by {
        law_counting_changes_one_bin(h, size, files, bin);
    }
    assert forall|bin: int| 0 <= bin < h.boundaries.len() implies #[trigger] after.total_bytes[bin]
        == h.total_bytes[bin] + if in_bin(h.boundaries, bin, size) {
        files * size
    } else {
        0
    } by {
        law_counting_changes_one_bin(h, size, files, bin);
    }
    law_counting_changes_one_bin(h, size, files, 0);
}

/// A replay begins with nothing but the histogram and the safe operations that it is given, and is trusted.
pub proof fn law_replay_begins_with_nothing(
    seed: Option<FileSizeHistogram>,
    safe_operations: Vec<String>,
    r: CrcReplayAccumulator,
)
    requires
        call_ensures(CrcReplayAccumulator::new, (seed, safe_operations), r),
    ensures
        r.delta.file_stats.gross_add_files == 0,
        r.delta.file_stats.gross_add_bytes == 0,
        r.delta.file_stats.gross_remove_files == 0,
        r.delta.file_stats.gross_remove_bytes == 0,
        seed is Some <==> r@.delta.file_stats.net_histogram is Some,
        seed is Some ==> r@.delta.file_stats.net_histogram->0 == seed->0@,
        r.delta.is_incremental_safe,
        r.delta.in_commit_timestamp is None,
        r@.delta.protocol is None && r@.delta.metadata is None,
        forall|k: Seq<char>| !(#[trigger] r@.delta.domain_metadata.contains_key(k)),
        forall|k: Seq<char>| !(#[trigger] r@.delta.set_transactions.contains_key(k)),
        r.is_first_commit && r@.current_file_url is None,
        !r.current_commit_saw_file_action && !r.current_commit_saw_safe_op,
        r@.safe_operations == texts(safe_operations@),
{
    assert(r@.is_first_commit && r@.delta.is_incremental_safe);
    assert(!r@.saw_file_action && !r@.saw_safe_op);
}

/// A file that is added counts as one file more, with its bytes, in the sums and in the bin of its size. An untrusted change does not count it.
pub proof fn law_added_file_is_counted(
    acc: &mut CrcReplayAccumulator,
    size: i64,
    r: DeltaResult<()>,
)
    requires
        call_ensures(CrcReplayAccumulator::on_add, (acc, size), r),
        has_valid_bins(acc@.delta.file_stats.net_histogram),
    ensures
        ({
            let before = old(acc)@;
            let after = final(acc)@;
            let a = before.delta.file_stats;
            let b = after.delta.file_stats;
            &&& after.saw_file_action
            &&& after.saw_safe_op == before.saw_safe_op
            &&& after.delta.is_incremental_safe == before.delta.is_incremental_safe
            &&& after.delta.in_commit_timestamp == before.delta.in_commit_timestamp
            &&& same_other_actions(before, after)
            &&& same_commit(before, after)
            &&& !before.delta.is_incremental_safe ==> r is Ok && b == a
            &&& before.delta.is_incremental_safe && size < 0 ==> r is Err
            &&& before.delta.is_incremental_safe && r is Ok ==> {
                &&& b.gross_add_files == a.gross_add_files + 1
                &&& b.gross_add_bytes == a.gross_add_bytes + size
                &&& b.gross_remove_files == a.gross_remove_files
                &&& b.gross_remove_bytes == a.gross_remove_bytes
                &&& a.net_histogram is None ==> b.net_histogram is None
                &&& a.net_histogram is Some ==> b.net_histogram is Some && counted(
                    a.net_histogram->0,
                    b.net_histogram->0,
                    size,
                    1,
                )
            }
            &&& before.delta.is_incremental_safe && size >= 0 && a.net_histogram is None
                && a.gross_add_files < u64::MAX && a.gross_add_bytes + size <= u64::MAX ==> r is Ok
        }),
{
    let a = acc@.delta.file_stats;
    if a.net_histogram is Some && a.net_histogram->0.count(size, 1) is Some {
        lemma_counted(a.net_histogram->0, size, 1);
    }
}

/// A file that is removed counts as one file removed, with its bytes, and is taken out of the bin of its size. One of unknown size makes the change untrusted; an untrusted change does not count it.
pub proof fn law_removed_file_is_counted(
    acc: &mut CrcReplayAccumulator,
    path: &str,
    size: Option<i64>,
    r: DeltaResult<()>,
)
    requires
        call_ensures(CrcReplayAccumulator::on_remove, (acc, path, size), r),
        has_valid_bins(acc@.delta.file_stats.net_histogram),
    ensures
        ({
            let before = old(acc)@;
            let after = final(acc)@;
            let a = before.delta.file_stats;
            let b = after.delta.file_stats;
            &&& after.saw_file_action
            &&& after.saw_safe_op == before.saw_safe_op
            &&& after.delta.is_incremental_safe <==> before.delta.is_incremental_safe && size is Some
            &&& after.delta.in_commit_timestamp == before.delta.in_commit_timestamp
            &&& same_other_actions(before, after)
            &&& same_commit(before, after)
            &&& !before.delta.is_incremental_safe || size is None ==> r is Ok && b == a
            &&& before.delta.is_incremental_safe && size is Some && size->0 < 0 ==> r is Err
            &&& before.delta.is_incremental_safe && size is Some && r is Ok ==> {
                &&& b.gross_add_files == a.gross_add_files
                &&& b.gross_add_bytes == a.gross_add_bytes
                &&& b.gross_remove_files == a.gross_remove_files + 1
                &&& b.gross_remove_bytes == a.gross_remove_bytes + size->0
                &&& a.net_histogram is None ==> b.net_histogram is None
                &&& a.net_histogram is Some ==> b.net_histogram is Some && counted(
                    a.net_histogram->0,
                    b.net_histogram->0,
                    size->0,
                    -1,
                )
            }
            &&& before.delta.is_incremental_safe && size is Some && size->0 >= 0
                && a.net_histogram is None && a.gross_remove_files < u64::MAX
                && a.gross_remove_bytes + size->0 <= u64::MAX ==> r is Ok
        }),
{
    let a = acc@.delta.file_stats;
    if a.net_histogram is Some && size is Some && a.net_histogram->0.count(size->0, -1) is Some {
        lemma_counted(a.net_histogram->0, size->0, -1);
    }
}

/// An operation that is not among the safe ones makes the change untrusted; a safe one is noted for the commit. The timestamp is that of the first commit that is read.
pub proof fn law_commit_info_is_heeded(
    acc: &mut CrcReplayAccumulator,
    operation: Option<&str>,
    timestamp: Option<i64>,
)
    requires
        call_ensures(CrcReplayAccumulator::on_commit_info, (acc, operation, timestamp), ()),
    ensures
        ({
            let before = old(acc)@;
            let after = final(acc)@;
            let safe = operation is Some && exists|i: int|
                0 <= i < before.safe_operations.len() && #[trigger] before.safe_operations[i]
                    == operation->0@;
            &&& after.delta.is_incremental_safe <==> before.delta.is_incremental_safe && (
            operation is None || safe)
            &&& after.saw_safe_op <==> before.saw_safe_op || safe
            &&& before.is_first_commit ==> after.delta.in_commit_timestamp == timestamp
            &&& !before.is_first_commit ==> after.delta.in_commit_timestamp
                == before.delta.in_commit_timestamp
            &&& after.saw_file_action == before.saw_file_action
            &&& after.delta.file_stats == before.delta.file_stats
            &&& same_other_actions(before, after)
            &&& same_commit(before, after)
        }),
{
}

/// The end of a commit that touched files without naming a safe operation makes the change untrusted. The next commit of a trusted change begins with nothing seen.
pub proof fn law_commit_ends(acc: &mut CrcReplayAccumulator)
    requires
        call_ensures(CrcReplayAccumulator::process_commit_file_end, (acc,), ()),
    ensures
        ({
            let before = old(acc)@;
            let after = final(acc)@;
            &&& after.delta.is_incremental_safe <==> before.delta.is_incremental_safe && (
            before.saw_safe_op || !before.saw_file_action)
            &&& before.delta.is_incremental_safe ==> !after.saw_file_action && !after.saw_safe_op
            &&& after.delta.file_stats == before.delta.file_stats
            &&& after.delta.in_commit_timestamp == before.delta.in_commit_timestamp
            &&& same_other_actions(before, after)
            &&& same_commit(before, after)
        }),
{
}

/// A batch of another file ends the commit before it, which then is not the first any more. A batch of the same file goes on with the commit.
pub proof fn law_batch_begins(acc: &mut CrcReplayAccumulator, url: &str)
    requires
        call_ensures(CrcReplayAccumulator::process_batch_start, (acc, url), ()),
    ensures
        ({
            let before = old(acc)@;
            let after = final(acc)@;
            let other = before.current_file_url is Some && before.current_file_url->0 != url@;
            &&& after.current_file_url == Some(url@)
            &&& after.is_first_commit <==> before.is_first_commit && !other
            &&& !other ==> after.delta.is_incremental_safe == before.delta.is_incremental_safe
                && after.saw_safe_op == before.saw_safe_op && after.saw_file_action
                == before.saw_file_action
            &&& other ==> (after.delta.is_incremental_safe <==> before.delta.is_incremental_safe && (
            before.saw_safe_op || !before.saw_file_action))
            &&& other && before.delta.is_incremental_safe ==> !after.saw_file_action
                && !after.saw_safe_op
            &&& after.delta.file_stats == before.delta.file_stats
            &&& after.delta.in_commit_timestamp == before.delta.in_commit_timestamp
            &&& same_other_actions(before, after)
        }),
{
}

/// Of the actions on a domain the first one that is seen counts, with all that it says. Other domains stay as they are.
pub proof fn law_first_domain_action_counts(
    acc: &mut CrcReplayAccumulator,
    domain: String,
    configuration: String,
    removed: bool,
)
    requires
        call_ensures(
            CrcReplayAccumulator::on_domain_metadata,
            (acc, domain, configuration, removed),
            (),
        ),
    ensures
        ({
            let before = old(acc)@.delta;
            let after = final(acc)@.delta;
            &&& before.domain_metadata.contains_key(domain@) ==> after == before
            &&& after.domain_metadata.contains_key(domain@)
            &&& !before.domain_metadata.contains_key(domain@) ==> {
                let held = after.domain_metadata[domain@];
                &&& held.domain@ == domain@
                &&& held.configuration@ == configuration@
                &&& held.removed == removed
            }
            &&& forall|k: Seq<char>|
                k != domain@ ==> (#[trigger] after.domain_metadata.contains_key(k)
                    <==> before.domain_metadata.contains_key(k)) && (
                before.domain_metadata.contains_key(k) ==> after.domain_metadata[k]
                    == before.domain_metadata[k])
            &&& after.set_transactions == before.set_transactions
            &&& after.file_stats == before.file_stats
            &&& after.protocol == before.protocol && after.metadata == before.metadata
            &&& after.in_commit_timestamp == before.in_commit_timestamp
            &&& after.is_incremental_safe == before.is_incremental_safe
        }),
        same_commit(old(acc)@, final(acc)@),
        final(acc)@.saw_file_action == old(acc)@.saw_file_action,
        final(acc)@.saw_safe_op == old(acc)@.saw_safe_op,
{
}

/// Of the transactions of an application the first one that is seen counts, with all that it says. Other applications stay as they are.
pub proof fn law_first_transaction_counts(
    acc: &mut CrcReplayAccumulator,
    app_id: String,
    version: i64,
    last_updated: Option<i64>,
)
    requires
        call_ensures(
            CrcReplayAccumulator::on_set_transaction,
            (acc, app_id, version, last_updated),
            (),
        ),
    ensures
        ({
            let before = old(acc)@.delta;
            let after = final(acc)@.delta;
            &&& before.set_transactions.contains_key(app_id@) ==> after == before
            &&& after.set_transactions.contains_key(app_id@)
            &&& !before.set_transactions.contains_key(app_id@) ==> {
                let held = after.set_transactions[app_id@];
                &&& held.app_id@ == app_id@
                &&& held.version == version
                &&& held.last_updated == last_updated
            }
            &&& forall|k: Seq<char>|
                k != app_id@ ==> (#[trigger] after.set_transactions.contains_key(k)
                    <==> before.set_transactions.contains_key(k)) && (
                before.set_transactions.contains_key(k) ==> after.set_transactions[k]
                    == before.set_transactions[k])
            &&& after.domain_metadata == before.domain_metadata
            &&& after.file_stats == before.file_stats
            &&& after.protocol == before.protocol && after.metadata == before.metadata
            &&& after.in_commit_timestamp == before.in_commit_timestamp
            &&& after.is_incremental_safe == before.is_incremental_safe
        }),
        same_commit(old(acc)@, final(acc)@),
        final(acc)@.saw_file_action == old(acc)@.saw_file_action,
        final(acc)@.saw_safe_op == old(acc)@.saw_safe_op,
{
}

/// The change that comes out is the one that was gathered.
pub proof fn law_gathered_change_comes_out(acc: CrcReplayAccumulator, r: CrcDelta)
    requires
        call_ensures(CrcReplayAccumulator::into_crc_delta, (acc,), r),
    ensures
        r@ == acc.delta@,
        r.file_stats.gross_add_files == acc.delta.file_stats.gross_add_files,
        r.file_stats.gross_add_bytes == acc.delta.file_stats.gross_add_bytes,
        r.file_stats.gross_remove_files == acc.delta.file_stats.gross_remove_files,
        r.file_stats.gross_remove_bytes == acc.delta.file_stats.gross_remove_bytes,
        r.in_commit_timestamp == acc.delta.in_commit_timestamp,
        r.is_incremental_safe == acc.delta.is_incremental_safe,
{
    crate::view_laws::law_view_tells_change(r);
    crate::view_laws::law_view_tells_change(acc.delta);
}

/// A histogram counts a file that is put in, in the bin of its size alone. It refuses a negative size and stays as it was.
pub proof fn law_histogram_counts_one_file(
    h: &mut FileSizeHistogram,
    size: i64,
    r: DeltaResult<()>,
)
    requires
        has_valid_bins(Some(h@)),
        call_ensures(FileSizeHistogram::insert, (h, size), r),
    ensures
        r is Ok ==> size >= 0 && counted(old(h)@, final(h)@, size, 1),
        r is Err ==> final(h)@ == old(h)@,
        size < 0 ==> r is Err,
{
    if h@.count(size, 1) is Some {
        lemma_counted(h@, size, 1);
    }
    law_counting_changes_one_bin(h@, size, 1, 0);
}

/// A histogram discounts a file that is taken out, in the bin of its size alone. It refuses a negative size and stays as it was.
pub proof fn law_histogram_discounts_one_file(
    h: &mut FileSizeHistogram,
    size: i64,
    r: DeltaResult<()>,
)
    requires
        has_valid_bins(Some(h@)),
        call_ensures(FileSizeHistogram::remove, (h, size), r),
    ensures
        r is Ok ==> size >= 0 && counted(old(h)@, final(h)@, size, -1),
        r is Err ==> final(h)@ == old(h)@,
        size < 0 ==> r is Err,
{
    if h@.count(size, -1) is Some {
        lemma_counted(h@, size, -1);
    }
    law_counting_changes_one_bin(h@, size, -1, 0);
}

} // verus!
