//! Replaying a range of commits in one go gives the same checksum as replaying it in two.

use vstd::prelude::*;

use crate::actions::Version;
use crate::crc::{
    valid_boundaries, CrcDeltaView, CrcView, FileStatsDeltaView, FileStatsView, HistogramView,
};
use crate::crc_replay::ReplayView;
use crate::error::ErrorView;
use crate::replay_rows::{BatchView, RowView};

verus! {

/// Has the histogram these bins?
pub open spec fn has_bins(histogram: HistogramView, boundaries: Seq<i64>) -> bool {
    &&& histogram.boundaries == boundaries
    &&& histogram.file_counts.len() == boundaries.len()
    &&& histogram.total_bytes.len() == boundaries.len()
}

/// Is there a histogram with the bins of the seed, or none where there is no seed?
pub open spec fn has_bins_of(histogram: Option<HistogramView>, seed: Option<Seq<i64>>) -> bool {
    match (histogram, seed) {
        (Some(histogram), Some(boundaries)) => has_bins(histogram, boundaries),
        (None, None) => true,
        _ => false,
    }
}

/// The empty histogram with which a replay starts.
pub open spec fn seeded(seed: Option<Seq<i64>>) -> Option<HistogramView> {
    match seed {
        Some(boundaries) => Some(HistogramView::empty(boundaries)),
        None => None,
    }
}

/// Are the bins of a seed valid?
pub open spec fn valid_seed(seed: Option<Seq<i64>>) -> bool {
    match seed {
        Some(boundaries) => valid_boundaries(boundaries),
        None => true,
    }
}

/// Do the counts of two histograms with the same bins add up to those of a third?
spec fn histograms_add_up(newer: HistogramView, older: HistogramView, both: HistogramView) -> bool {
    &&& forall|i: int|
        0 <= i < both.file_counts.len() ==> #[trigger] both.file_counts[i] == newer.file_counts[i]
            + older.file_counts[i]
    &&& forall|i: int|
        0 <= i < both.total_bytes.len() ==> #[trigger] both.total_bytes[i] == newer.total_bytes[i]
            + older.total_bytes[i]
}

/// Do two file statistics add up to a third?
spec fn stats_add_up(
    newer: FileStatsDeltaView,
    older: FileStatsDeltaView,
    both: FileStatsDeltaView,
) -> bool {
    &&& both.gross_add_files == newer.gross_add_files + older.gross_add_files
    &&& both.gross_add_bytes == newer.gross_add_bytes + older.gross_add_bytes
    &&& both.gross_remove_files == newer.gross_remove_files + older.gross_remove_files
    &&& both.gross_remove_bytes == newer.gross_remove_bytes + older.gross_remove_bytes
    &&& match (newer.net_histogram, older.net_histogram, both.net_histogram) {
        (Some(n), Some(o), Some(b)) => histograms_add_up(n, o, b),
        (None, None, None) => true,
        _ => false,
    }
}

/// Do two changes, the newer of which wins, make up a third?
spec fn changes_add_up(newer: CrcDeltaView, older: CrcDeltaView, both: CrcDeltaView) -> bool {
    &&& both.is_incremental_safe == (newer.is_incremental_safe && older.is_incremental_safe)
    &&& both.is_incremental_safe ==> stats_add_up(
        newer.file_stats,
        older.file_stats,
        both.file_stats,
    )
    &&& both.in_commit_timestamp == newer.in_commit_timestamp
    &&& both.protocol == (if newer.protocol is Some {
        newer.protocol
    } else {
        older.protocol
    })
    &&& both.metadata == (if newer.metadata is Some {
        newer.metadata
    } else {
        older.metadata
    })
    &&& both.domain_metadata == older.domain_metadata.union_prefer_right(newer.domain_metadata)
    &&& both.set_transactions == older.set_transactions.union_prefer_right(newer.set_transactions)
}

/// The state of a replay that goes on behind a newer range, against that of a replay of the older commits
/// alone.
spec fn goes_on(
    newer: CrcDeltaView,
    older: ReplayView,
    both: ReplayView,
    seed: Option<Seq<i64>>,
) -> bool {
    &&& changes_add_up(newer, older.delta, both.delta)
    &&& has_bins_of(newer.file_stats.net_histogram, seed)
    &&& has_bins_of(older.delta.file_stats.net_histogram, seed)
    &&& has_bins_of(both.delta.file_stats.net_histogram, seed)
    &&& !both.is_first_commit
    &&& both.safe_operations == older.safe_operations
    &&& both.current_file_url == older.current_file_url
    &&& both.delta.is_incremental_safe ==> both.saw_file_action == older.saw_file_action
        && both.saw_safe_op == older.saw_safe_op
}

proof fn lemma_bin_in_range(boundaries: Seq<i64>, size: i64)
    requires
        valid_boundaries(boundaries),
        size >= 0,
    ensures
        0 <= crate::crc::bin_index(boundaries, size) < boundaries.len(),
{
    crate::crc::lemma_bin_index(boundaries, size);
}

proof fn lemma_count_keeps_bins(
    histogram: HistogramView,
    boundaries: Seq<i64>,
    size: i64,
    files: int,
)
    requires
        valid_boundaries(boundaries),
        has_bins(histogram, boundaries),
        histogram.count(size, files) is Some,
    ensures
        has_bins(histogram.count(size, files)->0, boundaries),
{
    lemma_bin_in_range(boundaries, size);
}

proof fn lemma_count_adds_up(
    newer: HistogramView,
    older: HistogramView,
    both: HistogramView,
    boundaries: Seq<i64>,
    size: i64,
    files: int,
)
    requires
        valid_boundaries(boundaries),
        has_bins(newer, boundaries),
        has_bins(older, boundaries),
        has_bins(both, boundaries),
        histograms_add_up(newer, older, both),
        older.count(size, files) is Some,
        both.count(size, files) is Some,
    ensures
        histograms_add_up(newer, older.count(size, files)->0, both.count(size, files)->0),
{
    lemma_bin_in_range(boundaries, size);
    let i = crate::crc::bin_index(boundaries, size);
    let o = older.count(size, files)->0;
    let b = both.count(size, files)->0;
    assert(both.file_counts[i] == newer.file_counts[i] + older.file_counts[i]);
    assert(both.total_bytes[i] == newer.total_bytes[i] + older.total_bytes[i]);
    assert forall|k: int| 0 <= k < b.file_counts.len() implies #[trigger] b.file_counts[k]
        == newer.file_counts[k] + o.file_counts[k] by {
        assert(both.file_counts[k] == newer.file_counts[k] + older.file_counts[k]);
    }
    assert forall|k: int| 0 <= k < b.total_bytes.len() implies #[trigger] b.total_bytes[k]
        == newer.total_bytes[k] + o.total_bytes[k] by {
        assert(both.total_bytes[k] == newer.total_bytes[k] + older.total_bytes[k]);
    }
}

proof fn lemma_add_goes_on(
    newer: CrcDeltaView,
    older: ReplayView,
    both: ReplayView,
    seed: Option<Seq<i64>>,
    size: i64,
)
    requires
        valid_seed(seed),
        goes_on(newer, older, both, seed),
        older.add(size).1 is Ok,
        both.add(size).1 is Ok,
    ensures
        goes_on(newer, older.add(size).0, both.add(size).0, seed),
{
    if let Some(boundaries) = seed {
        let o = older.delta.file_stats.net_histogram->0;
        let b = both.delta.file_stats.net_histogram->0;
        if older.delta.is_incremental_safe {
            lemma_count_keeps_bins(o, boundaries, size, 1);
        }
        if both.delta.is_incremental_safe {
            lemma_count_keeps_bins(b, boundaries, size, 1);
            lemma_count_adds_up(newer.file_stats.net_histogram->0, o, b, boundaries, size, 1);
        }
    }
}

proof fn lemma_remove_goes_on(
    newer: CrcDeltaView,
    older: ReplayView,
    both: ReplayView,
    seed: Option<Seq<i64>>,
    size: Option<i64>,
)
    requires
        valid_seed(seed),
        goes_on(newer, older, both, seed),
        older.remove(size).1 is Ok,
        both.remove(size).1 is Ok,
    ensures
        goes_on(newer, older.remove(size).0, both.remove(size).0, seed),
{
    if let (Some(boundaries), Some(size)) = (seed, size) {
        let o = older.delta.file_stats.net_histogram->0;
        let b = both.delta.file_stats.net_histogram->0;
        if older.delta.is_incremental_safe {
            lemma_count_keeps_bins(o, boundaries, size, -1);
        }
        if both.delta.is_incremental_safe {
            lemma_count_keeps_bins(b, boundaries, size, -1);
            lemma_count_adds_up(newer.file_stats.net_histogram->0, o, b, boundaries, size, -1);
        }
    }
}

proof fn lemma_files_go_on(
    newer: CrcDeltaView,
    older: ReplayView,
    both: ReplayView,
    seed: Option<Seq<i64>>,
    row: RowView,
)
    requires
        valid_seed(seed),
        goes_on(newer, older, both, seed),
        older.row_files(row).1 is Ok,
        both.row_files(row).1 is Ok,
    ensures
        goes_on(newer, older.row_files(row).0, both.row_files(row).0, seed),
{
    let o1 = older.row_commit_info(row.commit_info);
    let b1 = both.row_commit_info(row.commit_info);
    assert(goes_on(newer, o1.0, b1.0, seed));
    let o2 = o1.0.row_add(row.add_size);
    let b2 = b1.0.row_add(row.add_size);
    if let Ok(Some(size)) = row.add_size {
        lemma_add_goes_on(newer, o1.0, b1.0, seed, size);
    }
    assert(goes_on(newer, o2.0, b2.0, seed));
    if let Ok(Some(size)) = row.remove_size {
        lemma_remove_goes_on(newer, o2.0, b2.0, seed, size);
    }
}

proof fn lemma_domain_goes_on(
    newer: CrcDeltaView,
    older: ReplayView,
    both: ReplayView,
    seed: Option<Seq<i64>>,
    row: RowView,
)
    requires
        goes_on(newer, older, both, seed),
        older.row_domain(row.domain).1 is Ok,
    ensures
        both.row_domain(row.domain).1 is Ok,
        goes_on(
            newer,
            older.row_domain(row.domain).0,
            both.row_domain(row.domain).0,
            seed,
        ),
{
    let o = older.row_domain(row.domain).0;
    let b = both.row_domain(row.domain).0;
    assert(b.delta.domain_metadata =~= o.delta.domain_metadata.union_prefer_right(
        newer.domain_metadata,
    ));
}

proof fn lemma_transaction_goes_on(
    newer: CrcDeltaView,
    older: ReplayView,
    both: ReplayView,
    seed: Option<Seq<i64>>,
    row: RowView,
)
    requires
        goes_on(newer, older, both, seed),
        older.row_transaction(row.transaction).1 is Ok,
    ensures
        both.row_transaction(row.transaction).1 is Ok,
        goes_on(
            newer,
            older.row_transaction(row.transaction).0,
            both.row_transaction(row.transaction).0,
            seed,
        ),
{
    let o = older.row_transaction(row.transaction).0;
    let b = both.row_transaction(row.transaction).0;
    assert(b.delta.set_transactions =~= o.delta.set_transactions.union_prefer_right(
        newer.set_transactions,
    ));
}

proof fn lemma_row_goes_on(
    newer: CrcDeltaView,
    older: ReplayView,
    both: ReplayView,
    seed: Option<Seq<i64>>,
    row: RowView,
)
    requires
        valid_seed(seed),
        goes_on(newer, older, both, seed),
        older.row(row).1 is Ok,
        both.row(row).1 is Ok,
    ensures
        goes_on(newer, older.row(row).0, both.row(row).0, seed),
{
    lemma_files_go_on(newer, older, both, seed, row);
    let o1 = older.row_files(row).0;
    let b1 = both.row_files(row).0;
    lemma_domain_goes_on(newer, o1, b1, seed, row);
    let o2 = o1.row_domain(row.domain).0;
    let b2 = b1.row_domain(row.domain).0;
    lemma_transaction_goes_on(newer, o2, b2, seed, row);
    let o3 = o2.row_transaction(row.transaction).0;
    let b3 = b2.row_transaction(row.transaction).0;
    let o4 = o3.row_protocol(row.protocol).0;
    let b4 = b3.row_protocol(row.protocol).0;
    assert(goes_on(newer, o4, b4, seed));
    assert(goes_on(newer, o4.row_metadata(row.metadata).0, b4.row_metadata(row.metadata).0, seed));
}

proof fn lemma_rows_go_on(
    newer: CrcDeltaView,
    older: ReplayView,
    both: ReplayView,
    seed: Option<Seq<i64>>,
    rows: Seq<RowView>,
)
    requires
        valid_seed(seed),
        goes_on(newer, older, both, seed),
        older.rows(rows).1 is Ok,
        both.rows(rows).1 is Ok,
    ensures
        goes_on(newer, older.rows(rows).0, both.rows(rows).0, seed),
    decreases rows.len(),
{
    if rows.len() > 0 {
        lemma_rows_go_on(newer, older, both, seed, rows.drop_last());
        lemma_row_goes_on(
            newer,
            older.rows(rows.drop_last()).0,
            both.rows(rows.drop_last()).0,
            seed,
            rows.last(),
        );
    }
}

/// A replay keeps the bins that it started with.
proof fn lemma_row_keeps_bins(state: ReplayView, seed: Option<Seq<i64>>, row: RowView)
    requires
        valid_seed(seed),
        has_bins_of(state.delta.file_stats.net_histogram, seed),
        state.row(row).1 is Ok,
    ensures
        has_bins_of(state.row(row).0.delta.file_stats.net_histogram, seed),
        state.row(row).0.current_file_url == state.current_file_url,
        state.row(row).0.safe_operations == state.safe_operations,
{
    if let Some(boundaries) = seed {
        let informed = state.row_commit_info(row.commit_info).0;
        let added = informed.row_add(row.add_size).0;
        if let Ok(Some(size)) = row.add_size {
            if informed.delta.is_incremental_safe {
                lemma_count_keeps_bins(
                    informed.delta.file_stats.net_histogram->0,
                    boundaries,
                    size,
                    1,
                );
            }
        }
        if let Ok(Some(Some(size))) = row.remove_size {
            if added.delta.is_incremental_safe {
                lemma_count_keeps_bins(
                    added.delta.file_stats.net_histogram->0,
                    boundaries,
                    size,
                    -1,
                );
            }
        }
    }
}

proof fn lemma_rows_keep_bins(state: ReplayView, seed: Option<Seq<i64>>, rows: Seq<RowView>)
    requires
        valid_seed(seed),
        has_bins_of(state.delta.file_stats.net_histogram, seed),
        state.rows(rows).1 is Ok,
    ensures
        has_bins_of(state.rows(rows).0.delta.file_stats.net_histogram, seed),
        state.rows(rows).0.current_file_url == state.current_file_url,
        state.rows(rows).0.safe_operations == state.safe_operations,
    decreases rows.len(),
{
    if rows.len() > 0 {
        let before = state.rows(rows.drop_last());
        assert(before.1 is Ok);
        assert(state.rows(rows) == before.0.row(rows.last()));
        lemma_rows_keep_bins(state, seed, rows.drop_last());
        lemma_row_keeps_bins(before.0, seed, rows.last());
    }
}

proof fn lemma_batches_keep_bins(
    state: ReplayView,
    seed: Option<Seq<i64>>,
    batches: Seq<Result<BatchView, ErrorView>>,
)
    requires
        valid_seed(seed),
        has_bins_of(state.delta.file_stats.net_histogram, seed),
        state.batches(batches) is Ok,
    ensures
        has_bins_of(state.batches(batches)->Ok_0.delta.file_stats.net_histogram, seed),
        state.batches(batches)->Ok_0.safe_operations == state.safe_operations,
    decreases batches.len(),
{
    if batches.len() > 0 {
        lemma_batches_keep_bins(state, seed, batches.drop_last());
        let before = state.batches(batches.drop_last())->Ok_0;
        let batch = batches.last()->Ok_0;
        if batch.rows.len() > 0 {
            lemma_rows_keep_bins(before.batch_start(batch.file_url->Ok_0), seed, batch.rows);
        }
    }
}

/// Is none of the batches one of the file?
pub open spec fn without_file(batches: Seq<Result<BatchView, ErrorView>>, url: Seq<char>) -> bool {
    forall|i: int|
        0 <= i < batches.len() ==> match #[trigger] batches[i] {
            Ok(batch) => match batch.file_url {
                Ok(u) => u != url,
                Err(_) => true,
            },
            Err(_) => true,
        }
}

/// Before the first row of the older range, nothing has changed; after it, the replay goes on.
spec fn has_gone_on(
    start: ReplayView,
    middle: ReplayView,
    older: ReplayView,
    both: ReplayView,
    seed: Option<Seq<i64>>,
) -> bool {
    (older == start && both == middle) || goes_on(middle.commit_end().delta, older, both, seed)
}

proof fn lemma_batch_goes_on(
    start: ReplayView,
    middle: ReplayView,
    older: ReplayView,
    both: ReplayView,
    seed: Option<Seq<i64>>,
    batch: BatchView,
)
    requires
        valid_seed(seed),
        start == ReplayView::start(seeded(seed), middle.safe_operations),
        middle.current_file_url is Some,
        has_bins_of(middle.delta.file_stats.net_histogram, seed),
        has_gone_on(start, middle, older, both, seed),
        batch.file_url is Ok ==> batch.file_url->Ok_0 != middle.current_file_url->0,
        older.batch(batch).1 is Ok,
        both.batch(batch).1 is Ok,
    ensures
        has_gone_on(start, middle, older.batch(batch).0, both.batch(batch).0, seed),
{
    if batch.rows.len() > 0 {
        let newer = middle.commit_end().delta;
        let url = batch.file_url->Ok_0;
        let o = older.batch_start(url);
        let b = both.batch_start(url);
        if older == start && both == middle {
            assert(b.delta == newer);
            assert(o.delta == start.delta);
            assert(o.delta.domain_metadata.union_prefer_right(newer.domain_metadata)
                =~= newer.domain_metadata);
            assert(o.delta.set_transactions.union_prefer_right(newer.set_transactions)
                =~= newer.set_transactions);
            assert(goes_on(newer, o, b, seed));
        } else {
            assert(goes_on(newer, o, b, seed));
        }
        lemma_rows_go_on(newer, o, b, seed, batch.rows);
    }
}

proof fn lemma_batches_go_on(
    start: ReplayView,
    middle: ReplayView,
    seed: Option<Seq<i64>>,
    batches: Seq<Result<BatchView, ErrorView>>,
)
    requires
        valid_seed(seed),
        start == ReplayView::start(seeded(seed), middle.safe_operations),
        middle.current_file_url is Some,
        has_bins_of(middle.delta.file_stats.net_histogram, seed),
        without_file(batches, middle.current_file_url->0),
        start.batches(batches) is Ok,
        middle.batches(batches) is Ok,
    ensures
        has_gone_on(
            start,
            middle,
            start.batches(batches)->Ok_0,
            middle.batches(batches)->Ok_0,
            seed,
        ),
    decreases batches.len(),
{
    if batches.len() > 0 {
        let rest = batches.drop_last();
        assert(without_file(rest, middle.current_file_url->0)) by {
            assert forall|i: int| 0 <= i < rest.len() implies match #[trigger] rest[i] {
                Ok(batch) => match batch.file_url {
                    Ok(u) => u != middle.current_file_url->0,
                    Err(_) => true,
                },
                Err(_) => true,
            } by {
                assert(rest[i] == batches[i]);
            }
        }
        lemma_batches_go_on(start, middle, seed, rest);
        let last = batches[batches.len() - 1];
        lemma_batch_goes_on(
            start,
            middle,
            start.batches(rest)->Ok_0,
            middle.batches(rest)->Ok_0,
            seed,
            last->Ok_0,
        );
    }
}

/// Batches that are replayed one after the other can be replayed in two parts.
proof fn lemma_batches_concat(
    state: ReplayView,
    first: Seq<Result<BatchView, ErrorView>>,
    second: Seq<Result<BatchView, ErrorView>>,
)
    requires
        state.batches(first) is Ok,
    ensures
        state.batches(first + second) == state.batches(first)->Ok_0.batches(second),
    decreases second.len(),
{
    if second.len() == 0 {
        assert(first + second =~= first);
    } else {
        lemma_batches_concat(state, first, second.drop_last());
        assert((first + second).drop_last() =~= first + second.drop_last());
    }
}

/// The change that batches make, from the newest commit to the oldest.
pub open spec fn change_of(
    seed: Option<Seq<i64>>,
    safe_operations: Seq<Seq<char>>,
    batches: Seq<Result<BatchView, ErrorView>>,
) -> Result<CrcDeltaView, ErrorView> {
    match ReplayView::start(seeded(seed), safe_operations).batches(batches) {
        Ok(state) => Ok(state.commit_end().delta),
        Err(e) => Err(e),
    }
}

/// Have the statistics been kept where they could be, that is, did every count fit?
pub open spec fn no_count_overflowed(
    before: FileStatsView,
    change: CrcDeltaView,
    after: FileStatsView,
) -> bool {
    match before {
        FileStatsView::Complete { histogram, .. } => change.is_incremental_safe ==> match after {
            FileStatsView::Complete { histogram: next, .. } => histogram is Some
                && change.file_stats.net_histogram is Some ==> next is Some,
            FileStatsView::Indeterminate => false,
        },
        FileStatsView::Indeterminate => true,
    }
}

proof fn lemma_histograms_apply(
    base: HistogramView,
    newer: HistogramView,
    older: HistogramView,
    both: HistogramView,
    boundaries: Seq<i64>,
)
    requires
        has_bins(newer, boundaries),
        has_bins(older, boundaries),
        has_bins(both, boundaries),
        histograms_add_up(newer, older, both),
        base.plus(older) is Some,
    ensures
        base.plus(both) == base.plus(older)->0.plus(newer),
{
    let middle = base.plus(older)->0;
    assert(base.boundaries == boundaries);
    assert forall|i: int| 0 <= i < boundaries.len() implies middle.file_counts[i]
        + newer.file_counts[i] == #[trigger] base.file_counts[i] + both.file_counts[i] by {
        assert(crate::crc::fits_i64(base.file_counts[i] + older.file_counts[i]));
        assert(both.file_counts[i] == newer.file_counts[i] + older.file_counts[i]);
    }
    assert forall|i: int| 0 <= i < boundaries.len() implies middle.total_bytes[i]
        + newer.total_bytes[i] == #[trigger] base.total_bytes[i] + both.total_bytes[i] by {
        assert(crate::crc::fits_i64(base.total_bytes[i] + older.total_bytes[i]));
        assert(both.total_bytes[i] == newer.total_bytes[i] + older.total_bytes[i]);
    }
    if middle.plus(newer) is Some {
        assert forall|i: int| 0 <= i < boundaries.len() implies crate::crc::fits_i64(
            #[trigger] base.file_counts[i] + both.file_counts[i],
        ) by {
            assert(crate::crc::fits_i64(middle.file_counts[i] + newer.file_counts[i]));
        }
        assert forall|i: int| 0 <= i < boundaries.len() implies crate::crc::fits_i64(
            #[trigger] base.total_bytes[i] + both.total_bytes[i],
        ) by {
            assert(crate::crc::fits_i64(middle.total_bytes[i] + newer.total_bytes[i]));
        }
        assert(base.plus(both)->0 =~= middle.plus(newer)->0);
    }
    if base.plus(both) is Some {
        assert forall|i: int| 0 <= i < boundaries.len() implies crate::crc::fits_i64(
            #[trigger] middle.file_counts[i] + newer.file_counts[i],
        ) by {
            assert(crate::crc::fits_i64(base.file_counts[i] + both.file_counts[i]));
        }
        assert forall|i: int| 0 <= i < boundaries.len() implies crate::crc::fits_i64(
            #[trigger] middle.total_bytes[i] + newer.total_bytes[i],
        ) by {
            assert(crate::crc::fits_i64(base.total_bytes[i] + both.total_bytes[i]));
        }
    }
}

proof fn lemma_changes_apply(
    base: CrcView,
    newer: CrcDeltaView,
    older: CrcDeltaView,
    both: CrcDeltaView,
    seed: Option<Seq<i64>>,
    between: Version,
    end: Version,
)
    requires
        changes_add_up(newer, older, both),
        has_bins_of(newer.file_stats.net_histogram, seed),
        has_bins_of(older.file_stats.net_histogram, seed),
        has_bins_of(both.file_stats.net_histogram, seed),
        no_count_overflowed(base.file_stats, older, base.apply(older, between).file_stats),
    ensures
        base.apply(both, end) == base.apply(older, between).apply(newer, end),
{
    let once = base.apply(both, end);
    let middle = base.apply(older, between);
    let twice = middle.apply(newer, end);
    assert(once.file_stats == twice.file_stats) by {
        if both.is_incremental_safe {
            if let FileStatsView::Complete { histogram: Some(h), .. } = base.file_stats {
                if let Some(boundaries) = seed {
                    lemma_histograms_apply(
                        h,
                        newer.file_stats.net_histogram->0,
                        older.file_stats.net_histogram->0,
                        both.file_stats.net_histogram->0,
                        boundaries,
                    );
                }
            }
        }
    }
    if let Some(domains) = base.domain_metadata {
        assert(once.domain_metadata->0 =~= twice.domain_metadata->0);
    }
    if let Some(transactions) = base.set_transactions {
        assert(once.set_transactions->0 =~= twice.set_transactions->0);
    }
}

/// A range of commits can be replayed in one go or in two: the change of the whole range leads from a
/// checksum to the same one as the change of its older part and then that of its newer part.
///
/// The newer part must have a row, and no commit file may be split between the parts. The counts must fit
/// after the older part, as those that do not fit are lost.
pub proof fn law_replay_in_two_steps(
    base: CrcView,
    seed: Option<Seq<i64>>,
    safe_operations: Seq<Seq<char>>,
    newer: Seq<Result<BatchView, ErrorView>>,
    older: Seq<Result<BatchView, ErrorView>>,
    between: Version,
    end: Version,
)
    requires
        valid_seed(seed),
        change_of(seed, safe_operations, newer) is Ok,
        change_of(seed, safe_operations, older) is Ok,
        change_of(seed, safe_operations, newer + older) is Ok,
        ({
            let middle = ReplayView::start(seeded(seed), safe_operations).batches(newer)->Ok_0;
            middle.current_file_url is Some && without_file(older, middle.current_file_url->0)
        }),
        ({
            let change = change_of(seed, safe_operations, older)->Ok_0;
            no_count_overflowed(base.file_stats, change, base.apply(change, between).file_stats)
        }),
    ensures
        base.apply(change_of(seed, safe_operations, newer + older)->Ok_0, end) == base.apply(
            change_of(seed, safe_operations, older)->Ok_0,
            between,
        ).apply(change_of(seed, safe_operations, newer)->Ok_0, end),
{
    let start = ReplayView::start(seeded(seed), safe_operations);
    let middle = start.batches(newer)->Ok_0;
    lemma_batches_keep_bins(start, seed, newer);
    lemma_batches_concat(start, newer, older);
    lemma_batches_go_on(start, middle, seed, older);
    lemma_batches_keep_bins(start, seed, older);
    lemma_batches_keep_bins(middle, seed, older);
    let o = start.batches(older)->Ok_0;
    let b = middle.batches(older)->Ok_0;
    let n = middle.commit_end().delta;
    if o == start && b == middle {
        assert(o.commit_end().delta == start.delta);
        assert(start.delta.domain_metadata.union_prefer_right(n.domain_metadata)
            =~= n.domain_metadata);
        assert(start.delta.set_transactions.union_prefer_right(n.set_transactions)
            =~= n.set_transactions);
    }
    assert(changes_add_up(n, o.commit_end().delta, b.commit_end().delta));
    lemma_changes_apply(
        base,
        n,
        o.commit_end().delta,
        b.commit_end().delta,
        seed,
        between,
        end,
    );
}

} // verus!
