//! When a replay succeeds.

use vstd::prelude::*;

use crate::columns::ColumnBatch;
use crate::crc::{CrcDelta, FileSizeHistogram, FileStatsDeltaView};
use crate::crc_content_laws::all_rows;
use crate::crc_replay::ReplayView;
use crate::error::{DeltaResult, ErrorView};
use crate::log_segment::fold_batches;
use crate::replay_rows::{batch_views, BatchView, RowView};
use crate::text::texts;

verus! {

/// Can every part of the row be read, and is no size negative?
pub open spec fn is_read(row: RowView) -> bool {
    &&& row.commit_info is Ok
    &&& row.add_size is Ok
    &&& row.add_size->Ok_0 is Some ==> row.add_size->Ok_0->0 >= 0
    &&& row.remove_size is Ok
    &&& row.remove_size->Ok_0 is Some && row.remove_size->Ok_0->0 is Some
        ==> row.remove_size->Ok_0->0->0 >= 0
    &&& row.domain is Ok
    &&& row.transaction is Ok
    &&& row.protocol is Ok
    &&& row.metadata is Ok
}

/// The bytes of the file that a row adds; 0 where it adds none.
pub open spec fn added_by(row: RowView) -> int {
    if row.add_size is Ok && row.add_size->Ok_0 is Some {
        row.add_size->Ok_0->0 as int
    } else {
        0
    }
}

/// The bytes of the file that a row removes; 0 where it removes none, or one of unknown size.
pub open spec fn removed_by(row: RowView) -> int {
    if row.remove_size is Ok && row.remove_size->Ok_0 is Some && row.remove_size->Ok_0->0 is Some {
        row.remove_size->Ok_0->0->0 as int
    } else {
        0
    }
}

/// The bytes of all files that the rows add.
pub open spec fn bytes_added(rows: Seq<RowView>) -> int
    decreases rows.len(),
{
    if rows.len() == 0 {
        0
    } else {
        bytes_added(rows.drop_last()) + added_by(rows.last())
    }
}

/// The bytes of all files that the rows remove.
pub open spec fn bytes_removed(rows: Seq<RowView>) -> int
    decreases rows.len(),
{
    if rows.len() == 0 {
        0
    } else {
        bytes_removed(rows.drop_last()) + removed_by(rows.last())
    }
}

/// Can every row be read?
pub open spec fn all_read(rows: Seq<RowView>) -> bool {
    forall|i: int| 0 <= i < rows.len() ==> is_read(#[trigger] rows[i])
}

/// Has the replay counted at most so many files and bytes, and no histogram?
pub open spec fn counted_at_most(
    stats: FileStatsDeltaView,
    files: int,
    added: int,
    removed: int,
) -> bool {
    &&& stats.net_histogram is None
    &&& stats.gross_add_files <= files
    &&& stats.gross_remove_files <= files
    &&& stats.gross_add_bytes <= added
    &&& stats.gross_remove_bytes <= removed
}

proof fn lemma_row_succeeds(state: ReplayView, row: RowView, files: int, added: int, removed: int)
    requires
        is_read(row),
        counted_at_most(state.delta.file_stats, files, added, removed),
        files < u64::MAX,
        added + added_by(row) <= u64::MAX,
        removed + removed_by(row) <= u64::MAX,
    ensures
        state.row(row).1 is Ok,
        counted_at_most(
            state.row(row).0.delta.file_stats,
            files + 1,
            added + added_by(row),
            removed + removed_by(row),
        ),
{
    let informed = state.row_commit_info(row.commit_info);
    assert(informed.1 is Ok && informed.0.delta.file_stats == state.delta.file_stats);
    let with_add = informed.0.row_add(row.add_size);
    assert(with_add.1 is Ok);
    assert(counted_at_most(with_add.0.delta.file_stats, files + 1, added + added_by(row), removed));
    assert(with_add.0.delta.file_stats.gross_remove_files <= files);
    let with_remove = with_add.0.row_remove(row.remove_size);
    assert(with_remove.1 is Ok);
    assert(state.row_files(row) == with_remove);
    let domain = with_remove.0.row_domain(row.domain);
    let transaction = domain.0.row_transaction(row.transaction);
    let protocol = transaction.0.row_protocol(row.protocol);
    let metadata = protocol.0.row_metadata(row.metadata);
    assert(domain.1 is Ok && transaction.1 is Ok && protocol.1 is Ok && metadata.1 is Ok);
    assert(state.row(row) == metadata);
    assert(metadata.0.delta.file_stats == with_remove.0.delta.file_stats);
}

proof fn lemma_sums_of_a_prefix(rows: Seq<RowView>)
    requires
        all_read(rows),
    ensures
        0 <= bytes_added(rows),
        0 <= bytes_removed(rows),
    decreases rows.len(),
{
    if rows.len() > 0 {
        assert(is_read(rows[rows.len() - 1]));
        assert forall|i: int| 0 <= i < rows.drop_last().len() implies is_read(
            #[trigger] rows.drop_last()[i],
        ) by {
            assert(rows.drop_last()[i] == rows[i]);
        }
        lemma_sums_of_a_prefix(rows.drop_last());
    }
}

proof fn lemma_rows_succeed(
    state: ReplayView,
    rows: Seq<RowView>,
    files: int,
    added: int,
    removed: int,
)
    requires
        all_read(rows),
        counted_at_most(state.delta.file_stats, files, added, removed),
        files + rows.len() <= u64::MAX,
        added + bytes_added(rows) <= u64::MAX,
        removed + bytes_removed(rows) <= u64::MAX,
    ensures
        state.rows(rows).1 is Ok,
        counted_at_most(
            state.rows(rows).0.delta.file_stats,
            files + rows.len(),
            added + bytes_added(rows),
            removed + bytes_removed(rows),
        ),
    decreases rows.len(),
{
    if rows.len() > 0 {
        let rest = rows.drop_last();
        assert(is_read(rows[rows.len() - 1]));
        assert forall|i: int| 0 <= i < rest.len() implies is_read(#[trigger] rest[i]) by {
            assert(rest[i] == rows[i]);
        }
        lemma_rows_succeed(state, rest, files, added, removed);
        lemma_row_succeeds(
            state.rows(rest).0,
            rows.last(),
            files + rest.len(),
            added + bytes_added(rest),
            removed + bytes_removed(rest),
        );
    }
}

proof fn lemma_sums_of_two(a: Seq<RowView>, b: Seq<RowView>)
    ensures
        bytes_added(a + b) == bytes_added(a) + bytes_added(b),
        bytes_removed(a + b) == bytes_removed(a) + bytes_removed(b),
    decreases b.len(),
{
    if b.len() == 0 {
        assert(a + b =~= a);
    } else {
        assert((a + b).drop_last() =~= a + b.drop_last());
        assert((a + b).last() == b.last());
        lemma_sums_of_two(a, b.drop_last());
    }
}

/// Has a batch the columns of a replay, with a file and with rows that can be read?
pub open spec fn is_complete(batch: BatchView) -> bool {
    &&& batch.num_columns == 25
    &&& batch.rows.len() > 0 ==> batch.file_url is Ok
    &&& all_read(batch.rows)
}

proof fn lemma_batches_succeed(
    safe_operations: Seq<Seq<char>>,
    batches: Seq<Result<BatchView, ErrorView>>,
)
    requires
        forall|i: int|
            0 <= i < batches.len() ==> (#[trigger] batches[i]) is Ok && is_complete(
                batches[i]->Ok_0,
            ),
        all_rows(batches).len() <= u64::MAX,
        bytes_added(all_rows(batches)) <= u64::MAX,
        bytes_removed(all_rows(batches)) <= u64::MAX,
    ensures
        ReplayView::start(None, safe_operations).batches(batches) is Ok,
        counted_at_most(
            ReplayView::start(None, safe_operations).batches(batches)->Ok_0.delta.file_stats,
            all_rows(batches).len() as int,
            bytes_added(all_rows(batches)),
            bytes_removed(all_rows(batches)),
        ),
        all_read(all_rows(batches)),
    decreases batches.len(),
{
    let start = ReplayView::start(None, safe_operations);
    if batches.len() > 0 {
        let rest = batches.drop_last();
        let last = batches[batches.len() - 1];
        assert(last is Ok && is_complete(last->Ok_0));
        let batch = last->Ok_0;
        let before = all_rows(rest);
        assert(all_rows(batches) == before + batch.rows);
        assert forall|i: int| 0 <= i < rest.len() implies (#[trigger] rest[i]) is Ok && is_complete(
            rest[i]->Ok_0,
        ) by {
            assert(rest[i] == batches[i]);
        }
        lemma_sums_of_two(before, batch.rows);
        lemma_sums_of_a_prefix(batch.rows);
        lemma_batches_succeed(safe_operations, rest);
        let state = start.batches(rest)->Ok_0;
        assert forall|i: int| 0 <= i < all_rows(batches).len() implies is_read(
            #[trigger] all_rows(batches)[i],
        ) by {
            if i < before.len() {
                assert(all_rows(batches)[i] == before[i]);
            } else {
                assert(all_rows(batches)[i] == batch.rows[i - before.len()]);
            }
        }
        if batch.rows.len() > 0 {
            let begun = state.batch_start(batch.file_url->Ok_0);
            assert(begun.delta.file_stats == state.delta.file_stats);
            lemma_rows_succeed(
                begun,
                batch.rows,
                before.len() as int,
                bytes_added(before),
                bytes_removed(before),
            );
        }
    }
}

/// A replay without a histogram succeeds where every batch is there and complete, and the files and bytes can be counted.
pub proof fn law_complete_batches_are_replayed(
    batches: Vec<DeltaResult<ColumnBatch>>,
    safe_operations: Vec<String>,
    r: DeltaResult<CrcDelta>,
)
    requires
        call_ensures(fold_batches, (batches, None::<FileSizeHistogram>, safe_operations), r),
        forall|i: int|
            0 <= i < batches@.len() ==> (#[trigger] batches@[i]) is Ok && is_complete(
                batches@[i]->Ok_0@,
            ),
        all_rows(batch_views(batches@)).len() <= u64::MAX,
        bytes_added(all_rows(batch_views(batches@))) <= u64::MAX,
        bytes_removed(all_rows(batch_views(batches@))) <= u64::MAX,
    ensures
        r is Ok,
        r->Ok_0.file_stats.net_histogram is None,
{
    let views = batch_views(batches@);
    assert forall|i: int| 0 <= i < views.len() implies (#[trigger] views[i]) is Ok && is_complete(
        views[i]->Ok_0,
    ) by {
        assert(batches@[i] is Ok);
    }
    lemma_batches_succeed(texts(safe_operations@), views);
    if r is Ok {
        assert(r->Ok_0@.file_stats.net_histogram is None);
    }
}

} // verus!
