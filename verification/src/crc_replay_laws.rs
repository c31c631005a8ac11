//! What holds of every reverse replay.

use vstd::prelude::*;

use crate::crc::{CrcDeltaView, CrcView};
use crate::actions::Version;
use crate::crc_replay::ReplayView;
use crate::error::ErrorView;
use crate::replay_rows::{BatchView, RowView};

verus! {

/// What a later step of the replay, which looks at older actions, leaves as it is.
pub open spec fn preserves(before: ReplayView, after: ReplayView) -> bool {
    let b = before.delta;
    let a = after.delta;
    &&& !b.is_incremental_safe ==> !a.is_incremental_safe
    &&& !before.is_first_commit ==> !after.is_first_commit && a.in_commit_timestamp
        == b.in_commit_timestamp
    &&& b.protocol is Some ==> a.protocol == b.protocol
    &&& b.metadata is Some ==> a.metadata == b.metadata
    &&& forall|domain: Seq<char>| #[trigger]
        b.domain_metadata.contains_key(domain) ==> a.domain_metadata.contains_key(domain)
            && a.domain_metadata[domain] == b.domain_metadata[domain]
    &&& forall|app: Seq<char>| #[trigger]
        b.set_transactions.contains_key(app) ==> a.set_transactions.contains_key(app)
            && a.set_transactions[app] == b.set_transactions[app]
}

proof fn lemma_preserves_trans(a: ReplayView, b: ReplayView, c: ReplayView)
    requires
        preserves(a, b),
        preserves(b, c),
    ensures
        preserves(a, c),
{
    assert forall|domain: Seq<char>| #[trigger]
        a.delta.domain_metadata.contains_key(domain) implies c.delta.domain_metadata.contains_key(
        domain,
    ) && c.delta.domain_metadata[domain] == a.delta.domain_metadata[domain] by {
        assert(b.delta.domain_metadata.contains_key(domain));
    }
    assert forall|app: Seq<char>| #[trigger]
        a.delta.set_transactions.contains_key(app) implies c.delta.set_transactions.contains_key(
        app,
    ) && c.delta.set_transactions[app] == a.delta.set_transactions[app] by {
        assert(b.delta.set_transactions.contains_key(app));
    }
}

/// A row of an older action changes nothing that newer actions have settled: a replay that lost
/// its safety stays unsafe, the timestamp comes from the newest commit only, and the first action
/// seen of a kind, a domain or an application wins.
pub proof fn law_row_preserves(state: ReplayView, row: RowView)
    ensures
        preserves(state, state.row(row).0),
{
    let files = state.row_files(row);
    assert(preserves(state, files.0));
    let domain = files.0.row_domain(row.domain);
    assert(preserves(files.0, domain.0));
    lemma_preserves_trans(state, files.0, domain.0);
    let transaction = domain.0.row_transaction(row.transaction);
    assert(preserves(domain.0, transaction.0));
    lemma_preserves_trans(state, domain.0, transaction.0);
    let protocol = transaction.0.row_protocol(row.protocol);
    assert(preserves(transaction.0, protocol.0));
    lemma_preserves_trans(state, transaction.0, protocol.0);
    let metadata = protocol.0.row_metadata(row.metadata);
    assert(preserves(protocol.0, metadata.0));
    lemma_preserves_trans(state, protocol.0, metadata.0);
}

/// The rows of a batch change nothing that newer actions have settled.
pub proof fn law_rows_preserve(state: ReplayView, rows: Seq<RowView>)
    ensures
        preserves(state, state.rows(rows).0),
    decreases rows.len(),
{
    if rows.len() > 0 {
        law_rows_preserve(state, rows.drop_last());
        let before = state.rows(rows.drop_last()).0;
        law_row_preserves(before, rows.last());
        lemma_preserves_trans(state, before, before.row(rows.last()).0);
    }
}

/// A batch changes nothing that newer actions have settled.
pub proof fn law_batch_preserves(state: ReplayView, batch: BatchView)
    ensures
        preserves(state, state.batch(batch).0),
{
    if let Ok(url) = batch.file_url {
        let started = state.batch_start(url);
        assert(preserves(state, started));
        law_rows_preserve(started, batch.rows);
        lemma_preserves_trans(state, started, started.rows(batch.rows).0);
    }
}

/// All further batches change nothing that newer actions have settled.
pub proof fn law_batches_preserve(state: ReplayView, batches: Seq<Result<BatchView, ErrorView>>)
    requires
        state.batches(batches) is Ok,
    ensures
        preserves(state, state.batches(batches)->Ok_0),
    decreases batches.len(),
{
    if batches.len() > 0 {
        law_batches_preserve(state, batches.drop_last());
        let before = state.batches(batches.drop_last())->Ok_0;
        law_batch_preserves(before, batches.last()->Ok_0);
        lemma_preserves_trans(state, before, before.batch(batches.last()->Ok_0).0);
    }
}

/// A commit that changes files without naming a safe operation makes the change untrusted.
pub proof fn law_file_action_without_safe_operation_is_untrusted(state: ReplayView)
    requires
        state.saw_file_action,
        !state.saw_safe_op,
    ensures
        !state.commit_end().delta.is_incremental_safe,
{
}

/// A batch of the same file is part of the same commit: nothing changes at its start.
pub proof fn law_same_file_is_same_commit(state: ReplayView, url: Seq<char>)
    ensures
        state.batch_start(url).batch_start(url) == state.batch_start(url),
{
}

/// File actions leave the replay on its commit file.
proof fn lemma_files_keep_file(state: ReplayView, row: RowView)
    ensures
        state.row_files(row).0.current_file_url == state.current_file_url,
{
    let informed = state.row_commit_info(row.commit_info).0;
    assert(informed.current_file_url == state.current_file_url);
    let added = informed.row_add(row.add_size).0;
    assert(added.current_file_url == state.current_file_url);
    assert(added.row_remove(row.remove_size).0.current_file_url == state.current_file_url);
}

/// A row leaves the replay on its commit file.
proof fn lemma_row_keeps_file(state: ReplayView, row: RowView)
    ensures
        state.row(row).0.current_file_url == state.current_file_url,
{
    lemma_files_keep_file(state, row);
    let files = state.row_files(row).0;
    let domain = files.row_domain(row.domain).0;
    assert(domain.current_file_url == state.current_file_url);
    let transaction = domain.row_transaction(row.transaction).0;
    assert(transaction.current_file_url == state.current_file_url);
    let protocol = transaction.row_protocol(row.protocol).0;
    assert(protocol.current_file_url == state.current_file_url);
    assert(protocol.row_metadata(row.metadata).0.current_file_url == state.current_file_url);
    assert(files.row_others(row).0.current_file_url == state.current_file_url);
}

proof fn lemma_rows_in_two_parts(state: ReplayView, first: Seq<RowView>, second: Seq<RowView>)
    ensures
        state.rows(first).0.current_file_url == state.current_file_url,
        state.rows(first + second) == if state.rows(first).1 is Err {
            state.rows(first)
        } else {
            state.rows(first).0.rows(second)
        },
    decreases first.len() + second.len(),
{
    if second.len() == 0 {
        assert(first + second =~= first);
        if first.len() > 0 {
            lemma_rows_in_two_parts(state, first.drop_last(), second);
            lemma_row_keeps_file(state.rows(first.drop_last()).0, first.last());
        }
    } else {
        lemma_rows_in_two_parts(state, first, second.drop_last());
        assert((first + second).drop_last() =~= first + second.drop_last());
    }
}

proof fn lemma_batches_in_two_parts(
    state: ReplayView,
    first: Seq<Result<BatchView, ErrorView>>,
    second: Seq<Result<BatchView, ErrorView>>,
)
    ensures
        state.batches(first + second) == match state.batches(first) {
            Ok(middle) => middle.batches(second),
            Err(e) => Err(e),
        },
    decreases second.len(),
{
    if second.len() == 0 {
        assert(first + second =~= first);
    } else {
        lemma_batches_in_two_parts(state, first, second.drop_last());
        assert((first + second).drop_last() =~= first + second.drop_last());
    }
}

/// The first rows of a batch, as a batch of the same file.
pub open spec fn first_rows(batch: BatchView, n: int) -> BatchView {
    BatchView { rows: batch.rows.take(n), ..batch }
}

/// The rows of a batch after the first ones, as a batch of the same file.
pub open spec fn other_rows(batch: BatchView, n: int) -> BatchView {
    BatchView { rows: batch.rows.skip(n), ..batch }
}

/// What a batch leads to.
spec fn after_batch(state: ReplayView, batch: BatchView) -> Result<ReplayView, ErrorView> {
    match state.batch(batch) {
        (after, Ok(_)) => Ok(after),
        (_, Err(e)) => Err(e),
    }
}

proof fn lemma_one_batch(state: ReplayView, batch: BatchView)
    ensures
        state.batches(seq![Ok(batch)]) == after_batch(state, batch),
{
    let whole: Seq<Result<BatchView, ErrorView>> = seq![Ok(batch)];
    assert(whole.drop_last() =~= Seq::empty());
    assert(state.batches(whole.drop_last()) == Ok::<ReplayView, ErrorView>(state));
}

proof fn lemma_cut_batch(state: ReplayView, batch: BatchView, n: int)
    requires
        0 <= n <= batch.rows.len(),
    ensures
        state.batches(seq![Ok(first_rows(batch, n)), Ok(other_rows(batch, n))]) == state.batches(
            seq![Ok(batch)],
        ),
{
    let one = first_rows(batch, n);
    let two = other_rows(batch, n);
    let first: Seq<Result<BatchView, ErrorView>> = seq![Ok(one)];
    let second: Seq<Result<BatchView, ErrorView>> = seq![Ok(two)];
    assert(first + second =~= seq![Ok(one), Ok(two)]);
    lemma_batches_in_two_parts(state, first, second);
    lemma_one_batch(state, one);
    lemma_one_batch(state, batch);
    if let Ok(middle) = after_batch(state, one) {
        lemma_one_batch(middle, two);
    }
    assert(one.rows + two.rows =~= batch.rows);
    if n == 0 {
        assert(two.rows =~= batch.rows);
        assert(two == batch);
    } else if n == batch.rows.len() {
        assert(one.rows =~= batch.rows);
        assert(one == batch);
    } else if let Ok(url) = batch.file_url {
        let start = state.batch_start(url);
        assert(start.current_file_url == Some(url));
        lemma_rows_in_two_parts(start, one.rows, two.rows);
        let middle = start.rows(one.rows).0;
        assert(middle.batch_start(url) == middle);
    }
}

/// A replay does not depend on how the rows of a commit file are cut into batches.
pub proof fn law_batches_can_be_cut(
    state: ReplayView,
    before: Seq<Result<BatchView, ErrorView>>,
    batch: BatchView,
    n: int,
    after: Seq<Result<BatchView, ErrorView>>,
)
    requires
        0 <= n <= batch.rows.len(),
    ensures
        state.batches(before + seq![Ok(first_rows(batch, n)), Ok(other_rows(batch, n))] + after)
            == state.batches(before + seq![Ok(batch)] + after),
{
    let cut: Seq<Result<BatchView, ErrorView>> = seq![
        Ok(first_rows(batch, n)),
        Ok(other_rows(batch, n)),
    ];
    let whole: Seq<Result<BatchView, ErrorView>> = seq![Ok(batch)];
    lemma_batches_in_two_parts(state, before + cut, after);
    lemma_batches_in_two_parts(state, before + whole, after);
    lemma_batches_in_two_parts(state, before, cut);
    lemma_batches_in_two_parts(state, before, whole);
    if let Ok(middle) = state.batches(before) {
        lemma_cut_batch(middle, batch, n);
    }
}

/// An untrusted change loses the file statistics, whatever they were.
pub proof fn law_untrusted_change_loses_file_stats(
    base: CrcView,
    change: CrcDeltaView,
    version: Version,
)
    requires
        !change.is_incremental_safe,
    ensures
        base.apply(change, version).file_stats is Indeterminate,
{
}

/// A domain whose last action is a removal is gone; one that the commits do not mention stays.
pub proof fn law_domains_after_a_change(
    base: CrcView,
    change: CrcDeltaView,
    version: Version,
    domain: Seq<char>,
)
    requires
        base.domain_metadata is Some,
    ensures
        base.apply(change, version).domain_metadata is Some,
        ({
            let after = base.apply(change, version).domain_metadata->0;
            let before = base.domain_metadata->0;
            if change.domain_metadata.contains_key(domain) {
                if change.domain_metadata[domain].removed {
                    !after.contains_key(domain)
                } else {
                    after.contains_key(domain) && after[domain] == change.domain_metadata[domain]
                }
            } else {
                after.contains_key(domain) == before.contains_key(domain) && (before.contains_key(
                    domain,
                ) ==> after[domain] == before[domain])
            }
        }),
{
}

} // verus!
