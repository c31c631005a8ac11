//! What a replay gathers from the rows of the commits: of each kind of action the newest, and every file.

use vstd::prelude::*;

use crate::actions::{MetadataView, ProtocolView};
use crate::columns::ColumnBatch;
use crate::crc::{histogram_view, valid_boundaries, CrcDelta, CrcDeltaView, FileSizeHistogram, HistogramView};
use crate::crc_laws::{in_bin, law_counting_changes_one_bin};
use crate::crc_replay::ReplayView;
use crate::error::{DeltaResult, ErrorView};
use crate::log_segment::{fold_batches, replayed};
use crate::replay_rows::{batch_views, BatchView, RowView};
use crate::text::texts;

verus! {

/// The rows of all batches, one after the other.
pub open spec fn all_rows(batches: Seq<Result<BatchView, ErrorView>>) -> Seq<RowView>
    decreases batches.len(),
{
    if batches.len() == 0 {
        Seq::empty()
    } else {
        all_rows(batches.drop_last()) + rows_of(batches.last())
    }
}

/// The rows of a batch; none of one that could not be had.
pub open spec fn rows_of(batch: Result<BatchView, ErrorView>) -> Seq<RowView> {
    match batch {
        Ok(batch) => batch.rows,
        Err(_) => Seq::empty(),
    }
}

/// Is the protocol of the change that of the first row that has one? Without such a row there is none.
pub open spec fn has_first_protocol(change: CrcDeltaView, rows: Seq<RowView>) -> bool {
    match change.protocol {
        Some(protocol) => exists|i: int|
            0 <= i < rows.len() && (#[trigger] rows[i]).protocol == Ok::<Option<ProtocolView>, ErrorView>(
                Some(protocol),
            ) && forall|j: int|
                0 <= j < i ==> (#[trigger] rows[j]).protocol == Ok::<Option<ProtocolView>, ErrorView>(None),
        None => forall|i: int|
            0 <= i < rows.len() ==> (#[trigger] rows[i]).protocol == Ok::<Option<ProtocolView>, ErrorView>(None),
    }
}

/// Is the metadata of the change that of the first row that has some? Without such a row there is none.
pub open spec fn has_first_metadata(change: CrcDeltaView, rows: Seq<RowView>) -> bool {
    match change.metadata {
        Some(metadata) => exists|i: int|
            0 <= i < rows.len() && (#[trigger] rows[i]).metadata == Ok::<Option<MetadataView>, ErrorView>(
                Some(metadata),
            ) && forall|j: int|
                0 <= j < i ==> (#[trigger] rows[j]).metadata == Ok::<Option<MetadataView>, ErrorView>(None),
        None => forall|i: int|
            0 <= i < rows.len() ==> (#[trigger] rows[i]).metadata == Ok::<Option<MetadataView>, ErrorView>(None),
    }
}

/// Does the row have an action of the domain?
pub open spec fn names_domain(row: RowView, domain: Seq<char>) -> bool {
    row.domain is Ok && row.domain->Ok_0 is Some && row.domain->Ok_0->0.domain@ == domain
}

/// Is the action of the domain in the change that of the first row that names the domain?
pub open spec fn has_first_domain(
    change: CrcDeltaView,
    rows: Seq<RowView>,
    domain: Seq<char>,
) -> bool {
    if change.domain_metadata.contains_key(domain) {
        exists|i: int|
            0 <= i < rows.len() && names_domain(#[trigger] rows[i], domain)
                && change.domain_metadata[domain] == rows[i].domain->Ok_0->0 && forall|j: int|
                0 <= j < i ==> !names_domain(#[trigger] rows[j], domain)
    } else {
        forall|i: int| 0 <= i < rows.len() ==> !names_domain(#[trigger] rows[i], domain)
    }
}

/// Does the row have the progress of the application?
pub open spec fn names_app(row: RowView, app: Seq<char>) -> bool {
    row.transaction is Ok && row.transaction->Ok_0 is Some && row.transaction->Ok_0->0.app_id@
        == app
}

/// Is the progress of the application in the change that of the first row that names the application?
pub open spec fn has_first_transaction(
    change: CrcDeltaView,
    rows: Seq<RowView>,
    app: Seq<char>,
) -> bool {
    if change.set_transactions.contains_key(app) {
        exists|i: int|
            0 <= i < rows.len() && names_app(#[trigger] rows[i], app)
                && change.set_transactions[app] == rows[i].transaction->Ok_0->0 && forall|j: int|
                0 <= j < i ==> !names_app(#[trigger] rows[j], app)
    } else {
        forall|i: int| 0 <= i < rows.len() ==> !names_app(#[trigger] rows[i], app)
    }
}

/// What a change holds of each kind of action.
pub open spec fn has_first_actions(
    change: CrcDeltaView,
    rows: Seq<RowView>,
    domain: Seq<char>,
    app: Seq<char>,
) -> bool {
    &&& has_first_protocol(change, rows)
    &&& has_first_metadata(change, rows)
    &&& has_first_domain(change, rows, domain)
    &&& has_first_transaction(change, rows, app)
}

/// What one more row that could be read does to the change.
proof fn lemma_row_step(state: ReplayView, row: RowView)
    requires
        state.row(row).1 is Ok,
    ensures
        ({
            let b = state.delta;
            let a = state.row(row).0.delta;
            &&& row.commit_info is Ok
            &&& row.add_size is Ok
            &&& row.remove_size is Ok
            &&& row.domain is Ok
            &&& row.transaction is Ok
            &&& b.protocol is Some ==> a.protocol == b.protocol
            &&& b.protocol is None ==> row.protocol == Ok::<Option<ProtocolView>, ErrorView>(a.protocol)
            &&& b.metadata is Some ==> a.metadata == b.metadata
            &&& b.metadata is None ==> row.metadata == Ok::<Option<MetadataView>, ErrorView>(a.metadata)
            &&& a.domain_metadata == match row.domain->Ok_0 {
                Some(action) => if b.domain_metadata.contains_key(action.domain@) {
                    b.domain_metadata
                } else {
                    b.domain_metadata.insert(action.domain@, action)
                },
                None => b.domain_metadata,
            }
            &&& a.set_transactions == match row.transaction->Ok_0 {
                Some(action) => if b.set_transactions.contains_key(action.app_id@) {
                    b.set_transactions
                } else {
                    b.set_transactions.insert(action.app_id@, action)
                },
                None => b.set_transactions,
            }
            &&& state.row(row).0.is_first_commit == state.is_first_commit
            &&& state.row(row).0.current_file_url == state.current_file_url
            &&& a.in_commit_timestamp == if state.is_first_commit && gives_info(row) {
                row.commit_info->Ok_0.1
            } else {
                b.in_commit_timestamp
            }
        }),
{
    let informed = state.row_commit_info(row.commit_info);
    let added = informed.0.row_add(row.add_size);
    let files = state.row_files(row);
    assert(files.1 is Ok && informed.1 is Ok && added.1 is Ok);
    assert(files == added.0.row_remove(row.remove_size));
    let domain = files.0.row_domain(row.domain);
    let transaction = domain.0.row_transaction(row.transaction);
    let protocol = transaction.0.row_protocol(row.protocol);
    assert(domain.1 is Ok && transaction.1 is Ok && protocol.1 is Ok);
    assert(state.row(row) == protocol.0.row_metadata(row.metadata));
    assert(added.0.delta.in_commit_timestamp == informed.0.delta.in_commit_timestamp);
    assert(files.0.delta.in_commit_timestamp == informed.0.delta.in_commit_timestamp);
    assert(files.0.delta.protocol == state.delta.protocol);
    assert(files.0.delta.metadata == state.delta.metadata);
    assert(files.0.delta.domain_metadata == state.delta.domain_metadata);
    assert(files.0.delta.set_transactions == state.delta.set_transactions);
}

/// Does the row have a commitInfo action with an operation or a timestamp?
pub open spec fn gives_info(row: RowView) -> bool {
    row.commit_info is Ok && (row.commit_info->Ok_0.0 is Some || row.commit_info->Ok_0.1 is Some)
}

proof fn lemma_row_keeps_first_actions(
    state: ReplayView,
    seen: Seq<RowView>,
    row: RowView,
    domain: Seq<char>,
    app: Seq<char>,
)
    requires
        has_first_actions(state.delta, seen, domain, app),
        state.row(row).1 is Ok,
    ensures
        has_first_actions(state.row(row).0.delta, seen.push(row), domain, app),
{
    lemma_row_step(state, row);
    let b = state.delta;
    let a = state.row(row).0.delta;
    let all = seen.push(row);
    let n = seen.len() as int;
    assert(all[n] == row);
    assert forall|i: int| 0 <= i < n implies #[trigger] all[i] == seen[i] by {}
    assert forall|i: int| 0 <= i < n implies #[trigger] seen[i] == all[i] by {}
    if b.protocol is Some {
        let i = choose|i: int|
            0 <= i < seen.len() && (#[trigger] seen[i]).protocol == Ok::<Option<ProtocolView>, ErrorView>(
                b.protocol,
            ) && forall|j: int|
                0 <= j < i ==> (#[trigger] seen[j]).protocol == Ok::<Option<ProtocolView>, ErrorView>(None);
        assert(all[i].protocol == Ok::<Option<ProtocolView>, ErrorView>(b.protocol));
    } else if a.protocol is Some {
        assert(all[n].protocol == Ok::<Option<ProtocolView>, ErrorView>(a.protocol));
    }
    if b.metadata is Some {
        let i = choose|i: int|
            0 <= i < seen.len() && (#[trigger] seen[i]).metadata == Ok::<Option<MetadataView>, ErrorView>(
                b.metadata,
            ) && forall|j: int|
                0 <= j < i ==> (#[trigger] seen[j]).metadata == Ok::<Option<MetadataView>, ErrorView>(None);
        assert(all[i].metadata == Ok::<Option<MetadataView>, ErrorView>(b.metadata));
    } else if a.metadata is Some {
        assert(all[n].metadata == Ok::<Option<MetadataView>, ErrorView>(a.metadata));
    }
    if b.domain_metadata.contains_key(domain) {
        let i = choose|i: int|
            0 <= i < seen.len() && names_domain(#[trigger] seen[i], domain)
                && b.domain_metadata[domain] == seen[i].domain->Ok_0->0 && forall|j: int|
                0 <= j < i ==> !names_domain(#[trigger] seen[j], domain);
        assert(names_domain(all[i], domain));
        assert(a.domain_metadata[domain] == b.domain_metadata[domain]);
    } else if a.domain_metadata.contains_key(domain) {
        assert(names_domain(all[n], domain));
    }
    if b.set_transactions.contains_key(app) {
        let i = choose|i: int|
            0 <= i < seen.len() && names_app(#[trigger] seen[i], app) && b.set_transactions[app]
                == seen[i].transaction->Ok_0->0 && forall|j: int|
                0 <= j < i ==> !names_app(#[trigger] seen[j], app);
        assert(names_app(all[i], app));
        assert(a.set_transactions[app] == b.set_transactions[app]);
    } else if a.set_transactions.contains_key(app) {
        assert(names_app(all[n], app));
    }
}

proof fn lemma_rows_keep_first_actions(
    state: ReplayView,
    seen: Seq<RowView>,
    rows: Seq<RowView>,
    domain: Seq<char>,
    app: Seq<char>,
)
    requires
        has_first_actions(state.delta, seen, domain, app),
        state.rows(rows).1 is Ok,
    ensures
        has_first_actions(state.rows(rows).0.delta, seen + rows, domain, app),
    decreases rows.len(),
{
    if rows.len() == 0 {
        assert(seen + rows =~= seen);
    } else {
        let rest = rows.drop_last();
        lemma_rows_keep_first_actions(state, seen, rest, domain, app);
        lemma_row_keeps_first_actions(
            state.rows(rest).0,
            seen + rest,
            rows.last(),
            domain,
            app,
        );
        assert(seen + rows =~= (seen + rest).push(rows.last()));
    }
}

proof fn lemma_batches_have_first_actions(
    seed: Option<HistogramView>,
    safe_operations: Seq<Seq<char>>,
    batches: Seq<Result<BatchView, ErrorView>>,
    domain: Seq<char>,
    app: Seq<char>,
)
    requires
        ReplayView::start(seed, safe_operations).batches(batches) is Ok,
    ensures
        has_first_actions(
            ReplayView::start(seed, safe_operations).batches(batches)->Ok_0.delta,
            all_rows(batches),
            domain,
            app,
        ),
    decreases batches.len(),
{
    let start = ReplayView::start(seed, safe_operations);
    if batches.len() > 0 {
        let rest = batches.drop_last();
        lemma_batches_have_first_actions(seed, safe_operations, rest, domain, app);
        let before = start.batches(rest)->Ok_0;
        let batch = batches.last()->Ok_0;
        if batch.rows.len() == 0 {
            assert(all_rows(batches) =~= all_rows(rest));
        } else {
            let begun = before.batch_start(batch.file_url->Ok_0);
            assert(has_first_actions(begun.delta, all_rows(rest), domain, app));
            lemma_rows_keep_first_actions(begun, all_rows(rest), batch.rows, domain, app);
        }
    }
}

/// A replay reads the newest commit first, so the first action that it sees of a kind is the newest. The protocol and
/// the metadata of the change are those of the first row that has some, a domain is as the first row that names it
/// leaves it, and so is the progress of an application. What no row has, the change does not have.
pub proof fn law_newest_actions_win(
    batches: Vec<DeltaResult<ColumnBatch>>,
    seed: Option<FileSizeHistogram>,
    safe_operations: Vec<String>,
    r: DeltaResult<CrcDelta>,
    domain: Seq<char>,
    app: Seq<char>,
)
    requires
        call_ensures(fold_batches, (batches, seed, safe_operations), r),
        r is Ok,
    ensures
        has_first_protocol(r->Ok_0@, all_rows(batch_views(batches@))),
        has_first_metadata(r->Ok_0@, all_rows(batch_views(batches@))),
        has_first_domain(r->Ok_0@, all_rows(batch_views(batches@)), domain),
        has_first_transaction(r->Ok_0@, all_rows(batch_views(batches@)), app),
{
    lemma_batches_have_first_actions(
        histogram_view(seed),
        texts(safe_operations@),
        batch_views(batches@),
        domain,
        app,
    );
}

/// Are all rows of one commit file? A batch without rows is of none.
pub open spec fn of_one_file(batches: Seq<Result<BatchView, ErrorView>>) -> bool {
    forall|i: int, j: int|
        0 <= i < batches.len() && 0 <= j < batches.len() && rows_of(#[trigger] batches[i]).len() > 0
            && rows_of(#[trigger] batches[j]).len() > 0 ==> batches[i]->Ok_0.file_url
            == batches[j]->Ok_0.file_url
}

/// The rows of the newest commit: those of the first batches, as long as they are of one file.
pub open spec fn newest_rows(batches: Seq<Result<BatchView, ErrorView>>) -> Seq<RowView>
    decreases batches.len(),
{
    if batches.len() == 0 {
        Seq::empty()
    } else if of_one_file(batches) {
        newest_rows(batches.drop_last()) + rows_of(batches.last())
    } else {
        newest_rows(batches.drop_last())
    }
}

/// Is it the timestamp of the last commitInfo action among the rows? There is none without such an action.
pub open spec fn is_last_timestamp(timestamp: Option<i64>, rows: Seq<RowView>) -> bool {
    ||| timestamp is None && forall|i: int| 0 <= i < rows.len() ==> !gives_info(#[trigger] rows[i])
    ||| exists|i: int|
        0 <= i < rows.len() && gives_info(#[trigger] rows[i]) && timestamp
            == rows[i].commit_info->Ok_0.1 && forall|j: int|
            i < j < rows.len() ==> !gives_info(#[trigger] rows[j])
}

proof fn lemma_rows_timestamp(state: ReplayView, seen: Seq<RowView>, rows: Seq<RowView>)
    requires
        state.rows(rows).1 is Ok,
        state.is_first_commit ==> is_last_timestamp(state.delta.in_commit_timestamp, seen),
    ensures
        ({
            let after = state.rows(rows).0;
            &&& after.is_first_commit == state.is_first_commit
            &&& after.current_file_url == state.current_file_url
            &&& state.is_first_commit ==> is_last_timestamp(
                after.delta.in_commit_timestamp,
                seen + rows,
            )
            &&& !state.is_first_commit ==> after.delta.in_commit_timestamp
                == state.delta.in_commit_timestamp
        }),
    decreases rows.len(),
{
    if rows.len() == 0 {
        assert(seen + rows =~= seen);
    } else {
        let rest = rows.drop_last();
        lemma_rows_timestamp(state, seen, rest);
        let middle = state.rows(rest).0;
        let row = rows.last();
        lemma_row_step(middle, row);
        let before = seen + rest;
        let all = seen + rows;
        let n = before.len() as int;
        assert(all =~= before.push(row));
        assert(all[n] == row);
        assert forall|i: int| 0 <= i < n implies #[trigger] all[i] == before[i] by {}
        if state.is_first_commit && !gives_info(row) {
            if exists|i: int|
                0 <= i < before.len() && gives_info(#[trigger] before[i])
                    && middle.delta.in_commit_timestamp == before[i].commit_info->Ok_0.1 && forall|
                    j: int,
                |
                    i < j < before.len() ==> !gives_info(#[trigger] before[j]) {
                let i = choose|i: int|
                    0 <= i < before.len() && gives_info(#[trigger] before[i])
                        && middle.delta.in_commit_timestamp == before[i].commit_info->Ok_0.1
                        && forall|j: int|
                        i < j < before.len() ==> !gives_info(#[trigger] before[j]);
                assert(gives_info(all[i]));
                assert forall|j: int| i < j < all.len() implies !gives_info(#[trigger] all[j]) by {
                    if j < n {
                        assert(!gives_info(before[j]));
                    }
                }
            } else {
                assert forall|i: int| 0 <= i < all.len() implies !gives_info(#[trigger] all[i]) by {
                    if i < n {
                        assert(!gives_info(before[i]));
                    }
                }
            }
        }
    }
}

/// Is the replay on the file of all rows so far, where they are of one?
spec fn is_on_file(state: ReplayView, batches: Seq<Result<BatchView, ErrorView>>) -> bool {
    &&& state.is_first_commit == of_one_file(batches)
    &&& state.current_file_url is None <==> forall|i: int|
        0 <= i < batches.len() ==> rows_of(#[trigger] batches[i]).len() == 0
    &&& state.is_first_commit ==> forall|i: int|
        0 <= i < batches.len() && rows_of(#[trigger] batches[i]).len() > 0 ==> batches[i] is Ok
            && batches[i]->Ok_0.file_url == Ok::<_, ErrorView>(state.current_file_url->0)
}

proof fn lemma_batches_timestamp(
    seed: Option<HistogramView>,
    safe_operations: Seq<Seq<char>>,
    batches: Seq<Result<BatchView, ErrorView>>,
)
    requires
        ReplayView::start(seed, safe_operations).batches(batches) is Ok,
    ensures
        ({
            let state = ReplayView::start(seed, safe_operations).batches(batches)->Ok_0;
            &&& is_last_timestamp(state.delta.in_commit_timestamp, newest_rows(batches))
            &&& is_on_file(state, batches)
        }),
    decreases batches.len(),
{
    let start = ReplayView::start(seed, safe_operations);
    if batches.len() > 0 {
        let rest = batches.drop_last();
        let n = rest.len() as int;
        lemma_batches_timestamp(seed, safe_operations, rest);
        let before = start.batches(rest)->Ok_0;
        let state = start.batches(batches)->Ok_0;
        let batch = batches.last()->Ok_0;
        assert(batches[n] == Ok::<BatchView, ErrorView>(batch));
        assert forall|i: int| 0 <= i < n implies #[trigger] rest[i] == batches[i] by {}
        if batch.rows.len() == 0 {
            assert(of_one_file(batches) == of_one_file(rest)) by {
                if of_one_file(batches) {
                    assert forall|i: int, j: int|
                        0 <= i < rest.len() && 0 <= j < rest.len() && rows_of(
                            #[trigger] rest[i],
                        ).len() > 0 && rows_of(#[trigger] rest[j]).len()
                            > 0 implies rest[i]->Ok_0.file_url == rest[j]->Ok_0.file_url by {
                        assert(rows_of(batches[i]).len() > 0 && rows_of(batches[j]).len() > 0);
                    }
                }
                if of_one_file(rest) {
                    assert forall|i: int, j: int|
                        0 <= i < batches.len() && 0 <= j < batches.len() && rows_of(
                            #[trigger] batches[i],
                        ).len() > 0 && rows_of(#[trigger] batches[j]).len()
                            > 0 implies batches[i]->Ok_0.file_url == batches[j]->Ok_0.file_url by {
                        assert(rows_of(rest[i]).len() > 0 && rows_of(rest[j]).len() > 0);
                    }
                }
            }
            assert(newest_rows(rest) + batch.rows =~= newest_rows(rest));
            if before.current_file_url is None {
                assert forall|i: int| 0 <= i < batches.len() implies rows_of(
                    #[trigger] batches[i],
                ).len() == 0 by {
                    if i < n {
                        assert(rows_of(rest[i]).len() == 0);
                    }
                }
            } else {
                let i = choose|i: int| 0 <= i < rest.len() && rows_of(#[trigger] rest[i]).len() != 0;
                assert(rows_of(batches[i]).len() != 0);
            }
        } else {
            let url = batch.file_url->Ok_0;
            let begun = before.batch_start(url);
            assert(rows_of(batches[n]).len() > 0);
            if before.current_file_url is None {
                assert forall|i: int| 0 <= i < n implies rows_of(#[trigger] batches[i]).len() == 0 by {
                    assert(rows_of(rest[i]).len() == 0);
                }
                assert(of_one_file(batches));
                assert(of_one_file(rest));
            } else {
                let k = choose|k: int| 0 <= k < rest.len() && rows_of(#[trigger] rest[k]).len() != 0;
                assert(rows_of(batches[k]).len() != 0);
                if before.is_first_commit {
                    assert(rest[k]->Ok_0.file_url == Ok::<_, ErrorView>(
                        before.current_file_url->0,
                    ));
                    if before.current_file_url == Some(url) {
                        assert forall|i: int, j: int|
                            0 <= i < batches.len() && 0 <= j < batches.len() && rows_of(
                                #[trigger] batches[i],
                            ).len() > 0 && rows_of(#[trigger] batches[j]).len()
                                > 0 implies batches[i]->Ok_0.file_url
                            == batches[j]->Ok_0.file_url by {
                            if i < n {
                                assert(rows_of(rest[i]).len() > 0);
                            }
                            if j < n {
                                assert(rows_of(rest[j]).len() > 0);
                            }
                        }
                        assert(of_one_file(batches));
                    } else {
                        assert(batches[k]->Ok_0.file_url != batches[n]->Ok_0.file_url);
                        assert(!of_one_file(batches));
                    }
                } else {
                    let (i, j) = choose|i: int, j: int|
                        0 <= i < rest.len() && 0 <= j < rest.len() && rows_of(
                            #[trigger] rest[i],
                        ).len() > 0 && rows_of(#[trigger] rest[j]).len() > 0
                            && rest[i]->Ok_0.file_url != rest[j]->Ok_0.file_url;
                    assert(rows_of(batches[i]).len() > 0 && rows_of(batches[j]).len() > 0);
                    assert(!of_one_file(batches));
                }
            }
            assert(begun.delta.in_commit_timestamp == before.delta.in_commit_timestamp);
            lemma_rows_timestamp(begun, newest_rows(rest), batch.rows);
            assert(begun.is_first_commit == of_one_file(batches));
            if begun.is_first_commit {
                assert forall|i: int|
                    0 <= i < batches.len() && rows_of(#[trigger] batches[i]).len()
                        > 0 implies batches[i] is Ok && batches[i]->Ok_0.file_url == Ok::<
                    _,
                    ErrorView,
                >(state.current_file_url->0) by {
                    if i < n {
                        assert(rows_of(rest[i]).len() > 0);
                    }
                }
            }
        }
    } else {
        assert(of_one_file(batches));
    }
}

/// What a replay gathers from batches.
pub proof fn lemma_replay_gathers(
    seed: Option<HistogramView>,
    safe_operations: Seq<Seq<char>>,
    batches: Seq<Result<BatchView, ErrorView>>,
    domain: Seq<char>,
    app: Seq<char>,
)
    requires
        replayed(batches, seed, safe_operations) is Ok,
    ensures
        ({
            let change = replayed(batches, seed, safe_operations)->Ok_0;
            &&& has_first_actions(change, all_rows(batches), domain, app)
            &&& is_last_timestamp(change.in_commit_timestamp, newest_rows(batches))
        }),
{
    lemma_batches_have_first_actions(seed, safe_operations, batches, domain, app);
    lemma_batches_timestamp(seed, safe_operations, batches);
}

/// The timestamp of a change is that of the newest commit: of the last commitInfo action in the first commit file that
/// is read. No older commit gives one.
pub proof fn law_timestamp_is_that_of_the_newest_commit(
    batches: Vec<DeltaResult<ColumnBatch>>,
    seed: Option<FileSizeHistogram>,
    safe_operations: Vec<String>,
    r: DeltaResult<CrcDelta>,
)
    requires
        call_ensures(fold_batches, (batches, seed, safe_operations), r),
        r is Ok,
    ensures
        is_last_timestamp(r->Ok_0.in_commit_timestamp, newest_rows(batch_views(batches@))),
{
    lemma_batches_timestamp(histogram_view(seed), texts(safe_operations@), batch_views(batches@));
}

/// The number of files of a bin that the rows add, less those that they remove.
pub open spec fn files_in_bin(rows: Seq<RowView>, boundaries: Seq<i64>, bin: int) -> int
    decreases rows.len(),
{
    if rows.len() == 0 {
        0
    } else {
        let row = rows.last();
        files_in_bin(rows.drop_last(), boundaries, bin) + (if row.add_size is Ok
            && row.add_size->Ok_0 is Some && in_bin(boundaries, bin, row.add_size->Ok_0->0) {
            1int
        } else {
            0
        }) - (if row.remove_size is Ok && row.remove_size->Ok_0 is Some
            && row.remove_size->Ok_0->0 is Some && in_bin(
            boundaries,
            bin,
            row.remove_size->Ok_0->0->0,
        ) {
            1int
        } else {
            0
        })
    }
}

/// The bytes of the files of a bin that the rows add, less those that they remove.
pub open spec fn bytes_in_bin(rows: Seq<RowView>, boundaries: Seq<i64>, bin: int) -> int
    decreases rows.len(),
{
    if rows.len() == 0 {
        0
    } else {
        let row = rows.last();
        bytes_in_bin(rows.drop_last(), boundaries, bin) + (if row.add_size is Ok
            && row.add_size->Ok_0 is Some && in_bin(boundaries, bin, row.add_size->Ok_0->0) {
            row.add_size->Ok_0->0 as int
        } else {
            0
        }) - (if row.remove_size is Ok && row.remove_size->Ok_0 is Some
            && row.remove_size->Ok_0->0 is Some && in_bin(
            boundaries,
            bin,
            row.remove_size->Ok_0->0->0,
        ) {
            row.remove_size->Ok_0->0->0 as int
        } else {
            0
        })
    }
}

/// Does a histogram hold, on top of another, the files of the rows?
pub open spec fn counts_rows(
    start: Option<HistogramView>,
    after: Option<HistogramView>,
    rows: Seq<RowView>,
    bin: int,
) -> bool {
    match (start, after) {
        (Some(start), Some(after)) => {
            &&& after.boundaries == start.boundaries
            &&& after.file_counts.len() == start.boundaries.len()
            &&& after.total_bytes.len() == start.boundaries.len()
            &&& 0 <= bin < start.boundaries.len() ==> after.file_counts[bin]
                == start.file_counts[bin] + files_in_bin(rows, start.boundaries, bin)
            &&& 0 <= bin < start.boundaries.len() ==> after.total_bytes[bin]
                == start.total_bytes[bin] + bytes_in_bin(rows, start.boundaries, bin)
        },
        (None, None) => true,
        _ => false,
    }
}

/// Are the bins of a histogram valid, with counts for each?
pub open spec fn has_valid_bins(h: Option<HistogramView>) -> bool {
    h is Some ==> valid_boundaries(h->0.boundaries) && h->0.file_counts.len()
        == h->0.boundaries.len() && h->0.total_bytes.len() == h->0.boundaries.len()
}

proof fn lemma_row_counts(
    start: Option<HistogramView>,
    state: ReplayView,
    seen: Seq<RowView>,
    row: RowView,
    bin: int,
)
    requires
        has_valid_bins(start),
        state.row(row).1 is Ok,
        state.row(row).0.delta.is_incremental_safe,
        counts_rows(start, state.delta.file_stats.net_histogram, seen, bin),
    ensures
        state.delta.is_incremental_safe,
        counts_rows(start, state.row(row).0.delta.file_stats.net_histogram, seen.push(row), bin),
{
    let informed = state.row_commit_info(row.commit_info);
    let added = informed.0.row_add(row.add_size);
    let files = state.row_files(row);
    assert(files.1 is Ok && informed.1 is Ok && added.1 is Ok);
    assert(files == added.0.row_remove(row.remove_size));
    let domain = files.0.row_domain(row.domain);
    let transaction = domain.0.row_transaction(row.transaction);
    let protocol = transaction.0.row_protocol(row.protocol);
    assert(domain.1 is Ok && transaction.1 is Ok && protocol.1 is Ok);
    assert(state.row(row) == protocol.0.row_metadata(row.metadata));
    assert(state.row(row).0.delta.file_stats == files.0.delta.file_stats);
    assert(state.row(row).0.delta.is_incremental_safe == files.0.delta.is_incremental_safe);
    assert(added.0.delta.is_incremental_safe);
    assert(informed.0.delta.is_incremental_safe);
    assert(state.delta.is_incremental_safe);
    assert(informed.0.delta.file_stats == state.delta.file_stats);
    assert(seen.push(row).drop_last() =~= seen);
    if start is Some {
        let h = state.delta.file_stats.net_histogram->0;
        let mut middle = h;
        if let Ok(Some(size)) = row.add_size {
            if 0 <= bin < start->0.boundaries.len() {
                law_counting_changes_one_bin(h, size, 1, bin);
            }
            assert(h.count(size, 1) is Some);
            law_counting_changes_one_bin(h, size, 1, 0);
            middle = h.count(size, 1)->0;
        }
        assert(added.0.delta.file_stats.net_histogram == Some(middle));
        if let Ok(Some(Some(size))) = row.remove_size {
            if 0 <= bin < start->0.boundaries.len() {
                law_counting_changes_one_bin(middle, size, -1, bin);
                assert(-1 * size == -size);
            }
            assert(middle.count(size, -1) is Some);
            law_counting_changes_one_bin(middle, size, -1, 0);
        }
    }
}

proof fn lemma_rows_count(
    start: Option<HistogramView>,
    state: ReplayView,
    seen: Seq<RowView>,
    rows: Seq<RowView>,
    bin: int,
)
    requires
        has_valid_bins(start),
        state.rows(rows).1 is Ok,
        state.rows(rows).0.delta.is_incremental_safe,
        state.delta.is_incremental_safe ==> counts_rows(
            start,
            state.delta.file_stats.net_histogram,
            seen,
            bin,
        ),
    ensures
        state.delta.is_incremental_safe,
        counts_rows(start, state.rows(rows).0.delta.file_stats.net_histogram, seen + rows, bin),
    decreases rows.len(),
{
    if rows.len() == 0 {
        assert(seen + rows =~= seen);
    } else {
        let rest = rows.drop_last();
        let middle = state.rows(rest).0;
        lemma_row_stays_untrusted(middle, rows.last());
        lemma_rows_count(start, state, seen, rest, bin);
        lemma_row_counts(start, middle, seen + rest, rows.last(), bin);
        assert(seen + rows =~= (seen + rest).push(rows.last()));
    }
}

proof fn lemma_row_stays_untrusted(state: ReplayView, row: RowView)
    ensures
        state.row(row).0.delta.is_incremental_safe ==> state.delta.is_incremental_safe,
{
    crate::crc_replay_laws::law_row_preserves(state, row);
}

proof fn lemma_batches_count(
    seed: Option<HistogramView>,
    safe_operations: Seq<Seq<char>>,
    batches: Seq<Result<BatchView, ErrorView>>,
    bin: int,
)
    requires
        has_valid_bins(seed),
        ReplayView::start(seed, safe_operations).batches(batches) is Ok,
        ReplayView::start(seed, safe_operations).batches(
            batches,
        )->Ok_0.delta.is_incremental_safe,
    ensures
        counts_rows(
            seed,
            ReplayView::start(seed, safe_operations).batches(
                batches,
            )->Ok_0.delta.file_stats.net_histogram,
            all_rows(batches),
            bin,
        ),
    decreases batches.len(),
{
    let start = ReplayView::start(seed, safe_operations);
    if batches.len() > 0 {
        let rest = batches.drop_last();
        let before = start.batches(rest)->Ok_0;
        let batch = batches.last()->Ok_0;
        crate::crc_replay_laws::law_batch_preserves(before, batch);
        lemma_batches_count(seed, safe_operations, rest, bin);
        if batch.rows.len() == 0 {
            assert(all_rows(batches) =~= all_rows(rest));
        } else {
            let begun = before.batch_start(batch.file_url->Ok_0);
            assert(begun.delta.file_stats == before.delta.file_stats);
            lemma_rows_count(seed, begun, all_rows(rest), batch.rows, bin);
        }
    }
}

/// The histogram of a trusted change counts each file that the rows add, and takes away each that they remove, in the
/// bin of its size, on top of what the replay began with. Without a histogram at the beginning there is none at the
/// end.
pub proof fn law_histogram_counts_every_file(
    batches: Vec<DeltaResult<ColumnBatch>>,
    seed: Option<FileSizeHistogram>,
    safe_operations: Vec<String>,
    r: DeltaResult<CrcDelta>,
    bin: int,
)
    requires
        call_ensures(fold_batches, (batches, seed, safe_operations), r),
        has_valid_bins(histogram_view(seed)),
        r is Ok,
        r->Ok_0.is_incremental_safe,
    ensures
        match (seed, r->Ok_0.file_stats.net_histogram) {
            (Some(start), Some(after)) => counts_rows(
                Some(start@),
                Some(after@),
                all_rows(batch_views(batches@)),
                bin,
            ),
            (None, None) => true,
            _ => false,
        },
{
    lemma_batches_count(
        histogram_view(seed),
        texts(safe_operations@),
        batch_views(batches@),
        bin,
    );
    assert(r->Ok_0@.file_stats.net_histogram == histogram_view(r->Ok_0.file_stats.net_histogram));
}

/// A replay fails exactly where a batch could not be had or cannot be folded in; batches that all could be folded in
/// give a change.
pub proof fn law_failed_batch_fails_the_replay(
    batches: Vec<DeltaResult<ColumnBatch>>,
    seed: Option<FileSizeHistogram>,
    safe_operations: Vec<String>,
    r: DeltaResult<CrcDelta>,
    i: int,
)
    requires
        call_ensures(fold_batches, (batches, seed, safe_operations), r),
        0 <= i < batches@.len(),
        batches@[i] is Err,
    ensures
        r is Err,
{
    let all = batch_views(batches@);
    assert(all[i] is Err);
    lemma_error_stays(ReplayView::start(histogram_view(seed), texts(safe_operations@)), all, i);
}

proof fn lemma_error_stays(
    state: ReplayView,
    batches: Seq<Result<BatchView, ErrorView>>,
    i: int,
)
    requires
        0 <= i < batches.len(),
        batches[i] is Err,
    ensures
        state.batches(batches) is Err,
    decreases batches.len(),
{
    if i < batches.len() - 1 {
        assert(batches.drop_last()[i] == batches[i]);
        lemma_error_stays(state, batches.drop_last(), i);
    }
}

} // verus!
