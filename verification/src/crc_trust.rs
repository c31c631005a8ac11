//! When the change over a whole replay can be trusted, and what it counts.

use vstd::prelude::*;

use crate::actions::{DomainMetadata, MetadataView, ProtocolView, SetTransaction};
use crate::crc::{CrcDeltaView, FileStatsDeltaView, HistogramView};
use crate::crc_replay::{ReplayView, Step};
use crate::error::ErrorView;
use crate::replay_rows::{BatchView, RowView};

verus! {

/// One call of an accumulator.
pub enum ReplayEvent {
    /// A batch of the commit file at a URL begins.
    BatchStart(Seq<char>),
    CommitInfo(Option<Seq<char>>, Option<i64>),
    Add(i64),
    Remove(Option<i64>),
    Domain(DomainMetadata),
    Transaction(SetTransaction),
    Protocol(Option<ProtocolView>),
    Metadata(Option<MetadataView>),
}

impl ReplayView {
    /// The state after a call.
    pub open spec fn event(self, event: ReplayEvent) -> Step {
        match event {
            ReplayEvent::BatchStart(url) => (self.batch_start(url), Ok(())),
            ReplayEvent::CommitInfo(operation, timestamp) => (
                self.commit_info(operation, timestamp),
                Ok(()),
            ),
            ReplayEvent::Add(size) => self.add(size),
            ReplayEvent::Remove(size) => self.remove(size),
            ReplayEvent::Domain(action) => (self.domain_metadata(action), Ok(())),
            ReplayEvent::Transaction(action) => (self.set_transaction(action), Ok(())),
            ReplayEvent::Protocol(protocol) => self.row_protocol(Ok(protocol)),
            ReplayEvent::Metadata(metadata) => self.row_metadata(Ok(metadata)),
        }
    }

    /// The state after calls, up to the first that fails.
    pub open spec fn events(self, events: Seq<ReplayEvent>) -> Step
        decreases events.len(),
    {
        if events.len() == 0 {
            (self, Ok(()))
        } else {
            let before = self.events(events.drop_last());
            if before.1 is Err {
                before
            } else {
                before.0.event(events.last())
            }
        }
    }
}

/// The calls of a replay, commit by commit.
pub struct Commits {
    /// The URL of the last commit file, if a batch has begun.
    pub url: Option<Seq<char>>,
    /// The calls between the starts of batches. Each commit file is one commit, however many batches it has.
    pub commits: Seq<Seq<ReplayEvent>>,
}

/// The calls of a replay, commit by commit. A batch of another file begins another commit.
pub open spec fn commits_of(events: Seq<ReplayEvent>) -> Commits
    decreases events.len(),
{
    if events.len() == 0 {
        Commits { url: None, commits: seq![Seq::empty()] }
    } else {
        let before = commits_of(events.drop_last());
        match events.last() {
            ReplayEvent::BatchStart(url) => if before.url is None || before.url == Some(url) {
                Commits { url: Some(url), ..before }
            } else {
                Commits { url: Some(url), commits: before.commits.push(Seq::empty()) }
            },
            event => Commits {
                commits: before.commits.drop_last().push(before.commits.last().push(event)),
                ..before
            },
        }
    }
}

/// A call that makes the change untrusted by itself: an operation that is not safe, or the removal of a file
/// of unknown size.
pub open spec fn is_untrusted(event: ReplayEvent, safe_operations: Seq<Seq<char>>) -> bool {
    match event {
        ReplayEvent::CommitInfo(Some(operation), _) => !safe_operations.contains(operation),
        ReplayEvent::Remove(None) => true,
        _ => false,
    }
}

/// Does the call add or remove a file?
pub open spec fn is_file_action(event: ReplayEvent) -> bool {
    event is Add || event is Remove
}

/// Does the call name a safe operation?
pub open spec fn is_safe_operation(event: ReplayEvent, safe_operations: Seq<Seq<char>>) -> bool {
    match event {
        ReplayEvent::CommitInfo(Some(operation), _) => safe_operations.contains(operation),
        _ => false,
    }
}

/// Is no call of the commit untrusted by itself?
pub open spec fn nothing_untrusted(
    commit: Seq<ReplayEvent>,
    safe_operations: Seq<Seq<char>>,
) -> bool {
    forall|i: int| 0 <= i < commit.len() ==> !is_untrusted(#[trigger] commit[i], safe_operations)
}

/// Does the commit add or remove a file?
pub open spec fn changes_files(commit: Seq<ReplayEvent>) -> bool {
    exists|i: int| 0 <= i < commit.len() && is_file_action(#[trigger] commit[i])
}

/// Does the commit name a safe operation?
pub open spec fn names_safe_operation(
    commit: Seq<ReplayEvent>,
    safe_operations: Seq<Seq<char>>,
) -> bool {
    exists|i: int| 0 <= i < commit.len() && is_safe_operation(#[trigger] commit[i], safe_operations)
}

/// Can the commit be trusted? Nothing in it is untrusted, and it names a safe operation if it changes files.
pub open spec fn is_trusted(commit: Seq<ReplayEvent>, safe_operations: Seq<Seq<char>>) -> bool {
    &&& nothing_untrusted(commit, safe_operations)
    &&& changes_files(commit) ==> names_safe_operation(commit, safe_operations)
}

/// Can all commits be trusted?
pub open spec fn all_trusted(
    commits: Seq<Seq<ReplayEvent>>,
    safe_operations: Seq<Seq<char>>,
) -> bool {
    forall|k: int| 0 <= k < commits.len() ==> is_trusted(#[trigger] commits[k], safe_operations)
}

/// How many files are added.
pub open spec fn added_files(events: Seq<ReplayEvent>) -> nat
    decreases events.len(),
{
    if events.len() == 0 {
        0
    } else {
        added_files(events.drop_last()) + if events.last() is Add {
            1nat
        } else {
            0nat
        }
    }
}

/// The sum of the sizes of the files that are added.
pub open spec fn added_bytes(events: Seq<ReplayEvent>) -> int
    decreases events.len(),
{
    if events.len() == 0 {
        0
    } else {
        added_bytes(events.drop_last()) + match events.last() {
            ReplayEvent::Add(size) => size as int,
            _ => 0,
        }
    }
}

/// How many files are removed.
pub open spec fn removed_files(events: Seq<ReplayEvent>) -> nat
    decreases events.len(),
{
    if events.len() == 0 {
        0
    } else {
        removed_files(events.drop_last()) + if events.last() is Remove {
            1nat
        } else {
            0nat
        }
    }
}

/// The sum of the sizes of the files that are removed, where they are known.
pub open spec fn removed_bytes(events: Seq<ReplayEvent>) -> int
    decreases events.len(),
{
    if events.len() == 0 {
        0
    } else {
        removed_bytes(events.drop_last()) + match events.last() {
            ReplayEvent::Remove(Some(size)) => size as int,
            _ => 0,
        }
    }
}

/// Has the replay counted every file?
spec fn counted(stats: FileStatsDeltaView, events: Seq<ReplayEvent>) -> bool {
    &&& stats.gross_add_files == added_files(events)
    &&& stats.gross_add_bytes == added_bytes(events)
    &&& stats.gross_remove_files == removed_files(events)
    &&& stats.gross_remove_bytes == removed_bytes(events)
}

/// What the state of a replay says of the calls that led to it.
spec fn reflects(
    state: ReplayView,
    events: Seq<ReplayEvent>,
    safe_operations: Seq<Seq<char>>,
) -> bool {
    let all = commits_of(events);
    let current = all.commits.last();
    &&& state.safe_operations == safe_operations
    &&& state.current_file_url == all.url
    &&& all.commits.len() > 0
    &&& state.delta.is_incremental_safe == (all_trusted(all.commits.drop_last(), safe_operations)
        && nothing_untrusted(current, safe_operations))
    &&& state.delta.is_incremental_safe ==> {
        &&& state.saw_file_action == changes_files(current)
        &&& state.saw_safe_op == names_safe_operation(current, safe_operations)
        &&& counted(state.delta.file_stats, events)
    }
}

/// What one more call adds to a commit.
proof fn lemma_commit_push(
    commit: Seq<ReplayEvent>,
    event: ReplayEvent,
    safe_operations: Seq<Seq<char>>,
)
    ensures
        nothing_untrusted(commit.push(event), safe_operations) == (nothing_untrusted(
            commit,
            safe_operations,
        ) && !is_untrusted(event, safe_operations)),
        changes_files(commit.push(event)) == (changes_files(commit) || is_file_action(event)),
        names_safe_operation(commit.push(event), safe_operations) == (names_safe_operation(
            commit,
            safe_operations,
        ) || is_safe_operation(event, safe_operations)),
{
    let more = commit.push(event);
    let n = commit.len() as int;
    assert(more[n] == event);
    assert forall|i: int| 0 <= i < n implies #[trigger] more[i] == commit[i] by {}
    if nothing_untrusted(more, safe_operations) {
        assert forall|i: int| 0 <= i < n implies !is_untrusted(
            #[trigger] commit[i],
            safe_operations,
        ) by {
            assert(more[i] == commit[i]);
        }
    }
    if changes_files(commit) {
        let i = choose|i: int| 0 <= i < n && is_file_action(#[trigger] commit[i]);
        assert(is_file_action(more[i]));
    }
    if changes_files(more) {
        let i = choose|i: int| 0 <= i < n + 1 && is_file_action(#[trigger] more[i]);
        if i < n {
            assert(is_file_action(commit[i]));
        }
    }
    if names_safe_operation(commit, safe_operations) {
        let i = choose|i: int|
            0 <= i < n && is_safe_operation(#[trigger] commit[i], safe_operations);
        assert(is_safe_operation(more[i], safe_operations));
    }
    if names_safe_operation(more, safe_operations) {
        let i = choose|i: int|
            0 <= i < n + 1 && is_safe_operation(#[trigger] more[i], safe_operations);
        if i < n {
            assert(is_safe_operation(commit[i], safe_operations));
        }
    }
}

proof fn lemma_all_trusted(commits: Seq<Seq<ReplayEvent>>, safe_operations: Seq<Seq<char>>)
    requires
        commits.len() > 0,
    ensures
        all_trusted(commits, safe_operations) == (all_trusted(commits.drop_last(), safe_operations)
            && is_trusted(commits.last(), safe_operations)),
{
    let rest = commits.drop_last();
    assert forall|k: int| 0 <= k < rest.len() implies #[trigger] rest[k] == commits[k] by {}
    if all_trusted(commits, safe_operations) {
        assert forall|k: int| 0 <= k < rest.len() implies is_trusted(
            #[trigger] rest[k],
            safe_operations,
        ) by {
            assert(rest[k] == commits[k]);
        }
        assert(is_trusted(commits[commits.len() - 1], safe_operations));
    }
    if all_trusted(rest, safe_operations) && is_trusted(commits.last(), safe_operations) {
        assert forall|k: int| 0 <= k < commits.len() implies is_trusted(
            #[trigger] commits[k],
            safe_operations,
        ) by {
            if k < rest.len() {
                assert(is_trusted(rest[k], safe_operations));
            }
        }
    }
}

proof fn lemma_event_reflects(
    state: ReplayView,
    events: Seq<ReplayEvent>,
    event: ReplayEvent,
    safe_operations: Seq<Seq<char>>,
)
    requires
        reflects(state, events, safe_operations),
        state.event(event).1 is Ok,
    ensures
        reflects(state.event(event).0, events.push(event), safe_operations),
{
    let more = events.push(event);
    assert(more.drop_last() =~= events);
    assert(more.last() == event);
    let before = commits_of(events);
    let current = before.commits.last();
    if let ReplayEvent::BatchStart(url) = event {
        if !(before.url is None || before.url == Some(url)) {
            lemma_all_trusted(before.commits, safe_operations);
            let after = commits_of(more).commits;
            assert(after.drop_last() =~= before.commits);
            assert(after.last() =~= Seq::empty());
        }
    } else {
        lemma_commit_push(current, event, safe_operations);
        let after = commits_of(more).commits;
        assert(after.drop_last() =~= before.commits.drop_last());
        assert(after.last() == current.push(event));
    }
}

proof fn lemma_events_reflect(
    seed_histogram: Option<HistogramView>,
    safe_operations: Seq<Seq<char>>,
    events: Seq<ReplayEvent>,
)
    requires
        ReplayView::start(seed_histogram, safe_operations).events(events).1 is Ok,
    ensures
        reflects(
            ReplayView::start(seed_histogram, safe_operations).events(events).0,
            events,
            safe_operations,
        ),
    decreases events.len(),
{
    let start = ReplayView::start(seed_histogram, safe_operations);
    if events.len() > 0 {
        lemma_events_reflect(seed_histogram, safe_operations, events.drop_last());
        lemma_event_reflects(
            start.events(events.drop_last()).0,
            events.drop_last(),
            events.last(),
            safe_operations,
        );
        assert(events.drop_last().push(events.last()) =~= events);
    } else {
        let all = commits_of(events).commits;
        assert(all.drop_last() =~= Seq::empty());
        assert(all.last() =~= Seq::<ReplayEvent>::empty());
    }
}

/// The change over a whole replay is trusted if and only if each commit is: no call of it named an unsafe
/// operation or removed a file of unknown size, and if it added or removed a file, then it named a safe
/// operation, before or after that. A trusted change counts every file and byte that was added or removed.
pub proof fn law_change_is_trusted_exactly_if_all_commits_are(
    seed_histogram: Option<HistogramView>,
    safe_operations: Seq<Seq<char>>,
    events: Seq<ReplayEvent>,
)
    requires
        ReplayView::start(seed_histogram, safe_operations).events(events).1 is Ok,
    ensures
        ({
            let state = ReplayView::start(seed_histogram, safe_operations).events(events).0;
            let change = state.commit_end().delta;
            &&& change.is_incremental_safe <==> all_trusted(
                commits_of(events).commits,
                safe_operations,
            )
            &&& change.is_incremental_safe ==> {
                &&& change.file_stats.net_files() == added_files(events) - removed_files(events)
                &&& change.file_stats.net_bytes() == added_bytes(events) - removed_bytes(events)
            }
        }),
{
    lemma_events_reflect(seed_histogram, safe_operations, events);
    lemma_all_trusted(commits_of(events).commits, safe_operations);
}

/// The call for the commitInfo action of a row.
pub open spec fn commit_info_events(row: RowView) -> Seq<ReplayEvent> {
    match row.commit_info {
        Ok((operation, timestamp)) => if operation is Some || timestamp is Some {
            seq![ReplayEvent::CommitInfo(operation, timestamp)]
        } else {
            Seq::empty()
        },
        Err(_) => Seq::empty(),
    }
}

/// The calls for the file actions of a row.
pub open spec fn file_events(row: RowView) -> Seq<ReplayEvent> {
    (match row.add_size {
        Ok(Some(size)) => seq![ReplayEvent::Add(size)],
        _ => Seq::empty(),
    }) + (match row.remove_size {
        Ok(Some(size)) => seq![ReplayEvent::Remove(size)],
        _ => Seq::empty(),
    })
}

/// The calls for the other actions of a row.
pub open spec fn other_events(row: RowView) -> Seq<ReplayEvent> {
    (match row.domain {
        Ok(Some(action)) => seq![ReplayEvent::Domain(action)],
        _ => Seq::empty(),
    }) + (match row.transaction {
        Ok(Some(action)) => seq![ReplayEvent::Transaction(action)],
        _ => Seq::empty(),
    }) + seq![
        ReplayEvent::Protocol(
            match row.protocol {
                Ok(protocol) => protocol,
                Err(_) => None,
            },
        ),
        ReplayEvent::Metadata(
            match row.metadata {
                Ok(metadata) => metadata,
                Err(_) => None,
            },
        ),
    ]
}

/// The calls for the rows of a batch.
pub open spec fn rows_events(rows: Seq<RowView>) -> Seq<ReplayEvent>
    decreases rows.len(),
{
    if rows.len() == 0 {
        Seq::empty()
    } else {
        rows_events(rows.drop_last()) + (commit_info_events(rows.last()) + file_events(rows.last())
            + other_events(rows.last()))
    }
}

/// The calls for batches.
pub open spec fn batches_events(batches: Seq<Result<BatchView, ErrorView>>) -> Seq<ReplayEvent>
    decreases batches.len(),
{
    if batches.len() == 0 {
        Seq::empty()
    } else {
        batches_events(batches.drop_last()) + match batches.last() {
            Ok(batch) => match batch.file_url {
                Ok(url) => if batch.rows.len() > 0 {
                    seq![ReplayEvent::BatchStart(url)] + rows_events(batch.rows)
                } else {
                    Seq::empty()
                },
                Err(_) => Seq::empty(),
            },
            Err(_) => Seq::empty(),
        }
    }
}

/// Calls that are made one after the other can be made in two parts.
proof fn lemma_events_in_two_parts(
    state: ReplayView,
    first: Seq<ReplayEvent>,
    second: Seq<ReplayEvent>,
)
    requires
        state.events(first).1 is Ok,
    ensures
        state.events(first + second) == state.events(first).0.events(second),
    decreases second.len(),
{
    if second.len() == 0 {
        assert(first + second =~= first);
    } else {
        lemma_events_in_two_parts(state, first, second.drop_last());
        assert((first + second).drop_last() =~= first + second.drop_last());
    }
}

proof fn lemma_one_event(state: ReplayView, event: ReplayEvent)
    ensures
        state.events(seq![event]) == state.event(event),
{
    assert(seq![event].drop_last() =~= Seq::empty());
    assert(state.events(seq![event].drop_last()) == (state, Ok::<(), ErrorView>(())));
}

proof fn lemma_file_events(state: ReplayView, row: RowView)
    requires
        state.row_files(row).1 is Ok,
    ensures
        state.events(commit_info_events(row) + file_events(row)) == state.row_files(row),
{
    let informed = state.row_commit_info(row.commit_info).0;
    let added = informed.row_add(row.add_size).0;
    let info = commit_info_events(row);
    let adds: Seq<ReplayEvent> = match row.add_size {
        Ok(Some(size)) => seq![ReplayEvent::Add(size)],
        _ => Seq::empty(),
    };
    let removes: Seq<ReplayEvent> = match row.remove_size {
        Ok(Some(size)) => seq![ReplayEvent::Remove(size)],
        _ => Seq::empty(),
    };
    if info.len() > 0 {
        lemma_one_event(state, info[0]);
        assert(info =~= seq![info[0]]);
    }
    assert(state.events(info) == (informed, Ok::<(), ErrorView>(())));
    if adds.len() > 0 {
        lemma_one_event(informed, adds[0]);
        assert(adds =~= seq![adds[0]]);
    }
    assert(informed.events(adds) == (added, Ok::<(), ErrorView>(())));
    if removes.len() > 0 {
        lemma_one_event(added, removes[0]);
        assert(removes =~= seq![removes[0]]);
    }
    lemma_events_in_two_parts(informed, adds, removes);
    lemma_events_in_two_parts(state, info, adds + removes);
}

proof fn lemma_other_events(state: ReplayView, row: RowView)
    requires
        state.row_others(row).1 is Ok,
    ensures
        state.events(other_events(row)) == state.row_others(row),
{
    let s1 = state.row_domain(row.domain).0;
    let s2 = s1.row_transaction(row.transaction).0;
    let s3 = s2.row_protocol(row.protocol).0;
    let domains: Seq<ReplayEvent> = match row.domain {
        Ok(Some(action)) => seq![ReplayEvent::Domain(action)],
        _ => Seq::empty(),
    };
    let transactions: Seq<ReplayEvent> = match row.transaction {
        Ok(Some(action)) => seq![ReplayEvent::Transaction(action)],
        _ => Seq::empty(),
    };
    let all = other_events(row);
    let protocol = all[all.len() - 2];
    let metadata = all[all.len() - 1];
    if domains.len() > 0 {
        lemma_one_event(state, domains[0]);
        assert(domains =~= seq![domains[0]]);
    }
    assert(state.events(domains) == (s1, Ok::<(), ErrorView>(())));
    if transactions.len() > 0 {
        lemma_one_event(s1, transactions[0]);
        assert(transactions =~= seq![transactions[0]]);
    }
    assert(s1.events(transactions) == (s2, Ok::<(), ErrorView>(())));
    lemma_one_event(s2, protocol);
    assert(s2.events(seq![protocol]) == (s3, Ok::<(), ErrorView>(())));
    lemma_one_event(s3, metadata);
    lemma_events_in_two_parts(state, domains, transactions);
    lemma_events_in_two_parts(state, domains + transactions, seq![protocol]);
    lemma_events_in_two_parts(state, domains + transactions + seq![protocol], seq![metadata]);
    assert(all =~= domains + transactions + seq![protocol] + seq![metadata]);
}

proof fn lemma_rows_events(state: ReplayView, rows: Seq<RowView>)
    requires
        state.rows(rows).1 is Ok,
    ensures
        state.events(rows_events(rows)) == state.rows(rows),
    decreases rows.len(),
{
    if rows.len() > 0 {
        let rest = rows.drop_last();
        let row = rows.last();
        lemma_rows_events(state, rest);
        let before = state.rows(rest).0;
        let files = commit_info_events(row) + file_events(row);
        lemma_file_events(before, row);
        lemma_other_events(before.row_files(row).0, row);
        lemma_events_in_two_parts(before, files, other_events(row));
        lemma_events_in_two_parts(state, rows_events(rest), files + other_events(row));
    }
}

proof fn lemma_batches_events(state: ReplayView, batches: Seq<Result<BatchView, ErrorView>>)
    requires
        state.batches(batches) is Ok,
    ensures
        state.events(batches_events(batches)) == (
            state.batches(batches)->Ok_0,
            Ok::<(), ErrorView>(()),
        ),
    decreases batches.len(),
{
    if batches.len() > 0 {
        let rest = batches.drop_last();
        lemma_batches_events(state, rest);
        let before = state.batches(rest)->Ok_0;
        let batch = batches.last()->Ok_0;
        if batch.rows.len() > 0 {
            let url = batch.file_url->Ok_0;
            let begin = ReplayEvent::BatchStart(url);
            lemma_one_event(before, begin);
            lemma_rows_events(before.batch_start(url), batch.rows);
            lemma_events_in_two_parts(before, seq![begin], rows_events(batch.rows));
            lemma_events_in_two_parts(
                state,
                batches_events(rest),
                seq![begin] + rows_events(batch.rows),
            );
        } else {
            assert(batches_events(batches) =~= batches_events(rest));
        }
    }
}

/// The change that batches make is trusted if and only if each of their commits is, and then it counts every
/// file and byte that they add or remove.
pub proof fn law_replayed_change_is_trusted_exactly_if_all_commits_are(
    seed_histogram: Option<HistogramView>,
    safe_operations: Seq<Seq<char>>,
    batches: Seq<Result<BatchView, ErrorView>>,
    change: CrcDeltaView,
)
    requires
        crate::log_segment::replayed(batches, seed_histogram, safe_operations) == Ok::<
            CrcDeltaView,
            ErrorView,
        >(change),
    ensures
        ({
            let events = batches_events(batches);
            &&& change.is_incremental_safe <==> all_trusted(
                commits_of(events).commits,
                safe_operations,
            )
            &&& change.is_incremental_safe ==> {
                &&& change.file_stats.net_files() == added_files(events) - removed_files(events)
                &&& change.file_stats.net_bytes() == added_bytes(events) - removed_bytes(events)
            }
        }),
{
    lemma_batches_events(ReplayView::start(seed_histogram, safe_operations), batches);
    law_change_is_trusted_exactly_if_all_commits_are(
        seed_histogram,
        safe_operations,
        batches_events(batches),
    );
}

} // verus!
