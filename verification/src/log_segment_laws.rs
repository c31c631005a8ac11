//! Which commits are replayed on top of which checksum, and what comes of it.

use vstd::prelude::*;

use crate::actions::{file_views, FileMeta, FileMetaView, Version};
use crate::columns::ColumnBatch;
use crate::crc::{
    Crc, CrcDelta, CrcDeltaView, CrcView, FileSizeHistogram, FileStatsView, HistogramView,
};
use crate::crc_content_laws::{
    all_rows, has_first_domain, has_first_metadata, has_first_protocol, has_first_transaction,
    is_last_timestamp, newest_rows,
};
use crate::crc_laws::{adds_up, can_be_added};
use crate::error::{DeltaResult, ErrorView};
use crate::expressions::ColumnName;
use crate::log_segment::{
    advances_base, builds_delta, first_above, newest_first, replayed, selects, selects_all,
    IncrementalReplay, LogFile, LogSegment, ReplayEngine,
};
use crate::plans::nodes::{PredicateRef, SchemaRef};
use crate::replay_row_laws::{selected_kind, selected_name, type_of, ValueKind};
use crate::replay_rows::{batch_views, BatchView};
use crate::replay_schema::{replay_schema, replay_schema_view};
use crate::schema::{DataType, FieldView, MetadataView, StructType};
use crate::struct_patch_output::leads_to;
use crate::text::texts;
use crate::text_laws::{glued, law_split_pieces_are_the_text};

verus! {

/// Are these the commits above a version, from the last to the first? `places` tells where each of them stands in the
/// list of commits.
pub open spec fn are_newest_first(
    files: Seq<FileMetaView>,
    commits: Seq<LogFile>,
    base: Version,
    places: Seq<int>,
) -> bool {
    &&& places.len() == files.len()
    &&& forall|k: int|
        0 <= k < files.len() ==> 0 <= #[trigger] places[k] < commits.len()
            && commits[places[k]].version > base && files[k] == commits[places[k]].location@
    &&& forall|k: int, l: int|
        0 <= k < l < files.len() ==> #[trigger] places[k] > #[trigger] places[l]
    &&& forall|i: int|
        0 <= i < commits.len() && (#[trigger] commits[i]).version > base ==> places.contains(i)
}

proof fn lemma_newest_first(commits: Seq<LogFile>, base: Version) -> (places: Seq<int>)
    ensures
        are_newest_first(newest_first(commits, base), commits, base, places),
    decreases commits.len(),
{
    if commits.len() == 0 {
        Seq::empty()
    } else {
        let rest = commits.drop_last();
        let n = rest.len() as int;
        let before = lemma_newest_first(rest, base);
        let files = newest_first(commits, base);
        assert forall|i: int| 0 <= i < n implies #[trigger] rest[i] == commits[i] by {}
        if commits.last().version > base {
            let places = seq![n] + before;
            let others = newest_first(rest, base);
            assert forall|k: int| 0 <= k < files.len() implies 0 <= #[trigger] places[k]
                < commits.len() && commits[places[k]].version > base && files[k]
                == commits[places[k]].location@ by {
                if k > 0 {
                    assert(places[k] == before[k - 1]);
                    assert(files[k] == others[k - 1]);
                }
            }
            assert forall|k: int, l: int| 0 <= k < l < files.len() implies #[trigger] places[k]
                > #[trigger] places[l] by {
                assert(places[l] == before[l - 1]);
                if k > 0 {
                    assert(places[k] == before[k - 1]);
                }
            }
            assert forall|i: int|
                0 <= i < commits.len() && (#[trigger] commits[i]).version
                    > base implies places.contains(i) by {
                if i < n {
                    assert(rest[i].version > base);
                    let k = choose|k: int| 0 <= k < before.len() && before[k] == i;
                    assert(places[k + 1] == i);
                } else {
                    assert(places[0] == i);
                }
            }
            places
        } else {
            assert forall|i: int|
                0 <= i < commits.len() && (#[trigger] commits[i]).version
                    > base implies before.contains(i) by {
                assert(rest[i].version > base);
            }
            before
        }
    }
}

/// Is the commit right after a version the first one above it?
pub open spec fn goes_on_after(commits: Seq<LogFile>, base: Version) -> bool {
    exists|i: int|
        0 <= i < commits.len() && (#[trigger] commits[i]).version == base + 1 && forall|j: int|
            0 <= j < i ==> (#[trigger] commits[j]).version <= base
}

proof fn lemma_first_above(commits: Seq<LogFile>, base: Version)
    ensures
        match first_above(commits, base) {
            Some(version) => exists|i: int|
                0 <= i < commits.len() && (#[trigger] commits[i]).version == version && version
                    > base && forall|j: int| 0 <= j < i ==> (#[trigger] commits[j]).version <= base,
            None => forall|i: int| 0 <= i < commits.len() ==> (#[trigger] commits[i]).version <= base,
        },
    decreases commits.len(),
{
    if commits.len() > 0 {
        let rest = commits.drop_last();
        lemma_first_above(rest, base);
        assert forall|i: int| 0 <= i < rest.len() implies #[trigger] rest[i] == commits[i] by {}
        assert forall|i: int| 0 <= i < rest.len() implies #[trigger] commits[i] == rest[i] by {}
        match first_above(rest, base) {
            Some(version) => {
                let i = choose|i: int|
                    0 <= i < rest.len() && (#[trigger] rest[i]).version == version && version > base
                        && forall|j: int| 0 <= j < i ==> (#[trigger] rest[j]).version <= base;
                assert(commits[i].version == version);
            },
            None => {
                if commits.last().version > base {
                    assert(commits[commits.len() - 1].version > base);
                }
            },
        }
    }
}

/// Commits are replayed exactly if the base lies below the last version and the first commit above it is the next one.
pub proof fn law_replay_needs_the_next_commit(
    segment: LogSegment,
    base: Version,
    r: DeltaResult<Vec<FileMeta>>,
)
    requires
        call_ensures(LogSegment::replay_files, (&segment, base), r),
    ensures
        r is Ok <==> base < segment.end_version && goes_on_after(
            segment.ascending_commit_files@,
            base,
        ),
        r is Err ==> r->Err_0@ is InternalError,
{
    let commits = segment.ascending_commit_files@;
    lemma_first_above(commits, base);
    if base < segment.end_version {
        if goes_on_after(commits, base) {
            let i = choose|i: int|
                0 <= i < commits.len() && (#[trigger] commits[i]).version == base + 1 && forall|
                    j: int,
                |
                    0 <= j < i ==> (#[trigger] commits[j]).version <= base;
            if let Some(version) = first_above(commits, base) {
                let k = choose|k: int|
                    0 <= k < commits.len() && (#[trigger] commits[k]).version == version && version
                        > base && forall|j: int| 0 <= j < k ==> (#[trigger] commits[j]).version <= base;
                if k < i {
                    assert(commits[k].version <= base);
                }
                if i < k {
                    assert(commits[i].version <= base);
                }
            }
        }
    }
}

/// The files that are replayed are those of all commits above the base, from the newest to the oldest, and of no other.
pub proof fn law_commits_above_the_base_are_replayed(
    segment: LogSegment,
    base: Version,
    r: DeltaResult<Vec<FileMeta>>,
)
    requires
        call_ensures(LogSegment::replay_files, (&segment, base), r),
        r is Ok,
    ensures
        exists|places: Seq<int>| #[trigger]
            are_newest_first(
                file_views(r->Ok_0@),
                segment.ascending_commit_files@,
                base,
                places,
            ),
{
    let places = lemma_newest_first(segment.ascending_commit_files@, base);
    assert(are_newest_first(
        file_views(r->Ok_0@),
        segment.ascending_commit_files@,
        base,
        places,
    ));
}

/// A base may be advanced by any number of commits, by at most so many, or not at all. One that lies above the end is
/// an error.
pub proof fn law_replay_is_limited(
    limit: IncrementalReplay,
    base: Version,
    end: Version,
    r: DeltaResult<bool>,
)
    requires
        call_ensures(IncrementalReplay::should_advance, (&limit, base, end), r),
    ensures
        r is Err <==> base > end,
        base <= end ==> match limit {
            IncrementalReplay::Disabled => !r->Ok_0,
            IncrementalReplay::UpTo(n) => r->Ok_0 <==> end <= base + n,
            IncrementalReplay::Unlimited => r->Ok_0,
        },
{
}

/// The base is the checksum file of the segment where that is newer than what is in memory, or nothing is there, and
/// can be read. Otherwise it is what is in memory.
pub proof fn law_newest_base_is_picked<E: ReplayEngine>(
    segment: LogSegment,
    engine: E,
    in_memory: Option<Crc>,
    r: Option<Crc>,
)
    requires
        call_ensures(LogSegment::pick_latest_base_crc::<E>, (&segment, &engine, in_memory), r),
    ensures
        segment.latest_crc_file is None ==> r == in_memory,
        segment.latest_crc_file is Some && in_memory is Some
            && segment.latest_crc_file->0.version <= in_memory->0.version ==> r == in_memory,
        segment.latest_crc_file is Some && (in_memory is None || segment.latest_crc_file->0.version
            > in_memory->0.version) ==> exists|read: Option<Crc>| #[trigger]
            call_ensures(E::read_crc_file, (&engine, &segment.latest_crc_file->0), read) && (
            read is Some ==> r == read) && (read is None ==> r == in_memory),
{
}

/// Is it what is known after a change: the version asked for, the protocol and metadata of the change or else those
/// before, the timestamp of the change, the counts of both, and of domains and applications what the change says or
/// else what was there before?
pub open spec fn follows(
    base: CrcView,
    change: CrcDeltaView,
    version: Version,
    after: CrcView,
) -> bool {
    &&& after.version == version
    &&& change.protocol is Some ==> after.protocol == change.protocol->0
    &&& change.protocol is None ==> after.protocol == base.protocol
    &&& change.metadata is Some ==> after.metadata == change.metadata->0
    &&& change.metadata is None ==> after.metadata == base.metadata
    &&& after.in_commit_timestamp == change.in_commit_timestamp
    &&& match (base.file_stats, after.file_stats) {
        (
            FileStatsView::Complete { num_files, table_size_bytes, histogram },
            FileStatsView::Complete {
                num_files: files,
                table_size_bytes: bytes,
                histogram: counted,
            },
        ) => {
            &&& change.is_incremental_safe
            &&& files == num_files + change.file_stats.gross_add_files
                - change.file_stats.gross_remove_files
            &&& bytes == table_size_bytes + change.file_stats.gross_add_bytes
                - change.file_stats.gross_remove_bytes
            &&& match (histogram, change.file_stats.net_histogram, counted) {
                (Some(a), Some(b), Some(c)) => adds_up(a, b, c),
                (Some(a), Some(b), None) => !can_be_added(a, b),
                (_, _, c) => c is None,
            }
        },
        (
            FileStatsView::Complete { num_files, table_size_bytes, .. },
            FileStatsView::Indeterminate,
        ) => {
            let files = num_files + change.file_stats.gross_add_files
                - change.file_stats.gross_remove_files;
            let bytes = table_size_bytes + change.file_stats.gross_add_bytes
                - change.file_stats.gross_remove_bytes;
            !change.is_incremental_safe || !(i64::MIN <= files <= i64::MAX) || !(i64::MIN <= bytes
                <= i64::MAX)
        },
        (FileStatsView::Indeterminate, stats) => stats is Indeterminate,
    }
    &&& base.domain_metadata is Some <==> after.domain_metadata is Some
    &&& base.domain_metadata is Some ==> forall|domain: Seq<char>|
        #![trigger change.domain_metadata.contains_key(domain)]
        #![trigger after.domain_metadata->0.contains_key(domain)]
        {
            let before = base.domain_metadata->0;
            let now = after.domain_metadata->0;
            if !change.domain_metadata.contains_key(domain) {
                now.contains_key(domain) == before.contains_key(domain) && (before.contains_key(
                    domain,
                ) ==> now[domain] == before[domain])
            } else if change.domain_metadata[domain].removed {
                !now.contains_key(domain)
            } else {
                now.contains_key(domain) && now[domain] == change.domain_metadata[domain]
            }
        }
    &&& base.set_transactions is Some <==> after.set_transactions is Some
    &&& base.set_transactions is Some ==> forall|app: Seq<char>|
        #![trigger change.set_transactions.contains_key(app)]
        #![trigger after.set_transactions->0.contains_key(app)]
        {
            let before = base.set_transactions->0;
            let now = after.set_transactions->0;
            if change.set_transactions.contains_key(app) {
                now.contains_key(app) && now[app] == change.set_transactions[app]
            } else {
                now.contains_key(app) == before.contains_key(app) && (before.contains_key(app)
                    ==> now[app] == before[app])
            }
        }
}

/// What a change leads to is what follows from it.
pub proof fn law_change_leads_to_what_follows(
    base: CrcView,
    change: CrcDeltaView,
    version: Version,
)
    ensures
        follows(base, change, version, base.apply(change, version)),
{
}

/// Is it the selection of a batch: the columns of the selected names and types, in their order, out of the data? A batch
/// that could not be read is its error.
pub open spec fn is_selection<E: ReplayEngine>(
    engine: &E,
    data: DeltaResult<E::Data>,
    batch: DeltaResult<ColumnBatch>,
) -> bool {
    match data {
        Err(e) => batch == Err::<ColumnBatch, crate::error::Error>(e),
        Ok(data) => exists|names: Vec<ColumnName>, types: Vec<DataType>| #[trigger]
            call_ensures(E::select_columns, (engine, &data, &names, &types), batch)
                && name_selected_columns(names@, types@),
    }
}

/// Are these the names and types of the selected columns?
pub open spec fn name_selected_columns(names: Seq<ColumnName>, types: Seq<DataType>) -> bool {
    &&& names.len() == 25
    &&& types.len() == 25
    &&& forall|i: int| 0 <= i < 25 ==> glued((#[trigger] names[i])@, '.') == selected_name(i)
    &&& forall|i: int| 0 <= i < 25 ==> (#[trigger] types[i])@ == type_of(selected_kind(i))
}

/// Do the batches come from the commits above the base: read from the newest to the oldest, without a predicate, and with
/// the columns that a replay needs selected from each batch?
pub open spec fn come_from_the_log<E: ReplayEngine>(
    engine: &E,
    segment: LogSegment,
    base: Version,
    batches: Seq<DeltaResult<ColumnBatch>>,
) -> bool {
    exists|
        files: Vec<FileMeta>,
        schema: SchemaRef,
        data: Vec<DeltaResult<E::Data>>,
        places: Seq<int>,
    |
        {
            &&& #[trigger] call_ensures(
                E::read_json_files,
                (engine, &files, schema, None::<PredicateRef>),
                Ok(data),
            )
            &&& #[trigger] are_newest_first(
                file_views(files@),
                segment.ascending_commit_files@,
                base,
                places,
            )
            &&& schema@ == replay_schema_view()
            &&& batches.len() == data@.len()
            &&& forall|i: int|
                0 <= i < batches.len() ==> is_selection(engine, data@[i], #[trigger] batches[i])
        }
}

/// Does the change hold what the rows of the batches say: the newest action of each kind, and the timestamp of the newest
/// commit?
pub open spec fn gathers(
    change: CrcDeltaView,
    batches: Seq<Result<BatchView, ErrorView>>,
    domain: Seq<char>,
    app: Seq<char>,
) -> bool {
    let rows = all_rows(batches);
    &&& has_first_protocol(change, rows)
    &&& has_first_metadata(change, rows)
    &&& has_first_domain(change, rows, domain)
    &&& has_first_transaction(change, rows, app)
    &&& is_last_timestamp(change.in_commit_timestamp, newest_rows(batches))
}

proof fn lemma_selection<E: ReplayEngine>(
    engine: &E,
    data: DeltaResult<E::Data>,
    batch: DeltaResult<ColumnBatch>,
)
    requires
        selects(engine, data, batch),
    ensures
        is_selection(engine, data, batch),
{
    if let Ok(data) = data {
        let columns = crate::crc_replay::replay_columns();
        let (names, types) = choose|names: Vec<ColumnName>, types: Vec<DataType>| #[trigger]
            call_ensures(E::select_columns, (engine, &data, &names, &types), batch)
                && crate::crc_replay::columns_are(names@, types@, columns);
        assert forall|i: int| 0 <= i < 25 implies glued((#[trigger] names@[i])@, '.')
            == selected_name(i) by {
            law_split_pieces_are_the_text(columns[i].0, '.');
            assert(columns[i].0 == selected_name(i));
        }
        assert forall|i: int| 0 <= i < 25 implies (#[trigger] types@[i])@ == type_of(
            selected_kind(i),
        ) by {
            assert(columns[i].1 == type_of(selected_kind(i)));
        }
        assert(name_selected_columns(names@, types@));
    }
}

proof fn lemma_delta_comes_from_the_log<E: ReplayEngine>(
    engine: &E,
    segment: LogSegment,
    base: Version,
    seed: Option<HistogramView>,
    safe_operations: Seq<Seq<char>>,
    change: CrcDeltaView,
    domain: Seq<char>,
    app: Seq<char>,
) -> (batches: Seq<DeltaResult<ColumnBatch>>)
    requires
        builds_delta(engine, segment, base, seed, safe_operations, Ok(change)),
    ensures
        base < segment.end_version,
        goes_on_after(segment.ascending_commit_files@, base),
        come_from_the_log(engine, segment, base, batches),
        gathers(change, batch_views(batches), domain, app),
        replayed(batch_views(batches), seed, safe_operations) == Ok::<CrcDeltaView, ErrorView>(
            change,
        ),
{
    let commits = segment.ascending_commit_files@;
    lemma_first_above(commits, base);
    let planned = segment.replay_plan(base)->Ok_0;
    let (files, schema, read) = choose|
        files: Vec<FileMeta>,
        schema: SchemaRef,
        read: DeltaResult<Vec<DeltaResult<E::Data>>>,
    |
        file_views(files@) == planned && schema@ == replay_schema_view()
            && #[trigger] call_ensures(
            E::read_json_files,
            (engine, &files, schema, None::<PredicateRef>),
            read,
        ) && crate::log_segment::replays(engine, read, seed, safe_operations, Ok(change));
    let data = read->Ok_0;
    let batches = choose|batches: Seq<DeltaResult<ColumnBatch>>| #[trigger]
        selects_all(engine, data@, batches) && Ok::<CrcDeltaView, ErrorView>(change) == replayed(
            batch_views(batches),
            seed,
            safe_operations,
        );
    let places = lemma_newest_first(commits, base);
    assert(are_newest_first(file_views(files@), commits, base, places));
    assert forall|i: int| 0 <= i < batches.len() implies is_selection(
        engine,
        data@[i],
        #[trigger] batches[i],
    ) by {
        lemma_selection(engine, data@[i], batches[i]);
    }
    assert(call_ensures(
        E::read_json_files,
        (engine, &files, schema, None::<PredicateRef>),
        Ok(data),
    ));
    crate::crc_content_laws::lemma_replay_gathers(
        seed,
        safe_operations,
        batch_views(batches),
        domain,
        app,
    );
    batches
}

/// The change over the commits above a base gathers what their rows say.
pub proof fn law_change_gathers_the_log<E: ReplayEngine>(
    segment: LogSegment,
    engine: E,
    base: Version,
    seed: Option<FileSizeHistogram>,
    safe_operations: Vec<String>,
    r: DeltaResult<CrcDelta>,
    domain: Seq<char>,
    app: Seq<char>,
)
    requires
        call_ensures(
            LogSegment::build_incremental_crc_delta::<E>,
            (&segment, &engine, base, seed, safe_operations),
            r,
        ),
        r is Ok,
    ensures
        base < segment.end_version,
        goes_on_after(segment.ascending_commit_files@, base),
        exists|batches: Seq<DeltaResult<ColumnBatch>>| #[trigger]
            come_from_the_log(&engine, segment, base, batches) && gathers(
                r->Ok_0@,
                batch_views(batches),
                domain,
                app,
            ),
{
    let batches = lemma_delta_comes_from_the_log(
        &engine,
        segment,
        base,
        crate::crc::histogram_view(seed),
        texts(safe_operations@),
        r->Ok_0@,
        domain,
        app,
    );
    assert(come_from_the_log(&engine, segment, base, batches));
}

/// A checksum that was advanced is at the last version of the segment, and says what follows from the base and from what
/// the rows of the commits above it say. The histogram begins empty, with the bins of the base.
pub proof fn law_advanced_checksum_follows<E: ReplayEngine>(
    segment: LogSegment,
    engine: E,
    base: Crc,
    safe_operations: Vec<String>,
    r: DeltaResult<Crc>,
    domain: Seq<char>,
    app: Seq<char>,
)
    requires
        call_ensures(
            LogSegment::build_incremental_crc_from_base::<E>,
            (&segment, &engine, base, safe_operations),
            r,
        ),
        r is Ok,
    ensures
        base.version < segment.end_version,
        goes_on_after(segment.ascending_commit_files@, base.version),
        exists|batches: Seq<DeltaResult<ColumnBatch>>, change: CrcDeltaView| #[trigger]
            come_from_the_log(&engine, segment, base.version, batches) && #[trigger] gathers(
                change,
                batch_views(batches),
                domain,
                app,
            ) && follows(base@, change, segment.end_version, r->Ok_0@)
                && exists|seed: Option<HistogramView>| #[trigger]
                is_empty_like(seed, base@.file_stats) && replayed(
                    batch_views(batches),
                    seed,
                    texts(safe_operations@),
                ) == Ok::<CrcDeltaView, ErrorView>(change),
{
    let safe = texts(safe_operations@);
    let seed = crate::log_segment::seed_of(base@);
    assert(advances_base(&engine, segment, base@, safe, Ok(r->Ok_0@)));
    let delta = choose|delta: Result<CrcDeltaView, ErrorView>| #[trigger]
        builds_delta(&engine, segment, base@.version, seed, safe, delta) && Ok::<
            CrcView,
            ErrorView,
        >(r->Ok_0@) == match delta {
            Ok(delta) => Ok::<CrcView, ErrorView>(base@.apply(delta, segment.end_version)),
            Err(e) => Err(e),
        };
    let change = delta->Ok_0;
    let batches = lemma_delta_comes_from_the_log(
        &engine,
        segment,
        base.version,
        seed,
        safe,
        change,
        domain,
        app,
    );
    law_change_leads_to_what_follows(base@, change, segment.end_version);
    assert(is_empty_like(seed, base@.file_stats));
    assert(come_from_the_log(&engine, segment, base.version, batches));
    assert(gathers(change, batch_views(batches), domain, app));
}

/// Is it a histogram without files with the bins of the table's, or none where the table has none?
pub open spec fn is_empty_like(seed: Option<HistogramView>, stats: FileStatsView) -> bool {
    match stats {
        FileStatsView::Complete { histogram: Some(h), .. } => {
            &&& seed is Some
            &&& seed->0.boundaries == h.boundaries
            &&& seed->0.file_counts.len() == h.boundaries.len()
            &&& seed->0.total_bytes.len() == h.boundaries.len()
            &&& forall|i: int| 0 <= i < h.boundaries.len() ==> #[trigger] seed->0.file_counts[i] == 0
            &&& forall|i: int| 0 <= i < h.boundaries.len() ==> #[trigger] seed->0.total_bytes[i] == 0
        },
        _ => seed is None,
    }
}

/// Without a base there is no checksum. A base at the last version is the checksum. An older one is advanced if the limit
/// permits that, and is of no use otherwise. A newer one is an error.
pub proof fn law_checksum_of_the_last_version<E: ReplayEngine>(
    segment: LogSegment,
    engine: E,
    in_memory: Option<Crc>,
    limit: IncrementalReplay,
    safe_operations: Vec<String>,
    r: DeltaResult<Option<Crc>>,
)
    requires
        call_ensures(
            LogSegment::try_build_incremental_crc_with_base::<E>,
            (&segment, &engine, in_memory, limit, safe_operations),
            r,
        ),
        segment.latest_crc_file is None,
    ensures
        in_memory is None ==> r is Ok && r->Ok_0 is None,
        in_memory is Some ==> {
            let base = in_memory->0;
            let permitted = match limit {
                IncrementalReplay::Disabled => false,
                IncrementalReplay::UpTo(n) => segment.end_version <= base.version + n,
                IncrementalReplay::Unlimited => true,
            };
            &&& base.version == segment.end_version ==> r is Ok && r->Ok_0 is Some && r->Ok_0->0@
                == base@
            &&& base.version > segment.end_version ==> r is Err
            &&& base.version < segment.end_version && !permitted ==> r is Ok && r->Ok_0 is None
            &&& base.version < segment.end_version && permitted && r is Ok ==> r->Ok_0 is Some
                && r->Ok_0->0.version == segment.end_version
        },
{
    let safe = texts(safe_operations@);
    let base = choose|base: Option<Crc>| #[trigger]
        crate::log_segment::picks_base(&engine, segment, in_memory, base)
            && crate::log_segment::builds_crc(
            &engine,
            segment,
            base,
            limit,
            safe,
            crate::log_segment::opt_crc_view(r),
        );
    assert(base == in_memory);
    if r is Ok && r->Ok_0 is Some {
        assert(r->Ok_0->0@.version == r->Ok_0->0.version);
    }
}

/// With a checksum file, and nothing in memory, it is that file, if it can be read, that is returned or advanced.
pub proof fn law_checksum_from_a_file<E: ReplayEngine>(
    segment: LogSegment,
    engine: E,
    limit: IncrementalReplay,
    safe_operations: Vec<String>,
    r: DeltaResult<Option<Crc>>,
)
    requires
        call_ensures(
            LogSegment::try_build_incremental_crc::<E>,
            (&segment, &engine, limit, safe_operations),
            r,
        ),
        segment.latest_crc_file is Some,
    ensures
        exists|read: Option<Crc>| #[trigger]
            call_ensures(E::read_crc_file, (&engine, &segment.latest_crc_file->0), read) && {
                let permitted = match limit {
                    IncrementalReplay::Disabled => false,
                    IncrementalReplay::UpTo(n) => segment.end_version <= read->0.version + n,
                    IncrementalReplay::Unlimited => true,
                };
                &&& read is None ==> r is Ok && r->Ok_0 is None
                &&& read is Some && read->0.version == segment.end_version ==> r is Ok
                    && r->Ok_0 is Some && r->Ok_0->0@ == read->0@
                &&& read is Some && read->0.version > segment.end_version ==> r is Err
                &&& read is Some && read->0.version < segment.end_version && !permitted ==> r is Ok
                    && r->Ok_0 is None
                &&& read is Some && read->0.version < segment.end_version && permitted && r is Ok
                    ==> r->Ok_0 is Some && r->Ok_0->0.version == segment.end_version
            },
{
    let safe = texts(safe_operations@);
    let none: Option<Crc> = None;
    let base = choose|base: Option<Crc>| #[trigger]
        crate::log_segment::picks_base(&engine, segment, none, base)
            && crate::log_segment::builds_crc(
            &engine,
            segment,
            base,
            limit,
            safe,
            crate::log_segment::opt_crc_view(r),
        );
    let read = choose|read: Option<Crc>| #[trigger]
        call_ensures(E::read_crc_file, (&engine, &segment.latest_crc_file->0), read) && base
            == match read {
            Some(crc) => Some(crc),
            None => none,
        };
    assert(call_ensures(E::read_crc_file, (&engine, &segment.latest_crc_file->0), read));
    if r is Ok && r->Ok_0 is Some {
        assert(r->Ok_0->0@.version == r->Ok_0->0.version);
    }
}

/// Has the schema a column at the path with values of the kind, which may be null or not?
pub open spec fn has_column(
    fields: Seq<FieldView>,
    path: Seq<Seq<char>>,
    kind: ValueKind,
    nullable: bool,
) -> bool {
    exists|leaf: FieldView| #[trigger]
        leads_to(fields, path, leaf) && leaf.data_type == type_of(kind) && leaf.nullable == nullable
}

proof fn lemma_action_column(
    fields: Seq<FieldView>,
    i: int,
    k: int,
    action: Seq<char>,
    name: Seq<char>,
    kind: ValueKind,
    nullable: bool,
)
    requires
        0 <= i < fields.len(),
        fields[i].name == action,
        fields[i].data_type is Struct,
        0 <= k < fields[i].data_type->Struct_0.len(),
        fields[i].data_type->Struct_0[k].name == name,
        fields[i].data_type->Struct_0[k].data_type == type_of(kind),
        fields[i].data_type->Struct_0[k].nullable == nullable,
    ensures
        has_column(fields, seq![action, name], kind, nullable),
{
    let path = seq![action, name];
    let inner = fields[i].data_type->Struct_0;
    let leaf = inner[k];
    assert(path.drop_first() =~= seq![name]);
    assert(leads_to(inner, seq![name], leaf));
    assert(leads_to(fields, path, leaf));
}

/// The schema with which commits are read has every column that a replay selects, with its type, and the file of the row.
/// What an action must have is not null in it. Each action itself may be missing.
pub proof fn law_replay_schema_has_the_columns(r: StructType)
    requires
        call_ensures(replay_schema, (), r),
    ensures
        has_column(r@, seq!["add"@, "size"@], ValueKind::Number, false),
        has_column(r@, seq!["remove"@, "path"@], ValueKind::Text, false),
        has_column(r@, seq!["remove"@, "size"@], ValueKind::Number, true),
        has_column(r@, seq!["protocol"@, "minReaderVersion"@], ValueKind::SmallNumber, false),
        has_column(r@, seq!["protocol"@, "minWriterVersion"@], ValueKind::SmallNumber, false),
        has_column(r@, seq!["protocol"@, "readerFeatures"@], ValueKind::TextList, true),
        has_column(r@, seq!["protocol"@, "writerFeatures"@], ValueKind::TextList, true),
        has_column(r@, seq!["metaData"@, "id"@], ValueKind::Text, false),
        has_column(r@, seq!["metaData"@, "name"@], ValueKind::Text, true),
        has_column(r@, seq!["metaData"@, "description"@], ValueKind::Text, true),
        has_column(r@, seq!["metaData"@, "schemaString"@], ValueKind::Text, false),
        has_column(r@, seq!["metaData"@, "partitionColumns"@], ValueKind::TextList, false),
        has_column(r@, seq!["metaData"@, "createdTime"@], ValueKind::Number, true),
        has_column(r@, seq!["metaData"@, "configuration"@], ValueKind::TextMap, false),
        has_column(r@, seq!["txn"@, "appId"@], ValueKind::Text, false),
        has_column(r@, seq!["txn"@, "version"@], ValueKind::Number, false),
        has_column(r@, seq!["txn"@, "lastUpdated"@], ValueKind::Number, true),
        has_column(r@, seq!["domainMetadata"@, "domain"@], ValueKind::Text, false),
        has_column(r@, seq!["domainMetadata"@, "configuration"@], ValueKind::Text, false),
        has_column(r@, seq!["domainMetadata"@, "removed"@], ValueKind::Truth, false),
        has_column(r@, seq!["commitInfo"@, "operation"@], ValueKind::Text, true),
        has_column(r@, seq!["commitInfo"@, "inCommitTimestamp"@], ValueKind::Number, true),
        has_column(r@, seq!["metaData"@, "format"@, "provider"@], ValueKind::Text, false),
        has_column(r@, seq!["metaData"@, "format"@, "options"@], ValueKind::TextMap, false),
        exists|leaf: FieldView| #[trigger]
            leads_to(r@, seq!["_file"@], leaf) && leaf.data_type == type_of(ValueKind::Text)
                && !leaf.nullable && leaf.metadata.contains_key("delta.metadataSpec"@)
                && leaf.metadata["delta.metadataSpec"@] == MetadataView::String("_file"@),
        forall|i: int|
            0 <= i < r@.len() && (#[trigger] r@[i]).data_type is Struct ==> r@[i].nullable,
        r@.len() == 8,
{
    assert(r@ == replay_schema_view());
    lemma_action_column(r@, 0, 0, "add"@, "size"@, ValueKind::Number, false);
    lemma_action_column(r@, 1, 0, "remove"@, "path"@, ValueKind::Text, false);
    lemma_action_column(r@, 1, 1, "remove"@, "size"@, ValueKind::Number, true);
    lemma_action_column(r@, 2, 0, "protocol"@, "minReaderVersion"@, ValueKind::SmallNumber, false);
    lemma_action_column(r@, 2, 1, "protocol"@, "minWriterVersion"@, ValueKind::SmallNumber, false);
    lemma_action_column(r@, 2, 2, "protocol"@, "readerFeatures"@, ValueKind::TextList, true);
    lemma_action_column(r@, 2, 3, "protocol"@, "writerFeatures"@, ValueKind::TextList, true);
    lemma_action_column(r@, 3, 0, "metaData"@, "id"@, ValueKind::Text, false);
    lemma_action_column(r@, 3, 1, "metaData"@, "name"@, ValueKind::Text, true);
    lemma_action_column(r@, 3, 2, "metaData"@, "description"@, ValueKind::Text, true);
    lemma_action_column(r@, 3, 4, "metaData"@, "schemaString"@, ValueKind::Text, false);
    lemma_action_column(r@, 3, 5, "metaData"@, "partitionColumns"@, ValueKind::TextList, false);
    lemma_action_column(r@, 3, 6, "metaData"@, "createdTime"@, ValueKind::Number, true);
    lemma_action_column(r@, 3, 7, "metaData"@, "configuration"@, ValueKind::TextMap, false);
    lemma_action_column(r@, 4, 0, "txn"@, "appId"@, ValueKind::Text, false);
    lemma_action_column(r@, 4, 1, "txn"@, "version"@, ValueKind::Number, false);
    lemma_action_column(r@, 4, 2, "txn"@, "lastUpdated"@, ValueKind::Number, true);
    lemma_action_column(r@, 5, 0, "domainMetadata"@, "domain"@, ValueKind::Text, false);
    lemma_action_column(r@, 5, 1, "domainMetadata"@, "configuration"@, ValueKind::Text, false);
    lemma_action_column(r@, 5, 2, "domainMetadata"@, "removed"@, ValueKind::Truth, false);
    lemma_action_column(r@, 6, 0, "commitInfo"@, "operation"@, ValueKind::Text, true);
    lemma_action_column(r@, 6, 1, "commitInfo"@, "inCommitTimestamp"@, ValueKind::Number, true);
    let format = r@[3].data_type->Struct_0[3];
    assert(format.name == "format"@);
    lemma_format_column(r@, 0, "provider"@, ValueKind::Text);
    lemma_format_column(r@, 1, "options"@, ValueKind::TextMap);
    assert(leads_to(r@, seq!["_file"@], r@[7]));
}

proof fn lemma_format_column(fields: Seq<FieldView>, k: int, name: Seq<char>, kind: ValueKind)
    requires
        fields.len() > 3,
        fields[3].name == "metaData"@,
        fields[3].data_type is Struct,
        fields[3].data_type->Struct_0.len() > 3,
        fields[3].data_type->Struct_0[3].name == "format"@,
        fields[3].data_type->Struct_0[3].data_type is Struct,
        0 <= k < fields[3].data_type->Struct_0[3].data_type->Struct_0.len(),
        fields[3].data_type->Struct_0[3].data_type->Struct_0[k].name == name,
        fields[3].data_type->Struct_0[3].data_type->Struct_0[k].data_type == type_of(kind),
        !fields[3].data_type->Struct_0[3].data_type->Struct_0[k].nullable,
    ensures
        has_column(fields, seq!["metaData"@, "format"@, name], kind, false),
{
    let path = seq!["metaData"@, "format"@, name];
    let action = fields[3].data_type->Struct_0;
    let inner = action[3].data_type->Struct_0;
    assert(path.drop_first() =~= seq!["format"@, name]);
    assert(path.drop_first().drop_first() =~= seq![name]);
    assert(leads_to(inner, seq![name], inner[k]));
    assert(leads_to(action, seq!["format"@, name], inner[k])) by {
        assert(seq!["format"@, name].drop_first() =~= seq![name]);
    }
    assert(leads_to(fields, path, inner[k]));
}

/// A replay that cannot begin says why: the base does not lie below the end, with both versions, or the commit above the base is missing, with its version and that of the lowest commit that is there.
pub proof fn law_replay_says_why_it_cannot_begin(
    segment: LogSegment,
    base: Version,
    r: DeltaResult<Vec<FileMeta>>,
)
    requires
        call_ensures(LogSegment::replay_files, (&segment, base), r),
    ensures
        base >= segment.end_version ==> r is Err && r->Err_0@ == ErrorView::InternalError(
            "build_incremental_crc_delta: base_version ("@ + crate::text::decimal(base as nat)
                + ") must be strictly less than end_version ("@ + crate::text::decimal(
                segment.end_version as nat,
            ) + ")"@,
        ),
        base < segment.end_version && r is Err && (forall|i: int|
            0 <= i < segment.ascending_commit_files@.len() ==> (
            #[trigger] segment.ascending_commit_files@[i]).version <= base) ==> r->Err_0@
            == ErrorView::InternalError(
            "build_incremental_crc_delta: segment is missing commit "@ + crate::text::decimal(
                (base + 1) as nat,
            ) + " (lowest commit above base_version is "@ + "None"@ + ")"@,
        ),
{
    if forall|i: int|
        0 <= i < segment.ascending_commit_files@.len() ==> (
        #[trigger] segment.ascending_commit_files@[i]).version <= base {
        lemma_none_above(segment.ascending_commit_files@, base);
    }
}

proof fn lemma_none_above(commits: Seq<LogFile>, base: Version)
    requires
        forall|i: int| 0 <= i < commits.len() ==> (#[trigger] commits[i]).version <= base,
    ensures
        first_above(commits, base) is None,
    decreases commits.len(),
{
    if commits.len() > 0 {
        let rest = commits.drop_last();
        assert forall|i: int| 0 <= i < rest.len() implies (#[trigger] rest[i]).version <= base by {
            assert(rest[i] == commits[i]);
        }
        assert(commits[commits.len() - 1].version <= base);
        lemma_none_above(rest, base);
    }
}

} // verus!
