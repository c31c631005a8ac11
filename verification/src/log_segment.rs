//! The files of a log that lead to a version, and the checksum of that version.

use std::sync::Arc;

use vstd::prelude::*;

use crate::actions::{file_views, FileMeta, FileMetaView, Version};
use crate::crc::{
    histogram_view, Crc, CrcDelta, CrcDeltaView, CrcView, FileSizeHistogram, FileStatsState,
    FileStatsView, HistogramView,
};
use crate::columns::ColumnBatch;
use crate::crc_replay::{
    columns_are, replay_columns, CrcReplayAccumulator, CrcReplayVisitor, ReplayView,
};
use crate::engine::JsonHandler;
use crate::error::{DeltaResult, Error, ErrorView};
use crate::expressions::ColumnName;
use crate::plans::nodes::{PredicateRef, SchemaRef};
use crate::replay_rows::{batch_views, BatchView};
use crate::replay_schema::{replay_schema, replay_schema_view};
use crate::schema::DataType;
use crate::text::{decimal, decimal_text, texts};

verus! {

/// A file of the log that belongs to a version.
#[derive(Debug)]
pub struct LogFile {
    pub version: Version,
    pub location: FileMeta,
}

/// The files of a log that lead to a version.
#[derive(Debug)]
pub struct LogSegment {
    /// The version that the files lead to.
    pub end_version: Version,
    /// The commit files, from the oldest to the newest.
    pub ascending_commit_files: Vec<LogFile>,
    /// The newest checksum file.
    pub latest_crc_file: Option<LogFile>,
}

/// How many commits may be replayed to bring a checksum up to date.
#[derive(Debug, Clone, Copy, PartialEq, Eq, Structural)]
pub enum IncrementalReplay {
    /// None.
    Disabled,
    /// At most this many.
    UpTo(u64),
    /// Any number.
    Unlimited,
}

/// What reads the files of a log: a JSON handler that also reads checksum files, and that hands out the
/// columns of its batches.
pub trait ReplayEngine: JsonHandler {
    /// Reads a checksum file; None where it cannot be read.
    fn read_crc_file(&self, file: &LogFile) -> Option<Crc>;

    /// The columns with the given names and types out of a batch.
    fn select_columns(
        &self,
        data: &Self::Data,
        names: &Vec<ColumnName>,
        types: &Vec<DataType>,
    ) -> DeltaResult<ColumnBatch>;
}

/// The files above a version, from the newest to the oldest.
pub open spec fn newest_first(commits: Seq<LogFile>, base: Version) -> Seq<FileMetaView>
    decreases commits.len(),
{
    if commits.len() == 0 {
        Seq::empty()
    } else if commits.last().version > base {
        seq![commits.last().location@] + newest_first(commits.drop_last(), base)
    } else {
        newest_first(commits.drop_last(), base)
    }
}

/// The version of the first commit above a version.
pub open spec fn first_above(commits: Seq<LogFile>, base: Version) -> Option<Version>
    decreases commits.len(),
{
    if commits.len() == 0 {
        None
    } else {
        match first_above(commits.drop_last(), base) {
            Some(version) => Some(version),
            None => if commits.last().version > base {
                Some(commits.last().version)
            } else {
                None
            },
        }
    }
}

/// How an optional version is written in a message.
pub open spec fn opt_version_text(version: Option<Version>) -> Seq<char> {
    match version {
        Some(version) => "Some("@ + decimal(version as nat) + ")"@,
        None => "None"@,
    }
}

impl LogSegment {
    /// The files to replay above a base version, from the newest to the oldest. The base must be
    /// below the last version, and the commit after it must be there.
    pub open spec fn replay_plan(self, base: Version) -> Result<Seq<FileMetaView>, ErrorView> {
        let first = first_above(self.ascending_commit_files@, base);
        if base >= self.end_version {
            Err(
                ErrorView::InternalError(
                    "build_incremental_crc_delta: base_version ("@ + decimal(base as nat)
                        + ") must be strictly less than end_version ("@ + decimal(
                        self.end_version as nat,
                    ) + ")"@,
                ),
            )
        } else if first != Some((base + 1) as u64) {
            Err(
                ErrorView::InternalError(
                    "build_incremental_crc_delta: segment is missing commit "@ + decimal(
                        (base + 1) as nat,
                    ) + " (lowest commit above base_version is "@ + opt_version_text(first) + ")"@,
                ),
            )
        } else {
            Ok(newest_first(self.ascending_commit_files@, base))
        }
    }

    /// The checksum file that is worth reading: one newer than what is in memory.
    pub open spec fn preferred_crc_file(self, in_memory: Option<Version>) -> Option<LogFile> {
        match (self.latest_crc_file, in_memory) {
            (Some(file), Some(version)) => if file.version > version {
                Some(file)
            } else {
                None
            },
            (Some(file), None) => Some(file),
            (None, _) => None,
        }
    }
}

impl IncrementalReplay {
    /// May the commits between the two versions be replayed?
    pub open spec fn permits(self, base: Version, end: Version) -> bool {
        match self {
            IncrementalReplay::Disabled => false,
            IncrementalReplay::UpTo(limit) => end - base <= limit,
            IncrementalReplay::Unlimited => true,
        }
    }

    /// May the commits between the two versions be replayed?
    pub fn should_advance(&self, base: Version, end: Version) -> (r: DeltaResult<bool>)
        ensures
            match r {
                Ok(permitted) => base <= end && permitted == self.permits(base, end),
                Err(e) => base > end && e@ == newer_base_error(),
            },
    {
        if base > end {
            return Err(Error::internal_error("Base checksum is newer than the log".to_owned()));
        }
        Ok(
            match self {
                IncrementalReplay::Disabled => false,
                IncrementalReplay::UpTo(limit) => end - base <= *limit,
                IncrementalReplay::Unlimited => true,
            },
        )
    }
}

/// The error for a base that lies above the log.
pub open spec fn newer_base_error() -> ErrorView {
    ErrorView::InternalError("Base checksum is newer than the log"@)
}

/// The change that the batches of a replay make.
pub open spec fn replayed(
    batches: Seq<Result<BatchView, ErrorView>>,
    seed_histogram: Option<HistogramView>,
    safe_operations: Seq<Seq<char>>,
) -> Result<CrcDeltaView, ErrorView> {
    match ReplayView::start(seed_histogram, safe_operations).batches(batches) {
        Err(e) => Err(e),
        Ok(state) => Ok(state.commit_end().delta),
    }
}

/// A result by what its value or error says.
pub open spec fn delta_view(r: DeltaResult<CrcDelta>) -> Result<CrcDeltaView, ErrorView> {
    match r {
        Ok(delta) => Ok(delta@),
        Err(e) => Err(e@),
    }
}

/// Is it what the engine returned for the columns that a replay reads of a batch? A batch that could not be
/// had is its error.
pub open spec fn selects<E: ReplayEngine>(
    engine: &E,
    data: DeltaResult<E::Data>,
    batch: DeltaResult<ColumnBatch>,
) -> bool {
    match data {
        Err(e) => batch is Err && batch->Err_0 == e,
        Ok(data) => exists|names: Vec<ColumnName>, types: Vec<DataType>| #[trigger]
            call_ensures(E::select_columns, (engine, &data, &names, &types), batch) && columns_are(
                names@,
                types@,
                replay_columns(),
            ),
    }
}

/// Are these what the engine returned for the columns of the batches, one for one?
pub open spec fn selects_all<E: ReplayEngine>(
    engine: &E,
    data: Seq<DeltaResult<E::Data>>,
    batches: Seq<DeltaResult<ColumnBatch>>,
) -> bool {
    &&& batches.len() == data.len()
    &&& forall|i: int| 0 <= i < data.len() ==> selects(engine, data[i], #[trigger] batches[i])
}

/// Some selection of columns out of what was read leads to this change.
pub open spec fn replays<E: ReplayEngine>(
    engine: &E,
    read: DeltaResult<Vec<DeltaResult<E::Data>>>,
    seed_histogram: Option<HistogramView>,
    safe_operations: Seq<Seq<char>>,
    result: Result<CrcDeltaView, ErrorView>,
) -> bool {
    match read {
        Err(e) => result == Err::<CrcDeltaView, ErrorView>(e@),
        Ok(data) => exists|batches: Seq<DeltaResult<ColumnBatch>>| #[trigger]
            selects_all(engine, data@, batches) && result == replayed(
                batch_views(batches),
                seed_histogram,
                safe_operations,
            ),
    }
}

/// Some reading of the planned files, with the replay schema and without a predicate, leads to this change.
pub open spec fn builds_delta<E: ReplayEngine>(
    engine: &E,
    segment: LogSegment,
    base: Version,
    seed_histogram: Option<HistogramView>,
    safe_operations: Seq<Seq<char>>,
    result: Result<CrcDeltaView, ErrorView>,
) -> bool {
    match segment.replay_plan(base) {
        Err(e) => result == Err::<CrcDeltaView, ErrorView>(e),
        Ok(files) => exists|
            paths: Vec<FileMeta>,
            schema: SchemaRef,
            read: DeltaResult<Vec<DeltaResult<E::Data>>>,
        |
            file_views(paths@) == files && schema@ == replay_schema_view() && #[trigger] call_ensures(
                E::read_json_files,
                (engine, &paths, schema, None::<PredicateRef>),
                read,
            ) && replays(engine, read, seed_histogram, safe_operations, result),
    }
}

/// Folds the batches of a replay, from the newest commit to the oldest, into one change.
pub fn fold_batches(
    batches: Vec<DeltaResult<ColumnBatch>>,
    seed_histogram: Option<FileSizeHistogram>,
    safe_operations: Vec<String>,
) -> (r: DeltaResult<CrcDelta>)
    ensures
        delta_view(r) == replayed(
            batch_views(batches@),
            histogram_view(seed_histogram),
            texts(safe_operations@),
        ),
{
    let ghost start = ReplayView::start(histogram_view(seed_histogram), texts(safe_operations@));
    let ghost all = batch_views(batches@);
    let mut visitor = CrcReplayVisitor {
        acc: CrcReplayAccumulator::new(seed_histogram, safe_operations),
    };
    for batch in iter: batches
        invariant
            iter.seq() == batches@,
            start.batches(all.take(iter.index())) == Ok::<ReplayView, ErrorView>(visitor.acc@),
            start == ReplayView::start(histogram_view(seed_histogram), texts(safe_operations@)),
            all == batch_views(batches@),
    {
        let ghost at = iter.index();
        proof {
            assert(all.take(at + 1).drop_last() =~= all.take(at));
            assert(all.take(at + 1).last() == all[at]);
        }
        let result = match batch {
            Ok(batch) => visitor.visit(batch.row_count(), batch.columns()),
            Err(e) => Err(e),
        };
        if let Err(e) = result {
            proof {
                lemma_batches_fail(start, all, at + 1);
            }
            return Err(e);
        }
    }
    assert(all.take(all.len() as int) =~= all);
    visitor.acc.process_commit_file_end();
    Ok(visitor.acc.into_crc_delta())
}

/// Takes the columns that a replay reads out of batches.
fn select_all<E: ReplayEngine>(engine: &E, data: Vec<DeltaResult<E::Data>>) -> (r: Vec<
    DeltaResult<ColumnBatch>,
>)
    ensures
        selects_all(engine, data@, r@),
{
    let visitor = CrcReplayVisitor { acc: CrcReplayAccumulator::new(None, Vec::new()) };
    let (names, types) = visitor.selected_column_names_and_types();
    let mut out: Vec<DeltaResult<ColumnBatch>> = Vec::new();
    for item in iter: data
        invariant
            iter.seq() == data@,
            columns_are(names@, types@, replay_columns()),
            selects_all(engine, data@.take(iter.index()), out@),
    {
        let ghost at = iter.index();
        let ghost before = out@;
        let batch = match item {
            Err(e) => Err(e),
            Ok(data) => {
                let batch = engine.select_columns(&data, &names, &types);
                assert(call_ensures(E::select_columns, (engine, &data, &names, &types), batch));
                batch
            },
        };
        out.push(batch);
        proof {
            assert forall|i: int| 0 <= i < at + 1 implies selects(
                engine,
                data@.take(at + 1)[i],
                #[trigger] out@[i],
            ) by {
                if i < at {
                    assert(out@[i] == before[i]);
                    assert(selects(engine, data@.take(at)[i], before[i]));
                }
            }
        }
    }
    assert(data@.take(data@.len() as int) =~= data@);
    out
}

/// A batch that fails is where the replay ends.
proof fn lemma_batches_fail(state: ReplayView, batches: Seq<Result<BatchView, ErrorView>>, n: int)
    requires
        0 <= n <= batches.len(),
        state.batches(batches.take(n)) is Err,
    ensures
        state.batches(batches) == state.batches(batches.take(n)),
    decreases batches.len(),
{
    if n == batches.len() {
        assert(batches.take(n) =~= batches);
    } else {
        assert(batches.drop_last().take(n) =~= batches.take(n));
        lemma_batches_fail(state, batches.drop_last(), n);
    }
}

fn opt_version(version: Option<Version>) -> (r: String)
    ensures
        r@ == opt_version_text(version),
{
    match version {
        Some(version) => {
            let mut out = "Some(".to_owned();
            out.append(decimal_text(version).as_str());
            out.append(")");
            out
        },
        None => "None".to_owned(),
    }
}

impl LogSegment {
    /// The commit files above `base_version`, from the newest to the oldest.
    pub fn replay_files(&self, base_version: Version) -> (r: DeltaResult<Vec<FileMeta>>)
        ensures
            match r {
                Ok(files) => self.replay_plan(base_version) == Ok::<Seq<FileMetaView>, ErrorView>(
                    file_views(files@),
                ),
                Err(e) => self.replay_plan(base_version) == Err::<Seq<FileMetaView>, ErrorView>(
                    e@,
                ),
            },
    {
        if base_version >= self.end_version {
            let mut message = "build_incremental_crc_delta: base_version (".to_owned();
            message.append(decimal_text(base_version).as_str());
            message.append(") must be strictly less than end_version (");
            message.append(decimal_text(self.end_version).as_str());
            message.append(")");
            return Err(Error::internal_error(message));
        }
        let commits = &self.ascending_commit_files;
        let mut files: Vec<FileMeta> = Vec::new();
        let mut first: Option<Version> = None;
        let mut i: usize = commits.len();
        assert(commits@.take(i as int) =~= commits@);
        assert(file_views(files@) =~= Seq::empty());
        while i > 0
            invariant
                i <= commits@.len(),
                file_views(files@) + newest_first(commits@.take(i as int), base_version)
                    == newest_first(commits@, base_version),
                first_above(commits@, base_version) == match first_above(
                    commits@.take(i as int),
                    base_version,
                ) {
                    Some(version) => Some(version),
                    None => first,
                },
            decreases i,
        {
            let ghost before = files@;
            i -= 1;
            assert(commits@.take(i + 1).drop_last() =~= commits@.take(i as int));
            if commits[i].version > base_version {
                files.push(commits[i].location.clone());
                first = Some(commits[i].version);
                proof {
                    let rest = newest_first(commits@.take(i as int), base_version);
                    assert(file_views(files@) =~= file_views(before).push(
                        commits@[i as int].location@,
                    ));
                    assert(file_views(files@) + rest =~= file_views(before) + (seq![
                        commits@[i as int].location@,
                    ] + rest));
                }
            }
        }
        assert(file_views(files@) + Seq::<FileMetaView>::empty() =~= file_views(files@));
        if first != Some(base_version + 1) {
            let mut message = "build_incremental_crc_delta: segment is missing commit ".to_owned();
            message.append(decimal_text(base_version + 1).as_str());
            message.append(" (lowest commit above base_version is ");
            message.append(opt_version(first).as_str());
            message.append(")");
            return Err(Error::internal_error(message));
        }
        Ok(files)
    }

    /// The change over the commits above `base_version`, by reverse replay. A seed histogram,
    /// which is empty, makes the replay track the histogram.
    pub fn build_incremental_crc_delta<E: ReplayEngine>(
        &self,
        engine: &E,
        base_version: Version,
        seed_histogram: Option<FileSizeHistogram>,
        safe_operations: Vec<String>,
    ) -> (r: DeltaResult<CrcDelta>)
        ensures
            builds_delta(
                engine,
                *self,
                base_version,
                histogram_view(seed_histogram),
                texts(safe_operations@),
                delta_view(r),
            ),
    {
        let files = match self.replay_files(base_version) {
            Ok(files) => files,
            Err(e) => {
                return Err(e);
            },
        };
        let schema = Arc::new(replay_schema());
        let read = engine.read_json_files(&files, schema, None);
        assert(call_ensures(
            E::read_json_files,
            (engine, &files, schema, None::<PredicateRef>),
            read,
        ));
        let ghost seed = histogram_view(seed_histogram);
        let ghost safe = texts(safe_operations@);
        let r = match read {
            Err(e) => Err(e),
            Ok(data) => {
                let batches = select_all(engine, data);
                assert(selects_all(engine, data@, batches@));
                fold_batches(batches, seed_histogram, safe_operations)
            },
        };
        assert(replays(engine, read, seed, safe, delta_view(r)));
        r
    }
}

/// The histogram with which a replay starts: an empty one with the bins of the base.
pub open spec fn seed_of(base: CrcView) -> Option<HistogramView> {
    match base.file_stats {
        FileStatsView::Complete { histogram: Some(histogram), .. } => Some(
            HistogramView::empty(histogram.boundaries),
        ),
        _ => None,
    }
}

/// A result by what its value or error says.
pub open spec fn crc_view(r: DeltaResult<Crc>) -> Result<CrcView, ErrorView> {
    match r {
        Ok(crc) => Ok(crc@),
        Err(e) => Err(e@),
    }
}

/// Some reading of the planned files leads from the base to this checksum.
pub open spec fn advances_base<E: ReplayEngine>(
    engine: &E,
    segment: LogSegment,
    base: CrcView,
    safe_operations: Seq<Seq<char>>,
    result: Result<CrcView, ErrorView>,
) -> bool {
    exists|delta: Result<CrcDeltaView, ErrorView>| #[trigger]
        builds_delta(engine, segment, base.version, seed_of(base), safe_operations, delta)
            && result == match delta {
            Ok(delta) => Ok(base.apply(delta, segment.end_version)),
            Err(e) => Err(e),
        }
}

/// Some reading of the preferred checksum file makes this the base. Where there is no such file or
/// it cannot be read, it is what is in memory.
pub open spec fn picks_base<E: ReplayEngine>(
    engine: &E,
    segment: LogSegment,
    in_memory_base: Option<Crc>,
    base: Option<Crc>,
) -> bool {
    let in_memory_version = match in_memory_base {
        Some(crc) => Some(crc.version),
        None => None,
    };
    match segment.preferred_crc_file(in_memory_version) {
        None => base == in_memory_base,
        Some(file) => reads_base(engine, file, in_memory_base, base),
    }
}

/// Some reading of the checksum file makes this the base.
pub open spec fn reads_base<E: ReplayEngine>(
    engine: &E,
    file: LogFile,
    in_memory_base: Option<Crc>,
    base: Option<Crc>,
) -> bool {
    exists|read: Option<Crc>| #[trigger]
        call_ensures(E::read_crc_file, (engine, &file), read) && base == match read {
            Some(crc) => Some(crc),
            None => in_memory_base,
        }
}

/// A result by what its value or error says.
pub open spec fn opt_crc_view(r: DeltaResult<Option<Crc>>) -> Result<Option<CrcView>, ErrorView> {
    match r {
        Ok(Some(crc)) => Ok(Some(crc@)),
        Ok(None) => Ok(None),
        Err(e) => Err(e@),
    }
}

/// The checksum at the last version of the segment, given the base: none without a base, the base
/// itself where it is at that version, and the advanced base where the replay is permitted.
pub open spec fn builds_crc<E: ReplayEngine>(
    engine: &E,
    segment: LogSegment,
    base: Option<Crc>,
    incremental_replay: IncrementalReplay,
    safe_operations: Seq<Seq<char>>,
    result: Result<Option<CrcView>, ErrorView>,
) -> bool {
    match base {
        None => result == Ok::<Option<CrcView>, ErrorView>(None),
        Some(base) => if base.version == segment.end_version {
            result == Ok::<Option<CrcView>, ErrorView>(Some(base@))
        } else if base.version > segment.end_version {
            result == Err::<Option<CrcView>, ErrorView>(newer_base_error())
        } else if !incremental_replay.permits(base.version, segment.end_version) {
            result == Ok::<Option<CrcView>, ErrorView>(None)
        } else {
            exists|advanced: Result<CrcView, ErrorView>| #[trigger]
                advances_base(engine, segment, base@, safe_operations, advanced) && result
                    == match advanced {
                    Ok(crc) => Ok(Some(crc)),
                    Err(e) => Err(e),
                }
        },
    }
}

impl LogSegment {
    /// The newest base: the checksum file, where it is newer than what is in memory and can be
    /// read, or else what is in memory.
    pub fn pick_latest_base_crc<E: ReplayEngine>(
        &self,
        engine: &E,
        in_memory_base: Option<Crc>,
    ) -> (r: Option<Crc>)
        ensures
            picks_base(engine, *self, in_memory_base, r),
    {
        let preferred = match (&self.latest_crc_file, &in_memory_base) {
            (Some(file), Some(crc)) => if file.version > crc.version {
                Some(file)
            } else {
                None
            },
            (Some(file), None) => Some(file),
            (None, _) => None,
        };
        match preferred {
            None => in_memory_base,
            Some(file) => {
                let read = engine.read_crc_file(file);
                assert(call_ensures(E::read_crc_file, (engine, file), read));
                let base = match read {
                    Some(crc) => Some(crc),
                    None => in_memory_base,
                };
                assert(reads_base(engine, *file, in_memory_base, base));
                base
            },
        }
    }

    /// The checksum at the last version, from a base at an earlier one.
    pub fn build_incremental_crc_from_base<E: ReplayEngine>(
        &self,
        engine: &E,
        base_crc: Crc,
        safe_operations: Vec<String>,
    ) -> (r: DeltaResult<Crc>)
        ensures
            advances_base(engine, *self, base_crc@, texts(safe_operations@), crc_view(r)),
    {
        let seed_histogram = match &base_crc.file_stats_state {
            FileStatsState::Complete(stats) => match &stats.file_size_histogram {
                Some(histogram) => {
                    let boundaries = histogram.boundaries_copy();
                    match FileSizeHistogram::create_empty_with_boundaries(boundaries) {
                        Ok(seed) => Some(seed),
                        Err(_) => None,
                    }
                },
                None => None,
            },
            FileStatsState::Indeterminate => None,
        };
        assert(histogram_view(seed_histogram) == seed_of(base_crc@));
        let delta = self.build_incremental_crc_delta(
            engine,
            base_crc.version,
            seed_histogram,
            safe_operations,
        );
        assert(builds_delta(
            engine,
            *self,
            base_crc@.version,
            seed_of(base_crc@),
            texts(safe_operations@),
            delta_view(delta),
        ));
        match delta {
            Ok(delta) => Ok(base_crc.apply(delta, self.end_version)),
            Err(e) => Err(e),
        }
    }

    /// Tries to build the checksum at the last version from the newest base, which is the given
    /// one or the checksum file of the segment.
    /// - Without a base, there is none.
    /// - A base at the last version is returned as it is.
    /// - An older base is advanced where `incremental_replay` permits; otherwise there is none.
    pub fn try_build_incremental_crc_with_base<E: ReplayEngine>(
        &self,
        engine: &E,
        in_memory_base: Option<Crc>,
        incremental_replay: IncrementalReplay,
        safe_operations: Vec<String>,
    ) -> (r: DeltaResult<Option<Crc>>)
        ensures
            exists|base: Option<Crc>| #[trigger]
                picks_base(engine, *self, in_memory_base, base) && builds_crc(
                    engine,
                    *self,
                    base,
                    incremental_replay,
                    texts(safe_operations@),
                    opt_crc_view(r),
                ),
    {
        let base = self.pick_latest_base_crc(engine, in_memory_base);
        assert(picks_base(engine, *self, in_memory_base, base));
        let base_crc = match base {
            Some(base_crc) => base_crc,
            None => {
                return Ok(None);
            },
        };
        if base_crc.version == self.end_version {
            return Ok(Some(base_crc));
        }
        match incremental_replay.should_advance(base_crc.version, self.end_version) {
            Err(e) => {
                return Err(e);
            },
            Ok(false) => {
                return Ok(None);
            },
            Ok(true) => {},
        }
        let advanced = self.build_incremental_crc_from_base(engine, base_crc, safe_operations);
        assert(advances_base(
            engine,
            *self,
            base_crc@,
            texts(safe_operations@),
            crc_view(advanced),
        ));
        match advanced {
            Ok(crc) => Ok(Some(crc)),
            Err(e) => Err(e),
        }
    }

    /// Tries to build the checksum at the last version from the checksum file of the segment.
    pub fn try_build_incremental_crc<E: ReplayEngine>(
        &self,
        engine: &E,
        incremental_replay: IncrementalReplay,
        safe_operations: Vec<String>,
    ) -> (r: DeltaResult<Option<Crc>>)
        ensures
            exists|base: Option<Crc>| #[trigger]
                picks_base(engine, *self, None, base) && builds_crc(
                    engine,
                    *self,
                    base,
                    incremental_replay,
                    texts(safe_operations@),
                    opt_crc_view(r),
                ),
    {
        self.try_build_incremental_crc_with_base(engine, None, incremental_replay, safe_operations)
    }
}

} // verus!
