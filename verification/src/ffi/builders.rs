//! What an engine sets before an engine or a snapshot is built.

use vstd::prelude::*;

use crate::actions::Version;
use crate::error::DeltaResult;
use crate::string_map::StringMap;

verus! {

/// The threads of an engine. `None` leaves the number to the runtime.
#[derive(Debug, Clone, Copy, PartialEq, Eq)]
pub struct MultithreadedExecutorConfig {
    pub worker_threads: Option<usize>,
    pub max_blocking_threads: Option<usize>,
}

/// What is set on an engine before it is built.
#[derive(Debug)]
pub struct EngineBuilder {
    /// The location of the tables.
    pub url: String,
    /// The options of the storage.
    pub options: StringMap<String>,
    /// The threads, if there is to be more than one.
    pub multithreaded_executor_config: Option<MultithreadedExecutorConfig>,
}

impl EngineBuilder {
    /// Sets an option, in place of an earlier one of the same key.
    pub fn set_option(&mut self, key: String, val: String)
        ensures
            final(self).options@ == old(self).options@.insert(key@, val),
            final(self).url == old(self).url,
            final(self).multithreaded_executor_config == old(self).multithreaded_executor_config,
    {
        self.options.insert(key, val);
    }
}

/// A builder without options and with one thread, if the location is valid.
pub fn get_engine_builder(url: DeltaResult<String>) -> (r: DeltaResult<EngineBuilder>)
    ensures
        match (url, r) {
            (Ok(url), Ok(builder)) => builder.url == url && builder.options@ == Map::<
                Seq<char>,
                String,
            >::empty() && builder.multithreaded_executor_config is None,
            (Err(e), Err(error)) => error == e,
            _ => false,
        },
{
    match url {
        Ok(url) => Ok(
            EngineBuilder { url, options: StringMap::new(), multithreaded_executor_config: None },
        ),
        Err(e) => Err(e),
    }
}

/// Sets an option of a builder, if its key and its value are valid. The first of them that is not is
/// reported, and nothing is set.
pub fn set_builder_option(
    builder: &mut EngineBuilder,
    key: DeltaResult<String>,
    value: DeltaResult<String>,
) -> (r: DeltaResult<bool>)
    ensures
        final(builder).url == old(builder).url,
        final(builder).multithreaded_executor_config == old(builder).multithreaded_executor_config,
        match (key, value) {
            (Ok(k), Ok(v)) => r == Ok::<bool, crate::error::Error>(true) && final(builder).options@
                == old(builder).options@.insert(k@, v),
            (Ok(_), Err(e)) => r == Err::<bool, crate::error::Error>(e) && *final(builder) == *old(
                builder,
            ),
            (Err(e), _) => r == Err::<bool, crate::error::Error>(e) && *final(builder) == *old(
                builder,
            ),
        },
{
    let key = match key {
        Ok(key) => key,
        Err(e) => {
            return Err(e);
        },
    };
    let value = match value {
        Ok(value) => value,
        Err(e) => {
            return Err(e);
        },
    };
    builder.set_option(key, value);
    Ok(true)
}

/// A number of threads, of which 0 is left to the runtime.
pub open spec fn threads(n: usize) -> Option<usize> {
    if n == 0 {
        None
    } else {
        Some(n)
    }
}

/// Sets the threads of a builder. The number 0 leaves it to the runtime.
pub fn set_builder_with_multithreaded_executor(
    builder: &mut EngineBuilder,
    worker_threads: usize,
    max_blocking_threads: usize,
)
    ensures
        final(builder).url == old(builder).url,
        final(builder).options == old(builder).options,
        final(builder).multithreaded_executor_config == Some(
            MultithreadedExecutorConfig {
                worker_threads: threads(worker_threads),
                max_blocking_threads: threads(max_blocking_threads),
            },
        ),
{
    let worker_threads = if worker_threads != 0 {
        Some(worker_threads)
    } else {
        None
    };
    let max_blocking_threads = if max_blocking_threads != 0 {
        Some(max_blocking_threads)
    } else {
        None
    };
    builder.multithreaded_executor_config =
    Some(MultithreadedExecutorConfig { worker_threads, max_blocking_threads });
}

/// Where a snapshot comes from. `S` is a snapshot.
#[derive(Debug)]
pub enum FfiSnapshotBuilderSource<S> {
    /// The log of the table at a location.
    TableRoot(String),
    /// An earlier snapshot of the table.
    ExistingSnapshot(S),
}

/// What is set on a snapshot before it is built. `S` is a snapshot and `L` the path of a log file.
#[derive(Debug)]
pub struct FfiSnapshotBuilder<S, L> {
    pub source: FfiSnapshotBuilderSource<S>,
    pub version: Option<Version>,
    pub log_tail: Vec<L>,
    pub max_catalog_version: Option<Version>,
}

/// A snapshot builder that an engine holds and does not look inside.
#[derive(Debug)]
pub struct MutableFfiSnapshotBuilder<S, L>(pub Box<FfiSnapshotBuilder<S, L>>);

/// What is asked of a snapshot. Whatever is absent is not asked for.
#[derive(Debug)]
pub struct SnapshotRequest<S, L> {
    pub source: FfiSnapshotBuilderSource<S>,
    pub at_version: Option<Version>,
    pub with_log_tail: Option<Vec<L>>,
    pub with_max_catalog_version: Option<Version>,
}

/// A builder for the latest snapshot of a source.
pub fn make_snapshot_builder<S, L>(source: FfiSnapshotBuilderSource<S>) -> (r:
    MutableFfiSnapshotBuilder<S, L>)
    ensures
        r.0.source == source,
        r.0.version is None,
        r.0.log_tail@ == Seq::<L>::empty(),
        r.0.max_catalog_version is None,
{
    MutableFfiSnapshotBuilder(
        Box::new(
            FfiSnapshotBuilder {
                source,
                version: None,
                log_tail: Vec::new(),
                max_catalog_version: None,
            },
        ),
    )
}

/// A builder for the latest snapshot of the table at a location, if the location is valid.
pub fn get_snapshot_builder<S, L>(url: DeltaResult<String>) -> (r: DeltaResult<
    MutableFfiSnapshotBuilder<S, L>,
>)
    ensures
        match (url, r) {
            (Ok(url), Ok(builder)) => builder.0.source == FfiSnapshotBuilderSource::<S>::TableRoot(
                url,
            ) && builder.0.version is None && builder.0.log_tail@ == Seq::<L>::empty()
                && builder.0.max_catalog_version is None,
            (Err(e), Err(error)) => error == e,
            _ => false,
        },
{
    match url {
        Ok(url) => Ok(make_snapshot_builder(FfiSnapshotBuilderSource::TableRoot(url))),
        Err(e) => Err(e),
    }
}

/// A builder for the latest snapshot after an earlier one.
pub fn get_snapshot_builder_from<S, L>(prev_snapshot: S) -> (r: MutableFfiSnapshotBuilder<S, L>)
    ensures
        r.0.source == FfiSnapshotBuilderSource::ExistingSnapshot(prev_snapshot),
        r.0.version is None,
        r.0.log_tail@ == Seq::<L>::empty(),
        r.0.max_catalog_version is None,
{
    make_snapshot_builder(FfiSnapshotBuilderSource::ExistingSnapshot(prev_snapshot))
}

/// Sets the version of the snapshot.
pub fn snapshot_builder_set_version<S, L>(
    builder: &mut MutableFfiSnapshotBuilder<S, L>,
    version: Version,
)
    ensures
        final(builder).0.source == old(builder).0.source,
        final(builder).0.version == Some(version),
        final(builder).0.log_tail == old(builder).0.log_tail,
        final(builder).0.max_catalog_version == old(builder).0.max_catalog_version,
{
    builder.0.version = Some(version);
}

/// Sets the log files that the catalog knows of, if their paths are valid.
pub fn snapshot_builder_set_log_tail<S, L>(
    builder: &mut MutableFfiSnapshotBuilder<S, L>,
    log_tail: DeltaResult<Vec<L>>,
) -> (r: DeltaResult<bool>)
    ensures
        final(builder).0.source == old(builder).0.source,
        final(builder).0.version == old(builder).0.version,
        final(builder).0.max_catalog_version == old(builder).0.max_catalog_version,
        match log_tail {
            Ok(paths) => r == Ok::<bool, crate::error::Error>(true) && final(builder).0.log_tail
                == paths,
            Err(e) => r == Err::<bool, crate::error::Error>(e) && final(builder).0.log_tail == old(
                builder,
            ).0.log_tail,
        },
{
    match log_tail {
        Ok(paths) => {
            builder.0.log_tail = paths;
            Ok(true)
        },
        Err(e) => Err(e),
    }
}

/// Sets the latest version that the catalog has ratified.
pub fn snapshot_builder_set_max_catalog_version<S, L>(
    builder: &mut MutableFfiSnapshotBuilder<S, L>,
    max_catalog_version: Version,
)
    ensures
        final(builder).0.source == old(builder).0.source,
        final(builder).0.version == old(builder).0.version,
        final(builder).0.log_tail == old(builder).0.log_tail,
        final(builder).0.max_catalog_version == Some(max_catalog_version),
{
    builder.0.max_catalog_version = Some(max_catalog_version);
}

/// What the builder asks of the snapshot. An empty log tail is not asked for.
pub fn snapshot_builder_build<S, L>(builder: MutableFfiSnapshotBuilder<S, L>) -> (r:
    SnapshotRequest<S, L>)
    ensures
        r.source == builder.0.source,
        r.at_version == builder.0.version,
        r.with_log_tail == (if builder.0.log_tail@.len() == 0 {
            None
        } else {
            Some(builder.0.log_tail)
        }),
        r.with_max_catalog_version == builder.0.max_catalog_version,
{
    let builder = *builder.0;
    let with_log_tail = if builder.log_tail.len() == 0 {
        None
    } else {
        Some(builder.log_tail)
    };
    SnapshotRequest {
        source: builder.source,
        at_version: builder.version,
        with_log_tail,
        with_max_catalog_version: builder.max_catalog_version,
    }
}

} // verus!
