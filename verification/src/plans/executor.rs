//! Carrying out plans with the handlers of an engine, and reading files with an executor of plans.

use std::sync::Arc;

use vstd::prelude::*;

use crate::actions::{file_views, FileMeta};
use crate::engine::{JsonHandler, ParquetHandler, ParseJson, PlanExecutor, StorageHandler};
use crate::error::{DeltaResult, Error, ErrorView};
use crate::plans::builder::{is_json_scan, is_single_node, QueryPlanBuilder};
use crate::plans::nodes::{NodeKind, PredicateRef, ScanFile, SchemaRef};
use crate::plans::plan::{Plan, PlanNode};
use crate::plans::result::{IoOperation, Operation, PlanResult};
use crate::text::{decimal, decimal_text, join2, join3};

verus! {

/// An executor that hands each operation to a storage, JSON or Parquet handler.
#[derive(Debug)]
pub struct SyncPlanExecutor<S, J, P> {
    pub storage: S,
    pub json: J,
    pub parquet: P,
}

/// The result with its value put into a variant of [`PlanResult`].
pub open spec fn wrapped<T, D>(
    r: DeltaResult<T>,
    variant: spec_fn(T) -> PlanResult<D>,
) -> DeltaResult<PlanResult<D>> {
    match r {
        Ok(value) => Ok(variant(value)),
        Err(e) => Err(e),
    }
}

/// A single file metadata entry.
pub open spec fn is_one_meta<D>(result: PlanResult<D>, meta: FileMeta) -> bool {
    match result {
        PlanResult::FileMeta(metas) => metas@ == seq![Ok::<FileMeta, Error>(meta)],
        _ => false,
    }
}

/// The files of scans.
pub open spec fn scanned_files(scans: Seq<ScanFile>) -> Seq<FileMeta> {
    Seq::new(scans.len(), |i: int| scans[i].meta)
}

fn files_of(scans: Vec<ScanFile>) -> (r: Vec<FileMeta>)
    ensures
        r@ == scanned_files(scans@),
{
    let mut out: Vec<FileMeta> = Vec::new();
    for scan in iter: scans
        invariant
            iter.seq() == scans@,
            out@ == scanned_files(scans@.take(iter.index())),
    {
        let ghost at = iter.index();
        out.push(scan.meta);
        assert(out@ =~= scanned_files(scans@.take(at + 1)));
    }
    assert(scans@.take(scans@.len() as int) =~= scans@);
    out
}

/// The node of a plan with one node, or an error for another plan.
pub fn into_single_node_plan(plan: Plan) -> (r: DeltaResult<PlanNode>)
    ensures
        match r {
            Ok(node) => plan.nodes@.len() == 1 && node == plan.nodes@[0],
            Err(e) => plan.nodes@.len() != 1 && e@ == single_node_error(plan.nodes@.len()),
        },
{
    let mut nodes = plan.nodes;
    if nodes.len() != 1 {
        return Err(
            Error::generic(
                join3(
                    "expected single-node plan, got ",
                    decimal_text(nodes.len() as u64).as_str(),
                    " nodes",
                ),
            ),
        );
    }
    Ok(nodes.pop().unwrap())
}

/// The error for a plan that has not one node.
pub open spec fn single_node_error(nodes: nat) -> ErrorView {
    ErrorView::Generic("expected single-node plan, got "@ + decimal(nodes) + " nodes"@)
}

impl<S: StorageHandler, J: JsonHandler, P: ParquetHandler<Data = J::Data>> SyncPlanExecutor<S, J, P> {
    /// Is it what a handler returned for the operation, in the variant that belongs to it?
    pub open spec fn io_outcome(self, op: IoOperation, r: DeltaResult<PlanResult<J::Data>>) -> bool {
        match op {
            IoOperation::FileListing { url } => exists|u: &str, listed| #[trigger]
                call_ensures(S::list_from, (&self.storage, u), listed) && u@ == url@ && r
                    == wrapped(listed, |v| PlanResult::<J::Data>::FileMeta(v)),
            IoOperation::ReadBytes { files } => exists|read| #[trigger]
                call_ensures(S::read_files, (&self.storage, files), read) && r == wrapped(
                    read,
                    |v| PlanResult::<J::Data>::Bytes(v),
                ),
            IoOperation::WriteBytes { url, data, overwrite } => exists|u: &str, put| #[trigger]
                call_ensures(S::put, (&self.storage, u, data, overwrite), put) && u@ == url@ && r
                    == wrapped(put, |v: ()| PlanResult::<J::Data>::Unit),
            IoOperation::HeadFile { url } => exists|u: &str, head| #[trigger]
                call_ensures(S::head, (&self.storage, u), head) && u@ == url@ && match (head, r) {
                    (Ok(meta), Ok(result)) => is_one_meta(result, meta),
                    (Err(e), Err(error)) => error == e,
                    _ => false,
                },
            IoOperation::AtomicCopy { source, destination } => exists|s: &str, d: &str, copied|
                #[trigger]
                call_ensures(S::copy_atomic, (&self.storage, s, d), copied) && s@ == source@ && d@
                    == destination@ && r == wrapped(copied, |v: ()| PlanResult::<J::Data>::Unit),
            IoOperation::ParquetFooter { file } => exists|footer| #[trigger]
                call_ensures(P::read_parquet_footer, (&self.parquet, &file), footer) && r
                    == wrapped(footer, |v| PlanResult::<J::Data>::ParquetFooter(v)),
        }
    }

    /// Is it what a handler returned for the scan? Only scans of JSON and Parquet files are supported.
    pub open spec fn query_outcome(self, query: Plan, r: DeltaResult<PlanResult<J::Data>>) -> bool {
        if query.nodes@.len() != 1 {
            r is Err && r->Err_0@ == single_node_error(query.nodes@.len())
        } else {
            self.scan_outcome(query.nodes@[0].kind, r)
        }
    }

    /// Is it what a handler returned for the scan?
    pub open spec fn scan_outcome(self, kind: NodeKind, r: DeltaResult<PlanResult<J::Data>>) -> bool {
        match kind {
            NodeKind::ScanJson(scan) => exists|files: Vec<FileMeta>, read| #[trigger]
                call_ensures(
                    J::read_json_files,
                    (&self.json, &files, scan.schema, None::<PredicateRef>),
                    read,
                ) && files@ == scanned_files(scan.files@) && r == wrapped(
                    read,
                    |v| PlanResult::<J::Data>::Data(v),
                ),
            NodeKind::ScanParquet(scan) => exists|files: Vec<FileMeta>, read| #[trigger]
                call_ensures(
                    P::read_parquet_files,
                    (&self.parquet, &files, scan.schema, None::<PredicateRef>),
                    read,
                ) && files@ == scanned_files(scan.files@) && r == wrapped(
                    read,
                    |v| PlanResult::<J::Data>::Data(v),
                ),
            other => r is Err && r->Err_0@ == ErrorView::Generic(
                "SyncPlanExecutor only supports ScanJson / ScanParquet, got NodeKind::"@
                    + other.name(),
            ),
        }
    }

    /// Is it what a handler returned for the operation?
    pub open spec fn op_outcome(self, op: Operation, r: DeltaResult<PlanResult<J::Data>>) -> bool {
        match op {
            Operation::IoOperation(io_op) => self.io_outcome(io_op, r),
            Operation::QueryPlan(query) => self.query_outcome(query, r),
        }
    }

    /// Carries out an operation on files.
    pub fn execute_io(&self, op: IoOperation) -> (r: DeltaResult<PlanResult<J::Data>>)
        ensures
            self.io_outcome(op, r),
    {
        match op {
            IoOperation::FileListing { url } => {
                let listed = self.storage.list_from(url.as_str());
                match listed {
                    Ok(metas) => Ok(PlanResult::FileMeta(metas)),
                    Err(e) => Err(e),
                }
            },
            IoOperation::ReadBytes { files } => match self.storage.read_files(files) {
                Ok(buffers) => Ok(PlanResult::Bytes(buffers)),
                Err(e) => Err(e),
            },
            IoOperation::WriteBytes { url, data, overwrite } => match self.storage.put(
                url.as_str(),
                data,
                overwrite,
            ) {
                Ok(_) => Ok(PlanResult::Unit),
                Err(e) => Err(e),
            },
            IoOperation::HeadFile { url } => match self.storage.head(url.as_str()) {
                Ok(meta) => {
                    let mut metas: Vec<DeltaResult<FileMeta>> = Vec::new();
                    metas.push(Ok(meta));
                    assert(metas@ =~= seq![Ok::<FileMeta, Error>(meta)]);
                    Ok(PlanResult::FileMeta(metas))
                },
                Err(e) => Err(e),
            },
            IoOperation::AtomicCopy { source, destination } => match self.storage.copy_atomic(
                source.as_str(),
                destination.as_str(),
            ) {
                Ok(_) => Ok(PlanResult::Unit),
                Err(e) => Err(e),
            },
            IoOperation::ParquetFooter { file } => match self.parquet.read_parquet_footer(&file) {
                Ok(footer) => Ok(PlanResult::ParquetFooter(footer)),
                Err(e) => Err(e),
            },
        }
    }

    /// Carries out a plan, which must have one node: a scan.
    pub fn execute_query(&self, query: Plan) -> (r: DeltaResult<PlanResult<J::Data>>)
        ensures
            self.query_outcome(query, r),
    {
        let node = match into_single_node_plan(query) {
            Ok(node) => node,
            Err(e) => {
                return Err(e);
            },
        };
        match node.kind {
            NodeKind::ScanJson(scan) => {
                let files = files_of(scan.files);
                match self.json.read_json_files(&files, scan.schema, None) {
                    Ok(batches) => Ok(PlanResult::Data(batches)),
                    Err(e) => Err(e),
                }
            },
            NodeKind::ScanParquet(scan) => {
                let files = files_of(scan.files);
                match self.parquet.read_parquet_files(&files, scan.schema, None) {
                    Ok(batches) => Ok(PlanResult::Data(batches)),
                    Err(e) => Err(e),
                }
            },
            other => Err(
                Error::generic(
                    join2(
                        "SyncPlanExecutor only supports ScanJson / ScanParquet, got NodeKind::",
                        other.as_text(),
                    ),
                ),
            ),
        }
    }
}

impl<S: StorageHandler, J: JsonHandler, P: ParquetHandler<Data = J::Data>> PlanExecutor for SyncPlanExecutor<
    S,
    J,
    P,
> {
    type Data = J::Data;

    /// Carries out an operation.
    fn execute_op(&self, op: Operation) -> (r: DeltaResult<PlanResult<J::Data>>)
        ensures
            self.op_outcome(op, r),
    {
        match op {
            Operation::IoOperation(io_op) => self.execute_io(io_op),
            Operation::QueryPlan(query) => self.execute_query(query),
        }
    }
}

/// Reads JSON files with an executor of plans.
#[derive(Debug)]
pub struct PlanBasedJsonHandler<X> {
    pub executor: Arc<X>,
}

/// Is it the operation that scans the JSON files with the columns of the schema?
pub open spec fn is_json_scan_op(op: Operation, files: Seq<FileMeta>, schema: SchemaRef) -> bool {
    match op {
        Operation::QueryPlan(plan) => exists|kind: NodeKind, copies: Seq<FileMeta>| #[trigger]
            is_json_scan(kind, copies, schema) && file_views(copies) == file_views(files)
                && is_single_node(plan, kind),
        Operation::IoOperation(_) => false,
    }
}

impl<X: PlanExecutor> PlanBasedJsonHandler<X> {
    /// A handler that reads with the given executor.
    pub fn new(plan_executor: Arc<X>) -> (r: Self)
        ensures
            r.executor == plan_executor,
    {
        PlanBasedJsonHandler { executor: plan_executor }
    }
}

/// Is it what the executor's result gives: its batches, its error, or an error for another result?
pub open spec fn data_outcome<D>(
    result: DeltaResult<PlanResult<D>>,
    r: DeltaResult<Vec<DeltaResult<D>>>,
) -> bool {
    match (result, r) {
        (Err(e), Err(error)) => error == e,
        (Ok(PlanResult::Data(batches)), Ok(read)) => read == batches,
        (Ok(other), Err(error)) => other !is Data && error@ == other.mismatch("Data"@),
        _ => false,
    }
}

impl<X: PlanExecutor> JsonHandler for PlanBasedJsonHandler<X> where X::Data: ParseJson {
    type Data = X::Data;

    /// Parses a batch of JSON strings.
    fn parse_json(&self, json_strings: X::Data, output_schema: SchemaRef) -> (r: DeltaResult<
        X::Data,
    >)
        ensures
            call_ensures(<X::Data>::parse_json, (json_strings, output_schema), r),
    {
        <X::Data>::parse_json(json_strings, output_schema)
    }

    /// Reads JSON files with a plan that scans them. The predicate is not used.
    fn read_json_files(
        &self,
        files: &Vec<FileMeta>,
        physical_schema: SchemaRef,
        _predicate: Option<PredicateRef>,
    ) -> (r: DeltaResult<Vec<DeltaResult<X::Data>>>)
        ensures
            exists|op: Operation, result: DeltaResult<PlanResult<X::Data>>| #[trigger]
                call_ensures(X::execute_op, (&*self.executor, op), result) && is_json_scan_op(
                    op,
                    files@,
                    physical_schema,
                ) && data_outcome(result, r),
    {
        let copies = copy_files(files);
        let builder = QueryPlanBuilder::scan_json(copies, physical_schema);
        let ghost kind = builder.operator();
        let query = match builder.build() {
            Ok(query) => query,
            Err(e) => {
                return Err(e);
            },
        };
        let op = Operation::QueryPlan(query);
        assert(is_json_scan(kind, copies@, physical_schema));
        assert(is_json_scan_op(op, files@, physical_schema));
        let result = self.executor.execute_op(op);
        assert(call_ensures(X::execute_op, (&*self.executor, op), result));
        match result {
            Ok(result) => result.into_data(),
            Err(e) => Err(e),
        }
    }

    /// Writing is not supported.
    fn write_json_file(
        &self,
        _path: &str,
        _data: Vec<DeltaResult<X::Data>>,
        _overwrite: bool,
    ) -> (r: DeltaResult<()>)
        ensures
            r is Err,
            r->Err_0@ == ErrorView::Unsupported(
                "PlanBasedJsonHandler does not support write_json_file yet"@,
            ),
    {
        Err(
            Error::unsupported(
                "PlanBasedJsonHandler does not support write_json_file yet".to_owned(),
            ),
        )
    }
}

/// Reading JSON files through a plan, with an executor that hands it to a JSON handler, is reading copies of
/// them with that handler, without a predicate: whatever it returned comes out, batches or error.
pub proof fn law_reading_through_a_plan_is_reading<
    S: StorageHandler,
    J: JsonHandler,
    P: ParquetHandler<Data = J::Data>,
>(
    handler: PlanBasedJsonHandler<SyncPlanExecutor<S, J, P>>,
    files: Vec<FileMeta>,
    schema: SchemaRef,
    predicate: Option<PredicateRef>,
    r: DeltaResult<Vec<DeltaResult<J::Data>>>,
) where J::Data: ParseJson
    requires
        call_ensures(
            <PlanBasedJsonHandler<SyncPlanExecutor<S, J, P>> as JsonHandler>::read_json_files,
            (&handler, &files, schema, predicate),
            r,
        ),
    ensures
        exists|copies: Vec<FileMeta>| #[trigger]
            call_ensures(
                J::read_json_files,
                (&handler.executor.json, &copies, schema, None::<PredicateRef>),
                r,
            ) && file_views(copies@) == file_views(files@),
{
    let (op, result) = choose|op: Operation, result: DeltaResult<PlanResult<J::Data>>| #[trigger]
        call_ensures(
            <SyncPlanExecutor<S, J, P> as PlanExecutor>::execute_op,
            (&*handler.executor, op),
            result,
        ) && is_json_scan_op(op, files@, schema) && data_outcome(result, r);
    assert(handler.executor.op_outcome(op, result));
}

/// An engine that reads with an executor of plans. Expressions are evaluated elsewhere.
pub struct PlanBasedEngine<X, E> {
    executor: Arc<X>,
    evaluation: Arc<E>,
    json: Arc<PlanBasedJsonHandler<X>>,
}

impl<X, E> PlanBasedEngine<X, E> {
    /// The executor that the engine reads with.
    pub closed spec fn spec_executor(self) -> Arc<X> {
        self.executor
    }

    /// What evaluates expressions.
    pub closed spec fn spec_evaluation(self) -> Arc<E> {
        self.evaluation
    }

    /// All handlers share the executor.
    #[verifier::type_invariant]
    spec fn shares_executor(self) -> bool {
        self.json.executor == self.executor
    }
}

impl<X: PlanExecutor, E> PlanBasedEngine<X, E> {
    /// An engine that reads with the given executor.
    pub fn new(evaluation_handler: Arc<E>, plan_executor: Arc<X>) -> (r: Self)
        ensures
            r.spec_executor() == plan_executor,
            r.spec_evaluation() == evaluation_handler,
    {
        PlanBasedEngine {
            json: Arc::new(PlanBasedJsonHandler::new(plan_executor.clone())),
            evaluation: evaluation_handler,
            executor: plan_executor,
        }
    }

    /// What evaluates expressions.
    pub fn evaluation_handler(&self) -> (r: Arc<E>)
        ensures
            r == self.spec_evaluation(),
    {
        self.evaluation.clone()
    }

    /// What reads JSON files.
    pub fn json_handler(&self) -> (r: Arc<PlanBasedJsonHandler<X>>)
        ensures
            r.executor == self.spec_executor(),
    {
        proof {
            use_type_invariant(self);
        }
        self.json.clone()
    }

    /// What carries out plans.
    pub fn plan_executor(&self) -> (r: Arc<X>)
        ensures
            r == self.spec_executor(),
    {
        self.executor.clone()
    }
}

fn copy_files(files: &Vec<FileMeta>) -> (r: Vec<FileMeta>)
    ensures
        file_views(r@) == file_views(files@),
{
    let mut out: Vec<FileMeta> = Vec::new();
    let mut i: usize = 0;
    while i < files.len()
        invariant
            i <= files@.len(),
            out@.len() == i,
            forall|k: int| 0 <= k < i ==> (#[trigger] out@[k])@ == files@[k]@,
        decreases files@.len() - i,
    {
        out.push(files[i].clone());
        i += 1;
    }
    assert(file_views(out@) =~= file_views(files@));
    out
}

} // verus!
