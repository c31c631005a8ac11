//! Each operation is carried out by one call of a handler, with what the operation says and nothing else.

use std::sync::Arc;

use vstd::prelude::*;

use crate::actions::FileMeta;
use crate::engine::{JsonHandler, ParquetHandler, ParseJson, PlanExecutor, StorageHandler};
use crate::error::{DeltaResult, Error, ErrorView};
use crate::plans::builder::QueryPlanBuilder;
use crate::plans::executor::{
    into_single_node_plan, PlanBasedEngine, PlanBasedJsonHandler, SyncPlanExecutor,
};
use crate::plans::nodes::{NodeKind, PredicateRef, ScanFile, SchemaRef};
use crate::plans::plan::{Plan, PlanNode, RefId};
use crate::plans::result::{FileSlice, IoOperation, Operation, ParquetFooter, PlanResult};

verus! {

/// Does an operation without a value end as the call of a handler did?
pub open spec fn ends_as<D>(called: DeltaResult<()>, r: DeltaResult<PlanResult<D>>) -> bool {
    match called {
        Ok(_) => r == Ok::<PlanResult<D>, Error>(PlanResult::Unit),
        Err(e) => r == Err::<PlanResult<D>, Error>(e),
    }
}

/// A file is written by one call of the storage handler, with the URL, the data and the permission to
/// overwrite of the operation. How that call ends is how the operation ends.
pub proof fn law_write_puts_what_it_says<
    S: StorageHandler,
    J: JsonHandler,
    P: ParquetHandler<Data = J::Data>,
>(
    executor: SyncPlanExecutor<S, J, P>,
    url: String,
    data: bytes::Bytes,
    overwrite: bool,
    r: DeltaResult<PlanResult<J::Data>>,
)
    requires
        call_ensures(
            <SyncPlanExecutor<S, J, P> as PlanExecutor>::execute_op,
            (
                &executor,
                Operation::IoOperation(IoOperation::WriteBytes { url, data, overwrite }),
            ),
            r,
        ),
    ensures
        exists|u: &str, put: DeltaResult<()>| #[trigger]
            call_ensures(S::put, (&executor.storage, u, data, overwrite), put) && u@ == url@
                && ends_as(put, r),
{
    let op = IoOperation::WriteBytes { url, data, overwrite };
    assert(executor.io_outcome(op, r));
    let (u, put) = choose|u: &str, put: DeltaResult<()>| #[trigger]
        call_ensures(S::put, (&executor.storage, u, data, overwrite), put) && u@ == url@ && r
            == crate::plans::executor::wrapped(put, |v: ()| PlanResult::<J::Data>::Unit);
    assert(call_ensures(S::put, (&executor.storage, u, data, overwrite), put));
    assert(ends_as(put, r));
}

/// A file is copied by one call of the storage handler, from the source to the destination.
pub proof fn law_copy_goes_from_source_to_destination<
    S: StorageHandler,
    J: JsonHandler,
    P: ParquetHandler<Data = J::Data>,
>(
    executor: SyncPlanExecutor<S, J, P>,
    source: String,
    destination: String,
    r: DeltaResult<PlanResult<J::Data>>,
)
    requires
        call_ensures(
            <SyncPlanExecutor<S, J, P> as PlanExecutor>::execute_op,
            (
                &executor,
                Operation::IoOperation(IoOperation::AtomicCopy { source, destination }),
            ),
            r,
        ),
    ensures
        exists|from: &str, to: &str, copied: DeltaResult<()>| #[trigger]
            call_ensures(S::copy_atomic, (&executor.storage, from, to), copied) && from@ == source@
                && to@ == destination@ && ends_as(copied, r),
{
    let op = IoOperation::AtomicCopy { source, destination };
    assert(executor.io_outcome(op, r));
    let (from, to, copied) = choose|from: &str, to: &str, copied: DeltaResult<()>| #[trigger]
        call_ensures(S::copy_atomic, (&executor.storage, from, to), copied) && from@ == source@
            && to@ == destination@ && r == crate::plans::executor::wrapped(
            copied,
            |v: ()| PlanResult::<J::Data>::Unit,
        );
    assert(call_ensures(S::copy_atomic, (&executor.storage, from, to), copied));
    assert(ends_as(copied, r));
}

/// Files are listed by one call of the storage handler. What it listed comes out, in its order.
pub proof fn law_listing_lists<
    S: StorageHandler,
    J: JsonHandler,
    P: ParquetHandler<Data = J::Data>,
>(
    executor: SyncPlanExecutor<S, J, P>,
    url: String,
    r: DeltaResult<PlanResult<J::Data>>,
)
    requires
        call_ensures(
            <SyncPlanExecutor<S, J, P> as PlanExecutor>::execute_op,
            (&executor, Operation::IoOperation(IoOperation::FileListing { url })),
            r,
        ),
    ensures
        exists|u: &str, listed: DeltaResult<Vec<DeltaResult<FileMeta>>>| #[trigger]
            call_ensures(S::list_from, (&executor.storage, u), listed) && u@ == url@
                && match listed {
                Ok(files) => r == Ok::<PlanResult<J::Data>, Error>(PlanResult::FileMeta(files)),
                Err(e) => r == Err::<PlanResult<J::Data>, Error>(e),
            },
{
    assert(executor.io_outcome(IoOperation::FileListing { url }, r));
}

/// A file is looked up by one call of the storage handler. The one file that it found comes out.
pub proof fn law_head_gives_the_one_file<
    S: StorageHandler,
    J: JsonHandler,
    P: ParquetHandler<Data = J::Data>,
>(
    executor: SyncPlanExecutor<S, J, P>,
    url: String,
    r: DeltaResult<PlanResult<J::Data>>,
)
    requires
        call_ensures(
            <SyncPlanExecutor<S, J, P> as PlanExecutor>::execute_op,
            (&executor, Operation::IoOperation(IoOperation::HeadFile { url })),
            r,
        ),
    ensures
        exists|u: &str, head: DeltaResult<FileMeta>| #[trigger]
            call_ensures(S::head, (&executor.storage, u), head) && u@ == url@ && match head {
                Ok(file) => match r {
                    Ok(PlanResult::FileMeta(files)) => files@.len() == 1 && files@[0] == Ok::<
                        FileMeta,
                        Error,
                    >(file),
                    _ => false,
                },
                Err(e) => r == Err::<PlanResult<J::Data>, Error>(e),
            },
{
    assert(executor.io_outcome(IoOperation::HeadFile { url }, r));
}

/// Parts of files are read by one call of the storage handler, with just those parts.
pub proof fn law_read_gives_the_parts<
    S: StorageHandler,
    J: JsonHandler,
    P: ParquetHandler<Data = J::Data>,
>(
    executor: SyncPlanExecutor<S, J, P>,
    files: Vec<FileSlice>,
    r: DeltaResult<PlanResult<J::Data>>,
)
    requires
        call_ensures(
            <SyncPlanExecutor<S, J, P> as PlanExecutor>::execute_op,
            (&executor, Operation::IoOperation(IoOperation::ReadBytes { files })),
            r,
        ),
    ensures
        exists|read: DeltaResult<Vec<DeltaResult<bytes::Bytes>>>| #[trigger]
            call_ensures(S::read_files, (&executor.storage, files), read) && match read {
                Ok(buffers) => r == Ok::<PlanResult<J::Data>, Error>(PlanResult::Bytes(buffers)),
                Err(e) => r == Err::<PlanResult<J::Data>, Error>(e),
            },
{
    assert(executor.io_outcome(IoOperation::ReadBytes { files }, r));
}

/// A footer is read by one call of the Parquet handler, of just that file.
pub proof fn law_footer_is_that_of_the_file<
    S: StorageHandler,
    J: JsonHandler,
    P: ParquetHandler<Data = J::Data>,
>(
    executor: SyncPlanExecutor<S, J, P>,
    file: FileMeta,
    r: DeltaResult<PlanResult<J::Data>>,
)
    requires
        call_ensures(
            <SyncPlanExecutor<S, J, P> as PlanExecutor>::execute_op,
            (&executor, Operation::IoOperation(IoOperation::ParquetFooter { file })),
            r,
        ),
    ensures
        exists|read: DeltaResult<ParquetFooter>| #[trigger]
            call_ensures(P::read_parquet_footer, (&executor.parquet, &file), read) && match read {
                Ok(footer) => r == Ok::<PlanResult<J::Data>, Error>(
                    PlanResult::ParquetFooter(footer),
                ),
                Err(e) => r == Err::<PlanResult<J::Data>, Error>(e),
            },
{
    assert(executor.io_outcome(IoOperation::ParquetFooter { file }, r));
}

/// Are these the files of the scans, in order?
pub open spec fn are_files_of(files: Seq<FileMeta>, scans: Seq<ScanFile>) -> bool {
    &&& files.len() == scans.len()
    &&& forall|i: int| 0 <= i < scans.len() ==> #[trigger] files[i] == scans[i].meta
}

/// Does a scan give the batches that were read, or the error of reading?
pub open spec fn gives_data<D>(
    read: DeltaResult<Vec<DeltaResult<D>>>,
    r: DeltaResult<PlanResult<D>>,
) -> bool {
    match read {
        Ok(batches) => r == Ok::<PlanResult<D>, Error>(PlanResult::Data(batches)),
        Err(e) => r == Err::<PlanResult<D>, Error>(e),
    }
}

/// A plan with one node is carried out: a scan of JSON files by the JSON handler and a scan of Parquet files
/// by the Parquet handler, each with all files of the scan in order, the schema of the scan and no predicate.
/// Any other operator, and any other number of nodes, is an error.
pub proof fn law_scans_read_their_files<
    S: StorageHandler,
    J: JsonHandler,
    P: ParquetHandler<Data = J::Data>,
>(
    executor: SyncPlanExecutor<S, J, P>,
    plan: Plan,
    r: DeltaResult<PlanResult<J::Data>>,
)
    requires
        call_ensures(
            <SyncPlanExecutor<S, J, P> as PlanExecutor>::execute_op,
            (&executor, Operation::QueryPlan(plan)),
            r,
        ),
    ensures
        plan.nodes@.len() != 1 ==> r is Err && r->Err_0@ is Generic,
        plan.nodes@.len() == 1 ==> match plan.nodes@[0].kind {
            NodeKind::ScanJson(scan) => exists|files: Vec<FileMeta>, read| #[trigger]
                call_ensures(
                    J::read_json_files,
                    (&executor.json, &files, scan.schema, None::<PredicateRef>),
                    read,
                ) && are_files_of(files@, scan.files@) && gives_data(read, r),
            NodeKind::ScanParquet(scan) => exists|files: Vec<FileMeta>, read| #[trigger]
                call_ensures(
                    P::read_parquet_files,
                    (&executor.parquet, &files, scan.schema, None::<PredicateRef>),
                    read,
                ) && are_files_of(files@, scan.files@) && gives_data(read, r),
            _ => r is Err && r->Err_0@ is Generic,
        },
{
    assert(executor.query_outcome(plan, r));
    if plan.nodes@.len() == 1 {
        assert(executor.scan_outcome(plan.nodes@[0].kind, r));
        match plan.nodes@[0].kind {
            NodeKind::ScanJson(scan) => {
                let (files, read) = choose|files: Vec<FileMeta>, read| #[trigger]
                    call_ensures(
                        J::read_json_files,
                        (&executor.json, &files, scan.schema, None::<PredicateRef>),
                        read,
                    ) && files@ == crate::plans::executor::scanned_files(scan.files@) && r
                        == crate::plans::executor::wrapped(
                        read,
                        |v| PlanResult::<J::Data>::Data(v),
                    );
                assert(are_files_of(files@, scan.files@));
                assert(gives_data(read, r));
            },
            NodeKind::ScanParquet(scan) => {
                let (files, read) = choose|files: Vec<FileMeta>, read| #[trigger]
                    call_ensures(
                        P::read_parquet_files,
                        (&executor.parquet, &files, scan.schema, None::<PredicateRef>),
                        read,
                    ) && files@ == crate::plans::executor::scanned_files(scan.files@) && r
                        == crate::plans::executor::wrapped(
                        read,
                        |v| PlanResult::<J::Data>::Data(v),
                    );
                assert(are_files_of(files@, scan.files@));
                assert(gives_data(read, r));
            },
            _ => {},
        }
    }
}

/// The one node of a plan is taken out of it as it is, and only a plan with one node has one.
pub proof fn law_single_node_is_taken_out(plan: Plan, r: DeltaResult<PlanNode>)
    requires
        call_ensures(into_single_node_plan, (plan,), r),
    ensures
        r is Ok <==> plan.nodes@.len() == 1,
        r is Ok ==> r->Ok_0 == plan.nodes@[0],
{
}

/// Is it a plan with one node that reads no other and whose output is the result?
pub open spec fn has_one_source(plan: Plan) -> bool {
    &&& plan.nodes@.len() == 1
    &&& plan.nodes@[0].inputs@.len() == 0
    &&& plan.nodes@[0].output == RefId(0)
}

/// A plan that is built for JSON files scans just those files, in order, with just that schema, and puts no
/// constants on their rows.
pub proof fn law_json_plan_scans_the_files(
    files: Vec<FileMeta>,
    schema: SchemaRef,
    builder: QueryPlanBuilder,
    r: DeltaResult<Plan>,
)
    requires
        call_ensures(QueryPlanBuilder::scan_json, (files, schema), builder),
        call_ensures(QueryPlanBuilder::build, (builder,), r),
    ensures
        r is Ok,
        has_one_source(r->Ok_0),
        match r->Ok_0.nodes@[0].kind {
            NodeKind::ScanJson(scan) => {
                &&& scan.schema == schema
                &&& scan.file_constant_columns@.len() == 0
                &&& are_files_of(files@, scan.files@)
                &&& forall|i: int|
                    0 <= i < scan.files@.len() ==> (
                    #[trigger] scan.files@[i]).file_constants@.len() == 0
            },
            _ => false,
        },
{
}

/// A plan that is built for Parquet files scans just those files, in order, with just that schema, and puts no
/// constants on their rows.
pub proof fn law_parquet_plan_scans_the_files(
    files: Vec<FileMeta>,
    schema: SchemaRef,
    builder: QueryPlanBuilder,
    r: DeltaResult<Plan>,
)
    requires
        call_ensures(QueryPlanBuilder::scan_parquet, (files, schema), builder),
        call_ensures(QueryPlanBuilder::build, (builder,), r),
    ensures
        r is Ok,
        has_one_source(r->Ok_0),
        match r->Ok_0.nodes@[0].kind {
            NodeKind::ScanParquet(scan) => {
                &&& scan.schema == schema
                &&& scan.file_constant_columns@.len() == 0
                &&& are_files_of(files@, scan.files@)
                &&& forall|i: int|
                    0 <= i < scan.files@.len() ==> (
                    #[trigger] scan.files@[i]).file_constants@.len() == 0
            },
            _ => false,
        },
{
}

/// The result of a plan is the output of its last node.
pub proof fn law_result_is_the_last_output(plan: Plan, r: Option<RefId>)
    requires
        call_ensures(Plan::result, (&plan,), r),
    ensures
        r is None <==> plan.nodes@.len() == 0,
        r is Some ==> r->0 == plan.nodes@[plan.nodes@.len() - 1].output,
{
}

/// A JSON file that is read through an executor is read by one plan, which scans files with the same
/// locations, times and sizes in the same order, with the same schema. Batches and errors come out as they
/// are, and a result that is no data is an error.
pub proof fn law_json_is_read_by_a_plan<X: PlanExecutor>(
    handler: PlanBasedJsonHandler<X>,
    files: Vec<FileMeta>,
    schema: SchemaRef,
    predicate: Option<PredicateRef>,
    r: DeltaResult<Vec<DeltaResult<X::Data>>>,
) where X::Data: ParseJson
    requires
        call_ensures(
            <PlanBasedJsonHandler<X> as JsonHandler>::read_json_files,
            (&handler, &files, schema, predicate),
            r,
        ),
    ensures
        exists|plan: Plan, result: DeltaResult<PlanResult<X::Data>>| #[trigger]
            call_ensures(X::execute_op, (&*handler.executor, Operation::QueryPlan(plan)), result)
                && scans_json(plan, files@, schema) && match result {
                Ok(PlanResult::Data(batches)) => r == Ok::<Vec<DeltaResult<X::Data>>, Error>(
                    batches,
                ),
                Ok(_) => r is Err,
                Err(e) => r == Err::<Vec<DeltaResult<X::Data>>, Error>(e),
            },
{
    let (op, result) = choose|op: Operation, result: DeltaResult<PlanResult<X::Data>>| #[trigger]
        call_ensures(X::execute_op, (&*handler.executor, op), result)
            && crate::plans::executor::is_json_scan_op(op, files@, schema)
            && crate::plans::executor::data_outcome(result, r);
    let plan = op->QueryPlan_0;
    let (kind, copies) = choose|kind: NodeKind, copies: Seq<FileMeta>| #[trigger]
        crate::plans::builder::is_json_scan(kind, copies, schema) && crate::actions::file_views(
            copies,
        ) == crate::actions::file_views(files@) && crate::plans::builder::is_single_node(plan, kind);
    crate::view_laws::law_views_tell_files(copies, files@);
    assert(scans_json(plan, files@, schema));
    assert(op == Operation::QueryPlan(plan));
}

/// Is it a plan with one node, a scan of JSON files like these with the schema?
pub open spec fn scans_json(plan: Plan, files: Seq<FileMeta>, schema: SchemaRef) -> bool {
    &&& has_one_source(plan)
    &&& match plan.nodes@[0].kind {
        NodeKind::ScanJson(scan) => {
            &&& scan.schema == schema
            &&& scan.file_constant_columns@.len() == 0
            &&& scan.files@.len() == files.len()
            &&& forall|i: int|
                0 <= i < files.len() ==> {
                    &&& (#[trigger] scan.files@[i]).meta.location@ == files[i].location@
                    &&& scan.files@[i].meta.last_modified == files[i].last_modified
                    &&& scan.files@[i].meta.size == files[i].size
                    &&& scan.files@[i].file_constants@.len() == 0
                }
        },
        _ => false,
    }
}

/// A result is unpacked as what it is, and only as that.
pub proof fn law_results_are_unpacked_as_they_are<D>(
    result: PlanResult<D>,
    data: DeltaResult<Vec<DeltaResult<D>>>,
    files: DeltaResult<Vec<DeltaResult<FileMeta>>>,
    buffers: DeltaResult<Vec<DeltaResult<bytes::Bytes>>>,
    footer: DeltaResult<ParquetFooter>,
    unit: DeltaResult<()>,
)
    requires
        call_ensures(PlanResult::<D>::into_data, (result,), data),
        call_ensures(PlanResult::<D>::into_file_meta, (result,), files),
        call_ensures(PlanResult::<D>::into_bytes, (result,), buffers),
        call_ensures(PlanResult::<D>::into_parquet_footer, (result,), footer),
        call_ensures(PlanResult::<D>::into_unit, (result,), unit),
    ensures
        data is Ok <==> result is Data,
        data is Ok ==> data->Ok_0 == result->Data_0,
        files is Ok <==> result is FileMeta,
        files is Ok ==> files->Ok_0 == result->FileMeta_0,
        buffers is Ok <==> result is Bytes,
        buffers is Ok ==> buffers->Ok_0 == result->Bytes_0,
        footer is Ok <==> result is ParquetFooter,
        footer is Ok ==> footer->Ok_0 == result->ParquetFooter_0,
        unit is Ok <==> result is Unit,
{
}

/// A result that is unpacked as another kind is an error that names both kinds.
pub proof fn law_mismatch_names_both_kinds<D>(
    result: PlanResult<D>,
    data: DeltaResult<Vec<DeltaResult<D>>>,
    files: DeltaResult<Vec<DeltaResult<FileMeta>>>,
    buffers: DeltaResult<Vec<DeltaResult<bytes::Bytes>>>,
    footer: DeltaResult<ParquetFooter>,
    unit: DeltaResult<()>,
)
    requires
        call_ensures(PlanResult::<D>::into_data, (result,), data),
        call_ensures(PlanResult::<D>::into_file_meta, (result,), files),
        call_ensures(PlanResult::<D>::into_bytes, (result,), buffers),
        call_ensures(PlanResult::<D>::into_parquet_footer, (result,), footer),
        call_ensures(PlanResult::<D>::into_unit, (result,), unit),
    ensures
        ({
            let actual = match result {
                PlanResult::Data(_) => "Data"@,
                PlanResult::FileMeta(_) => "FileMeta"@,
                PlanResult::Bytes(_) => "Bytes"@,
                PlanResult::ParquetFooter(_) => "ParquetFooter"@,
                PlanResult::Unit => "Unit"@,
            };
            &&& data is Err ==> data->Err_0@ == ErrorView::PlanResultTypeMismatch {
                expected: "Data"@,
                actual,
            }
            &&& files is Err ==> files->Err_0@ == ErrorView::PlanResultTypeMismatch {
                expected: "FileMeta"@,
                actual,
            }
            &&& buffers is Err ==> buffers->Err_0@ == ErrorView::PlanResultTypeMismatch {
                expected: "Bytes"@,
                actual,
            }
            &&& footer is Err ==> footer->Err_0@ == ErrorView::PlanResultTypeMismatch {
                expected: "ParquetFooter"@,
                actual,
            }
            &&& unit is Err ==> unit->Err_0@ == ErrorView::PlanResultTypeMismatch {
                expected: "Unit"@,
                actual,
            }
        }),
{
}

/// An engine carries out plans, reads JSON files and evaluates with what it was made of.
pub proof fn law_engine_uses_what_it_was_made_of<X: PlanExecutor, E>(
    evaluation: Arc<E>,
    executor: Arc<X>,
    engine: PlanBasedEngine<X, E>,
    json: Arc<PlanBasedJsonHandler<X>>,
    plans: Arc<X>,
    evaluates: Arc<E>,
)
    requires
        call_ensures(PlanBasedEngine::<X, E>::new, (evaluation, executor), engine),
        call_ensures(PlanBasedEngine::<X, E>::json_handler, (&engine,), json),
        call_ensures(PlanBasedEngine::<X, E>::plan_executor, (&engine,), plans),
        call_ensures(PlanBasedEngine::<X, E>::evaluation_handler, (&engine,), evaluates),
    ensures
        json.executor == executor,
        plans == executor,
        evaluates == evaluation,
{
}

} // verus!
