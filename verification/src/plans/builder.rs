//! A builder of plans with one node.

use vstd::prelude::*;

use crate::actions::FileMeta;
use crate::error::DeltaResult;
use crate::plans::nodes::{NodeKind, ScanFile, ScanJson, ScanParquet, SchemaRef};
use crate::plans::plan::{Plan, PlanNode, RefId};

verus! {

/// Builds a plan with one node: a scan.
#[derive(Debug)]
pub struct QueryPlanBuilder {
    kind: NodeKind,
}

/// Are these scans of the files, in order, without values for file-constant columns?
pub open spec fn are_plain_scans(scans: Seq<ScanFile>, files: Seq<FileMeta>) -> bool {
    &&& scans.len() == files.len()
    &&& forall|i: int|
        0 <= i < files.len() ==> (#[trigger] scans[i]).meta == files[i]
            && scans[i].file_constants@.len() == 0
}

/// Is it a scan of JSON files with the columns of a schema?
pub open spec fn is_json_scan(kind: NodeKind, files: Seq<FileMeta>, schema: SchemaRef) -> bool {
    match kind {
        NodeKind::ScanJson(scan) => are_plain_scans(scan.files@, files)
            && scan.file_constant_columns@.len() == 0 && scan.schema == schema,
        _ => false,
    }
}

/// Is it a scan of Parquet files with the columns of a schema?
pub open spec fn is_parquet_scan(kind: NodeKind, files: Seq<FileMeta>, schema: SchemaRef) -> bool {
    match kind {
        NodeKind::ScanParquet(scan) => are_plain_scans(scan.files@, files)
            && scan.file_constant_columns@.len() == 0 && scan.schema == schema,
        _ => false,
    }
}

fn plain_scans(files: Vec<FileMeta>) -> (r: Vec<ScanFile>)
    ensures
        are_plain_scans(r@, files@),
{
    let mut out: Vec<ScanFile> = Vec::new();
    for file in iter: files
        invariant
            iter.seq() == files@,
            are_plain_scans(out@, files@.take(iter.index())),
    {
        let ghost before = out@;
        let ghost at = iter.index();
        out.push(ScanFile::new(file));
        proof {
            assert forall|i: int| 0 <= i < at + 1 implies (#[trigger] out@[i]).meta == files@.take(
                at + 1,
            )[i] && out@[i].file_constants@.len() == 0 by {
                if i < at {
                    assert(out@[i] == before[i]);
                    assert(files@.take(at)[i] == files@[i]);
                }
            }
        }
    }
    assert(files@.take(files@.len() as int) =~= files@);
    out
}

impl QueryPlanBuilder {
    /// The operator of the node.
    pub closed spec fn operator(self) -> NodeKind {
        self.kind
    }

    /// A scan of JSON files.
    pub fn scan_json(files: Vec<FileMeta>, schema: SchemaRef) -> (r: QueryPlanBuilder)
        ensures
            is_json_scan(r.operator(), files@, schema),
    {
        QueryPlanBuilder {
            kind: NodeKind::ScanJson(
                ScanJson { files: plain_scans(files), file_constant_columns: Vec::new(), schema },
            ),
        }
    }

    /// A scan of Parquet files.
    pub fn scan_parquet(files: Vec<FileMeta>, schema: SchemaRef) -> (r: QueryPlanBuilder)
        ensures
            is_parquet_scan(r.operator(), files@, schema),
    {
        QueryPlanBuilder {
            kind: NodeKind::ScanParquet(
                ScanParquet { files: plain_scans(files), file_constant_columns: Vec::new(), schema },
            ),
        }
    }

    /// The plan with the one node, whose output is `RefId(0)`.
    pub fn build(self) -> (r: DeltaResult<Plan>)
        ensures
            match r {
                Ok(plan) => is_single_node(plan, self.operator()),
                Err(_) => false,
            },
    {
        let mut nodes: Vec<PlanNode> = Vec::new();
        nodes.push(PlanNode { kind: self.kind, inputs: Vec::new(), output: RefId(0) });
        Ok(Plan { nodes })
    }
}

/// Is it the plan with one node, which reads nothing?
pub open spec fn is_single_node(plan: Plan, kind: NodeKind) -> bool {
    &&& plan.nodes@.len() == 1
    &&& plan.nodes@[0].kind == kind
    &&& plan.nodes@[0].inputs@.len() == 0
    &&& plan.nodes@[0].output == RefId(0)
}

/// A plan that the builder makes of a scan is well formed.
pub proof fn law_built_plan_is_well_formed(
    plan: Plan,
    kind: NodeKind,
    files: Seq<FileMeta>,
    schema: SchemaRef,
)
    requires
        is_single_node(plan, kind),
        is_json_scan(kind, files, schema) || is_parquet_scan(kind, files, schema),
    ensures
        plan.well_formed(),
{
}

} // verus!
