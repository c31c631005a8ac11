//! Plan node operator kinds and their payloads.

use std::sync::Arc;

use vstd::prelude::*;

use crate::actions::FileMeta;
use crate::expressions::{ColumnName, ExpressionRef, Predicate, Scalar};
use crate::schema::StructType;

verus! {

/// A schema that is shared.
pub type SchemaRef = Arc<StructType>;

/// A predicate that is shared.
pub type PredicateRef = Arc<Predicate>;

/// Plan node operator kinds.
///
/// Output schemas are stored on the payload of the operators whose caller declares them; the others
/// pass the schema of an input through: `Filter` that of its input, `UnionAll` the common one of its
/// inputs, `SemiJoin` that of the probe input.
#[derive(Debug, Clone)]
pub enum NodeKind {
    // Source operators (0 inputs)
    ScanParquet(ScanParquet),
    ScanJson(ScanJson),
    Values(Values),
    // Unary operators (1 input)
    Project(Project),
    Filter(Filter),
    Load(Load),
    MaxByVersion(MaxByVersion),
    // Binary operators (2 inputs)
    SemiJoin(SemiJoin),
    // N-ary operators (variable inputs)
    UnionAll(UnionAll),
}

/// One file to scan, plus the values of the file-constant columns of the scan for this file, in the
/// order of those columns.
#[derive(Debug, Clone, PartialEq)]
pub struct ScanFile {
    pub meta: FileMeta,
    pub file_constants: Vec<Scalar>,
}

/// Reads Parquet `files` into row batches with exactly the columns of `schema`, in schema order. The
/// order of the rows is unspecified.
///
/// A column of `file_constant_columns` has the same value in every row of a file, the one in
/// `ScanFile::file_constants`.
#[derive(Debug, Clone)]
pub struct ScanParquet {
    pub files: Vec<ScanFile>,
    pub file_constant_columns: Vec<ColumnName>,
    pub schema: SchemaRef,
}

/// Reads newline-delimited JSON `files` into row batches with the columns of `schema`. The order of the
/// rows is unspecified. File-constant columns are those of [`ScanParquet`].
#[derive(Debug, Clone)]
pub struct ScanJson {
    pub files: Vec<ScanFile>,
    pub file_constant_columns: Vec<ColumnName>,
    pub schema: SchemaRef,
}

/// Inline literal rows. Each row has one value for each top-level field of `schema`, in field order.
#[derive(Debug, Clone)]
pub struct Values {
    pub schema: SchemaRef,
    pub rows: Vec<Vec<Scalar>>,
}

/// Projects the input through `expr` into rows of `schema`. `expr` is a struct constructor or a struct
/// patch whose fields match `schema`.
#[derive(Debug, Clone)]
pub struct Project {
    pub expr: ExpressionRef,
    pub schema: SchemaRef,
}

/// Keeps the input rows for which `predicate` is true.
#[derive(Debug, Clone)]
pub struct Filter {
    pub predicate: PredicateRef,
}

/// File formats that a [`Load`] can read.
#[derive(Debug, Clone, Copy, PartialEq, Eq, Structural)]
pub enum FileType {
    Parquet,
    Json,
}

/// The columns of an upstream row that locate and size a file.
#[derive(Debug, Clone, PartialEq, Eq)]
pub struct LoadColumnFileMeta {
    /// The path of the file; never null.
    pub path_column: ColumnName,
    /// The size of the file in bytes, a hint.
    pub file_size_column: ColumnName,
    /// The number of rows of the file, a hint.
    pub num_records_column: ColumnName,
}

/// Reads one data file for each upstream row. The path of the file is resolved against `base_url`; without
/// one, it is an absolute URL. The values of `file_constant_columns` are put on every row of the file. Rows
/// whose index is in the deletion vector of `dv_column` are dropped; null there means that none are.
#[derive(Debug, Clone)]
pub struct Load {
    pub schema: SchemaRef,
    pub file_type: FileType,
    /// The URL against which paths are resolved.
    pub base_url: Option<String>,
    pub file_constant_columns: Vec<ColumnName>,
    pub file_meta: LoadColumnFileMeta,
    pub dv_column: ColumnName,
}

/// Keeps, of each group, the input row with the greatest value of `version_column`, and of that row the
/// columns named in `schema`.
#[derive(Debug, Clone)]
pub struct MaxByVersion {
    pub group_by: Vec<ExpressionRef>,
    pub version_column: ColumnName,
    pub schema: SchemaRef,
}

/// Emits the probe rows that are present in the build side, or, where `inverted`, those that are not. The
/// inputs are `[probe, build]`.
#[derive(Debug, Clone)]
pub struct SemiJoin {
    pub inverted: bool,
    pub probe_keys: Vec<ColumnName>,
    pub build_keys: Vec<ColumnName>,
}

/// All rows of all inputs, which have the same schema, in any order.
#[derive(Debug, Clone)]
pub struct UnionAll;

impl ScanFile {
    /// A scan file without values for file-constant columns.
    pub fn new(meta: FileMeta) -> (r: ScanFile)
        ensures
            r.meta == meta,
            r.file_constants@.len() == 0,
    {
        ScanFile { meta, file_constants: Vec::new() }
    }
}

impl From<FileMeta> for ScanFile {
    /// A scan file without values for file-constant columns.
    fn from(meta: FileMeta) -> (r: Self)
        ensures
            r.meta == meta,
            r.file_constants@.len() == 0,
    {
        ScanFile::new(meta)
    }
}

/// Two empty vectors need not be one value, so what `from` returns is stated at `from` itself.
impl vstd::std_specs::convert::FromSpecImpl<FileMeta> for ScanFile {
    open spec fn obeys_from_spec() -> bool {
        false
    }

    open spec fn from_spec(meta: FileMeta) -> ScanFile {
        choose|file: ScanFile| file.meta == meta && #[trigger] file.file_constants@.len() == 0
    }
}

impl NodeKind {
    /// The name of the operator.
    pub open spec fn name(self) -> Seq<char> {
        match self {
            NodeKind::ScanParquet(_) => "ScanParquet"@,
            NodeKind::ScanJson(_) => "ScanJson"@,
            NodeKind::Values(_) => "Values"@,
            NodeKind::Project(_) => "Project"@,
            NodeKind::Filter(_) => "Filter"@,
            NodeKind::Load(_) => "Load"@,
            NodeKind::MaxByVersion(_) => "MaxByVersion"@,
            NodeKind::SemiJoin(_) => "SemiJoin"@,
            NodeKind::UnionAll(_) => "UnionAll"@,
        }
    }

    /// The name of the operator.
    pub fn as_text(&self) -> (r: &'static str)
        ensures
            r@ == self.name(),
    {
        match self {
            NodeKind::ScanParquet(_) => "ScanParquet",
            NodeKind::ScanJson(_) => "ScanJson",
            NodeKind::Values(_) => "Values",
            NodeKind::Project(_) => "Project",
            NodeKind::Filter(_) => "Filter",
            NodeKind::Load(_) => "Load",
            NodeKind::MaxByVersion(_) => "MaxByVersion",
            NodeKind::SemiJoin(_) => "SemiJoin",
            NodeKind::UnionAll(_) => "UnionAll",
        }
    }

    /// Can the operator have this number of inputs?
    pub open spec fn takes(self, inputs: nat) -> bool {
        match self {
            NodeKind::ScanParquet(_) => inputs == 0,
            NodeKind::ScanJson(_) => inputs == 0,
            NodeKind::Values(_) => inputs == 0,
            NodeKind::Project(_) => inputs == 1,
            NodeKind::Filter(_) => inputs == 1,
            NodeKind::Load(_) => inputs == 1,
            NodeKind::MaxByVersion(_) => inputs == 1,
            NodeKind::SemiJoin(_) => inputs == 2,
            NodeKind::UnionAll(_) => true,
        }
    }

    /// Does the payload keep its own promises? A scan has one value for each file-constant column of each
    /// file, and literal rows have one value for each field.
    pub open spec fn payload_fits(self) -> bool {
        match self {
            NodeKind::ScanParquet(scan) => constants_fit(
                scan.files@,
                scan.file_constant_columns@.len(),
            ),
            NodeKind::ScanJson(scan) => constants_fit(
                scan.files@,
                scan.file_constant_columns@.len(),
            ),
            NodeKind::Values(values) => forall|i: int|
                0 <= i < values.rows@.len() ==> (#[trigger] values.rows@[i])@.len()
                    == values.schema@.len(),
            _ => true,
        }
    }
}

/// Has each file one value for each file-constant column?
pub open spec fn constants_fit(files: Seq<ScanFile>, columns: nat) -> bool {
    forall|i: int| 0 <= i < files.len() ==> (#[trigger] files[i]).file_constants@.len() == columns
}

} // verus!
