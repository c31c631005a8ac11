//! What plans ask for and what they give.

use vstd::prelude::*;

use crate::actions::FileMeta;
use crate::error::{DeltaResult, Error, ErrorView};
use crate::plans::nodes::SchemaRef;
use crate::plans::plan::Plan;

verus! {

/// The bytes of a file, which are carried as they are.
#[verifier::external_type_specification]
#[verifier::external_body]
pub struct ExBytes(bytes::Bytes);

/// A part of a file: its URL and the range of bytes, or all of it.
#[derive(Debug)]
pub struct FileSlice {
    pub url: String,
    pub range: Option<(u64, u64)>,
}

/// An operation on files.
#[derive(Debug)]
pub enum IoOperation {
    /// Lists the files after a URL.
    FileListing { url: String },
    /// Reads parts of files.
    ReadBytes { files: Vec<FileSlice> },
    /// Writes a file.
    WriteBytes { url: String, data: bytes::Bytes, overwrite: bool },
    /// Looks up one file.
    HeadFile { url: String },
    /// Copies a file, unless the destination exists.
    AtomicCopy { source: String, destination: String },
    /// Reads the footer of a Parquet file.
    ParquetFooter { file: FileMeta },
}

/// What an executor carries out.
#[derive(Debug)]
pub enum Operation {
    IoOperation(IoOperation),
    QueryPlan(Plan),
}

/// What is known of a Parquet file from its footer.
#[derive(Debug)]
pub struct ParquetFooter {
    pub schema: SchemaRef,
}

/// The result of an [`Operation`]. `D` is a batch of data.
#[derive(Debug)]
pub enum PlanResult<D> {
    /// Batches of data.
    Data(Vec<DeltaResult<D>>),
    /// File metadata entries.
    FileMeta(Vec<DeltaResult<FileMeta>>),
    /// Raw byte buffers.
    Bytes(Vec<DeltaResult<bytes::Bytes>>),
    /// What is known of a Parquet file.
    ParquetFooter(ParquetFooter),
    /// Completion without a value.
    Unit,
}

impl<D> PlanResult<D> {
    /// The name of the variant.
    pub open spec fn name(self) -> Seq<char> {
        match self {
            PlanResult::Data(_) => "Data"@,
            PlanResult::FileMeta(_) => "FileMeta"@,
            PlanResult::Bytes(_) => "Bytes"@,
            PlanResult::ParquetFooter(_) => "ParquetFooter"@,
            PlanResult::Unit => "Unit"@,
        }
    }

    /// The error for a result of another kind than the expected one.
    pub open spec fn mismatch(self, expected: Seq<char>) -> ErrorView {
        ErrorView::PlanResultTypeMismatch { expected, actual: self.name() }
    }

    fn variant_name(&self) -> (r: &'static str)
        ensures
            r@ == self.name(),
    {
        match self {
            PlanResult::Data(_) => "Data",
            PlanResult::FileMeta(_) => "FileMeta",
            PlanResult::Bytes(_) => "Bytes",
            PlanResult::ParquetFooter(_) => "ParquetFooter",
            PlanResult::Unit => "Unit",
        }
    }

    /// The error that reports this variant as the actual one.
    fn type_mismatch(&self, expected: &'static str) -> (r: Error)
        ensures
            r@ == self.mismatch(expected@),
    {
        Error::PlanResultTypeMismatch { expected, actual: self.variant_name() }
    }

    /// The batches of data; an error if the result is of another kind.
    pub fn into_data(self) -> (r: DeltaResult<Vec<DeltaResult<D>>>)
        ensures
            match r {
                Ok(batches) => self == PlanResult::<D>::Data(batches),
                Err(e) => self !is Data && e@ == self.mismatch("Data"@),
            },
    {
        match self {
            PlanResult::Data(batches) => Ok(batches),
            other => Err(other.type_mismatch("Data")),
        }
    }

    /// The file metadata entries; an error if the result is of another kind.
    pub fn into_file_meta(self) -> (r: DeltaResult<Vec<DeltaResult<FileMeta>>>)
        ensures
            match r {
                Ok(metas) => self == PlanResult::<D>::FileMeta(metas),
                Err(e) => self !is FileMeta && e@ == self.mismatch("FileMeta"@),
            },
    {
        match self {
            PlanResult::FileMeta(metas) => Ok(metas),
            other => Err(other.type_mismatch("FileMeta")),
        }
    }

    /// The byte buffers; an error if the result is of another kind.
    pub fn into_bytes(self) -> (r: DeltaResult<Vec<DeltaResult<bytes::Bytes>>>)
        ensures
            match r {
                Ok(buffers) => self == PlanResult::<D>::Bytes(buffers),
                Err(e) => self !is Bytes && e@ == self.mismatch("Bytes"@),
            },
    {
        match self {
            PlanResult::Bytes(buffers) => Ok(buffers),
            other => Err(other.type_mismatch("Bytes")),
        }
    }

    /// The Parquet footer; an error if the result is of another kind.
    pub fn into_parquet_footer(self) -> (r: DeltaResult<ParquetFooter>)
        ensures
            match r {
                Ok(footer) => self == PlanResult::<D>::ParquetFooter(footer),
                Err(e) => self !is ParquetFooter && e@ == self.mismatch("ParquetFooter"@),
            },
    {
        match self {
            PlanResult::ParquetFooter(footer) => Ok(footer),
            other => Err(other.type_mismatch("ParquetFooter")),
        }
    }

    /// Nothing; an error if the result is of another kind.
    pub fn into_unit(self) -> (r: DeltaResult<()>)
        ensures
            match r {
                Ok(_) => self is Unit,
                Err(e) => self !is Unit && e@ == self.mismatch("Unit"@),
            },
    {
        match self {
            PlanResult::Unit => Ok(()),
            other => Err(other.type_mismatch("Unit")),
        }
    }
}

} // verus!
