//! What an engine provides: reading and writing files. Engines implement these traits.

use vstd::prelude::*;

use crate::actions::FileMeta;
use crate::error::DeltaResult;
use crate::plans::nodes::{PredicateRef, SchemaRef};
use crate::plans::result::{FileSlice, Operation, ParquetFooter, PlanResult};

verus! {

/// What lists, reads and writes files.
pub trait StorageHandler {
    /// Lists the files after a URL.
    fn list_from(&self, url: &str) -> DeltaResult<Vec<DeltaResult<FileMeta>>>;

    /// Reads parts of files.
    fn read_files(&self, files: Vec<FileSlice>) -> DeltaResult<Vec<DeltaResult<bytes::Bytes>>>;

    /// Writes a file.
    fn put(&self, url: &str, data: bytes::Bytes, overwrite: bool) -> DeltaResult<()>;

    /// Looks up one file.
    fn head(&self, url: &str) -> DeltaResult<FileMeta>;

    /// Copies a file, unless the destination exists.
    fn copy_atomic(&self, source: &str, destination: &str) -> DeltaResult<()>;
}

/// What reads, parses and writes JSON files.
pub trait JsonHandler {
    /// A batch of data.
    type Data;

    /// Parses a batch of JSON strings.
    fn parse_json(&self, json_strings: Self::Data, output_schema: SchemaRef) -> DeltaResult<
        Self::Data,
    >;

    /// Reads the columns of a schema out of JSON files.
    fn read_json_files(
        &self,
        files: &Vec<FileMeta>,
        physical_schema: SchemaRef,
        predicate: Option<PredicateRef>,
    ) -> DeltaResult<Vec<DeltaResult<Self::Data>>>;

    /// Writes data to a JSON file.
    fn write_json_file(
        &self,
        path: &str,
        data: Vec<DeltaResult<Self::Data>>,
        overwrite: bool,
    ) -> DeltaResult<()>;
}

/// A batch of data that can hold JSON strings.
pub trait ParseJson: Sized {
    /// Parses a batch of JSON strings into the columns of a schema.
    fn parse_json(json_strings: Self, output_schema: SchemaRef) -> DeltaResult<Self>;
}

/// What reads Parquet files.
pub trait ParquetHandler {
    /// A batch of data.
    type Data;

    /// Reads the columns of a schema out of Parquet files.
    fn read_parquet_files(
        &self,
        files: &Vec<FileMeta>,
        physical_schema: SchemaRef,
        predicate: Option<PredicateRef>,
    ) -> DeltaResult<Vec<DeltaResult<Self::Data>>>;

    /// Reads the footer of a Parquet file.
    fn read_parquet_footer(&self, file: &FileMeta) -> DeltaResult<ParquetFooter>;
}

/// What carries out plans.
pub trait PlanExecutor {
    /// A batch of data.
    type Data;

    /// Carries out an operation.
    fn execute_op(&self, op: Operation) -> DeltaResult<PlanResult<Self::Data>>;
}

} // verus!
