use std::sync::Arc;

use delta_kernel_core::actions::FileMeta;
use delta_kernel_core::engine::{
    JsonHandler, ParquetHandler, ParseJson, PlanExecutor, StorageHandler,
};
use delta_kernel_core::error::{DeltaResult, Error};
use delta_kernel_core::plans::builder::QueryPlanBuilder;
use delta_kernel_core::plans::executor::{
    into_single_node_plan, PlanBasedEngine, PlanBasedJsonHandler, SyncPlanExecutor,
};
use delta_kernel_core::plans::nodes::{NodeKind, PredicateRef, ScanFile, SchemaRef, UnionAll};
use delta_kernel_core::plans::plan::{Plan, PlanNode, RefId};
use delta_kernel_core::plans::result::{
    FileSlice, IoOperation, Operation, ParquetFooter, PlanResult,
};
use delta_kernel_core::schema::{DataType, PrimitiveType, StructField, StructType};

fn test_schema() -> SchemaRef {
    Arc::new(
        StructType::try_new(vec![StructField::not_null(
            "id",
            DataType::Primitive(PrimitiveType::Long),
        )])
        .unwrap(),
    )
}

fn test_file(path: &str) -> FileMeta {
    FileMeta { location: path.to_string(), last_modified: 0, size: 0 }
}

fn constructs_scan_node(json: bool, urls: &[&str]) {
    let schema = test_schema();
    let files: Vec<FileMeta> = urls.iter().map(|u| test_file(u)).collect();

    let builder = if json {
        QueryPlanBuilder::scan_json(files.clone(), schema.clone())
    } else {
        QueryPlanBuilder::scan_parquet(files.clone(), schema.clone())
    };
    let plan = builder.build().unwrap();

    let result = plan.result();
    let node = into_single_node_plan(plan).unwrap();
    assert_eq!(Some(node.output), result);
    let (scan_files, node_schema) = match node.kind {
        NodeKind::ScanJson(scan) if json => (scan.files, scan.schema),
        NodeKind::ScanParquet(scan) if !json => (scan.files, scan.schema),
        other => panic!("unexpected node {other:?}"),
    };
    let scan_metas: Vec<FileMeta> = scan_files.into_iter().map(|f| f.meta).collect();
    assert_eq!(format!("{scan_metas:?}"), format!("{files:?}"));
    assert!(Arc::ptr_eq(&node_schema, &schema));
}

#[test]
fn build_constructs_scan_node_json() {
    constructs_scan_node(true, &["file:///a.json", "file:///b.json"]);
}

#[test]
fn build_constructs_scan_node_parquet() {
    constructs_scan_node(false, &["file:///a.parquet", "file:///b.parquet"]);
}

#[test]
fn the_result_of_a_plan_is_the_output_of_its_last_node() {
    assert_eq!(Plan { nodes: vec![] }.result(), None);
    let node = |output| PlanNode {
        kind: NodeKind::UnionAll(UnionAll),
        inputs: vec![],
        output: RefId(output),
    };
    assert_eq!(Plan { nodes: vec![node(0), node(5)] }.result(), Some(RefId(5)));
}

#[test]
fn a_scan_file_has_no_constants() {
    let scan = ScanFile::new(test_file("file:///a"));
    assert_eq!(scan.meta.location, "file:///a");
    assert!(scan.file_constants.is_empty());

    let scan = ScanFile::from(test_file("file:///b"));
    assert_eq!(scan.meta.location, "file:///b");
    assert!(scan.file_constants.is_empty());
}

struct Storage;

impl StorageHandler for Storage {
    fn list_from(&self, url: &str) -> DeltaResult<Vec<DeltaResult<FileMeta>>> {
        Ok(vec![Ok(test_file(url)), Err(Error::generic("hidden".to_string()))])
    }

    fn read_files(&self, files: Vec<FileSlice>) -> DeltaResult<Vec<DeltaResult<bytes::Bytes>>> {
        Ok(files.into_iter().map(|f| Ok(bytes::Bytes::from(f.url))).collect())
    }

    fn put(&self, url: &str, data: bytes::Bytes, overwrite: bool) -> DeltaResult<()> {
        assert_eq!((url, data.as_ref(), overwrite), ("file:///w", b"data".as_ref(), true));
        Ok(())
    }

    fn head(&self, url: &str) -> DeltaResult<FileMeta> {
        if url == "file:///gone" {
            return Err(Error::generic("no such file".to_string()));
        }
        Ok(test_file(url))
    }

    fn copy_atomic(&self, source: &str, destination: &str) -> DeltaResult<()> {
        Err(Error::generic(format!("{source} to {destination}")))
    }
}

/// A batch of the handlers below.
#[derive(Debug, PartialEq)]
struct Text(String);

impl ParseJson for Text {
    fn parse_json(json_strings: Text, output_schema: SchemaRef) -> DeltaResult<Text> {
        Ok(Text(format!("{} of {} columns", json_strings.0, output_schema.num_fields())))
    }
}

struct Files;

impl JsonHandler for Files {
    type Data = Text;

    fn parse_json(&self, json_strings: Text, _output_schema: SchemaRef) -> DeltaResult<Text> {
        Ok(json_strings)
    }

    fn read_json_files(
        &self,
        files: &Vec<FileMeta>,
        _physical_schema: SchemaRef,
        predicate: Option<PredicateRef>,
    ) -> DeltaResult<Vec<DeltaResult<Text>>> {
        assert!(predicate.is_none());
        Ok(files.iter().map(|f| Ok(Text(format!("json {}", f.location)))).collect())
    }

    fn write_json_file(
        &self,
        _path: &str,
        _data: Vec<DeltaResult<Text>>,
        _overwrite: bool,
    ) -> DeltaResult<()> {
        Ok(())
    }
}

impl ParquetHandler for Files {
    type Data = Text;

    fn read_parquet_files(
        &self,
        files: &Vec<FileMeta>,
        _physical_schema: SchemaRef,
        _predicate: Option<PredicateRef>,
    ) -> DeltaResult<Vec<DeltaResult<Text>>> {
        Ok(files.iter().map(|f| Ok(Text(format!("parquet {}", f.location)))).collect())
    }

    fn read_parquet_footer(&self, _file: &FileMeta) -> DeltaResult<ParquetFooter> {
        Ok(ParquetFooter { schema: test_schema() })
    }
}

fn executor() -> SyncPlanExecutor<Storage, Files, Files> {
    SyncPlanExecutor { storage: Storage, json: Files, parquet: Files }
}

fn run(op: IoOperation) -> DeltaResult<PlanResult<Text>> {
    executor().execute_op(Operation::IoOperation(op))
}

#[test]
fn file_operations_go_to_the_storage_handler() {
    let listed = run(IoOperation::FileListing { url: "file:///d/".to_string() }).unwrap();
    let listed = listed.into_file_meta().unwrap();
    assert_eq!(listed.len(), 2);
    assert_eq!(listed[0].as_ref().unwrap().location, "file:///d/");
    assert!(listed[1].is_err());

    let slice = FileSlice { url: "file:///r".to_string(), range: Some((0, 2)) };
    let read = run(IoOperation::ReadBytes { files: vec![slice] }).unwrap().into_bytes().unwrap();
    assert_eq!(read[0].as_ref().unwrap().as_ref(), b"file:///r");

    let written = run(IoOperation::WriteBytes {
        url: "file:///w".to_string(),
        data: bytes::Bytes::from_static(b"data"),
        overwrite: true,
    });
    written.unwrap().into_unit().unwrap();

    let head = run(IoOperation::HeadFile { url: "file:///h".to_string() }).unwrap();
    let head = head.into_file_meta().unwrap();
    assert_eq!(head.len(), 1);
    assert_eq!(head[0].as_ref().unwrap().location, "file:///h");
    let gone = run(IoOperation::HeadFile { url: "file:///gone".to_string() });
    assert_eq!(gone.unwrap_err().to_text(), "Generic delta kernel error: no such file");

    let copied = run(IoOperation::AtomicCopy {
        source: "a".to_string(),
        destination: "b".to_string(),
    });
    assert_eq!(copied.unwrap_err().to_text(), "Generic delta kernel error: a to b");

    let footer = run(IoOperation::ParquetFooter { file: test_file("file:///p") }).unwrap();
    assert_eq!(footer.into_parquet_footer().unwrap().schema.num_fields(), 1);
}

#[test]
fn scans_go_to_the_handler_of_their_format() {
    let files = vec![test_file("file:///a"), test_file("file:///b")];
    let json = QueryPlanBuilder::scan_json(files.clone(), test_schema()).build().unwrap();
    let batches = executor().execute_op(Operation::QueryPlan(json)).unwrap().into_data().unwrap();
    let texts: Vec<&str> = batches.iter().map(|b| b.as_ref().unwrap().0.as_str()).collect();
    assert_eq!(texts, ["json file:///a", "json file:///b"]);

    let parquet = QueryPlanBuilder::scan_parquet(files, test_schema()).build().unwrap();
    let batches =
        executor().execute_op(Operation::QueryPlan(parquet)).unwrap().into_data().unwrap();
    assert_eq!(batches[0].as_ref().unwrap().0, "parquet file:///a");
}

#[test]
fn other_plans_are_not_supported() {
    let node = |output| PlanNode {
        kind: NodeKind::UnionAll(UnionAll),
        inputs: vec![],
        output: RefId(output),
    };
    let union = Operation::QueryPlan(Plan { nodes: vec![node(0)] });
    let message = executor().execute_op(union).unwrap_err().to_text();
    assert_eq!(
        message,
        "Generic delta kernel error: SyncPlanExecutor only supports ScanJson / ScanParquet, got NodeKind::UnionAll"
    );
    let two = Operation::QueryPlan(Plan { nodes: vec![node(0), node(1)] });
    let message = executor().execute_op(two).unwrap_err().to_text();
    assert_eq!(message, "Generic delta kernel error: expected single-node plan, got 2 nodes");
}

#[test]
fn a_result_of_another_kind_is_an_error() {
    let mismatch = |expected: &str, actual: &str| {
        format!("Plan result type mismatch: expected {expected}, got {actual}")
    };
    let unit = || PlanResult::<u8>::Unit;
    assert_eq!(unit().into_data().unwrap_err().to_text(), mismatch("Data", "Unit"));
    assert_eq!(unit().into_file_meta().unwrap_err().to_text(), mismatch("FileMeta", "Unit"));
    assert_eq!(unit().into_bytes().unwrap_err().to_text(), mismatch("Bytes", "Unit"));
    assert_eq!(
        unit().into_parquet_footer().unwrap_err().to_text(),
        mismatch("ParquetFooter", "Unit")
    );
    assert_eq!(
        PlanResult::<u8>::Bytes(vec![]).into_unit().unwrap_err().to_text(),
        mismatch("Unit", "Bytes")
    );
}

#[test]
fn plan_based_reads_go_through_the_executor() {
    let handler = PlanBasedJsonHandler::new(Arc::new(executor()));
    let files = vec![test_file("file:///a.json")];
    let batches = handler.read_json_files(&files, test_schema(), None).unwrap();
    assert_eq!(batches.len(), 1);
    assert_eq!(batches[0].as_ref().unwrap().0, "json file:///a.json");
    let directly = Files.read_json_files(&files, test_schema(), None).unwrap();
    assert_eq!(batches[0].as_ref().unwrap(), directly[0].as_ref().unwrap());
    let parsed = handler.parse_json(Text("{}".to_string()), test_schema()).unwrap();
    assert_eq!(parsed.0, "{} of 1 columns");
    let written = handler.write_json_file("file:///w", vec![], false);
    assert_eq!(
        written.unwrap_err().to_text(),
        "PlanBasedJsonHandler does not support write_json_file yet"
    );
}

#[test]
fn a_plan_based_engine_shares_its_executor() {
    let engine = PlanBasedEngine::new(Arc::new("evaluation"), Arc::new(executor()));
    assert_eq!(*engine.evaluation_handler(), "evaluation");
    assert!(Arc::ptr_eq(&engine.json_handler().executor, &engine.plan_executor()));
}

#[test]
fn a_copied_plan_is_the_same_plan() {
    let files = vec![test_file("file:///a")];
    let plan = QueryPlanBuilder::scan_json(files, test_schema()).build().unwrap();
    let copy = plan.clone();
    assert_eq!(format!("{copy:?}"), format!("{plan:?}"));
    let (NodeKind::ScanJson(copied), NodeKind::ScanJson(scan)) =
        (&copy.nodes[0].kind, &plan.nodes[0].kind)
    else {
        panic!("expected scans");
    };
    assert_eq!(copied.files, scan.files);
    assert!(Arc::ptr_eq(&copied.schema, &scan.schema));
}
