use std::sync::Arc;

use delta_kernel_core::actions::{Format, Metadata, Protocol};
use delta_kernel_core::error::Error;
use delta_kernel_core::ffi::builders::{
    get_engine_builder, get_snapshot_builder, get_snapshot_builder_from, set_builder_option,
    set_builder_with_multithreaded_executor, snapshot_builder_build,
    snapshot_builder_set_log_tail, snapshot_builder_set_max_catalog_version,
    snapshot_builder_set_version, FfiSnapshotBuilderSource, MultithreadedExecutorConfig,
    MutableFfiSnapshotBuilder,
};
use delta_kernel_core::ffi::slices::{
    allocate_kernel_string, string_slice_next, KernelBoolSlice, KernelBytesSlice,
    KernelRowIndexArray, KernelStringSlice, OptionalValue,
};
use delta_kernel_core::ffi::visit::{
    get_partition_column_count, get_partition_columns, visit_metadata,
    visit_metadata_configuration, visit_protocol, SharedMetadata, SharedProtocol,
};
use delta_kernel_core::string_map::StringMap;

#[test]
fn string_slice() {
    let s = "foo";
    let _ = KernelStringSlice::new(s);
}

#[test]
fn strings_arrive_unchanged_or_are_rejected() {
    for text in ["", "foo", "grün 🌍"] {
        let slice = KernelStringSlice::new(text);
        assert_eq!(slice.try_str().unwrap(), text);
        assert_eq!(slice.try_string().unwrap(), text);
        assert_eq!(allocate_kernel_string(&slice).unwrap().value, text);
    }
    let broken = KernelStringSlice::from_bytes(&[b'a', 0xff]);
    assert!(matches!(broken.try_str(), Err(Error::InvalidUtf8(_))));
    assert!(matches!(allocate_kernel_string(&broken), Err(Error::InvalidUtf8(_))));
}

#[test]
fn bytes_arrive_unchanged() {
    let bytes = [0, 255, 7];
    assert_eq!(KernelBytesSlice::new(&bytes).as_slice(), &bytes);
}

#[test]
fn bool_slice() {
    let bools = vec![true, false, true];
    let bool_slice = KernelBoolSlice::from(bools);
    assert_eq!(bool_slice.as_ref(), &[true, false, true]);
    assert_eq!(bool_slice.into_vec(), vec![true, false, true]);
}

#[test]
fn slices_can_be_empty() {
    assert!(KernelBoolSlice::empty().as_ref().is_empty());
    assert!(KernelBoolSlice::empty().into_vec().is_empty());
    assert!(KernelRowIndexArray::empty().into_vec().is_empty());
    assert_eq!(KernelRowIndexArray::from(vec![3, 1]).into_vec(), vec![3, 1]);
}

#[test]
fn optional_values_are_what_they_are_made_of() {
    assert_eq!(OptionalValue::from(Some(3)), OptionalValue::Present(3));
    assert_eq!(OptionalValue::<i32>::from(None), OptionalValue::Absent);
}

fn metadata() -> Metadata {
    Metadata {
        id: "5fba94ed-9794-4965-ba6e-6ee3c0d22af9".to_string(),
        name: None,
        description: None,
        format: Format { provider: "parquet".to_string(), options: StringMap::new() },
        schema_string: "{\"type\":\"struct\",\"fields\":[]}".to_string(),
        partition_columns: vec![],
        created_time: Some(1587968585495),
        configuration: StringMap::new(),
    }
}

fn shared(metadata: Metadata) -> SharedMetadata {
    SharedMetadata(Arc::new(metadata))
}

#[test]
fn test_visit_metadata_default() {
    let metadata = shared(metadata());
    let state = visit_metadata(&metadata);
    assert_eq!(state.id, "5fba94ed-9794-4965-ba6e-6ee3c0d22af9");
    assert_eq!(state.name, OptionalValue::Absent);
    assert_eq!(state.description, OptionalValue::Absent);
    assert_eq!(state.format_provider, "parquet");
    assert!(state.has_created_time);
    assert_eq!(state.created_time_ms, 1587968585495);
}

#[test]
fn test_visit_metadata_with_name() {
    let metadata = shared(Metadata {
        id: "deadbeef-1234-5678-abcd-000000000000".to_string(),
        name: Some("test_table".to_string()),
        created_time: Some(1234567890000),
        ..metadata()
    });
    let state = visit_metadata(&metadata);
    assert_eq!(state.id, "deadbeef-1234-5678-abcd-000000000000");
    assert_eq!(state.name, OptionalValue::Present("test_table"));
    assert_eq!(state.description, OptionalValue::Absent);
    assert_eq!(state.format_provider, "parquet");
    assert!(state.has_created_time);
    assert_eq!(state.created_time_ms, 1234567890000);
}

#[test]
fn test_visit_metadata_with_description() {
    let metadata = shared(Metadata {
        name: Some("my_table".to_string()),
        description: Some("A test table".to_string()),
        ..metadata()
    });
    let state = visit_metadata(&metadata);
    assert_eq!(state.name, OptionalValue::Present("my_table"));
    assert_eq!(state.description, OptionalValue::Present("A test table"));
    assert_eq!(state.format_provider, "parquet");
    assert!(state.has_created_time);
}

#[test]
fn test_visit_metadata_without_created_time() {
    let metadata = shared(Metadata { created_time: None, ..metadata() });
    let state = visit_metadata(&metadata);
    assert_eq!(state.id, "5fba94ed-9794-4965-ba6e-6ee3c0d22af9");
    assert!(!state.has_created_time);
    assert_eq!(state.created_time_ms, 0);
}

#[test]
fn test_visit_metadata_configuration() {
    let empty = shared(metadata());
    assert!(visit_metadata_configuration(&empty).is_empty());

    let mut configuration = StringMap::new();
    configuration.insert("delta.appendOnly".to_string(), "true".to_string());
    configuration.insert("custom.key".to_string(), "custom_value".to_string());
    let metadata = shared(Metadata { configuration, ..metadata() });
    let mut collected = visit_metadata_configuration(&metadata).clone();
    collected.sort();
    assert_eq!(
        collected,
        vec![
            ("custom.key".to_string(), "custom_value".to_string()),
            ("delta.appendOnly".to_string(), "true".to_string()),
        ]
    );
}

#[test]
fn test_visit_protocol_legacy() {
    let visit = visit_protocol(&SharedProtocol(Arc::new(Protocol {
        min_reader_version: 1,
        min_writer_version: 2,
        reader_features: None,
        writer_features: None,
    })));
    assert_eq!(visit.min_reader_version, 1);
    assert_eq!(visit.min_writer_version, 2);
    assert!(visit.features.is_empty());
}

#[test]
fn test_visit_protocol_with_features() {
    let names = |names: &[&str]| Some(names.iter().map(|n| n.to_string()).collect::<Vec<_>>());
    let visit = visit_protocol(&SharedProtocol(Arc::new(Protocol {
        min_reader_version: 3,
        min_writer_version: 7,
        reader_features: names(&["columnMapping"]),
        writer_features: names(&["columnMapping", "domainMetadata", "rowTracking"]),
    })));
    assert_eq!(visit.min_reader_version, 3);
    assert_eq!(visit.min_writer_version, 7);
    let features: Vec<(bool, &str)> =
        visit.features.iter().map(|(is_reader, name)| (*is_reader, name.as_str())).collect();
    assert_eq!(
        features,
        vec![
            (true, "columnMapping"),
            (false, "columnMapping"),
            (false, "domainMetadata"),
            (false, "rowTracking"),
        ]
    );
}

#[test]
fn partition_columns_are_taken_one_by_one() {
    let metadata = shared(Metadata {
        partition_columns: vec!["a".to_string(), "b".to_string()],
        ..metadata()
    });
    assert_eq!(get_partition_column_count(&metadata), 2);
    let mut columns = get_partition_columns(&metadata);
    assert_eq!(string_slice_next(&mut columns).as_deref(), Some("a"));
    assert_eq!(string_slice_next(&mut columns).as_deref(), Some("b"));
    assert_eq!(string_slice_next(&mut columns), None);
    assert_eq!(string_slice_next(&mut columns), None);
}

fn bad<T>() -> Result<T, Error> {
    Err(Error::generic("bad".to_string()))
}

#[test]
fn engine_builders_hold_what_was_set() {
    assert!(get_engine_builder(bad()).is_err());
    let mut builder = get_engine_builder(Ok("memory:///doesntmatter/foo".to_string())).unwrap();
    assert_eq!(builder.url, "memory:///doesntmatter/foo");
    assert!(builder.options.is_empty());
    assert!(builder.multithreaded_executor_config.is_none());

    let set = |builder: &mut _, k: &str, v: &str| {
        set_builder_option(builder, Ok(k.to_string()), Ok(v.to_string()))
    };
    assert!(set(&mut builder, "k", "1").unwrap());
    assert!(set(&mut builder, "k", "2").unwrap());
    assert!(set_builder_option(&mut builder, bad(), Ok("v".to_string())).is_err());
    assert!(set_builder_option(&mut builder, Ok("j".to_string()), bad()).is_err());
    assert_eq!(builder.options.len(), 1);
    assert_eq!(builder.options.get("k").unwrap(), "2");

    set_builder_with_multithreaded_executor(&mut builder, 4, 0);
    assert_eq!(
        builder.multithreaded_executor_config,
        Some(MultithreadedExecutorConfig { worker_threads: Some(4), max_blocking_threads: None })
    );
}

#[test]
fn snapshot_builders_ask_for_what_was_set() {
    type Builder = MutableFfiSnapshotBuilder<u32, String>;
    let failed: Result<Builder, Error> = get_snapshot_builder(bad());
    assert!(failed.is_err());

    let builder: Builder = get_snapshot_builder(Ok("memory:///t/".to_string())).unwrap();
    let request = snapshot_builder_build(builder);
    assert!(matches!(request.source, FfiSnapshotBuilderSource::TableRoot(root) if root == "memory:///t/"));
    assert_eq!(request.at_version, None);
    assert_eq!(request.with_log_tail, None);
    assert_eq!(request.with_max_catalog_version, None);

    let mut builder: Builder = get_snapshot_builder_from(17);
    snapshot_builder_set_version(&mut builder, 2);
    snapshot_builder_set_max_catalog_version(&mut builder, 3);
    assert!(snapshot_builder_set_log_tail(&mut builder, Ok(vec!["c".to_string()])).unwrap());
    assert!(snapshot_builder_set_log_tail(&mut builder, bad()).is_err());
    let request = snapshot_builder_build(builder);
    assert!(matches!(request.source, FfiSnapshotBuilderSource::ExistingSnapshot(17)));
    assert_eq!(request.at_version, Some(2));
    assert_eq!(request.with_log_tail, Some(vec!["c".to_string()]));
    assert_eq!(request.with_max_catalog_version, Some(3));
}
