use delta_kernel_core::error::Error;
use delta_kernel_core::expressions::ColumnName;
use delta_kernel_core::string_map::StringMap;
use delta_kernel_core::unity_catalog::{
    assemble_properties, columns_to_json, get_final_required_properties_for_uc,
    get_required_properties_for_disk, CreatedTable,
};

#[test]
fn test_get_required_properties_for_disk() {
    let props = get_required_properties_for_disk("my-uc-table-123");
    assert_eq!(props.len(), 3);
    assert_eq!(props.get("delta.feature.catalogManaged").unwrap(), "supported");
    assert_eq!(props.get("delta.feature.vacuumProtocolCheck").unwrap(), "supported");
    assert_eq!(props.get("io.unitycatalog.tableId").unwrap(), "my-uc-table-123");
}

fn map(entries: &[(&str, &str)]) -> StringMap<String> {
    let mut map = StringMap::new();
    for (key, value) in entries {
        map.insert(key.to_string(), value.to_string());
    }
    map
}

fn column(path: &[&str]) -> ColumnName {
    ColumnName::new(path.iter().map(|p| p.to_string()).collect())
}

fn created(columns: Option<Vec<ColumnName>>) -> CreatedTable {
    CreatedTable {
        version: 0,
        metadata_configuration: get_required_properties_for_disk("test-table-id-456"),
        protocol_derived_properties: map(&[
            ("delta.minReaderVersion", "3"),
            ("delta.minWriterVersion", "7"),
            ("delta.feature.catalogManaged", "supported"),
            ("delta.feature.vacuumProtocolCheck", "supported"),
            ("delta.feature.inCommitTimestamp", "supported"),
            ("delta.feature.clustering", "supported"),
        ]),
        in_commit_timestamp: Ok(Some(1612345678)),
        clustering_columns: Ok(columns),
    }
}

#[test]
fn test_get_final_required_properties_for_uc() {
    let table = created(Some(vec![column(&["region"])]));
    let uc_props = get_final_required_properties_for_uc(table).unwrap();

    for (key, value) in [
        ("delta.minReaderVersion", "3"),
        ("delta.minWriterVersion", "7"),
        ("delta.feature.catalogManaged", "supported"),
        ("delta.feature.vacuumProtocolCheck", "supported"),
        ("delta.feature.inCommitTimestamp", "supported"),
        ("delta.feature.clustering", "supported"),
        ("io.unitycatalog.tableId", "test-table-id-456"),
        ("delta.lastUpdateVersion", "0"),
        ("delta.lastCommitTimestamp", "1612345678"),
    ] {
        assert_eq!(uc_props.get(key).unwrap(), value, "{key}");
    }

    let parsed: Vec<Vec<String>> =
        serde_json::from_str(uc_props.get("clusteringColumns").unwrap()).unwrap();
    assert_eq!(parsed, vec![vec!["region"]]);
}

#[test]
fn test_clustering_columns_serialization_multiple_and_nested() {
    let table = created(Some(vec![column(&["region"]), column(&["address", "city"])]));
    let uc_props = get_final_required_properties_for_uc(table).unwrap();
    let raw_json = uc_props.get("clusteringColumns").unwrap();
    let parsed: Vec<Vec<String>> = serde_json::from_str(raw_json).unwrap();
    assert_eq!(
        parsed,
        vec![vec!["region"], vec!["address", "city"]],
        "Raw JSON: {raw_json}"
    );
    assert_eq!(raw_json, "[[\"region\"],[\"address\",\"city\"]]");
}

#[test]
fn test_get_final_required_properties_for_uc_rejects_non_zero_version() {
    let table = CreatedTable { version: 1, ..created(None) };
    let err = get_final_required_properties_for_uc(table).unwrap_err();
    assert!(
        err.to_text().contains("version 0"),
        "expected version 0 error, got: {}",
        err.to_text()
    );
    assert!(err.to_text().ends_with("is at version 1"), "{}", err.to_text());
}

#[test]
fn a_table_without_clustering_has_no_clustering_columns() {
    let uc_props = get_final_required_properties_for_uc(created(None)).unwrap();
    assert!(!uc_props.contains_key("clusteringColumns"));
}

#[test]
fn a_timestamp_is_required() {
    let table = CreatedTable { in_commit_timestamp: Ok(None), ..created(None) };
    assert_eq!(
        get_final_required_properties_for_uc(table).unwrap_err().to_text(),
        "Generic delta kernel error: In-commit timestamp is required for UC catalog-managed tables but was not found"
    );
    let table = CreatedTable {
        in_commit_timestamp: Err(Error::generic("no timestamp".to_string())),
        clustering_columns: Err(Error::generic("no columns".to_string())),
        ..created(None)
    };
    assert_eq!(
        get_final_required_properties_for_uc(table).unwrap_err().to_text(),
        "Generic delta kernel error: no timestamp"
    );
    let table = CreatedTable {
        clustering_columns: Err(Error::generic("no columns".to_string())),
        ..created(None)
    };
    assert_eq!(
        get_final_required_properties_for_uc(table).unwrap_err().to_text(),
        "Generic delta kernel error: no columns"
    );
}

#[test]
fn the_protocol_and_the_snapshot_override_the_table() {
    let config = map(&[
        ("delta.minReaderVersion", "1"),
        ("delta.lastUpdateVersion", "99"),
        ("custom", "kept"),
    ]);
    let protocol = map(&[("delta.minReaderVersion", "3")]);
    let props = assemble_properties(
        0,
        config,
        protocol,
        Ok(Some(-5)),
        Ok(Some(Ok("json".to_string()))),
    )
    .unwrap();
    assert_eq!(props.get("delta.minReaderVersion").unwrap(), "3");
    assert_eq!(props.get("delta.lastUpdateVersion").unwrap(), "0");
    assert_eq!(props.get("delta.lastCommitTimestamp").unwrap(), "-5");
    assert_eq!(props.get("custom").unwrap(), "kept");
    assert_eq!(props.get("clusteringColumns").unwrap(), "json");
    assert_eq!(props.len(), 5);
}

#[test]
fn a_serialization_error_is_reported() {
    let result = assemble_properties(
        0,
        map(&[]),
        map(&[]),
        Ok(Some(1)),
        Ok(Some(Err("too deep".to_string()))),
    );
    assert_eq!(
        result.unwrap_err().to_text(),
        "Generic delta kernel error: Failed to serialize clustering columns: too deep"
    );
}

#[test]
fn column_paths_are_written_as_json() {
    assert_eq!(columns_to_json(&vec![column(&["a\"b"])]).unwrap(), "[[\"a\\\"b\"]]");
    assert_eq!(columns_to_json(&vec![]).unwrap(), "[]");
}
