use delta_kernel_core::error::{DeltaResult, Error};
use delta_kernel_core::schema::{DataType, MetadataValue, StructField};
use delta_kernel_core::test_support::{
    assert_result_error_with_message, nested_field_with_same_phy_path,
    same_leaf_phy_name_under_different_parents, time_to_ms,
};

fn assert_mapped(field: &StructField, name: &str, id: i64, phys: &str) {
    assert_eq!(field.name(), name);
    assert!(field.nullable);
    assert!(matches!(
        field.metadata.get("delta.columnMapping.id"),
        Some(MetadataValue::Number(n)) if *n == id
    ));
    assert!(matches!(
        field.metadata.get("delta.columnMapping.physicalName"),
        Some(MetadataValue::String(s)) if s == phys
    ));
}

fn children(data_type: &DataType) -> &Vec<StructField> {
    match data_type {
        DataType::Struct(inner) => inner.fields(),
        other => panic!("expected a struct, got {other:?}"),
    }
}

#[test]
fn leaves_share_a_physical_name_under_different_parents() {
    let schema = same_leaf_phy_name_under_different_parents();
    let fields = schema.fields();
    assert_eq!(fields.len(), 2);
    assert_mapped(&fields[0], "outer1", 1, "outer1");
    assert_mapped(&fields[1], "outer2", 3, "outer2");
    assert_mapped(&children(fields[0].data_type())[0], "a", 2, "x");
    assert_mapped(&children(fields[1].data_type())[0], "a", 4, "x");
}

#[test]
fn nested_fields_share_a_physical_path() {
    let schema = nested_field_with_same_phy_path();
    assert_mapped(&schema.fields()[0], "outer", 1, "outer");
    let inner = &children(schema.fields()[0].data_type())[0];
    assert_mapped(inner, "inner", 2, "inner");
    let DataType::Mapping(map) = inner.data_type() else {
        panic!("expected a map");
    };
    let DataType::Array(array) = &map.value_type else {
        panic!("expected an array");
    };
    let leaves = children(&array.element_type);
    assert_mapped(&leaves[0], "a", 3, "x");
    assert_mapped(&leaves[1], "b", 4, "x");
}

#[test]
fn errors_are_checked_by_their_message() {
    let failed: DeltaResult<i32> = Err(Error::generic("it broke here".to_string()));
    assert_eq!(assert_result_error_with_message(failed, "broke"), Ok(()));
    let failed: DeltaResult<i32> = Err(Error::generic("it broke here".to_string()));
    assert_eq!(
        assert_result_error_with_message(failed, "melted").unwrap_err(),
        "Expected error containing 'melted', got: 'Generic delta kernel error: it broke here'"
    );
    assert_eq!(
        assert_result_error_with_message(Ok(1), "broke").unwrap_err(),
        "Expected error containing 'broke', but got Ok result"
    );
}

#[test]
fn times_must_fit_into_a_timestamp() {
    assert_eq!(time_to_ms(1_700_000_000_000).unwrap(), 1_700_000_000_000);
    assert_eq!(time_to_ms(i64::MAX as u128).unwrap(), i64::MAX);
    assert_eq!(
        time_to_ms(i64::MAX as u128 + 1).unwrap_err().to_text(),
        "Generic delta kernel error: Current timestamp exceeds i64 millisecond range"
    );
}
