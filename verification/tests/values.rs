use delta_kernel_core::error::Error;
use delta_kernel_core::expressions::{ArrayData, MapData, Scalar, StructData};
use delta_kernel_core::schema::{
    ArrayType, DataType, MapType, PrimitiveType, StructField, StructType,
};
use delta_kernel_core::string_map::StringMap;

#[test]
fn errors_are_written_with_their_kind() {
    let text = "why".to_string();
    assert_eq!(Error::generic(text.clone()).to_text(), "Generic delta kernel error: why");
    assert_eq!(Error::Schema(text.clone()).to_text(), "Schema error: why");
    assert_eq!(Error::Generic(String::new()).to_text(), "Generic delta kernel error: ");
    assert_eq!(Error::Unsupported(text).to_text(), "why");
}

#[test]
fn a_schema_that_is_not_valid_says_so() {
    let field = || StructField::nullable("a", DataType::Primitive(PrimitiveType::Integer));
    let text = StructType::try_new(vec![field(), field()]).unwrap_err().to_text();
    assert!(text.starts_with("Schema error: "), "{text}");
}

#[test]
fn maps_are_equal_whatever_the_order() {
    let mut one = StringMap::new();
    one.insert("a".to_string(), 1);
    one.insert("b".to_string(), 2);
    let mut other = StringMap::new();
    other.insert("b".to_string(), 2);
    other.insert("a".to_string(), 1);
    assert_eq!(one, other);
    assert_eq!(one.clone(), one);
    other.insert("a".to_string(), 3);
    assert_ne!(one, other);
    other.insert("a".to_string(), 1);
    other.insert("c".to_string(), 1);
    assert_ne!(one, other);
    assert_ne!(other, one);
}

#[test]
fn scalars_are_copied_with_all_that_they_hold() {
    let int = || DataType::Primitive(PrimitiveType::Integer);
    let scalars = [
        Scalar::Integer(-3),
        Scalar::Double(2.5f64.to_bits()),
        Scalar::String("s".to_string()),
        Scalar::Binary(vec![1, 2]),
        Scalar::Null(int()),
        Scalar::Struct(StructData {
            fields: vec![StructField::nullable("a", int())],
            values: vec![Scalar::Integer(1)],
        }),
        Scalar::Array(ArrayData {
            ty: ArrayType { element_type: int(), contains_null: true },
            elements: vec![Scalar::Integer(1), Scalar::Null(int())],
        }),
        Scalar::Mapping(MapData {
            ty: MapType {
                key_type: int(),
                value_type: int(),
                value_contains_null: false,
            },
            pairs: vec![(Scalar::Integer(1), Scalar::Integer(2))],
        }),
    ];
    for (i, scalar) in scalars.iter().enumerate() {
        assert_eq!(&scalar.clone(), scalar);
        for (j, other) in scalars.iter().enumerate() {
            assert_eq!(scalar == other, i == j);
        }
    }
}
