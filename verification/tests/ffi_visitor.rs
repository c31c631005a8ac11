use delta_kernel_core::error::Error;
use delta_kernel_core::expressions::{Expression, Predicate, Scalar};
use delta_kernel_core::ffi::kernel_visitor::{
    unwrap_kernel_expression, unwrap_kernel_predicate, visit_engine_expression,
    visit_engine_predicate, visit_expression_column, visit_expression_divide,
    visit_expression_literal_binary, visit_expression_literal_bool,
    visit_expression_literal_byte, visit_expression_literal_date,
    visit_expression_literal_decimal, visit_expression_literal_double,
    visit_expression_literal_float, visit_expression_literal_int, visit_expression_literal_long,
    visit_expression_literal_null, visit_expression_literal_short,
    visit_expression_literal_string, visit_expression_literal_timestamp,
    visit_expression_literal_timestamp_ntz, visit_expression_map_to_struct,
    visit_expression_minus, visit_expression_multiply, visit_expression_plus,
    visit_expression_struct, visit_expression_unknown, visit_predicate_and,
    visit_predicate_distinct, visit_predicate_eq, visit_predicate_ge, visit_predicate_gt,
    visit_predicate_in, visit_predicate_is_null, visit_predicate_le, visit_predicate_lt,
    visit_predicate_ne, visit_predicate_not, visit_predicate_or, visit_predicate_unknown,
    KernelExpressionVisitorState,
};
use delta_kernel_core::ffi::null_type_tag::NullTypeTag;
use delta_kernel_core::ffi::reference_set::ReferenceSet;
use delta_kernel_core::schema::{
    ArrayType, DataType, MapType, PrimitiveType, StructField, StructType,
};

fn primitives() -> Vec<(PrimitiveType, NullTypeTag)> {
    vec![
        (PrimitiveType::Boolean, NullTypeTag::Boolean),
        (PrimitiveType::Byte, NullTypeTag::Byte),
        (PrimitiveType::Short, NullTypeTag::Short),
        (PrimitiveType::Integer, NullTypeTag::Integer),
        (PrimitiveType::Long, NullTypeTag::Long),
        (PrimitiveType::Float, NullTypeTag::Float),
        (PrimitiveType::Double, NullTypeTag::Double),
        (PrimitiveType::String, NullTypeTag::String),
        (PrimitiveType::Binary, NullTypeTag::Binary),
        (PrimitiveType::Date, NullTypeTag::Date),
        (PrimitiveType::Timestamp, NullTypeTag::Timestamp),
        (PrimitiveType::TimestampNtz, NullTypeTag::TimestampNtz),
    ]
}

fn decimal(precision: u8, scale: u8) -> DataType {
    DataType::Primitive(PrimitiveType::decimal(precision, scale).unwrap())
}

#[test]
fn from_data_type_primitive() {
    for (primitive, expected) in primitives() {
        let tag = NullTypeTag::from_data_type(&DataType::Primitive(primitive));
        assert_eq!(tag, (expected, 0, 0));
    }
}

#[test]
fn from_data_type_decimal() {
    let dt = decimal(18, 5);
    let (tag, p, s) = NullTypeTag::from_data_type(&dt);
    assert_eq!(tag, NullTypeTag::Decimal);
    assert_eq!(p, 18);
    assert_eq!(s, 5);
}

#[test]
fn from_data_type_non_primitive_produces_sentinel() {
    let integer = || DataType::Primitive(PrimitiveType::Integer);
    let struct_type = || {
        Box::new(StructType::try_new(vec![StructField::not_null("a", integer())]).unwrap())
    };
    assert_eq!(
        NullTypeTag::from_data_type(&DataType::Struct(struct_type())),
        (NullTypeTag::NonPrimitive, 0, 0)
    );

    let array_type =
        DataType::Array(Box::new(ArrayType { element_type: integer(), contains_null: false }));
    assert_eq!(NullTypeTag::from_data_type(&array_type), (NullTypeTag::NonPrimitive, 0, 0));

    let map_type = DataType::Mapping(Box::new(MapType {
        key_type: DataType::Primitive(PrimitiveType::String),
        value_type: integer(),
        value_contains_null: false,
    }));
    assert_eq!(NullTypeTag::from_data_type(&map_type), (NullTypeTag::NonPrimitive, 0, 0));

    let variant_type = DataType::Variant(struct_type());
    assert_eq!(NullTypeTag::from_data_type(&variant_type), (NullTypeTag::NonPrimitive, 0, 0));
}

#[test]
fn to_data_type_primitive() {
    for (expected, tag) in primitives() {
        let data_type = tag.to_data_type(0, 0).unwrap();
        assert!(matches!(data_type, DataType::Primitive(p) if p == expected));
    }
}

#[test]
fn to_data_type_decimal() {
    let dt = NullTypeTag::Decimal.to_data_type(10, 2).unwrap();
    assert_eq!(format!("{dt:?}"), format!("{:?}", decimal(10, 2)));
}

#[test]
fn to_data_type_decimal_invalid_precision_returns_error() {
    assert!(NullTypeTag::Decimal.to_data_type(0, 0).is_err());
}

#[test]
fn to_data_type_decimal_scale_exceeds_precision_returns_error() {
    assert!(NullTypeTag::Decimal.to_data_type(5, 10).is_err());
}

#[test]
fn to_data_type_non_primitive_returns_error() {
    let result = NullTypeTag::NonPrimitive.to_data_type(0, 0);
    assert!(result.is_err());
    let msg = result.unwrap_err().to_text();
    assert!(msg.contains("Non-primitive"), "unexpected error: {msg}");
}

#[test]
fn try_from_u8_valid() {
    for (value, (_, expected)) in primitives().into_iter().enumerate() {
        assert_eq!(NullTypeTag::try_from(value as u8).unwrap(), expected);
        assert_eq!(expected.to_u8(), value as u8);
    }
    assert_eq!(NullTypeTag::try_from(12).unwrap(), NullTypeTag::Decimal);
    assert_eq!(NullTypeTag::try_from(255).unwrap(), NullTypeTag::NonPrimitive);
}

#[test]
fn try_from_u8_invalid() {
    for value in [13, 42, 254] {
        let result = NullTypeTag::try_from(value);
        assert!(result.is_err());
        let msg = result.unwrap_err().to_text();
        assert_eq!(msg, format!("Generic delta kernel error: Unrecognized null type tag: {value}"));
    }
}

#[test]
fn visit_null_decimal_invalid_precision_returns_error() {
    let mut state = KernelExpressionVisitorState::default();
    assert!(visit_expression_literal_null(&mut state, 12, 0, 0).is_err());
}

#[test]
fn visit_null_unrecognized_tag_returns_error() {
    let mut state = KernelExpressionVisitorState::default();
    assert!(visit_expression_literal_null(&mut state, 13, 0, 0).is_err());
}

#[test]
fn visit_null_non_primitive_tag_returns_error() {
    let mut state = KernelExpressionVisitorState::default();
    assert!(visit_expression_literal_null(&mut state, 255, 0, 0).is_err());
}

fn round_trips(data_type: DataType) {
    let (tag, precision, scale) = NullTypeTag::from_data_type(&data_type);
    let mut state = KernelExpressionVisitorState::default();
    let id =
        visit_expression_literal_null(&mut state, tag.to_u8(), precision, scale).unwrap();
    let expr = unwrap_kernel_expression(&mut state, id).unwrap();
    let expected = Expression::literal(Scalar::Null(data_type));
    assert_eq!(format!("{expr:?}"), format!("{expected:?}"));
}

#[test]
fn null_type_round_trips_through_tag_encoding() {
    for (primitive, _) in primitives() {
        round_trips(DataType::Primitive(primitive));
    }
}

#[test]
fn decimal_null_round_trips_through_tag_encoding() {
    let dt = decimal(20, 3);
    assert_eq!(NullTypeTag::from_data_type(&dt).0, NullTypeTag::Decimal);
    round_trips(dt);
}

#[test]
fn a_reference_set_gives_each_value_an_identifier_of_its_own() {
    let mut set = ReferenceSet::new();
    assert!(set.is_empty());
    let a = set.insert("a");
    let b = set.insert("b");
    assert_eq!((a, b), (1, 2));
    assert_eq!(set.len(), 2);
    assert!(set.contains(a) && !set.contains(0));
    assert_eq!(set.take(a), Some("a"));
    assert_eq!(set.take(a), None);
    assert_eq!(set.insert("c"), 3);
    assert_eq!(set.take(b), Some("b"));
    assert_eq!(set.len(), 1);
}

fn taken(state: &mut KernelExpressionVisitorState, id: usize) -> String {
    format!("{:?}", unwrap_kernel_expression(state, id).unwrap())
}

fn taken_pred(state: &mut KernelExpressionVisitorState, id: usize) -> String {
    format!("{:?}", unwrap_kernel_predicate(state, id).unwrap())
}

#[test]
fn literals_become_expressions() {
    let state = &mut KernelExpressionVisitorState::new();
    let id = visit_expression_literal_int(state, 1);
    assert_eq!(taken(state, id), "Literal(Integer(1))");
    let id = visit_expression_literal_long(state, 2);
    assert_eq!(taken(state, id), "Literal(Long(2))");
    let id = visit_expression_literal_short(state, 3);
    assert_eq!(taken(state, id), "Literal(Short(3))");
    let id = visit_expression_literal_byte(state, -4);
    assert_eq!(taken(state, id), "Literal(Byte(-4))");
    let id = visit_expression_literal_float(state, 1.5f32.to_bits());
    let Some(Expression::Literal(Scalar::Float(bits))) = unwrap_kernel_expression(state, id) else {
        panic!("expected a float");
    };
    assert_eq!(f32::from_bits(bits), 1.5);
    let id = visit_expression_literal_double(state, (-2.25f64).to_bits());
    let Some(Expression::Literal(Scalar::Double(bits))) = unwrap_kernel_expression(state, id)
    else {
        panic!("expected a double");
    };
    assert_eq!(f64::from_bits(bits), -2.25);
    let id = visit_expression_literal_bool(state, true);
    assert_eq!(taken(state, id), "Literal(Boolean(true))");
    let id = visit_expression_literal_date(state, 7);
    assert_eq!(taken(state, id), "Literal(Date(7))");
    let id = visit_expression_literal_timestamp(state, 8);
    assert_eq!(taken(state, id), "Literal(Timestamp(8))");
    let id = visit_expression_literal_timestamp_ntz(state, 9);
    assert_eq!(taken(state, id), "Literal(TimestampNtz(9))");
    let id = visit_expression_literal_binary(state, vec![1, 2]);
    assert_eq!(taken(state, id), "Literal(Binary([1, 2]))");
    let id = visit_expression_literal_string(state, Ok("s".to_string())).unwrap();
    assert_eq!(taken(state, id), "Literal(String(\"s\"))");
    let error = visit_expression_literal_string(state, Err(Error::generic("bad".to_string())));
    assert_eq!(error.unwrap_err().to_text(), "Generic delta kernel error: bad");
}

#[test]
fn decimals_are_put_together_from_two_halves() {
    let state = &mut KernelExpressionVisitorState::new();
    for value in [0i128, 1, -1, 12345678901234567890123456789, -98765432109876543210987654321] {
        let bits = value as u128;
        let (hi, lo) = ((bits >> 64) as u64, bits as u64);
        let id = visit_expression_literal_decimal(state, hi, lo, 38, 2).unwrap();
        let Some(Expression::Literal(Scalar::Decimal(decimal))) =
            unwrap_kernel_expression(state, id)
        else {
            panic!("expected a decimal");
        };
        assert_eq!(decimal.bits, value);
        assert_eq!((decimal.ty.precision(), decimal.ty.scale()), (38, 2));
    }
    assert!(visit_expression_literal_decimal(state, 0, 0, 39, 0).is_err());
    assert!(visit_expression_literal_decimal(state, 0, 0, 3, 4).is_err());
}

#[test]
fn columns_and_unknowns_are_visited_by_name() {
    let state = &mut KernelExpressionVisitorState::new();
    let id = visit_expression_column(state, Ok("a.b")).unwrap();
    let Some(Expression::Column(name)) = unwrap_kernel_expression(state, id) else {
        panic!("expected a column");
    };
    assert_eq!(name.path(), &["a", "b"]);
    assert!(visit_expression_column(state, Err(Error::generic("bad".to_string()))).is_err());

    let id = visit_expression_unknown(state, Ok("e".to_string()));
    assert_eq!(taken(state, id), "Unknown(\"e\")");
    assert_eq!(visit_expression_unknown(state, Err(Error::generic("bad".to_string()))), 0);
    let id = visit_predicate_unknown(state, Ok("p".to_string()));
    assert_eq!(taken_pred(state, id), "Unknown(\"p\")");
    assert_eq!(visit_predicate_unknown(state, Err(Error::generic("bad".to_string()))), 0);
}

fn two(state: &mut KernelExpressionVisitorState) -> (usize, usize) {
    (visit_expression_literal_int(state, 1), visit_expression_literal_int(state, 2))
}

#[test]
fn binary_operators_keep_the_order_of_their_children() {
    let state = &mut KernelExpressionVisitorState::new();
    type Visit = fn(&mut KernelExpressionVisitorState, usize, usize) -> usize;
    let operators: [(Visit, &str); 4] = [
        (visit_expression_plus, "Plus"),
        (visit_expression_minus, "Minus"),
        (visit_expression_multiply, "Multiply"),
        (visit_expression_divide, "Divide"),
    ];
    for (visit, op) in operators {
        let (a, b) = two(state);
        let id = visit(state, a, b);
        assert_eq!(
            taken(state, id),
            format!(
                "Binary {{ op: {op}, left: Literal(Integer(1)), right: Literal(Integer(2)) }}"
            )
        );
    }
    let operators: [(Visit, &str, bool); 8] = [
        (visit_predicate_lt, "LessThan", false),
        (visit_predicate_gt, "GreaterThan", false),
        (visit_predicate_eq, "Equal", false),
        (visit_predicate_distinct, "Distinct", false),
        (visit_predicate_in, "In", false),
        (visit_predicate_le, "GreaterThan", true),
        (visit_predicate_ge, "LessThan", true),
        (visit_predicate_ne, "Equal", true),
    ];
    for (visit, op, negated) in operators {
        let (a, b) = two(state);
        let id = visit(state, a, b);
        let plain =
            format!("Binary {{ op: {op}, left: Literal(Integer(1)), right: Literal(Integer(2)) }}");
        let expected = if negated { format!("Not({plain})") } else { plain };
        assert_eq!(taken_pred(state, id), expected);
    }
}

#[test]
fn a_missing_child_gives_no_expression_and_uses_the_other_up() {
    let state = &mut KernelExpressionVisitorState::new();
    let (a, b) = two(state);
    assert_eq!(visit_expression_plus(state, a, 99), 0);
    assert!(unwrap_kernel_expression(state, a).is_none());
    assert_eq!(visit_predicate_eq(state, b, b), 0);
    assert_eq!(visit_predicate_le(state, 0, 0), 0);
    assert_eq!(visit_predicate_not(state, 0), 0);
    assert_eq!(visit_predicate_is_null(state, 0), 0);
    assert_eq!(visit_expression_map_to_struct(state, 0), 0);
}

#[test]
fn junctions_and_structs_leave_missing_children_out() {
    let state = &mut KernelExpressionVisitorState::new();
    let p = visit_predicate_unknown(state, Ok("p".to_string()));
    let q = visit_predicate_unknown(state, Ok("q".to_string()));
    let id = visit_predicate_and(state, &vec![p, 99, q, p]);
    assert_eq!(
        taken_pred(state, id),
        "Junction { op: And, preds: [Unknown(\"p\"), Unknown(\"q\")] }"
    );
    let id = visit_predicate_or(state, &vec![]);
    assert_eq!(taken_pred(state, id), "Junction { op: Or, preds: [] }");
    let (a, b) = two(state);
    let id = visit_expression_struct(state, &vec![b, 0, a]);
    assert_eq!(taken(state, id), "Struct([Literal(Integer(2)), Literal(Integer(1))])");
    let map = visit_expression_column(state, Ok("m")).unwrap();
    let id = visit_expression_map_to_struct(state, map);
    assert!(matches!(
        unwrap_kernel_expression(state, id),
        Some(Expression::MapToStruct(inner)) if matches!(*inner, Expression::Column(_))
    ));
}

#[test]
fn predicates_and_expressions_stand_for_each_other() {
    let state = &mut KernelExpressionVisitorState::new();
    let b = visit_expression_literal_bool(state, true);
    let id = visit_predicate_not(state, b);
    assert!(matches!(
        unwrap_kernel_predicate(state, id),
        Some(Predicate::Not(inner)) if matches!(*inner, Predicate::BooleanExpression(_))
    ));
    let p = visit_predicate_unknown(state, Ok("p".to_string()));
    let id = visit_predicate_is_null(state, p);
    assert_eq!(
        taken_pred(state, id),
        "Unary { op: IsNull, expr: Predicate(Unknown(\"p\")) }"
    );
}

#[test]
fn the_root_must_be_there() {
    let state = &mut KernelExpressionVisitorState::new();
    let id = visit_expression_literal_int(state, 1);
    assert!(visit_engine_expression(state, id).is_ok());
    assert_eq!(
        visit_engine_expression(state, id).unwrap_err().to_text(),
        "Generic delta kernel error: Invalid expression ID 1 returned from engine visitor"
    );
    assert_eq!(
        visit_engine_predicate(state, 0).unwrap_err().to_text(),
        "Generic delta kernel error: Invalid predicate ID 0 returned from engine visitor"
    );
    let id = visit_predicate_unknown(state, Ok("p".to_string()));
    assert!(visit_engine_predicate(state, id).is_ok());
}
