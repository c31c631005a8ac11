//! Schemas and checks for tests of code that uses the library.

use vstd::prelude::*;

use crate::error::{DeltaResult, Error, ErrorView};
use crate::schema::{
    ArrayType, DataType, DataTypeView, FieldView, MapType, MetadataValue, MetadataView,
    PrimitiveType, StructField, StructType,
};
use crate::string_map::StringMap;
use crate::text::{join3, occurs_in, text_occurs_in};

verus! {

/// The metadata key of a column's identifier.
pub const COLUMN_MAPPING_ID: &'static str = "delta.columnMapping.id";

/// The metadata key of a column's physical name.
pub const COLUMN_MAPPING_PHYSICAL_NAME: &'static str = "delta.columnMapping.physicalName";

/// A nullable field with an identifier and a physical name.
pub open spec fn cm_field_view(
    name: Seq<char>,
    id: i64,
    phys: Seq<char>,
    data_type: DataTypeView,
) -> FieldView {
    FieldView {
        name,
        data_type,
        nullable: true,
        metadata: Map::empty().insert(COLUMN_MAPPING_ID@, MetadataView::Number(id)).insert(
            COLUMN_MAPPING_PHYSICAL_NAME@,
            MetadataView::String(phys),
        ),
    }
}

fn cm_field(name: &str, id: i64, phys: &str, data_type: DataType) -> (r: StructField)
    ensures
        r@ == cm_field_view(name@, id, phys@, data_type@),
{
    let mut metadata: StringMap<MetadataValue> = StringMap::new();
    metadata.insert(COLUMN_MAPPING_ID.to_owned(), MetadataValue::Number(id));
    metadata.insert(
        COLUMN_MAPPING_PHYSICAL_NAME.to_owned(),
        MetadataValue::String(phys.to_owned()),
    );
    let field = StructField::new(name, data_type, true).with_metadata(metadata);
    assert(field@.metadata =~= cm_field_view(name@, id, phys@, data_type@).metadata);
    field
}

/// The type of integers.
pub open spec fn integer_view() -> DataTypeView {
    DataTypeView::Primitive(PrimitiveType::Integer)
}

/// A schema in which two columns have the same physical name, under parents with different ones.
pub fn same_leaf_phy_name_under_different_parents() -> (r: StructType)
    ensures
        r@ == seq![
            cm_field_view(
                "outer1"@,
                1,
                "outer1"@,
                DataTypeView::Struct(seq![cm_field_view("a"@, 2, "x"@, integer_view())]),
            ),
            cm_field_view(
                "outer2"@,
                3,
                "outer2"@,
                DataTypeView::Struct(seq![cm_field_view("a"@, 4, "x"@, integer_view())]),
            ),
        ],
{
    proof {
        reveal_strlit("outer1");
        reveal_strlit("outer2");
        assert("outer1"@[5] == '1');
        assert("outer2"@[5] == '2');
    }
    let mut parent1: Vec<StructField> = Vec::new();
    parent1.push(cm_field("a", 2, "x", DataType::Primitive(PrimitiveType::Integer)));
    let mut parent2: Vec<StructField> = Vec::new();
    parent2.push(cm_field("a", 4, "x", DataType::Primitive(PrimitiveType::Integer)));
    let parent1_children = StructType::new_unchecked(parent1);
    let parent2_children = StructType::new_unchecked(parent2);
    assert(parent1_children@ =~= seq![cm_field_view("a"@, 2, "x"@, integer_view())]);
    assert(parent2_children@ =~= seq![cm_field_view("a"@, 4, "x"@, integer_view())]);
    let mut fields: Vec<StructField> = Vec::new();
    fields.push(cm_field("outer1", 1, "outer1", DataType::Struct(Box::new(parent1_children))));
    fields.push(cm_field("outer2", 3, "outer2", DataType::Struct(Box::new(parent2_children))));
    StructType::new_unchecked(fields)
}

/// A schema in which two columns of a struct, inside a list inside a map, have the same physical name.
pub fn nested_field_with_same_phy_path() -> (r: StructType)
    ensures
        r@ == seq![
            cm_field_view(
                "outer"@,
                1,
                "outer"@,
                DataTypeView::Struct(
                    seq![
                        cm_field_view(
                            "inner"@,
                            2,
                            "inner"@,
                            DataTypeView::Mapping {
                                key_type: Box::new(DataTypeView::Primitive(PrimitiveType::String)),
                                value_type: Box::new(
                                    DataTypeView::Array {
                                        element_type: Box::new(
                                            DataTypeView::Struct(
                                                seq![
                                                    cm_field_view("a"@, 3, "x"@, integer_view()),
                                                    cm_field_view("b"@, 4, "x"@, integer_view()),
                                                ],
                                            ),
                                        ),
                                        contains_null: true,
                                    },
                                ),
                                value_contains_null: true,
                            },
                        ),
                    ],
                ),
            ),
        ],
{
    proof {
        reveal_strlit("a");
        reveal_strlit("b");
        assert("a"@[0] == 'a');
        assert("b"@[0] == 'b');
    }
    let mut leaves: Vec<StructField> = Vec::new();
    leaves.push(cm_field("a", 3, "x", DataType::Primitive(PrimitiveType::Integer)));
    leaves.push(cm_field("b", 4, "x", DataType::Primitive(PrimitiveType::Integer)));
    let innermost = StructType::new_unchecked(leaves);
    assert(innermost@ =~= seq![
        cm_field_view("a"@, 3, "x"@, integer_view()),
        cm_field_view("b"@, 4, "x"@, integer_view()),
    ]);
    let innermost_type = DataType::Struct(Box::new(innermost));
    let arr_of_struct = DataType::Array(
        Box::new(ArrayType { element_type: innermost_type, contains_null: true }),
    );
    assert(arr_of_struct@ == (DataTypeView::Array {
        element_type: Box::new(innermost_type@),
        contains_null: true,
    }));
    let map_to_arr = DataType::Mapping(
        Box::new(
            MapType {
                key_type: DataType::Primitive(PrimitiveType::String),
                value_type: arr_of_struct,
                value_contains_null: true,
            },
        ),
    );
    assert(map_to_arr@ == (DataTypeView::Mapping {
        key_type: Box::new(DataType::Primitive(PrimitiveType::String)@),
        value_type: Box::new(arr_of_struct@),
        value_contains_null: true,
    }));
    let mut inner: Vec<StructField> = Vec::new();
    inner.push(cm_field("inner", 2, "inner", map_to_arr));
    let inner_struct = StructType::new_unchecked(inner);
    assert(inner_struct@ =~= seq![cm_field_view("inner"@, 2, "inner"@, map_to_arr@)]);
    let mut fields: Vec<StructField> = Vec::new();
    fields.push(cm_field("outer", 1, "outer", DataType::Struct(Box::new(inner_struct))));
    StructType::new_unchecked(fields)
}

/// Checks that a result is an error whose message contains a text. If it is not, the complaint is returned.
pub fn assert_result_error_with_message<T>(res: DeltaResult<T>, message: &str) -> (r: Result<
    (),
    String,
>)
    ensures
        match (res, r) {
            (Ok(_), Err(complaint)) => complaint@ == "Expected error containing '"@ + message@
                + "', but got Ok result"@,
            (Err(e), Ok(_)) => occurs_in(message@, e@.text()),
            (Err(e), Err(complaint)) => !occurs_in(message@, e@.text()) && complaint@
                == "Expected error containing '"@ + message@ + "', got: '"@ + e@.text() + "'"@,
            _ => false,
        },
{
    match res {
        Ok(_) => Err(join3("Expected error containing '", message, "', but got Ok result")),
        Err(e) => {
            let actual = e.to_text();
            if text_occurs_in(message, actual.as_str()) {
                Ok(())
            } else {
                let mut complaint = join3("Expected error containing '", message, "', got: '");
                complaint.append(actual.as_str());
                complaint.append("'");
                Err(complaint)
            }
        },
    }
}

/// A time since the epoch, given in milliseconds, as a timestamp.
pub fn time_to_ms(millis: u128) -> (r: DeltaResult<i64>)
    ensures
        match r {
            Ok(ms) => ms == millis,
            Err(e) => millis > i64::MAX && e@ == ErrorView::Generic(
                "Current timestamp exceeds i64 millisecond range"@,
            ),
        },
{
    if millis <= 0x7fff_ffff_ffff_ffff {
        Ok(millis as i64)
    } else {
        Err(Error::generic("Current timestamp exceeds i64 millisecond range".to_owned()))
    }
}

} // verus!
