//! What literal values say, and copies of them.

use vstd::prelude::*;

use crate::expressions::{ArrayData, DecimalData, MapData, Scalar, StructData};
use crate::schema::{field_views, ArrayType, DataTypeView, FieldView, MapType, StructField};

verus! {

/// What a [`Scalar`] says.
pub enum ScalarView {
    Integer(i32),
    Long(i64),
    Short(i16),
    Byte(i8),
    Float(u32),
    Double(u64),
    String(Seq<char>),
    Boolean(bool),
    Timestamp(i64),
    TimestampNtz(i64),
    Date(i32),
    Binary(Seq<u8>),
    Decimal(DecimalData),
    Null(DataTypeView),
    Struct { fields: Seq<FieldView>, values: Seq<ScalarView> },
    Array { element_type: DataTypeView, contains_null: bool, elements: Seq<ScalarView> },
    Mapping {
        key_type: DataTypeView,
        value_type: DataTypeView,
        value_contains_null: bool,
        pairs: Seq<(ScalarView, ScalarView)>,
    },
}

impl Scalar {
    pub open spec fn view(self) -> ScalarView
        decreases self,
    {
        match self {
            Scalar::Integer(n) => ScalarView::Integer(n),
            Scalar::Long(n) => ScalarView::Long(n),
            Scalar::Short(n) => ScalarView::Short(n),
            Scalar::Byte(n) => ScalarView::Byte(n),
            Scalar::Float(bits) => ScalarView::Float(bits),
            Scalar::Double(bits) => ScalarView::Double(bits),
            Scalar::String(s) => ScalarView::String(s@),
            Scalar::Boolean(b) => ScalarView::Boolean(b),
            Scalar::Timestamp(n) => ScalarView::Timestamp(n),
            Scalar::TimestampNtz(n) => ScalarView::TimestampNtz(n),
            Scalar::Date(n) => ScalarView::Date(n),
            Scalar::Binary(bytes) => ScalarView::Binary(bytes@),
            Scalar::Decimal(d) => ScalarView::Decimal(d),
            Scalar::Null(data_type) => ScalarView::Null(data_type@),
            Scalar::Struct(data) => ScalarView::Struct {
                fields: field_views(data.fields@),
                values: Seq::new(
                    data.values@.len(),
                    |i: int|
                        if 0 <= i < data.values@.len() {
                            data.values@[i].view()
                        } else {
                            arbitrary()
                        },
                ),
            },
            Scalar::Array(data) => ScalarView::Array {
                element_type: data.ty.element_type@,
                contains_null: data.ty.contains_null,
                elements: Seq::new(
                    data.elements@.len(),
                    |i: int|
                        if 0 <= i < data.elements@.len() {
                            data.elements@[i].view()
                        } else {
                            arbitrary()
                        },
                ),
            },
            Scalar::Mapping(data) => ScalarView::Mapping {
                key_type: data.ty.key_type@,
                value_type: data.ty.value_type@,
                value_contains_null: data.ty.value_contains_null,
                pairs: Seq::new(
                    data.pairs@.len(),
                    |i: int|
                        if 0 <= i < data.pairs@.len() {
                            (data.pairs@[i].0.view(), data.pairs@[i].1.view())
                        } else {
                            arbitrary()
                        },
                ),
            },
        }
    }
}

/// Copies of fields.
fn copy_fields(fields: &Vec<StructField>) -> (r: Vec<StructField>)
    ensures
        field_views(r@) == field_views(fields@),
{
    let mut out: Vec<StructField> = Vec::new();
    let mut i: usize = 0;
    while i < fields.len()
        invariant
            i <= fields@.len(),
            out@.len() == i,
            forall|k: int| 0 <= k < i ==> (#[trigger] out@[k])@ == fields@[k]@,
        decreases fields@.len() - i,
    {
        out.push(fields[i].clone());
        i += 1;
    }
    assert(field_views(out@) =~= field_views(fields@));
    out
}

fn copy_bytes(bytes: &Vec<u8>) -> (r: Vec<u8>)
    ensures
        r@ == bytes@,
{
    let r = bytes.clone();
    assert(r@ =~= bytes@);
    r
}

/// Copies of values.
fn copy_values(values: &Vec<Scalar>) -> (r: Vec<Scalar>)
    ensures
        r@.len() == values@.len(),
        forall|i: int| 0 <= i < r@.len() ==> (#[trigger] r@[i])@ == values@[i]@,
    decreases values,
{
    let mut out: Vec<Scalar> = Vec::new();
    let mut i: usize = 0;
    while i < values.len()
        invariant
            i <= values@.len(),
            out@.len() == i,
            forall|k: int| 0 <= k < i ==> (#[trigger] out@[k])@ == values@[k]@,
        decreases values@.len() - i,
    {
        assert(decreases_to!(values => values@[i as int]));
        out.push(values[i].duplicate());
        i += 1;
    }
    out
}

/// Copies of pairs of values.
fn copy_pairs(pairs: &Vec<(Scalar, Scalar)>) -> (r: Vec<(Scalar, Scalar)>)
    ensures
        r@.len() == pairs@.len(),
        forall|i: int|
            0 <= i < r@.len() ==> (#[trigger] r@[i]).0@ == pairs@[i].0@ && r@[i].1@ == pairs@[i].1@,
    decreases pairs,
{
    let mut out: Vec<(Scalar, Scalar)> = Vec::new();
    let mut i: usize = 0;
    while i < pairs.len()
        invariant
            i <= pairs@.len(),
            out@.len() == i,
            forall|k: int|
                0 <= k < i ==> (#[trigger] out@[k]).0@ == pairs@[k].0@ && out@[k].1@
                    == pairs@[k].1@,
        decreases pairs@.len() - i,
    {
        assert(decreases_to!(pairs => pairs@[i as int]));
        assert(decreases_to!(pairs@[i as int] => pairs@[i as int].0));
        assert(decreases_to!(pairs@[i as int] => pairs@[i as int].1));
        let pair = &pairs[i];
        out.push((pair.0.duplicate(), pair.1.duplicate()));
        i += 1;
    }
    out
}

impl Scalar {
    /// A copy of this value.
    fn duplicate(&self) -> (r: Scalar)
        ensures
            r@ == self@,
        decreases self,
    {
        let r = match self {
            Scalar::Integer(n) => Scalar::Integer(*n),
            Scalar::Long(n) => Scalar::Long(*n),
            Scalar::Short(n) => Scalar::Short(*n),
            Scalar::Byte(n) => Scalar::Byte(*n),
            Scalar::Float(bits) => Scalar::Float(*bits),
            Scalar::Double(bits) => Scalar::Double(*bits),
            Scalar::String(s) => Scalar::String(s.clone()),
            Scalar::Boolean(b) => Scalar::Boolean(*b),
            Scalar::Timestamp(n) => Scalar::Timestamp(*n),
            Scalar::TimestampNtz(n) => Scalar::TimestampNtz(*n),
            Scalar::Date(n) => Scalar::Date(*n),
            Scalar::Binary(bytes) => Scalar::Binary(copy_bytes(bytes)),
            Scalar::Decimal(d) => Scalar::Decimal(*d),
            Scalar::Null(data_type) => Scalar::Null(data_type.clone()),
            Scalar::Struct(data) => Scalar::Struct(
                StructData { fields: copy_fields(&data.fields), values: copy_values(&data.values) },
            ),
            Scalar::Array(data) => Scalar::Array(
                ArrayData {
                    ty: ArrayType {
                        element_type: data.ty.element_type.clone(),
                        contains_null: data.ty.contains_null,
                    },
                    elements: copy_values(&data.elements),
                },
            ),
            Scalar::Mapping(data) => Scalar::Mapping(
                MapData {
                    ty: MapType {
                        key_type: data.ty.key_type.clone(),
                        value_type: data.ty.value_type.clone(),
                        value_contains_null: data.ty.value_contains_null,
                    },
                    pairs: copy_pairs(&data.pairs),
                },
            ),
        };
        proof {
            match (self@, r@) {
                (ScalarView::Struct { values: a, .. }, ScalarView::Struct { values: b, .. }) => {
                    assert(a =~= b);
                },
                (
                    ScalarView::Array { elements: a, .. },
                    ScalarView::Array { elements: b, .. },
                ) => {
                    assert(a =~= b);
                },
                (ScalarView::Mapping { pairs: a, .. }, ScalarView::Mapping { pairs: b, .. }) => {
                    assert(a =~= b);
                },
                _ => {},
            }
        }
        r
    }
}

impl Clone for Scalar {
    fn clone(&self) -> (r: Self)
        ensures
            r@ == self@,
    {
        self.duplicate()
    }
}

} // verus!
