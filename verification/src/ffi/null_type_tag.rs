//! Type tags of typed nulls.

use vstd::prelude::*;

use crate::error::{DeltaResult, Error, ErrorView};
use crate::schema::{valid_decimal, DataType, DataTypeView, PrimitiveType};
use crate::text::{decimal, decimal_text, join2};

verus! {

/// The type of a typed null. Primitive types have the tags 0 to 11. Decimals have 12 and need a precision
/// and a scale. Other types share the tag 255, from which they cannot be told apart.
#[derive(Debug, Clone, Copy, PartialEq, Eq, Structural)]
pub enum NullTypeTag {
    Boolean,
    Byte,
    Short,
    Integer,
    Long,
    Float,
    Double,
    String,
    Binary,
    Date,
    Timestamp,
    TimestampNtz,
    Decimal,
    /// Any type that is not primitive.
    NonPrimitive,
}

impl NullTypeTag {
    /// The number of the tag.
    pub open spec fn code(self) -> u8 {
        match self {
            NullTypeTag::Boolean => 0,
            NullTypeTag::Byte => 1,
            NullTypeTag::Short => 2,
            NullTypeTag::Integer => 3,
            NullTypeTag::Long => 4,
            NullTypeTag::Float => 5,
            NullTypeTag::Double => 6,
            NullTypeTag::String => 7,
            NullTypeTag::Binary => 8,
            NullTypeTag::Date => 9,
            NullTypeTag::Timestamp => 10,
            NullTypeTag::TimestampNtz => 11,
            NullTypeTag::Decimal => 12,
            NullTypeTag::NonPrimitive => 255,
        }
    }

    /// The number of the tag.
    pub fn to_u8(self) -> (r: u8)
        ensures
            r == self.code(),
    {
        match self {
            NullTypeTag::Boolean => 0,
            NullTypeTag::Byte => 1,
            NullTypeTag::Short => 2,
            NullTypeTag::Integer => 3,
            NullTypeTag::Long => 4,
            NullTypeTag::Float => 5,
            NullTypeTag::Double => 6,
            NullTypeTag::String => 7,
            NullTypeTag::Binary => 8,
            NullTypeTag::Date => 9,
            NullTypeTag::Timestamp => 10,
            NullTypeTag::TimestampNtz => 11,
            NullTypeTag::Decimal => 12,
            NullTypeTag::NonPrimitive => 255,
        }
    }

    /// The tag of a number.
    pub fn try_from(value: u8) -> (r: DeltaResult<NullTypeTag>)
        ensures
            match r {
                Ok(tag) => tag.code() == value,
                Err(e) => unknown_code(value) && e@ == ErrorView::Generic(
                    "Unrecognized null type tag: "@ + decimal(value as nat),
                ),
            },
    {
        match value {
            0 => Ok(NullTypeTag::Boolean),
            1 => Ok(NullTypeTag::Byte),
            2 => Ok(NullTypeTag::Short),
            3 => Ok(NullTypeTag::Integer),
            4 => Ok(NullTypeTag::Long),
            5 => Ok(NullTypeTag::Float),
            6 => Ok(NullTypeTag::Double),
            7 => Ok(NullTypeTag::String),
            8 => Ok(NullTypeTag::Binary),
            9 => Ok(NullTypeTag::Date),
            10 => Ok(NullTypeTag::Timestamp),
            11 => Ok(NullTypeTag::TimestampNtz),
            12 => Ok(NullTypeTag::Decimal),
            255 => Ok(NullTypeTag::NonPrimitive),
            other => Err(
                Error::generic(
                    join2(
                        "Unrecognized null type tag: ",
                        decimal_text(other as u64).as_str(),
                    ),
                ),
            ),
        }
    }

    /// The tag of a data type, and the precision and scale of a decimal, which are 0 for other types.
    pub open spec fn of(data_type: DataTypeView) -> (NullTypeTag, u8, u8) {
        match data_type {
            DataTypeView::Primitive(PrimitiveType::Boolean) => (NullTypeTag::Boolean, 0, 0),
            DataTypeView::Primitive(PrimitiveType::Byte) => (NullTypeTag::Byte, 0, 0),
            DataTypeView::Primitive(PrimitiveType::Short) => (NullTypeTag::Short, 0, 0),
            DataTypeView::Primitive(PrimitiveType::Integer) => (NullTypeTag::Integer, 0, 0),
            DataTypeView::Primitive(PrimitiveType::Long) => (NullTypeTag::Long, 0, 0),
            DataTypeView::Primitive(PrimitiveType::Float) => (NullTypeTag::Float, 0, 0),
            DataTypeView::Primitive(PrimitiveType::Double) => (NullTypeTag::Double, 0, 0),
            DataTypeView::Primitive(PrimitiveType::String) => (NullTypeTag::String, 0, 0),
            DataTypeView::Primitive(PrimitiveType::Binary) => (NullTypeTag::Binary, 0, 0),
            DataTypeView::Primitive(PrimitiveType::Date) => (NullTypeTag::Date, 0, 0),
            DataTypeView::Primitive(PrimitiveType::Timestamp) => (NullTypeTag::Timestamp, 0, 0),
            DataTypeView::Primitive(PrimitiveType::TimestampNtz) => (
                NullTypeTag::TimestampNtz,
                0,
                0,
            ),
            DataTypeView::Primitive(PrimitiveType::Decimal(t)) => (
                NullTypeTag::Decimal,
                t.spec_precision(),
                t.spec_scale(),
            ),
            _ => (NullTypeTag::NonPrimitive, 0, 0),
        }
    }

    /// The tag of a data type, and the precision and scale of a decimal, which are 0 for other types.
    pub fn from_data_type(data_type: &DataType) -> (r: (NullTypeTag, u8, u8))
        ensures
            r == NullTypeTag::of(data_type@),
            r.0 is Decimal ==> valid_decimal(r.1, r.2),
    {
        match data_type {
            DataType::Primitive(p) => match p {
                PrimitiveType::Boolean => (NullTypeTag::Boolean, 0, 0),
                PrimitiveType::Byte => (NullTypeTag::Byte, 0, 0),
                PrimitiveType::Short => (NullTypeTag::Short, 0, 0),
                PrimitiveType::Integer => (NullTypeTag::Integer, 0, 0),
                PrimitiveType::Long => (NullTypeTag::Long, 0, 0),
                PrimitiveType::Float => (NullTypeTag::Float, 0, 0),
                PrimitiveType::Double => (NullTypeTag::Double, 0, 0),
                PrimitiveType::String => (NullTypeTag::String, 0, 0),
                PrimitiveType::Binary => (NullTypeTag::Binary, 0, 0),
                PrimitiveType::Date => (NullTypeTag::Date, 0, 0),
                PrimitiveType::Timestamp => (NullTypeTag::Timestamp, 0, 0),
                PrimitiveType::TimestampNtz => (NullTypeTag::TimestampNtz, 0, 0),
                PrimitiveType::Decimal(t) => (NullTypeTag::Decimal, t.precision(), t.scale()),
                PrimitiveType::Void => (NullTypeTag::NonPrimitive, 0, 0),
            },
            _ => (NullTypeTag::NonPrimitive, 0, 0),
        }
    }

    /// The data type of a tag. The precision and scale count for decimals only.
    ///
    /// A type that is not primitive cannot be had from its tag.
    pub fn to_data_type(self, precision: u8, scale: u8) -> (r: DeltaResult<DataType>)
        ensures
            match r {
                Ok(data_type) => self !is NonPrimitive && data_type is Primitive
                    && NullTypeTag::of(data_type@) == (if self is Decimal {
                    (self, precision, scale)
                } else {
                    (self, 0, 0)
                }) && (self is Decimal ==> valid_decimal(precision, scale)),
                Err(e) => if self is NonPrimitive {
                    e@ == ErrorView::Generic(
                        "Non-primitive null types (struct, array, map, variant) cannot be reconstructed from a type tag. Use opaque expressions or a schema visitor instead."@,
                    )
                } else {
                    self is Decimal && !valid_decimal(precision, scale) && e@ is InvalidDecimal
                },
            },
    {
        let primitive = match self {
            NullTypeTag::Boolean => PrimitiveType::Boolean,
            NullTypeTag::Byte => PrimitiveType::Byte,
            NullTypeTag::Short => PrimitiveType::Short,
            NullTypeTag::Integer => PrimitiveType::Integer,
            NullTypeTag::Long => PrimitiveType::Long,
            NullTypeTag::Float => PrimitiveType::Float,
            NullTypeTag::Double => PrimitiveType::Double,
            NullTypeTag::String => PrimitiveType::String,
            NullTypeTag::Binary => PrimitiveType::Binary,
            NullTypeTag::Date => PrimitiveType::Date,
            NullTypeTag::Timestamp => PrimitiveType::Timestamp,
            NullTypeTag::TimestampNtz => PrimitiveType::TimestampNtz,
            NullTypeTag::Decimal => match PrimitiveType::decimal(precision, scale) {
                Ok(primitive) => primitive,
                Err(e) => {
                    return Err(e);
                },
            },
            NullTypeTag::NonPrimitive => {
                return Err(
                    Error::generic(
                        "Non-primitive null types (struct, array, map, variant) cannot be reconstructed from a type tag. Use opaque expressions or a schema visitor instead.".to_owned(),
                    ),
                );
            },
        };
        Ok(DataType::Primitive(primitive))
    }
}

/// Has no tag this number?
pub open spec fn unknown_code(code: u8) -> bool {
    12 < code < 255
}

/// No two tags have the same number.
pub proof fn law_codes_are_distinct(a: NullTypeTag, b: NullTypeTag)
    requires
        a.code() == b.code(),
    ensures
        a == b,
        !unknown_code(a.code()),
{
}

/// A primitive type other than void is the only data type with its tag, precision and scale.
pub proof fn law_tag_determines_primitive_type(a: PrimitiveType, b: PrimitiveType)
    requires
        a !is Void,
        NullTypeTag::of(DataTypeView::Primitive(a)) == NullTypeTag::of(DataTypeView::Primitive(b)),
    ensures
        a == b,
{
    if let (PrimitiveType::Decimal(x), PrimitiveType::Decimal(y)) = (a, b) {
        crate::schema::lemma_decimal_type_eq(x, y);
    }
}

} // verus!
