//! Schemas: data types, struct fields and struct types.

use vstd::prelude::*;

use crate::error::{DeltaResult, Error, ErrorView};
use crate::string_map::{distinct_keys, entries_map, StringMap};
use crate::text::{join2, same_text};

verus! {

/// The precision and scale of a decimal type.
#[derive(Debug, Clone, Copy, PartialEq, Eq, Structural)]
pub struct DecimalType {
    precision: u8,
    scale: u8,
}

/// The types without inner types.
#[derive(Debug, Clone, Copy, PartialEq, Eq, Structural)]
pub enum PrimitiveType {
    String,
    Long,
    Integer,
    Short,
    Byte,
    Float,
    Double,
    Boolean,
    Binary,
    Date,
    Timestamp,
    TimestampNtz,
    Decimal(DecimalType),
    Void,
}

/// A type of column values.
#[derive(Debug, PartialEq)]
pub enum DataType {
    Primitive(PrimitiveType),
    Array(Box<ArrayType>),
    Struct(Box<StructType>),
    Mapping(Box<MapType>),
    Variant(Box<StructType>),
}

/// A list of values of one type.
#[derive(Debug, PartialEq)]
pub struct ArrayType {
    pub element_type: DataType,
    pub contains_null: bool,
}

/// A map from keys of one type to values of another.
#[derive(Debug, PartialEq)]
pub struct MapType {
    pub key_type: DataType,
    pub value_type: DataType,
    pub value_contains_null: bool,
}

/// A value in the metadata of a field.
#[derive(Debug, PartialEq)]
pub enum MetadataValue {
    Number(i64),
    String(String),
    Boolean(bool),
    /// Any other JSON value, as its text.
    Other(String),
}

/// A named field of a struct type.
#[derive(Debug, PartialEq)]
pub struct StructField {
    pub name: String,
    pub data_type: DataType,
    pub nullable: bool,
    pub metadata: StringMap<MetadataValue>,
}

/// A sequence of named fields.
#[derive(Debug, PartialEq)]
pub struct StructType {
    fields: Vec<StructField>,
}

/// What a [`MetadataValue`] holds.
pub enum MetadataView {
    Number(i64),
    String(Seq<char>),
    Boolean(bool),
    Other(Seq<char>),
}

/// What a [`DataType`] is.
pub enum DataTypeView {
    Primitive(PrimitiveType),
    Array { element_type: Box<DataTypeView>, contains_null: bool },
    Struct(Seq<FieldView>),
    Mapping { key_type: Box<DataTypeView>, value_type: Box<DataTypeView>, value_contains_null: bool },
    Variant(Seq<FieldView>),
}

/// What a [`StructField`] is.
pub struct FieldView {
    pub name: Seq<char>,
    pub data_type: DataTypeView,
    pub nullable: bool,
    pub metadata: Map<Seq<char>, MetadataView>,
}

impl MetadataValue {
    pub open spec fn view(self) -> MetadataView {
        match self {
            MetadataValue::Number(n) => MetadataView::Number(n),
            MetadataValue::String(s) => MetadataView::String(s@),
            MetadataValue::Boolean(b) => MetadataView::Boolean(b),
            MetadataValue::Other(s) => MetadataView::Other(s@),
        }
    }
}

impl Clone for MetadataValue {
    fn clone(&self) -> (r: Self)
        ensures
            r@ == self@,
    {
        match self {
            MetadataValue::Number(n) => MetadataValue::Number(*n),
            MetadataValue::String(s) => MetadataValue::String(s.clone()),
            MetadataValue::Boolean(b) => MetadataValue::Boolean(*b),
            MetadataValue::Other(s) => MetadataValue::Other(s.clone()),
        }
    }
}

/// The metadata of a field by what its values hold.
pub open spec fn metadata_view(metadata: Map<Seq<char>, MetadataValue>) -> Map<
    Seq<char>,
    MetadataView,
> {
    Map::new(|k: Seq<char>| metadata.contains_key(k), |k: Seq<char>| metadata[k]@)
}

impl DataType {
    pub open spec fn view(self) -> DataTypeView
        decreases self,
    {
        match self {
            DataType::Primitive(p) => DataTypeView::Primitive(p),
            DataType::Array(a) => DataTypeView::Array {
                element_type: Box::new(a.element_type.view()),
                contains_null: a.contains_null,
            },
            DataType::Struct(s) => DataTypeView::Struct(s.view()),
            DataType::Mapping(m) => DataTypeView::Mapping {
                key_type: Box::new(m.key_type.view()),
                value_type: Box::new(m.value_type.view()),
                value_contains_null: m.value_contains_null,
            },
            DataType::Variant(s) => DataTypeView::Variant(s.view()),
        }
    }
}

impl StructField {
    pub open spec fn view(self) -> FieldView
        decreases self,
    {
        FieldView {
            name: self.name@,
            data_type: self.data_type.view(),
            nullable: self.nullable,
            metadata: metadata_view(self.metadata@),
        }
    }
}

impl StructType {
    /// The fields, in order.
    pub closed spec fn view(self) -> Seq<FieldView>
        decreases self,
    {
        Seq::new(
            self.fields@.len(),
            |i: int|
                if 0 <= i < self.fields@.len() {
                    self.fields@[i].view()
                } else {
                    arbitrary()
                },
        )
    }
}

/// The views of a list of fields.
pub open spec fn field_views(fields: Seq<StructField>) -> Seq<FieldView> {
    Seq::new(fields.len(), |i: int| fields[i].view())
}

/// No two of the fields have the same name.
pub open spec fn distinct_names(fields: Seq<FieldView>) -> bool {
    forall|i: int, j: int|
        0 <= i < j < fields.len() ==> (#[trigger] fields[i]).name != (#[trigger] fields[j]).name
}

/// Does a field of this name occur?
pub open spec fn has_name(fields: Seq<FieldView>, name: Seq<char>) -> bool {
    exists|i: int| 0 <= i < fields.len() && (#[trigger] fields[i]).name == name
}

/// The first field that has the name of a field before it.
pub open spec fn first_repeated(fields: Seq<FieldView>, i: int) -> bool {
    &&& 0 <= i < fields.len()
    &&& has_name(fields.take(i), fields[i].name)
    &&& distinct_names(fields.take(i))
}

/// A valid decimal type has between 1 and 38 digits, at most all of them behind the point.
pub open spec fn valid_decimal(precision: u8, scale: u8) -> bool {
    1 <= precision <= MAX_DECIMAL_PRECISION && scale <= precision
}

/// The most digits that a decimal type can have.
pub const MAX_DECIMAL_PRECISION: u8 = 38;

impl DecimalType {
    #[verifier::type_invariant]
    spec fn is_valid(self) -> bool {
        valid_decimal(self.precision, self.scale)
    }

    pub closed spec fn spec_precision(self) -> u8 {
        self.precision
    }

    pub closed spec fn spec_scale(self) -> u8 {
        self.scale
    }

    /// A decimal type of the given precision and scale.
    pub fn try_new(precision: u8, scale: u8) -> (r: DeltaResult<DecimalType>)
        ensures
            match r {
                Ok(t) => valid_decimal(precision, scale) && t.spec_precision() == precision
                    && t.spec_scale() == scale,
                Err(e) => !valid_decimal(precision, scale) && e@ is InvalidDecimal,
            },
    {
        if precision == 0 || precision > MAX_DECIMAL_PRECISION {
            return Err(Error::InvalidDecimal("precision must be in range 1..38".to_owned()));
        }
        if scale > precision {
            return Err(Error::InvalidDecimal("scale must not exceed the precision".to_owned()));
        }
        Ok(DecimalType { precision, scale })
    }

    /// The number of digits.
    pub fn precision(&self) -> (r: u8)
        ensures
            r == self.spec_precision(),
            valid_decimal(self.spec_precision(), self.spec_scale()),
    {
        proof {
            use_type_invariant(self);
        }
        self.precision
    }

    /// The number of digits behind the point.
    pub fn scale(&self) -> (r: u8)
        ensures
            r == self.spec_scale(),
            valid_decimal(self.spec_precision(), self.spec_scale()),
    {
        proof {
            use_type_invariant(self);
        }
        self.scale
    }
}

impl PrimitiveType {
    /// A decimal type of the given precision and scale.
    pub fn decimal(precision: u8, scale: u8) -> (r: DeltaResult<PrimitiveType>)
        ensures
            match r {
                Ok(PrimitiveType::Decimal(t)) => valid_decimal(precision, scale)
                    && t.spec_precision() == precision && t.spec_scale() == scale,
                Ok(_) => false,
                Err(e) => !valid_decimal(precision, scale) && e@ is InvalidDecimal,
            },
    {
        match DecimalType::try_new(precision, scale) {
            Ok(t) => Ok(PrimitiveType::Decimal(t)),
            Err(e) => Err(e),
        }
    }
}

/// Two decimal types of the same precision and scale are the same.
pub proof fn lemma_decimal_type_eq(a: DecimalType, b: DecimalType)
    requires
        a.spec_precision() == b.spec_precision(),
        a.spec_scale() == b.spec_scale(),
    ensures
        a == b,
{
}

impl DataType {
    /// A copy of this type.
    fn duplicate(&self) -> (r: DataType)
        ensures
            r@ == self@,
        decreases self,
    {
        match self {
            DataType::Primitive(p) => DataType::Primitive(*p),
            DataType::Array(a) => DataType::Array(
                Box::new(
                    ArrayType {
                        element_type: a.element_type.duplicate(),
                        contains_null: a.contains_null,
                    },
                ),
            ),
            DataType::Struct(s) => DataType::Struct(Box::new(s.duplicate())),
            DataType::Mapping(m) => DataType::Mapping(
                Box::new(
                    MapType {
                        key_type: m.key_type.duplicate(),
                        value_type: m.value_type.duplicate(),
                        value_contains_null: m.value_contains_null,
                    },
                ),
            ),
            DataType::Variant(s) => DataType::Variant(Box::new(s.duplicate())),
        }
    }
}

impl Clone for DataType {
    fn clone(&self) -> (r: Self)
        ensures
            r@ == self@,
    {
        self.duplicate()
    }
}

proof fn lemma_metadata_insert(
    metadata: Map<Seq<char>, MetadataValue>,
    key: Seq<char>,
    value: MetadataValue,
)
    ensures
        metadata_view(metadata.insert(key, value)) == metadata_view(metadata).insert(key, value@),
{
    assert(metadata_view(metadata.insert(key, value)) =~= metadata_view(metadata).insert(
        key,
        value@,
    ));
}

/// A copy of the metadata of a field.
fn duplicate_metadata(metadata: &StringMap<MetadataValue>) -> (r: StringMap<MetadataValue>)
    ensures
        metadata_view(r@) == metadata_view(metadata@),
{
    let mut out: StringMap<MetadataValue> = StringMap::new();
    let entries = metadata.entries();
    let mut i: usize = 0;
    while i < entries.len()
        invariant
            i <= entries@.len(),
            entries_map(entries@) == metadata@,
            distinct_keys(entries@),
            metadata_view(out@) =~= metadata_view(entries_map(entries@.take(i as int))),
        decreases entries@.len() - i,
    {
        let value = entries[i].1.clone();
        proof {
            let done = entries@.take(i + 1);
            assert(done.drop_last() =~= entries@.take(i as int));
            lemma_metadata_insert(out@, entries@[i as int].0@, value);
            lemma_metadata_insert(
                entries_map(entries@.take(i as int)),
                entries@[i as int].0@,
                entries@[i as int].1,
            );
        }
        out.insert(entries[i].0.clone(), value);
        i += 1;
    }
    assert(entries@.take(i as int) =~= entries@);
    out
}

impl StructField {
    /// A field of the given name, type and nullability, without metadata.
    pub fn new(name: &str, data_type: DataType, nullable: bool) -> (r: StructField)
        ensures
            r@ == (FieldView {
                name: name@,
                data_type: data_type@,
                nullable,
                metadata: Map::empty(),
            }),
    {
        let metadata: StringMap<MetadataValue> = StringMap::new();
        assert(metadata_view(metadata@) =~= Map::empty());
        StructField { name: name.to_owned(), data_type, nullable, metadata }
    }

    /// A field that may be null.
    pub fn nullable(name: &str, data_type: DataType) -> (r: StructField)
        ensures
            r@ == (FieldView {
                name: name@,
                data_type: data_type@,
                nullable: true,
                metadata: Map::empty(),
            }),
    {
        StructField::new(name, data_type, true)
    }

    /// A field that is never null.
    pub fn not_null(name: &str, data_type: DataType) -> (r: StructField)
        ensures
            r@ == (FieldView {
                name: name@,
                data_type: data_type@,
                nullable: false,
                metadata: Map::empty(),
            }),
    {
        StructField::new(name, data_type, false)
    }

    /// The same field with the given metadata.
    pub fn with_metadata(self, metadata: StringMap<MetadataValue>) -> (r: StructField)
        ensures
            r@ == (FieldView { metadata: metadata_view(metadata@), ..self@ }),
    {
        StructField { metadata, ..self }
    }

    /// The name of the field.
    pub fn name(&self) -> (r: &str)
        ensures
            r@ == self@.name,
    {
        self.name.as_str()
    }

    /// The type of the field.
    pub fn data_type(&self) -> (r: &DataType)
        ensures
            *r == self.data_type,
            r@ == self@.data_type,
    {
        &self.data_type
    }

    /// A copy of this field.
    fn duplicate(&self) -> (r: StructField)
        ensures
            r@ == self@,
        decreases self,
    {
        StructField {
            name: self.name.clone(),
            data_type: self.data_type.duplicate(),
            nullable: self.nullable,
            metadata: duplicate_metadata(&self.metadata),
        }
    }
}

impl Clone for StructField {
    fn clone(&self) -> (r: Self)
        ensures
            r@ == self@,
    {
        self.duplicate()
    }
}

impl StructType {
    #[verifier::type_invariant]
    spec fn names_are_distinct(self) -> bool {
        distinct_names(field_views(self.fields@))
    }

    proof fn lemma_view(self)
        ensures
            self@ == field_views(self.fields@),
    {
        assert(self@ =~= field_views(self.fields@));
    }

    /// The struct type with the given fields, which must have distinct names.
    pub fn try_new(fields: Vec<StructField>) -> (r: DeltaResult<StructType>)
        ensures
            match r {
                Ok(t) => distinct_names(field_views(fields@)) && t@ == field_views(fields@),
                Err(e) => !distinct_names(field_views(fields@)) && (exists|i: int| #[trigger]
                    first_repeated(field_views(fields@), i) && e@ == ErrorView::Schema(
                        "Duplicate field name: "@ + field_views(fields@)[i].name,
                    )),
            },
    {
        let ghost views = field_views(fields@);
        let mut i: usize = 0;
        while i < fields.len()
            invariant
                i <= fields@.len(),
                views == field_views(fields@),
                distinct_names(views.take(i as int)),
            decreases fields@.len() - i,
        {
            let mut j: usize = 0;
            while j < i
                invariant
                    j <= i < fields@.len(),
                    views == field_views(fields@),
                    distinct_names(views.take(i as int)),
                    forall|k: int| 0 <= k < j ==> (#[trigger] views[k]).name != views[i as int].name,
                decreases i - j,
            {
                if same_text(fields[j].name.as_str(), fields[i].name.as_str()) {
                    proof {
                        assert(views.take(i as int)[j as int].name == views[i as int].name);
                        assert(first_repeated(views, i as int));
                        assert(views[j as int].name == views[i as int].name);
                    }
                    return Err(
                        Error::Schema(join2("Duplicate field name: ", fields[i].name.as_str())),
                    );
                }
                j += 1;
            }
            proof {
                assert forall|a: int, b: int| 0 <= a < b < i + 1 implies (#[trigger] views.take(
                    i + 1,
                )[a]).name != (#[trigger] views.take(i + 1)[b]).name by {
                    if b < i {
                        assert(views.take(i as int)[a] == views[a]);
                        assert(views.take(i as int)[b] == views[b]);
                    } else {
                        assert(views[a].name != views[i as int].name);
                    }
                }
            }
            i += 1;
        }
        assert(views.take(i as int) =~= views);
        let r = StructType { fields };
        proof {
            r.lemma_view();
        }
        Ok(r)
    }

    /// The struct type with the given fields, whose names are distinct.
    pub fn new_unchecked(fields: Vec<StructField>) -> (r: StructType)
        requires
            distinct_names(field_views(fields@)),
        ensures
            r@ == field_views(fields@),
    {
        let r = StructType { fields };
        proof {
            r.lemma_view();
        }
        r
    }

    /// The fields, in order.
    pub fn fields(&self) -> (r: &Vec<StructField>)
        ensures
            field_views(r@) == self@,
            distinct_names(self@),
            forall|i: int| 0 <= i < r@.len() ==> decreases_to!(self => #[trigger] r@[i]),
    {
        proof {
            use_type_invariant(self);
            self.lemma_view();
        }
        &self.fields
    }

    /// The number of fields.
    pub fn num_fields(&self) -> (r: usize)
        ensures
            r == self@.len(),
    {
        self.fields.len()
    }

    /// The field of the given name.
    pub fn field(&self, name: &str) -> (r: Option<&StructField>)
        ensures
            distinct_names(self@),
            match r {
                Some(f) => f@.name == name@ && self@.contains(f@) && decreases_to!(self => *f),
                None => !has_name(self@, name@),
            },
    {
        proof {
            use_type_invariant(self);
            self.lemma_view();
        }
        let mut i: usize = 0;
        while i < self.fields.len()
            invariant
                i <= self.fields@.len(),
                self@ == field_views(self.fields@),
                distinct_names(self@),
                forall|k: int| 0 <= k < i ==> (#[trigger] self@[k]).name != name@,
            decreases self.fields@.len() - i,
        {
            if same_text(self.fields[i].name.as_str(), name) {
                assert(self@[i as int] == self.fields@[i as int]@);
                return Some(&self.fields[i]);
            }
            assert(self@[i as int] == self.fields@[i as int]@);
            i += 1;
        }
        None
    }

    /// A copy of this struct type.
    fn duplicate(&self) -> (r: StructType)
        ensures
            r@ == self@,
        decreases self,
    {
        proof {
            use_type_invariant(self);
            self.lemma_view();
        }
        let mut fields: Vec<StructField> = Vec::new();
        let mut i: usize = 0;
        while i < self.fields.len()
            invariant
                i <= self.fields@.len(),
                fields@.len() == i,
                forall|k: int| 0 <= k < i ==> (#[trigger] fields@[k])@ == self.fields@[k]@,
            decreases self.fields@.len() - i,
        {
            assert(decreases_to!(self.fields => self.fields@[i as int]));
            fields.push(self.fields[i].duplicate());
            i += 1;
        }
        assert(field_views(fields@) =~= field_views(self.fields@));
        let r = StructType { fields };
        proof {
            r.lemma_view();
        }
        r
    }
}

impl Clone for StructType {
    fn clone(&self) -> (r: Self)
        ensures
            r@ == self@,
    {
        self.duplicate()
    }
}

} // verus!
