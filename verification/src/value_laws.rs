//! What values are made of: types, fields, schemas, expressions, actions and locations.

use vstd::prelude::*;

use crate::actions::{DomainMetadata, FileMeta, SetTransaction};
use crate::crc::{FileSizeHistogram, FileStatsDelta};
use crate::error::{DeltaResult, Error};
use crate::expressions::{
    BinaryExpressionOp, BinaryPredicateOp, ColumnName, Expression, JunctionPredicateOp, Predicate,
    Scalar, UnaryPredicateOp,
};
use crate::location::{file_at, parse_location, parsed_url};
use crate::plans::nodes::{NodeKind, ScanFile};
use crate::schema::{
    field_views, has_name, DataType, DataTypeView, DecimalType, FieldView, MetadataValue,
    PrimitiveType, StructField, StructType,
};
use crate::string_map::StringMap;
use crate::unity_catalog::{columns_to_json, json_of_paths};
use crate::test_support::{
    assert_result_error_with_message, nested_field_with_same_phy_path,
    same_leaf_phy_name_under_different_parents, time_to_ms,
};

verus! {

// === Types ===

/// A decimal type has between 1 and 38 digits, of which not more than all stand behind the point. It keeps both numbers.
pub proof fn law_decimal_types(
    precision: u8,
    scale: u8,
    r: DeltaResult<DecimalType>,
    p: u8,
    s: u8,
)
    requires
        call_ensures(DecimalType::try_new, (precision, scale), r),
        r is Ok ==> call_ensures(DecimalType::precision, (&r->Ok_0,), p),
        r is Ok ==> call_ensures(DecimalType::scale, (&r->Ok_0,), s),
    ensures
        r is Ok <==> 1 <= precision && precision <= 38 && scale <= precision,
        r is Ok ==> p == precision && s == scale,
        r is Err ==> r->Err_0 is InvalidDecimal,
{
}

/// A primitive decimal type and a decimal value are there exactly where the decimal type is, and hold what they were made of.
pub proof fn law_decimals_have_decimal_types(
    bits: i128,
    precision: u8,
    scale: u8,
    ty: DeltaResult<DecimalType>,
    primitive: DeltaResult<PrimitiveType>,
    value: DeltaResult<Scalar>,
)
    requires
        call_ensures(DecimalType::try_new, (precision, scale), ty),
        call_ensures(PrimitiveType::decimal, (precision, scale), primitive),
        call_ensures(Scalar::decimal, (bits, precision, scale), value),
    ensures
        ty is Ok <==> primitive is Ok,
        ty is Ok <==> value is Ok,
        primitive is Ok ==> primitive->Ok_0 == PrimitiveType::Decimal(ty->Ok_0),
        value is Ok ==> value->Ok_0 is Decimal && value->Ok_0->Decimal_0.bits == bits
            && value->Ok_0->Decimal_0.ty == ty->Ok_0,
        primitive is Err ==> primitive->Err_0 is InvalidDecimal,
        value is Err ==> value->Err_0 is InvalidDecimal,
{
    if ty is Ok {
        let t = ty->Ok_0;
        crate::schema::lemma_decimal_type_eq(primitive->Ok_0->Decimal_0, t);
        crate::schema::lemma_decimal_type_eq(value->Ok_0->Decimal_0.ty, t);
    }
}

// === Fields and schemas ===

/// A new field has the name, the type and the nullability that it was made with, and no metadata.
pub proof fn law_new_fields(
    name: &str,
    data_type: DataType,
    nullable: bool,
    field: StructField,
    optional: StructField,
    required: StructField,
)
    requires
        call_ensures(StructField::new, (name, data_type, nullable), field),
        call_ensures(StructField::nullable, (name, data_type), optional),
        call_ensures(StructField::not_null, (name, data_type), required),
    ensures
        field.name@ == name@ && optional.name@ == name@ && required.name@ == name@,
        field.data_type@ == data_type@,
        optional.data_type@ == data_type@,
        required.data_type@ == data_type@,
        field.nullable == nullable && optional.nullable && !required.nullable,
        forall|k: Seq<char>| !(#[trigger] field.metadata@.contains_key(k)),
        forall|k: Seq<char>| !(#[trigger] optional.metadata@.contains_key(k)),
        forall|k: Seq<char>| !(#[trigger] required.metadata@.contains_key(k)),
{
    lemma_no_metadata(field);
    lemma_no_metadata(optional);
    lemma_no_metadata(required);
}

proof fn lemma_no_metadata(field: StructField)
    requires
        field@.metadata == Map::<Seq<char>, crate::schema::MetadataView>::empty(),
    ensures
        forall|k: Seq<char>| !(#[trigger] field.metadata@.contains_key(k)),
{
    assert forall|k: Seq<char>| !(#[trigger] field.metadata@.contains_key(k)) by {
        assert(!field@.metadata.contains_key(k));
    }
}

/// A field with other metadata has that metadata, and is the same field else. Its name and its type can be asked for.
pub proof fn law_field_with_metadata(
    field: StructField,
    metadata: StringMap<MetadataValue>,
    r: StructField,
    name: &str,
    data_type: &DataType,
)
    requires
        call_ensures(StructField::with_metadata, (field, metadata), r),
        call_ensures(StructField::name, (&r,), name),
        call_ensures(StructField::data_type, (&r,), data_type),
    ensures
        r.name@ == field.name@,
        r.data_type@ == field.data_type@,
        r.nullable == field.nullable,
        forall|k: Seq<char>| #[trigger]
            r.metadata@.contains_key(k) <==> #[trigger] metadata@.contains_key(k),
        forall|k: Seq<char>| #[trigger]
            metadata@.contains_key(k) ==> r.metadata@[k]@ == metadata@[k]@,
        name@ == field.name@,
        *data_type == r.data_type,
{
    let other = StructField { metadata, ..field };
    assert(other@ == r@);
    crate::view_laws::law_view_tells_field(other, r);
}

/// A struct has the fields that it was made of, in order. It cannot be made where two of them have one name, and the error gives that name.
pub proof fn law_struct_has_its_fields(
    fields: Vec<StructField>,
    r: DeltaResult<StructType>,
    held: &Vec<StructField>,
    n: usize,
)
    requires
        call_ensures(StructType::try_new, (fields,), r),
        r is Ok ==> call_ensures(StructType::fields, (&r->Ok_0,), held),
        r is Ok ==> call_ensures(StructType::num_fields, (&r->Ok_0,), n),
    ensures
        r is Ok <==> forall|i: int, j: int|
            0 <= i < j < fields@.len() ==> (#[trigger] fields@[i]).name@ != (#[trigger] fields@[j]).name@,
        r is Ok ==> n == fields@.len() && held@.len() == fields@.len() && forall|i: int|
            0 <= i < fields@.len() ==> (#[trigger] held@[i])@ == fields@[i]@,
        r is Err ==> exists|i: int, j: int|
            0 <= i < j < fields@.len() && (#[trigger] fields@[i]).name@ == (#[trigger] fields@[j]).name@
                && r->Err_0 is Schema && r->Err_0->Schema_0@ == "Duplicate field name: "@
                + fields@[j].name@,
{
    let views = field_views(fields@);
    assert(forall|i: int| 0 <= i < fields@.len() ==> #[trigger] views[i] == fields@[i]@);
    if r is Ok {
        assert forall|i: int, j: int| 0 <= i < j < fields@.len() implies (#[trigger] fields@[i]).name@
            != (#[trigger] fields@[j]).name@ by {
            assert(views[i].name != views[j].name);
        }
        let other = field_views(held@);
        assert(other.len() == held@.len());
        assert forall|i: int| 0 <= i < fields@.len() implies (#[trigger] held@[i])@ == fields@[i]@ by {
            assert(other[i] == views[i]);
        }
    } else {
        let j = choose|j: int| #[trigger]
            crate::schema::first_repeated(views, j) && r->Err_0@
                == crate::error::ErrorView::Schema("Duplicate field name: "@ + views[j].name);
        let before = views.take(j);
        assert(has_name(before, views[j].name));
        let i = choose|i: int| 0 <= i < before.len() && (#[trigger] before[i]).name == views[j].name;
        assert(before[i] == views[i]);
        assert(fields@[i].name@ == fields@[j].name@);
    }
}

/// The field of a name is the one of the struct's fields that has the name. None is found exactly where none has it.
pub proof fn law_field_is_found_by_name(
    s: StructType,
    name: &str,
    r: Option<&StructField>,
    held: &Vec<StructField>,
)
    requires
        call_ensures(StructType::field, (&s, name), r),
        call_ensures(StructType::fields, (&s,), held),
    ensures
        r is None ==> forall|i: int| 0 <= i < held@.len() ==> (#[trigger] held@[i]).name@ != name@,
        r is Some ==> exists|i: int|
            0 <= i < held@.len() && (#[trigger] held@[i]).name@ == name@ && held@[i]@ == r->0@ && forall|
                j: int,
            |
                0 <= j < held@.len() && j != i ==> (#[trigger] held@[j]).name@ != name@,
{
    let views = field_views(held@);
    assert(forall|i: int| 0 <= i < held@.len() ==> #[trigger] views[i] == held@[i]@);
    match r {
        None => {
            assert forall|i: int| 0 <= i < held@.len() implies (#[trigger] held@[i]).name@ != name@ by {
                assert(views[i].name != name@);
            }
        },
        Some(field) => {
            let i = choose|i: int| 0 <= i < views.len() && views[i] == field@;
            assert(held@[i]@ == field@);
            assert(held@[i].name@ == name@);
            assert forall|j: int| 0 <= j < held@.len() && j != i implies (#[trigger] held@[j]).name@
                != name@ by {
                assert(views[j].name != views[i].name);
            }
        },
    }
}

/// Copies of types, fields, structs, files and metadata values cannot be told from what they were made of.
pub proof fn law_copies_are_alike(
    ty: DataType,
    ty_copy: DataType,
    field: StructField,
    field_copy: StructField,
    s: StructType,
    s_copy: StructType,
    file: FileMeta,
    file_copy: FileMeta,
    value: MetadataValue,
    value_copy: MetadataValue,
)
    requires
        call_ensures(<DataType as Clone>::clone, (&ty,), ty_copy),
        call_ensures(<StructField as Clone>::clone, (&field,), field_copy),
        call_ensures(<StructType as Clone>::clone, (&s,), s_copy),
        call_ensures(<FileMeta as Clone>::clone, (&file,), file_copy),
        call_ensures(<MetadataValue as Clone>::clone, (&value,), value_copy),
    ensures
        ty_copy@ == ty@,
        field_copy.name@ == field.name@,
        field_copy.data_type@ == field.data_type@,
        field_copy.nullable == field.nullable,
        s_copy@ == s@,
        file_copy.location@ == file.location@,
        file_copy.last_modified == file.last_modified,
        file_copy.size == file.size,
        value_copy@ == value@,
{
}

// === Expressions and predicates ===

/// An expression holds what it was made of.
pub proof fn law_expressions_hold_their_parts(
    value: Scalar,
    op: BinaryExpressionOp,
    left: Expression,
    right: Expression,
    exprs: Vec<Expression>,
    literal: Expression,
    binary: Expression,
    of_struct: Expression,
)
    requires
        call_ensures(Expression::literal, (value,), literal),
        call_ensures(Expression::binary, (op, left, right), binary),
        call_ensures(Expression::struct_from, (exprs,), of_struct),
    ensures
        literal is Literal && literal->Literal_0 == value,
        binary matches Expression::Binary { op: o, left: l, right: r } && o == op && *l == left && *r
            == right,
        of_struct matches Expression::Struct(fields) && fields@.len() == exprs@.len() && forall|i: int|
            0 <= i < exprs@.len() ==> *(#[trigger] fields@[i]) == exprs@[i],
{
}

/// A predicate holds what it was made of.
pub proof fn law_predicates_hold_their_parts(
    pred: Predicate,
    unary_op: UnaryPredicateOp,
    op: BinaryPredicateOp,
    left: Expression,
    right: Expression,
    junction_op: JunctionPredicateOp,
    preds: Vec<Predicate>,
    negated: Predicate,
    unary: Predicate,
    binary: Predicate,
    junction: Predicate,
)
    requires
        call_ensures(Predicate::not, (pred,), negated),
        call_ensures(Predicate::unary, (unary_op, left), unary),
        call_ensures(Predicate::binary, (op, left, right), binary),
        call_ensures(Predicate::junction, (junction_op, preds), junction),
    ensures
        negated matches Predicate::Not(p) && *p == pred,
        unary matches Predicate::Unary { op: o, expr: e } && o == unary_op && *e == left,
        binary matches Predicate::Binary { op: o, left: l, right: r } && o == op && *l == left && *r
            == right,
        junction matches Predicate::Junction { op: o, preds: p } && o == junction_op && p == preds,
{
}

/// An expression made of a predicate leads back to the predicate, and the other way round, unless the one was only a wrapping of the other.
pub proof fn law_predicates_and_expressions(
    pred: Predicate,
    expr: Expression,
    as_expr: Expression,
    as_pred: Predicate,
    back: Predicate,
    forth: Expression,
)
    requires
        call_ensures(Expression::from_pred, (pred,), as_expr),
        call_ensures(Predicate::from_expr, (expr,), as_pred),
        call_ensures(Predicate::from_expr, (as_expr,), back),
        call_ensures(Expression::from_pred, (as_pred,), forth),
    ensures
        pred matches Predicate::BooleanExpression(e) ==> as_expr == e,
        !(pred is BooleanExpression) ==> as_expr is Predicate && *as_expr->Predicate_0 == pred && back
            == pred,
        expr matches Expression::Predicate(p) ==> as_pred == *p,
        !(expr is Predicate) ==> as_pred == Predicate::BooleanExpression(expr) && forth == expr,
{
}

// === Actions ===

/// A domain is set or removed, and a transaction is one of an application, as it was said.
pub proof fn law_actions_hold_their_parts(
    domain: String,
    configuration: String,
    set: DomainMetadata,
    removed: DomainMetadata,
    text: &str,
    set_removed: bool,
    removed_removed: bool,
    app_id: String,
    version: i64,
    last_updated: Option<i64>,
    txn: SetTransaction,
)
    requires
        call_ensures(DomainMetadata::new, (domain, configuration), set),
        call_ensures(DomainMetadata::remove, (domain, configuration), removed),
        call_ensures(DomainMetadata::configuration, (&set,), text),
        call_ensures(DomainMetadata::is_removed, (&set,), set_removed),
        call_ensures(DomainMetadata::is_removed, (&removed,), removed_removed),
        call_ensures(SetTransaction::new, (app_id, version, last_updated), txn),
    ensures
        set.domain == domain && set.configuration == configuration && text@ == configuration@,
        removed.domain == domain && removed.configuration == configuration,
        !set_removed,
        removed_removed,
        txn.app_id == app_id && txn.version == version && txn.last_updated == last_updated,
{
}

// === Locations ===

/// A location is the path where that is a URL, else the directory where that is one. Else the path is no location, and the error names it. An error in place of the path comes out as it is.
pub proof fn law_location_is_a_url(
    path: DeltaResult<&str>,
    directory: Option<&str>,
    r: DeltaResult<String>,
)
    requires
        call_ensures(parse_location, (path, directory), r),
    ensures
        path is Err ==> r is Err && r->Err_0 == path->Err_0,
        path is Ok && parsed_url(path->Ok_0@) is Ok ==> r is Ok && r->Ok_0@ == parsed_url(
            path->Ok_0@,
        )->Ok_0,
        path is Ok && parsed_url(path->Ok_0@) is Err && directory is Some && parsed_url(
            directory->0@,
        ) is Ok ==> r is Ok && r->Ok_0@ == parsed_url(directory->0@)->Ok_0,
        path is Ok && parsed_url(path->Ok_0@) is Err && (directory is None || parsed_url(
            directory->0@,
        ) is Err) ==> r is Err && r->Err_0 is InvalidTableLocation
            && r->Err_0->InvalidTableLocation_0@ == path->Ok_0@,
{
}

/// A file stands where its location says, with its size and its time. A location that is no URL is an error, with its cause.
pub proof fn law_file_stands_at_its_location(
    location: Result<String, url::ParseError>,
    last_modified: i64,
    size: u64,
    r: DeltaResult<FileMeta>,
)
    requires
        call_ensures(file_at, (location, last_modified, size), r),
    ensures
        location is Ok ==> r is Ok && r->Ok_0.location == location->Ok_0 && r->Ok_0.last_modified
            == last_modified && r->Ok_0.size == size,
        location is Err ==> r is Err && r->Err_0 is InvalidUrl && r->Err_0->InvalidUrl_0
            == location->Err_0,
{
}

/// Columns are written as JSON by the names on their paths, in order.
pub proof fn law_columns_are_written_by_their_paths(
    columns: Vec<ColumnName>,
    paths: Seq<Seq<Seq<char>>>,
    r: Result<String, String>,
)
    requires
        call_ensures(columns_to_json, (&columns,), r),
        paths.len() == columns@.len(),
        forall|i: int| 0 <= i < paths.len() ==> #[trigger] paths[i] == columns@[i]@,
    ensures
        r is Ok ==> json_of_paths(paths) == Ok::<Seq<char>, Seq<char>>(r->Ok_0@),
        r is Err ==> json_of_paths(paths) == Err::<Seq<char>, Seq<char>>(r->Err_0@),
{
    let written = crate::unity_catalog::column_paths(columns@);
    assert(paths =~= written);
}

// === Statistics ===

/// What a change makes of the number of files and of the bytes is what it adds less what it removes.
pub proof fn law_net_statistics(stats: FileStatsDelta, files: i128, bytes: i128)
    requires
        call_ensures(FileStatsDelta::net_files, (&stats,), files),
        call_ensures(FileStatsDelta::net_bytes, (&stats,), bytes),
    ensures
        files == stats.gross_add_files - stats.gross_remove_files,
        bytes == stats.gross_add_bytes - stats.gross_remove_bytes,
{
}

/// The boundaries of a histogram are those that it was made with, and its counts begin at zero.
pub proof fn law_histogram_has_its_boundaries(
    boundaries: Vec<i64>,
    h: FileSizeHistogram,
    held: &Vec<i64>,
    copy: Vec<i64>,
    counts: &Vec<i64>,
    bytes: &Vec<i64>,
)
    requires
        call_ensures(
            FileSizeHistogram::create_empty_with_boundaries,
            (boundaries,),
            Ok::<FileSizeHistogram, Error>(h),
        ),
        call_ensures(FileSizeHistogram::sorted_bin_boundaries, (&h,), held),
        call_ensures(FileSizeHistogram::boundaries_copy, (&h,), copy),
        call_ensures(FileSizeHistogram::file_counts, (&h,), counts),
        call_ensures(FileSizeHistogram::total_bytes, (&h,), bytes),
    ensures
        held@ == boundaries@,
        copy@ == boundaries@,
        counts@.len() == boundaries@.len() && bytes@.len() == boundaries@.len(),
        forall|i: int| 0 <= i < counts@.len() ==> #[trigger] counts@[i] == 0,
        forall|i: int| 0 <= i < bytes@.len() ==> #[trigger] bytes@[i] == 0,
{
    crate::crc_laws::law_empty_histogram(boundaries, Ok(h));
}

// === Plans ===

/// A file to be scanned is the file, with no values for constant columns.
pub proof fn law_scan_file_is_the_file(meta: FileMeta, new: ScanFile, from: ScanFile)
    requires
        call_ensures(ScanFile::new, (meta,), new),
        call_ensures(<ScanFile as From<FileMeta>>::from, (meta,), from),
    ensures
        new.meta == meta && from.meta == meta,
        new.file_constants@.len() == 0 && from.file_constants@.len() == 0,
{
}

/// An operator is told by its name.
pub proof fn law_operators_have_names(kind: NodeKind, r: &'static str)
    requires
        call_ensures(NodeKind::as_text, (&kind,), r),
    ensures
        kind is ScanParquet ==> r@ == "ScanParquet"@,
        kind is ScanJson ==> r@ == "ScanJson"@,
        kind is Values ==> r@ == "Values"@,
        kind is Project ==> r@ == "Project"@,
        kind is Filter ==> r@ == "Filter"@,
        kind is Load ==> r@ == "Load"@,
        kind is MaxByVersion ==> r@ == "MaxByVersion"@,
        kind is SemiJoin ==> r@ == "SemiJoin"@,
        kind is UnionAll ==> r@ == "UnionAll"@,
{
}

// === Checks for tests ===

/// A time is the same number of milliseconds, as long as that fits.
pub proof fn law_time_in_milliseconds(millis: u128, r: DeltaResult<i64>)
    requires
        call_ensures(time_to_ms, (millis,), r),
    ensures
        r is Ok <==> millis <= 9223372036854775807,
        r is Ok ==> r->Ok_0 == millis,
        r is Err ==> r->Err_0 is Generic && r->Err_0->Generic_0@
            == "Current timestamp exceeds i64 millisecond range"@,
{
}

proof fn lemma_occurs(part: Seq<char>, whole: Seq<char>)
    ensures
        crate::text::occurs_in(part, whole) <==> exists|before: Seq<char>, after: Seq<char>|
            whole == #[trigger] (before + part + after),
{
    if crate::text::occurs_in(part, whole) {
        let i = choose|i: int|
            0 <= i <= whole.len() - part.len() && #[trigger] whole.subrange(i, i + part.len()) == part;
        assert(whole =~= whole.take(i) + part + whole.skip(i + part.len()));
    }
    if exists|before: Seq<char>, after: Seq<char>| whole == #[trigger] (before + part + after) {
        let (before, after) = choose|before: Seq<char>, after: Seq<char>|
            whole == #[trigger] (before + part + after);
        let i = before.len() as int;
        assert(whole.subrange(i, i + part.len()) =~= part);
    }
}

/// The check for an error passes exactly where there is an error whose text holds the message. The complaint says what was there instead.
pub proof fn law_error_check<T>(
    res: DeltaResult<T>,
    message: &str,
    text: String,
    r: Result<(), String>,
)
    requires
        call_ensures(assert_result_error_with_message::<T>, (res, message), r),
        res is Err ==> call_ensures(Error::to_text, (&res->Err_0,), text),
    ensures
        r is Ok <==> res is Err && exists|before: Seq<char>, after: Seq<char>|
            text@ == #[trigger] (before + message@ + after),
        r is Err && res is Ok ==> r->Err_0@ == "Expected error containing '"@ + message@
            + "', but got Ok result"@,
        r is Err && res is Err ==> r->Err_0@ == "Expected error containing '"@ + message@
            + "', got: '"@ + text@ + "'"@,
{
    if res is Err {
        lemma_occurs(message@, text@);
    }
}

/// The physical name of a field.
pub open spec fn physical_name(field: FieldView) -> Seq<char> {
    field.metadata["delta.columnMapping.physicalName"@]->String_0
}

/// The identifier of a field.
pub open spec fn identifier(field: FieldView) -> i64 {
    field.metadata["delta.columnMapping.id"@]->Number_0
}

proof fn lemma_keys_differ()
    ensures
        "delta.columnMapping.id"@ != "delta.columnMapping.physicalName"@,
{
    reveal_strlit("delta.columnMapping.id");
    reveal_strlit("delta.columnMapping.physicalName");
    assert("delta.columnMapping.id"@.len() == 22);
    assert("delta.columnMapping.physicalName"@.len() == 32);
}

/// The leaves of the first schema share a physical name, and their parents do not.
pub proof fn law_leaves_share_a_physical_name(r: StructType)
    requires
        call_ensures(same_leaf_phy_name_under_different_parents, (), r),
    ensures
        r@.len() == 2,
        r@[0].name == "outer1"@ && r@[1].name == "outer2"@,
        physical_name(r@[0]) == "outer1"@ && physical_name(r@[1]) == "outer2"@,
        identifier(r@[0]) == 1 && identifier(r@[1]) == 3,
        ({
            let a = r@[0].data_type->Struct_0;
            let b = r@[1].data_type->Struct_0;
            &&& r@[0].data_type is Struct && r@[1].data_type is Struct
            &&& a.len() == 1 && b.len() == 1
            &&& a[0].name == "a"@ && b[0].name == "a"@
            &&& physical_name(a[0]) == "x"@ && physical_name(b[0]) == "x"@
            &&& identifier(a[0]) == 2 && identifier(b[0]) == 4
            &&& a[0].data_type == DataTypeView::Primitive(PrimitiveType::Integer)
            &&& b[0].data_type == DataTypeView::Primitive(PrimitiveType::Integer)
            &&& a[0].nullable && b[0].nullable && r@[0].nullable && r@[1].nullable
        }),
{
    lemma_keys_differ();
}

/// The leaves of the second schema share a physical name under one path: they lie in a struct in a list in a map.
pub proof fn law_leaves_share_a_physical_path(r: StructType)
    requires
        call_ensures(nested_field_with_same_phy_path, (), r),
    ensures
        r@.len() == 1,
        r@[0].name == "outer"@ && physical_name(r@[0]) == "outer"@ && identifier(r@[0]) == 1,
        r@[0].data_type is Struct && r@[0].data_type->Struct_0.len() == 1,
        ({
            let inner = r@[0].data_type->Struct_0[0];
            &&& inner.name == "inner"@ && physical_name(inner) == "inner"@ && identifier(inner) == 2
            &&& inner.data_type matches DataTypeView::Mapping {
                key_type,
                value_type,
                value_contains_null,
            } && *key_type == DataTypeView::Primitive(PrimitiveType::String) && value_contains_null
                && (*value_type matches DataTypeView::Array { element_type, contains_null }
                && contains_null && (*element_type matches DataTypeView::Struct(leaves)
                && leaves.len() == 2 && leaves[0].name == "a"@ && leaves[1].name == "b"@
                && identifier(leaves[0]) == 3 && identifier(leaves[1]) == 4 && physical_name(leaves[0])
                == "x"@ && physical_name(leaves[1]) == "x"@ && leaves[0].data_type
                == DataTypeView::Primitive(PrimitiveType::Integer) && leaves[1].data_type
                == DataTypeView::Primitive(PrimitiveType::Integer)))
        }),
{
    lemma_keys_differ();
}

} // verus!
