use std::sync::Arc;

use delta_kernel_core::expressions::{ColumnName, Expression, ExpressionRef, Scalar};
use delta_kernel_core::schema::{DataType, PrimitiveType, StructField, StructType};
use delta_kernel_core::struct_patch::{
    ExpressionFieldPatch, ExpressionStructPatch, StructPatchBuilder,
};
use delta_kernel_core::test_support::assert_result_error_with_message;

fn lit_str(value: &str) -> ExpressionRef {
    Arc::new(Expression::literal(Scalar::String(value.to_string())))
}

fn lit_bool(value: bool) -> ExpressionRef {
    Arc::new(Expression::literal(Scalar::Boolean(value)))
}

fn lit_int(value: i32) -> ExpressionRef {
    Arc::new(Expression::literal(Scalar::Integer(value)))
}

fn path(names: &[&str]) -> ColumnName {
    ColumnName::new(names.iter().map(|n| n.to_string()).collect())
}

fn expressions() -> StructPatchBuilder<ExpressionRef> {
    StructPatchBuilder::new()
}

fn fields() -> StructPatchBuilder<StructField> {
    StructPatchBuilder::new()
}

fn same(a: &[ExpressionRef], b: &[ExpressionRef]) {
    assert_eq!(format!("{a:?}"), format!("{b:?}"));
}

#[test]
fn struct_patch_builder_lowers_nested_paths_to_raw_patches() {
    let patch = expressions()
        .drop_at(path(&["add"]), "gone")
        .replace_at(path(&["add"]), "stub", lit_str("replaced"))
        .insert_after_at(path(&["add"]), "x", lit_bool(true))
        .insert_after("add", lit_str("after_add"))
        .build()
        .unwrap();

    let add_patch = patch.field_patches.get("add").unwrap();
    assert!(!add_patch.keep_input);
    assert_eq!(add_patch.insertions.len(), 2);

    let Expression::StructPatch(inner) = add_patch.insertions[0].as_ref() else {
        panic!("Expected nested struct patch");
    };
    assert_eq!(inner.input_path.as_ref().map(|p| p.to_text()).as_deref(), Some("add"));

    let gone = inner.field_patches.get("gone").unwrap();
    assert!(!gone.keep_input);
    assert!(gone.insertions.is_empty());

    let stub = inner.field_patches.get("stub").unwrap();
    assert!(!stub.keep_input);
    same(&stub.insertions, &[lit_str("replaced")]);

    let x = inner.field_patches.get("x").unwrap();
    assert!(x.keep_input);
    same(&x.insertions, &[lit_bool(true)]);

    same(&add_patch.insertions[1..], &[lit_str("after_add")]);
}

#[test]
fn struct_patch_builder_allows_empty_root_patches() {
    let patch = expressions().build().unwrap();
    assert!(patch.is_empty());
    assert!(patch.input_path().is_none());

    let nested_patch = StructPatchBuilder::<ExpressionRef>::new_nested(path(&["nested"]))
        .build()
        .unwrap();
    assert!(nested_patch.is_empty());
    assert_eq!(nested_patch.input_path().map(|p| p.to_text()).as_deref(), Some("nested"));
}

#[test]
fn a_patch_with_an_edit_is_not_empty() {
    assert!(!expressions().prepend(lit_int(1)).build().unwrap().is_empty());
    assert!(!expressions().append(lit_int(1)).build().unwrap().is_empty());
    assert!(!expressions().drop("a").build().unwrap().is_empty());
}

#[test]
fn a_builder_converts_to_the_patch_that_it_builds() {
    let patch = ExpressionStructPatch::try_from(expressions().append(lit_int(1))).unwrap();
    same(&patch.appended_fields, &[lit_int(1)]);
    assert!(ExpressionStructPatch::try_from(expressions().drop("a").drop("a")).is_err());
}

fn rejects(builder: StructPatchBuilder<ExpressionRef>, expected_msg: &str) {
    assert_eq!(assert_result_error_with_message(builder.build(), expected_msg), Ok(()));
}

#[test]
fn expression_build_rejects_drop_then_replace() {
    rejects(expressions().drop("a").replace("a", lit_int(1)), "multiple input field actions");
}

#[test]
fn expression_build_rejects_replace_then_drop() {
    rejects(expressions().replace("a", lit_int(1)).drop("a"), "multiple input field actions");
}

#[test]
fn expression_build_rejects_drop_with_nested_insert() {
    rejects(
        expressions().drop("add").insert_after_at(path(&["add"]), "x", lit_bool(true)),
        "nested fields",
    );
}

#[test]
fn expression_build_rejects_nested_replace_then_drop() {
    rejects(
        expressions()
            .replace_at(path(&["add"]), "x", lit_str("one"))
            .drop_at(path(&["add"]), "x"),
        "multiple input field actions",
    );
}

#[test]
fn calls_that_are_not_adjacent_can_conflict() {
    rejects(
        expressions().drop("a").append(lit_int(1)).insert_after("b", lit_int(2)).replace("a", lit_int(3)),
        "Field 'a' has multiple input field actions",
    );
    rejects(
        expressions().drop_if_exists("a").drop("b").insert_after("a", lit_int(1)),
        "Field 'a' cannot combine optional drop with insert-after",
    );
    rejects(
        expressions().insert_after("a", lit_int(1)).drop("b").drop_if_exists("a"),
        "Field 'a' cannot combine optional drop with insert-after",
    );
    assert!(expressions().insert_after("a", lit_int(1)).drop("b").drop("a").build().is_ok());
}

#[test]
fn the_first_conflict_is_reported() {
    let message = |b: StructPatchBuilder<ExpressionRef>| b.build().unwrap_err().to_text();
    let first = message(expressions().drop("a").replace("a", lit_int(1)));
    let both = message(
        expressions()
            .drop("a")
            .replace("a", lit_int(1))
            .drop("b")
            .replace_at(path(&["b"]), "x", lit_int(2)),
    );
    assert_eq!(first, both);
}

fn field(name: &str) -> StructField {
    StructField::nullable(name, DataType::Primitive(PrimitiveType::Integer))
}

fn schema(names: &[&str]) -> StructType {
    StructType::try_new(names.iter().map(|name| field(name)).collect()).unwrap()
}

fn field_names(schema: &StructType) -> Vec<String> {
    schema.fields().iter().map(|field| field.name().to_string()).collect()
}

fn nested_input_schema() -> StructType {
    StructType::try_new(vec![
        StructField::nullable(
            "nested",
            DataType::Struct(Box::new(schema(&["nested_a", "nested_b"]))),
        ),
        field("top"),
    ])
    .unwrap()
}

fn preserves(builder: StructPatchBuilder<StructField>) {
    let input_schema = schema(&["a", "b"]);
    let output_schema = builder.build(&input_schema).unwrap();
    assert_eq!(format!("{output_schema:?}"), format!("{input_schema:?}"));
}

#[test]
fn schema_build_preserves_input_schema_empty_patch() {
    preserves(fields());
}

#[test]
fn schema_build_preserves_input_schema_optional_missing_drop() {
    preserves(fields().drop_if_exists("missing"));
}

fn produces(input: StructType, builder: StructPatchBuilder<StructField>, expected: &[&str]) {
    let output_schema = builder.build(&input).unwrap();
    assert_eq!(field_names(&output_schema), expected);
}

#[test]
fn schema_build_empty_nested_path_targets_top_level() {
    produces(
        schema(&["a", "b"]),
        StructPatchBuilder::new_nested(path(&[])).insert_after("a", field("after_a")),
        &["a", "after_a", "b"],
    );
}

#[test]
fn schema_build_inserts_before_and_after() {
    produces(
        schema(&["a", "b"]),
        fields().prepend(field("prepended")).insert_after("a", field("after_a")),
        &["prepended", "a", "after_a", "b"],
    );
}

#[test]
fn schema_build_appends_after_all_input_fields() {
    produces(
        schema(&["a", "b"]),
        fields().append(field("appended_1")).append(field("appended_2")),
        &["a", "b", "appended_1", "appended_2"],
    );
}

#[test]
fn schema_build_appends_to_empty_input() {
    produces(schema(&[]), fields().append(field("only")), &["only"]);
}

#[test]
fn schema_build_replaces_field_at_input_position() {
    produces(schema(&["a", "b", "c"]), fields().replace("b", field("bb")), &["a", "bb", "c"]);
}

#[test]
fn schema_build_drops_field() {
    produces(schema(&["a", "b", "c"]), fields().drop("b"), &["a", "c"]);
}

#[test]
fn schema_build_preserves_patch_ordering() {
    produces(
        schema(&["a", "b", "c"]),
        fields()
            .prepend(field("prepended"))
            .insert_after("a", field("after_a"))
            .replace("b", field("bb"))
            .drop("c")
            .append(field("appended")),
        &["prepended", "a", "after_a", "bb", "appended"],
    );
}

#[test]
fn edits_of_different_fields_can_be_made_in_any_order() {
    let one = fields().drop("a").insert_after("b", field("x"));
    let other = fields().insert_after("b", field("x")).drop("a");
    produces(schema(&["a", "b"]), one, &["b", "x"]);
    produces(schema(&["a", "b"]), other, &["b", "x"]);
}

#[test]
fn schema_build_nested_path_targets_nested_struct_schema() {
    let input_schema = nested_input_schema();
    let output_schema = StructPatchBuilder::new_nested(path(&["nested"]))
        .insert_after("nested_a", field("nested_inserted"))
        .build(&input_schema)
        .unwrap();

    assert_eq!(field_names(&output_schema), ["nested_a", "nested_inserted", "nested_b"]);
}

#[test]
fn schema_build_nested_field_patch_patches_in_place() {
    let input_schema = nested_input_schema();
    let output_schema = fields()
        .insert_after_at(path(&["nested"]), "nested_a", field("nested_inserted"))
        .build(&input_schema)
        .unwrap();

    assert_eq!(field_names(&output_schema), ["nested", "top"]);
    let DataType::Struct(nested) = output_schema.field("nested").unwrap().data_type() else {
        panic!("Expected nested struct field");
    };
    assert_eq!(field_names(nested), ["nested_a", "nested_inserted", "nested_b"]);
}

fn misses(builder: StructPatchBuilder<StructField>) {
    let result = builder.build(&schema(&["a", "b"]));
    assert_eq!(
        assert_result_error_with_message(result, "Field to patch does not exist: missing"),
        Ok(())
    );
}

#[test]
fn schema_build_required_missing_field_errors() {
    misses(fields().drop("missing"));
}

#[test]
fn schema_build_required_missing_with_optional_match_errors() {
    misses(fields().drop_if_exists("a").drop("missing"));
}

#[test]
fn a_nested_patch_of_a_field_that_is_no_struct_is_an_error() {
    let result = fields()
        .drop_at(path(&["top"]), "x")
        .build(&nested_input_schema());
    assert_eq!(
        result.unwrap_err().to_text(),
        "Generic delta kernel error: Cannot patch nested fields under non-struct field 'top'"
    );
}

#[test]
fn an_input_path_to_a_field_that_is_no_struct_is_an_error() {
    let result = StructPatchBuilder::<StructField>::new_nested(path(&["top"]))
        .build(&nested_input_schema());
    assert_eq!(
        result.unwrap_err().to_text(),
        "Generic delta kernel error: Patching failed: input path 'top' references a non-struct field"
    );
}

#[test]
fn a_repeated_output_field_is_an_error() {
    let result = fields().append(field("a")).build(&schema(&["a"]));
    assert!(result.unwrap_err().to_text().contains("a"));
}

#[test]
fn column_names_are_split_joined_and_written() {
    let name = ColumnName::from_naive_str_split("a.b");
    assert_eq!(name.path(), &["a", "b"]);
    let joined = name.join(&path(&["c d"]));
    assert_eq!(joined.to_text(), "a.b.`c d`");
    assert_eq!(path(&["with`tick"]).to_text(), "`with``tick`");
}

#[test]
fn calls_that_share_no_list_can_change_places() {
    let inner = || path(&["s"]);
    let one = expressions()
        .drop("a")
        .insert_after("a", lit_int(1))
        .replace_at(inner(), "x", lit_int(2))
        .append_at(path(&["s", "t"]), lit_int(3))
        .append(lit_int(4))
        .prepend(lit_int(5));
    let other = expressions()
        .prepend(lit_int(5))
        .append_at(path(&["s", "t"]), lit_int(3))
        .append(lit_int(4))
        .insert_after("a", lit_int(1))
        .replace_at(inner(), "x", lit_int(2))
        .drop("a");
    assert_eq!(one.build().unwrap(), other.build().unwrap());
}

#[test]
fn calls_that_share_a_list_are_kept_in_order() {
    let one = expressions().append(lit_int(1)).append(lit_int(2)).build().unwrap();
    let other = expressions().append(lit_int(2)).append(lit_int(1)).build().unwrap();
    assert_ne!(one, other);
}

#[test]
fn a_drop_and_an_insertion_build_what_a_replacement_builds() {
    let replaced = expressions().replace("a", lit_int(1)).append(lit_int(2)).build().unwrap();
    for dropped in [
        expressions().drop("a").insert_after("a", lit_int(1)),
        expressions().insert_after("a", lit_int(1)).drop("a"),
    ] {
        assert_eq!(dropped.append(lit_int(2)).build().unwrap(), replaced);
    }
    let input = schema(&["a", "b"]);
    let replaced = fields().replace("a", field("c")).build(&input).unwrap();
    let dropped = fields().drop("a").insert_after("a", field("c")).build(&input).unwrap();
    assert_eq!(dropped, replaced);
    assert_eq!(field_names(&replaced), ["c", "b"]);
}

#[test]
fn patches_are_copied_and_compared() {
    let patch = expressions().drop("a").replace("b", lit_int(1)).build().unwrap();
    assert_eq!(patch.clone(), patch);
    assert_ne!(patch, expressions().drop("a").build().unwrap());
    let empty = ExpressionStructPatch::default();
    assert!(empty.is_empty());
    assert_eq!(empty, expressions().build().unwrap());
    let unchanged = ExpressionFieldPatch::default();
    assert!(!unchanged.keep_input && !unchanged.optional);
    assert!(unchanged.insertions.is_empty());
}
