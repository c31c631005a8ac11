//! What holds of every struct patch.

use vstd::prelude::*;

use crate::schema::{distinct_names, field_views, has_name, FieldView, StructField};
use crate::struct_patch::{
    all_output, empty_node, misses, patched_field, patched_fields, patched_schema, BuilderView,
    PatchAction, PatchEdit, PatchNode,
};

verus! {

/// After an error, further edits change nothing: the first error is the one that comes out.
pub proof fn law_first_error_stays<Item>(
    builder: BuilderView<Item>,
    path: Seq<Seq<char>>,
    edit: PatchEdit<Item>,
)
    requires
        builder.root is Err,
    ensures
        builder.edit_at(path, edit) == builder,
{
}

/// A drop or a replacement of the named field.
pub open spec fn destroys<Item>(edit: PatchEdit<Item>, name: Seq<char>) -> bool {
    match edit {
        PatchEdit::Drop(field, _) => field == name,
        PatchEdit::Replace(field, _) => field == name,
        _ => false,
    }
}

/// A field that was dropped or replaced cannot be dropped or replaced again.
pub proof fn law_second_action_is_rejected<Item>(
    node: PatchNode<Item>,
    path: Seq<Seq<char>>,
    name: Seq<char>,
    first: PatchEdit<Item>,
    second: PatchEdit<Item>,
)
    requires
        destroys(first, name),
        destroys(second, name),
        node.edit_at(path, first) is Ok,
    ensures
        node.edit_at(path, first)->Ok_0.edit_at(path, second) == Err::<PatchNode<Item>, Seq<char>>(
            "Field '"@ + name + "' has multiple input field actions"@,
        ),
    decreases path.len(),
{
    if path.len() > 0 {
        law_second_action_is_rejected(
            node.child(path[0])->0,
            path.drop_first(),
            name,
            first,
            second,
        );
    }
}

/// A struct field with edits inside cannot be dropped or replaced.
pub proof fn law_action_after_nested_edit_is_rejected<Item>(
    node: PatchNode<Item>,
    path: Seq<Seq<char>>,
    name: Seq<char>,
    inside: Seq<Seq<char>>,
    first: PatchEdit<Item>,
    second: PatchEdit<Item>,
)
    requires
        destroys(second, name),
        node.edit_at(path + seq![name] + inside, first) is Ok,
    ensures
        node.edit_at(path + seq![name] + inside, first)->Ok_0.edit_at(path, second) == Err::<
            PatchNode<Item>,
            Seq<char>,
        >("Field '"@ + name + "' has multiple input field actions"@),
    decreases path.len(),
{
    let full = path + seq![name] + inside;
    if path.len() > 0 {
        assert(full.drop_first() =~= path.drop_first() + seq![name] + inside);
        assert(full[0] == path[0]);
        law_action_after_nested_edit_is_rejected(
            node.child(path[0])->0,
            path.drop_first(),
            name,
            inside,
            first,
            second,
        );
    } else {
        assert(full[0] == name);
    }
}

/// A dropped or replaced field has no inside to edit.
pub proof fn law_nested_edit_after_action_is_rejected<Item>(
    node: PatchNode<Item>,
    path: Seq<Seq<char>>,
    name: Seq<char>,
    inside: Seq<Seq<char>>,
    first: PatchEdit<Item>,
    second: PatchEdit<Item>,
)
    requires
        destroys(first, name),
        node.edit_at(path, first) is Ok,
    ensures
        node.edit_at(path, first)->Ok_0.edit_at(path + seq![name] + inside, second) == Err::<
            PatchNode<Item>,
            Seq<char>,
        >("Cannot patch nested fields under dropped/replaced field '"@ + name + "'"@),
    decreases path.len(),
{
    let full = path + seq![name] + inside;
    if path.len() > 0 {
        assert(full.drop_first() =~= path.drop_first() + seq![name] + inside);
        assert(full[0] == path[0]);
        law_nested_edit_after_action_is_rejected(
            node.child(path[0])->0,
            path.drop_first(),
            name,
            inside,
            first,
            second,
        );
    } else {
        assert(full[0] == name);
    }
}

/// The field that an edit of a struct is about, if it is about one.
pub open spec fn edited_field<Item>(edit: PatchEdit<Item>) -> Option<Seq<char>> {
    match edit {
        PatchEdit::Prepend(_) => None,
        PatchEdit::Append(_) => None,
        PatchEdit::InsertAfter(name, _) => Some(name),
        PatchEdit::Drop(name, _) => Some(name),
        PatchEdit::Replace(name, _) => Some(name),
    }
}

/// Are the two edits about different parts of a struct?
pub open spec fn apart<Item>(a: PatchEdit<Item>, b: PatchEdit<Item>) -> bool {
    match (edited_field(a), edited_field(b)) {
        (Some(x), Some(y)) => x != y,
        (None, None) => (a is Prepend) != (b is Prepend),
        _ => true,
    }
}

/// Edits of different parts of a struct give the same tree in either order.
pub proof fn law_edits_apart_commute<Item>(
    node: PatchNode<Item>,
    a: PatchEdit<Item>,
    b: PatchEdit<Item>,
)
    requires
        apart(a, b),
        node.edit(a) is Ok,
        node.edit(b) is Ok,
    ensures
        node.edit(a)->Ok_0.edit(b) is Ok,
        node.edit(a)->Ok_0.edit(b) == node.edit(b)->Ok_0.edit(a),
{
    let ab = node.edit(a)->Ok_0.edit(b);
    let ba = node.edit(b)->Ok_0.edit(a);
    match (edited_field(a), edited_field(b)) {
        (Some(x), Some(y)) => {
            assert(node.edit(a)->Ok_0.field(y) == node.field(y));
            assert(node.edit(b)->Ok_0.field(x) == node.field(x));
            assert(ab->Ok_0.fields =~= ba->Ok_0.fields);
        },
        (Some(x), None) => {
            assert(node.edit(b)->Ok_0.field(x) == node.field(x));
        },
        (None, Some(y)) => {
            assert(node.edit(a)->Ok_0.field(y) == node.field(y));
        },
        (None, None) => {},
    }
}

proof fn lemma_untouched_fields(node: PatchNode<StructField>, input: Seq<FieldView>)
    requires
        forall|i: int| 0 <= i < input.len() ==> !node.fields.contains_key((#[trigger] input[i]).name),
    ensures
        patched_fields(node, input) == Some(input),
    decreases input.len(),
{
    if input.len() > 0 {
        lemma_untouched_fields(node, input.drop_last());
        let last = input[input.len() - 1];
        assert(field_views(node.field(last.name).insert_after) =~= Seq::empty());
        assert(patched_field(node, last) == Some(seq![last] + Seq::<FieldView>::empty()));
        assert(input.drop_last() + (seq![last] + Seq::<FieldView>::empty()) =~= input);
    } else {
        assert(input =~= Seq::empty());
    }
}

/// A patch without edits leaves the schema as it is.
pub proof fn law_empty_patch_keeps_schema(input: Seq<FieldView>)
    requires
        distinct_names(input),
    ensures
        patched_schema(empty_node::<StructField>(), input) == Some(input),
{
    let node = empty_node::<StructField>();
    lemma_untouched_fields(node, input);
    assert(all_output(node, input) =~= input);
}

proof fn lemma_same_patch_of_present_fields(
    a: PatchNode<StructField>,
    b: PatchNode<StructField>,
    input: Seq<FieldView>,
)
    requires
        forall|i: int| 0 <= i < input.len() ==> a.field((#[trigger] input[i]).name) == b.field(input[i].name),
    ensures
        patched_fields(a, input) == patched_fields(b, input),
    decreases input.len(),
{
    if input.len() > 0 {
        lemma_same_patch_of_present_fields(a, b, input.drop_last());
        assert(a.field(input[input.len() - 1].name) == b.field(input[input.len() - 1].name));
        assert(patched_field(a, input[input.len() - 1]) == patched_field(b, input[input.len() - 1]));
    }
}

/// An optional drop of a field that the input lacks changes nothing.
pub proof fn law_optional_drop_of_missing_field_changes_nothing(
    node: PatchNode<StructField>,
    input: Seq<FieldView>,
    name: Seq<char>,
)
    requires
        !node.fields.contains_key(name),
        !has_name(input, name),
    ensures
        node.edit(PatchEdit::Drop(name, true)) is Ok,
        patched_schema(node.edit(PatchEdit::Drop(name, true))->Ok_0, input) == patched_schema(
            node,
            input,
        ),
{
    let dropped = node.edit(PatchEdit::Drop(name, true))->Ok_0;
    assert forall|i: int| 0 <= i < input.len() implies dropped.field((#[trigger] input[i]).name)
        == node.field(input[i].name) by {
        assert(input[i].name != name);
    }
    lemma_same_patch_of_present_fields(dropped, node, input);
    assert forall|other: Seq<char>| #[trigger]
        misses(dropped, input, other) == misses(node, input, other) by {}
    if forall|other: Seq<char>| !#[trigger] misses(node, input, other) {
        assert forall|other: Seq<char>| !#[trigger] misses(dropped, input, other) by {
            assert(misses(dropped, input, other) == misses(node, input, other));
        }
    } else {
        let other = choose|other: Seq<char>| #[trigger] misses(node, input, other);
        assert(misses(dropped, input, other));
    }
}

/// A required edit of a field that the input lacks makes the build fail.
pub proof fn law_required_missing_field_is_rejected(
    node: PatchNode<StructField>,
    input: Seq<FieldView>,
    name: Seq<char>,
)
    requires
        node.fields.contains_key(name),
        node.fields[name].action != (PatchAction::<StructField>::Drop { optional: true }),
        !has_name(input, name),
    ensures
        patched_schema(node, input) is None,
{
    assert(misses(node, input, name));
}

/// The output position of the first field that comes from input field `i`.
pub open spec fn output_position(
    node: PatchNode<StructField>,
    input: Seq<FieldView>,
    i: int,
) -> int {
    (node.prepended.len() + patched_fields(node, input.take(i))->0.len()) as int
}

proof fn lemma_patched_prefix(node: PatchNode<StructField>, input: Seq<FieldView>, i: int)
    requires
        0 <= i <= input.len(),
        patched_fields(node, input) is Some,
    ensures
        patched_fields(node, input.take(i)) is Some,
        patched_fields(node, input.take(i))->0.len() <= patched_fields(node, input)->0.len(),
        patched_fields(node, input.take(i))->0 == patched_fields(node, input)->0.take(
            patched_fields(node, input.take(i))->0.len() as int,
        ),
    decreases input.len(),
{
    if i == input.len() {
        assert(input.take(i) =~= input);
        assert(patched_fields(node, input)->0 =~= patched_fields(node, input)->0.take(
            patched_fields(node, input)->0.len() as int,
        ));
    } else {
        lemma_patched_prefix(node, input.drop_last(), i);
        assert(input.drop_last().take(i) =~= input.take(i));
        assert(patched_fields(node, input.take(i))->0 =~= patched_fields(node, input)->0.take(
            patched_fields(node, input.take(i))->0.len() as int,
        ));
    }
}

/// An input field without edits is passed through, unmodified and in the same order relative to
/// the output of the other input fields.
pub proof fn law_untouched_fields_pass_in_order(
    node: PatchNode<StructField>,
    input: Seq<FieldView>,
    i: int,
    j: int,
)
    requires
        patched_schema(node, input) is Some,
        0 <= i < j < input.len(),
        !node.fields.contains_key(input[i].name),
        !node.fields.contains_key(input[j].name),
    ensures
        output_position(node, input, i) < output_position(node, input, j) < patched_schema(
            node,
            input,
        )->0.len(),
        patched_schema(node, input)->0[output_position(node, input, i)] == input[i],
        patched_schema(node, input)->0[output_position(node, input, j)] == input[j],
{
    lemma_untouched_field_position(node, input, i);
    lemma_untouched_field_position(node, input, j);
    lemma_patched_prefix(node, input, j);
    lemma_patched_prefix(node, input.take(j), i + 1);
    assert(input.take(j).take(i + 1) =~= input.take(i + 1));
    assert(input.take(i + 1).drop_last() =~= input.take(i));
    assert(input.take(i + 1)[i] == input[i]);
}

proof fn lemma_untouched_field_position(
    node: PatchNode<StructField>,
    input: Seq<FieldView>,
    i: int,
)
    requires
        patched_schema(node, input) is Some,
        0 <= i < input.len(),
        !node.fields.contains_key(input[i].name),
    ensures
        0 <= output_position(node, input, i) < patched_schema(node, input)->0.len(),
        patched_schema(node, input)->0[output_position(node, input, i)] == input[i],
        patched_field(node, input[i]) == Some(seq![input[i]]),
{
    let middle = patched_fields(node, input)->0;
    lemma_patched_prefix(node, input, i + 1);
    lemma_patched_prefix(node, input, i);
    let upto = patched_fields(node, input.take(i + 1))->0;
    let before = patched_fields(node, input.take(i))->0;
    assert(input.take(i + 1).drop_last() =~= input.take(i));
    assert(input.take(i + 1)[i] == input[i]);
    let empty: Seq<FieldView> = Seq::empty();
    assert(field_views(node.field(input[i].name).insert_after) =~= empty);
    assert(seq![input[i]] + empty =~= seq![input[i]]);
    assert(upto == before + seq![input[i]]);
    assert(middle[before.len() as int] == upto[before.len() as int]);
}

} // verus!
