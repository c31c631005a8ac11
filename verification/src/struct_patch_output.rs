//! Where each field stands in the output of a struct patch.

use vstd::prelude::*;

use crate::error::{DeltaResult, ErrorView};
use crate::schema::{
    distinct_names, field_views, has_name, DataTypeView, FieldView, StructField, StructType,
};
use crate::struct_patch::{
    all_output, find_column, misses, patched_field, patched_fields, patched_schema, PatchAction,
    PatchField, PatchNode, StructPatchBuilder,
};
use crate::struct_patch_conflicts::kept;

verus! {

/// The edits of a field; none, where the tree does not mention it.
pub open spec fn edits_of<Item>(node: PatchNode<Item>, name: Seq<char>) -> PatchField<Item> {
    if node.fields.contains_key(name) {
        node.fields[name]
    } else {
        kept()
    }
}

/// Does anything stand at the place of the field itself? A dropped field leaves nothing there.
pub open spec fn head_count<Item>(field: PatchField<Item>) -> int {
    if field.action is Drop {
        0
    } else {
        1
    }
}

/// Where the output of input field `i` begins: after the prepended fields and, for each input field before it,
/// the field itself unless it is dropped, and all items inserted after it.
pub open spec fn place(node: PatchNode<StructField>, input: Seq<FieldView>, i: int) -> int
    decreases i,
{
    if i <= 0 {
        node.prepended.len() as int
    } else {
        let before = edits_of(node, input[i - 1].name);
        place(node, input, i - 1) + head_count(before) + before.insert_after.len()
    }
}

/// Is it what stands at the place of a field that is not dropped: the field itself, what replaces it, or the
/// field with the patched struct in it?
pub open spec fn is_head(edits: PatchField<StructField>, input: FieldView, output: FieldView) -> bool {
    match edits.action {
        PatchAction::Keep => output == input,
        PatchAction::Drop { .. } => true,
        PatchAction::Replace(item) => output == item@,
        PatchAction::Nested(child) => {
            &&& output.name == input.name
            &&& output.nullable == input.nullable
            &&& output.metadata == input.metadata
            &&& input.data_type is Struct
            &&& output.data_type is Struct
            &&& patched_schema(*child, input.data_type->Struct_0) == Some(
                output.data_type->Struct_0,
            )
        },
    }
}

/// Do the output fields stand where they belong? First the prepended items, in order. Then, for each input field,
/// in order, what became of it and after that the items inserted after it, in order. Last the appended items.
pub open spec fn laid_out(
    node: PatchNode<StructField>,
    input: Seq<FieldView>,
    out: Seq<FieldView>,
) -> bool {
    let end = place(node, input, input.len() as int);
    &&& out.len() == end + node.appended.len()
    &&& forall|k: int|
        0 <= k < node.prepended.len() ==> out[k] == (#[trigger] node.prepended[k])@
    &&& forall|i: int|
        0 <= i < input.len() ==> is_head(
            edits_of(node, (#[trigger] input[i]).name),
            input[i],
            out[place(node, input, i)],
        )
    &&& forall|i: int, k: int|
        0 <= i < input.len() && 0 <= k < edits_of(node, input[i].name).insert_after.len()
            ==> out[place(node, input, i) + head_count(edits_of(node, input[i].name)) + k] == (
        #[trigger] edits_of(node, input[i].name).insert_after[k])@
    &&& forall|k: int|
        0 <= k < node.appended.len() ==> out[end + k] == (#[trigger] node.appended[k])@
}

/// Is every field that is edited among the input fields, but for those of optional drops?
pub open spec fn edited_fields_exist(node: PatchNode<StructField>, input: Seq<FieldView>) -> bool {
    forall|name: Seq<char>| #[trigger]
        node.fields.contains_key(name) && !(node.fields[name].action matches PatchAction::Drop {
            optional,
        } && optional) ==> exists|i: int| 0 <= i < input.len() && (#[trigger] input[i]).name == name
}

/// Have all fields different names?
pub open spec fn names_differ(fields: Seq<FieldView>) -> bool {
    forall|i: int, j: int|
        0 <= i < fields.len() && 0 <= j < fields.len() && i != j ==> (#[trigger] fields[i]).name != (
        #[trigger] fields[j]).name
}

proof fn lemma_places_ascend(
    node: PatchNode<StructField>,
    input: Seq<FieldView>,
    i: int,
    j: int,
)
    requires
        0 <= i <= j,
    ensures
        node.prepended.len() <= place(node, input, i) <= place(node, input, j),
    decreases j,
{
    if i < j {
        lemma_places_ascend(node, input, i, j - 1);
    } else if i > 0 {
        lemma_places_ascend(node, input, i - 1, i - 1);
    }
}

/// What an input field becomes stands between its place and the next.
proof fn lemma_here(node: PatchNode<StructField>, input: Seq<FieldView>, i: int)
    requires
        0 <= i < input.len(),
        patched_field(node, input[i]) is Some,
    ensures
        ({
            let here = patched_field(node, input[i])->0;
            let edits = edits_of(node, input[i].name);
            &&& here.len() == place(node, input, i + 1) - place(node, input, i)
            &&& edits.action is Drop || is_head(edits, input[i], here[0])
            &&& forall|k: int|
                0 <= k < edits.insert_after.len() ==> here[head_count(edits) + k] == (
                #[trigger] edits.insert_after[k])@
        }),
{
    let edits = edits_of(node, input[i].name);
    assert(node.field(input[i].name) == edits);
    let after = field_views(edits.insert_after);
    let here = patched_field(node, input[i])->0;
    match edits.action {
        PatchAction::Keep => {
            assert(here == seq![input[i]] + after);
        },
        PatchAction::Drop { .. } => {
            assert(here == after);
        },
        PatchAction::Replace(item) => {
            assert(here == seq![item@] + after);
        },
        PatchAction::Nested(child) => {},
    }
}

proof fn lemma_middle(node: PatchNode<StructField>, input: Seq<FieldView>, n: int, i: int)
    requires
        0 <= i < n <= input.len(),
        patched_fields(node, input.take(n)) is Some,
    ensures
        patched_field(node, input[i]) is Some,
        ({
            let middle = patched_fields(node, input.take(n))->0;
            let p = node.prepended.len();
            let here = patched_field(node, input[i])->0;
            &&& middle.len() == place(node, input, n) - p
            &&& forall|k: int|
                0 <= k < here.len() ==> middle[place(node, input, i) - p + k] == #[trigger] here[k]
        }),
    decreases n,
{
    let rest = input.take(n).drop_last();
    assert(rest =~= input.take(n - 1));
    assert(input.take(n)[n - 1] == input[n - 1]);
    let before = patched_fields(node, rest)->0;
    lemma_here(node, input, n - 1);
    if n > 1 {
        lemma_middle(node, input, n - 1, 0);
    } else {
        assert(rest =~= Seq::empty());
    }
    assert(before.len() == place(node, input, n - 1) - node.prepended.len());
    if i < n - 1 {
        lemma_middle(node, input, n - 1, i);
        lemma_here(node, input, i);
        lemma_places_ascend(node, input, i + 1, n - 1);
        lemma_places_ascend(node, input, 0, i);
    }
}

proof fn lemma_laid_out(node: PatchNode<StructField>, input: Seq<FieldView>)
    requires
        patched_fields(node, input) is Some,
    ensures
        laid_out(node, input, all_output(node, patched_fields(node, input)->0)),
{
    let middle = patched_fields(node, input)->0;
    let out = all_output(node, middle);
    let p = node.prepended.len() as int;
    let n = input.len() as int;
    assert(input.take(n) =~= input);
    if n > 0 {
        lemma_middle(node, input, n, 0);
    }
    assert(middle.len() == place(node, input, n) - p);
    assert forall|k: int| 0 <= k < p implies out[k] == (#[trigger] node.prepended[k])@ by {
        assert(field_views(node.prepended)[k] == node.prepended[k]@);
    }
    assert forall|k: int| 0 <= k < node.appended.len() implies out[place(node, input, n) + k] == (
    #[trigger] node.appended[k])@ by {
        assert(field_views(node.appended)[k] == node.appended[k]@);
    }
    assert forall|i: int| 0 <= i < n implies is_head(
        edits_of(node, (#[trigger] input[i]).name),
        input[i],
        out[place(node, input, i)],
    ) by {
        lemma_middle(node, input, n, i);
        lemma_here(node, input, i);
        lemma_places_ascend(node, input, 0, i);
        lemma_places_ascend(node, input, i + 1, n);
        let here = patched_field(node, input[i])->0;
        if !(edits_of(node, input[i].name).action is Drop) {
            assert(middle[place(node, input, i) - p + 0] == here[0]);
        }
    }
    assert forall|i: int, k: int|
        0 <= i < n && 0 <= k < edits_of(node, input[i].name).insert_after.len() implies out[place(
        node,
        input,
        i,
    ) + head_count(edits_of(node, input[i].name)) + k] == (#[trigger] edits_of(
        node,
        input[i].name,
    ).insert_after[k])@ by {
        lemma_middle(node, input, n, i);
        lemma_here(node, input, i);
        lemma_places_ascend(node, input, 0, i);
        lemma_places_ascend(node, input, i + 1, n);
        let here = patched_field(node, input[i])->0;
        let head = head_count(edits_of(node, input[i].name));
        assert(middle[place(node, input, i) - p + (head + k)] == here[head + k]);
    }
}

/// Where every field has something to stand at its place, the patch fits all of them.
proof fn lemma_fits(
    node: PatchNode<StructField>,
    input: Seq<FieldView>,
    out: Seq<FieldView>,
    n: int,
)
    requires
        laid_out(node, input, out),
        0 <= n <= input.len(),
    ensures
        patched_fields(node, input.take(n)) is Some,
    decreases n,
{
    if n > 0 {
        lemma_fits(node, input, out, n - 1);
        assert(input.take(n).drop_last() =~= input.take(n - 1));
        let here = input[n - 1];
        assert(input.take(n)[n - 1] == here);
        assert(node.field(here.name) == edits_of(node, here.name));
        assert(is_head(
            edits_of(node, input[n - 1].name),
            input[n - 1],
            out[place(node, input, n - 1)],
        ));
        assert(patched_field(node, here) is Some);
    } else {
        assert(input.take(n) =~= Seq::empty());
    }
}

/// Two lists in which all fields stand where they belong are the same.
proof fn lemma_layout_is_unique(
    node: PatchNode<StructField>,
    input: Seq<FieldView>,
    a: Seq<FieldView>,
    b: Seq<FieldView>,
    n: int,
    k: int,
)
    requires
        laid_out(node, input, a),
        laid_out(node, input, b),
        0 <= n <= input.len(),
        0 <= k < place(node, input, n),
    ensures
        a[k] == b[k],
    decreases n,
{
    if n == 0 {
        assert(a[k] == node.prepended[k]@);
        assert(b[k] == node.prepended[k]@);
    } else {
        let i = n - 1;
        let start = place(node, input, i);
        if k < start {
            lemma_layout_is_unique(node, input, a, b, i, k);
        } else {
            let edits = edits_of(node, input[i].name);
            let head = head_count(edits);
            if k < start + head {
                assert(is_head(edits, input[i], a[start]));
                assert(is_head(edits, input[i], b[start]));
            } else {
                let j = k - start - head;
                assert(a[start + head + j] == edits.insert_after[j]@);
                assert(b[start + head + j] == edits.insert_after[j]@);
            }
        }
    }
}

/// A patch has an output schema exactly where every edited field exists, apart from those of optional drops, every
/// struct that is patched inside is one and has an output itself, and no name repeats in the output. That output is
/// the one in which every field stands where it belongs: no item of any edit is lost, moved or repeated.
pub proof fn law_output_schema(
    node: PatchNode<StructField>,
    input: Seq<FieldView>,
    out: Seq<FieldView>,
)
    ensures
        patched_schema(node, input) == Some(out) <==> edited_fields_exist(node, input) && laid_out(
            node,
            input,
            out,
        ) && names_differ(out),
{
    assert(edited_fields_exist(node, input) <==> forall|name: Seq<char>|
        !#[trigger] misses(node, input, name)) by {
        if edited_fields_exist(node, input) {
            assert forall|name: Seq<char>| !#[trigger] misses(node, input, name) by {
                if node.fields.contains_key(name) {
                    assert(node.fields[name].action != (PatchAction::<StructField>::Drop {
                        optional: true,
                    }) ==> !(node.fields[name].action matches PatchAction::Drop { optional }
                        && optional));
                }
            }
        }
        if forall|name: Seq<char>| !#[trigger] misses(node, input, name) {
            assert forall|name: Seq<char>| #[trigger]
                node.fields.contains_key(name) && !(
                node.fields[name].action matches PatchAction::Drop { optional } && optional) implies
                exists|i: int| 0 <= i < input.len() && (#[trigger] input[i]).name == name by {
                assert(!misses(node, input, name));
            }
        }
    }
    assert(input.take(input.len() as int) =~= input);
    if patched_schema(node, input) == Some(out) {
        lemma_laid_out(node, input);
        assert(distinct_names(out));
        assert(names_differ(out));
    }
    if edited_fields_exist(node, input) && laid_out(node, input, out) && names_differ(out) {
        lemma_fits(node, input, out, input.len() as int);
        lemma_laid_out(node, input);
        let built = all_output(node, patched_fields(node, input)->0);
        let end = place(node, input, input.len() as int);
        assert forall|k: int| 0 <= k < out.len() implies built[k] == out[k] by {
            if k < end {
                lemma_layout_is_unique(node, input, built, out, input.len() as int, k);
            } else {
                assert(built[end + (k - end)] == node.appended[k - end]@);
                assert(out[end + (k - end)] == node.appended[k - end]@);
            }
        }
        assert(built =~= out);
        assert(distinct_names(built));
    }
}

/// Building a schema gives the output schema of the edits over the input schema, and fails exactly where there is
/// none.
pub proof fn law_built_schema(
    builder: StructPatchBuilder<StructField>,
    input: StructType,
    r: DeltaResult<StructType>,
)
    requires
        call_ensures(StructPatchBuilder::<StructField>::build, (builder, &input), r),
        builder@.root is Ok,
        builder@.input_path is None,
    ensures
        r is Ok ==> {
            let node = builder@.root->Ok_0;
            let out = r->Ok_0@;
            edited_fields_exist(node, input@) && laid_out(node, input@, out) && names_differ(out)
        },
        r is Err ==> forall|out: Seq<FieldView>|
            !(edited_fields_exist(builder@.root->Ok_0, input@) && #[trigger] laid_out(
                builder@.root->Ok_0,
                input@,
                out,
            ) && names_differ(out)),
{
    let node = builder@.root->Ok_0;
    if r is Ok {
        law_output_schema(node, input@, r->Ok_0@);
    } else {
        assert forall|out: Seq<FieldView>|
            !(edited_fields_exist(node, input@) && #[trigger] laid_out(node, input@, out)
                && names_differ(out)) by {
            law_output_schema(node, input@, out);
        }
    }
}

/// Does the path lead to the field: the first name is that of a field, and each further one that of a field of the
/// struct in the field before?
pub open spec fn leads_to(
    fields: Seq<FieldView>,
    path: Seq<Seq<char>>,
    leaf: FieldView,
) -> bool
    decreases path.len(),
{
    &&& path.len() > 0
    &&& exists|i: int|
        0 <= i < fields.len() && (#[trigger] fields[i]).name == path[0] && if path.len() == 1 {
            leaf == fields[i]
        } else {
            fields[i].data_type is Struct && leads_to(
                fields[i].data_type->Struct_0,
                path.drop_first(),
                leaf,
            )
        }
}

/// Have the fields of a struct, and of all structs in it, different names at each level of a path?
pub open spec fn unambiguous(fields: Seq<FieldView>, path: Seq<Seq<char>>) -> bool
    decreases path.len(),
{
    &&& names_differ(fields)
    &&& path.len() > 1 ==> forall|i: int|
        0 <= i < fields.len() && (#[trigger] fields[i]).data_type is Struct ==> unambiguous(
            fields[i].data_type->Struct_0,
            path.drop_first(),
        )
}

/// The column at a path is the field to which the path leads, level by level.
pub proof fn law_column_is_where_the_path_leads(
    fields: Seq<FieldView>,
    path: Seq<Seq<char>>,
    leaf: FieldView,
)
    requires
        unambiguous(fields, path),
    ensures
        find_column(fields, path) == Some(leaf) <==> leads_to(fields, path, leaf),
    decreases path.len(),
{
    if path.len() > 0 {
        if has_name(fields, path[0]) {
            let i = choose|i: int| 0 <= i < fields.len() && (#[trigger] fields[i]).name == path[0];
            assert forall|j: int|
                0 <= j < fields.len() && (#[trigger] fields[j]).name == path[0] implies j == i by {}
            if path.len() > 1 {
                if fields[i].data_type is Struct {
                    law_column_is_where_the_path_leads(
                        fields[i].data_type->Struct_0,
                        path.drop_first(),
                        leaf,
                    );
                }
            }
        }
    }
}

/// A patch of a nested struct is a patch of the struct to which its path leads: the same edits build the same
/// schema over that struct itself. An empty path leads to the input. A path that leads to no struct is an error.
pub proof fn law_nested_patch_is_a_patch_of_the_struct(
    nested: StructPatchBuilder<StructField>,
    input: StructType,
    path: Seq<Seq<char>>,
    r: DeltaResult<StructType>,
    top: StructPatchBuilder<StructField>,
    inner: StructType,
    s: DeltaResult<StructType>,
)
    requires
        call_ensures(StructPatchBuilder::<StructField>::build, (nested, &input), r),
        call_ensures(StructPatchBuilder::<StructField>::build, (top, &inner), s),
        nested@.input_path == Some(path),
        top@.input_path is None,
        nested@.root == top@.root,
        top@.root is Ok,
        unambiguous(input@, path),
    ensures
        path.len() == 0 && input@ == inner@ || (exists|leaf: FieldView| #[trigger]
            leads_to(input@, path, leaf) && leaf.data_type == DataTypeView::Struct(inner@)) ==> {
            &&& r is Ok <==> s is Ok
            &&& r is Ok ==> r->Ok_0@ == s->Ok_0@
        },
        path.len() > 0 && (forall|leaf: FieldView| #[trigger]
            leads_to(input@, path, leaf) ==> !(leaf.data_type is Struct)) ==> r is Err,
{
    if exists|leaf: FieldView| #[trigger]
        leads_to(input@, path, leaf) && leaf.data_type == DataTypeView::Struct(inner@) {
        let leaf = choose|leaf: FieldView| #[trigger]
            leads_to(input@, path, leaf) && leaf.data_type == DataTypeView::Struct(inner@);
        law_column_is_where_the_path_leads(input@, path, leaf);
        assert(path.len() > 0);
    }
    if path.len() > 0 && (forall|leaf: FieldView| #[trigger]
        leads_to(input@, path, leaf) ==> !(leaf.data_type is Struct)) {
        if find_column(input@, path) is Some {
            law_column_is_where_the_path_leads(input@, path, find_column(input@, path)->0);
        }
    }
}

/// An error that a builder holds comes out of building a schema.
pub proof fn law_error_of_an_edit_comes_out(
    builder: StructPatchBuilder<StructField>,
    input: StructType,
    r: DeltaResult<StructType>,
)
    requires
        call_ensures(StructPatchBuilder::<StructField>::build, (builder, &input), r),
        builder@.root is Err,
    ensures
        r is Err,
        r->Err_0@ == builder@.root->Err_0,
{
}

/// Can the edits of a field be made on it? Edits inside need a struct, and one that they have an output for.
pub open spec fn can_be_patched(edits: PatchField<StructField>, input: FieldView) -> bool {
    match edits.action {
        PatchAction::Nested(child) => input.data_type is Struct && exists|out: Seq<FieldView>|
            #[trigger] patched_schema(*child, input.data_type->Struct_0) == Some(out),
        _ => true,
    }
}

proof fn lemma_fits_where_patched(node: PatchNode<StructField>, input: FieldView)
    ensures
        can_be_patched(edits_of(node, input.name), input) <==> patched_field(node, input) is Some,
{
    assert(node.field(input.name) == edits_of(node, input.name));
    if let PatchAction::Nested(child) = edits_of(node, input.name).action {
        if let DataTypeView::Struct(inner) = input.data_type {
            if let Some(out) = patched_schema(*child, inner) {
                assert(patched_schema(*child, input.data_type->Struct_0) == Some(out));
            }
        }
    }
}

proof fn lemma_all_fit(node: PatchNode<StructField>, input: Seq<FieldView>)
    requires
        forall|i: int|
            0 <= i < input.len() ==> can_be_patched(edits_of(node, (#[trigger] input[i]).name), input[i]),
    ensures
        patched_fields(node, input) is Some,
    decreases input.len(),
{
    if input.len() > 0 {
        let rest = input.drop_last();
        assert forall|i: int| 0 <= i < rest.len() implies can_be_patched(
            edits_of(node, (#[trigger] rest[i]).name),
            rest[i],
        ) by {
            assert(rest[i] == input[i]);
        }
        lemma_all_fit(node, rest);
        lemma_fits_where_patched(node, input[input.len() - 1]);
    }
}

/// Why building a schema fails. Where all fields can be patched, the error names a field that is edited and not there,
/// or else a name that repeats in the output. Where a field that is no struct is patched inside, and all fields before
/// it can be patched, the error names that field.
pub proof fn law_errors_of_building(
    builder: StructPatchBuilder<StructField>,
    input: StructType,
    r: DeltaResult<StructType>,
)
    requires
        call_ensures(StructPatchBuilder::<StructField>::build, (builder, &input), r),
        builder@.root is Ok,
        builder@.input_path is None,
        r is Err,
    ensures
        ({
            let node = builder@.root->Ok_0;
            let fits = forall|i: int|
                0 <= i < input@.len() ==> can_be_patched(
                    edits_of(node, (#[trigger] input@[i]).name),
                    input@[i],
                );
            &&& fits && !edited_fields_exist(node, input@) ==> exists|name: Seq<char>| #[trigger]
                is_missing(node, input@, name) && r->Err_0@ == ErrorView::Generic(
                    "Field to patch does not exist: "@ + name,
                )
            &&& fits && edited_fields_exist(node, input@) ==> exists|
                out: Seq<FieldView>,
                i: int,
                j: int,
            |
                0 <= i < j < out.len() && #[trigger] laid_out(node, input@, out) && (
                #[trigger] out[i]).name == (#[trigger] out[j]).name && r->Err_0@
                    == ErrorView::Schema("Duplicate field name: "@ + out[i].name)
            &&& forall|i: int|
                0 <= i < input@.len() && edits_of(node, (#[trigger] input@[i]).name).action is Nested
                    && !(input@[i].data_type is Struct) && (forall|j: int|
                    0 <= j < i ==> can_be_patched(
                        edits_of(node, (#[trigger] input@[j]).name),
                        input@[j],
                    )) ==> r->Err_0@ == ErrorView::Generic(
                    "Cannot patch nested fields under non-struct field '"@ + input@[i].name + "'"@,
                )
        }),
{
    let node = builder@.root->Ok_0;
    let e = r->Err_0@;
    let fits = forall|i: int|
        0 <= i < input@.len() ==> can_be_patched(
            edits_of(node, (#[trigger] input@[i]).name),
            input@[i],
        );
    if fits {
        lemma_all_fit(node, input@);
        if !edited_fields_exist(node, input@) {
            let name = choose|name: Seq<char>| #[trigger]
                node.fields.contains_key(name) && !(
                node.fields[name].action matches PatchAction::Drop { optional } && optional) && !(
                exists|i: int| 0 <= i < input@.len() && (#[trigger] input@[i]).name == name);
            assert(misses(node, input@, name));
            let missing = choose|name: Seq<char>| #[trigger]
                misses(node, input@, name) && e == ErrorView::Generic(
                    "Field to patch does not exist: "@ + name,
                );
            assert(is_missing(node, input@, missing));
        } else {
            assert forall|name: Seq<char>| !#[trigger] misses(node, input@, name) by {
                if node.fields.contains_key(name) {
                    assert(node.fields[name].action != (PatchAction::<StructField>::Drop {
                        optional: true,
                    }) ==> !(node.fields[name].action matches PatchAction::Drop { optional }
                        && optional));
                }
            }
            let middle = patched_fields(node, input@)->0;
            let out = all_output(node, middle);
            lemma_laid_out(node, input@);
            let j = choose|j: int| #[trigger]
                crate::schema::first_repeated(out, j) && e == ErrorView::Schema(
                    "Duplicate field name: "@ + out[j].name,
                );
            let i = choose|i: int|
                0 <= i < out.take(j).len() && (#[trigger] out.take(j)[i]).name == out[j].name;
            assert(out[i].name == out[j].name);
        }
    }
    assert forall|i: int|
        0 <= i < input@.len() && edits_of(node, (#[trigger] input@[i]).name).action is Nested && !(
        input@[i].data_type is Struct) && (forall|j: int|
            0 <= j < i ==> can_be_patched(
                edits_of(node, (#[trigger] input@[j]).name),
                input@[j],
            )) implies e == ErrorView::Generic(
        "Cannot patch nested fields under non-struct field '"@ + input@[i].name + "'"@,
    ) by {
        assert(node.field(input@[i].name) == edits_of(node, input@[i].name));
        assert(patched_field(node, input@[i]) is None);
        lemma_none_where_one_fails(node, input@, i);
        let k = choose|k: int| #[trigger]
            crate::struct_patch::fails_first_at(node, input@, k) && 0 <= k < input@.len()
                && crate::struct_patch::field_error(node, input@[k], e);
        if k < i {
            lemma_fits_where_patched(node, input@[k]);
        } else if i < k {
            assert(input@.take(k)[i] == input@[i]);
            lemma_none_where_one_fails(node, input@.take(k), i);
        }
    }
}

/// A field that is edited and not there.
pub open spec fn is_missing(
    node: PatchNode<StructField>,
    input: Seq<FieldView>,
    name: Seq<char>,
) -> bool {
    &&& node.fields.contains_key(name)
    &&& forall|i: int| 0 <= i < input.len() ==> (#[trigger] input[i]).name != name
    &&& !(node.fields[name].action matches PatchAction::Drop { optional } && optional)
}

proof fn lemma_none_where_one_fails(node: PatchNode<StructField>, input: Seq<FieldView>, i: int)
    requires
        0 <= i < input.len(),
        patched_field(node, input[i]) is None,
    ensures
        patched_fields(node, input) is None,
    decreases input.len(),
{
    if i < input.len() - 1 {
        assert(input.drop_last()[i] == input[i]);
        lemma_none_where_one_fails(node, input.drop_last(), i);
    }
}

} // verus!
