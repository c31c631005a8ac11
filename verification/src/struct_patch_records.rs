//! What a struct patch builder records of its calls, and what the expression patch makes of it.

use vstd::prelude::*;

use crate::error::{DeltaResult, ErrorView};
use crate::expressions::{ColumnName, Expression, ExpressionRef};
use crate::schema::{StructField, StructType};
use crate::struct_patch::{
    child_path, field_lowers_to, is_built, lowers_to, BuilderView, ExpressionStructPatch,
    PatchAction, PatchEdit, PatchNode, StructPatchBuilder,
};
use crate::struct_patch_conflicts::{new_builder, BuilderCall};
use crate::struct_patch_laws::edited_field;
use crate::struct_patch_output::{
    edited_fields_exist, edits_of, laid_out, law_output_schema, names_differ,
};

verus! {

/// The items that calls put before the first field of the struct itself, in the order of the calls.
pub open spec fn items_prepended<Item>(calls: Seq<BuilderCall<Item>>) -> Seq<Item>
    decreases calls.len(),
{
    if calls.len() == 0 {
        Seq::empty()
    } else {
        let before = items_prepended(calls.drop_last());
        match calls.last().edit {
            PatchEdit::Prepend(item) => if calls.last().path.len() == 0 {
                before.push(item)
            } else {
                before
            },
            _ => before,
        }
    }
}

/// The items that calls put after the last field of the struct itself, in the order of the calls.
pub open spec fn items_appended<Item>(calls: Seq<BuilderCall<Item>>) -> Seq<Item>
    decreases calls.len(),
{
    if calls.len() == 0 {
        Seq::empty()
    } else {
        let before = items_appended(calls.drop_last());
        match calls.last().edit {
            PatchEdit::Append(item) => if calls.last().path.len() == 0 {
                before.push(item)
            } else {
                before
            },
            _ => before,
        }
    }
}

/// The items that calls put after a field of the struct itself, in the order of the calls.
pub open spec fn items_inserted<Item>(calls: Seq<BuilderCall<Item>>, name: Seq<char>) -> Seq<Item>
    decreases calls.len(),
{
    if calls.len() == 0 {
        Seq::empty()
    } else {
        let before = items_inserted(calls.drop_last(), name);
        match calls.last().edit {
            PatchEdit::InsertAfter(field, item) => if calls.last().path.len() == 0 && field
                == name {
                before.push(item)
            } else {
                before
            },
            _ => before,
        }
    }
}

/// The calls that edit the struct in a field, as calls of that struct itself.
pub open spec fn calls_inside<Item>(calls: Seq<BuilderCall<Item>>, name: Seq<char>) -> Seq<
    BuilderCall<Item>,
>
    decreases calls.len(),
{
    if calls.len() == 0 {
        Seq::empty()
    } else {
        let before = calls_inside(calls.drop_last(), name);
        let last = calls.last();
        if last.path.len() > 0 && last.path[0] == name {
            before.push(BuilderCall { path: last.path.drop_first(), edit: last.edit })
        } else {
            before
        }
    }
}

impl<Item> BuilderCall<Item> {
    /// Does the call drop the field of the struct itself?
    pub open spec fn drops(self, name: Seq<char>, optional: bool) -> bool {
        self.path.len() == 0 && self.edit == PatchEdit::<Item>::Drop(name, optional)
    }

    /// Does the call replace the field of the struct itself?
    pub open spec fn replaces(self, name: Seq<char>, item: Item) -> bool {
        self.path.len() == 0 && self.edit == PatchEdit::<Item>::Replace(name, item)
    }

    /// Does the call edit the field, or the struct in it?
    pub open spec fn touches(self, name: Seq<char>) -> bool {
        if self.path.len() == 0 {
            edited_field(self.edit) == Some(name)
        } else {
            self.path[0] == name
        }
    }
}

/// Is there a call that drops the field?
pub open spec fn is_dropped<Item>(
    calls: Seq<BuilderCall<Item>>,
    name: Seq<char>,
    optional: bool,
) -> bool {
    exists|i: int| 0 <= i < calls.len() && (#[trigger] calls[i]).drops(name, optional)
}

/// Is there a call that replaces the field with the item?
pub open spec fn is_replaced<Item>(
    calls: Seq<BuilderCall<Item>>,
    name: Seq<char>,
    item: Item,
) -> bool {
    exists|i: int| 0 <= i < calls.len() && (#[trigger] calls[i]).replaces(name, item)
}

/// Is there a call that edits the field, or the struct in it?
pub open spec fn is_touched<Item>(calls: Seq<BuilderCall<Item>>, name: Seq<char>) -> bool {
    exists|i: int| 0 <= i < calls.len() && (#[trigger] calls[i]).touches(name)
}

proof fn lemma_one_more_call<Item>(calls: Seq<BuilderCall<Item>>, name: Seq<char>)
    requires
        calls.len() > 0,
    ensures
        forall|optional: bool| #[trigger]
            is_dropped(calls, name, optional) <==> is_dropped(calls.drop_last(), name, optional)
                || calls.last().drops(name, optional),
        forall|item: Item| #[trigger]
            is_replaced(calls, name, item) <==> is_replaced(calls.drop_last(), name, item)
                || calls.last().replaces(name, item),
        is_touched(calls, name) <==> is_touched(calls.drop_last(), name) || calls.last().touches(
            name,
        ),
{
    let rest = calls.drop_last();
    let n = calls.len() - 1;
    assert forall|i: int| 0 <= i < n implies #[trigger] calls[i] == rest[i] by {}
    assert forall|optional: bool| #[trigger]
        is_dropped(calls, name, optional) <==> is_dropped(rest, name, optional)
            || calls.last().drops(name, optional) by {
        if is_dropped(rest, name, optional) {
            let i = choose|i: int| 0 <= i < rest.len() && (#[trigger] rest[i]).drops(name, optional);
            assert(calls[i].drops(name, optional));
        }
        if calls.last().drops(name, optional) {
            assert(calls[n].drops(name, optional));
        }
        if is_dropped(calls, name, optional) {
            let i = choose|i: int|
                0 <= i < calls.len() && (#[trigger] calls[i]).drops(name, optional);
            if i < n {
                assert(rest[i].drops(name, optional));
            }
        }
    }
    assert forall|item: Item| #[trigger]
        is_replaced(calls, name, item) <==> is_replaced(rest, name, item)
            || calls.last().replaces(name, item) by {
        if is_replaced(rest, name, item) {
            let i = choose|i: int| 0 <= i < rest.len() && (#[trigger] rest[i]).replaces(name, item);
            assert(calls[i].replaces(name, item));
        }
        if calls.last().replaces(name, item) {
            assert(calls[n].replaces(name, item));
        }
        if is_replaced(calls, name, item) {
            let i = choose|i: int|
                0 <= i < calls.len() && (#[trigger] calls[i]).replaces(name, item);
            if i < n {
                assert(rest[i].replaces(name, item));
            }
        }
    }
    if is_touched(rest, name) {
        let i = choose|i: int| 0 <= i < rest.len() && (#[trigger] rest[i]).touches(name);
        assert(calls[i].touches(name));
    }
    if calls.last().touches(name) {
        assert(calls[n].touches(name));
    }
    if is_touched(calls, name) {
        let i = choose|i: int| 0 <= i < calls.len() && (#[trigger] calls[i]).touches(name);
        if i < n {
            assert(rest[i].touches(name));
        }
    }
}

/// The tree of a builder without errors holds what its calls said. Prepended and appended items, and those inserted
/// after a field, stand in the order of the calls. A field is dropped or replaced by the call that does so, and
/// otherwise patched inside by the calls whose path leads into it, as a builder of that struct records them. A field
/// that no call touches is not mentioned.
pub proof fn law_calls_are_recorded<Item>(
    input_path: Option<Seq<Seq<char>>>,
    calls: Seq<BuilderCall<Item>>,
    name: Seq<char>,
)
    requires
        new_builder::<Item>(input_path).calls(calls).root is Ok,
    ensures
        ({
            let node = new_builder::<Item>(input_path).calls(calls).root->Ok_0;
            let field = edits_of(node, name);
            &&& node.prepended == items_prepended(calls)
            &&& node.appended == items_appended(calls)
            &&& node.fields.contains_key(name) <==> is_touched(calls, name)
            &&& field.insert_after == items_inserted(calls, name)
            &&& match field.action {
                PatchAction::Keep => {
                    &&& calls_inside(calls, name).len() == 0
                    &&& forall|optional: bool| !#[trigger] is_dropped(calls, name, optional)
                    &&& forall|item: Item| !#[trigger] is_replaced(calls, name, item)
                },
                PatchAction::Drop { optional } => {
                    &&& is_dropped(calls, name, optional)
                    &&& !is_dropped(calls, name, !optional)
                    &&& calls_inside(calls, name).len() == 0
                    &&& forall|item: Item| !#[trigger] is_replaced(calls, name, item)
                },
                PatchAction::Replace(item) => {
                    &&& is_replaced(calls, name, item)
                    &&& calls_inside(calls, name).len() == 0
                    &&& forall|optional: bool| !#[trigger] is_dropped(calls, name, optional)
                },
                PatchAction::Nested(child) => {
                    let inside = new_builder::<Item>(None).calls(calls_inside(calls, name));
                    &&& calls_inside(calls, name).len() > 0
                    &&& inside.root == Ok::<PatchNode<Item>, ErrorView>(*child)
                    &&& forall|optional: bool| !#[trigger] is_dropped(calls, name, optional)
                    &&& forall|item: Item| !#[trigger] is_replaced(calls, name, item)
                },
            }
        }),
    decreases calls.len(),
{
    if calls.len() > 0 {
        let rest = calls.drop_last();
        let last = calls.last();
        let before = new_builder::<Item>(input_path).calls(rest);
        assert(before.root is Ok);
        law_calls_are_recorded(input_path, rest, name);
        lemma_one_more_call(calls, name);
        let node = before.root->Ok_0;
        assert(node.field(name) == edits_of(node, name));
        let after = new_builder::<Item>(input_path).calls(calls).root->Ok_0;
        assert(node.edit_at(last.path, last.edit) == Ok::<PatchNode<Item>, Seq<char>>(after));
        if last.path.len() > 0 && last.path[0] == name {
            let inside = calls_inside(rest, name);
            let step = BuilderCall { path: last.path.drop_first(), edit: last.edit };
            assert(inside.push(step).drop_last() =~= inside);
            assert(inside.push(step).last() == step);
            let child = node.child(name)->0;
            if edits_of(node, name).action is Keep {
                assert(inside =~= Seq::empty());
                assert(new_builder::<Item>(None).calls(inside).root == Ok::<
                    PatchNode<Item>,
                    ErrorView,
                >(child));
            }
        }
    }
}

/// Each method of a builder is the call that its name says: of the struct itself, or of the struct at the path.
pub proof fn law_methods_are_calls<Item>(
    builder: StructPatchBuilder<Item>,
    path: ColumnName,
    name: &str,
    item: Item,
    dropped: StructPatchBuilder<Item>,
    optionally: StructPatchBuilder<Item>,
    replaced: StructPatchBuilder<Item>,
    prepended: StructPatchBuilder<Item>,
    inserted: StructPatchBuilder<Item>,
    appended: StructPatchBuilder<Item>,
)
    ensures
        ({
            let top = Seq::<Seq<char>>::empty();
            let drop = PatchEdit::<Item>::Drop(name@, false);
            let drop_if_exists = PatchEdit::<Item>::Drop(name@, true);
            let replace = PatchEdit::Replace(name@, item);
            let prepend = PatchEdit::Prepend(item);
            let insert = PatchEdit::InsertAfter(name@, item);
            let append = PatchEdit::Append(item);
            &&& call_ensures(StructPatchBuilder::<Item>::drop, (builder, name), dropped)
                ==> dropped@ == builder@.calls(seq![BuilderCall { path: top, edit: drop }])
            &&& call_ensures(StructPatchBuilder::<Item>::drop_at, (builder, path, name), dropped)
                ==> dropped@ == builder@.calls(seq![BuilderCall { path: path@, edit: drop }])
            &&& call_ensures(
                StructPatchBuilder::<Item>::drop_if_exists,
                (builder, name),
                optionally,
            ) ==> optionally@ == builder@.calls(
                seq![BuilderCall { path: top, edit: drop_if_exists }],
            )
            &&& call_ensures(
                StructPatchBuilder::<Item>::drop_if_exists_at,
                (builder, path, name),
                optionally,
            ) ==> optionally@ == builder@.calls(
                seq![BuilderCall { path: path@, edit: drop_if_exists }],
            )
            &&& call_ensures(StructPatchBuilder::<Item>::replace, (builder, name, item), replaced)
                ==> replaced@ == builder@.calls(seq![BuilderCall { path: top, edit: replace }])
            &&& call_ensures(
                StructPatchBuilder::<Item>::replace_at,
                (builder, path, name, item),
                replaced,
            ) ==> replaced@ == builder@.calls(seq![BuilderCall { path: path@, edit: replace }])
            &&& call_ensures(StructPatchBuilder::<Item>::prepend, (builder, item), prepended)
                ==> prepended@ == builder@.calls(seq![BuilderCall { path: top, edit: prepend }])
            &&& call_ensures(
                StructPatchBuilder::<Item>::prepend_at,
                (builder, path, item),
                prepended,
            ) ==> prepended@ == builder@.calls(seq![BuilderCall { path: path@, edit: prepend }])
            &&& call_ensures(
                StructPatchBuilder::<Item>::insert_after,
                (builder, name, item),
                inserted,
            ) ==> inserted@ == builder@.calls(seq![BuilderCall { path: top, edit: insert }])
            &&& call_ensures(
                StructPatchBuilder::<Item>::insert_after_at,
                (builder, path, name, item),
                inserted,
            ) ==> inserted@ == builder@.calls(seq![BuilderCall { path: path@, edit: insert }])
            &&& call_ensures(StructPatchBuilder::<Item>::append, (builder, item), appended)
                ==> appended@ == builder@.calls(seq![BuilderCall { path: top, edit: append }])
            &&& call_ensures(StructPatchBuilder::<Item>::append_at, (builder, path, item), appended)
                ==> appended@ == builder@.calls(seq![BuilderCall { path: path@, edit: append }])
        }),
{
    let top = Seq::<Seq<char>>::empty();
    lemma_one_call(builder@, top, PatchEdit::Drop(name@, false));
    lemma_one_call(builder@, path@, PatchEdit::Drop(name@, false));
    lemma_one_call(builder@, top, PatchEdit::Drop(name@, true));
    lemma_one_call(builder@, path@, PatchEdit::Drop(name@, true));
    lemma_one_call(builder@, top, PatchEdit::Replace(name@, item));
    lemma_one_call(builder@, path@, PatchEdit::Replace(name@, item));
    lemma_one_call(builder@, top, PatchEdit::Prepend(item));
    lemma_one_call(builder@, path@, PatchEdit::Prepend(item));
    lemma_one_call(builder@, top, PatchEdit::InsertAfter(name@, item));
    lemma_one_call(builder@, path@, PatchEdit::InsertAfter(name@, item));
    lemma_one_call(builder@, top, PatchEdit::Append(item));
    lemma_one_call(builder@, path@, PatchEdit::Append(item));
}

proof fn lemma_one_call<Item>(
    builder: BuilderView<Item>,
    path: Seq<Seq<char>>,
    edit: PatchEdit<Item>,
)
    ensures
        builder.calls(seq![BuilderCall { path, edit }]) == builder.edit_at(path, edit),
{
    let call = BuilderCall { path, edit };
    assert(seq![call].drop_last() =~= Seq::empty());
    assert(builder.calls(seq![call].drop_last()) == builder);
}

/// A new builder has no calls behind it. It patches the top level, or the struct at the path that it was given.
pub proof fn law_new_builders_have_no_calls<Item>(
    path: ColumnName,
    top: StructPatchBuilder<Item>,
    nested: StructPatchBuilder<Item>,
)
    requires
        call_ensures(StructPatchBuilder::<Item>::new, (), top),
        call_ensures(StructPatchBuilder::<Item>::new_nested, (path,), nested),
    ensures
        top@ == new_builder::<Item>(None),
        nested@ == new_builder::<Item>(Some(path@)),
        top@.input_path is None,
        nested@.input_path == Some(path@),
        top@.root == Ok::<PatchNode<Item>, ErrorView>(
            PatchNode { prepended: Seq::empty(), appended: Seq::empty(), fields: Map::empty() },
        ),
        nested@.root == top@.root,
{
}

/// Calls leave the path of the struct that a builder patches as it is.
pub proof fn law_calls_keep_the_path<Item>(
    builder: BuilderView<Item>,
    calls: Seq<BuilderCall<Item>>,
)
    ensures
        builder.calls(calls).input_path == builder.input_path,
    decreases calls.len(),
{
    if calls.len() > 0 {
        law_calls_keep_the_path(builder, calls.drop_last());
    }
}

/// The path of a field in the struct at another path.
pub open spec fn path_below(parent: Option<Seq<Seq<char>>>, name: Seq<char>) -> Seq<Seq<char>> {
    match parent {
        None => seq![name],
        Some(path) => path + seq![name],
    }
}

/// The expression patch of a builder says what its calls said, in their order. A field patch exists exactly for the
/// fields that calls touch. It keeps the field unless a call drops or replaces it or leads into it, and it is
/// optional exactly for an optional drop. Its insertions are the replacement or the patch of the struct in the field,
/// if there is one, and then all items inserted after the field. The patch of the struct in a field is the one that
/// the calls leading into it build, at the path of the field.
pub proof fn law_expression_patch_says_what_the_calls_said(
    input_path: Option<Seq<Seq<char>>>,
    calls: Seq<BuilderCall<ExpressionRef>>,
    builder: StructPatchBuilder<ExpressionRef>,
    r: DeltaResult<ExpressionStructPatch>,
    name: Seq<char>,
)
    requires
        builder@ == new_builder::<ExpressionRef>(input_path).calls(calls),
        call_ensures(StructPatchBuilder::<ExpressionRef>::build, (builder,), r),
        r is Ok,
    ensures
        says(r->Ok_0, input_path, calls),
        field_says(r->Ok_0, input_path, calls, name),
{
    lemma_says(input_path, calls, r->Ok_0, name);
}

/// Does the patch say what the calls said of the struct itself?
pub open spec fn says(
    patch: ExpressionStructPatch,
    input_path: Option<Seq<Seq<char>>>,
    calls: Seq<BuilderCall<ExpressionRef>>,
) -> bool {
    &&& match (patch.input_path, input_path) {
        (Some(a), Some(b)) => a@ == b,
        (None, None) => true,
        _ => false,
    }
    &&& patch.prepended_fields@ == items_prepended(calls)
    &&& patch.appended_fields@ == items_appended(calls)
}

/// Does the patch say what the calls said of a field?
pub open spec fn field_says(
    patch: ExpressionStructPatch,
    input_path: Option<Seq<Seq<char>>>,
    calls: Seq<BuilderCall<ExpressionRef>>,
    name: Seq<char>,
) -> bool {
    let field = patch.field_patches@[name];
    let inside = calls_inside(calls, name);
    let inserted = items_inserted(calls, name);
    &&& patch.field_patches@.contains_key(name) <==> is_touched(calls, name)
    &&& patch.field_patches@.contains_key(name) ==> {
        &&& field.optional <==> is_dropped(calls, name, true)
        &&& if is_dropped(calls, name, true) || is_dropped(calls, name, false) {
            !field.keep_input && field.insertions@ == inserted
        } else if inside.len() > 0 {
            &&& !field.keep_input
            &&& field.insertions@.len() == 1 + inserted.len()
            &&& field.insertions@.skip(1) == inserted
            &&& match *field.insertions@[0] {
                Expression::StructPatch(inner) => {
                    let path = Some(path_below(input_path, name));
                    is_built(
                        new_builder::<ExpressionRef>(path).calls(inside),
                        Ok(inner),
                    ) && says(inner, path, inside)
                },
                _ => false,
            }
        } else if exists|item: ExpressionRef| #[trigger] is_replaced(calls, name, item) {
            &&& !field.keep_input
            &&& field.insertions@.len() == 1 + inserted.len()
            &&& field.insertions@.skip(1) == inserted
            &&& is_replaced(calls, name, field.insertions@[0])
        } else {
            field.keep_input && field.insertions@ == inserted
        }
    }
}

/// A builder at another path records the same edits.
proof fn lemma_path_does_not_matter<Item>(
    a: Option<Seq<Seq<char>>>,
    b: Option<Seq<Seq<char>>>,
    calls: Seq<BuilderCall<Item>>,
)
    ensures
        new_builder::<Item>(a).calls(calls).root == new_builder::<Item>(b).calls(calls).root,
    decreases calls.len(),
{
    if calls.len() > 0 {
        lemma_path_does_not_matter::<Item>(a, b, calls.drop_last());
    }
}

proof fn lemma_says(
    input_path: Option<Seq<Seq<char>>>,
    calls: Seq<BuilderCall<ExpressionRef>>,
    patch: ExpressionStructPatch,
    name: Seq<char>,
)
    requires
        is_built(new_builder::<ExpressionRef>(input_path).calls(calls), Ok(patch)),
    ensures
        says(patch, input_path, calls),
        field_says(patch, input_path, calls, name),
{
    let builder = new_builder::<ExpressionRef>(input_path).calls(calls);
    law_calls_keep_the_path(new_builder::<ExpressionRef>(input_path), calls);
    law_calls_are_recorded(input_path, calls, name);
    let node = builder.root->Ok_0;
    assert(lowers_to(node, input_path, patch));
    let inside = calls_inside(calls, name);
    if patch.field_patches@.contains_key(name) {
        let field = patch.field_patches@[name];
        let edits = node.fields[name];
        assert(field_lowers_to(edits, child_path(input_path, name), field));
        match edits.action {
            PatchAction::Keep => {},
            PatchAction::Drop { optional } => {
                assert(is_dropped(calls, name, optional));
            },
            PatchAction::Replace(item) => {
                assert(is_replaced(calls, name, item));
                assert(field.insertions@.skip(1) =~= edits.insert_after);
            },
            PatchAction::Nested(child) => {
                assert(field.insertions@.skip(1) =~= field.insertions@.drop_first());
                if let Expression::StructPatch(inner) = *field.insertions@[0] {
                    let path = Some(path_below(input_path, name));
                    assert(path_below(input_path, name) =~= child_path(input_path, name));
                    lemma_path_does_not_matter::<ExpressionRef>(None, path, inside);
                    law_calls_keep_the_path(new_builder::<ExpressionRef>(path), inside);
                    let below = new_builder::<ExpressionRef>(path).calls(inside);
                    assert(is_built(below, Ok(inner)));
                    law_calls_are_recorded(path, inside, name);
                }
            },
        }
    }
}

/// The schema of a builder is that of its calls: the items that calls prepended, inserted and appended stand in the
/// output in the order of the calls, each at its place.
pub proof fn law_schema_says_what_the_calls_said(
    calls: Seq<BuilderCall<StructField>>,
    builder: StructPatchBuilder<StructField>,
    input: StructType,
    r: DeltaResult<StructType>,
)
    requires
        builder@ == new_builder::<StructField>(None).calls(calls),
        call_ensures(StructPatchBuilder::<StructField>::build, (builder, &input), r),
        r is Ok,
    ensures
        builder@.root is Ok,
        ({
            let node = builder@.root->Ok_0;
            let out = r->Ok_0@;
            &&& edited_fields_exist(node, input@)
            &&& laid_out(node, input@, out)
            &&& names_differ(out)
            &&& node.prepended == items_prepended(calls)
            &&& node.appended == items_appended(calls)
            &&& forall|name: Seq<char>|
                (#[trigger] edits_of(node, name)).insert_after == items_inserted(calls, name)
        }),
{
    law_calls_keep_the_path(new_builder::<StructField>(None), calls);
    let node = builder@.root->Ok_0;
    law_output_schema(node, input@, r->Ok_0@);
    law_calls_are_recorded(None, calls, Seq::empty());
    assert forall|name: Seq<char>| (#[trigger] edits_of(node, name)).insert_after == items_inserted(
        calls,
        name,
    ) by {
        law_calls_are_recorded(None, calls, name);
    }
}

/// A patch is empty exactly if it adds nothing and patches no field, and its path is the one that it holds.
pub proof fn law_empty_patches(
    patch: ExpressionStructPatch,
    empty: bool,
    path: Option<&ColumnName>,
    name: Seq<char>,
)
    requires
        call_ensures(ExpressionStructPatch::is_empty, (&patch,), empty),
        call_ensures(ExpressionStructPatch::input_path, (&patch,), path),
    ensures
        empty ==> patch.prepended_fields@.len() == 0 && patch.appended_fields@.len() == 0
            && !patch.field_patches@.contains_key(name),
        patch.prepended_fields@.len() == 0 && patch.appended_fields@.len() == 0 && (forall|
            other: Seq<char>,
        | !#[trigger] patch.field_patches@.contains_key(other)) ==> empty,
        path is Some <==> patch.input_path is Some,
        path is Some ==> *path->0 == patch.input_path->0,
{
    if forall|other: Seq<char>| !#[trigger] patch.field_patches@.contains_key(other) {
        assert(patch.field_patches@ =~= Map::empty());
    }
}

} // verus!
