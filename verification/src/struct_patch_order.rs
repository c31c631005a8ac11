//! Which calls of a struct patch builder can change places, and which can stand for others.

use vstd::prelude::*;

use crate::expressions::{Expression, ExpressionRef};
use crate::schema::{field_views, DataTypeView, FieldView, StructField};
use crate::struct_patch::{
    child_path, field_lowers_to, lowers_to, misses, patched_field, patched_fields, patched_schema,
    BuilderView, ExpressionFieldPatch, ExpressionStructPatch, PatchAction, PatchEdit, PatchField,
    PatchNode,
};
use crate::struct_patch_conflicts::{
    field_at, law_calls_after_an_error_change_nothing, lemma_calls_in_two_parts, lemma_field_below,
    BuilderCall,
};
use crate::struct_patch_laws::edited_field;

verus! {

impl<Item> BuilderCall<Item> {
    /// Do both calls put an item into the same list? Then the items stand there in the order of the calls.
    pub open spec fn shares_list_with(self, other: BuilderCall<Item>) -> bool {
        self.path == other.path && match (self.edit, other.edit) {
            (PatchEdit::Prepend(_), PatchEdit::Prepend(_)) => true,
            (PatchEdit::Append(_), PatchEdit::Append(_)) => true,
            (PatchEdit::InsertAfter(a, _), PatchEdit::InsertAfter(b, _)) => a == b,
            _ => false,
        }
    }
}

/// Two edits of one struct that do not share a list.
proof fn lemma_edits_of_a_struct<Item>(
    node: PatchNode<Item>,
    a: PatchEdit<Item>,
    b: PatchEdit<Item>,
)
    requires
        !(BuilderCall { path: Seq::empty(), edit: a }).shares_list_with(
            BuilderCall { path: Seq::empty(), edit: b },
        ),
        node.edit(a) is Ok,
        node.edit(a)->Ok_0.edit(b) is Ok,
    ensures
        node.edit(b) is Ok,
        node.edit(b)->Ok_0.edit(a) == node.edit(a)->Ok_0.edit(b),
{
    let na = node.edit(a)->Ok_0;
    match (edited_field(a), edited_field(b)) {
        (Some(x), Some(y)) => {
            if x != y {
                assert(na.field(y) == node.field(y));
                let nb = node.edit(b)->Ok_0;
                assert(nb.field(x) == node.field(x));
                assert(na.edit(b)->Ok_0.fields =~= nb.edit(a)->Ok_0.fields);
            } else {
                assert(na.field(x) == na.fields[x]);
                let nb = node.edit(b)->Ok_0;
                assert(nb.field(x) == nb.fields[x]);
                assert(na.edit(b)->Ok_0.fields =~= nb.edit(a)->Ok_0.fields);
            }
        },
        (Some(x), None) => {
            assert(node.edit(b)->Ok_0.field(x) == node.field(x));
        },
        (None, Some(y)) => {
            assert(na.field(y) == node.field(y));
        },
        (None, None) => {},
    }
}

/// Two calls that do not share a list can change places: if they succeed in one order, they succeed in the
/// other, with the same tree.
pub proof fn law_calls_can_change_places<Item>(
    node: PatchNode<Item>,
    a: BuilderCall<Item>,
    b: BuilderCall<Item>,
)
    requires
        !a.shares_list_with(b),
        node.edit_at(a.path, a.edit) is Ok,
        node.edit_at(a.path, a.edit)->Ok_0.edit_at(b.path, b.edit) is Ok,
    ensures
        node.edit_at(b.path, b.edit) is Ok,
        node.edit_at(b.path, b.edit)->Ok_0.edit_at(a.path, a.edit) == node.edit_at(
            a.path,
            a.edit,
        )->Ok_0.edit_at(b.path, b.edit),
    decreases a.path.len(),
{
    let na = node.edit_at(a.path, a.edit)->Ok_0;
    let nab = na.edit_at(b.path, b.edit)->Ok_0;
    if a.path.len() == 0 && b.path.len() == 0 {
        assert(a.path =~= b.path);
        lemma_edits_of_a_struct(node, a.edit, b.edit);
    } else if a.path.len() == 0 {
        let h = b.path[0];
        assert(na.child(h) == node.child(h));
        let nb = node.edit_at(b.path, b.edit)->Ok_0;
        if let Some(x) = edited_field(a.edit) {
            if x != h {
                assert(nb.field(x) == node.field(x));
                assert(na.field(h) == node.field(h));
            }
        }
        let nba = nb.edit_at(a.path, a.edit)->Ok_0;
        assert(nba.fields =~= nab.fields);
    } else if b.path.len() == 0 {
        let h = a.path[0];
        if let Some(y) = edited_field(b.edit) {
            if y != h {
                assert(na.field(y) == node.field(y));
                assert(node.edit(b.edit)->Ok_0.field(h) == node.field(h));
            }
        }
        let nb = node.edit_at(b.path, b.edit)->Ok_0;
        assert(nb.child(h) == node.child(h));
        let nba = nb.edit_at(a.path, a.edit)->Ok_0;
        assert(nba.fields =~= nab.fields);
    } else {
        let h = a.path[0];
        let g = b.path[0];
        let inner_a = BuilderCall { path: a.path.drop_first(), edit: a.edit };
        let inner_b = BuilderCall { path: b.path.drop_first(), edit: b.edit };
        if h == g {
            if inner_a.path == inner_b.path {
                assert(a.path =~= seq![h] + inner_a.path);
                assert(b.path =~= seq![g] + inner_b.path);
            }
            law_calls_can_change_places(node.child(h)->0, inner_a, inner_b);
            let nb = node.edit_at(b.path, b.edit)->Ok_0;
            assert(nb.child(h) == Some(
                node.child(h)->0.edit_at(inner_b.path, inner_b.edit)->Ok_0,
            ));
            let nba = nb.edit_at(a.path, a.edit)->Ok_0;
            assert(nba.fields =~= nab.fields);
        } else {
            assert(na.field(g) == node.field(g));
            let nb = node.edit_at(b.path, b.edit)->Ok_0;
            assert(nb.field(h) == node.field(h));
            let nba = nb.edit_at(a.path, a.edit)->Ok_0;
            assert(nba.fields =~= nab.fields);
        }
    }
}

/// Neighbouring calls that do not share a list can change places in any sequence of calls that succeeds.
pub proof fn law_calls_can_come_in_any_order<Item>(
    builder: BuilderView<Item>,
    before: Seq<BuilderCall<Item>>,
    a: BuilderCall<Item>,
    b: BuilderCall<Item>,
    after: Seq<BuilderCall<Item>>,
)
    requires
        !a.shares_list_with(b),
        builder.calls(before + seq![a, b] + after).root is Ok,
    ensures
        builder.calls(before + seq![b, a] + after) == builder.calls(before + seq![a, b] + after),
{
    lemma_calls_in_two_parts(builder, before + seq![a, b], after);
    lemma_calls_in_two_parts(builder, before + seq![b, a], after);
    lemma_calls_in_two_parts(builder, before, seq![a, b]);
    lemma_calls_in_two_parts(builder, before, seq![b, a]);
    let start = builder.calls(before);
    lemma_two_calls(start, a, b);
    lemma_two_calls(start, b, a);
    let middle = start.calls(seq![a, b]);
    if middle.root is Err {
        law_calls_after_an_error_change_nothing(middle, after);
    }
    if start.root is Ok {
        law_calls_can_change_places(start.root->Ok_0, a, b);
    }
}

proof fn lemma_two_calls<Item>(
    builder: BuilderView<Item>,
    a: BuilderCall<Item>,
    b: BuilderCall<Item>,
)
    ensures
        builder.calls(seq![a, b]) == builder.edit_at(a.path, a.edit).edit_at(b.path, b.edit),
{
    assert(seq![a, b].drop_last() =~= seq![a]);
    assert(seq![a].drop_last() =~= Seq::empty());
    assert(builder.calls(seq![a].drop_last()) == builder);
    assert(builder.calls(seq![a]) == builder.edit_at(a.path, a.edit));
}

/// The tree after a field was dropped and an item inserted after it.
pub open spec fn dropped_and_inserted<Item>(
    node: PatchNode<Item>,
    path: Seq<Seq<char>>,
    name: Seq<char>,
    item: Item,
) -> Result<PatchNode<Item>, Seq<char>> {
    match node.edit_at(path, PatchEdit::Drop(name, false)) {
        Ok(dropped) => dropped.edit_at(path, PatchEdit::InsertAfter(name, item)),
        Err(message) => Err(message),
    }
}

/// Where a field can be replaced, it can be dropped and an item inserted after it.
proof fn lemma_drop_and_insert<Item>(
    node: PatchNode<Item>,
    path: Seq<Seq<char>>,
    name: Seq<char>,
    item: Item,
)
    requires
        node.edit_at(path, PatchEdit::Replace(name, item)) is Ok,
    ensures
        dropped_and_inserted(node, path, name, item) is Ok,
        path.len() > 0 ==> {
            let child = node.child(path[0])->0;
            let below = dropped_and_inserted(child, path.drop_first(), name, item);
            &&& child.edit_at(path.drop_first(), PatchEdit::Replace(name, item)) is Ok
            &&& below is Ok
            &&& dropped_and_inserted(node, path, name, item)->Ok_0 == node.with_field(
                path[0],
                PatchField {
                    action: PatchAction::Nested(Box::new(below->Ok_0)),
                    ..node.field(path[0])
                },
            )
        },
    decreases path.len(),
{
    if path.len() > 0 {
        let h = path[0];
        let rest = path.drop_first();
        let child = node.child(h)->0;
        lemma_drop_and_insert(child, rest, name, item);
        let dropped = node.edit_at(path, PatchEdit::Drop(name, false))->Ok_0;
        assert(dropped.child(h) == Some(
            child.edit_at(rest, PatchEdit::Drop(name, false))->Ok_0,
        ));
        let both = dropped_and_inserted(node, path, name, item)->Ok_0;
        assert(both.fields =~= node.with_field(
            h,
            PatchField {
                action: PatchAction::Nested(
                    Box::new(dropped_and_inserted(child, rest, name, item)->Ok_0),
                ),
                ..node.field(h)
            },
        ).fields);
    } else {
        let dropped = node.edit(PatchEdit::Drop(name, false))->Ok_0;
        assert(dropped.field(name) == dropped.fields[name]);
    }
}

/// Dropping a field and inserting an item after it builds the expression patch that replacing the field with
/// the item builds, if nothing was inserted after the field before.
pub proof fn law_drop_and_insert_builds_what_replace_builds(
    node: PatchNode<ExpressionRef>,
    path: Seq<Seq<char>>,
    name: Seq<char>,
    item: ExpressionRef,
    input_path: Option<Seq<Seq<char>>>,
    patch: ExpressionStructPatch,
)
    requires
        node.edit_at(path, PatchEdit::Replace(name, item)) is Ok,
        field_at(node, path, name).insert_after.len() == 0,
    ensures
        dropped_and_inserted(node, path, name, item) is Ok,
        lowers_to(dropped_and_inserted(node, path, name, item)->Ok_0, input_path, patch)
            == lowers_to(
            node.edit_at(path, PatchEdit::Replace(name, item))->Ok_0,
            input_path,
            patch,
        ),
    decreases path.len(), 0int,
{
    let one = dropped_and_inserted(node, path, name, item)->Ok_0;
    let other = node.edit_at(path, PatchEdit::Replace(name, item))->Ok_0;
    lemma_drop_and_insert(node, path, name, item);
    let edited = if path.len() == 0 {
        name
    } else {
        path[0]
    };
    assert forall|n: Seq<char>| one.fields.contains_key(n) == #[trigger] other.fields.contains_key(
        n,
    ) by {}
    assert forall|n: Seq<char>| #[trigger] patch.field_patches@.contains_key(n)
        && other.fields.contains_key(n) implies field_lowers_to(
        one.fields[n],
        child_path(input_path, n),
        patch.field_patches@[n],
    ) == field_lowers_to(
        other.fields[n],
        child_path(input_path, n),
        patch.field_patches@[n],
    ) by {
        if n == edited {
            let field = patch.field_patches@[n];
            if path.len() == 0 {
                assert(one.fields[n].insert_after =~= seq![item]);
                assert(seq![item] + other.fields[n].insert_after =~= seq![item]);
            } else {
                lemma_field_below(node, node.child(edited)->0, path, name);
                lemma_nested_lowering(
                    node.child(edited)->0,
                    path.drop_first(),
                    name,
                    item,
                    child_path(input_path, n),
                    field,
                );
            }
        } else {
            assert(one.fields[n] == other.fields[n]);
        }
    }
}

proof fn lemma_nested_lowering(
    child: PatchNode<ExpressionRef>,
    path: Seq<Seq<char>>,
    name: Seq<char>,
    item: ExpressionRef,
    input_path: Seq<Seq<char>>,
    field: ExpressionFieldPatch,
)
    requires
        child.edit_at(path, PatchEdit::Replace(name, item)) is Ok,
        field_at(child, path, name).insert_after.len() == 0,
    ensures
        match *field.insertions@[0] {
            Expression::StructPatch(inner) => lowers_to(
                dropped_and_inserted(child, path, name, item)->Ok_0,
                Some(input_path),
                inner,
            ) == lowers_to(
                child.edit_at(path, PatchEdit::Replace(name, item))->Ok_0,
                Some(input_path),
                inner,
            ),
            _ => true,
        },
    decreases path.len(), 1int,
{
    if let Expression::StructPatch(inner) = *field.insertions@[0] {
        law_drop_and_insert_builds_what_replace_builds(
            child,
            path,
            name,
            item,
            Some(input_path),
            inner,
        );
    }
}

proof fn lemma_same_fields(
    one: PatchNode<StructField>,
    other: PatchNode<StructField>,
    input: Seq<FieldView>,
)
    requires
        forall|i: int|
            0 <= i < input.len() ==> patched_field(one, #[trigger] input[i]) == patched_field(
                other,
                input[i],
            ),
    ensures
        patched_fields(one, input) == patched_fields(other, input),
    decreases input.len(),
{
    if input.len() > 0 {
        lemma_same_fields(one, other, input.drop_last());
        assert(patched_field(one, input[input.len() - 1]) == patched_field(
            other,
            input[input.len() - 1],
        ));
    }
}

/// Dropping a field and inserting an item after it builds the schema that replacing the field with the item
/// builds, if nothing was inserted after the field before.
pub proof fn law_drop_and_insert_makes_the_schema_that_replace_makes(
    node: PatchNode<StructField>,
    path: Seq<Seq<char>>,
    name: Seq<char>,
    item: StructField,
    input: Seq<FieldView>,
)
    requires
        node.edit_at(path, PatchEdit::Replace(name, item)) is Ok,
        field_at(node, path, name).insert_after.len() == 0,
    ensures
        dropped_and_inserted(node, path, name, item) is Ok,
        patched_schema(dropped_and_inserted(node, path, name, item)->Ok_0, input)
            == patched_schema(node.edit_at(path, PatchEdit::Replace(name, item))->Ok_0, input),
    decreases path.len(),
{
    let one = dropped_and_inserted(node, path, name, item)->Ok_0;
    let other = node.edit_at(path, PatchEdit::Replace(name, item))->Ok_0;
    lemma_drop_and_insert(node, path, name, item);
    let edited = if path.len() == 0 {
        name
    } else {
        path[0]
    };
    assert forall|i: int| 0 <= i < input.len() implies patched_field(one, #[trigger] input[i])
        == patched_field(other, input[i]) by {
        let here = input[i];
        if here.name == edited {
            if path.len() == 0 {
                assert(one.field(name).insert_after =~= seq![item]);
                assert(field_views(seq![item]) =~= seq![item.view()] + field_views(
                    other.field(name).insert_after,
                ));
            } else {
                lemma_field_below(node, node.child(edited)->0, path, name);
                if let DataTypeView::Struct(inner) = here.data_type {
                    law_drop_and_insert_makes_the_schema_that_replace_makes(
                        node.child(edited)->0,
                        path.drop_first(),
                        name,
                        item,
                        inner,
                    );
                }
            }
        } else {
            assert(one.field(here.name) == other.field(here.name));
        }
    }
    lemma_same_fields(one, other, input);
    assert forall|n: Seq<char>| #[trigger] misses(one, input, n) == misses(other, input, n) by {
        if n != edited {
            assert(one.fields.contains_key(n) == other.fields.contains_key(n));
        }
    }
    if forall|n: Seq<char>| !#[trigger] misses(other, input, n) {
        assert forall|n: Seq<char>| !#[trigger] misses(one, input, n) by {
            assert(misses(one, input, n) == misses(other, input, n));
        }
    } else {
        let n = choose|n: Seq<char>| #[trigger] misses(other, input, n);
        assert(misses(one, input, n));
    }
}

} // verus!
