//! Which sequences of edits a struct patch builder rejects, and with which error.

use vstd::prelude::*;

use crate::error::{DeltaResult, ErrorView};
use crate::expressions::ExpressionRef;
use crate::struct_patch::{
    empty_node, is_built, BuilderView, ExpressionStructPatch, PatchAction, PatchEdit, PatchField,
    PatchNode,
};
use crate::struct_patch_laws::{destroys, edited_field};

verus! {

/// One call of a builder: an edit of the struct at a path.
pub struct BuilderCall<Item> {
    pub path: Seq<Seq<char>>,
    pub edit: PatchEdit<Item>,
}

impl<Item> BuilderView<Item> {
    /// The builder after a sequence of calls.
    pub open spec fn calls(self, calls: Seq<BuilderCall<Item>>) -> BuilderView<Item>
        decreases calls.len(),
    {
        if calls.len() == 0 {
            self
        } else {
            self.calls(calls.drop_last()).edit_at(calls.last().path, calls.last().edit)
        }
    }
}

/// The builder before any call.
pub open spec fn new_builder<Item>(input_path: Option<Seq<Seq<char>>>) -> BuilderView<Item> {
    BuilderView { input_path, root: Ok(empty_node()) }
}

/// Does the path lead through the named field of the struct at another path?
pub open spec fn leads_through(
    path: Seq<Seq<char>>,
    struct_path: Seq<Seq<char>>,
    name: Seq<char>,
) -> bool {
    &&& path.len() > struct_path.len()
    &&& path.take(struct_path.len() as int) == struct_path
    &&& path[struct_path.len() as int] == name
}

impl<Item> BuilderCall<Item> {
    /// Does the call drop or replace the named field of the struct at a path?
    pub open spec fn destroys_at(self, struct_path: Seq<Seq<char>>, name: Seq<char>) -> bool {
        self.path == struct_path && destroys(self.edit, name)
    }

    /// Does the call drop the named field of the struct at a path, if the field is there?
    pub open spec fn drops_if_exists_at(
        self,
        struct_path: Seq<Seq<char>>,
        name: Seq<char>,
    ) -> bool {
        self.path == struct_path && self.edit == PatchEdit::<Item>::Drop(name, true)
    }

    /// Does the call insert an item after the named field of the struct at a path?
    pub open spec fn inserts_at(self, struct_path: Seq<Seq<char>>, name: Seq<char>) -> bool {
        self.path == struct_path && self.edit is InsertAfter && edited_field(self.edit) == Some(
            name,
        )
    }

    /// Is there a field that the later call cannot edit as it wants to, because of the earlier one?
    pub open spec fn conflicts_with(self, later: BuilderCall<Item>) -> bool {
        ||| match edited_field(later.edit) {
            // The later call drops or replaces a field that was dropped, replaced or patched inside, or
            // brings an optional drop and an insertion together.
            Some(name) => {
                ||| destroys(later.edit, name) && (self.destroys_at(later.path, name)
                    || leads_through(self.path, later.path, name))
                ||| later.edit == PatchEdit::<Item>::Drop(name, true) && self.inserts_at(
                    later.path,
                    name,
                )
                ||| later.edit is InsertAfter && self.drops_if_exists_at(later.path, name)
            },
            None => false,
        }
        ||| match edited_field(self.edit) {
            // The later call goes through a field that was dropped or replaced.
            Some(name) => destroys(self.edit, name) && leads_through(later.path, self.path, name),
            None => false,
        }
    }
}

/// Do two of the calls conflict?
pub open spec fn some_conflict<Item>(calls: Seq<BuilderCall<Item>>) -> bool {
    exists|i: int, j: int|
        0 <= i < j < calls.len() && (#[trigger] calls[i]).conflicts_with(#[trigger] calls[j])
}

/// A field without edits.
pub open spec fn kept<Item>() -> PatchField<Item> {
    PatchField { action: PatchAction::Keep, insert_after: Seq::empty() }
}

/// The edits of the named field of the struct at a path.
pub open spec fn field_at<Item>(
    node: PatchNode<Item>,
    struct_path: Seq<Seq<char>>,
    name: Seq<char>,
) -> PatchField<Item>
    decreases struct_path.len(),
{
    if struct_path.len() == 0 {
        node.field(name)
    } else {
        match node.field(struct_path[0]).action {
            PatchAction::Nested(child) => field_at(*child, struct_path.drop_first(), name),
            _ => kept(),
        }
    }
}

spec fn is_gone<Item>(field: PatchField<Item>) -> bool {
    field.action is Drop || field.action is Replace
}

spec fn is_optionally_dropped<Item>(field: PatchField<Item>) -> bool {
    field.action == (PatchAction::<Item>::Drop { optional: true })
}

/// Can the edit of the field not be made?
spec fn clashes<Item>(field: PatchField<Item>, edit: PatchEdit<Item>) -> bool {
    match edit {
        PatchEdit::Drop(_, optional) => field.action !is Keep || (optional
            && field.insert_after.len() > 0),
        PatchEdit::Replace(_, _) => field.action !is Keep,
        PatchEdit::InsertAfter(_, _) => is_optionally_dropped(field),
        _ => false,
    }
}

/// Does the path lead through a field that is gone?
spec fn is_blocked<Item>(node: PatchNode<Item>, path: Seq<Seq<char>>) -> bool {
    exists|k: int| 0 <= k < path.len() && is_gone(#[trigger] field_at(node, path.take(k), path[k]))
}

proof fn lemma_field_of_empty_node<Item>(struct_path: Seq<Seq<char>>, name: Seq<char>)
    ensures
        field_at(empty_node::<Item>(), struct_path, name) == kept::<Item>(),
{
    if struct_path.len() > 0 {
        assert(empty_node::<Item>().field(struct_path[0]).action is Keep);
    }
}

/// The fields below the first one of a path are those of the struct in it.
pub proof fn lemma_field_below<Item>(
    node: PatchNode<Item>,
    child: PatchNode<Item>,
    struct_path: Seq<Seq<char>>,
    name: Seq<char>,
)
    requires
        struct_path.len() > 0,
        node.child(struct_path[0]) == Some(child),
    ensures
        field_at(node, struct_path, name) == field_at(child, struct_path.drop_first(), name),
{
    if node.field(struct_path[0]).action is Keep {
        lemma_field_of_empty_node::<Item>(struct_path.drop_first(), name);
    }
}

/// When an edit fails.
proof fn lemma_when_an_edit_fails<Item>(
    node: PatchNode<Item>,
    path: Seq<Seq<char>>,
    edit: PatchEdit<Item>,
)
    ensures
        node.edit_at(path, edit) is Err <==> is_blocked(node, path) || match edited_field(edit) {
            Some(name) => clashes(field_at(node, path, name), edit),
            None => false,
        },
    decreases path.len(),
{
    if path.len() > 0 {
        let rest = path.drop_first();
        assert(path.take(0) =~= Seq::empty());
        assert(field_at(node, path.take(0), path[0]) == node.field(path[0]));
        match node.child(path[0]) {
            None => {
                assert(is_gone(field_at(node, path.take(0), path[0])));
            },
            Some(child) => {
                lemma_when_an_edit_fails(child, rest, edit);
                assert forall|k: int| 0 <= k < rest.len() implies #[trigger] field_at(
                    child,
                    rest.take(k),
                    rest[k],
                ) == field_at(node, path.take(k + 1), path[k + 1]) by {
                    assert(path.take(k + 1).drop_first() =~= rest.take(k));
                    lemma_field_below(node, child, path.take(k + 1), path[k + 1]);
                }
                if is_blocked(child, rest) {
                    let k = choose|k: int|
                        0 <= k < rest.len() && is_gone(
                            #[trigger] field_at(child, rest.take(k), rest[k]),
                        );
                    assert(is_gone(field_at(node, path.take(k + 1), path[k + 1])));
                }
                if is_blocked(node, path) {
                    let k = choose|k: int|
                        0 <= k < path.len() && is_gone(
                            #[trigger] field_at(node, path.take(k), path[k]),
                        );
                    assert(k > 0);
                    assert(field_at(child, rest.take(k - 1), rest[k - 1]) == field_at(
                        node,
                        path.take(k),
                        path[k],
                    ));
                }
                if let Some(name) = edited_field(edit) {
                    lemma_field_below(node, child, path, name);
                }
            },
        }
    }
}

/// What an edit changes of a field, whichever it is.
proof fn lemma_what_an_edit_changes<Item>(
    node: PatchNode<Item>,
    path: Seq<Seq<char>>,
    edit: PatchEdit<Item>,
    struct_path: Seq<Seq<char>>,
    name: Seq<char>,
)
    requires
        node.edit_at(path, edit) is Ok,
    ensures
        ({
            let call = BuilderCall { path, edit };
            let before = field_at(node, struct_path, name);
            let after = field_at(node.edit_at(path, edit)->Ok_0, struct_path, name);
            &&& is_gone(after) == (is_gone(before) || call.destroys_at(struct_path, name))
            &&& is_optionally_dropped(after) == (is_optionally_dropped(before)
                || call.drops_if_exists_at(struct_path, name))
            &&& (after.action is Nested) == (before.action is Nested || leads_through(
                path,
                struct_path,
                name,
            ))
            &&& (after.insert_after.len() > 0) == (before.insert_after.len() > 0
                || call.inserts_at(struct_path, name))
        }),
    decreases path.len(),
{
    let edited = node.edit_at(path, edit)->Ok_0;
    if path.len() == 0 {
        if struct_path.len() == 0 {
            assert(struct_path =~= path);
        } else if edited_field(edit) == Some(struct_path[0]) {
            assert(field_at(edited, struct_path, name) == field_at(node, struct_path, name));
        } else {
            assert(edited.field(struct_path[0]) == node.field(struct_path[0]));
        }
    } else {
        let child = node.child(path[0])->0;
        let rest = path.drop_first();
        if struct_path.len() == 0 {
            assert(path.take(0) =~= struct_path);
            assert(path != struct_path);
        } else if struct_path[0] == path[0] {
            let below = struct_path.drop_first();
            lemma_what_an_edit_changes(child, rest, edit, below, name);
            lemma_field_below(node, child, struct_path, name);
            lemma_field_below(edited, child.edit_at(rest, edit)->Ok_0, struct_path, name);
            assert(rest == below ==> path =~= struct_path) by {
                assert(path =~= seq![path[0]] + rest);
                assert(struct_path =~= seq![struct_path[0]] + below);
            }
            assert(leads_through(rest, below, name) == leads_through(path, struct_path, name)) by {
                let n = below.len() as int;
                if path.len() > struct_path.len() {
                    assert(path.take(n + 1) =~= seq![path[0]] + rest.take(n));
                    assert(path.take(n + 1).drop_first() =~= rest.take(n));
                    assert(struct_path =~= seq![struct_path[0]] + below);
                }
            }
        } else {
            assert(edited.field(struct_path[0]) == node.field(struct_path[0]));
            assert(!leads_through(path, struct_path, name)) by {
                if path.len() > struct_path.len() {
                    assert(path.take(struct_path.len() as int)[0] == path[0]);
                }
            }
        }
    }
}

/// Does the tree say of a field what the calls say?
spec fn records<Item>(
    node: PatchNode<Item>,
    calls: Seq<BuilderCall<Item>>,
    struct_path: Seq<Seq<char>>,
    name: Seq<char>,
) -> bool {
    let field = field_at(node, struct_path, name);
    &&& is_gone(field) <==> exists|i: int|
        0 <= i < calls.len() && (#[trigger] calls[i]).destroys_at(struct_path, name)
    &&& is_optionally_dropped(field) <==> exists|i: int|
        0 <= i < calls.len() && (#[trigger] calls[i]).drops_if_exists_at(struct_path, name)
    &&& field.action is Nested <==> exists|i: int|
        0 <= i < calls.len() && leads_through((#[trigger] calls[i]).path, struct_path, name)
    &&& field.insert_after.len() > 0 <==> exists|i: int|
        0 <= i < calls.len() && (#[trigger] calls[i]).inserts_at(struct_path, name)
}

proof fn lemma_records<Item>(
    input_path: Option<Seq<Seq<char>>>,
    calls: Seq<BuilderCall<Item>>,
    struct_path: Seq<Seq<char>>,
    name: Seq<char>,
)
    requires
        new_builder::<Item>(input_path).calls(calls).root is Ok,
    ensures
        records(new_builder::<Item>(input_path).calls(calls).root->Ok_0, calls, struct_path, name),
    decreases calls.len(),
{
    if calls.len() == 0 {
        lemma_field_of_empty_node::<Item>(struct_path, name);
    } else {
        let rest = calls.drop_last();
        let last = calls[calls.len() - 1];
        lemma_records(input_path, rest, struct_path, name);
        let node = new_builder::<Item>(input_path).calls(rest).root->Ok_0;
        lemma_what_an_edit_changes(node, last.path, last.edit, struct_path, name);
        assert(last == BuilderCall { path: last.path, edit: last.edit });
        assert forall|i: int| 0 <= i < rest.len() implies rest[i] == #[trigger] calls[i] by {}
        assert forall|i: int| 0 <= i < rest.len() implies #[trigger] rest[i] == calls[i] by {}
    }
}

/// A builder holds an error exactly when two of its calls conflict: the later one drops or replaces a field
/// that the earlier one dropped, replaced or patched inside, or goes through a field that the earlier one
/// dropped or replaced, or the two bring an optional drop and an insertion together on one field.
pub proof fn law_edits_fail_exactly_on_a_conflict<Item>(
    input_path: Option<Seq<Seq<char>>>,
    calls: Seq<BuilderCall<Item>>,
)
    ensures
        new_builder::<Item>(input_path).calls(calls).root is Err <==> some_conflict(calls),
    decreases calls.len(),
{
    if calls.len() > 0 {
        let rest = calls.drop_last();
        let n = calls.len() - 1;
        let last = calls[n];
        law_edits_fail_exactly_on_a_conflict(input_path, rest);
        let before = new_builder::<Item>(input_path).calls(rest);
        assert forall|i: int| 0 <= i < rest.len() implies #[trigger] rest[i] == calls[i] by {}
        if before.root is Err {
            let (i, j) = choose|i: int, j: int|
                0 <= i < j < rest.len() && (#[trigger] rest[i]).conflicts_with(#[trigger] rest[j]);
            assert(calls[i].conflicts_with(calls[j]));
        } else {
            let node = before.root->Ok_0;
            lemma_when_an_edit_fails(node, last.path, last.edit);
            if is_blocked(node, last.path) {
                let k = choose|k: int|
                    0 <= k < last.path.len() && is_gone(
                        #[trigger] field_at(node, last.path.take(k), last.path[k]),
                    );
                lemma_records(input_path, rest, last.path.take(k), last.path[k]);
                let i = choose|i: int|
                    0 <= i < rest.len() && (#[trigger] rest[i]).destroys_at(
                        last.path.take(k),
                        last.path[k],
                    );
                assert(calls[i].conflicts_with(calls[n]));
            }
            if let Some(name) = edited_field(last.edit) {
                lemma_records(input_path, rest, last.path, name);
                if clashes(field_at(node, last.path, name), last.edit) {
                    let i = choose|i: int|
                        0 <= i < rest.len() && {
                            ||| destroys(last.edit, name) && (#[trigger] rest[i]).destroys_at(
                                last.path,
                                name,
                            )
                            ||| destroys(last.edit, name) && leads_through(
                                rest[i].path,
                                last.path,
                                name,
                            )
                            ||| last.edit == PatchEdit::<Item>::Drop(name, true)
                                && rest[i].inserts_at(last.path, name)
                            ||| last.edit is InsertAfter && rest[i].drops_if_exists_at(
                                last.path,
                                name,
                            )
                        };
                    assert(calls[i].conflicts_with(calls[n]));
                }
            }
            if some_conflict(calls) {
                let (i, j) = choose|i: int, j: int|
                    0 <= i < j < calls.len() && (#[trigger] calls[i]).conflicts_with(
                        #[trigger] calls[j],
                    );
                if j < n {
                    assert(rest[i].conflicts_with(rest[j]));
                } else {
                    assert(rest[i] == calls[i]);
                    if let Some(name) = edited_field(rest[i].edit) {
                        lemma_records(input_path, rest, rest[i].path, name);
                        if destroys(rest[i].edit, name) && leads_through(
                            last.path,
                            rest[i].path,
                            name,
                        ) {
                            let k = rest[i].path.len() as int;
                            assert(rest[i].destroys_at(rest[i].path, name));
                            assert(is_gone(field_at(node, last.path.take(k), last.path[k])));
                        }
                    }
                }
            }
        }
    }
}

/// Building an expression patch fails exactly when two calls conflict.
pub proof fn law_build_fails_exactly_on_a_conflict(
    input_path: Option<Seq<Seq<char>>>,
    calls: Seq<BuilderCall<ExpressionRef>>,
    built: DeltaResult<ExpressionStructPatch>,
)
    requires
        is_built(new_builder::<ExpressionRef>(input_path).calls(calls), built),
    ensures
        built is Err <==> some_conflict(calls),
{
    law_edits_fail_exactly_on_a_conflict(input_path, calls);
}

/// Whatever calls follow an error, they change nothing.
pub proof fn law_calls_after_an_error_change_nothing<Item>(
    builder: BuilderView<Item>,
    calls: Seq<BuilderCall<Item>>,
)
    requires
        builder.root is Err,
    ensures
        builder.calls(calls) == builder,
    decreases calls.len(),
{
    if calls.len() > 0 {
        law_calls_after_an_error_change_nothing(builder, calls.drop_last());
    }
}

/// Calls that are made one after the other can be made in two parts.
pub proof fn lemma_calls_in_two_parts<Item>(
    builder: BuilderView<Item>,
    first: Seq<BuilderCall<Item>>,
    second: Seq<BuilderCall<Item>>,
)
    ensures
        builder.calls(first + second) == builder.calls(first).calls(second),
    decreases second.len(),
{
    if second.len() == 0 {
        assert(first + second =~= first);
    } else {
        lemma_calls_in_two_parts(builder, first, second.drop_last());
        assert((first + second).drop_last() =~= first + second.drop_last());
    }
}

/// The first error stays, whatever calls follow the one that failed: a patch of either sort is built from it.
pub proof fn law_first_error_stays_whatever_follows<Item>(
    builder: BuilderView<Item>,
    calls: Seq<BuilderCall<Item>>,
    more: Seq<BuilderCall<Item>>,
)
    requires
        builder.calls(calls).root is Err,
    ensures
        builder.calls(calls + more) == builder.calls(calls),
{
    lemma_calls_in_two_parts(builder, calls, more);
    law_calls_after_an_error_change_nothing(builder.calls(calls), more);
}

/// The first error comes out of building, whatever calls follow the one that failed.
pub proof fn law_first_error_comes_out(
    builder: BuilderView<ExpressionRef>,
    calls: Seq<BuilderCall<ExpressionRef>>,
    more: Seq<BuilderCall<ExpressionRef>>,
    error: ErrorView,
    built: DeltaResult<ExpressionStructPatch>,
)
    requires
        builder.calls(calls).root == Err::<PatchNode<ExpressionRef>, ErrorView>(error),
        is_built(builder.calls(calls + more), built),
    ensures
        built is Err,
        built->Err_0@ == error,
{
    law_first_error_stays_whatever_follows(builder, calls, more);
}

} // verus!
