//! Struct patches: sparse edits to the fields of an input struct.

use std::sync::Arc;

use vstd::prelude::*;
use vstd::std_specs::convert::TryFromSpecImpl;

use crate::error::{DeltaResult, Error, ErrorView};
use crate::expressions::{path_text, ColumnName, Expression, ExpressionRef};
use crate::schema::{
    distinct_names, field_views, first_repeated, has_name, DataType, DataTypeView, FieldView,
    StructField, StructType,
};
use crate::string_map::{
    distinct_keys, entries_map, lemma_entries_map_contains, lemma_entries_map_index, StringMap,
};
use crate::text::{join2, join3, texts};

verus! {

broadcast use crate::string_map::lemma_value_decreases;

/// A patch affecting a single input field.
///
/// A field patch can keep or omit its input field, then insert zero or more expressions after the
/// input field's output position.
#[derive(Debug, Clone, PartialEq)]
pub struct ExpressionFieldPatch {
    /// If true, the original input field is emitted before this patch's insertions. If false, the
    /// input field is omitted and the first insertion, if present, takes its output position.
    pub keep_input: bool,
    /// Expressions emitted after this field's output position.
    pub insertions: Vec<ExpressionRef>,
    /// If true, this patch is ignored when the input field does not exist. Otherwise, a missing
    /// input field is an error.
    pub optional: bool,
}

/// A sparse expression patch over the fields of one input struct.
///
/// Only the fields that change (inserted, replaced, or dropped) are mentioned. Any other input
/// field is passed through unmodified, with the same relative order.
#[derive(Debug, Clone, PartialEq)]
pub struct ExpressionStructPatch {
    /// The path to the nested input struct this patch operates on. Without a path, the patch
    /// operates on top-level columns.
    pub input_path: Option<ColumnName>,
    /// The patch of each named input field.
    pub field_patches: StringMap<ExpressionFieldPatch>,
    /// New fields to emit before the first input field.
    pub prepended_fields: Vec<ExpressionRef>,
    /// New fields to emit after all input fields and field-specific insertions.
    pub appended_fields: Vec<ExpressionRef>,
}

impl Default for ExpressionFieldPatch {
    /// A patch that omits a field, which must be there, and inserts nothing.
    fn default() -> (r: Self)
        ensures
            !r.keep_input,
            r.insertions@ == Seq::<ExpressionRef>::empty(),
            !r.optional,
    {
        ExpressionFieldPatch { keep_input: false, insertions: Vec::new(), optional: false }
    }
}

impl Default for ExpressionStructPatch {
    /// A patch of top-level columns that makes no changes.
    fn default() -> (r: Self)
        ensures
            r.input_path is None,
            r.field_patches@ == Map::<Seq<char>, ExpressionFieldPatch>::empty(),
            r.prepended_fields@ == Seq::<ExpressionRef>::empty(),
            r.appended_fields@ == Seq::<ExpressionRef>::empty(),
    {
        ExpressionStructPatch {
            input_path: None,
            field_patches: StringMap::new(),
            prepended_fields: Vec::new(),
            appended_fields: Vec::new(),
        }
    }
}

impl ExpressionStructPatch {
    /// Does this patch make no changes to the selected input struct?
    pub fn is_empty(&self) -> (r: bool)
        ensures
            r == (self.prepended_fields@.len() == 0 && self.appended_fields@.len() == 0
                && self.field_patches@ == Map::<Seq<char>, ExpressionFieldPatch>::empty()),
    {
        self.prepended_fields.len() == 0 && self.appended_fields.len() == 0
            && self.field_patches.is_empty()
    }

    /// None if this is a top-level patch. Otherwise, the path of this nested patch.
    pub fn input_path(&self) -> (r: Option<&ColumnName>)
        ensures
            match r {
                Some(path) => self.input_path == Some(*path),
                None => self.input_path is None,
            },
    {
        match &self.input_path {
            Some(path) => Some(path),
            None => None,
        }
    }
}

// === The patch tree ===

/// The edits requested so far for one struct.
pub struct PatchNode<Item> {
    /// Items before the first input field.
    pub prepended: Seq<Item>,
    /// Items after the last input field.
    pub appended: Seq<Item>,
    /// The edits of the input fields that are not passed through.
    pub fields: Map<Seq<char>, PatchField<Item>>,
}

/// The edits requested so far for one field.
pub struct PatchField<Item> {
    /// What happens to the input field.
    pub action: PatchAction<Item>,
    /// Items after the field.
    pub insert_after: Seq<Item>,
}

/// What happens to an input field.
pub enum PatchAction<Item> {
    /// It is passed through.
    Keep,
    /// It is left out. An optional drop tolerates that the field is missing.
    Drop { optional: bool },
    /// An item takes its place.
    Replace(Item),
    /// The struct in it is edited.
    Nested(Box<PatchNode<Item>>),
}

/// One edit of one struct.
pub enum PatchEdit<Item> {
    Prepend(Item),
    Append(Item),
    InsertAfter(Seq<char>, Item),
    Drop(Seq<char>, bool),
    Replace(Seq<char>, Item),
}

/// The tree without any edit.
pub open spec fn empty_node<Item>() -> PatchNode<Item> {
    PatchNode { prepended: Seq::empty(), appended: Seq::empty(), fields: Map::empty() }
}

impl<Item> PatchNode<Item> {
    /// The edits of a field, which is passed through if there are none.
    pub open spec fn field(self, name: Seq<char>) -> PatchField<Item> {
        if self.fields.contains_key(name) {
            self.fields[name]
        } else {
            PatchField { action: PatchAction::Keep, insert_after: Seq::empty() }
        }
    }

    /// The tree with other edits for one field.
    pub open spec fn with_field(self, name: Seq<char>, field: PatchField<Item>) -> PatchNode<Item> {
        PatchNode { fields: self.fields.insert(name, field), ..self }
    }

    /// The tree after one more action for an input field. A field takes one action, and an
    /// optional drop cannot stand beside insertions.
    pub open spec fn act(self, name: Seq<char>, action: PatchAction<Item>) -> Result<
        PatchNode<Item>,
        Seq<char>,
    > {
        let field = self.field(name);
        if field.action !is Keep {
            Err("Field '"@ + name + "' has multiple input field actions"@)
        } else if action == (PatchAction::<Item>::Drop { optional: true }) && field.insert_after.len() > 0 {
            Err("Field '"@ + name + "' cannot combine optional drop with insert-after"@)
        } else {
            Ok(self.with_field(name, PatchField { action, ..field }))
        }
    }

    /// The tree after one more item behind an input field.
    pub open spec fn insert_after(self, name: Seq<char>, item: Item) -> Result<
        PatchNode<Item>,
        Seq<char>,
    > {
        let field = self.field(name);
        if field.action == (PatchAction::<Item>::Drop { optional: true }) {
            Err("Field '"@ + name + "' cannot combine optional drop with insert-after"@)
        } else {
            Ok(
                self.with_field(
                    name,
                    PatchField { insert_after: field.insert_after.push(item), ..field },
                ),
            )
        }
    }

    /// The tree after one more edit of the struct itself.
    pub open spec fn edit(self, edit: PatchEdit<Item>) -> Result<PatchNode<Item>, Seq<char>> {
        match edit {
            PatchEdit::Prepend(item) => Ok(
                PatchNode { prepended: self.prepended.push(item), ..self },
            ),
            PatchEdit::Append(item) => Ok(PatchNode { appended: self.appended.push(item), ..self }),
            PatchEdit::InsertAfter(name, item) => self.insert_after(name, item),
            PatchEdit::Drop(name, optional) => self.act(name, PatchAction::Drop { optional }),
            PatchEdit::Replace(name, item) => self.act(name, PatchAction::Replace(item)),
        }
    }

    /// The edits of the struct in a field, if the field can have some: a dropped or replaced field
    /// has no inside to edit.
    pub open spec fn child(self, name: Seq<char>) -> Option<PatchNode<Item>> {
        match self.field(name).action {
            PatchAction::Keep => Some(empty_node()),
            PatchAction::Nested(node) => Some(*node),
            _ => None,
        }
    }

    /// The tree after one more edit of the struct at a path.
    pub open spec fn edit_at(self, path: Seq<Seq<char>>, edit: PatchEdit<Item>) -> Result<
        PatchNode<Item>,
        Seq<char>,
    >
        decreases path.len(),
    {
        if path.len() == 0 {
            self.edit(edit)
        } else {
            match self.child(path[0]) {
                None => Err(
                    "Cannot patch nested fields under dropped/replaced field '"@ + path[0] + "'"@,
                ),
                Some(child) => match child.edit_at(path.drop_first(), edit) {
                    Err(message) => Err(message),
                    Ok(edited) => Ok(
                        self.with_field(
                            path[0],
                            PatchField {
                                action: PatchAction::Nested(Box::new(edited)),
                                ..self.field(path[0])
                            },
                        ),
                    ),
                },
            }
        }
    }
}

#[derive(Debug)]
struct StructPatchNode<Item> {
    prepended_fields: Vec<Item>,
    appended_fields: Vec<Item>,
    fields: StringMap<FieldPatchNode<Item>>,
}

#[derive(Debug)]
struct FieldPatchNode<Item> {
    action: FieldPatchOp<Item>,
    insert_after: Vec<Item>,
}

#[derive(Debug)]
enum FieldPatchOp<Item> {
    Keep,
    Drop { optional: bool },
    Replace(Item),
    Nested(Box<StructPatchNode<Item>>),
}

/// One requested edit.
enum PatchRequest<Item> {
    Prepend(Item),
    Append(Item),
    InsertAfter(String, Item),
    Drop(String, bool),
    Replace(String, Item),
}

impl<Item> PatchRequest<Item> {
    spec fn view(self) -> PatchEdit<Item> {
        match self {
            PatchRequest::Prepend(item) => PatchEdit::Prepend(item),
            PatchRequest::Append(item) => PatchEdit::Append(item),
            PatchRequest::InsertAfter(name, item) => PatchEdit::InsertAfter(name@, item),
            PatchRequest::Drop(name, optional) => PatchEdit::Drop(name@, optional),
            PatchRequest::Replace(name, item) => PatchEdit::Replace(name@, item),
        }
    }
}

impl<Item> StructPatchNode<Item> {
    spec fn view(self) -> PatchNode<Item>
        decreases self,
    {
        PatchNode {
            prepended: self.prepended_fields@,
            appended: self.appended_fields@,
            fields: Map::new(
                |k: Seq<char>| self.fields@.contains_key(k),
                |k: Seq<char>|
                    if self.fields@.contains_key(k) {
                        self.fields@[k].view()
                    } else {
                        arbitrary()
                    },
            ),
        }
    }
}

impl<Item> FieldPatchNode<Item> {
    spec fn view(self) -> PatchField<Item>
        decreases self,
    {
        PatchField { action: self.action.view(), insert_after: self.insert_after@ }
    }
}

impl<Item> FieldPatchOp<Item> {
    spec fn view(self) -> PatchAction<Item>
        decreases self,
    {
        match self {
            FieldPatchOp::Keep => PatchAction::Keep,
            FieldPatchOp::Drop { optional } => PatchAction::Drop { optional },
            FieldPatchOp::Replace(item) => PatchAction::Replace(item),
            FieldPatchOp::Nested(node) => PatchAction::Nested(Box::new(node.view())),
        }
    }
}

impl<Item> FieldPatchOp<Item> {
    fn is_keep(&self) -> (r: bool)
        ensures
            r == (self@ is Keep),
    {
        matches!(self, FieldPatchOp::Keep)
    }

    fn is_optional_drop(&self) -> (r: bool)
        ensures
            r == (self@ == (PatchAction::<Item>::Drop { optional: true })),
    {
        matches!(self, FieldPatchOp::Drop { optional: true })
    }
}

impl<Item> FieldPatchNode<Item> {
    /// A field that is passed through, with nothing inserted after it.
    fn new() -> (r: FieldPatchNode<Item>)
        ensures
            r@ == (PatchField::<Item> { action: PatchAction::Keep, insert_after: Seq::empty() }),
    {
        FieldPatchNode { action: FieldPatchOp::Keep, insert_after: Vec::new() }
    }
}

/// The outcome of an edit as a node, or as the message of the error.
spec fn outcome<Item>(r: DeltaResult<StructPatchNode<Item>>) -> Result<
    PatchNode<Item>,
    ErrorView,
> {
    match r {
        Ok(node) => Ok(node@),
        Err(e) => Err(e@),
    }
}

/// The outcome of an edit, with its message as a generic error.
pub open spec fn as_generic<T>(r: Result<T, Seq<char>>) -> Result<T, ErrorView> {
    match r {
        Ok(value) => Ok(value),
        Err(message) => Err(ErrorView::Generic(message)),
    }
}

impl<Item> StructPatchNode<Item> {
    /// The node without any edit.
    fn new() -> (r: StructPatchNode<Item>)
        ensures
            r@ == empty_node::<Item>(),
    {
        let r = StructPatchNode {
            prepended_fields: Vec::new(),
            appended_fields: Vec::new(),
            fields: StringMap::new(),
        };
        assert(r@.fields =~= Map::empty());
        r
    }

    /// Takes the edits of a field out of the node. A field that has none yet is passed through.
    fn take_field(&mut self, name: &str) -> (r: FieldPatchNode<Item>)
        ensures
            r@ == old(self)@.field(name@),
            forall|field: PatchField<Item>|
                #![trigger final(self)@.with_field(name@, field)]
                final(self)@.with_field(name@, field) == old(self)@.with_field(name@, field),
    {
        let ghost before = *self;
        let r = match self.fields.remove(name) {
            Some(field) => field,
            None => FieldPatchNode::new(),
        };
        proof {
            let after = *self;
            assert forall|field: PatchField<Item>|
                #![trigger after@.with_field(name@, field)]
                after@.with_field(name@, field) == before@.with_field(name@, field) by {
                assert(after@.fields.insert(name@, field) =~= before@.fields.insert(name@, field));
            }
        }
        r
    }

    /// Puts the edits of a field into the node.
    fn put_field(&mut self, name: String, field: FieldPatchNode<Item>)
        ensures
            final(self)@ == old(self)@.with_field(name@, field@),
    {
        let ghost before = *self;
        self.fields.insert(name, field);
        assert(self@.fields =~= before@.fields.insert(name@, field@));
    }

    /// Records an item to insert immediately after the named input field.
    fn insert_after(self, name: String, item: Item) -> (r: DeltaResult<StructPatchNode<Item>>)
        ensures
            outcome(r) == as_generic(self@.insert_after(name@, item)),
    {
        let mut node = self;
        let mut field = node.take_field(name.as_str());
        if field.action.is_optional_drop() {
            return Err(
                Error::generic(
                    join3(
                        "Field '",
                        name.as_str(),
                        "' cannot combine optional drop with insert-after",
                    ),
                ),
            );
        }
        field.insert_after.push(item);
        node.put_field(name, field);
        Ok(node)
    }

    /// Records what happens to the named input field. Only one such action is allowed per field.
    fn set_action(self, name: String, action: FieldPatchOp<Item>) -> (r: DeltaResult<
        StructPatchNode<Item>,
    >)
        ensures
            outcome(r) == as_generic(self@.act(name@, action@)),
    {
        let mut node = self;
        let mut field = node.take_field(name.as_str());
        if !field.action.is_keep() {
            return Err(
                Error::generic(
                    join3("Field '", name.as_str(), "' has multiple input field actions"),
                ),
            );
        }
        if action.is_optional_drop() && field.insert_after.len() > 0 {
            return Err(
                Error::generic(
                    join3(
                        "Field '",
                        name.as_str(),
                        "' cannot combine optional drop with insert-after",
                    ),
                ),
            );
        }
        field.action = action;
        node.put_field(name, field);
        Ok(node)
    }

    /// Records an edit of this struct.
    fn edit(self, request: PatchRequest<Item>) -> (r: DeltaResult<StructPatchNode<Item>>)
        ensures
            outcome(r) == as_generic(self@.edit(request@)),
    {
        match request {
            PatchRequest::Prepend(item) => {
                let mut node = self;
                node.prepended_fields.push(item);
                assert(node@.fields =~= self@.fields);
                Ok(node)
            },
            PatchRequest::Append(item) => {
                let mut node = self;
                node.appended_fields.push(item);
                assert(node@.fields =~= self@.fields);
                Ok(node)
            },
            PatchRequest::InsertAfter(name, item) => self.insert_after(name, item),
            PatchRequest::Drop(name, optional) => self.set_action(
                name,
                FieldPatchOp::Drop { optional },
            ),
            PatchRequest::Replace(name, item) => self.set_action(name, FieldPatchOp::Replace(item)),
        }
    }

    /// Records an edit of the struct at `path[from..]`. All fields along the path become nested
    /// patches: a field that was passed through can become one, a dropped or replaced one cannot.
    fn edit_at(self, path: &Vec<String>, from: usize, request: PatchRequest<Item>) -> (r:
        DeltaResult<StructPatchNode<Item>>)
        requires
            from <= path@.len(),
        ensures
            outcome(r) == as_generic(self@.edit_at(texts(path@).skip(from as int), request@)),
        decreases path@.len() - from,
    {
        if from == path.len() {
            return self.edit(request);
        }
        let ghost rest = texts(path@).skip(from as int);
        let ghost start = self@;
        assert(rest.drop_first() =~= texts(path@).skip(from + 1));
        assert(rest[0] == path@[from as int]@);
        let mut node = self;
        let mut field = node.take_field(path[from].as_str());
        let child = match field.action {
            FieldPatchOp::Keep => StructPatchNode::new(),
            FieldPatchOp::Nested(child) => *child,
            _ => {
                return Err(
                    Error::generic(
                        join3(
                            "Cannot patch nested fields under dropped/replaced field '",
                            path[from].as_str(),
                            "'",
                        ),
                    ),
                );
            },
        };
        match child.edit_at(path, from + 1, request) {
            Err(e) => Err(e),
            Ok(edited) => {
                field.action = FieldPatchOp::Nested(Box::new(edited));
                node.put_field(path[from].clone(), field);
                Ok(node)
            },
        }
    }
}

// === Builder ===

/// Builds a sparse struct patch from a sequence of requested edits.
///
/// The builder records the edits, rejects those that conflict, and turns nested field paths into
/// nested patches. The same builder makes expression patches and schema patches: only `build`
/// differs.
#[derive(Debug)]
pub struct StructPatchBuilder<Item> {
    /// None for a top-level patch; otherwise the path of the nested struct this patch targets.
    input_path: Option<ColumnName>,
    /// The patch tree assembled so far, or the first error. After an error, later edits are
    /// skipped, so that the error that comes out is the first one.
    root: DeltaResult<StructPatchNode<Item>>,
}

/// What a builder has recorded.
pub struct BuilderView<Item> {
    /// The path of the struct that the patch targets.
    pub input_path: Option<Seq<Seq<char>>>,
    /// The edits, or the first error.
    pub root: Result<PatchNode<Item>, ErrorView>,
}

/// The view of an optional column name.
pub open spec fn path_view(path: Option<ColumnName>) -> Option<Seq<Seq<char>>> {
    match path {
        Some(path) => Some(path@),
        None => None,
    }
}

impl<Item> View for StructPatchBuilder<Item> {
    type V = BuilderView<Item>;

    closed spec fn view(&self) -> BuilderView<Item> {
        BuilderView { input_path: path_view(self.input_path), root: outcome(self.root) }
    }
}

impl<Item> BuilderView<Item> {
    /// The builder after one more edit of the struct at a path. An error stays.
    pub open spec fn edit_at(self, path: Seq<Seq<char>>, edit: PatchEdit<Item>) -> BuilderView<
        Item,
    > {
        match self.root {
            Err(_) => self,
            Ok(node) => BuilderView { root: as_generic(node.edit_at(path, edit)), ..self },
        }
    }
}

impl<Item> StructPatchBuilder<Item> {
    /// Creates a new top-level patch builder.
    pub fn new() -> (r: Self)
        ensures
            r@ == (BuilderView { input_path: None, root: Ok(empty_node::<Item>()) }),
    {
        StructPatchBuilder { input_path: None, root: Ok(StructPatchNode::new()) }
    }

    /// Creates a new builder that operates on fields of a nested struct identified by `path`.
    pub fn new_nested(path: ColumnName) -> (r: Self)
        ensures
            r@ == (BuilderView { input_path: Some(path@), root: Ok(empty_node::<Item>()) }),
    {
        StructPatchBuilder { input_path: Some(path), root: Ok(StructPatchNode::new()) }
    }

    /// Applies an edit to the struct at `struct_path`; an empty path targets the input struct.
    fn apply_at(self, struct_path: ColumnName, request: PatchRequest<Item>) -> (r: Self)
        ensures
            r@ == self@.edit_at(struct_path@, request@),
    {
        match self.root {
            Err(e) => StructPatchBuilder { input_path: self.input_path, root: Err(e) },
            Ok(node) => {
                let path = struct_path.path();
                assert(texts(path@).skip(0) =~= struct_path@);
                StructPatchBuilder {
                    input_path: self.input_path,
                    root: node.edit_at(path, 0, request),
                }
            },
        }
    }

    /// Records a field drop.
    pub fn drop(self, field_name: &str) -> (r: Self)
        ensures
            r@ == self@.edit_at(Seq::empty(), PatchEdit::Drop(field_name@, false)),
    {
        self.drop_at(top_level(), field_name)
    }

    /// Records a field drop in a nested struct.
    pub fn drop_at(self, struct_path: ColumnName, field_name: &str) -> (r: Self)
        ensures
            r@ == self@.edit_at(struct_path@, PatchEdit::Drop(field_name@, false)),
    {
        self.apply_at(struct_path, PatchRequest::Drop(field_name.to_owned(), false))
    }

    /// Records an optional field drop.
    pub fn drop_if_exists(self, field_name: &str) -> (r: Self)
        ensures
            r@ == self@.edit_at(Seq::empty(), PatchEdit::Drop(field_name@, true)),
    {
        self.drop_if_exists_at(top_level(), field_name)
    }

    /// Records an optional field drop in a nested struct.
    pub fn drop_if_exists_at(self, struct_path: ColumnName, field_name: &str) -> (r: Self)
        ensures
            r@ == self@.edit_at(struct_path@, PatchEdit::Drop(field_name@, true)),
    {
        self.apply_at(struct_path, PatchRequest::Drop(field_name.to_owned(), true))
    }

    /// Records a field replacement.
    pub fn replace(self, field_name: &str, item: Item) -> (r: Self)
        ensures
            r@ == self@.edit_at(Seq::empty(), PatchEdit::Replace(field_name@, item)),
    {
        self.replace_at(top_level(), field_name, item)
    }

    /// Records a field replacement in a nested struct.
    pub fn replace_at(self, struct_path: ColumnName, field_name: &str, item: Item) -> (r: Self)
        ensures
            r@ == self@.edit_at(struct_path@, PatchEdit::Replace(field_name@, item)),
    {
        self.apply_at(struct_path, PatchRequest::Replace(field_name.to_owned(), item))
    }

    /// Records an item to emit before the first input field.
    pub fn prepend(self, item: Item) -> (r: Self)
        ensures
            r@ == self@.edit_at(Seq::empty(), PatchEdit::Prepend(item)),
    {
        self.prepend_at(top_level(), item)
    }

    /// Records an item to emit before the first input field of a nested struct.
    pub fn prepend_at(self, struct_path: ColumnName, item: Item) -> (r: Self)
        ensures
            r@ == self@.edit_at(struct_path@, PatchEdit::Prepend(item)),
    {
        self.apply_at(struct_path, PatchRequest::Prepend(item))
    }

    /// Records an item to insert after the named field.
    pub fn insert_after(self, field_name: &str, item: Item) -> (r: Self)
        ensures
            r@ == self@.edit_at(Seq::empty(), PatchEdit::InsertAfter(field_name@, item)),
    {
        self.insert_after_at(top_level(), field_name, item)
    }

    /// Records an item to insert after the named field in a nested struct.
    pub fn insert_after_at(self, struct_path: ColumnName, field_name: &str, item: Item) -> (r: Self)
        ensures
            r@ == self@.edit_at(struct_path@, PatchEdit::InsertAfter(field_name@, item)),
    {
        self.apply_at(struct_path, PatchRequest::InsertAfter(field_name.to_owned(), item))
    }

    /// Records an item to append after all input fields and field-specific insertions.
    pub fn append(self, item: Item) -> (r: Self)
        ensures
            r@ == self@.edit_at(Seq::empty(), PatchEdit::Append(item)),
    {
        self.append_at(top_level(), item)
    }

    /// Records an item to append after all fields of a nested struct.
    pub fn append_at(self, struct_path: ColumnName, item: Item) -> (r: Self)
        ensures
            r@ == self@.edit_at(struct_path@, PatchEdit::Append(item)),
    {
        self.apply_at(struct_path, PatchRequest::Append(item))
    }
}

/// The empty path, which targets the input struct itself.
fn top_level() -> (r: ColumnName)
    ensures
        r@ == Seq::<Seq<char>>::empty(),
{
    let r = ColumnName::new(Vec::new());
    assert(r@ =~= Seq::<Seq<char>>::empty());
    r
}

// === Expression lowering ===

/// The path of a field of the struct at `parent`.
pub open spec fn child_path(parent: Option<Seq<Seq<char>>>, name: Seq<char>) -> Seq<Seq<char>> {
    match parent {
        Some(path) => path.push(name),
        None => seq![name],
    }
}

/// Does the expression patch say of the struct at `path` what the tree says?
pub open spec fn lowers_to(
    node: PatchNode<ExpressionRef>,
    path: Option<Seq<Seq<char>>>,
    patch: ExpressionStructPatch,
) -> bool
    decreases patch,
{
    &&& path_view(patch.input_path) == path
    &&& patch.prepended_fields@ == node.prepended
    &&& patch.appended_fields@ == node.appended
    &&& forall|name: Seq<char>| #[trigger]
        patch.field_patches@.contains_key(name) <==> node.fields.contains_key(name)
    &&& forall|name: Seq<char>| #[trigger]
        patch.field_patches@.contains_key(name) ==> field_lowers_to(
            node.fields[name],
            child_path(path, name),
            patch.field_patches@[name],
        )
}

/// Does the field patch say of the field at `path` what the tree says? A patch of the struct in
/// the field is the first insertion, in place of the input field.
pub open spec fn field_lowers_to(
    field: PatchField<ExpressionRef>,
    path: Seq<Seq<char>>,
    patch: ExpressionFieldPatch,
) -> bool
    decreases patch,
{
    match field.action {
        PatchAction::Keep => patch.keep_input && !patch.optional && patch.insertions@
            == field.insert_after,
        PatchAction::Drop { optional } => !patch.keep_input && patch.optional == optional
            && patch.insertions@ == field.insert_after,
        PatchAction::Replace(item) => !patch.keep_input && !patch.optional && patch.insertions@
            == seq![item] + field.insert_after,
        PatchAction::Nested(child) => {
            &&& !patch.keep_input
            &&& !patch.optional
            &&& patch.insertions@.len() > 0
            &&& patch.insertions@.drop_first() == field.insert_after
            &&& match *patch.insertions@[0] {
                Expression::StructPatch(inner) => lowers_to(*child, Some(path), inner),
                _ => false,
            }
        },
    }
}

/// Is it what building the patch gives: the patch that says what the edits say, or their first error?
pub open spec fn is_built(
    builder: BuilderView<ExpressionRef>,
    r: DeltaResult<ExpressionStructPatch>,
) -> bool {
    match r {
        Ok(patch) => builder.root is Ok && lowers_to(builder.root->Ok_0, builder.input_path, patch),
        Err(e) => builder.root == Err::<PatchNode<ExpressionRef>, ErrorView>(e@),
    }
}

impl StructPatchBuilder<ExpressionRef> {
    /// Builds the final expression patch.
    ///
    /// # Errors
    ///
    /// The first error of an edit: several drop or replace edits of the same field, an optional
    /// drop beside an insertion, or an edit inside a dropped or replaced field.
    pub fn build(self) -> (r: DeltaResult<ExpressionStructPatch>)
        ensures
            is_built(self@, r),
    {
        match self.root {
            Err(e) => Err(e),
            Ok(node) => Ok(node.into_struct_patch(self.input_path)),
        }
    }
}

impl TryFrom<StructPatchBuilder<ExpressionRef>> for ExpressionStructPatch {
    type Error = Error;

    /// Builds the patch of a builder, as [`StructPatchBuilder::build`] does.
    fn try_from(builder: StructPatchBuilder<ExpressionRef>) -> (r: DeltaResult<Self>)
        ensures
            is_built(builder@, r),
    {
        builder.build()
    }
}

/// A patch is known by what it holds, so what `try_from` returns is stated at `try_from` itself.
impl TryFromSpecImpl<StructPatchBuilder<ExpressionRef>> for ExpressionStructPatch {
    open spec fn obeys_try_from_spec() -> bool {
        false
    }

    open spec fn try_from_spec(builder: StructPatchBuilder<ExpressionRef>) -> DeltaResult<Self> {
        choose|r: DeltaResult<ExpressionStructPatch>| #[trigger] is_built(builder@, r)
    }
}

impl StructPatchNode<ExpressionRef> {
    fn into_struct_patch(self, input_path: Option<ColumnName>) -> (r: ExpressionStructPatch)
        ensures
            lowers_to(self@, path_view(input_path), r),
        decreases self,
    {
        let ghost fields = self.fields;
        let ghost path = path_view(input_path);
        let mut field_patches: StringMap<ExpressionFieldPatch> = StringMap::new();
        let mut entries = self.fields.into_entries();
        while entries.len() > 0
            invariant
                fields == self.fields,
                path == path_view(input_path),
                distinct_keys(entries@),
                forall|k: Seq<char>| #[trigger]
                    entries_map(entries@).contains_key(k) ==> fields@.contains_key(k)
                        && entries_map(entries@)[k] == fields@[k],
                forall|k: Seq<char>| #[trigger]
                    field_patches@.contains_key(k) <==> fields@.contains_key(k) && !entries_map(
                        entries@,
                    ).contains_key(k),
                forall|k: Seq<char>| #[trigger]
                    field_patches@.contains_key(k) ==> field_lowers_to(
                        fields@[k].view(),
                        child_path(path, k),
                        field_patches@[k],
                    ),
            decreases entries@.len(),
        {
            let ghost before = entries@;
            let ghost done = field_patches@;
            let (name, state) = entries.pop().unwrap();
            proof {
                assert(entries@ =~= before.drop_last());
                lemma_entries_map_contains(before, before.len() - 1);
                if entries_map(entries@).contains_key(name@) {
                    let i = lemma_entries_map_index(entries@, name@);
                    assert(before[i] == entries@[i]);
                }
                assert(entries_map(before).contains_key(name@));
                assert(decreases_to!(fields => fields@[name@]));
            }
            let patch = state.into_field_patch(&input_path, name.as_str());
            field_patches.insert(name, patch);
            proof {
                assert forall|k: Seq<char>| #[trigger]
                    entries_map(entries@).contains_key(k) implies fields@.contains_key(k)
                    && entries_map(entries@)[k] == fields@[k] by {
                    assert(entries_map(before).contains_key(k));
                }
                assert forall|k: Seq<char>| #[trigger]
                    field_patches@.contains_key(k) implies field_lowers_to(
                    fields@[k].view(),
                    child_path(path, k),
                    field_patches@[k],
                ) by {
                    if k != name@ {
                        assert(done.contains_key(k));
                    }
                }
                assert forall|k: Seq<char>| #[trigger]
                    field_patches@.contains_key(k) <==> fields@.contains_key(k) && !entries_map(
                        entries@,
                    ).contains_key(k) by {
                    assert(done.contains_key(k) <==> fields@.contains_key(k) && !entries_map(
                        before,
                    ).contains_key(k));
                }
            }
        }
        ExpressionStructPatch {
            field_patches,
            prepended_fields: self.prepended_fields,
            appended_fields: self.appended_fields,
            input_path,
        }
    }
}

impl FieldPatchNode<ExpressionRef> {
    fn into_field_patch(self, parent_input_path: &Option<ColumnName>, field_name: &str) -> (r:
        ExpressionFieldPatch)
        ensures
            field_lowers_to(self@, child_path(path_view(*parent_input_path), field_name@), r),
        decreases self,
    {
        let mut keep_input = false;
        let mut optional = false;
        let mut insertions: Vec<ExpressionRef> = Vec::new();
        match self.action {
            FieldPatchOp::Keep => {
                keep_input = true;
            },
            FieldPatchOp::Drop { optional: tolerant } => {
                optional = tolerant;
            },
            FieldPatchOp::Replace(expr) => {
                insertions.push(expr);
            },
            FieldPatchOp::Nested(node) => {
                let mut name: Vec<String> = Vec::new();
                name.push(field_name.to_owned());
                let name = ColumnName::new(name);
                assert(name@ =~= seq![field_name@]);
                let child_input_path = match parent_input_path {
                    Some(parent) => {
                        assert(parent@ + name@ =~= parent@.push(field_name@));
                        parent.join(&name)
                    },
                    None => name,
                };
                let child_patch = (*node).into_struct_patch(Some(child_input_path));
                insertions.push(Arc::new(Expression::StructPatch(child_patch)));
            },
        }
        let ghost head = insertions@;
        let mut insert_after = self.insert_after;
        insertions.append(&mut insert_after);
        proof {
            assert(insertions@ =~= head + self.insert_after@);
            assert(head.len() == 0 ==> insertions@ =~= self.insert_after@);
            assert(head.len() == 1 ==> insertions@.drop_first() =~= self.insert_after@);
        }
        ExpressionFieldPatch { keep_input, insertions, optional }
    }
}

// === Schema lowering ===

/// The output fields at the place of one input field, or None where the patch does not fit it.
pub open spec fn patched_field(node: PatchNode<StructField>, input: FieldView) -> Option<
    Seq<FieldView>,
>
    decreases input, 0int,
{
    let field = node.field(input.name);
    let after = field_views(field.insert_after);
    match field.action {
        PatchAction::Keep => Some(seq![input] + after),
        PatchAction::Drop { .. } => Some(after),
        PatchAction::Replace(item) => Some(seq![item.view()] + after),
        PatchAction::Nested(child) => match input.data_type {
            DataTypeView::Struct(inner) => match patched_schema(*child, inner) {
                Some(fields) => Some(
                    seq![FieldView { data_type: DataTypeView::Struct(fields), ..input }] + after,
                ),
                None => None,
            },
            _ => None,
        },
    }
}

/// The output fields at the places of the input fields, in order.
pub open spec fn patched_fields(node: PatchNode<StructField>, input: Seq<FieldView>) -> Option<
    Seq<FieldView>,
>
    decreases input, 0int,
{
    if input.len() == 0 {
        Some(Seq::empty())
    } else {
        match (
            patched_fields(node, input.drop_last()),
            patched_field(node, input[input.len() - 1]),
        ) {
            (Some(before), Some(here)) => Some(before + here),
            _ => None,
        }
    }
}

/// A field that the patch needs and the input lacks. Only an optional drop tolerates that.
pub open spec fn misses(
    node: PatchNode<StructField>,
    input: Seq<FieldView>,
    name: Seq<char>,
) -> bool {
    &&& node.fields.contains_key(name)
    &&& node.fields[name].action != (PatchAction::<StructField>::Drop { optional: true })
    &&& !has_name(input, name)
}

/// All output fields, given those at the places of the input fields.
pub open spec fn all_output(node: PatchNode<StructField>, middle: Seq<FieldView>) -> Seq<
    FieldView,
> {
    field_views(node.prepended) + middle + field_views(node.appended)
}

/// The output schema, or None where there is none: the patch does not fit an input field, the
/// input lacks a field that the patch needs, or two output fields have the same name.
pub open spec fn patched_schema(node: PatchNode<StructField>, input: Seq<FieldView>) -> Option<
    Seq<FieldView>,
>
    decreases input, 1int,
{
    match patched_fields(node, input) {
        Some(middle) => if (forall|name: Seq<char>| !#[trigger] misses(node, input, name))
            && distinct_names(all_output(node, middle)) {
            Some(all_output(node, middle))
        } else {
            None
        },
        None => None,
    }
}

/// Why the patch does not fit an input field: the field is no struct, or the patch of the struct
/// in it fails.
pub open spec fn field_error(
    node: PatchNode<StructField>,
    input: FieldView,
    error: ErrorView,
) -> bool
    decreases input, 0int,
{
    match (node.field(input.name).action, input.data_type) {
        (PatchAction::Nested(child), DataTypeView::Struct(inner)) => schema_error(
            *child,
            inner,
            error,
        ),
        (PatchAction::Nested(child), _) => error == ErrorView::Generic(
            "Cannot patch nested fields under non-struct field '"@ + input.name + "'"@,
        ),
        _ => false,
    }
}

/// The patch fits the first `i` input fields and not the one after them.
pub open spec fn fails_first_at(
    node: PatchNode<StructField>,
    input: Seq<FieldView>,
    i: int,
) -> bool {
    &&& 0 <= i < input.len()
    &&& patched_fields(node, input.take(i)) is Some
    &&& patched_field(node, input[i]) is None
}

/// The errors with which the build can fail. The first input field that the patch does not fit
/// comes first, then a field that the input lacks, then a repeated output name.
pub open spec fn schema_error(
    node: PatchNode<StructField>,
    input: Seq<FieldView>,
    error: ErrorView,
) -> bool
    decreases input, 1int,
{
    match patched_fields(node, input) {
        None => exists|i: int| #[trigger]
            fails_first_at(node, input, i) && 0 <= i < input.len() && field_error(
                node,
                input[i],
                error,
            ),
        Some(middle) => if exists|name: Seq<char>| #[trigger] misses(node, input, name) {
            exists|name: Seq<char>| #[trigger]
                misses(node, input, name) && error == ErrorView::Generic(
                    "Field to patch does not exist: "@ + name,
                )
        } else {
            exists|i: int| #[trigger]
                first_repeated(all_output(node, middle), i) && error == ErrorView::Schema(
                    "Duplicate field name: "@ + all_output(node, middle)[i].name,
                )
        },
    }
}

/// The field of the given name.
pub open spec fn find_field(fields: Seq<FieldView>, name: Seq<char>) -> Option<FieldView> {
    if has_name(fields, name) {
        Some(fields[choose|i: int| 0 <= i < fields.len() && (#[trigger] fields[i]).name == name])
    } else {
        None
    }
}

/// The field at the end of a path through nested structs.
pub open spec fn find_column(fields: Seq<FieldView>, path: Seq<Seq<char>>) -> Option<FieldView>
    decreases path.len(),
{
    if path.len() == 0 {
        None
    } else {
        match find_field(fields, path[0]) {
            None => None,
            Some(field) => if path.len() == 1 {
                Some(field)
            } else {
                match field.data_type {
                    DataTypeView::Struct(inner) => find_column(inner, path.drop_first()),
                    _ => None,
                }
            },
        }
    }
}

/// The struct that a patch targets: the one at the path, or the input itself.
pub open spec fn target_struct(input: Seq<FieldView>, path: Option<Seq<Seq<char>>>) -> Result<
    Seq<FieldView>,
    ErrorView,
> {
    match path {
        None => Ok(input),
        Some(path) => if path.len() == 0 {
            Ok(input)
        } else {
            match find_column(input, path) {
                None => Err(
                    ErrorView::Generic("Column '"@ + path_text(path) + "' not found in schema"@),
                ),
                Some(leaf) => match leaf.data_type {
                    DataTypeView::Struct(inner) => Ok(inner),
                    _ => Err(
                        ErrorView::Generic(
                            "Patching failed: input path '"@ + path_text(path)
                                + "' references a non-struct field"@,
                        ),
                    ),
                },
            }
        },
    }
}

impl StructPatchBuilder<StructField> {
    /// Builds the output struct schema for this patch over `input_schema`.
    ///
    /// If this builder targets a nested path, the returned schema is the patched schema for the
    /// nested struct at that path, not the full input schema.
    ///
    /// # Errors
    ///
    /// The first error of an edit, an input path that does not lead to a struct, a field that is
    /// missing, a nested patch of a field that is no struct, or a repeated output field.
    pub fn build(self, input_schema: &StructType) -> (r: DeltaResult<StructType>)
        ensures
            match (self@.root, target_struct(input_schema@, self@.input_path)) {
                (Err(error), _) => r is Err && r->Err_0@ == error,
                (Ok(node), Err(error)) => r is Err && r->Err_0@ == error,
                (Ok(node), Ok(target)) => match r {
                    Ok(schema) => patched_schema(node, target) == Some(schema@),
                    Err(e) => patched_schema(node, target) is None && schema_error(
                        node,
                        target,
                        e@,
                    ),
                },
            },
    {
        match self.root {
            Err(e) => Err(e),
            Ok(node) => match resolve_input_schema(input_schema, &self.input_path) {
                Err(e) => Err(e),
                Ok(source) => node.build_schema(source),
            },
        }
    }
}

proof fn lemma_field_views_push(fields: Seq<StructField>, field: StructField)
    ensures
        field_views(fields.push(field)) == field_views(fields).push(field.view()),
{
    assert(field_views(fields.push(field)) =~= field_views(fields).push(field.view()));
}

proof fn lemma_field_views_add(a: Seq<StructField>, b: Seq<StructField>)
    ensures
        field_views(a + b) == field_views(a) + field_views(b),
{
    assert(field_views(a + b) =~= field_views(a) + field_views(b));
}

/// A patch that fails at a field fails over all fields.
proof fn lemma_patched_fields_none(node: PatchNode<StructField>, input: Seq<FieldView>, i: int)
    requires
        0 <= i < input.len(),
        patched_field(node, input[i]) is None,
    ensures
        patched_fields(node, input) is None,
    decreases input.len(),
{
    if i < input.len() - 1 {
        assert(input.drop_last()[i] == input[i]);
        lemma_patched_fields_none(node, input.drop_last(), i);
    }
}

impl StructPatchNode<StructField> {
    fn build_schema(self, input_schema: &StructType) -> (r: DeltaResult<StructType>)
        ensures
            match r {
                Ok(schema) => patched_schema(self@, input_schema@) == Some(schema@),
                Err(e) => patched_schema(self@, input_schema@) is None && schema_error(
                    self@,
                    input_schema@,
                    e@,
                ),
            },
        decreases self,
    {
        let ghost node = self@;
        let ghost all = self.fields;
        let ghost input = input_schema@;
        let ghost prepended = self.prepended_fields@;
        let mut fields = self.fields;
        let mut output_fields = self.prepended_fields;
        let input_fields = input_schema.fields();
        let mut i: usize = 0;
        assert(input.take(0) =~= Seq::empty());
        assert(field_views(prepended) + Seq::<FieldView>::empty() =~= field_views(prepended));
        while i < input_fields.len()
            invariant
                i <= input_fields@.len(),
                field_views(input_fields@) == input,
                input == input_schema@,
                distinct_names(input),
                node == self@,
                node.prepended == prepended,
                all == self.fields,
                patched_fields(node, input.take(i as int)) is Some,
                field_views(output_fields@) == field_views(prepended) + patched_fields(
                    node,
                    input.take(i as int),
                )->0,
                forall|k: Seq<char>| #[trigger]
                    fields@.contains_key(k) <==> all@.contains_key(k) && !has_name(
                        input.take(i as int),
                        k,
                    ),
                forall|k: Seq<char>| #[trigger] fields@.contains_key(k) ==> fields@[k] == all@[k],
            decreases input_fields@.len() - i,
        {
            let input_field = &input_fields[i];
            let ghost here = input[i as int];
            let ghost before = output_fields@;
            let ghost start = patched_fields(node, input.take(i as int))->0;
            let ghost left = fields@;
            proof {
                assert(here == input_field.view());
                assert(input.take(i + 1).drop_last() =~= input.take(i as int));
                assert(input.take(i + 1)[i as int] == here);
                if has_name(input.take(i as int), here.name) {
                    let j = choose|j: int|
                        0 <= j < input.take(i as int).len() && (#[trigger] input.take(
                            i as int,
                        )[j]).name == here.name;
                    assert(input[j].name != input[i as int].name);
                }
            }
            let found = fields.remove(input_field.name());
            proof {
                assert(node.fields.contains_key(here.name) <==> all@.contains_key(here.name));
                assert forall|k: Seq<char>| #[trigger]
                    fields@.contains_key(k) <==> all@.contains_key(k) && !has_name(
                        input.take(i + 1),
                        k,
                    ) by {
                    assert(left.contains_key(k) <==> all@.contains_key(k) && !has_name(
                        input.take(i as int),
                        k,
                    ));
                    if has_name(input.take(i as int), k) {
                        let j = choose|j: int|
                            0 <= j < input.take(i as int).len() && (#[trigger] input.take(
                                i as int,
                            )[j]).name == k;
                        assert(input.take(i + 1)[j].name == k);
                    }
                    if has_name(input.take(i + 1), k) {
                        let j = choose|j: int|
                            0 <= j < input.take(i + 1).len() && (#[trigger] input.take(
                                i + 1,
                            )[j]).name == k;
                        if j < i {
                            assert(input.take(i as int)[j].name == k);
                        }
                    }
                    assert(input.take(i + 1)[i as int].name == here.name);
                }
            }
            match found {
                None => {
                    output_fields.push(input_field.clone());
                    proof {
                        lemma_field_views_push(before, output_fields@.last());
                        assert(node.field(here.name).insert_after.len() == 0);
                        assert(field_views(output_fields@) =~= field_views(prepended) + (start + (
                        seq![here] + field_views(node.field(here.name).insert_after))));
                    }
                },
                Some(field_patch) => {
                    let ghost field = field_patch.view();
                    assert(node.field(here.name) == field);
                    let ghost after = field_views(field.insert_after);
                    let ghost mut middle = Seq::<FieldView>::empty();
                    match field_patch.action {
                        FieldPatchOp::Keep => {
                            output_fields.push(input_field.clone());
                            proof {
                                lemma_field_views_push(before, output_fields@.last());
                                middle = seq![here];
                            }
                        },
                        FieldPatchOp::Drop { .. } => {},
                        FieldPatchOp::Replace(item) => {
                            output_fields.push(item);
                            proof {
                                lemma_field_views_push(before, item);
                                middle = seq![item.view()];
                            }
                        },
                        FieldPatchOp::Nested(child) => {
                            let nested_schema = match input_field.data_type() {
                                DataType::Struct(nested_schema) => nested_schema,
                                _ => {
                                    proof {
                                        assert(patched_field(node, here) is None);
                                        lemma_patched_fields_none(node, input, i as int);
                                        assert(fails_first_at(node, input, i as int));
                                    }
                                    return Err(
                                        Error::generic(
                                            join3(
                                                "Cannot patch nested fields under non-struct field '",
                                                input_field.name(),
                                                "'",
                                            ),
                                        ),
                                    );
                                },
                            };
                            assert(decreases_to!(all => all@[here.name]));
                            let nested = match (*child).build_schema(nested_schema) {
                                Ok(nested) => nested,
                                Err(e) => {
                                    proof {
                                        assert(patched_field(node, here) is None);
                                        lemma_patched_fields_none(node, input, i as int);
                                        assert(fails_first_at(node, input, i as int));
                                    }
                                    return Err(e);
                                },
                            };
                            let patched = StructField::new(
                                input_field.name(),
                                DataType::Struct(Box::new(nested)),
                                input_field.nullable,
                            );
                            let copy = input_field.clone();
                            let patched = patched.with_metadata(copy.metadata);
                            output_fields.push(patched);
                            proof {
                                lemma_field_views_push(before, patched);
                                middle = seq![patched.view()];
                            }
                        },
                    }
                    let ghost reached = output_fields@;
                    let mut insert_after = field_patch.insert_after;
                    output_fields.append(&mut insert_after);
                    proof {
                        assert(output_fields@ =~= reached + field.insert_after);
                        lemma_field_views_add(reached, field.insert_after);
                        assert(field_views(reached) =~= field_views(prepended) + (start + middle));
                        assert(middle + after =~= patched_field(node, here)->0);
                        assert(field_views(output_fields@) =~= field_views(prepended) + (start + (
                        middle + after)));
                    }
                },
            }
            i += 1;
        }
        assert(input.take(i as int) =~= input);
        let ghost middle = patched_fields(node, input)->0;

        // A field patch that did not match an input field is an error, unless it is an optional
        // drop.
        let left = fields.entries();
        let mut j: usize = 0;
        while j < left.len()
            invariant
                j <= left@.len(),
                distinct_keys(left@),
                input == input_schema@,
                node == self@,
                all == self.fields,
                entries_map(left@) == fields@,
                patched_fields(node, input) is Some,
                forall|k: Seq<char>| #[trigger]
                    fields@.contains_key(k) <==> all@.contains_key(k) && !has_name(input, k),
                forall|k: Seq<char>| #[trigger] fields@.contains_key(k) ==> fields@[k] == all@[k],
                forall|m: int|
                    0 <= m < j ==> (#[trigger] left@[m]).1.action.view() == (PatchAction::<
                        StructField,
                    >::Drop { optional: true }),
            decreases left@.len() - j,
        {
            proof {
                lemma_entries_map_contains(left@, j as int);
            }
            if !left[j].1.action.is_optional_drop() {
                proof {
                    let name = left@[j as int].0@;
                    assert(fields@.contains_key(name));
                    assert(misses(node, input, name));
                }
                return Err(
                    Error::generic(join2("Field to patch does not exist: ", left[j].0.as_str())),
                );
            }
            j += 1;
        }
        proof {
            assert forall|name: Seq<char>| !#[trigger] misses(node, input, name) by {
                if misses(node, input, name) {
                    assert(fields@.contains_key(name));
                    let m = lemma_entries_map_index(left@, name);
                }
            }
        }
        let ghost reached = output_fields@;
        let mut appended_fields = self.appended_fields;
        output_fields.append(&mut appended_fields);
        proof {
            assert(output_fields@ =~= reached + node.appended);
            lemma_field_views_add(reached, node.appended);
            assert(field_views(output_fields@) =~= all_output(node, middle));
        }
        StructType::try_new(output_fields)
    }
}

/// A field found by its name is the only one of that name.
proof fn lemma_find_field(fields: Seq<FieldView>, field: FieldView)
    requires
        distinct_names(fields),
        fields.contains(field),
    ensures
        find_field(fields, field.name) == Some(field),
{
    let i = choose|i: int| 0 <= i < fields.len() && fields[i] == field;
    assert(fields[i].name == field.name);
    let j = choose|j: int| 0 <= j < fields.len() && (#[trigger] fields[j]).name == field.name;
    assert(i == j);
}

/// Resolves the struct schema targeted by a top-level or nested struct patch.
fn resolve_input_schema<'a>(
    input_schema: &'a StructType,
    input_path: &Option<ColumnName>,
) -> (r: DeltaResult<&'a StructType>)
    ensures
        match r {
            Ok(schema) => target_struct(input_schema@, path_view(*input_path)) == Ok::<
                Seq<FieldView>,
                ErrorView,
            >(schema@),
            Err(e) => target_struct(input_schema@, path_view(*input_path)) == Err::<
                Seq<FieldView>,
                ErrorView,
            >(e@),
        },
{
    let target = match input_path {
        Some(target) => target,
        None => return Ok(input_schema),
    };
    let path = target.path();
    if path.len() == 0 {
        return Ok(input_schema);
    }
    let mut current = input_schema;
    let mut i: usize = 0;
    assert(texts(path@).skip(0) =~= texts(path@));
    loop
        invariant
            i < path.len(),
            *input_path == Some(*target),
            texts(path@) == target@,
            find_column(input_schema@, target@) == find_column(
                current@,
                texts(path@).skip(i as int),
            ),
        decreases path@.len() - i,
    {
        proof {
            assert(texts(path@).skip(i as int)[0] == path@[i as int]@);
            assert(texts(path@).skip(i as int).drop_first() =~= texts(path@).skip(i + 1));
        }
        let field = match current.field(path[i].as_str()) {
            Some(field) => field,
            None => {
                return Err(
                    Error::generic(
                        join3("Column '", target.to_text().as_str(), "' not found in schema"),
                    ),
                );
            },
        };
        proof {
            lemma_find_field(current@, field.view());
        }
        if i + 1 == path.len() {
            return match field.data_type() {
                DataType::Struct(nested_schema) => Ok(nested_schema),
                _ => Err(
                    Error::generic(
                        join3(
                            "Patching failed: input path '",
                            target.to_text().as_str(),
                            "' references a non-struct field",
                        ),
                    ),
                ),
            };
        }
        match field.data_type() {
            DataType::Struct(nested_schema) => {
                current = nested_schema;
            },
            _ => {
                return Err(
                    Error::generic(
                        join3("Column '", target.to_text().as_str(), "' not found in schema"),
                    ),
                );
            },
        }
        i += 1;
    }
}

} // verus!
