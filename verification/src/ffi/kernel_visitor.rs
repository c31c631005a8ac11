//! Converts the expressions of an engine into expressions and predicates. The engine visits its expressions
//! from the leaves to the root; each visit puts the new expression into the state and returns its
//! identifier, 0 where there is none, and takes the children out of it.

use vstd::prelude::*;

use crate::error::{DeltaResult, Error, ErrorView};
use crate::expressions::{
    expression_as_predicate, predicate_as_expression, BinaryExpressionOp, BinaryPredicateOp,
    ColumnName, Expression, JunctionPredicateOp, Predicate, Scalar, UnaryPredicateOp,
};
use crate::ffi::null_type_tag::NullTypeTag;
use crate::ffi::reference_set::{ReferenceSet, ReferenceSetView};
use crate::schema::{valid_decimal, DataType, DataTypeView, PrimitiveType};
use crate::text::{decimal, decimal_text, join3, split_on};

verus! {

/// What a visit produces.
#[derive(Debug)]
pub enum ExpressionOrPredicate {
    Expression(Expression),
    Predicate(Predicate),
}

/// The expressions and predicates that were produced and are not yet part of another one.
pub struct KernelExpressionVisitorState {
    inflight_ids: ReferenceSet<ExpressionOrPredicate>,
}

/// What a [`KernelExpressionVisitorState`] holds.
pub type StateView = ReferenceSetView<ExpressionOrPredicate>;

impl View for KernelExpressionVisitorState {
    type V = StateView;

    closed spec fn view(&self) -> StateView {
        self.inflight_ids@
    }
}

/// Whatever was produced, as an expression.
pub open spec fn as_expression(item: Option<ExpressionOrPredicate>) -> Option<Expression> {
    match item {
        Some(ExpressionOrPredicate::Expression(expr)) => Some(expr),
        Some(ExpressionOrPredicate::Predicate(pred)) => Some(predicate_as_expression(pred)),
        None => None,
    }
}

/// Whatever was produced, as a predicate.
pub open spec fn as_predicate(item: Option<ExpressionOrPredicate>) -> Option<Predicate> {
    match item {
        Some(ExpressionOrPredicate::Expression(expr)) => Some(expression_as_predicate(expr)),
        Some(ExpressionOrPredicate::Predicate(pred)) => Some(pred),
        None => None,
    }
}

/// The state after a visit, and the identifier that it returns.
pub type Visited = (StateView, usize);

/// An expression is put into the state, or there is none.
pub open spec fn put_expression(state: StateView, expr: Option<Expression>) -> Visited {
    match expr {
        Some(expr) => (state.put(ExpressionOrPredicate::Expression(expr)), state.next_id),
        None => (state, 0),
    }
}

/// A predicate is put into the state, or there is none.
pub open spec fn put_predicate(state: StateView, pred: Option<Predicate>) -> Visited {
    match pred {
        Some(pred) => (state.put(ExpressionOrPredicate::Predicate(pred)), state.next_id),
        None => (state, 0),
    }
}

/// The children are taken out of the state, one after the other.
pub open spec fn without_both(state: StateView, a: usize, b: usize) -> StateView {
    state.without(a).without(b)
}

/// The two children as expressions, if both are there. A child cannot be used twice.
pub open spec fn both_expressions(state: StateView, a: usize, b: usize) -> Option<
    (Expression, Expression),
> {
    match (as_expression(state.get(a)), as_expression(state.without(a).get(b))) {
        (Some(left), Some(right)) => Some((left, right)),
        _ => None,
    }
}

/// A visit of a binary expression.
pub open spec fn binary_expression(
    state: StateView,
    op: BinaryExpressionOp,
    a: usize,
    b: usize,
) -> Visited {
    put_expression(
        without_both(state, a, b),
        match both_expressions(state, a, b) {
            Some((left, right)) => Some(
                Expression::Binary { op, left: Box::new(left), right: Box::new(right) },
            ),
            None => None,
        },
    )
}

/// A visit of a binary predicate.
pub open spec fn binary_predicate(
    state: StateView,
    op: BinaryPredicateOp,
    a: usize,
    b: usize,
) -> Visited {
    put_predicate(
        without_both(state, a, b),
        match both_expressions(state, a, b) {
            Some((left, right)) => Some(
                Predicate::Binary { op, left: Box::new(left), right: Box::new(right) },
            ),
            None => None,
        },
    )
}

/// A visit of a negation.
pub open spec fn negation(state: StateView, id: usize) -> Visited {
    put_predicate(
        state.without(id),
        match as_predicate(state.get(id)) {
            Some(pred) => Some(Predicate::Not(Box::new(pred))),
            None => None,
        },
    )
}

/// A visit of the negation of a binary predicate.
pub open spec fn negated_binary(
    state: StateView,
    op: BinaryPredicateOp,
    a: usize,
    b: usize,
) -> Visited {
    let (next, id) = binary_predicate(state, op, a, b);
    negation(next, id)
}

/// The state after all children were taken out of it.
pub open spec fn without_all(state: StateView, ids: Seq<usize>) -> StateView
    decreases ids.len(),
{
    if ids.len() == 0 {
        state
    } else {
        without_all(state, ids.drop_last()).without(ids.last())
    }
}

/// The children that are there, as predicates, in order.
pub open spec fn all_predicates(state: StateView, ids: Seq<usize>) -> Seq<Predicate>
    decreases ids.len(),
{
    if ids.len() == 0 {
        Seq::empty()
    } else {
        let before = all_predicates(state, ids.drop_last());
        match as_predicate(without_all(state, ids.drop_last()).get(ids.last())) {
            Some(pred) => before.push(pred),
            None => before,
        }
    }
}

/// The children that are there, as expressions, in order.
pub open spec fn all_expressions(state: StateView, ids: Seq<usize>) -> Seq<Expression>
    decreases ids.len(),
{
    if ids.len() == 0 {
        Seq::empty()
    } else {
        let before = all_expressions(state, ids.drop_last());
        match as_expression(without_all(state, ids.drop_last()).get(ids.last())) {
            Some(expr) => before.push(expr),
            None => before,
        }
    }
}

impl KernelExpressionVisitorState {
    /// A state without expressions.
    pub fn new() -> (r: Self)
        ensures
            r@ == (StateView { map: Map::empty(), next_id: 1 }),
    {
        KernelExpressionVisitorState { inflight_ids: ReferenceSet::new() }
    }

    /// Is there an identifier left for so many more expressions?
    pub fn has_room(&self, values: usize) -> (r: bool)
        ensures
            r == self@.has_room(values as int),
    {
        self.inflight_ids.has_room(values)
    }
}

impl Default for KernelExpressionVisitorState {
    fn default() -> (r: Self)
        ensures
            r@ == (StateView { map: Map::empty(), next_id: 1 }),
    {
        KernelExpressionVisitorState::new()
    }
}

fn wrap_expression(state: &mut KernelExpressionVisitorState, expr: Expression) -> (r: usize)
    requires
        old(state)@.has_room(1),
    ensures
        (final(state)@, r) == put_expression(old(state)@, Some(expr)),
{
    state.inflight_ids.insert(ExpressionOrPredicate::Expression(expr))
}

fn wrap_predicate(state: &mut KernelExpressionVisitorState, pred: Predicate) -> (r: usize)
    requires
        old(state)@.has_room(1),
    ensures
        (final(state)@, r) == put_predicate(old(state)@, Some(pred)),
{
    state.inflight_ids.insert(ExpressionOrPredicate::Predicate(pred))
}

/// Takes an expression out of the state.
pub fn unwrap_kernel_expression(state: &mut KernelExpressionVisitorState, exprid: usize) -> (r:
    Option<Expression>)
    ensures
        final(state)@ == old(state)@.without(exprid),
        r == as_expression(old(state)@.get(exprid)),
        old(state)@.valid(),
{
    match state.inflight_ids.take(exprid) {
        Some(ExpressionOrPredicate::Expression(expr)) => Some(expr),
        Some(ExpressionOrPredicate::Predicate(pred)) => Some(Expression::from_pred(pred)),
        None => None,
    }
}

/// Takes a predicate out of the state.
pub fn unwrap_kernel_predicate(state: &mut KernelExpressionVisitorState, predid: usize) -> (r:
    Option<Predicate>)
    ensures
        final(state)@ == old(state)@.without(predid),
        r == as_predicate(old(state)@.get(predid)),
        old(state)@.valid(),
{
    match state.inflight_ids.take(predid) {
        Some(ExpressionOrPredicate::Expression(expr)) => Some(Predicate::from_expr(expr)),
        Some(ExpressionOrPredicate::Predicate(pred)) => Some(pred),
        None => None,
    }
}

fn visit_expression_binary(
    state: &mut KernelExpressionVisitorState,
    op: BinaryExpressionOp,
    a: usize,
    b: usize,
) -> (r: usize)
    requires
        old(state)@.has_room(1),
    ensures
        (final(state)@, r) == binary_expression(old(state)@, op, a, b),
{
    let left = unwrap_kernel_expression(state, a);
    let right = unwrap_kernel_expression(state, b);
    match (left, right) {
        (Some(left), Some(right)) => wrap_expression(state, Expression::binary(op, left, right)),
        _ => 0,
    }
}

fn visit_predicate_binary(
    state: &mut KernelExpressionVisitorState,
    op: BinaryPredicateOp,
    a: usize,
    b: usize,
) -> (r: usize)
    requires
        old(state)@.has_room(1),
    ensures
        (final(state)@, r) == binary_predicate(old(state)@, op, a, b),
{
    let left = unwrap_kernel_expression(state, a);
    let right = unwrap_kernel_expression(state, b);
    match (left, right) {
        (Some(left), Some(right)) => wrap_predicate(state, Predicate::binary(op, left, right)),
        _ => 0,
    }
}

fn visit_predicate_unary(
    state: &mut KernelExpressionVisitorState,
    op: UnaryPredicateOp,
    inner_expr: usize,
) -> (r: usize)
    requires
        old(state)@.has_room(1),
    ensures
        (final(state)@, r) == put_predicate(
            old(state)@.without(inner_expr),
            match as_expression(old(state)@.get(inner_expr)) {
                Some(expr) => Some(Predicate::Unary { op, expr: Box::new(expr) }),
                None => None,
            },
        ),
{
    match unwrap_kernel_expression(state, inner_expr) {
        Some(expr) => wrap_predicate(state, Predicate::unary(op, expr)),
        None => 0,
    }
}

fn unwrap_predicates(state: &mut KernelExpressionVisitorState, children: &Vec<usize>) -> (r: Vec<
    Predicate,
>)
    ensures
        final(state)@ == without_all(old(state)@, children@),
        r@ == all_predicates(old(state)@, children@),
{
    let ghost start = state@;
    let mut out: Vec<Predicate> = Vec::new();
    let mut i: usize = 0;
    while i < children.len()
        invariant
            i <= children@.len(),
            state@ == without_all(start, children@.take(i as int)),
            out@ == all_predicates(start, children@.take(i as int)),
        decreases children@.len() - i,
    {
        if let Some(pred) = unwrap_kernel_predicate(state, children[i]) {
            out.push(pred);
        }
        i += 1;
        assert(children@.take(i as int).drop_last() =~= children@.take(i - 1));
    }
    assert(children@.take(i as int) =~= children@);
    out
}

fn unwrap_expressions(state: &mut KernelExpressionVisitorState, children: &Vec<usize>) -> (r: Vec<
    Expression,
>)
    ensures
        final(state)@ == without_all(old(state)@, children@),
        r@ == all_expressions(old(state)@, children@),
{
    let ghost start = state@;
    let mut out: Vec<Expression> = Vec::new();
    let mut i: usize = 0;
    while i < children.len()
        invariant
            i <= children@.len(),
            state@ == without_all(start, children@.take(i as int)),
            out@ == all_expressions(start, children@.take(i as int)),
        decreases children@.len() - i,
    {
        if let Some(expr) = unwrap_kernel_expression(state, children[i]) {
            out.push(expr);
        }
        i += 1;
        assert(children@.take(i as int).drop_last() =~= children@.take(i - 1));
    }
    assert(children@.take(i as int) =~= children@);
    out
}

/// The identifiers given out do not depend on what is taken out.
proof fn lemma_without_all_keeps_next_id(state: StateView, ids: Seq<usize>)
    ensures
        without_all(state, ids).next_id == state.next_id,
    decreases ids.len(),
{
    if ids.len() > 0 {
        lemma_without_all_keeps_next_id(state, ids.drop_last());
    }
}

/// Is it the junction of the predicates?
pub open spec fn is_junction(
    pred: Predicate,
    op: JunctionPredicateOp,
    preds: Seq<Predicate>,
) -> bool {
    match pred {
        Predicate::Junction { op: o, preds: p } => o == op && p@ == preds,
        _ => false,
    }
}

/// A visit that puts the junction of the children into the state. Children that are not there are left out.
pub open spec fn junction_visited(
    state: StateView,
    op: JunctionPredicateOp,
    children: Seq<usize>,
    visited: Visited,
) -> bool {
    exists|pred: Predicate| #[trigger]
        is_junction(pred, op, all_predicates(state, children)) && visited == put_predicate(
            without_all(state, children),
            Some(pred),
        )
}

fn visit_predicate_junction(
    state: &mut KernelExpressionVisitorState,
    op: JunctionPredicateOp,
    children: &Vec<usize>,
) -> (r: usize)
    requires
        old(state)@.has_room(1),
    ensures
        junction_visited(old(state)@, op, children@, (final(state)@, r)),
{
    proof {
        lemma_without_all_keeps_next_id(state@, children@);
    }
    let preds = unwrap_predicates(state, children);
    let pred = Predicate::junction(op, preds);
    assert(is_junction(pred, op, all_predicates(old(state)@, children@)));
    wrap_predicate(state, pred)
}

/// Visits a conjunction.
pub fn visit_predicate_and(state: &mut KernelExpressionVisitorState, children: &Vec<usize>) -> (r:
    usize)
    requires
        old(state)@.has_room(1),
    ensures
        junction_visited(
            old(state)@,
            JunctionPredicateOp::And,
            children@,
            (final(state)@, r),
        ),
{
    visit_predicate_junction(state, JunctionPredicateOp::And, children)
}

/// Visits a disjunction.
pub fn visit_predicate_or(state: &mut KernelExpressionVisitorState, children: &Vec<usize>) -> (r:
    usize)
    requires
        old(state)@.has_room(1),
    ensures
        junction_visited(old(state)@, JunctionPredicateOp::Or, children@, (final(state)@, r)),
{
    visit_predicate_junction(state, JunctionPredicateOp::Or, children)
}

/// Visits a sum.
pub fn visit_expression_plus(
    state: &mut KernelExpressionVisitorState,
    a: usize,
    b: usize,
) -> (r: usize)
    requires
        old(state)@.has_room(1),
    ensures
        (final(state)@, r) == binary_expression(old(state)@, BinaryExpressionOp::Plus, a, b),
{
    visit_expression_binary(state, BinaryExpressionOp::Plus, a, b)
}

/// Visits a difference.
pub fn visit_expression_minus(
    state: &mut KernelExpressionVisitorState,
    a: usize,
    b: usize,
) -> (r: usize)
    requires
        old(state)@.has_room(1),
    ensures
        (final(state)@, r) == binary_expression(old(state)@, BinaryExpressionOp::Minus, a, b),
{
    visit_expression_binary(state, BinaryExpressionOp::Minus, a, b)
}

/// Visits a product.
pub fn visit_expression_multiply(
    state: &mut KernelExpressionVisitorState,
    a: usize,
    b: usize,
) -> (r: usize)
    requires
        old(state)@.has_room(1),
    ensures
        (final(state)@, r) == binary_expression(old(state)@, BinaryExpressionOp::Multiply, a, b),
{
    visit_expression_binary(state, BinaryExpressionOp::Multiply, a, b)
}

/// Visits a quotient.
pub fn visit_expression_divide(
    state: &mut KernelExpressionVisitorState,
    a: usize,
    b: usize,
) -> (r: usize)
    requires
        old(state)@.has_room(1),
    ensures
        (final(state)@, r) == binary_expression(old(state)@, BinaryExpressionOp::Divide, a, b),
{
    visit_expression_binary(state, BinaryExpressionOp::Divide, a, b)
}

/// Visits `a < b`.
pub fn visit_predicate_lt(state: &mut KernelExpressionVisitorState, a: usize, b: usize) -> (r: usize)
    requires
        old(state)@.has_room(1),
    ensures
        (final(state)@, r) == binary_predicate(old(state)@, BinaryPredicateOp::LessThan, a, b),
{
    visit_predicate_binary(state, BinaryPredicateOp::LessThan, a, b)
}

/// Visits `a > b`.
pub fn visit_predicate_gt(state: &mut KernelExpressionVisitorState, a: usize, b: usize) -> (r: usize)
    requires
        old(state)@.has_room(1),
    ensures
        (final(state)@, r) == binary_predicate(old(state)@, BinaryPredicateOp::GreaterThan, a, b),
{
    visit_predicate_binary(state, BinaryPredicateOp::GreaterThan, a, b)
}

/// Visits `a == b`.
pub fn visit_predicate_eq(state: &mut KernelExpressionVisitorState, a: usize, b: usize) -> (r: usize)
    requires
        old(state)@.has_room(1),
    ensures
        (final(state)@, r) == binary_predicate(old(state)@, BinaryPredicateOp::Equal, a, b),
{
    visit_predicate_binary(state, BinaryPredicateOp::Equal, a, b)
}

/// Visits whether `a` is distinct from `b`.
pub fn visit_predicate_distinct(state: &mut KernelExpressionVisitorState, a: usize, b: usize) -> (r: usize)
    requires
        old(state)@.has_room(1),
    ensures
        (final(state)@, r) == binary_predicate(old(state)@, BinaryPredicateOp::Distinct, a, b),
{
    visit_predicate_binary(state, BinaryPredicateOp::Distinct, a, b)
}

/// Visits whether `a` is in `b`.
pub fn visit_predicate_in(state: &mut KernelExpressionVisitorState, a: usize, b: usize) -> (r: usize)
    requires
        old(state)@.has_room(1),
    ensures
        (final(state)@, r) == binary_predicate(old(state)@, BinaryPredicateOp::In, a, b),
{
    visit_predicate_binary(state, BinaryPredicateOp::In, a, b)
}

/// Visits `a <= b`, as the negation of `a > b`.
pub fn visit_predicate_le(state: &mut KernelExpressionVisitorState, a: usize, b: usize) -> (r: usize)
    requires
        old(state)@.has_room(2),
    ensures
        (final(state)@, r) == negated_binary(old(state)@, BinaryPredicateOp::GreaterThan, a, b),
{
    let p = visit_predicate_binary(state, BinaryPredicateOp::GreaterThan, a, b);
    visit_predicate_not(state, p)
}

/// Visits `a >= b`, as the negation of `a < b`.
pub fn visit_predicate_ge(state: &mut KernelExpressionVisitorState, a: usize, b: usize) -> (r: usize)
    requires
        old(state)@.has_room(2),
    ensures
        (final(state)@, r) == negated_binary(old(state)@, BinaryPredicateOp::LessThan, a, b),
{
    let p = visit_predicate_binary(state, BinaryPredicateOp::LessThan, a, b);
    visit_predicate_not(state, p)
}

/// Visits `a != b`, as the negation of `a == b`.
pub fn visit_predicate_ne(state: &mut KernelExpressionVisitorState, a: usize, b: usize) -> (r: usize)
    requires
        old(state)@.has_room(2),
    ensures
        (final(state)@, r) == negated_binary(old(state)@, BinaryPredicateOp::Equal, a, b),
{
    let p = visit_predicate_binary(state, BinaryPredicateOp::Equal, a, b);
    visit_predicate_not(state, p)
}

/// Visits a negation.
pub fn visit_predicate_not(state: &mut KernelExpressionVisitorState, inner_pred: usize) -> (r: usize)
    requires
        old(state)@.has_room(1),
    ensures
        (final(state)@, r) == negation(old(state)@, inner_pred),
{
    match unwrap_kernel_predicate(state, inner_pred) {
        Some(pred) => wrap_predicate(state, Predicate::not(pred)),
        None => 0,
    }
}

/// Visits a null check.
pub fn visit_predicate_is_null(state: &mut KernelExpressionVisitorState, inner_expr: usize) -> (r:
    usize)
    requires
        old(state)@.has_room(1),
    ensures
        (final(state)@, r) == put_predicate(
            old(state)@.without(inner_expr),
            match as_expression(old(state)@.get(inner_expr)) {
                Some(expr) => Some(
                    Predicate::Unary { op: UnaryPredicateOp::IsNull, expr: Box::new(expr) },
                ),
                None => None,
            },
        ),
{
    visit_predicate_unary(state, UnaryPredicateOp::IsNull, inner_expr)
}

/// Visits a predicate that is not known, by its name. Without a valid name there is none.
pub fn visit_predicate_unknown(
    state: &mut KernelExpressionVisitorState,
    name: DeltaResult<String>,
) -> (r: usize)
    requires
        old(state)@.has_room(1),
    ensures
        (final(state)@, r) == put_predicate(
            old(state)@,
            match name {
                Ok(name) => Some(Predicate::Unknown(name)),
                Err(_) => None,
            },
        ),
{
    match name {
        Ok(name) => wrap_predicate(state, Predicate::Unknown(name)),
        Err(_) => 0,
    }
}

/// Visits an expression that is not known, by its name. Without a valid name there is none.
pub fn visit_expression_unknown(
    state: &mut KernelExpressionVisitorState,
    name: DeltaResult<String>,
) -> (r: usize)
    requires
        old(state)@.has_room(1),
    ensures
        (final(state)@, r) == put_expression(
            old(state)@,
            match name {
                Ok(name) => Some(Expression::Unknown(name)),
                Err(_) => None,
            },
        ),
{
    match name {
        Ok(name) => wrap_expression(state, Expression::Unknown(name)),
        Err(_) => 0,
    }
}

/// Is it the column with the path?
pub open spec fn is_column(expr: Expression, path: Seq<Seq<char>>) -> bool {
    match expr {
        Expression::Column(name) => name@ == path,
        _ => false,
    }
}

/// Visits a column, whose name is split at its dots.
pub fn visit_expression_column(
    state: &mut KernelExpressionVisitorState,
    name: DeltaResult<&str>,
) -> (r: DeltaResult<usize>)
    requires
        old(state)@.has_room(1),
    ensures
        match (name, r) {
            (Ok(name), Ok(id)) => exists|expr: Expression| #[trigger]
                is_column(expr, split_on(name@, '.')) && (final(state)@, id) == put_expression(
                    old(state)@,
                    Some(expr),
                ),
            (Err(e), Err(error)) => error == e && final(state)@ == old(state)@,
            _ => false,
        },
{
    match name {
        Ok(name) => {
            let expr = Expression::Column(ColumnName::from_naive_str_split(name));
            assert(is_column(expr, split_on(name@, '.')));
            Ok(wrap_expression(state, expr))
        },
        Err(e) => Err(e),
    }
}

/// Is it the struct of the expressions?
pub open spec fn is_struct_of(expr: Expression, exprs: Seq<Expression>) -> bool {
    match expr {
        Expression::Struct(fields) => fields@.len() == exprs.len() && forall|i: int|
            0 <= i < exprs.len() ==> *(#[trigger] fields@[i]) == exprs[i],
        _ => false,
    }
}

/// Visits a struct. Children that are not there are left out.
pub fn visit_expression_struct(
    state: &mut KernelExpressionVisitorState,
    children: &Vec<usize>,
) -> (r: usize)
    requires
        old(state)@.has_room(1),
    ensures
        exists|expr: Expression| #[trigger]
            is_struct_of(expr, all_expressions(old(state)@, children@)) && (final(state)@, r)
                == put_expression(without_all(old(state)@, children@), Some(expr)),
{
    proof {
        lemma_without_all_keeps_next_id(state@, children@);
    }
    let exprs = unwrap_expressions(state, children);
    let expr = Expression::struct_from(exprs);
    assert(is_struct_of(expr, all_expressions(old(state)@, children@)));
    wrap_expression(state, expr)
}

/// Visits the conversion of a map into a struct.
pub fn visit_expression_map_to_struct(
    state: &mut KernelExpressionVisitorState,
    child_expr: usize,
) -> (r: usize)
    requires
        old(state)@.has_room(1),
    ensures
        (final(state)@, r) == put_expression(
            old(state)@.without(child_expr),
            match as_expression(old(state)@.get(child_expr)) {
                Some(expr) => Some(Expression::MapToStruct(Box::new(expr))),
                None => None,
            },
        ),
{
    match unwrap_kernel_expression(state, child_expr) {
        Some(expr) => wrap_expression(state, Expression::MapToStruct(Box::new(expr))),
        None => 0,
    }
}

/// Visits a string literal.
pub fn visit_expression_literal_string(
    state: &mut KernelExpressionVisitorState,
    value: DeltaResult<String>,
) -> (r: DeltaResult<usize>)
    requires
        old(state)@.has_room(1),
    ensures
        match (value, r) {
            (Ok(value), Ok(id)) => (final(state)@, id) == put_expression(
                old(state)@,
                Some(Expression::Literal(Scalar::String(value))),
            ),
            (Err(e), Err(error)) => error == e && final(state)@ == old(state)@,
            _ => false,
        },
{
    match value {
        Ok(value) => Ok(wrap_expression(state, Expression::literal(Scalar::String(value)))),
        Err(e) => Err(e),
    }
}

/// Visits a 32-bit integer literal.
pub fn visit_expression_literal_int(
    state: &mut KernelExpressionVisitorState,
    value: i32,
) -> (r: usize)
    requires
        old(state)@.has_room(1),
    ensures
        (final(state)@, r) == put_expression(
            old(state)@,
            Some(Expression::Literal(Scalar::Integer(value))),
        ),
{
    wrap_expression(state, Expression::literal(Scalar::Integer(value)))
}

/// Visits a 64-bit integer literal.
pub fn visit_expression_literal_long(
    state: &mut KernelExpressionVisitorState,
    value: i64,
) -> (r: usize)
    requires
        old(state)@.has_room(1),
    ensures
        (final(state)@, r) == put_expression(
            old(state)@,
            Some(Expression::Literal(Scalar::Long(value))),
        ),
{
    wrap_expression(state, Expression::literal(Scalar::Long(value)))
}

/// Visits a 16-bit integer literal.
pub fn visit_expression_literal_short(
    state: &mut KernelExpressionVisitorState,
    value: i16,
) -> (r: usize)
    requires
        old(state)@.has_room(1),
    ensures
        (final(state)@, r) == put_expression(
            old(state)@,
            Some(Expression::Literal(Scalar::Short(value))),
        ),
{
    wrap_expression(state, Expression::literal(Scalar::Short(value)))
}

/// Visits an 8-bit integer literal.
pub fn visit_expression_literal_byte(
    state: &mut KernelExpressionVisitorState,
    value: i8,
) -> (r: usize)
    requires
        old(state)@.has_room(1),
    ensures
        (final(state)@, r) == put_expression(
            old(state)@,
            Some(Expression::Literal(Scalar::Byte(value))),
        ),
{
    wrap_expression(state, Expression::literal(Scalar::Byte(value)))
}

/// Visits a 32-bit floating point literal, given by its bits.
pub fn visit_expression_literal_float(
    state: &mut KernelExpressionVisitorState,
    value: u32,
) -> (r: usize)
    requires
        old(state)@.has_room(1),
    ensures
        (final(state)@, r) == put_expression(
            old(state)@,
            Some(Expression::Literal(Scalar::Float(value))),
        ),
{
    wrap_expression(state, Expression::literal(Scalar::Float(value)))
}

/// Visits a 64-bit floating point literal, given by its bits.
pub fn visit_expression_literal_double(
    state: &mut KernelExpressionVisitorState,
    value: u64,
) -> (r: usize)
    requires
        old(state)@.has_room(1),
    ensures
        (final(state)@, r) == put_expression(
            old(state)@,
            Some(Expression::Literal(Scalar::Double(value))),
        ),
{
    wrap_expression(state, Expression::literal(Scalar::Double(value)))
}

/// Visits a boolean literal.
pub fn visit_expression_literal_bool(
    state: &mut KernelExpressionVisitorState,
    value: bool,
) -> (r: usize)
    requires
        old(state)@.has_room(1),
    ensures
        (final(state)@, r) == put_expression(
            old(state)@,
            Some(Expression::Literal(Scalar::Boolean(value))),
        ),
{
    wrap_expression(state, Expression::literal(Scalar::Boolean(value)))
}

/// Visits a date literal, in days since the epoch.
pub fn visit_expression_literal_date(
    state: &mut KernelExpressionVisitorState,
    value: i32,
) -> (r: usize)
    requires
        old(state)@.has_room(1),
    ensures
        (final(state)@, r) == put_expression(
            old(state)@,
            Some(Expression::Literal(Scalar::Date(value))),
        ),
{
    wrap_expression(state, Expression::literal(Scalar::Date(value)))
}

/// Visits a timestamp literal, in microseconds since the epoch.
pub fn visit_expression_literal_timestamp(
    state: &mut KernelExpressionVisitorState,
    value: i64,
) -> (r: usize)
    requires
        old(state)@.has_room(1),
    ensures
        (final(state)@, r) == put_expression(
            old(state)@,
            Some(Expression::Literal(Scalar::Timestamp(value))),
        ),
{
    wrap_expression(state, Expression::literal(Scalar::Timestamp(value)))
}

/// Visits a timestamp literal without time zone, in microseconds since the epoch.
pub fn visit_expression_literal_timestamp_ntz(
    state: &mut KernelExpressionVisitorState,
    value: i64,
) -> (r: usize)
    requires
        old(state)@.has_room(1),
    ensures
        (final(state)@, r) == put_expression(
            old(state)@,
            Some(Expression::Literal(Scalar::TimestampNtz(value))),
        ),
{
    wrap_expression(state, Expression::literal(Scalar::TimestampNtz(value)))
}

/// Visits a binary literal.
pub fn visit_expression_literal_binary(
    state: &mut KernelExpressionVisitorState,
    value: Vec<u8>,
) -> (r: usize)
    requires
        old(state)@.has_room(1),
    ensures
        (final(state)@, r) == put_expression(
            old(state)@,
            Some(Expression::Literal(Scalar::Binary(value))),
        ),
{
    wrap_expression(state, Expression::literal(Scalar::Binary(value)))
}

/// The number whose two's complement has the two halves.
pub open spec fn number_of_halves(hi: u64, lo: u64) -> int {
    let n = hi * 0x1_0000_0000_0000_0000 + lo;
    if hi < 0x8000_0000_0000_0000 {
        n
    } else {
        n - 0x1_0000_0000_0000_0000_0000_0000_0000_0000
    }
}

fn join_halves(hi: u64, lo: u64) -> (r: i128)
    ensures
        r == number_of_halves(hi, lo),
{
    let value = ((hi as i128) << 64) | (lo as i128);
    assert(hi < 0x8000_0000_0000_0000 ==> ((hi as i128) << 64) | (lo as i128) == hi
        * 0x1_0000_0000_0000_0000 + lo) by (bit_vector);
    assert(hi >= 0x8000_0000_0000_0000 ==> ((hi as i128) << 64) | (lo as i128) == hi
        * 0x1_0000_0000_0000_0000 + lo - 0x1_0000_0000_0000_0000_0000_0000_0000_0000)
        by (bit_vector);
    value
}

/// Is it the decimal literal?
pub open spec fn is_decimal(expr: Expression, bits: int, precision: u8, scale: u8) -> bool {
    match expr {
        Expression::Literal(Scalar::Decimal(d)) => d.bits == bits && d.ty.spec_precision()
            == precision && d.ty.spec_scale() == scale,
        _ => false,
    }
}

/// Visits a decimal literal, whose unscaled number is given by its two halves.
pub fn visit_expression_literal_decimal(
    state: &mut KernelExpressionVisitorState,
    value_hi: u64,
    value_lo: u64,
    precision: u8,
    scale: u8,
) -> (r: DeltaResult<usize>)
    requires
        old(state)@.has_room(1),
    ensures
        match r {
            Ok(id) => valid_decimal(precision, scale) && exists|expr: Expression| #[trigger]
                is_decimal(expr, number_of_halves(value_hi, value_lo), precision, scale) && (
                final(state)@,
                id,
                ) == put_expression(old(state)@, Some(expr)),
            Err(e) => !valid_decimal(precision, scale) && e@ is InvalidDecimal && final(state)@
                == old(state)@,
        },
{
    let value = join_halves(value_hi, value_lo);
    match Scalar::decimal(value, precision, scale) {
        Ok(scalar) => {
            let expr = Expression::literal(scalar);
            assert(is_decimal(expr, number_of_halves(value_hi, value_lo), precision, scale));
            Ok(wrap_expression(state, expr))
        },
        Err(e) => Err(e),
    }
}

/// Is it a null whose type has the tag with the number and, for decimals, the precision and the scale?
pub open spec fn is_null_of(expr: Expression, code: u8, precision: u8, scale: u8) -> bool {
    match expr {
        Expression::Literal(Scalar::Null(data_type)) => {
            let (tag, p, s) = NullTypeTag::of(data_type@);
            data_type is Primitive && tag.code() == code && if tag is Decimal {
                p == precision && s == scale
            } else {
                p == 0 && s == 0
            }
        },
        _ => false,
    }
}

/// Is there a null of this type?
pub open spec fn buildable_null(code: u8, precision: u8, scale: u8) -> bool {
    code <= 11 || (code == 12 && valid_decimal(precision, scale))
}

/// Is it the error for a null of a type that cannot be built?
pub open spec fn is_null_error(error: ErrorView, code: u8) -> bool {
    if code == 12 {
        error is InvalidDecimal
    } else if code == 255 {
        error == ErrorView::Generic(
            "Non-primitive null types (struct, array, map, variant) cannot be reconstructed from a type tag. Use opaque expressions or a schema visitor instead."@,
        )
    } else {
        error == ErrorView::Generic("Unrecognized null type tag: "@ + decimal(code as nat))
    }
}

/// Visits a typed null, whose type is given by the number of its tag and, for decimals, a precision and a
/// scale.
pub fn visit_expression_literal_null(
    state: &mut KernelExpressionVisitorState,
    type_tag: u8,
    precision: u8,
    scale: u8,
) -> (r: DeltaResult<usize>)
    requires
        old(state)@.has_room(1),
    ensures
        match r {
            Ok(id) => buildable_null(type_tag, precision, scale) && exists|expr: Expression|
                #[trigger]
                is_null_of(expr, type_tag, precision, scale) && (final(state)@, id)
                    == put_expression(old(state)@, Some(expr)),
            Err(e) => !buildable_null(type_tag, precision, scale) && is_null_error(e@, type_tag)
                && final(state)@ == old(state)@,
        },
{
    let tag = match NullTypeTag::try_from(type_tag) {
        Ok(tag) => tag,
        Err(e) => {
            return Err(e);
        },
    };
    let data_type = match tag.to_data_type(precision, scale) {
        Ok(data_type) => data_type,
        Err(e) => {
            return Err(e);
        },
    };
    let expr = Expression::literal(Scalar::Null(data_type));
    assert(is_null_of(expr, type_tag, precision, scale));
    Ok(wrap_expression(state, expr))
}

/// The expression that an engine built, given the identifier that its visit returned.
pub fn visit_engine_expression(state: &mut KernelExpressionVisitorState, expr_id: usize) -> (r:
    DeltaResult<Expression>)
    ensures
        final(state)@ == old(state)@.without(expr_id),
        match r {
            Ok(expr) => as_expression(old(state)@.get(expr_id)) == Some(expr),
            Err(e) => as_expression(old(state)@.get(expr_id)) is None && e@ == ErrorView::Generic(
                "Invalid expression ID "@ + decimal(expr_id as nat)
                    + " returned from engine visitor"@,
            ),
        },
{
    match unwrap_kernel_expression(state, expr_id) {
        Some(expr) => Ok(expr),
        None => Err(
            Error::generic(
                join3(
                    "Invalid expression ID ",
                    decimal_text(expr_id as u64).as_str(),
                    " returned from engine visitor",
                ),
            ),
        ),
    }
}

/// The predicate that an engine built, given the identifier that its visit returned.
pub fn visit_engine_predicate(state: &mut KernelExpressionVisitorState, pred_id: usize) -> (r:
    DeltaResult<Predicate>)
    ensures
        final(state)@ == old(state)@.without(pred_id),
        match r {
            Ok(pred) => as_predicate(old(state)@.get(pred_id)) == Some(pred),
            Err(e) => as_predicate(old(state)@.get(pred_id)) is None && e@ == ErrorView::Generic(
                "Invalid predicate ID "@ + decimal(pred_id as nat)
                    + " returned from engine visitor"@,
            ),
        },
{
    match unwrap_kernel_predicate(state, pred_id) {
        Some(pred) => Ok(pred),
        None => Err(
            Error::generic(
                join3(
                    "Invalid predicate ID ",
                    decimal_text(pred_id as u64).as_str(),
                    " returned from engine visitor",
                ),
            ),
        ),
    }
}

/// The identifier 0 stands for no expression: a visit with it as a child gives 0 again.
pub proof fn law_zero_is_no_expression(
    state: StateView,
    op: BinaryExpressionOp,
    pred_op: BinaryPredicateOp,
    other: usize,
)
    requires
        state.valid(),
    ensures
        as_expression(state.get(0)) is None,
        as_predicate(state.get(0)) is None,
        binary_expression(state, op, 0, other).1 == 0,
        binary_expression(state, op, other, 0).1 == 0,
        binary_predicate(state, pred_op, 0, other).1 == 0,
        binary_predicate(state, pred_op, other, 0).1 == 0,
        negation(state, 0).1 == 0,
        negated_binary(state, pred_op, 0, other).1 == 0,
{
    assert(!state.map.contains_key(0));
    assert(!state.without(other).map.contains_key(0));
    let (next, id) = binary_predicate(state, pred_op, 0, other);
    assert(next == without_both(state, 0, other));
    assert(!next.map.contains_key(0));
}

/// An expression can be the child of one visit only: none finds it twice.
pub proof fn law_child_is_used_once(
    state: StateView,
    op: BinaryExpressionOp,
    pred_op: BinaryPredicateOp,
    child: usize,
    other: usize,
)
    requires
        state.valid(),
        state.has_room(1),
    ensures
        binary_expression(state, op, child, child).1 == 0,
        binary_predicate(state, pred_op, child, child).1 == 0,
        child < state.next_id ==> binary_expression(state, op, child, other).0.get(child) is None,
        child < state.next_id ==> binary_predicate(state, pred_op, child, other).0.get(
            child,
        ) is None,
{
}

/// A typed null of a primitive type, other than void, comes back with its type when it is visited with the
/// tag, the precision and the scale of the type. There is such a null: the precision and the scale that
/// [`NullTypeTag::from_data_type`] hands out for a decimal are valid.
pub proof fn law_null_round_trips(primitive: PrimitiveType, expr: Expression)
    requires
        primitive !is Void,
        ({
            let (tag, precision, scale) = NullTypeTag::of(DataTypeView::Primitive(primitive));
            is_null_of(expr, tag.code(), precision, scale)
        }),
    ensures
        ({
            let (tag, precision, scale) = NullTypeTag::of(DataTypeView::Primitive(primitive));
            (tag is Decimal ==> valid_decimal(precision, scale)) ==> buildable_null(
                tag.code(),
                precision,
                scale,
            )
        }),
        expr == Expression::Literal(Scalar::Null(DataType::Primitive(primitive))),
{
    match expr {
        Expression::Literal(Scalar::Null(DataType::Primitive(other))) => {
            crate::ffi::null_type_tag::law_codes_are_distinct(
                NullTypeTag::of(DataTypeView::Primitive(primitive)).0,
                NullTypeTag::of(DataTypeView::Primitive(other)).0,
            );
            crate::ffi::null_type_tag::law_tag_determines_primitive_type(primitive, other);
        },
        _ => {},
    }
}

} // verus!
