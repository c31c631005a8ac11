//! What each visit makes of its children, and what it leaves of the others.

use vstd::prelude::*;

use crate::error::{DeltaResult, ErrorView};
use crate::expressions::{
    BinaryExpressionOp, BinaryPredicateOp, Expression, JunctionPredicateOp, Predicate, Scalar,
    UnaryPredicateOp,
};
use crate::ffi::kernel_visitor::{
    visit_expression_plus,
    visit_expression_minus,
    visit_expression_multiply,
    visit_expression_divide,
    visit_predicate_lt,
    visit_predicate_gt,
    visit_predicate_eq,
    visit_predicate_distinct,
    visit_predicate_in,
    visit_predicate_le,
    visit_predicate_ge,
    visit_predicate_ne,
    visit_expression_literal_int,
    visit_expression_literal_long,
    visit_expression_literal_short,
    visit_expression_literal_byte,
    visit_expression_literal_float,
    visit_expression_literal_double,
    visit_expression_literal_bool,
    visit_expression_literal_date,
    visit_expression_literal_timestamp,
    visit_expression_literal_timestamp_ntz,
    visit_expression_literal_binary,
    visit_predicate_and,
    visit_predicate_or,
    visit_predicate_not,
    visit_predicate_is_null,
    visit_predicate_unknown,
    visit_expression_unknown,
    visit_expression_column,
    visit_expression_struct,
    visit_expression_map_to_struct,
    visit_expression_literal_string,
    visit_expression_literal_decimal,
    visit_expression_literal_null,
    visit_engine_expression,
    visit_engine_predicate,
    unwrap_kernel_expression,
    unwrap_kernel_predicate,
    KernelExpressionVisitorState,
    ExpressionOrPredicate,
    StateView,
};
use crate::schema::{DataType, PrimitiveType};
use crate::text_laws::{free_of, glued, law_split_pieces_are_the_text};

verus! {

/// The expression with an identifier. A predicate is one too: the expression in it, or the predicate as it is.
pub open spec fn expression_at(state: StateView, id: usize) -> Option<Expression> {
    if !state.map.contains_key(id) {
        None
    } else {
        match state.map[id] {
            ExpressionOrPredicate::Expression(e) => Some(e),
            ExpressionOrPredicate::Predicate(Predicate::BooleanExpression(e)) => Some(e),
            ExpressionOrPredicate::Predicate(p) => Some(Expression::Predicate(Box::new(p))),
        }
    }
}

/// The predicate with an identifier. An expression is one too: the predicate in it, or that the expression is true.
pub open spec fn predicate_at(state: StateView, id: usize) -> Option<Predicate> {
    if !state.map.contains_key(id) {
        None
    } else {
        match state.map[id] {
            ExpressionOrPredicate::Predicate(p) => Some(p),
            ExpressionOrPredicate::Expression(Expression::Predicate(p)) => Some(*p),
            ExpressionOrPredicate::Expression(e) => Some(Predicate::BooleanExpression(e)),
        }
    }
}

/// Are these gone, and all others still there as they were?
pub open spec fn only_gone(before: StateView, after: StateView, gone: spec_fn(usize) -> bool) -> bool {
    forall|id: usize|
        #![trigger after.map.contains_key(id)]
        #![trigger before.map.contains_key(id)]
        id < before.next_id ==> {
            &&& after.map.contains_key(id) <==> before.map.contains_key(id) && !gone(id)
            &&& after.map.contains_key(id) ==> after.map[id] == before.map[id]
        }
}

/// Did the visit put this into the state, under a new identifier that is not 0, and take these out?
pub open spec fn gave(
    before: StateView,
    after: StateView,
    r: usize,
    item: ExpressionOrPredicate,
    gone: spec_fn(usize) -> bool,
) -> bool {
    &&& r > 0
    &&& !before.map.contains_key(r)
    &&& after.map.contains_key(r)
    &&& after.map[r] == item
    &&& r >= before.next_id
    &&& after.next_id > r
    &&& only_gone(before, after, gone)
}

/// Did the visit put nothing into the state, return 0, and take these out?
pub open spec fn gave_nothing(
    before: StateView,
    after: StateView,
    r: usize,
    gone: spec_fn(usize) -> bool,
) -> bool {
    &&& r == 0
    &&& after.next_id == before.next_id
    &&& only_gone(before, after, gone)
}

/// Is the outcome of a visit with two children the one of these, if both are there and they are not the same, and
/// nothing otherwise?
pub open spec fn joins(
    before: StateView,
    after: StateView,
    r: usize,
    a: usize,
    b: usize,
    item: spec_fn(Expression, Expression) -> ExpressionOrPredicate,
) -> bool {
    let gone = |id: usize| id == a || id == b;
    match (expression_at(before, a), expression_at(before, b)) {
        (Some(left), Some(right)) => if a != b {
            gave(before, after, r, item(left, right), gone)
        } else {
            gave_nothing(before, after, r, gone)
        },
        _ => gave_nothing(before, after, r, gone),
    }
}

/// Visits of sums, differences, products and quotients build them of their children, the first on the left.
pub proof fn law_binary_expressions(
    state: &mut KernelExpressionVisitorState,
    a: usize,
    b: usize,
    r: usize,
)
    requires
        state@.valid(),
        state@.has_room(1),
    ensures
        call_ensures(visit_expression_plus, (state, a, b), r) ==> joins(
            old(state)@,
            final(state)@,
            r,
            a,
            b,
            |left: Expression, right: Expression|
                ExpressionOrPredicate::Expression(
                    Expression::Binary {
                        op: BinaryExpressionOp::Plus,
                        left: Box::new(left),
                        right: Box::new(right),
                    },
                ),
        ),
        call_ensures(visit_expression_minus, (state, a, b), r) ==> joins(
            old(state)@,
            final(state)@,
            r,
            a,
            b,
            |left: Expression, right: Expression|
                ExpressionOrPredicate::Expression(
                    Expression::Binary {
                        op: BinaryExpressionOp::Minus,
                        left: Box::new(left),
                        right: Box::new(right),
                    },
                ),
        ),
        call_ensures(visit_expression_multiply, (state, a, b), r) ==> joins(
            old(state)@,
            final(state)@,
            r,
            a,
            b,
            |left: Expression, right: Expression|
                ExpressionOrPredicate::Expression(
                    Expression::Binary {
                        op: BinaryExpressionOp::Multiply,
                        left: Box::new(left),
                        right: Box::new(right),
                    },
                ),
        ),
        call_ensures(visit_expression_divide, (state, a, b), r) ==> joins(
            old(state)@,
            final(state)@,
            r,
            a,
            b,
            |left: Expression, right: Expression|
                ExpressionOrPredicate::Expression(
                    Expression::Binary {
                        op: BinaryExpressionOp::Divide,
                        left: Box::new(left),
                        right: Box::new(right),
                    },
                ),
        ),
{
}

/// Visits of comparisons build them of their children, the first on the left. Comparisons that have no operator of
/// their own are the negation of the opposite one.
pub proof fn law_comparisons(
    state: &mut KernelExpressionVisitorState,
    a: usize,
    b: usize,
    r: usize,
)
    requires
        state@.valid(),
        state@.has_room(2),
    ensures
        call_ensures(visit_predicate_lt, (state, a, b), r) ==> joins(
            old(state)@,
            final(state)@,
            r,
            a,
            b,
            |left: Expression, right: Expression|
                ExpressionOrPredicate::Predicate(
                    Predicate::Binary {
                        op: BinaryPredicateOp::LessThan,
                        left: Box::new(left),
                        right: Box::new(right),
                    },
                ),
        ),
        call_ensures(visit_predicate_gt, (state, a, b), r) ==> joins(
            old(state)@,
            final(state)@,
            r,
            a,
            b,
            |left: Expression, right: Expression|
                ExpressionOrPredicate::Predicate(
                    Predicate::Binary {
                        op: BinaryPredicateOp::GreaterThan,
                        left: Box::new(left),
                        right: Box::new(right),
                    },
                ),
        ),
        call_ensures(visit_predicate_eq, (state, a, b), r) ==> joins(
            old(state)@,
            final(state)@,
            r,
            a,
            b,
            |left: Expression, right: Expression|
                ExpressionOrPredicate::Predicate(
                    Predicate::Binary {
                        op: BinaryPredicateOp::Equal,
                        left: Box::new(left),
                        right: Box::new(right),
                    },
                ),
        ),
        call_ensures(visit_predicate_distinct, (state, a, b), r) ==> joins(
            old(state)@,
            final(state)@,
            r,
            a,
            b,
            |left: Expression, right: Expression|
                ExpressionOrPredicate::Predicate(
                    Predicate::Binary {
                        op: BinaryPredicateOp::Distinct,
                        left: Box::new(left),
                        right: Box::new(right),
                    },
                ),
        ),
        call_ensures(visit_predicate_in, (state, a, b), r) ==> joins(
            old(state)@,
            final(state)@,
            r,
            a,
            b,
            |left: Expression, right: Expression|
                ExpressionOrPredicate::Predicate(
                    Predicate::Binary {
                        op: BinaryPredicateOp::In,
                        left: Box::new(left),
                        right: Box::new(right),
                    },
                ),
        ),
        call_ensures(visit_predicate_le, (state, a, b), r) ==> joins(
            old(state)@,
            final(state)@,
            r,
            a,
            b,
            |left: Expression, right: Expression|
                ExpressionOrPredicate::Predicate(
                    Predicate::Not(
                        Box::new(
                            Predicate::Binary {
                                op: BinaryPredicateOp::GreaterThan,
                                left: Box::new(left),
                                right: Box::new(right),
                            },
                        ),
                    ),
                ),
        ),
        call_ensures(visit_predicate_ge, (state, a, b), r) ==> joins(
            old(state)@,
            final(state)@,
            r,
            a,
            b,
            |left: Expression, right: Expression|
                ExpressionOrPredicate::Predicate(
                    Predicate::Not(
                        Box::new(
                            Predicate::Binary {
                                op: BinaryPredicateOp::LessThan,
                                left: Box::new(left),
                                right: Box::new(right),
                            },
                        ),
                    ),
                ),
        ),
        call_ensures(visit_predicate_ne, (state, a, b), r) ==> joins(
            old(state)@,
            final(state)@,
            r,
            a,
            b,
            |left: Expression, right: Expression|
                ExpressionOrPredicate::Predicate(
                    Predicate::Not(
                        Box::new(
                            Predicate::Binary {
                                op: BinaryPredicateOp::Equal,
                                left: Box::new(left),
                                right: Box::new(right),
                            },
                        ),
                    ),
                ),
        ),
{
}

/// Visits of a negation, a null check and a conversion of a map build them of their child.
pub proof fn law_one_child(state: &mut KernelExpressionVisitorState, child: usize, r: usize)
    requires
        state@.valid(),
        state@.has_room(1),
    ensures
        call_ensures(visit_predicate_not, (state, child), r) ==> match predicate_at(
            old(state)@,
            child,
        ) {
            Some(p) => gave(
                old(state)@,
                final(state)@,
                r,
                ExpressionOrPredicate::Predicate(Predicate::Not(Box::new(p))),
                |id: usize| id == child,
            ),
            None => gave_nothing(old(state)@, final(state)@, r, |id: usize| id == child),
        },
        call_ensures(visit_predicate_is_null, (state, child), r) ==> match expression_at(
            old(state)@,
            child,
        ) {
            Some(e) => gave(
                old(state)@,
                final(state)@,
                r,
                ExpressionOrPredicate::Predicate(
                    Predicate::Unary { op: UnaryPredicateOp::IsNull, expr: Box::new(e) },
                ),
                |id: usize| id == child,
            ),
            None => gave_nothing(old(state)@, final(state)@, r, |id: usize| id == child),
        },
        call_ensures(visit_expression_map_to_struct, (state, child), r) ==> match expression_at(
            old(state)@,
            child,
        ) {
            Some(e) => gave(
                old(state)@,
                final(state)@,
                r,
                ExpressionOrPredicate::Expression(Expression::MapToStruct(Box::new(e))),
                |id: usize| id == child,
            ),
            None => gave_nothing(old(state)@, final(state)@, r, |id: usize| id == child),
        },
{
}

/// A visit of an unknown predicate or expression keeps its name; without one there is nothing.
pub proof fn law_unknowns(
    state: &mut KernelExpressionVisitorState,
    name: DeltaResult<String>,
    r: usize,
)
    requires
        state@.valid(),
        state@.has_room(1),
    ensures
        call_ensures(visit_predicate_unknown, (state, name), r) ==> match name {
            Ok(name) => gave(
                old(state)@,
                final(state)@,
                r,
                ExpressionOrPredicate::Predicate(Predicate::Unknown(name)),
                |id: usize| false,
            ),
            Err(_) => gave_nothing(old(state)@, final(state)@, r, |id: usize| false),
        },
        call_ensures(visit_expression_unknown, (state, name), r) ==> match name {
            Ok(name) => gave(
                old(state)@,
                final(state)@,
                r,
                ExpressionOrPredicate::Expression(Expression::Unknown(name)),
                |id: usize| false,
            ),
            Err(_) => gave_nothing(old(state)@, final(state)@, r, |id: usize| false),
        },
{
}

/// A visit of a literal keeps its value and its type.
pub proof fn law_literal_int(state: &mut KernelExpressionVisitorState, value: i32, r: usize)
    requires
        state@.valid(),
        state@.has_room(1),
        call_ensures(visit_expression_literal_int, (state, value), r),
    ensures
        gave(
            old(state)@,
            final(state)@,
            r,
            ExpressionOrPredicate::Expression(Expression::Literal(Scalar::Integer(value))),
            |id: usize| false,
        ),
{
}

/// A visit of a literal keeps its value and its type.
pub proof fn law_literal_long(state: &mut KernelExpressionVisitorState, value: i64, r: usize)
    requires
        state@.valid(),
        state@.has_room(1),
        call_ensures(visit_expression_literal_long, (state, value), r),
    ensures
        gave(
            old(state)@,
            final(state)@,
            r,
            ExpressionOrPredicate::Expression(Expression::Literal(Scalar::Long(value))),
            |id: usize| false,
        ),
{
}

/// A visit of a literal keeps its value and its type.
pub proof fn law_literal_short(state: &mut KernelExpressionVisitorState, value: i16, r: usize)
    requires
        state@.valid(),
        state@.has_room(1),
        call_ensures(visit_expression_literal_short, (state, value), r),
    ensures
        gave(
            old(state)@,
            final(state)@,
            r,
            ExpressionOrPredicate::Expression(Expression::Literal(Scalar::Short(value))),
            |id: usize| false,
        ),
{
}

/// A visit of a literal keeps its value and its type.
pub proof fn law_literal_byte(state: &mut KernelExpressionVisitorState, value: i8, r: usize)
    requires
        state@.valid(),
        state@.has_room(1),
        call_ensures(visit_expression_literal_byte, (state, value), r),
    ensures
        gave(
            old(state)@,
            final(state)@,
            r,
            ExpressionOrPredicate::Expression(Expression::Literal(Scalar::Byte(value))),
            |id: usize| false,
        ),
{
}

/// A visit of a literal keeps its value and its type.
pub proof fn law_literal_float(state: &mut KernelExpressionVisitorState, value: u32, r: usize)
    requires
        state@.valid(),
        state@.has_room(1),
        call_ensures(visit_expression_literal_float, (state, value), r),
    ensures
        gave(
            old(state)@,
            final(state)@,
            r,
            ExpressionOrPredicate::Expression(Expression::Literal(Scalar::Float(value))),
            |id: usize| false,
        ),
{
}

/// A visit of a literal keeps its value and its type.
pub proof fn law_literal_double(state: &mut KernelExpressionVisitorState, value: u64, r: usize)
    requires
        state@.valid(),
        state@.has_room(1),
        call_ensures(visit_expression_literal_double, (state, value), r),
    ensures
        gave(
            old(state)@,
            final(state)@,
            r,
            ExpressionOrPredicate::Expression(Expression::Literal(Scalar::Double(value))),
            |id: usize| false,
        ),
{
}

/// A visit of a literal keeps its value and its type.
pub proof fn law_literal_bool(state: &mut KernelExpressionVisitorState, value: bool, r: usize)
    requires
        state@.valid(),
        state@.has_room(1),
        call_ensures(visit_expression_literal_bool, (state, value), r),
    ensures
        gave(
            old(state)@,
            final(state)@,
            r,
            ExpressionOrPredicate::Expression(Expression::Literal(Scalar::Boolean(value))),
            |id: usize| false,
        ),
{
}

/// A visit of a literal keeps its value and its type.
pub proof fn law_literal_date(state: &mut KernelExpressionVisitorState, value: i32, r: usize)
    requires
        state@.valid(),
        state@.has_room(1),
        call_ensures(visit_expression_literal_date, (state, value), r),
    ensures
        gave(
            old(state)@,
            final(state)@,
            r,
            ExpressionOrPredicate::Expression(Expression::Literal(Scalar::Date(value))),
            |id: usize| false,
        ),
{
}

/// A visit of a literal keeps its value and its type.
pub proof fn law_literal_timestamp(state: &mut KernelExpressionVisitorState, value: i64, r: usize)
    requires
        state@.valid(),
        state@.has_room(1),
        call_ensures(visit_expression_literal_timestamp, (state, value), r),
    ensures
        gave(
            old(state)@,
            final(state)@,
            r,
            ExpressionOrPredicate::Expression(Expression::Literal(Scalar::Timestamp(value))),
            |id: usize| false,
        ),
{
}

/// A visit of a literal keeps its value and its type.
pub proof fn law_literal_timestamp_ntz(state: &mut KernelExpressionVisitorState, value: i64, r: usize)
    requires
        state@.valid(),
        state@.has_room(1),
        call_ensures(visit_expression_literal_timestamp_ntz, (state, value), r),
    ensures
        gave(
            old(state)@,
            final(state)@,
            r,
            ExpressionOrPredicate::Expression(Expression::Literal(Scalar::TimestampNtz(value))),
            |id: usize| false,
        ),
{
}

/// A visit of a literal keeps its value and its type.
pub proof fn law_literal_binary(state: &mut KernelExpressionVisitorState, value: Vec<u8>, r: usize)
    requires
        state@.valid(),
        state@.has_room(1),
        call_ensures(visit_expression_literal_binary, (state, value), r),
    ensures
        gave(
            old(state)@,
            final(state)@,
            r,
            ExpressionOrPredicate::Expression(Expression::Literal(Scalar::Binary(value))),
            |id: usize| false,
        ),
{
}

/// A visit of a string keeps it; one that is no text is its error.
pub proof fn law_literal_string(
    state: &mut KernelExpressionVisitorState,
    value: DeltaResult<String>,
    r: DeltaResult<usize>,
)
    requires
        state@.valid(),
        state@.has_room(1),
        call_ensures(visit_expression_literal_string, (state, value), r),
    ensures
        r is Ok <==> value is Ok,
        value is Err ==> r->Err_0 == value->Err_0 && final(state)@ == old(state)@,
        value is Ok ==> gave(
            old(state)@,
            final(state)@,
            r->Ok_0,
            ExpressionOrPredicate::Expression(Expression::Literal(Scalar::String(value->Ok_0))),
            |id: usize| false,
        ),
{
}

/// A visit of a column splits its name at every dot, and nowhere else; a name that is no text is its error.
pub proof fn law_columns_are_split_at_each_dot(
    state: &mut KernelExpressionVisitorState,
    name: DeltaResult<&str>,
    r: DeltaResult<usize>,
)
    requires
        state@.valid(),
        state@.has_room(1),
        call_ensures(visit_expression_column, (state, name), r),
    ensures
        r is Ok <==> name is Ok,
        name is Err ==> r->Err_0 == name->Err_0 && final(state)@ == old(state)@,
        name is Ok ==> exists|expr: Expression| #[trigger]
            is_split_column(expr, name->Ok_0@) && gave(
                old(state)@,
                final(state)@,
                r->Ok_0,
                ExpressionOrPredicate::Expression(expr),
                |id: usize| false,
            ),
{
    if name is Ok {
        law_split_pieces_are_the_text(name->Ok_0@, '.');
        let expr = choose|expr: Expression| #[trigger]
            crate::ffi::kernel_visitor::is_column(
                expr,
                crate::text::split_on(name->Ok_0@, '.'),
            ) && (final(state)@, r->Ok_0) == crate::ffi::kernel_visitor::put_expression(
                old(state)@,
                Some(expr),
            );
        assert(is_split_column(expr, name->Ok_0@));
    }
}

/// Is it a column whose fields are the text between the dots of the name?
pub open spec fn is_split_column(expr: Expression, name: Seq<char>) -> bool {
    match expr {
        Expression::Column(column) => column@.len() > 0 && free_of(column@, '.') && glued(
            column@,
            '.',
        ) == name,
        _ => false,
    }
}

/// The number that two halves denote, as two's complement.
pub open spec fn is_number_of_halves(n: int, hi: u64, lo: u64) -> bool {
    let unsigned = hi * 0x1_0000_0000_0000_0000 + lo;
    &&& n == unsigned || n == unsigned - 0x1_0000_0000_0000_0000_0000_0000_0000_0000
    &&& i128::MIN <= n <= i128::MAX
}

/// A visit of a decimal keeps its number, precision and scale. It fails exactly for a precision or scale out of range.
pub proof fn law_decimals(
    state: &mut KernelExpressionVisitorState,
    hi: u64,
    lo: u64,
    precision: u8,
    scale: u8,
    r: DeltaResult<usize>,
)
    requires
        state@.valid(),
        state@.has_room(1),
        call_ensures(visit_expression_literal_decimal, (state, hi, lo, precision, scale), r),
    ensures
        r is Ok <==> 1 <= precision <= 38 && scale <= precision,
        r is Err ==> final(state)@ == old(state)@,
        r is Ok ==> exists|expr: Expression| #[trigger]
            keeps_decimal(expr, hi, lo, precision, scale) && gave(
                old(state)@,
                final(state)@,
                r->Ok_0,
                ExpressionOrPredicate::Expression(expr),
                |id: usize| false,
            ),
{
    if r is Ok {
        let expr = choose|expr: Expression| #[trigger]
            crate::ffi::kernel_visitor::is_decimal(
                expr,
                crate::ffi::kernel_visitor::number_of_halves(hi, lo),
                precision,
                scale,
            ) && (final(state)@, r->Ok_0) == crate::ffi::kernel_visitor::put_expression(
                old(state)@,
                Some(expr),
            );
        assert(keeps_decimal(expr, hi, lo, precision, scale));
    }
}

/// Is it the decimal literal with this number, precision and scale?
pub open spec fn keeps_decimal(
    expr: Expression,
    hi: u64,
    lo: u64,
    precision: u8,
    scale: u8,
) -> bool {
    match expr {
        Expression::Literal(Scalar::Decimal(d)) => is_number_of_halves(d.bits as int, hi, lo)
            && d.ty.spec_precision() == precision && d.ty.spec_scale() == scale,
        _ => false,
    }
}

/// The primitive types in the order of their tags.
pub open spec fn primitive_of_tag(tag: int) -> PrimitiveType {
    seq![
        PrimitiveType::Boolean,
        PrimitiveType::Byte,
        PrimitiveType::Short,
        PrimitiveType::Integer,
        PrimitiveType::Long,
        PrimitiveType::Float,
        PrimitiveType::Double,
        PrimitiveType::String,
        PrimitiveType::Binary,
        PrimitiveType::Date,
        PrimitiveType::Timestamp,
        PrimitiveType::TimestampNtz,
    ][tag]
}

/// Is it a null of the type with the tag?
pub open spec fn is_null_with_tag(expr: Expression, tag: u8, precision: u8, scale: u8) -> bool {
    match expr {
        Expression::Literal(Scalar::Null(DataType::Primitive(p))) => if tag <= 11 {
            p == primitive_of_tag(tag as int)
        } else {
            match p {
                PrimitiveType::Decimal(t) => tag == 12 && t.spec_precision() == precision
                    && t.spec_scale() == scale,
                _ => false,
            }
        },
        _ => false,
    }
}

/// A visit of a typed null gives a null of the type with the tag. It fails exactly for a tag without a primitive type, and
/// for a decimal whose precision or scale is out of range.
pub proof fn law_typed_nulls(
    state: &mut KernelExpressionVisitorState,
    tag: u8,
    precision: u8,
    scale: u8,
    r: DeltaResult<usize>,
)
    requires
        state@.valid(),
        state@.has_room(1),
        call_ensures(visit_expression_literal_null, (state, tag, precision, scale), r),
    ensures
        r is Ok <==> tag <= 11 || (tag == 12 && 1 <= precision <= 38 && scale <= precision),
        r is Err ==> final(state)@ == old(state)@,
        r is Err && tag == 12 ==> r->Err_0@ is InvalidDecimal,
        r is Err && 12 < tag && tag < 255 ==> r->Err_0@ == crate::error::ErrorView::Generic(
            "Unrecognized null type tag: "@ + crate::text::decimal(tag as nat),
        ),
        r is Err && tag == 255 ==> r->Err_0@ == crate::error::ErrorView::Generic(
            "Non-primitive null types (struct, array, map, variant) cannot be reconstructed from a type tag. Use opaque expressions or a schema visitor instead."@,
        ),
        r is Ok ==> exists|expr: Expression| #[trigger]
            is_null_with_tag(expr, tag, precision, scale) && gave(
                old(state)@,
                final(state)@,
                r->Ok_0,
                ExpressionOrPredicate::Expression(expr),
                |id: usize| false,
            ),
{
    if r is Ok {
        let expr = choose|expr: Expression| #[trigger]
            crate::ffi::kernel_visitor::is_null_of(expr, tag, precision, scale) && (
            final(state)@,
            r->Ok_0,
            ) == crate::ffi::kernel_visitor::put_expression(old(state)@, Some(expr));
        assert(is_null_with_tag(expr, tag, precision, scale));
    }
}

/// The root of what an engine built is taken out of the state once. Without it there is an error.
pub proof fn law_roots_are_taken_out(
    state: &mut KernelExpressionVisitorState,
    id: usize,
    expr: DeltaResult<Expression>,
    pred: DeltaResult<Predicate>,
    child: Option<Expression>,
    condition: Option<Predicate>,
)
    ensures
        call_ensures(visit_engine_expression, (state, id), expr) ==> {
            &&& expr is Ok <==> expression_at(old(state)@, id) is Some
            &&& expr is Ok ==> expression_at(old(state)@, id) == Some(expr->Ok_0)
            &&& !final(state)@.map.contains_key(id)
            &&& only_gone(old(state)@, final(state)@, |other: usize| other == id)
        },
        call_ensures(visit_engine_predicate, (state, id), pred) ==> {
            &&& pred is Ok <==> predicate_at(old(state)@, id) is Some
            &&& pred is Ok ==> predicate_at(old(state)@, id) == Some(pred->Ok_0)
            &&& !final(state)@.map.contains_key(id)
            &&& only_gone(old(state)@, final(state)@, |other: usize| other == id)
        },
        call_ensures(unwrap_kernel_expression, (state, id), child) ==> child == expression_at(
            old(state)@,
            id,
        ) && only_gone(old(state)@, final(state)@, |other: usize| other == id),
        call_ensures(unwrap_kernel_predicate, (state, id), condition) ==> condition == predicate_at(
            old(state)@,
            id,
        ) && only_gone(old(state)@, final(state)@, |other: usize| other == id),
{
}

/// Does the child not occur before in the list?
pub open spec fn is_first_use(children: Seq<usize>, i: int) -> bool {
    forall|j: int| 0 <= j < i ==> #[trigger] children[j] != children[i]
}

/// Are these the children that are there, in order, each at its first use? `places` tells which child each of them is.
pub open spec fn are_children<T>(
    found: Seq<T>,
    children: Seq<usize>,
    child: spec_fn(usize) -> Option<T>,
    places: Seq<int>,
) -> bool {
    &&& places.len() == found.len()
    &&& forall|k: int|
        0 <= k < found.len() ==> 0 <= #[trigger] places[k] < children.len() && is_first_use(
            children,
            places[k],
        ) && child(children[places[k]]) == Some(found[k])
    &&& forall|k: int, l: int| 0 <= k < l < found.len() ==> #[trigger] places[k] < #[trigger] places[l]
    &&& forall|i: int|
        0 <= i < children.len() && is_first_use(children, i) && child(#[trigger] children[i]) is Some
            ==> places.contains(i)
}

proof fn lemma_without_all(state: StateView, ids: Seq<usize>, id: usize)
    ensures
        ({
            let after = crate::ffi::kernel_visitor::without_all(state, ids);
            &&& after.next_id == state.next_id
            &&& after.map.contains_key(id) <==> state.map.contains_key(id) && !ids.contains(id)
            &&& after.map.contains_key(id) ==> after.map[id] == state.map[id]
        }),
    decreases ids.len(),
{
    if ids.len() > 0 {
        lemma_without_all(state, ids.drop_last(), id);
        assert(ids.contains(id) <==> ids.drop_last().contains(id) || ids.last() == id) by {
            if ids.contains(id) {
                let i = choose|i: int| 0 <= i < ids.len() && ids[i] == id;
                if i < ids.len() - 1 {
                    assert(ids.drop_last()[i] == id);
                }
            }
            if ids.drop_last().contains(id) {
                let i = choose|i: int| 0 <= i < ids.drop_last().len() && ids.drop_last()[i] == id;
                assert(ids[i] == id);
            }
            if ids.last() == id {
                assert(ids[ids.len() - 1] == id);
            }
        }
    }
}

/// Whether a child is used for the first time does not depend on what follows.
proof fn lemma_first_use(children: Seq<usize>, i: int)
    requires
        0 <= i < children.len(),
    ensures
        i < children.len() - 1 ==> is_first_use(children.drop_last(), i) == is_first_use(
            children,
            i,
        ),
        is_first_use(children, children.len() - 1) <==> !children.drop_last().contains(
            children.last(),
        ),
{
    let rest = children.drop_last();
    let n = rest.len() as int;
    if i < n {
        if is_first_use(rest, i) {
            assert forall|j: int| 0 <= j < i implies #[trigger] children[j] != children[i] by {
                assert(rest[j] != rest[i]);
            }
        }
        if is_first_use(children, i) {
            assert forall|j: int| 0 <= j < i implies #[trigger] rest[j] != rest[i] by {
                assert(children[j] != children[i]);
            }
        }
    }
    if is_first_use(children, n) && rest.contains(children.last()) {
        let j = choose|j: int| 0 <= j < rest.len() && rest[j] == children.last();
        assert(children[j] != children[n]);
    }
    if !rest.contains(children.last()) {
        assert forall|j: int| 0 <= j < n implies #[trigger] children[j] != children[n] by {
            assert(rest[j] == children[j]);
        }
    }
}

proof fn lemma_one_more_child<T>(
    earlier: Seq<T>,
    children: Seq<usize>,
    child: spec_fn(usize) -> Option<T>,
    before: Seq<int>,
) -> (places: Seq<int>)
    requires
        children.len() > 0,
        are_children(earlier, children.drop_last(), child, before),
    ensures
        are_children(
            if !children.drop_last().contains(children.last()) && child(children.last()) is Some {
                earlier.push(child(children.last())->0)
            } else {
                earlier
            },
            children,
            child,
            places,
        ),
{
    let rest = children.drop_last();
    let n = rest.len() as int;
    let last = children.last();
    let more = !rest.contains(last) && child(last) is Some;
    let found = if more {
        earlier.push(child(last)->0)
    } else {
        earlier
    };
    let places = if more {
        before.push(n)
    } else {
        before
    };
    lemma_first_use(children, n);
    assert forall|k: int| 0 <= k < found.len() implies 0 <= #[trigger] places[k] < children.len()
        && is_first_use(children, places[k]) && child(children[places[k]]) == Some(found[k]) by {
        if k < before.len() {
            assert(places[k] == before[k]);
            lemma_first_use(children, before[k]);
            assert(rest[before[k]] == children[before[k]]);
        }
    }
    assert forall|k: int, l: int| 0 <= k < l < found.len() implies #[trigger] places[k]
        < #[trigger] places[l] by {
        assert(places[k] == before[k]);
        if l < before.len() {
            assert(places[l] == before[l]);
        }
    }
    assert forall|i: int|
        0 <= i < children.len() && is_first_use(children, i) && child(
            #[trigger] children[i],
        ) is Some implies places.contains(i) by {
        if i < n {
            lemma_first_use(children, i);
            assert(child(rest[i]) is Some);
            let k = choose|k: int| 0 <= k < before.len() && before[k] == i;
            assert(places[k] == i);
        } else {
            assert(places[places.len() - 1] == i);
        }
    }
    places
}

proof fn lemma_children_predicates(state: StateView, children: Seq<usize>) -> (places: Seq<int>)
    ensures
        are_children(
            crate::ffi::kernel_visitor::all_predicates(state, children),
            children,
            |id: usize| predicate_at(state, id),
            places,
        ),
    decreases children.len(),
{
    let child = |id: usize| predicate_at(state, id);
    if children.len() == 0 {
        Seq::empty()
    } else {
        let before = lemma_children_predicates(state, children.drop_last());
        lemma_without_all(state, children.drop_last(), children.last());
        lemma_one_more_child(
            crate::ffi::kernel_visitor::all_predicates(state, children.drop_last()),
            children,
            child,
            before,
        )
    }
}

proof fn lemma_children_expressions(state: StateView, children: Seq<usize>) -> (places: Seq<int>)
    ensures
        are_children(
            crate::ffi::kernel_visitor::all_expressions(state, children),
            children,
            |id: usize| expression_at(state, id),
            places,
        ),
    decreases children.len(),
{
    let child = |id: usize| expression_at(state, id);
    if children.len() == 0 {
        Seq::empty()
    } else {
        let before = lemma_children_expressions(state, children.drop_last());
        lemma_without_all(state, children.drop_last(), children.last());
        lemma_one_more_child(
            crate::ffi::kernel_visitor::all_expressions(state, children.drop_last()),
            children,
            child,
            before,
        )
    }
}

/// Is it the junction of these predicates?
pub open spec fn joins_all(pred: Predicate, op: JunctionPredicateOp, preds: Seq<Predicate>) -> bool {
    match pred {
        Predicate::Junction { op: o, preds: p } => o == op && p@ == preds,
        _ => false,
    }
}

/// Is it what a visit of a junction gives: the junction of all children that are there, in order, each once?
pub open spec fn gave_junction(
    before: StateView,
    after: StateView,
    r: usize,
    op: JunctionPredicateOp,
    children: Seq<usize>,
) -> bool {
    exists|pred: Predicate, preds: Seq<Predicate>, places: Seq<int>|
        #![trigger joins_all(pred, op, preds), places.len()]
        joins_all(pred, op, preds) && are_children(
            preds,
            children,
            |id: usize| predicate_at(before, id),
            places,
        ) && gave(
            before,
            after,
            r,
            ExpressionOrPredicate::Predicate(pred),
            |id: usize| children.contains(id),
        )
}

proof fn lemma_junction(
    before: StateView,
    op: JunctionPredicateOp,
    children: Seq<usize>,
    visited: (StateView, usize),
)
    requires
        before.valid(),
        before.has_room(1),
        crate::ffi::kernel_visitor::junction_visited(before, op, children, visited),
    ensures
        gave_junction(before, visited.0, visited.1, op, children),
{
    let preds = crate::ffi::kernel_visitor::all_predicates(before, children);
    let rest = crate::ffi::kernel_visitor::without_all(before, children);
    let pred = choose|pred: Predicate| #[trigger]
        crate::ffi::kernel_visitor::is_junction(pred, op, preds) && visited
            == crate::ffi::kernel_visitor::put_predicate(rest, Some(pred));
    let places = lemma_children_predicates(before, children);
    assert(joins_all(pred, op, preds));
    assert forall|id: usize| #[trigger]
        rest.map.contains_key(id) <==> before.map.contains_key(id) && !children.contains(id) by {
        lemma_without_all(before, children, id);
    }
    assert forall|id: usize| rest.map.contains_key(id) implies #[trigger] rest.map[id]
        == before.map[id] by {
        lemma_without_all(before, children, id);
    }
    lemma_without_all(before, children, 0);
    assert(gave(
        before,
        visited.0,
        visited.1,
        ExpressionOrPredicate::Predicate(pred),
        |id: usize| children.contains(id),
    ));
    assert(places.len() == preds.len());
}

/// Visits of conjunctions and disjunctions join all children that are there, in order, each once.
pub proof fn law_junctions(
    state: &mut KernelExpressionVisitorState,
    children: Vec<usize>,
    r: usize,
)
    requires
        state@.valid(),
        state@.has_room(1),
    ensures
        call_ensures(visit_predicate_and, (state, &children), r) ==> gave_junction(
            old(state)@,
            final(state)@,
            r,
            JunctionPredicateOp::And,
            children@,
        ),
        call_ensures(visit_predicate_or, (state, &children), r) ==> gave_junction(
            old(state)@,
            final(state)@,
            r,
            JunctionPredicateOp::Or,
            children@,
        ),
{
    if call_ensures(visit_predicate_and, (state, &children), r) {
        lemma_junction(
            old(state)@,
            JunctionPredicateOp::And,
            children@,
            (final(state)@, r),
        );
    }
    if call_ensures(visit_predicate_or, (state, &children), r) {
        lemma_junction(old(state)@, JunctionPredicateOp::Or, children@, (final(state)@, r));
    }
}

/// Is it the struct of these expressions?
pub open spec fn is_made_of(expr: Expression, exprs: Seq<Expression>) -> bool {
    match expr {
        Expression::Struct(fields) => fields@.len() == exprs.len() && forall|i: int|
            0 <= i < exprs.len() ==> *(#[trigger] fields@[i]) == exprs[i],
        _ => false,
    }
}

/// A visit of a struct makes it of all children that are there, in order, each once.
pub proof fn law_structs(
    state: &mut KernelExpressionVisitorState,
    children: Vec<usize>,
    r: usize,
)
    requires
        state@.valid(),
        state@.has_room(1),
        call_ensures(visit_expression_struct, (state, &children), r),
    ensures
        exists|expr: Expression, exprs: Seq<Expression>, places: Seq<int>|
            #![trigger is_made_of(expr, exprs), places.len()]
            is_made_of(expr, exprs) && are_children(
                exprs,
                children@,
                |id: usize| expression_at(old(state)@, id),
                places,
            ) && gave(
                old(state)@,
                final(state)@,
                r,
                ExpressionOrPredicate::Expression(expr),
                |id: usize| children@.contains(id),
            ),
{
    let before = old(state)@;
    let exprs = crate::ffi::kernel_visitor::all_expressions(before, children@);
    let rest = crate::ffi::kernel_visitor::without_all(before, children@);
    let expr = choose|expr: Expression| #[trigger]
        crate::ffi::kernel_visitor::is_struct_of(expr, exprs) && (final(state)@, r)
            == crate::ffi::kernel_visitor::put_expression(rest, Some(expr));
    let places = lemma_children_expressions(before, children@);
    assert(is_made_of(expr, exprs));
    assert forall|id: usize| #[trigger]
        rest.map.contains_key(id) <==> before.map.contains_key(id) && !children@.contains(id) by {
        lemma_without_all(before, children@, id);
    }
    assert forall|id: usize| rest.map.contains_key(id) implies #[trigger] rest.map[id]
        == before.map[id] by {
        lemma_without_all(before, children@, id);
    }
    lemma_without_all(before, children@, 0);
    assert(gave(
        before,
        final(state)@,
        r,
        ExpressionOrPredicate::Expression(expr),
        |id: usize| children@.contains(id),
    ));
    assert(places.len() == exprs.len());
}

/// An identifier under which nothing is kept is named by the error.
pub proof fn law_unknown_roots_are_named(
    state: &mut KernelExpressionVisitorState,
    other: &mut KernelExpressionVisitorState,
    id: usize,
    expr: DeltaResult<crate::expressions::Expression>,
    pred: DeltaResult<crate::expressions::Predicate>,
)
    requires
        call_ensures(crate::ffi::kernel_visitor::visit_engine_expression, (state, id), expr),
        call_ensures(crate::ffi::kernel_visitor::visit_engine_predicate, (other, id), pred),
    ensures
        expr is Err ==> expr->Err_0@ == crate::error::ErrorView::Generic(
            "Invalid expression ID "@ + crate::text::decimal(id as nat)
                + " returned from engine visitor"@,
        ),
        pred is Err ==> pred->Err_0@ == crate::error::ErrorView::Generic(
            "Invalid predicate ID "@ + crate::text::decimal(id as nat)
                + " returned from engine visitor"@,
        ),
{
}

} // verus!
