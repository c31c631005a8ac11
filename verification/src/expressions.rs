//! Expressions and predicates over columns.

use std::sync::Arc;

use vstd::prelude::*;

use crate::error::DeltaResult;
use crate::schema::{valid_decimal, ArrayType, DataType, DecimalType, MapType, StructField};
use crate::struct_patch::ExpressionStructPatch;
use crate::text::{characters, lemma_texts_push, split_on, split_text, texts};

verus! {

/// The path of a column: the names of the nested fields that lead to it.
#[derive(Debug, PartialEq, Eq)]
pub struct ColumnName {
    path: Vec<String>,
}

/// A literal value.
#[derive(Debug, PartialEq)]
pub enum Scalar {
    Integer(i32),
    Long(i64),
    Short(i16),
    Byte(i8),
    /// The bits of a 32-bit IEEE 754 number.
    Float(u32),
    /// The bits of a 64-bit IEEE 754 number.
    Double(u64),
    String(String),
    Boolean(bool),
    /// Microseconds since the epoch, adjusted to UTC.
    Timestamp(i64),
    /// Microseconds since the epoch, in no time zone.
    TimestampNtz(i64),
    /// Days since the epoch.
    Date(i32),
    Binary(Vec<u8>),
    Decimal(DecimalData),
    Null(DataType),
    Struct(StructData),
    Array(ArrayData),
    Mapping(MapData),
}

/// A struct value: its fields and one value for each of them.
#[derive(Debug, PartialEq)]
pub struct StructData {
    pub fields: Vec<StructField>,
    pub values: Vec<Scalar>,
}

/// An array value.
#[derive(Debug, PartialEq)]
pub struct ArrayData {
    pub ty: ArrayType,
    pub elements: Vec<Scalar>,
}

/// A map value, as pairs of a key and a value.
#[derive(Debug, PartialEq)]
pub struct MapData {
    pub ty: MapType,
    pub pairs: Vec<(Scalar, Scalar)>,
}

/// A decimal value: an unscaled number and its type.
#[derive(Debug, Clone, Copy, PartialEq, Eq, Structural)]
pub struct DecimalData {
    pub bits: i128,
    pub ty: DecimalType,
}

/// The operators on two expressions that give an expression.
#[derive(Debug, Clone, Copy, PartialEq, Eq, Structural)]
pub enum BinaryExpressionOp {
    Plus,
    Minus,
    Multiply,
    Divide,
}

/// The operators on one expression that give a predicate.
#[derive(Debug, Clone, Copy, PartialEq, Eq, Structural)]
pub enum UnaryPredicateOp {
    IsNull,
}

/// The operators on two expressions that give a predicate.
#[derive(Debug, Clone, Copy, PartialEq, Eq, Structural)]
pub enum BinaryPredicateOp {
    LessThan,
    GreaterThan,
    Equal,
    Distinct,
    In,
}

/// The operators on any number of predicates.
#[derive(Debug, Clone, Copy, PartialEq, Eq, Structural)]
pub enum JunctionPredicateOp {
    And,
    Or,
}

/// An expression that is shared.
pub type ExpressionRef = Arc<Expression>;

/// A value computed from columns and literals.
#[derive(Debug, PartialEq)]
pub enum Expression {
    Literal(Scalar),
    Column(ColumnName),
    Predicate(Box<Predicate>),
    Struct(Vec<ExpressionRef>),
    StructPatch(ExpressionStructPatch),
    Binary { op: BinaryExpressionOp, left: Box<Expression>, right: Box<Expression> },
    MapToStruct(Box<Expression>),
    Unknown(String),
}

/// A condition on columns and literals.
#[allow(inconsistent_fields)]
#[derive(Debug, PartialEq)]
pub enum Predicate {
    BooleanExpression(Expression),
    Not(Box<Predicate>),
    Unary { op: UnaryPredicateOp, expr: Box<Expression> },
    Binary { op: BinaryPredicateOp, left: Box<Expression>, right: Box<Expression> },
    Junction { op: JunctionPredicateOp, preds: Vec<Predicate> },
    Unknown(String),
}

impl View for ColumnName {
    type V = Seq<Seq<char>>;

    closed spec fn view(&self) -> Seq<Seq<char>> {
        texts(self.path@)
    }
}

/// Is the name of a field written without backticks?
pub open spec fn plain_field_name(name: Seq<char>) -> bool {
    &&& name.len() > 0
    &&& !('0' <= name[0] && name[0] <= '9')
    &&& forall|i: int| 0 <= i < name.len() ==> simple_char(#[trigger] name[i])
}

/// A letter, a digit or an underscore.
pub open spec fn simple_char(c: char) -> bool {
    ('a' <= c && c <= 'z') || ('A' <= c && c <= 'Z') || ('0' <= c && c <= '9') || c == '_'
}

/// The name with each backtick doubled.
pub open spec fn doubled_backticks(name: Seq<char>) -> Seq<char>
    decreases name.len(),
{
    if name.len() == 0 {
        Seq::empty()
    } else if name.last() == '`' {
        doubled_backticks(name.drop_last()).push('`').push('`')
    } else {
        doubled_backticks(name.drop_last()).push(name.last())
    }
}

/// How the name of a field is written: in backticks unless it is plain.
pub open spec fn field_text(name: Seq<char>) -> Seq<char> {
    if plain_field_name(name) {
        name
    } else {
        seq!['`'] + doubled_backticks(name) + seq!['`']
    }
}

/// How a path is written: the names of its fields, with dots between them.
pub open spec fn path_text(path: Seq<Seq<char>>) -> Seq<char>
    decreases path.len(),
{
    if path.len() == 0 {
        Seq::empty()
    } else if path.len() == 1 {
        field_text(path[0])
    } else {
        path_text(path.drop_last()) + seq!['.'] + field_text(path.last())
    }
}

fn is_simple_char(c: char) -> (r: bool)
    ensures
        r == simple_char(c),
{
    ('a' <= c && c <= 'z') || ('A' <= c && c <= 'Z') || ('0' <= c && c <= '9') || c == '_'
}

fn is_plain_field_name(name: &Vec<char>) -> (r: bool)
    ensures
        r == plain_field_name(name@),
{
    if name.len() == 0 {
        return false;
    }
    if '0' <= name[0] && name[0] <= '9' {
        return false;
    }
    let mut i: usize = 0;
    while i < name.len()
        invariant
            i <= name@.len(),
            forall|k: int| 0 <= k < i ==> simple_char(#[trigger] name@[k]),
        decreases name@.len() - i,
    {
        if !is_simple_char(name[i]) {
            return false;
        }
        i += 1;
    }
    true
}

/// Appends the name of a field as it is written in a path.
fn push_field_text(out: &mut String, name: &str)
    ensures
        final(out)@ == old(out)@ + field_text(name@),
{
    let ghost start = out@;
    let chars = characters(name);
    if is_plain_field_name(&chars) {
        out.append(name);
        return;
    }
    out.push('`');
    let mut i: usize = 0;
    while i < chars.len()
        invariant
            i <= chars@.len(),
            out@ == start + seq!['`'] + doubled_backticks(chars@.take(i as int)),
        decreases chars@.len() - i,
    {
        let c = chars[i];
        i += 1;
        assert(chars@.take(i as int).drop_last() =~= chars@.take(i - 1));
        out.push(c);
        if c == '`' {
            out.push(c);
        }
        assert(out@ =~= start + seq!['`'] + doubled_backticks(chars@.take(i as int)));
    }
    assert(chars@.take(i as int) =~= name@);
    out.push('`');
    assert(out@ =~= start + field_text(name@));
}

impl ColumnName {
    /// The column with the given path.
    pub fn new(path: Vec<String>) -> (r: ColumnName)
        ensures
            r@ == texts(path@),
    {
        ColumnName { path }
    }

    /// The names of the fields that lead to the column.
    pub fn path(&self) -> (r: &Vec<String>)
        ensures
            texts(r@) == self@,
    {
        &self.path
    }

    /// The column whose path is the pieces of `name` between its dots. A dot in the name of a
    /// field cannot be told from a separator here.
    pub fn from_naive_str_split(name: &str) -> (r: ColumnName)
        ensures
            r@ == split_on(name@, '.'),
    {
        ColumnName { path: split_text(name, '.') }
    }

    /// The column that `right` names inside this one.
    pub fn join(&self, right: &ColumnName) -> (r: ColumnName)
        ensures
            r@ == self@ + right@,
    {
        let mut path: Vec<String> = Vec::new();
        let mut i: usize = 0;
        while i < self.path.len()
            invariant
                i <= self.path@.len(),
                texts(path@) == texts(self.path@).take(i as int),
            decreases self.path@.len() - i,
        {
            broadcast use lemma_texts_push;

            path.push(self.path[i].clone());
            i += 1;
            assert(texts(path@) =~= texts(self.path@).take(i as int));
        }
        assert(texts(path@) =~= self@);
        i = 0;
        while i < right.path.len()
            invariant
                i <= right.path@.len(),
                texts(path@) == self@ + texts(right.path@).take(i as int),
            decreases right.path@.len() - i,
        {
            broadcast use lemma_texts_push;

            path.push(right.path[i].clone());
            i += 1;
            assert(texts(path@) =~= self@ + texts(right.path@).take(i as int));
        }
        assert(texts(path@) =~= self@ + right@);
        ColumnName { path }
    }

    /// A copy of the name.
    pub fn copy(&self) -> (r: ColumnName)
        ensures
            r@ == self@,
    {
        let empty = ColumnName { path: Vec::new() };
        let r = self.join(&empty);
        assert(r@ =~= self@);
        r
    }

    /// The path as text: the names with dots between them, each name that is not plain in
    /// backticks.
    pub fn to_text(&self) -> (r: String)
        ensures
            r@ == path_text(self@),
    {
        let mut out = String::new();
        let mut i: usize = 0;
        while i < self.path.len()
            invariant
                i <= self.path@.len(),
                out@ == path_text(self@.take(i as int)),
            decreases self.path@.len() - i,
        {
            if i > 0 {
                out.push('.');
            }
            push_field_text(&mut out, self.path[i].as_str());
            i += 1;
            proof {
                assert(self@.take(i as int).drop_last() =~= self@.take(i - 1));
                assert(self@[i - 1] == self.path@[i - 1]@);
                assert(out@ =~= path_text(self@.take(i as int)));
            }
        }
        assert(self@.take(i as int) =~= self@);
        out
    }
}

impl Clone for ColumnName {
    fn clone(&self) -> (r: Self)
        ensures
            r@ == self@,
    {
        self.copy()
    }
}

impl Scalar {
    /// A decimal value of the given precision and scale.
    pub fn decimal(bits: i128, precision: u8, scale: u8) -> (r: DeltaResult<Scalar>)
        ensures
            match r {
                Ok(Scalar::Decimal(d)) => valid_decimal(precision, scale) && d.bits == bits
                    && d.ty.spec_precision() == precision && d.ty.spec_scale() == scale,
                Ok(_) => false,
                Err(e) => !valid_decimal(precision, scale) && e@ is InvalidDecimal,
            },
    {
        match DecimalType::try_new(precision, scale) {
            Ok(ty) => Ok(Scalar::Decimal(DecimalData { bits, ty })),
            Err(e) => Err(e),
        }
    }
}

/// The predicate as an expression: a predicate that only wraps an expression is that expression.
pub open spec fn predicate_as_expression(pred: Predicate) -> Expression {
    match pred {
        Predicate::BooleanExpression(expr) => expr,
        pred => Expression::Predicate(Box::new(pred)),
    }
}

/// The expression as a predicate: an expression that only wraps a predicate is that predicate.
pub open spec fn expression_as_predicate(expr: Expression) -> Predicate {
    match expr {
        Expression::Predicate(pred) => *pred,
        expr => Predicate::BooleanExpression(expr),
    }
}

impl Expression {
    /// A literal.
    pub fn literal(value: Scalar) -> (r: Expression)
        ensures
            r == Expression::Literal(value),
    {
        Expression::Literal(value)
    }

    /// A binary expression.
    pub fn binary(op: BinaryExpressionOp, left: Expression, right: Expression) -> (r: Expression)
        ensures
            r == (Expression::Binary { op, left: Box::new(left), right: Box::new(right) }),
    {
        Expression::Binary { op, left: Box::new(left), right: Box::new(right) }
    }

    /// The struct of the expressions.
    pub fn struct_from(exprs: Vec<Expression>) -> (r: Expression)
        ensures
            match r {
                Expression::Struct(fields) => fields@.len() == exprs@.len() && forall|i: int|
                    0 <= i < exprs@.len() ==> *(#[trigger] fields@[i]) == exprs@[i],
                _ => false,
            },
    {
        let mut fields: Vec<ExpressionRef> = Vec::new();
        for expr in iter: exprs
            invariant
                iter.seq() == exprs@,
                fields@.len() == iter.index(),
                forall|i: int| 0 <= i < fields@.len() ==> *(#[trigger] fields@[i]) == exprs@[i],
        {
            fields.push(Arc::new(expr));
        }
        Expression::Struct(fields)
    }

    /// A predicate as an expression.
    pub fn from_pred(pred: Predicate) -> (r: Expression)
        ensures
            r == predicate_as_expression(pred),
    {
        match pred {
            Predicate::BooleanExpression(expr) => expr,
            pred => Expression::Predicate(Box::new(pred)),
        }
    }
}

impl Predicate {
    /// An expression as a predicate.
    pub fn from_expr(expr: Expression) -> (r: Predicate)
        ensures
            r == expression_as_predicate(expr),
    {
        match expr {
            Expression::Predicate(pred) => *pred,
            expr => Predicate::BooleanExpression(expr),
        }
    }

    /// The negation of a predicate.
    pub fn not(pred: Predicate) -> (r: Predicate)
        ensures
            r == Predicate::Not(Box::new(pred)),
    {
        Predicate::Not(Box::new(pred))
    }

    /// A unary predicate.
    pub fn unary(op: UnaryPredicateOp, expr: Expression) -> (r: Predicate)
        ensures
            r == (Predicate::Unary { op, expr: Box::new(expr) }),
    {
        Predicate::Unary { op, expr: Box::new(expr) }
    }

    /// A binary predicate.
    pub fn binary(op: BinaryPredicateOp, left: Expression, right: Expression) -> (r: Predicate)
        ensures
            r == (Predicate::Binary { op, left: Box::new(left), right: Box::new(right) }),
    {
        Predicate::Binary { op, left: Box::new(left), right: Box::new(right) }
    }

    /// The conjunction or disjunction of any number of predicates.
    pub fn junction(op: JunctionPredicateOp, preds: Vec<Predicate>) -> (r: Predicate)
        ensures
            r == (Predicate::Junction { op, preds }),
    {
        Predicate::Junction { op, preds }
    }
}

} // verus!
