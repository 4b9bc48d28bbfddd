//! The plan language: one closed set of node kinds for scalar expressions and
//! relational operators. Children are ids of other nodes, never inline
//! subtrees, so plans can share sub-plans.

use vstd::prelude::*;

use crate::binder::{same_table, CreateTable, ExtSource};
use crate::catalog::{ColumnRefId, TableRefId};
use crate::types::{same_value, ColumnIndex, DataTypeKind, DataValue, DateTimeField};

verus! {

/// The id of a node: its position in the arena that holds it.
pub type Id = usize;

/// A node of the plan language.
#[derive(Debug, Clone, Hash)]
pub enum Expr {
    /// a literal value: null, true, 1, "hello", ...
    Constant(DataValue),
    /// a data type, as `cast` takes it
    Type(DataTypeKind),
    /// a column of a table
    Column(ColumnRefId),
    /// a table
    Table(TableRefId),
    /// a position in the output of a plan
    ColumnIndex(ColumnIndex),
    /// an external source of rows
    ExtSource(ExtSource),
    /// `(ref expr)`: refers to an expression as a column
    Ref(Id),
    /// `(list ...)`
    List(Vec<Id>),
    Add(Id, Id),
    Sub(Id, Id),
    Mul(Id, Id),
    Div(Id, Id),
    Mod(Id, Id),
    StringConcat(Id, Id),
    Gt(Id, Id),
    Lt(Id, Id),
    GtEq(Id, Id),
    LtEq(Id, Id),
    Eq(Id, Id),
    NotEq(Id, Id),
    And(Id, Id),
    Or(Id, Id),
    Xor(Id, Id),
    Like(Id, Id),
    Neg(Id),
    Not(Id),
    IsNull(Id),
    /// `(if cond then else)`
    If(Id, Id, Id),
    /// `(extract field expr)`
    Extract(Id, Id),
    Field(DateTimeField),
    /// `(replace expr pattern replacement)`
    Replace(Id, Id, Id),
    /// `(substring expr start length)`
    Substring(Id, Id, Id),
    Max(Id),
    Min(Id),
    Sum(Id),
    Avg(Id),
    Count(Id),
    RowCount,
    First(Id),
    Last(Id),
    /// `(over window_function [partition_key..] [order_key..])`
    Over(Id, Id, Id),
    RowNumber,
    Exists(Id),
    In(Id, Id),
    /// `(cast type expr)`
    Cast(Id, Id),
    /// `(scan table [column..] filter)`
    Scan(Id, Id, Id),
    /// `(internal table [column..])`
    Internal(Id, Id),
    /// `(values [expr..]..)`
    Values(Vec<Id>),
    /// `(proj [expr..] child)`
    Proj(Id, Id),
    /// `(filter expr child)`
    Filter(Id, Id),
    /// `(order [order_key..] child)`
    Order(Id, Id),
    /// `(desc key)`
    Desc(Id),
    /// `(limit limit offset child)`
    Limit(Id, Id, Id),
    /// `(topn limit offset [order_key..] child)`
    TopN(Id, Id, Id, Id),
    /// `(join join_type expr left right)`
    Join(Id, Id, Id, Id),
    /// `(hashjoin join_type [left_expr..] [right_expr..] left right)`
    HashJoin(Id, Id, Id, Id, Id),
    /// `(mergejoin join_type [left_expr..] [right_expr..] left right)`
    MergeJoin(Id, Id, Id, Id, Id),
    Inner,
    LeftOuter,
    RightOuter,
    FullOuter,
    /// `(agg aggs=[expr..] child)`
    Agg(Id, Id),
    /// `(hashagg aggs=[expr..] group_keys=[expr..] child)`
    HashAgg(Id, Id, Id),
    /// `(sortagg aggs=[expr..] group_keys=[expr..] child)`, child ordered by group_keys
    SortAgg(Id, Id, Id),
    /// `(window [over..] child)`
    Window(Id, Id),
    CreateTable(CreateTable),
    /// `(insert table [column..] child)`
    Insert(Id, Id, Id),
    /// `(delete table child)`
    Delete(Id, Id),
    /// `(copy_from dest types)`
    CopyFrom(Id, Id),
    /// `(copy_to dest child)`
    CopyTo(Id, Id),
    /// `(explain child)`
    Explain(Id),
    /// `(empty child..)`: no rows, with the schema of the children
    Empty(Vec<Id>),
    /// a name
    Symbol(String),
}

/// The children of a node, in order.
pub open spec fn children(e: Expr) -> Seq<Id> {
    match e {
        Expr::Constant(_) => seq![],
        Expr::Type(_) => seq![],
        Expr::Column(_) => seq![],
        Expr::Table(_) => seq![],
        Expr::ColumnIndex(_) => seq![],
        Expr::ExtSource(_) => seq![],
        Expr::Ref(a) => seq![a],
        Expr::List(l) => l@,
        Expr::Add(a, b) => seq![a, b],
        Expr::Sub(a, b) => seq![a, b],
        Expr::Mul(a, b) => seq![a, b],
        Expr::Div(a, b) => seq![a, b],
        Expr::Mod(a, b) => seq![a, b],
        Expr::StringConcat(a, b) => seq![a, b],
        Expr::Gt(a, b) => seq![a, b],
        Expr::Lt(a, b) => seq![a, b],
        Expr::GtEq(a, b) => seq![a, b],
        Expr::LtEq(a, b) => seq![a, b],
        Expr::Eq(a, b) => seq![a, b],
        Expr::NotEq(a, b) => seq![a, b],
        Expr::And(a, b) => seq![a, b],
        Expr::Or(a, b) => seq![a, b],
        Expr::Xor(a, b) => seq![a, b],
        Expr::Like(a, b) => seq![a, b],
        Expr::Neg(a) => seq![a],
        Expr::Not(a) => seq![a],
        Expr::IsNull(a) => seq![a],
        Expr::If(a, b, c) => seq![a, b, c],
        Expr::Extract(a, b) => seq![a, b],
        Expr::Field(_) => seq![],
        Expr::Replace(a, b, c) => seq![a, b, c],
        Expr::Substring(a, b, c) => seq![a, b, c],
        Expr::Max(a) => seq![a],
        Expr::Min(a) => seq![a],
        Expr::Sum(a) => seq![a],
        Expr::Avg(a) => seq![a],
        Expr::Count(a) => seq![a],
        Expr::RowCount => seq![],
        Expr::First(a) => seq![a],
        Expr::Last(a) => seq![a],
        Expr::Over(a, b, c) => seq![a, b, c],
        Expr::RowNumber => seq![],
        Expr::Exists(a) => seq![a],
        Expr::In(a, b) => seq![a, b],
        Expr::Cast(a, b) => seq![a, b],
        Expr::Scan(a, b, c) => seq![a, b, c],
        Expr::Internal(a, b) => seq![a, b],
        Expr::Values(l) => l@,
        Expr::Proj(a, b) => seq![a, b],
        Expr::Filter(a, b) => seq![a, b],
        Expr::Order(a, b) => seq![a, b],
        Expr::Desc(a) => seq![a],
        Expr::Limit(a, b, c) => seq![a, b, c],
        Expr::TopN(a, b, c, d) => seq![a, b, c, d],
        Expr::Join(a, b, c, d) => seq![a, b, c, d],
        Expr::HashJoin(a, b, c, d, e) => seq![a, b, c, d, e],
        Expr::MergeJoin(a, b, c, d, e) => seq![a, b, c, d, e],
        Expr::Inner => seq![],
        Expr::LeftOuter => seq![],
        Expr::RightOuter => seq![],
        Expr::FullOuter => seq![],
        Expr::Agg(a, b) => seq![a, b],
        Expr::HashAgg(a, b, c) => seq![a, b, c],
        Expr::SortAgg(a, b, c) => seq![a, b, c],
        Expr::Window(a, b) => seq![a, b],
        Expr::CreateTable(_) => seq![],
        Expr::Insert(a, b, c) => seq![a, b, c],
        Expr::Delete(a, b) => seq![a, b],
        Expr::CopyFrom(a, b) => seq![a, b],
        Expr::CopyTo(a, b) => seq![a, b],
        Expr::Explain(a) => seq![a],
        Expr::Empty(l) => l@,
        Expr::Symbol(_) => seq![],
    }
}

impl Expr {
    /// The children of this node, in order.
    pub fn children(&self) -> (r: Vec<Id>)
        ensures
            r@ == children(*self),
    {
        match self {
            Expr::Constant(_) => Vec::new(),
            Expr::Type(_) => Vec::new(),
            Expr::Column(_) => Vec::new(),
            Expr::Table(_) => Vec::new(),
            Expr::ColumnIndex(_) => Vec::new(),
            Expr::ExtSource(_) => Vec::new(),
            Expr::Ref(a) => vec![*a],
            Expr::List(l) => l.clone(),
            Expr::Add(a, b) => vec![*a, *b],
            Expr::Sub(a, b) => vec![*a, *b],
            Expr::Mul(a, b) => vec![*a, *b],
            Expr::Div(a, b) => vec![*a, *b],
            Expr::Mod(a, b) => vec![*a, *b],
            Expr::StringConcat(a, b) => vec![*a, *b],
            Expr::Gt(a, b) => vec![*a, *b],
            Expr::Lt(a, b) => vec![*a, *b],
            Expr::GtEq(a, b) => vec![*a, *b],
            Expr::LtEq(a, b) => vec![*a, *b],
            Expr::Eq(a, b) => vec![*a, *b],
            Expr::NotEq(a, b) => vec![*a, *b],
            Expr::And(a, b) => vec![*a, *b],
            Expr::Or(a, b) => vec![*a, *b],
            Expr::Xor(a, b) => vec![*a, *b],
            Expr::Like(a, b) => vec![*a, *b],
            Expr::Neg(a) => vec![*a],
            Expr::Not(a) => vec![*a],
            Expr::IsNull(a) => vec![*a],
            Expr::If(a, b, c) => vec![*a, *b, *c],
            Expr::Extract(a, b) => vec![*a, *b],
            Expr::Field(_) => Vec::new(),
            Expr::Replace(a, b, c) => vec![*a, *b, *c],
            Expr::Substring(a, b, c) => vec![*a, *b, *c],
            Expr::Max(a) => vec![*a],
            Expr::Min(a) => vec![*a],
            Expr::Sum(a) => vec![*a],
            Expr::Avg(a) => vec![*a],
            Expr::Count(a) => vec![*a],
            Expr::RowCount => Vec::new(),
            Expr::First(a) => vec![*a],
            Expr::Last(a) => vec![*a],
            Expr::Over(a, b, c) => vec![*a, *b, *c],
            Expr::RowNumber => Vec::new(),
            Expr::Exists(a) => vec![*a],
            Expr::In(a, b) => vec![*a, *b],
            Expr::Cast(a, b) => vec![*a, *b],
            Expr::Scan(a, b, c) => vec![*a, *b, *c],
            Expr::Internal(a, b) => vec![*a, *b],
            Expr::Values(l) => l.clone(),
            Expr::Proj(a, b) => vec![*a, *b],
            Expr::Filter(a, b) => vec![*a, *b],
            Expr::Order(a, b) => vec![*a, *b],
            Expr::Desc(a) => vec![*a],
            Expr::Limit(a, b, c) => vec![*a, *b, *c],
            Expr::TopN(a, b, c, d) => vec![*a, *b, *c, *d],
            Expr::Join(a, b, c, d) => vec![*a, *b, *c, *d],
            Expr::HashJoin(a, b, c, d, e) => vec![*a, *b, *c, *d, *e],
            Expr::MergeJoin(a, b, c, d, e) => vec![*a, *b, *c, *d, *e],
            Expr::Inner => Vec::new(),
            Expr::LeftOuter => Vec::new(),
            Expr::RightOuter => Vec::new(),
            Expr::FullOuter => Vec::new(),
            Expr::Agg(a, b) => vec![*a, *b],
            Expr::HashAgg(a, b, c) => vec![*a, *b, *c],
            Expr::SortAgg(a, b, c) => vec![*a, *b, *c],
            Expr::Window(a, b) => vec![*a, *b],
            Expr::CreateTable(_) => Vec::new(),
            Expr::Insert(a, b, c) => vec![*a, *b, *c],
            Expr::Delete(a, b) => vec![*a, *b],
            Expr::CopyFrom(a, b) => vec![*a, *b],
            Expr::CopyTo(a, b) => vec![*a, *b],
            Expr::Explain(a) => vec![*a],
            Expr::Empty(l) => l.clone(),
            Expr::Symbol(_) => Vec::new(),
        }
    }
}

/// A binary scalar operator.
#[derive(Debug, Clone, Copy, PartialEq, Eq, Structural, Hash)]
pub enum BinaryOperator {
    Plus,
    Minus,
    Multiply,
    Divide,
    Modulo,
    StringConcat,
    Gt,
    Lt,
    GtEq,
    LtEq,
    Eq,
    NotEq,
    And,
    Or,
    Xor,
}

/// A unary scalar operator.
#[derive(Debug, Clone, Copy, PartialEq, Eq, Structural, Hash)]
pub enum UnaryOperator {
    Minus,
    Not,
}

/// The operator and the operands of a binary operator node.
pub open spec fn binary_parts(e: Expr) -> Option<(BinaryOperator, Id, Id)> {
    match e {
        Expr::Add(a, b) => Some((BinaryOperator::Plus, a, b)),
        Expr::Sub(a, b) => Some((BinaryOperator::Minus, a, b)),
        Expr::Mul(a, b) => Some((BinaryOperator::Multiply, a, b)),
        Expr::Div(a, b) => Some((BinaryOperator::Divide, a, b)),
        Expr::Mod(a, b) => Some((BinaryOperator::Modulo, a, b)),
        Expr::StringConcat(a, b) => Some((BinaryOperator::StringConcat, a, b)),
        Expr::Gt(a, b) => Some((BinaryOperator::Gt, a, b)),
        Expr::Lt(a, b) => Some((BinaryOperator::Lt, a, b)),
        Expr::GtEq(a, b) => Some((BinaryOperator::GtEq, a, b)),
        Expr::LtEq(a, b) => Some((BinaryOperator::LtEq, a, b)),
        Expr::Eq(a, b) => Some((BinaryOperator::Eq, a, b)),
        Expr::NotEq(a, b) => Some((BinaryOperator::NotEq, a, b)),
        Expr::And(a, b) => Some((BinaryOperator::And, a, b)),
        Expr::Or(a, b) => Some((BinaryOperator::Or, a, b)),
        Expr::Xor(a, b) => Some((BinaryOperator::Xor, a, b)),
        _ => None,
    }
}

/// The operator and the operand of a unary operator node.
pub open spec fn unary_parts(e: Expr) -> Option<(UnaryOperator, Id)> {
    match e {
        Expr::Neg(a) => Some((UnaryOperator::Minus, a)),
        Expr::Not(a) => Some((UnaryOperator::Not, a)),
        _ => None,
    }
}

/// Whether a node is an aggregate function.
pub open spec fn is_aggregate(e: Expr) -> bool {
    e is RowCount || e is Max || e is Min || e is Sum || e is Avg || e is Count || e is First
        || e is Last
}

impl Expr {
    /// The literal `true`.
    pub fn true_() -> (r: Self)
        ensures
            r == Expr::Constant(DataValue::Bool(true)),
    {
        Expr::Constant(DataValue::Bool(true))
    }

    /// The literal `null`.
    pub fn null() -> (r: Self)
        ensures
            r == Expr::Constant(DataValue::Null),
    {
        Expr::Constant(DataValue::Null)
    }

    /// The literal `0` of type INT.
    pub fn zero() -> (r: Self)
        ensures
            r == Expr::Constant(DataValue::Int32(0)),
    {
        Expr::Constant(DataValue::Int32(0))
    }

    /// The value of a literal node.
    pub fn as_const(&self) -> (r: DataValue)
        requires
            self is Constant,
        ensures
            *self == Expr::Constant(r),
    {
        match self {
            Expr::Constant(v) => v.duplicate(),
            _ => DataValue::Null,
        }
    }

    /// The items of a list node.
    pub fn as_list(&self) -> (r: &[Id])
        requires
            self is List,
        ensures
            r@ == self->List_0@,
    {
        match self {
            Expr::List(l) => l.as_slice(),
            _ => &[],
        }
    }

    /// The column that a column node refers to.
    pub fn as_column(&self) -> (r: ColumnRefId)
        requires
            self is Column,
        ensures
            *self == Expr::Column(r),
    {
        match self {
            Expr::Column(c) => *c,
            _ => ColumnRefId { schema_id: 0, table_id: 0, column_id: 0 },
        }
    }

    /// The table that a table node refers to.
    pub fn as_table(&self) -> (r: TableRefId)
        requires
            self is Table,
        ensures
            *self == Expr::Table(r),
    {
        match self {
            Expr::Table(t) => *t,
            _ => TableRefId { schema_id: 0, table_id: 0 },
        }
    }

    /// The data type of a type node.
    pub fn as_type(&self) -> (r: &DataTypeKind)
        requires
            self is Type,
        ensures
            *self == Expr::Type(*r),
    {
        match self {
            Expr::Type(t) => t,
            _ => &DataTypeKind::Null,
        }
    }

    /// The source of an external-source node.
    pub fn as_ext_source(&self) -> (r: ExtSource)
        requires
            self is ExtSource,
        ensures
            *self == Expr::ExtSource(r),
    {
        match self {
            Expr::ExtSource(v) => v.duplicate(),
            _ => ExtSource { path: String::new() },
        }
    }

    /// The operator and the operands, if this is a binary operator node.
    pub fn binary_op(&self) -> (r: Option<(BinaryOperator, Id, Id)>)
        ensures
            r == binary_parts(*self),
    {
        match self {
            Expr::Add(a, b) => Some((BinaryOperator::Plus, *a, *b)),
            Expr::Sub(a, b) => Some((BinaryOperator::Minus, *a, *b)),
            Expr::Mul(a, b) => Some((BinaryOperator::Multiply, *a, *b)),
            Expr::Div(a, b) => Some((BinaryOperator::Divide, *a, *b)),
            Expr::Mod(a, b) => Some((BinaryOperator::Modulo, *a, *b)),
            Expr::StringConcat(a, b) => Some((BinaryOperator::StringConcat, *a, *b)),
            Expr::Gt(a, b) => Some((BinaryOperator::Gt, *a, *b)),
            Expr::Lt(a, b) => Some((BinaryOperator::Lt, *a, *b)),
            Expr::GtEq(a, b) => Some((BinaryOperator::GtEq, *a, *b)),
            Expr::LtEq(a, b) => Some((BinaryOperator::LtEq, *a, *b)),
            Expr::Eq(a, b) => Some((BinaryOperator::Eq, *a, *b)),
            Expr::NotEq(a, b) => Some((BinaryOperator::NotEq, *a, *b)),
            Expr::And(a, b) => Some((BinaryOperator::And, *a, *b)),
            Expr::Or(a, b) => Some((BinaryOperator::Or, *a, *b)),
            Expr::Xor(a, b) => Some((BinaryOperator::Xor, *a, *b)),
            _ => None,
        }
    }

    /// The operator and the operand, if this is a unary operator node.
    pub fn unary_op(&self) -> (r: Option<(UnaryOperator, Id)>)
        ensures
            r == unary_parts(*self),
    {
        match self {
            Expr::Neg(a) => Some((UnaryOperator::Minus, *a)),
            Expr::Not(a) => Some((UnaryOperator::Not, *a)),
            _ => None,
        }
    }

    /// Whether this node is an aggregate function.
    pub fn is_aggregate_function(&self) -> (r: bool)
        ensures
            r == is_aggregate(*self),
    {
        match self {
            Expr::RowCount | Expr::Max(_) | Expr::Min(_) | Expr::Sum(_) | Expr::Avg(_)
            | Expr::Count(_) | Expr::First(_) | Expr::Last(_) => true,
            _ => false,
        }
    }

    /// Whether this node can stand as a window function: `row_number` or an
    /// aggregate function.
    pub fn is_window_function(&self) -> (r: bool)
        ensures
            r == (*self is RowNumber || is_aggregate(*self)),
    {
        match self {
            Expr::RowNumber => true,
            _ => self.is_aggregate_function(),
        }
    }
}

/// Whether two nodes are structurally identical: the same kind, the same
/// child ids and the same leaf payload.
pub open spec fn same_node(a: Expr, b: Expr) -> bool {
    match (a, b) {
        (Expr::Constant(x), Expr::Constant(y)) => same_value(x, y),
        (Expr::Type(x), Expr::Type(y)) => x == y,
        (Expr::Column(x), Expr::Column(y)) => x == y,
        (Expr::Table(x), Expr::Table(y)) => x == y,
        (Expr::ColumnIndex(x), Expr::ColumnIndex(y)) => x == y,
        (Expr::ExtSource(x), Expr::ExtSource(y)) => x.path@ == y.path@,
        (Expr::Ref(a0), Expr::Ref(b0)) => a0 == b0,
        (Expr::List(x), Expr::List(y)) => x@ == y@,
        (Expr::Add(a0, a1), Expr::Add(b0, b1)) => a0 == b0 && a1 == b1,
        (Expr::Sub(a0, a1), Expr::Sub(b0, b1)) => a0 == b0 && a1 == b1,
        (Expr::Mul(a0, a1), Expr::Mul(b0, b1)) => a0 == b0 && a1 == b1,
        (Expr::Div(a0, a1), Expr::Div(b0, b1)) => a0 == b0 && a1 == b1,
        (Expr::Mod(a0, a1), Expr::Mod(b0, b1)) => a0 == b0 && a1 == b1,
        (Expr::StringConcat(a0, a1), Expr::StringConcat(b0, b1)) => a0 == b0 && a1 == b1,
        (Expr::Gt(a0, a1), Expr::Gt(b0, b1)) => a0 == b0 && a1 == b1,
        (Expr::Lt(a0, a1), Expr::Lt(b0, b1)) => a0 == b0 && a1 == b1,
        (Expr::GtEq(a0, a1), Expr::GtEq(b0, b1)) => a0 == b0 && a1 == b1,
        (Expr::LtEq(a0, a1), Expr::LtEq(b0, b1)) => a0 == b0 && a1 == b1,
        (Expr::Eq(a0, a1), Expr::Eq(b0, b1)) => a0 == b0 && a1 == b1,
        (Expr::NotEq(a0, a1), Expr::NotEq(b0, b1)) => a0 == b0 && a1 == b1,
        (Expr::And(a0, a1), Expr::And(b0, b1)) => a0 == b0 && a1 == b1,
        (Expr::Or(a0, a1), Expr::Or(b0, b1)) => a0 == b0 && a1 == b1,
        (Expr::Xor(a0, a1), Expr::Xor(b0, b1)) => a0 == b0 && a1 == b1,
        (Expr::Like(a0, a1), Expr::Like(b0, b1)) => a0 == b0 && a1 == b1,
        (Expr::Neg(a0), Expr::Neg(b0)) => a0 == b0,
        (Expr::Not(a0), Expr::Not(b0)) => a0 == b0,
        (Expr::IsNull(a0), Expr::IsNull(b0)) => a0 == b0,
        (Expr::If(a0, a1, a2), Expr::If(b0, b1, b2)) => a0 == b0 && a1 == b1 && a2 == b2,
        (Expr::Extract(a0, a1), Expr::Extract(b0, b1)) => a0 == b0 && a1 == b1,
        (Expr::Field(x), Expr::Field(y)) => x == y,
        (Expr::Replace(a0, a1, a2), Expr::Replace(b0, b1, b2)) => a0 == b0 && a1 == b1 && a2 == b2,
        (Expr::Substring(a0, a1, a2), Expr::Substring(b0, b1, b2)) => a0 == b0 && a1 == b1 && a2 == b2,
        (Expr::Max(a0), Expr::Max(b0)) => a0 == b0,
        (Expr::Min(a0), Expr::Min(b0)) => a0 == b0,
        (Expr::Sum(a0), Expr::Sum(b0)) => a0 == b0,
        (Expr::Avg(a0), Expr::Avg(b0)) => a0 == b0,
        (Expr::Count(a0), Expr::Count(b0)) => a0 == b0,
        (Expr::RowCount, Expr::RowCount) => true,
        (Expr::First(a0), Expr::First(b0)) => a0 == b0,
        (Expr::Last(a0), Expr::Last(b0)) => a0 == b0,
        (Expr::Over(a0, a1, a2), Expr::Over(b0, b1, b2)) => a0 == b0 && a1 == b1 && a2 == b2,
        (Expr::RowNumber, Expr::RowNumber) => true,
        (Expr::Exists(a0), Expr::Exists(b0)) => a0 == b0,
        (Expr::In(a0, a1), Expr::In(b0, b1)) => a0 == b0 && a1 == b1,
        (Expr::Cast(a0, a1), Expr::Cast(b0, b1)) => a0 == b0 && a1 == b1,
        (Expr::Scan(a0, a1, a2), Expr::Scan(b0, b1, b2)) => a0 == b0 && a1 == b1 && a2 == b2,
        (Expr::Internal(a0, a1), Expr::Internal(b0, b1)) => a0 == b0 && a1 == b1,
        (Expr::Values(x), Expr::Values(y)) => x@ == y@,
        (Expr::Proj(a0, a1), Expr::Proj(b0, b1)) => a0 == b0 && a1 == b1,
        (Expr::Filter(a0, a1), Expr::Filter(b0, b1)) => a0 == b0 && a1 == b1,
        (Expr::Order(a0, a1), Expr::Order(b0, b1)) => a0 == b0 && a1 == b1,
        (Expr::Desc(a0), Expr::Desc(b0)) => a0 == b0,
        (Expr::Limit(a0, a1, a2), Expr::Limit(b0, b1, b2)) => a0 == b0 && a1 == b1 && a2 == b2,
        (Expr::TopN(a0, a1, a2, a3), Expr::TopN(b0, b1, b2, b3)) => a0 == b0 && a1 == b1 && a2 == b2 && a3 == b3,
        (Expr::Join(a0, a1, a2, a3), Expr::Join(b0, b1, b2, b3)) => a0 == b0 && a1 == b1 && a2 == b2 && a3 == b3,
        (Expr::HashJoin(a0, a1, a2, a3, a4), Expr::HashJoin(b0, b1, b2, b3, b4)) => a0 == b0 && a1 == b1 && a2 == b2 && a3 == b3 && a4 == b4,
        (Expr::MergeJoin(a0, a1, a2, a3, a4), Expr::MergeJoin(b0, b1, b2, b3, b4)) => a0 == b0 && a1 == b1 && a2 == b2 && a3 == b3 && a4 == b4,
        (Expr::Inner, Expr::Inner) => true,
        (Expr::LeftOuter, Expr::LeftOuter) => true,
        (Expr::RightOuter, Expr::RightOuter) => true,
        (Expr::FullOuter, Expr::FullOuter) => true,
        (Expr::Agg(a0, a1), Expr::Agg(b0, b1)) => a0 == b0 && a1 == b1,
        (Expr::HashAgg(a0, a1, a2), Expr::HashAgg(b0, b1, b2)) => a0 == b0 && a1 == b1 && a2 == b2,
        (Expr::SortAgg(a0, a1, a2), Expr::SortAgg(b0, b1, b2)) => a0 == b0 && a1 == b1 && a2 == b2,
        (Expr::Window(a0, a1), Expr::Window(b0, b1)) => a0 == b0 && a1 == b1,
        (Expr::CreateTable(x), Expr::CreateTable(y)) => same_table(x, y),
        (Expr::Insert(a0, a1, a2), Expr::Insert(b0, b1, b2)) => a0 == b0 && a1 == b1 && a2 == b2,
        (Expr::Delete(a0, a1), Expr::Delete(b0, b1)) => a0 == b0 && a1 == b1,
        (Expr::CopyFrom(a0, a1), Expr::CopyFrom(b0, b1)) => a0 == b0 && a1 == b1,
        (Expr::CopyTo(a0, a1), Expr::CopyTo(b0, b1)) => a0 == b0 && a1 == b1,
        (Expr::Explain(a0), Expr::Explain(b0)) => a0 == b0,
        (Expr::Empty(x), Expr::Empty(y)) => x@ == y@,
        (Expr::Symbol(x), Expr::Symbol(y)) => x@ == y@,
        _ => false,
    }
}

/// Whether two lists of ids are equal.
fn same_ids(a: &Vec<Id>, b: &Vec<Id>) -> (r: bool)
    ensures
        r == (a@ == b@),
{
    if a.len() != b.len() {
        return false;
    }
    let mut i: usize = 0;
    while i < a.len()
        invariant
            i <= a@.len() == b@.len(),
            forall|k: int| 0 <= k < i ==> a@[k] == b@[k],
        decreases a@.len() - i,
    {
        if a[i] != b[i] {
            return false;
        }
        i = i + 1;
    }
    assert(a@ =~= b@);
    true
}

impl Expr {
    /// Whether this node is structurally identical to `other`.
    pub fn same_as(&self, other: &Expr) -> (r: bool)
        ensures
            r == same_node(*self, *other),
    {
        match (self, other) {
            (Expr::Constant(x), Expr::Constant(y)) => x.same_as(y),
            (Expr::Type(x), Expr::Type(y)) => *x == *y,
            (Expr::Column(x), Expr::Column(y)) => *x == *y,
            (Expr::Table(x), Expr::Table(y)) => *x == *y,
            (Expr::ColumnIndex(x), Expr::ColumnIndex(y)) => *x == *y,
            (Expr::ExtSource(x), Expr::ExtSource(y)) => x.path == y.path,
            (Expr::Ref(a0), Expr::Ref(b0)) => *a0 == *b0,
            (Expr::List(x), Expr::List(y)) => same_ids(x, y),
            (Expr::Add(a0, a1), Expr::Add(b0, b1)) => *a0 == *b0 && *a1 == *b1,
            (Expr::Sub(a0, a1), Expr::Sub(b0, b1)) => *a0 == *b0 && *a1 == *b1,
            (Expr::Mul(a0, a1), Expr::Mul(b0, b1)) => *a0 == *b0 && *a1 == *b1,
            (Expr::Div(a0, a1), Expr::Div(b0, b1)) => *a0 == *b0 && *a1 == *b1,
            (Expr::Mod(a0, a1), Expr::Mod(b0, b1)) => *a0 == *b0 && *a1 == *b1,
            (Expr::StringConcat(a0, a1), Expr::StringConcat(b0, b1)) => *a0 == *b0 && *a1 == *b1,
            (Expr::Gt(a0, a1), Expr::Gt(b0, b1)) => *a0 == *b0 && *a1 == *b1,
            (Expr::Lt(a0, a1), Expr::Lt(b0, b1)) => *a0 == *b0 && *a1 == *b1,
            (Expr::GtEq(a0, a1), Expr::GtEq(b0, b1)) => *a0 == *b0 && *a1 == *b1,
            (Expr::LtEq(a0, a1), Expr::LtEq(b0, b1)) => *a0 == *b0 && *a1 == *b1,
            (Expr::Eq(a0, a1), Expr::Eq(b0, b1)) => *a0 == *b0 && *a1 == *b1,
            (Expr::NotEq(a0, a1), Expr::NotEq(b0, b1)) => *a0 == *b0 && *a1 == *b1,
            (Expr::And(a0, a1), Expr::And(b0, b1)) => *a0 == *b0 && *a1 == *b1,
            (Expr::Or(a0, a1), Expr::Or(b0, b1)) => *a0 == *b0 && *a1 == *b1,
            (Expr::Xor(a0, a1), Expr::Xor(b0, b1)) => *a0 == *b0 && *a1 == *b1,
            (Expr::Like(a0, a1), Expr::Like(b0, b1)) => *a0 == *b0 && *a1 == *b1,
            (Expr::Neg(a0), Expr::Neg(b0)) => *a0 == *b0,
            (Expr::Not(a0), Expr::Not(b0)) => *a0 == *b0,
            (Expr::IsNull(a0), Expr::IsNull(b0)) => *a0 == *b0,
            (Expr::If(a0, a1, a2), Expr::If(b0, b1, b2)) => *a0 == *b0 && *a1 == *b1 && *a2 == *b2,
            (Expr::Extract(a0, a1), Expr::Extract(b0, b1)) => *a0 == *b0 && *a1 == *b1,
            (Expr::Field(x), Expr::Field(y)) => *x == *y,
            (Expr::Replace(a0, a1, a2), Expr::Replace(b0, b1, b2)) => *a0 == *b0 && *a1 == *b1 && *a2 == *b2,
            (Expr::Substring(a0, a1, a2), Expr::Substring(b0, b1, b2)) => *a0 == *b0 && *a1 == *b1 && *a2 == *b2,
            (Expr::Max(a0), Expr::Max(b0)) => *a0 == *b0,
            (Expr::Min(a0), Expr::Min(b0)) => *a0 == *b0,
            (Expr::Sum(a0), Expr::Sum(b0)) => *a0 == *b0,
            (Expr::Avg(a0), Expr::Avg(b0)) => *a0 == *b0,
            (Expr::Count(a0), Expr::Count(b0)) => *a0 == *b0,
            (Expr::RowCount, Expr::RowCount) => true,
            (Expr::First(a0), Expr::First(b0)) => *a0 == *b0,
            (Expr::Last(a0), Expr::Last(b0)) => *a0 == *b0,
            (Expr::Over(a0, a1, a2), Expr::Over(b0, b1, b2)) => *a0 == *b0 && *a1 == *b1 && *a2 == *b2,
            (Expr::RowNumber, Expr::RowNumber) => true,
            (Expr::Exists(a0), Expr::Exists(b0)) => *a0 == *b0,
            (Expr::In(a0, a1), Expr::In(b0, b1)) => *a0 == *b0 && *a1 == *b1,
            (Expr::Cast(a0, a1), Expr::Cast(b0, b1)) => *a0 == *b0 && *a1 == *b1,
            (Expr::Scan(a0, a1, a2), Expr::Scan(b0, b1, b2)) => *a0 == *b0 && *a1 == *b1 && *a2 == *b2,
            (Expr::Internal(a0, a1), Expr::Internal(b0, b1)) => *a0 == *b0 && *a1 == *b1,
            (Expr::Values(x), Expr::Values(y)) => same_ids(x, y),
            (Expr::Proj(a0, a1), Expr::Proj(b0, b1)) => *a0 == *b0 && *a1 == *b1,
            (Expr::Filter(a0, a1), Expr::Filter(b0, b1)) => *a0 == *b0 && *a1 == *b1,
            (Expr::Order(a0, a1), Expr::Order(b0, b1)) => *a0 == *b0 && *a1 == *b1,
            (Expr::Desc(a0), Expr::Desc(b0)) => *a0 == *b0,
            (Expr::Limit(a0, a1, a2), Expr::Limit(b0, b1, b2)) => *a0 == *b0 && *a1 == *b1 && *a2 == *b2,
            (Expr::TopN(a0, a1, a2, a3), Expr::TopN(b0, b1, b2, b3)) => *a0 == *b0 && *a1 == *b1 && *a2 == *b2 && *a3 == *b3,
            (Expr::Join(a0, a1, a2, a3), Expr::Join(b0, b1, b2, b3)) => *a0 == *b0 && *a1 == *b1 && *a2 == *b2 && *a3 == *b3,
            (Expr::HashJoin(a0, a1, a2, a3, a4), Expr::HashJoin(b0, b1, b2, b3, b4)) => *a0 == *b0 && *a1 == *b1 && *a2 == *b2 && *a3 == *b3 && *a4 == *b4,
            (Expr::MergeJoin(a0, a1, a2, a3, a4), Expr::MergeJoin(b0, b1, b2, b3, b4)) => *a0 == *b0 && *a1 == *b1 && *a2 == *b2 && *a3 == *b3 && *a4 == *b4,
            (Expr::Inner, Expr::Inner) => true,
            (Expr::LeftOuter, Expr::LeftOuter) => true,
            (Expr::RightOuter, Expr::RightOuter) => true,
            (Expr::FullOuter, Expr::FullOuter) => true,
            (Expr::Agg(a0, a1), Expr::Agg(b0, b1)) => *a0 == *b0 && *a1 == *b1,
            (Expr::HashAgg(a0, a1, a2), Expr::HashAgg(b0, b1, b2)) => *a0 == *b0 && *a1 == *b1 && *a2 == *b2,
            (Expr::SortAgg(a0, a1, a2), Expr::SortAgg(b0, b1, b2)) => *a0 == *b0 && *a1 == *b1 && *a2 == *b2,
            (Expr::Window(a0, a1), Expr::Window(b0, b1)) => *a0 == *b0 && *a1 == *b1,
            (Expr::CreateTable(x), Expr::CreateTable(y)) => x.same_as(y),
            (Expr::Insert(a0, a1, a2), Expr::Insert(b0, b1, b2)) => *a0 == *b0 && *a1 == *b1 && *a2 == *b2,
            (Expr::Delete(a0, a1), Expr::Delete(b0, b1)) => *a0 == *b0 && *a1 == *b1,
            (Expr::CopyFrom(a0, a1), Expr::CopyFrom(b0, b1)) => *a0 == *b0 && *a1 == *b1,
            (Expr::CopyTo(a0, a1), Expr::CopyTo(b0, b1)) => *a0 == *b0 && *a1 == *b1,
            (Expr::Explain(a0), Expr::Explain(b0)) => *a0 == *b0,
            (Expr::Empty(x), Expr::Empty(y)) => same_ids(x, y),
            (Expr::Symbol(x), Expr::Symbol(y)) => *x == *y,
            _ => false,
        }
    }
}

/// Every node is structurally identical to itself.
pub proof fn lemma_same_node_reflexive(e: Expr)
    ensures
        same_node(e, e),
{
}

/// The position of the first node of `nodes` that is structurally identical
/// to `node`, if there is one.
pub open spec fn find_node(nodes: Seq<Expr>, node: Expr) -> Option<int> {
    if exists|i: int| 0 <= i < nodes.len() && same_node(nodes[i], node) {
        Some(
            choose|i: int|
                0 <= i < nodes.len() && same_node(nodes[i], node) && forall|k: int|
                    0 <= k < i ==> !same_node(nodes[k], node),
        )
    } else {
        None
    }
}

/// Where one node of `nodes` is identical to `node`, a first one is.
proof fn lemma_first_match_exists(nodes: Seq<Expr>, node: Expr, w: int)
    requires
        0 <= w < nodes.len(),
        same_node(nodes[w], node),
    ensures
        exists|i: int|
            0 <= i < nodes.len() && same_node(nodes[i], node) && forall|k: int|
                0 <= k < i ==> !same_node(nodes[k], node),
    decreases w,
{
    if exists|k: int| 0 <= k < w && same_node(nodes[k], node) {
        let k = choose|k: int| 0 <= k < w && same_node(nodes[k], node);
        lemma_first_match_exists(nodes, node, k);
    } else {
        assert(0 <= w < nodes.len() && same_node(nodes[w], node) && forall|k: int|
            0 <= k < w ==> !same_node(nodes[k], node));
    }
}

/// `find_node` gives the first node identical to `node`, and nothing where
/// there is none.
pub proof fn lemma_find_node(nodes: Seq<Expr>, node: Expr)
    ensures
        find_node(nodes, node) matches Some(i) ==> 0 <= i < nodes.len() && same_node(nodes[i], node)
            && forall|k: int| 0 <= k < i ==> !same_node(nodes[k], node),
        find_node(nodes, node) is None ==> forall|i: int|
            0 <= i < nodes.len() ==> !same_node(nodes[i], node),
{
    if exists|i: int| 0 <= i < nodes.len() && same_node(nodes[i], node) {
        let w = choose|i: int| 0 <= i < nodes.len() && same_node(nodes[i], node);
        lemma_first_match_exists(nodes, node, w);
    }
}

/// The arena and the id after adding `node` to `nodes`: the id of an
/// identical node already there, else the node is appended.
pub open spec fn added(nodes: Seq<Expr>, node: Expr) -> (Seq<Expr>, int) {
    match find_node(nodes, node) {
        Some(i) => (nodes, i),
        None => (nodes.push(node), nodes.len() as int),
    }
}

/// Adding a node is canonical: adding the same node a second time returns
/// the id of the first and leaves the arena as it is.
pub proof fn lemma_add_twice(nodes: Seq<Expr>, node: Expr)
    ensures
        ({
            let (first, id1) = added(nodes, node);
            let (second, id2) = added(first, node);
            second == first && id2 == id1
        }),
{
    let (first, id1) = added(nodes, node);
    match find_node(nodes, node) {
        Some(i) => {},
        None => {
            lemma_same_node_reflexive(node);
            let n = nodes.len() as int;
            assert(first[n] == node);
            assert forall|k: int| 0 <= k < n implies !same_node(first[k], node) by {
                assert(first[k] == nodes[k]);
            }
            assert(0 <= n < first.len() && same_node(first[n], node) && forall|k: int|
                0 <= k < n ==> !same_node(first[k], node));
            let j = find_node(first, node)->Some_0;
            if j < n {
                assert(!same_node(first[j], node));
            }
        },
    }
}

/// Every child of every node stands before it in `nodes`.
pub open spec fn children_before(nodes: Seq<Expr>) -> bool {
    forall|i: int, k: int|
        #![trigger children(nodes[i])[k]]
        0 <= i < nodes.len() && 0 <= k < children(nodes[i]).len() ==> children(nodes[i])[k] < i
}

/// A plan held as an arena of nodes, where the id of a node is its position
/// and the last node is the root.
#[derive(Debug, Clone)]
pub struct RecExpr {
    pub nodes: Vec<Expr>,
}

impl RecExpr {
    /// The children of each node stand before it.
    pub open spec fn wf(&self) -> bool {
        children_before(self.nodes@)
    }

    pub fn new() -> (r: RecExpr)
        ensures
            r.nodes@.len() == 0,
            r.wf(),
    {
        RecExpr { nodes: Vec::new() }
    }

    /// Adds a node whose children are already in the arena, and returns its
    /// id: the id of a structurally identical node where the arena holds one,
    /// else the node is appended.
    pub fn add(&mut self, node: Expr) -> (r: Id)
        requires
            old(self).wf(),
            forall|k: int| 0 <= k < children(node).len() ==> children(node)[k] < old(self).nodes@.len(),
        ensures
            final(self).wf(),
            (final(self).nodes@, r as int) == added(old(self).nodes@, node),
    {
        let mut i: usize = 0;
        while i < self.nodes.len()
            invariant
                i <= self.nodes@.len(),
                self.nodes@ == old(self).nodes@,
                self.wf(),
                forall|k: int| 0 <= k < i ==> !same_node(self.nodes@[k], node),
            decreases self.nodes@.len() - i,
        {
            if self.nodes[i].same_as(&node) {
                proof {
                    let ns = self.nodes@;
                    let ii = i as int;
                    assert(0 <= ii < ns.len() && same_node(ns[ii], node) && forall|k: int|
                        0 <= k < ii ==> !same_node(ns[k], node));
                    let j = find_node(ns, node)->Some_0;
                    if j < ii {
                        assert(!same_node(ns[j], node));
                    }
                    if j > ii {
                        assert(!same_node(ns[ii], node));
                    }
                }
                return i;
            }
            i = i + 1;
        }
        let id = self.nodes.len();
        self.nodes.push(node);
        proof {
            assert forall|i: int, k: int|
                #![trigger children(self.nodes@[i])[k]]
                0 <= i < self.nodes@.len() && 0 <= k < children(self.nodes@[i]).len() implies children(
                    self.nodes@[i],
                )[k] < i by {
                if i < id {
                    assert(self.nodes@[i] == old(self).nodes@[i]);
                }
            }
        }
        id
    }

    /// Whether the children of each node stand before it.
    pub fn is_well_formed(&self) -> (r: bool)
        ensures
            r == self.wf(),
    {
        let mut i: usize = 0;
        while i < self.nodes.len()
            invariant
                i <= self.nodes@.len(),
                forall|j: int, k: int|
                    #![trigger children(self.nodes@[j])[k]]
                    0 <= j < i && 0 <= k < children(self.nodes@[j]).len() ==> children(
                        self.nodes@[j],
                    )[k] < j,
            decreases self.nodes@.len() - i,
        {
            let ch = self.nodes[i].children();
            let mut k: usize = 0;
            while k < ch.len()
                invariant
                    i < self.nodes@.len(),
                    k <= ch@.len(),
                    ch@ == children(self.nodes@[i as int]),
                    forall|m: int| 0 <= m < k ==> ch@[m] < i,
                decreases ch@.len() - k,
            {
                if ch[k] >= i {
                    return false;
                }
                k = k + 1;
            }
            i = i + 1;
        }
        true
    }

    /// The number of nodes.
    pub fn len(&self) -> (r: usize)
        ensures
            r == self.nodes@.len(),
    {
        self.nodes.len()
    }

    /// The node with the given id.
    pub fn get(&self, id: Id) -> (r: &Expr)
        requires
            id < self.nodes@.len(),
        ensures
            *r == self.nodes@[id as int],
    {
        &self.nodes[id]
    }
}

/// The items of the first list among the equivalent nodes `class`.
pub fn class_as_list(class: &[Expr]) -> (r: &[Id])
    requires
        exists|i: int| 0 <= i < class@.len() && class@[i] is List,
    ensures
        exists|i: int|
            0 <= i < class@.len() && class@[i] is List && r@ == class@[i]->List_0@ && forall|k: int|
                0 <= k < i ==> !(class@[k] is List),
{
    let mut i: usize = 0;
    while i < class.len()
        invariant
            i <= class@.len(),
            exists|i: int| 0 <= i < class@.len() && class@[i] is List,
            forall|k: int| 0 <= k < i ==> !(class@[k] is List),
        decreases class@.len() - i,
    {
        match &class[i] {
            Expr::List(l) => return l.as_slice(),
            _ => {},
        }
        i = i + 1;
    }
    &[]
}

/// The column of the first column node among the equivalent nodes `class`.
pub fn class_as_column(class: &[Expr]) -> (r: ColumnRefId)
    requires
        exists|i: int| 0 <= i < class@.len() && class@[i] is Column,
    ensures
        exists|i: int|
            0 <= i < class@.len() && class@[i] == Expr::Column(r) && forall|k: int|
                0 <= k < i ==> !(class@[k] is Column),
{
    let mut i: usize = 0;
    while i < class.len()
        invariant
            i <= class@.len(),
            exists|i: int| 0 <= i < class@.len() && class@[i] is Column,
            forall|k: int| 0 <= k < i ==> !(class@[k] is Column),
        decreases class@.len() - i,
    {
        match &class[i] {
            Expr::Column(c) => return *c,
            _ => {},
        }
        i = i + 1;
    }
    ColumnRefId { schema_id: 0, table_id: 0, column_id: 0 }
}

} // verus!
