//! The syntax tree: expressions and statements.

use vstd::prelude::*;

verus! {

/// The operators that stand between two operands.
#[derive(Clone, Copy, Debug, PartialEq, Eq, Structural)]
pub enum BinaryOperator {
    Add,
    Sub,
    Mul,
    Div,
    Mod,
    Eq,
    Ne,
    Lt,
    Le,
    Gt,
    Ge,
    And,
    Or,
    In,
    NotIn,
}

/// The operators that stand before one operand.
#[derive(Clone, Copy, Debug, PartialEq, Eq, Structural)]
pub enum UnaryOperator {
    Not,
    Minus,
}

/// An expression. The entries of a dict literal and the named arguments
/// of a call are kept in the order in which they were written, each name
/// once.
#[derive(Debug, PartialEq)]
pub enum Value {
    String(String),
    FormatString(String),
    Integer(i64),
    Boolean(bool),
    Array(Vec<Value>),
    Dict(Vec<(String, Value)>),
    Identifier(String),
    FunctionCall(String, Vec<Value>, Vec<(String, Value)>),
    MethodCall(Box<Value>, String, Vec<Value>, Vec<(String, Value)>),
    BinaryOp(Box<Value>, BinaryOperator, Box<Value>),
    UnaryOp(UnaryOperator, Box<Value>),
    Subscript(Box<Value>, Box<Value>),
    TernaryOp(Box<Value>, Box<Value>, Box<Value>),
}

/// An expression as a mathematical value.
pub enum ExprView {
    String(Seq<char>),
    FormatString(Seq<char>),
    Integer(i64),
    Boolean(bool),
    Array(Seq<ExprView>),
    Dict(Seq<(Seq<char>, ExprView)>),
    Identifier(Seq<char>),
    FunctionCall(Seq<char>, Seq<ExprView>, Seq<(Seq<char>, ExprView)>),
    MethodCall(Box<ExprView>, Seq<char>, Seq<ExprView>, Seq<(Seq<char>, ExprView)>),
    BinaryOp(Box<ExprView>, BinaryOperator, Box<ExprView>),
    UnaryOp(UnaryOperator, Box<ExprView>),
    Subscript(Box<ExprView>, Box<ExprView>),
    TernaryOp(Box<ExprView>, Box<ExprView>, Box<ExprView>),
}

/// The view of an expression.
pub open spec fn expr_view(e: Value) -> ExprView
    decreases e,
{
    match e {
        Value::String(s) => ExprView::String(s@),
        Value::FormatString(s) => ExprView::FormatString(s@),
        Value::Integer(i) => ExprView::Integer(i),
        Value::Boolean(b) => ExprView::Boolean(b),
        Value::Array(items) => ExprView::Array(expr_views(items@)),
        Value::Dict(entries) => ExprView::Dict(entry_views(entries@)),
        Value::Identifier(s) => ExprView::Identifier(s@),
        Value::FunctionCall(name, args, kwargs) => ExprView::FunctionCall(
            name@,
            expr_views(args@),
            entry_views(kwargs@),
        ),
        Value::MethodCall(object, name, args, kwargs) => ExprView::MethodCall(
            Box::new(expr_view(*object)),
            name@,
            expr_views(args@),
            entry_views(kwargs@),
        ),
        Value::BinaryOp(left, op, right) => ExprView::BinaryOp(
            Box::new(expr_view(*left)),
            op,
            Box::new(expr_view(*right)),
        ),
        Value::UnaryOp(op, operand) => ExprView::UnaryOp(op, Box::new(expr_view(*operand))),
        Value::Subscript(object, index) => ExprView::Subscript(
            Box::new(expr_view(*object)),
            Box::new(expr_view(*index)),
        ),
        Value::TernaryOp(cond, yes, no) => ExprView::TernaryOp(
            Box::new(expr_view(*cond)),
            Box::new(expr_view(*yes)),
            Box::new(expr_view(*no)),
        ),
    }
}

/// The views of a row of expressions.
pub open spec fn expr_views(items: Seq<Value>) -> Seq<ExprView>
    decreases items,
{
    Seq::new(
        items.len(),
        |i: int|
            if 0 <= i < items.len() {
                expr_view(items[i])
            } else {
                ExprView::Boolean(false)
            },
    )
}

/// The views of a row of named expressions.
pub open spec fn entry_views(entries: Seq<(String, Value)>) -> Seq<(Seq<char>, ExprView)>
    decreases entries,
{
    Seq::new(
        entries.len(),
        |i: int|
            if 0 <= i < entries.len() {
                (entries[i].0@, expr_view(entries[i].1))
            } else {
                (Seq::empty(), ExprView::Boolean(false))
            },
    )
}

impl View for Value {
    type V = ExprView;

    open spec fn view(&self) -> ExprView {
        expr_view(*self)
    }
}

/// A statement.
#[derive(Debug, PartialEq)]
pub enum Statement {
    Assignment(String, Value),
    AddAssignment(String, Value),
    Expression(Value),
    /// The condition, the statements of the first branch, the `elif`
    /// branches, each with its condition, and the `else` branch.
    If(Value, Vec<Statement>, Vec<(Value, Vec<Statement>)>, Option<Vec<Statement>>),
    /// The variable, what is iterated over, and the body.
    Foreach(String, Value, Vec<Statement>),
    Break,
    Continue,
}

/// A statement as a mathematical value.
pub enum StmtView {
    Assignment(Seq<char>, ExprView),
    AddAssignment(Seq<char>, ExprView),
    Expression(ExprView),
    If(ExprView, Seq<StmtView>, Seq<(ExprView, Seq<StmtView>)>, Option<Seq<StmtView>>),
    Foreach(Seq<char>, ExprView, Seq<StmtView>),
    Break,
    Continue,
}

/// The view of a statement.
pub open spec fn stmt_view(s: Statement) -> StmtView
    decreases s,
{
    match s {
        Statement::Assignment(name, value) => StmtView::Assignment(name@, value@),
        Statement::AddAssignment(name, value) => StmtView::AddAssignment(name@, value@),
        Statement::Expression(value) => StmtView::Expression(value@),
        Statement::If(cond, then_branch, elif_branches, else_branch) => StmtView::If(
            cond@,
            stmt_views(then_branch@),
            branch_views(elif_branches@),
            match else_branch {
                Some(body) => Some(stmt_views(body@)),
                None => None,
            },
        ),
        Statement::Foreach(var, iterable, body) => StmtView::Foreach(
            var@,
            iterable@,
            stmt_views(body@),
        ),
        Statement::Break => StmtView::Break,
        Statement::Continue => StmtView::Continue,
    }
}

/// The views of a row of statements.
pub open spec fn stmt_views(items: Seq<Statement>) -> Seq<StmtView>
    decreases items,
{
    Seq::new(
        items.len(),
        |i: int|
            if 0 <= i < items.len() {
                stmt_view(items[i])
            } else {
                StmtView::Break
            },
    )
}

/// The views of the `elif` branches of a conditional.
pub open spec fn branch_views(items: Seq<(Value, Vec<Statement>)>) -> Seq<
    (ExprView, Seq<StmtView>),
>
    decreases items,
{
    Seq::new(
        items.len(),
        |i: int|
            if 0 <= i < items.len() {
                (items[i].0@, stmt_views(items[i].1@))
            } else {
                (ExprView::Boolean(false), Seq::empty())
            },
    )
}

impl View for Statement {
    type V = StmtView;

    open spec fn view(&self) -> StmtView {
        stmt_view(*self)
    }
}

} // verus!
