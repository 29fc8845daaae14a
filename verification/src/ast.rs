//! The syntax tree the emitter consumes.  The tree arrives finished and
//! semantically valid from the upstream parser and checker; the emitter only
//! reads it, so the types carry no invariant beyond their shape.

use vstd::prelude::*;

verus! {

/// A binary operator of the source language.  The two pipe operators are not
/// emitted as infix operators: they are rewritten into calls before the
/// symbol table is consulted.
#[derive(Clone, Copy, Debug)]
pub enum Operator {
    Add,
    Sub,
    Mul,
    Div,
    Mod,
    Pow,
    Equal,
    NEqual,
    Lt,
    LtEqual,
    Gt,
    GtEqual,
    Concat,
    PipeRight,
    PipeLeft,
}

/// A declared parameter of a function literal: a name and, optionally, a
/// default-value expression that the emitter turns into a guard statement.
#[derive(Debug)]
pub struct Parameter {
    pub name: String,
    pub default: Option<Expression>,
}

/// An `elseif`/`else` clause of an [`IfNode`]: a conditional clause carries
/// `Some` condition, the final `else` carries `None`.
#[derive(Debug)]
pub struct IfClause {
    pub condition: Option<Expression>,
    pub body: Expression,
}

/// An `if` chain: the first condition and body, then the further clauses in
/// source order.
#[derive(Debug)]
pub struct IfNode {
    pub condition: Expression,
    pub body: Expression,
    pub elses: Option<Vec<IfClause>>,
}

/// An expression of the source language.
///
/// Blocks and function bodies are value-producing here even though the
/// target language only has statements; the emitter reconciles the two by
/// rewriting tail positions.  Numeric literals keep the textual form chosen
/// upstream for non-integer numbers (`Number`), since the emitter reprints
/// such a literal verbatim.
#[derive(Debug)]
pub enum Expression {
    /// An integer literal.
    Int(i64),
    /// A non-integer numeric literal, carried as its decimal text.
    Number(String),
    /// A string literal (unescaped; the emitter quotes and escapes it).
    Str(String),
    /// A boolean literal.
    Bool(bool),
    /// A reference to a name.
    Identifier(String),
    /// A call: callee, then the arguments in source order.
    Call(Box<Expression>, Vec<Expression>),
    /// A binary operation.
    Binary { left: Box<Expression>, op: Operator, right: Box<Expression> },
    /// A sequence of statements usable as a value: the value of the block is
    /// the value of its last statement.
    Block(Vec<Statement>),
    /// An anonymous function literal.
    Function { params: Vec<Parameter>, body: Box<Expression> },
}

/// A statement of the source language.
#[derive(Debug)]
pub enum Statement {
    /// An expression evaluated for its effect; the value is discarded.
    Expression(Expression),
    /// A `return`, with or without a value.
    Return(Option<Expression>),
    /// A variable definition, with or without an initializer.
    Definition { left: Expression, right: Option<Expression> },
    /// A constant definition; the initializer is mandatory.
    ConstDefinition { left: Expression, right: Expression },
    /// An assignment to an existing target.
    Assignment { left: Expression, right: Expression },
    /// An `if` chain used as a statement.
    If(IfNode),
}

} // verus!
