//! The mathematical model of the emitted text.
//!
//! Every executable rendering function in [`crate::codegen`] is proved equal
//! to one of the spec functions here.  The model mirrors the central design
//! idea of the emitter: a *tail mode* says what the surrounding context does
//! with the value of a statement or block — discard it, return it, or assign
//! it to a target — and the mode is threaded into the tail position of every
//! block and into every branch of an `if` chain.

use vstd::prelude::*;

use crate::ast::{Expression, IfClause, IfNode, Operator, Parameter, Statement};
use crate::text::{dec_int, quote_text};

verus! {

/// A tail mode at the specification level.  The assignment target is carried
/// as the text it renders to.
pub enum TailModeView {
    /// The value is discarded; render for effect only.
    Plain,
    /// The value becomes the result of the enclosing function body.
    TailReturn,
    /// The value is stored into the given target.
    TailAssignTo(Seq<char>),
}

/// The infix symbol of an operator.  The pipe operators have no symbol: they
/// are rewritten into calls before the table is consulted, so the generic
/// path maps them to empty text.
pub open spec fn op_symbol(op: Operator) -> Seq<char> {
    match op {
        Operator::Add => "+"@,
        Operator::Sub => "-"@,
        Operator::Mul => "*"@,
        Operator::Div => "/"@,
        Operator::Mod => "%"@,
        Operator::Pow => "^"@,
        Operator::Equal => "=="@,
        Operator::NEqual => "~="@,
        Operator::Lt => "<"@,
        Operator::LtEqual => "<="@,
        Operator::Gt => ">"@,
        Operator::GtEqual => ">="@,
        Operator::Concat => ".."@,
        Operator::PipeRight => Seq::empty(),
        Operator::PipeLeft => Seq::empty(),
    }
}

/// Whether an expression is a literal or identifier.  Such an operand stands
/// unparenthesized on the right-hand side of a binary operation; every other
/// right-hand operand is parenthesized to guard operator precedence.
pub open spec fn is_atom(e: Expression) -> bool {
    match e {
        Expression::Int(_) => true,
        Expression::Number(_) => true,
        Expression::Str(_) => true,
        Expression::Bool(_) => true,
        Expression::Identifier(_) => true,
        _ => false,
    }
}

/// The text of an expression.
pub open spec fn expr_text(e: Expression) -> Seq<char>
    decreases e, 0int,
{
    match e {
        Expression::Int(n) => dec_int(n as int),
        Expression::Number(t) => t@,
        Expression::Str(s) => quote_text(s@),
        Expression::Bool(b) => if b {
            "true"@
        } else {
            "false"@
        },
        Expression::Identifier(n) => n@,
        Expression::Call(callee, args) => expr_text(*callee) + "("@ + args_text(args@) + ")"@,
        Expression::Binary { left, op, right } => match op {
            Operator::PipeRight => expr_text(*right) + "("@ + expr_text(*left) + ")"@,
            Operator::PipeLeft => expr_text(*left) + "("@ + expr_text(*right) + ")"@,
            _ => expr_text(*left) + op_symbol(op) + (if is_atom(*right) {
                expr_text(*right)
            } else {
                "("@ + expr_text(*right) + ")"@
            }),
        },
        Expression::Block(ss) => block_text(ss@, TailModeView::Plain),
        Expression::Function { params, body } => "function("@ + params_text(params@) + ")\n"@
            + guards_text(params@) + body_text(*body, TailModeView::TailReturn) + "end\n"@,
    }
}

/// The text of a call's argument list: the arguments in order, joined by
/// commas.
pub open spec fn args_text(es: Seq<Expression>) -> Seq<char>
    decreases es, 0int,
{
    if es.len() == 0 {
        Seq::empty()
    } else if es.len() == 1 {
        expr_text(es[0])
    } else {
        args_text(es.drop_last()) + ","@ + expr_text(es.last())
    }
}

/// The text of a parameter list: the declared names in order, joined by
/// commas.
pub open spec fn params_text(ps: Seq<Parameter>) -> Seq<char>
    decreases ps.len(),
{
    if ps.len() == 0 {
        Seq::empty()
    } else if ps.len() == 1 {
        ps[0].name@
    } else {
        params_text(ps.drop_last()) + ","@ + ps.last().name@
    }
}

/// The default-value guard of one parameter: for a parameter with a default,
/// a conditional that assigns the default when the caller passed nothing;
/// for one without, nothing.
pub open spec fn guard_text(p: Parameter) -> Seq<char>
    decreases p, 0int,
{
    match p.default {
        Some(d) => "if "@ + p.name@ + " == nil then\n"@ + p.name@ + " = "@ + expr_text(d)
            + "\nend\n"@,
        None => Seq::empty(),
    }
}

/// The default-value guards of a parameter list, in parameter order.
pub open spec fn guards_text(ps: Seq<Parameter>) -> Seq<char>
    decreases ps, 1int,
{
    if ps.len() == 0 {
        Seq::empty()
    } else {
        guards_text(ps.drop_last()) + guard_text(ps.last())
    }
}

/// The text of a function body: a block is rendered in the given mode; a
/// single non-block expression is wrapped directly according to the mode.
pub open spec fn body_text(b: Expression, m: TailModeView) -> Seq<char>
    decreases b, 1int,
{
    match b {
        Expression::Block(ss) => block_text(ss@, m),
        _ => match m {
            TailModeView::Plain => expr_text(b) + "\n"@,
            TailModeView::TailReturn => "return "@ + expr_text(b) + "\n"@,
            TailModeView::TailAssignTo(t) => t + " = "@ + expr_text(b) + "\n"@,
        },
    }
}

/// The text of a statement sequence used as a block in the given mode: a
/// single statement is inlined without wrapping; otherwise the statements
/// stand in an explicit `do`/`end` scope, all of them rendered plain except
/// the last, which receives the block's mode.
pub open spec fn block_text(ss: Seq<Statement>, m: TailModeView) -> Seq<char>
    decreases ss, 2int,
{
    if ss.len() == 1 {
        stmt_text(ss[0], m)
    } else if ss.len() == 0 {
        "do\n"@ + "end\n"@
    } else {
        "do\n"@ + stmts_plain_text(ss.drop_last()) + stmt_text(ss.last(), m) + "end\n"@
    }
}

/// The text of a statement sequence rendered for effect only, in order.
pub open spec fn stmts_plain_text(ss: Seq<Statement>) -> Seq<char>
    decreases ss, 2int,
{
    if ss.len() == 0 {
        Seq::empty()
    } else {
        stmts_plain_text(ss.drop_last()) + stmt_text(ss.last(), TailModeView::Plain)
    }
}

/// The text of a statement in the given tail mode.  An `if` pushes the mode
/// into every branch; a `return` always exits the function, so it wins over
/// the ambient mode and is passed through unchanged; any other statement is
/// wrapped as `return <rendering>` or `<target> = <rendering>`.
pub open spec fn stmt_text(s: Statement, m: TailModeView) -> Seq<char>
    decreases s, 1int,
{
    match s {
        Statement::If(n) => if_text(n, m),
        Statement::Return(_) => stmt_plain_text(s),
        _ => match m {
            TailModeView::Plain => stmt_plain_text(s),
            TailModeView::TailReturn => "return "@ + stmt_plain_text(s),
            TailModeView::TailAssignTo(t) => t + " = "@ + stmt_plain_text(s),
        },
    }
}

/// The baseline (plain-mode) text of a statement.  A definition whose
/// initializer is a block declares the target first and then renders the
/// block in assign-to-target mode, since the target language cannot
/// initialize from a block expression.
pub open spec fn stmt_plain_text(s: Statement) -> Seq<char>
    decreases s, 0int,
{
    match s {
        Statement::Expression(e) => expr_text(e) + "\n"@,
        Statement::Return(value) => match value {
            Some(e) => "return "@ + expr_text(e) + "\n"@,
            None => "return\n"@,
        },
        Statement::Definition { left, right } => match right {
            Some(r) => match r {
                Expression::Block(ss) => "local "@ + expr_text(left) + "\n"@ + block_text(
                    ss@,
                    TailModeView::TailAssignTo(expr_text(left)),
                ),
                _ => "local "@ + expr_text(left) + " = "@ + expr_text(r) + "\n"@,
            },
            None => "local "@ + expr_text(left) + "\n"@,
        },
        Statement::ConstDefinition { left, right } => match right {
            Expression::Block(ss) => "local "@ + expr_text(left) + "\n"@ + block_text(
                ss@,
                TailModeView::TailAssignTo(expr_text(left)),
            ),
            _ => "local "@ + expr_text(left) + " = "@ + expr_text(right) + "\n"@,
        },
        Statement::Assignment { left, right } => expr_text(left) + " = "@ + expr_text(right)
            + "\n"@,
        Statement::If(n) => if_text(n, TailModeView::Plain),
    }
}

/// The text of an `if` chain: the first condition and body, the further
/// clauses in source order, then the terminator.  Every branch body is
/// rendered in the chain's own tail mode.
pub open spec fn if_text(n: IfNode, m: TailModeView) -> Seq<char>
    decreases n, 0int,
{
    "if "@ + expr_text(n.condition) + " then\n"@ + body_text(n.body, m) + (match n.elses {
        Some(cs) => elses_text(cs@, m),
        None => Seq::empty(),
    }) + "end\n"@
}

/// The text of the `elseif`/`else` clauses of a chain, in source order.
pub open spec fn elses_text(cs: Seq<IfClause>, m: TailModeView) -> Seq<char>
    decreases cs, 1int,
{
    if cs.len() == 0 {
        Seq::empty()
    } else {
        elses_text(cs.drop_last(), m) + clause_text(cs.last(), m)
    }
}

/// The text of one `elseif`/`else` clause: its body is rendered in the
/// chain's own tail mode.
pub open spec fn clause_text(c: IfClause, m: TailModeView) -> Seq<char>
    decreases c, 0int,
{
    match c.condition {
        Some(cond) => "elseif "@ + expr_text(cond) + " then\n"@ + body_text(c.body, m),
        None => "else\n"@ + body_text(c.body, m),
    }
}

/// The text of a whole program: each top-level statement rendered plain,
/// each followed by a newline separator.
pub open spec fn program_text(ss: Seq<Statement>) -> Seq<char>
    decreases ss.len(),
{
    if ss.len() == 0 {
        Seq::empty()
    } else {
        program_text(ss.drop_last()) + stmt_text(ss.last(), TailModeView::Plain) + "\n"@
    }
}

/// The text of a binary operation: the pipe operators are rewritten into the
/// call form `f(a)`; every other operator is emitted infix, with the right
/// operand parenthesized unless it is a literal or identifier.
pub open spec fn operation_text(l: Expression, op: Operator, r: Expression) -> Seq<char> {
    match op {
        Operator::PipeRight => expr_text(r) + "("@ + expr_text(l) + ")"@,
        Operator::PipeLeft => expr_text(l) + "("@ + expr_text(r) + ")"@,
        _ => expr_text(l) + op_symbol(op) + (if is_atom(r) {
            expr_text(r)
        } else {
            "("@ + expr_text(r) + ")"@
        }),
    }
}

} // verus!
