//! The load-bearing rewriting rules of the emitter, stated and proved once
//! over the text model, so that a reader need not derive them from the
//! definitions in [`crate::render`].

use vstd::prelude::*;

use crate::ast::{Expression, IfClause, IfNode, Operator, Parameter, Statement};
use crate::render::{
    TailModeView, block_text, body_text, clause_text, elses_text, expr_text, guard_text,
    guards_text, if_text, is_atom, op_symbol, operation_text, params_text, stmt_text,
    stmts_plain_text,
};

verus! {

/// Tail-threading: a statement that is neither an `if` nor a `return`,
/// standing last in a block rendered in return mode, becomes a `return` of
/// its own plain rendering — inlined when it is the only statement, and as
/// the final statement of the `do`/`end` scope otherwise.
pub proof fn lemma_tail_threading(ss: Seq<Statement>)
    requires
        ss.len() > 0,
        !(ss.last() matches Statement::If(_)),
        !(ss.last() matches Statement::Return(_)),
    ensures
        stmt_text(ss.last(), TailModeView::TailReturn) == "return "@ + stmt_text(
            ss.last(),
            TailModeView::Plain,
        ),
        ss.len() == 1 ==> block_text(ss, TailModeView::TailReturn) == stmt_text(
            ss.last(),
            TailModeView::TailReturn,
        ),
        ss.len() > 1 ==> block_text(ss, TailModeView::TailReturn) == "do\n"@ + stmts_plain_text(
            ss.drop_last(),
        ) + stmt_text(ss.last(), TailModeView::TailReturn) + "end\n"@,
{
}

/// The rendered shape of a function literal whose body is a block: the
/// parameter list, the default-value guards, then the body block rendered in
/// return mode, so that the block's value becomes the function's result.
pub proof fn lemma_function_body_block(e: Expression)
    ensures
        e matches Expression::Function { params, body } ==> ((*body) matches Expression::Block(ss)
            ==> expr_text(e) == "function("@ + params_text(params@) + ")\n"@ + guards_text(params@)
            + block_text(ss@, TailModeView::TailReturn) + "end\n"@),
{
    match e {
        Expression::Function { params, body } => {
            match *body {
                Expression::Block(ss) => {
                    assert(body_text(*body, TailModeView::TailReturn) == block_text(
                        ss@,
                        TailModeView::TailReturn,
                    ));
                    assert(expr_text(e) == "function("@ + params_text(params@) + ")\n"@
                        + guards_text(params@) + body_text(*body, TailModeView::TailReturn)
                        + "end\n"@);
                },
                _ => {},
            }
        },
        _ => {},
    }
}

/// Branch-threading, main branch: an `if` chain rendered in any mode gives
/// its first body, like every later one, that same mode.
pub proof fn lemma_if_shape(n: IfNode, m: TailModeView)
    ensures
        if_text(n, m) == "if "@ + expr_text(n.condition) + " then\n"@ + body_text(n.body, m) + (
        match n.elses {
            Some(cs) => elses_text(cs@, m),
            None => Seq::empty(),
        }) + "end\n"@,
{
}

/// The clause texts of an `if` chain concatenate clause by clause.
proof fn lemma_elses_text_append(a: Seq<IfClause>, b: Seq<IfClause>, m: TailModeView)
    ensures
        elses_text(a + b, m) == elses_text(a, m) + elses_text(b, m),
    decreases b.len(),
{
    if b.len() == 0 {
        assert(a + b =~= a);
        assert(elses_text(a + b, m) =~= elses_text(a, m) + elses_text(b, m));
    } else {
        lemma_elses_text_append(a, b.drop_last(), m);
        assert((a + b).drop_last() =~= a + b.drop_last());
        assert((a + b).last() == b.last());
        assert(elses_text(a + b, m) =~= elses_text(a, m) + elses_text(b, m));
    }
}

/// Branch-threading, later branches: every `elseif`/`else` clause of a chain
/// rendered in mode `m` — wherever it stands in the chain — contributes its
/// own condition and its body rendered in that same mode `m`; no clause is
/// left in plain form.
pub proof fn lemma_branch_threading(cs: Seq<IfClause>, m: TailModeView, i: int)
    requires
        0 <= i < cs.len(),
    ensures
        elses_text(cs, m) == elses_text(cs.take(i), m) + clause_text(cs[i], m) + elses_text(
            cs.skip(i + 1),
            m,
        ),
        clause_text(cs[i], m) == (match cs[i].condition {
            Some(c) => "elseif "@ + expr_text(c) + " then\n"@ + body_text(cs[i].body, m),
            None => "else\n"@ + body_text(cs[i].body, m),
        }),
{
    let front = cs.take(i);
    let mid = seq![cs[i]];
    let back = cs.skip(i + 1);
    assert(cs =~= front + mid + back);
    lemma_elses_text_append(front + mid, back, m);
    lemma_elses_text_append(front, mid, m);
    assert(elses_text(mid, m) =~= clause_text(cs[i], m)) by {
        reveal_with_fuel(elses_text, 2);
        assert(mid.drop_last() =~= Seq::<IfClause>::empty());
        assert(mid.last() == cs[i]);
    }
    assert(elses_text(cs, m) =~= elses_text(front, m) + clause_text(cs[i], m) + elses_text(
        back,
        m,
    ));
}

/// Singleton-block collapse: a block of exactly one statement renders, in
/// every mode, as that statement rendered alone in the same mode, with no
/// wrapping around it.
pub proof fn lemma_singleton_collapse(ss: Seq<Statement>, m: TailModeView)
    requires
        ss.len() == 1,
    ensures
        block_text(ss, m) == stmt_text(ss[0], m),
{
}

/// Every binary expression renders as [`operation_text`] of its parts.
pub proof fn lemma_binary_operation(e: Expression)
    ensures
        e matches Expression::Binary { left, op, right } ==> expr_text(e) == operation_text(
            *left,
            op,
            *right,
        ),
{
}

/// Pipe equivalence: a forward pipe of `a` into `f` and a backward pipe of
/// `f` over `a` render to the same text, the call form `f(a)`.
pub proof fn lemma_pipe_equivalence(a: Expression, f: Expression)
    ensures
        operation_text(a, Operator::PipeRight, f) == operation_text(f, Operator::PipeLeft, a),
        operation_text(a, Operator::PipeRight, f) == expr_text(f) + "("@ + expr_text(a) + ")"@,
{
}

/// Precedence guard: under every non-pipe operator, a right operand that is
/// a literal or identifier stands bare, and any other right operand is
/// parenthesized; the left operand is never parenthesized by the operation.
pub proof fn lemma_precedence_guard(l: Expression, op: Operator, r: Expression)
    requires
        !(op matches Operator::PipeRight),
        !(op matches Operator::PipeLeft),
    ensures
        is_atom(r) ==> operation_text(l, op, r) == expr_text(l) + op_symbol(op) + expr_text(r),
        !is_atom(r) ==> operation_text(l, op, r) == expr_text(l) + op_symbol(op) + "("@ + expr_text(
            r,
        ) + ")"@,
{
    if !is_atom(r) {
        assert(operation_text(l, op, r) =~= expr_text(l) + op_symbol(op) + "("@ + expr_text(r)
            + ")"@);
    }
}

/// The guard texts of a parameter list concatenate parameter by parameter.
proof fn lemma_guards_text_append(a: Seq<Parameter>, b: Seq<Parameter>)
    ensures
        guards_text(a + b) == guards_text(a) + guards_text(b),
    decreases b.len(),
{
    if b.len() == 0 {
        assert(a + b =~= a);
        assert(guards_text(a + b) =~= guards_text(a) + guards_text(b));
    } else {
        lemma_guards_text_append(a, b.drop_last());
        assert((a + b).drop_last() =~= a + b.drop_last());
        assert((a + b).last() == b.last());
        assert(guards_text(a + b) =~= guards_text(a) + guards_text(b));
    }
}

/// Default-guard emission order: the guards stand in parameter order — the
/// guard of parameter `i` comes after exactly the guards of the parameters
/// before it and before those of the parameters after it — and a parameter
/// without a default contributes no guard.
pub proof fn lemma_guard_order(ps: Seq<Parameter>, i: int)
    requires
        0 <= i < ps.len(),
    ensures
        guards_text(ps) == guards_text(ps.take(i)) + guard_text(ps[i]) + guards_text(
            ps.skip(i + 1),
        ),
        ps[i].default is None ==> guard_text(ps[i]) == Seq::<char>::empty(),
{
    let front = ps.take(i);
    let mid = seq![ps[i]];
    let back = ps.skip(i + 1);
    assert(ps =~= front + mid + back);
    lemma_guards_text_append(front + mid, back);
    lemma_guards_text_append(front, mid);
    assert(guards_text(mid) =~= guard_text(ps[i])) by {
        reveal_with_fuel(guards_text, 2);
        assert(mid.drop_last() =~= Seq::<Parameter>::empty());
        assert(mid.last() == ps[i]);
    }
    assert(guards_text(ps) =~= guards_text(front) + guard_text(ps[i]) + guards_text(back));
}

} // verus!
