//! The executable emitter.  Each rendering function is proved to produce
//! exactly the text described by the corresponding spec function in
//! [`crate::render`].

use vstd::prelude::*;

use crate::ast::{Expression, IfNode, Operator, Statement};
use crate::render::{
    TailModeView, args_text, block_text, body_text, clause_text, elses_text, expr_text,
    guard_text, guards_text, if_text, is_atom, op_symbol, params_text, program_text,
    stmt_plain_text, stmt_text, stmts_plain_text,
};
use crate::text::{dec_int, push_dec_i64, push_quoted};

verus! {

/// The tail mode threaded through rendering: what the surrounding context
/// does with the value of the statement or block at hand.  The assignment
/// target is carried as its already-rendered text.
#[derive(Clone, Copy)]
pub enum TailMode<'a> {
    /// Render for effect only; the value is discarded.
    Plain,
    /// The value becomes the result of the enclosing function body.
    TailReturn,
    /// The value is stored into the target this text denotes.
    TailAssignTo(&'a str),
}

impl<'a> View for TailMode<'a> {
    type V = TailModeView;

    open spec fn view(&self) -> TailModeView {
        match *self {
            TailMode::Plain => TailModeView::Plain,
            TailMode::TailReturn => TailModeView::TailReturn,
            TailMode::TailAssignTo(t) => TailModeView::TailAssignTo(t@),
        }
    }
}

/// The emitter.  It borrows the finished tree for the duration of a render,
/// never mutates it, and owns nothing but the text it returns.
#[derive(Debug)]
pub struct Codegen<'c> {
    pub ast: &'c Vec<Statement>,
}

impl<'c> Codegen<'c> {
    /// Wraps a borrowed top-level statement sequence.
    pub fn new(ast: &'c Vec<Statement>) -> (res: Self)
        ensures
            res.ast == ast,
    {
        Codegen { ast }
    }

    /// Renders the whole tree: each top-level statement in plain mode,
    /// each followed by a newline separator.
    pub fn generate(&self) -> (res: String)
        ensures
            res@ == program_text(self.ast@),
    {
        let mut code = String::new();
        let n = self.ast.len();
        let mut i: usize = 0;
        while i < n
            invariant
                n == self.ast@.len(),
                i <= n,
                code@ == program_text(self.ast@.take(i as int)),
            decreases n - i,
        {
            let st = self.gen_statement(&self.ast[i], TailMode::Plain);
            code.append(st.as_str());
            code.append("\n");
            proof {
                assert(self.ast@.take(i + 1).drop_last() =~= self.ast@.take(i as int));
                assert(self.ast@.take(i + 1).last() == self.ast@[i as int]);
                assert(code@ =~= program_text(self.ast@.take(i + 1)));
            }
            i = i + 1;
        }
        proof {
            assert(self.ast@.take(n as int) =~= self.ast@);
        }
        code
    }

    /// Renders one statement in the given tail mode.
    pub fn gen_statement(&self, statement: &Statement, m: TailMode) -> (res: String)
        ensures
            res@ == stmt_text(*statement, m@),
        decreases *statement, 2int,
    {
        match statement {
            Statement::If(if_node) => self.gen_if_node(if_node, m),
            Statement::Return(_) => self.gen_statement_plain(statement),
            _ => {
                let plain = self.gen_statement_plain(statement);
                match m {
                    TailMode::Plain => plain,
                    TailMode::TailReturn => {
                        let mut code = String::from_str("return ");
                        code.append(plain.as_str());
                        code
                    },
                    TailMode::TailAssignTo(target) => {
                        let mut code = String::from_str(target);
                        code.append(" = ");
                        code.append(plain.as_str());
                        code
                    },
                }
            },
        }
    }

    /// Renders one statement for its effect alone (the plain baseline).
    fn gen_statement_plain(&self, statement: &Statement) -> (res: String)
        ensures
            res@ == stmt_plain_text(*statement),
        decreases *statement, 1int,
    {
        match statement {
            Statement::Expression(e) => {
                let mut code = self.gen_expression(e);
                code.append("\n");
                code
            },
            Statement::Return(value) => match value {
                Some(e) => {
                    let mut code = String::from_str("return ");
                    let v = self.gen_expression(e);
                    code.append(v.as_str());
                    code.append("\n");
                    code
                },
                None => String::from_str("return\n"),
            },
            Statement::Definition { left, right } => {
                let left_text = self.gen_expression(left);
                match right {
                    Some(r) => match r {
                        Expression::Block(ss) => {
                            let mut code = String::from_str("local ");
                            code.append(left_text.as_str());
                            code.append("\n");
                            let blk = self.gen_block(ss, TailMode::TailAssignTo(left_text.as_str()));
                            code.append(blk.as_str());
                            code
                        },
                        _ => {
                            let mut code = String::from_str("local ");
                            code.append(left_text.as_str());
                            code.append(" = ");
                            let rt = self.gen_expression(r);
                            code.append(rt.as_str());
                            code.append("\n");
                            code
                        },
                    },
                    None => {
                        let mut code = String::from_str("local ");
                        code.append(left_text.as_str());
                        code.append("\n");
                        code
                    },
                }
            },
            Statement::ConstDefinition { left, right } => {
                let left_text = self.gen_expression(left);
                match right {
                    Expression::Block(ss) => {
                        let mut code = String::from_str("local ");
                        code.append(left_text.as_str());
                        code.append("\n");
                        let blk = self.gen_block(ss, TailMode::TailAssignTo(left_text.as_str()));
                        code.append(blk.as_str());
                        code
                    },
                    _ => {
                        let mut code = String::from_str("local ");
                        code.append(left_text.as_str());
                        code.append(" = ");
                        let rt = self.gen_expression(right);
                        code.append(rt.as_str());
                        code.append("\n");
                        code
                    },
                }
            },
            Statement::Assignment { left, right } => {
                let mut code = self.gen_expression(left);
                code.append(" = ");
                let rt = self.gen_expression(right);
                code.append(rt.as_str());
                code.append("\n");
                code
            },
            Statement::If(if_node) => self.gen_if_node(if_node, TailMode::Plain),
        }
    }

    /// Renders an `if` chain, pushing the tail mode into every branch body.
    #[verifier::loop_isolation(false)]
    pub fn gen_if_node(&self, if_node: &IfNode, m: TailMode) -> (res: String)
        ensures
            res@ == if_text(*if_node, m@),
        decreases *if_node, 0int,
    {
        let mut code = String::from_str("if ");
        let cond = self.gen_expression(&if_node.condition);
        code.append(cond.as_str());
        code.append(" then\n");
        let body = self.gen_body(&if_node.body, m);
        code.append(body.as_str());
        let ghost head: Seq<char> = code@;
        match &if_node.elses {
            Some(cases) => {
                let n = cases.len();
                let mut i: usize = 0;
                while i < n
                    invariant
                        n == cases@.len(),
                        i <= n,
                        code@ == head + elses_text(cases@.take(i as int), m@),
                    decreases n - i,
                {
                    match &cases[i].condition {
                        Some(c) => {
                            code.append("elseif ");
                            let ct = self.gen_expression(c);
                            code.append(ct.as_str());
                            code.append(" then\n");
                            proof {
                                assert(cases@[i as int].condition == Some(*c));
                            }
                        },
                        None => {
                            code.append("else\n");
                            proof {
                                assert(cases@[i as int].condition is None);
                            }
                        },
                    }
                    let bt = self.gen_body(&cases[i].body, m);
                    code.append(bt.as_str());
                    proof {
                        assert(code@ =~= head + elses_text(cases@.take(i as int), m@)
                            + clause_text(cases@[i as int], m@));
                        assert(cases@.take(i + 1).drop_last() =~= cases@.take(i as int));
                        assert(cases@.take(i + 1).last() == cases@[i as int]);
                        assert(elses_text(cases@.take(i + 1), m@) == elses_text(
                            cases@.take(i as int),
                            m@,
                        ) + clause_text(cases@[i as int], m@));
                        assert(code@ =~= head + elses_text(cases@.take(i + 1), m@));
                    }
                    i = i + 1;
                }
                proof {
                    assert(cases@.take(n as int) =~= cases@);
                }
            },
            None => {},
        }
        code.append("end\n");
        proof {
            assert(code@ =~= if_text(*if_node, m@));
        }
        code
    }

    /// Renders a function or branch body: a block in the given mode, a
    /// single non-block expression wrapped directly according to the mode.
    pub fn gen_body(&self, body: &Expression, m: TailMode) -> (res: String)
        ensures
            res@ == body_text(*body, m@),
        decreases *body, 1int,
    {
        match body {
            Expression::Block(ss) => self.gen_block(ss, m),
            _ => {
                let e = self.gen_expression(body);
                match m {
                    TailMode::Plain => {
                        let mut code = e;
                        code.append("\n");
                        code
                    },
                    TailMode::TailReturn => {
                        let mut code = String::from_str("return ");
                        code.append(e.as_str());
                        code.append("\n");
                        code
                    },
                    TailMode::TailAssignTo(target) => {
                        let mut code = String::from_str(target);
                        code.append(" = ");
                        code.append(e.as_str());
                        code.append("\n");
                        code
                    },
                }
            },
        }
    }

    /// Renders a statement sequence as a block in the given mode: a single
    /// statement is inlined; otherwise the statements stand in a `do`/`end`
    /// scope, plain except the last, which receives the block's mode.
    pub fn gen_block(&self, statements: &Vec<Statement>, m: TailMode) -> (res: String)
        ensures
            res@ == block_text(statements@, m@),
        decreases statements@, 3int,
    {
        let n = statements.len();
        if n == 1 {
            self.gen_statement(&statements[0], m)
        } else {
            let mut code = String::from_str("do\n");
            if n > 0 {
                let mut i: usize = 0;
                while i < n - 1
                    invariant
                        n == statements@.len(),
                        n >= 2,
                        i <= n - 1,
                        code@ == "do\n"@ + stmts_plain_text(statements@.take(i as int)),
                    decreases n - 1 - i,
                {
                    let st = self.gen_statement(&statements[i], TailMode::Plain);
                    code.append(st.as_str());
                    proof {
                        assert(statements@.take(i + 1).drop_last() =~= statements@.take(i as int));
                        assert(statements@.take(i + 1).last() == statements@[i as int]);
                        assert(code@ =~= "do\n"@ + stmts_plain_text(statements@.take(i + 1)));
                    }
                    i = i + 1;
                }
                let last = self.gen_statement(&statements[n - 1], m);
                code.append(last.as_str());
                proof {
                    assert(statements@.take(n - 1) =~= statements@.drop_last());
                    assert(statements@[n - 1] == statements@.last());
                }
            }
            code.append("end\n");
            proof {
                assert(code@ =~= block_text(statements@, m@));
            }
            code
        }
    }

    /// Renders one expression.
    #[verifier::loop_isolation(false)]
    pub fn gen_expression(&self, expression: &Expression) -> (res: String)
        ensures
            res@ == expr_text(*expression),
        decreases *expression, 0int,
    {
        match expression {
            Expression::Int(n) => {
                let mut code = String::new();
                push_dec_i64(*n, &mut code);
                proof {
                    assert(code@ =~= dec_int(*n as int));
                }
                code
            },
            Expression::Number(t) => String::from_str(t.as_str()),
            Expression::Str(s) => {
                let mut code = String::new();
                push_quoted(s.as_str(), &mut code);
                proof {
                    assert(code@ =~= expr_text(*expression));
                }
                code
            },
            Expression::Bool(b) => {
                if *b {
                    String::from_str("true")
                } else {
                    String::from_str("false")
                }
            },
            Expression::Identifier(n) => String::from_str(n.as_str()),
            Expression::Call(callee, args) => {
                let mut code = self.gen_expression(&**callee);
                code.append("(");
                let ghost head: Seq<char> = code@;
                let n = args.len();
                let mut i: usize = 0;
                while i < n
                    invariant
                        n == args@.len(),
                        i <= n,
                        i == 0 ==> code@ == head,
                        0 < i < n ==> code@ == head + args_text(args@.take(i as int)) + ","@,
                        i == n && n > 0 ==> code@ == head + args_text(args@.take(i as int)),
                    decreases n - i,
                {
                    let a = self.gen_expression(&args[i]);
                    code.append(a.as_str());
                    if i + 1 != n {
                        code.append(",");
                    }
                    proof {
                        if i > 0 {
                            assert(args@.take(i + 1).drop_last() =~= args@.take(i as int));
                            assert(args@.take(i + 1).last() == args@[i as int]);
                        }
                        if i + 1 != n {
                            assert(code@ =~= head + args_text(args@.take(i + 1)) + ","@);
                        } else {
                            assert(code@ =~= head + args_text(args@.take(i + 1)));
                        }
                    }
                    i = i + 1;
                }
                code.append(")");
                proof {
                    assert(args@.take(n as int) =~= args@);
                    assert(code@ =~= expr_text(*expression));
                }
                code
            },
            Expression::Binary { left, op, right } => {
                match op {
                    Operator::PipeRight => {
                        let mut code = self.gen_expression(&**right);
                        code.append("(");
                        let l = self.gen_expression(&**left);
                        code.append(l.as_str());
                        code.append(")");
                        code
                    },
                    Operator::PipeLeft => {
                        let mut code = self.gen_expression(&**left);
                        code.append("(");
                        let r = self.gen_expression(&**right);
                        code.append(r.as_str());
                        code.append(")");
                        code
                    },
                    _ => {
                        let mut code = self.gen_expression(&**left);
                        let sym = self.gen_operator(op);
                        code.append(sym.as_str());
                        let rt = self.gen_expression(&**right);
                        if is_literal(&**right) {
                            code.append(rt.as_str());
                        } else {
                            code.append("(");
                            code.append(rt.as_str());
                            code.append(")");
                        }
                        code
                    },
                }
            },
            Expression::Block(ss) => self.gen_block(ss, TailMode::Plain),
            Expression::Function { params, body } => {
                let mut code = String::from_str("function(");
                let ghost head: Seq<char> = code@;
                let n = params.len();
                let mut i: usize = 0;
                while i < n
                    invariant
                        n == params@.len(),
                        i <= n,
                        i == 0 ==> code@ == head,
                        0 < i < n ==> code@ == head + params_text(params@.take(i as int)) + ","@,
                        i == n && n > 0 ==> code@ == head + params_text(params@.take(i as int)),
                    decreases n - i,
                {
                    code.append(params[i].name.as_str());
                    if i + 1 != n {
                        code.append(",");
                    }
                    proof {
                        if i > 0 {
                            assert(params@.take(i + 1).drop_last() =~= params@.take(i as int));
                            assert(params@.take(i + 1).last() == params@[i as int]);
                        }
                        if i + 1 != n {
                            assert(code@ =~= head + params_text(params@.take(i + 1)) + ","@);
                        } else {
                            assert(code@ =~= head + params_text(params@.take(i + 1)));
                        }
                    }
                    i = i + 1;
                }
                code.append(")\n");
                proof {
                    assert(params@.take(n as int) =~= params@);
                }
                let ghost opened: Seq<char> = code@;
                proof {
                    assert(opened =~= "function("@ + params_text(params@) + ")\n"@);
                }
                let mut j: usize = 0;
                while j < n
                    invariant
                        n == params@.len(),
                        j <= n,
                        code@ == opened + guards_text(params@.take(j as int)),
                    decreases n - j,
                {
                    match &params[j].default {
                        Some(d) => {
                            code.append("if ");
                            code.append(params[j].name.as_str());
                            code.append(" == nil then\n");
                            code.append(params[j].name.as_str());
                            code.append(" = ");
                            let dt = self.gen_expression(d);
                            code.append(dt.as_str());
                            code.append("\nend\n");
                            proof {
                                assert(params@[j as int].default == Some(*d));
                                assert(code@ =~= opened + guards_text(params@.take(j as int))
                                    + guard_text(params@[j as int]));
                            }
                        },
                        None => {
                            proof {
                                assert(params@[j as int].default is None);
                                assert(guard_text(params@[j as int]) =~= Seq::<char>::empty());
                            }
                        },
                    }
                    proof {
                        assert(params@.take(j + 1).drop_last() =~= params@.take(j as int));
                        assert(params@.take(j + 1).last() == params@[j as int]);
                        assert(guards_text(params@.take(j + 1)) == guards_text(
                            params@.take(j as int),
                        ) + guard_text(params@[j as int]));
                        assert(code@ =~= opened + guards_text(params@.take(j + 1)));
                    }
                    j = j + 1;
                }
                proof {
                    assert(params@.take(n as int) =~= params@);
                }
                let bt = self.gen_body(&**body, TailMode::TailReturn);
                code.append(bt.as_str());
                code.append("end\n");
                proof {
                    assert(code@ =~= expr_text(*expression));
                }
                code
            },
        }
    }

    /// Renders the infix symbol of an operator; the pipe operators, which
    /// never reach the table through [`Self::gen_expression`], map to empty
    /// text.
    pub fn gen_operator(&self, op: &Operator) -> (res: String)
        ensures
            res@ == op_symbol(*op),
    {
        match op {
            Operator::Add => String::from_str("+"),
            Operator::Sub => String::from_str("-"),
            Operator::Mul => String::from_str("*"),
            Operator::Div => String::from_str("/"),
            Operator::Mod => String::from_str("%"),
            Operator::Pow => String::from_str("^"),
            Operator::Equal => String::from_str("=="),
            Operator::NEqual => String::from_str("~="),
            Operator::Lt => String::from_str("<"),
            Operator::LtEqual => String::from_str("<="),
            Operator::Gt => String::from_str(">"),
            Operator::GtEqual => String::from_str(">="),
            Operator::Concat => String::from_str(".."),
            Operator::PipeRight => String::new(),
            Operator::PipeLeft => String::new(),
        }
    }
}

/// Whether an expression is a literal or identifier, as [`is_atom`] says.
pub fn is_literal(e: &Expression) -> (res: bool)
    ensures
        res == is_atom(*e),
{
    match e {
        Expression::Int(_) => true,
        Expression::Number(_) => true,
        Expression::Str(_) => true,
        Expression::Bool(_) => true,
        Expression::Identifier(_) => true,
        _ => false,
    }
}

} // verus!

