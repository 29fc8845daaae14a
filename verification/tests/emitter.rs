use wu_codegen::ast::{Expression, IfClause, IfNode, Operator, Parameter, Statement};
use wu_codegen::codegen::Codegen;

fn ident(n: &str) -> Expression {
    Expression::Identifier(n.to_string())
}

fn num(i: i64) -> Expression {
    Expression::Int(i)
}

fn bin(l: Expression, op: Operator, r: Expression) -> Expression {
    Expression::Binary { left: Box::new(l), op, right: Box::new(r) }
}

fn call(f: Expression, args: Vec<Expression>) -> Expression {
    Expression::Call(Box::new(f), args)
}

fn estmt(e: Expression) -> Statement {
    Statement::Expression(e)
}

fn gen(stmts: Vec<Statement>) -> String {
    Codegen::new(&stmts).generate()
}

fn gen1(stmt: Statement) -> String {
    gen(vec![stmt])
}

#[test]
fn int_literals() {
    assert_eq!(gen1(estmt(num(0))), "0\n\n");
    assert_eq!(gen1(estmt(num(42))), "42\n\n");
    assert_eq!(gen1(estmt(num(-7))), "-7\n\n");
    assert_eq!(gen1(estmt(num(1234567890123))), "1234567890123\n\n");
    assert_eq!(gen1(estmt(num(i64::MIN))), "-9223372036854775808\n\n");
    assert_eq!(gen1(estmt(num(i64::MAX))), "9223372036854775807\n\n");
}

#[test]
fn number_literal_keeps_its_text() {
    assert_eq!(gen1(estmt(Expression::Number("3.25".to_string()))), "3.25\n\n");
}

#[test]
fn string_literals_are_quoted_and_escaped() {
    assert_eq!(gen1(estmt(Expression::Str("hello".to_string()))), "\"hello\"\n\n");
    assert_eq!(
        gen1(estmt(Expression::Str("he\"ll\\o\n".to_string()))),
        "\"he\\\"ll\\\\o\\n\"\n\n"
    );
    assert_eq!(gen1(estmt(Expression::Str("a\tb\rc".to_string()))), "\"a\\tb\\rc\"\n\n");
    assert_eq!(gen1(estmt(Expression::Str("".to_string()))), "\"\"\n\n");
    assert_eq!(gen1(estmt(Expression::Str("héllo käse".to_string()))), "\"héllo käse\"\n\n");
}

#[test]
fn bool_and_identifier_literals() {
    assert_eq!(gen1(estmt(Expression::Bool(true))), "true\n\n");
    assert_eq!(gen1(estmt(Expression::Bool(false))), "false\n\n");
    assert_eq!(gen1(estmt(ident("foo"))), "foo\n\n");
}

#[test]
fn calls_join_arguments_with_commas() {
    assert_eq!(gen1(estmt(call(ident("f"), vec![]))), "f()\n\n");
    assert_eq!(gen1(estmt(call(ident("f"), vec![num(1)]))), "f(1)\n\n");
    assert_eq!(
        gen1(estmt(call(ident("f"), vec![num(1), num(2), num(3)]))),
        "f(1,2,3)\n\n"
    );
}

#[test]
fn operator_symbols() {
    let cases = vec![
        (Operator::Add, "x+y"),
        (Operator::Sub, "x-y"),
        (Operator::Mul, "x*y"),
        (Operator::Div, "x/y"),
        (Operator::Mod, "x%y"),
        (Operator::Pow, "x^y"),
        (Operator::Equal, "x==y"),
        (Operator::NEqual, "x~=y"),
        (Operator::Lt, "x<y"),
        (Operator::LtEqual, "x<=y"),
        (Operator::Gt, "x>y"),
        (Operator::GtEqual, "x>=y"),
        (Operator::Concat, "x..y"),
    ];
    for (op, expected) in cases {
        assert_eq!(gen1(estmt(bin(ident("x"), op, ident("y")))), format!("{}\n\n", expected));
    }
}

#[test]
fn precedence_guard_parenthesizes_compound_right_operand() {
    let nested = bin(ident("x"), Operator::Sub, bin(ident("y"), Operator::Add, ident("z")));
    assert_eq!(gen1(estmt(nested)), "x-(y+z)\n\n");
    let atom = bin(ident("x"), Operator::Sub, ident("y"));
    assert_eq!(gen1(estmt(atom)), "x-y\n\n");
    let with_call = bin(ident("x"), Operator::Sub, call(ident("f"), vec![]));
    assert_eq!(gen1(estmt(with_call)), "x-(f())\n\n");
    let with_literal = bin(ident("x"), Operator::Add, num(1));
    assert_eq!(gen1(estmt(with_literal)), "x+1\n\n");
}

#[test]
fn pipes_render_as_the_same_call() {
    let forward = bin(ident("a"), Operator::PipeRight, ident("f"));
    let backward = bin(ident("f"), Operator::PipeLeft, ident("a"));
    let fwd = gen1(estmt(forward));
    let bwd = gen1(estmt(backward));
    assert_eq!(fwd, "f(a)\n\n");
    assert_eq!(fwd, bwd);
}

#[test]
fn return_statements() {
    assert_eq!(gen1(Statement::Return(None)), "return\n\n");
    assert_eq!(gen1(Statement::Return(Some(ident("x")))), "return x\n\n");
}

#[test]
fn definitions_and_assignment() {
    assert_eq!(gen1(Statement::Definition { left: ident("x"), right: None }), "local x\n\n");
    assert_eq!(
        gen1(Statement::Definition { left: ident("x"), right: Some(num(1)) }),
        "local x = 1\n\n"
    );
    assert_eq!(
        gen1(Statement::ConstDefinition { left: ident("k"), right: num(2) }),
        "local k = 2\n\n"
    );
    assert_eq!(
        gen1(Statement::Assignment { left: ident("x"), right: num(1) }),
        "x = 1\n\n"
    );
}

#[test]
fn definition_from_singleton_block_threads_the_assignment() {
    let s = Statement::Definition {
        left: ident("x"),
        right: Some(Expression::Block(vec![estmt(num(1))])),
    };
    assert_eq!(gen1(s), "local x\nx = 1\n\n");
}

#[test]
fn definition_from_multi_statement_block_wraps_in_scope() {
    let s = Statement::Definition {
        left: ident("x"),
        right: Some(Expression::Block(vec![
            estmt(call(ident("f"), vec![])),
            estmt(num(2)),
        ])),
    };
    assert_eq!(gen1(s), "local x\ndo\nf()\nx = 2\nend\n\n");
}

#[test]
fn empty_block_renders_as_empty_scope() {
    assert_eq!(gen1(estmt(Expression::Block(vec![]))), "do\nend\n\n\n");
}

#[test]
fn singleton_block_collapses_to_its_statement() {
    // The block of one statement contributes exactly that statement's own
    // text, "x = 1\n", with no scope wrapping; the two further newlines come
    // from the expression statement around it and the top-level separator.
    let inside = gen1(estmt(Expression::Block(vec![Statement::Assignment {
        left: ident("x"),
        right: num(1),
    }])));
    assert_eq!(inside, "x = 1\n\n\n");
    // A two-statement block in the same position is wrapped in a scope.
    let wrapped = gen1(estmt(Expression::Block(vec![
        estmt(call(ident("f"), vec![])),
        Statement::Assignment { left: ident("x"), right: num(1) },
    ])));
    assert_eq!(wrapped, "do\nf()\nx = 1\nend\n\n\n");
}

#[test]
fn plain_if_chain() {
    let s = Statement::If(IfNode {
        condition: ident("cond"),
        body: Expression::Block(vec![estmt(call(ident("f"), vec![]))]),
        elses: Some(vec![
            IfClause {
                condition: Some(ident("d")),
                body: Expression::Block(vec![estmt(call(ident("g"), vec![]))]),
            },
            IfClause {
                condition: None,
                body: Expression::Block(vec![estmt(call(ident("h"), vec![]))]),
            },
        ]),
    });
    assert_eq!(gen1(s), "if cond then\nf()\nelseif d then\ng()\nelse\nh()\nend\n\n");
}

#[test]
fn plain_if_without_clauses() {
    let s = Statement::If(IfNode {
        condition: ident("c"),
        body: Expression::Block(vec![estmt(call(ident("f"), vec![]))]),
        elses: None,
    });
    assert_eq!(gen1(s), "if c then\nf()\nend\n\n");
}

#[test]
fn branch_threading_in_return_mode() {
    let chain = Statement::If(IfNode {
        condition: ident("cond"),
        body: Expression::Block(vec![estmt(num(1))]),
        elses: Some(vec![
            IfClause {
                condition: Some(ident("d")),
                body: Expression::Block(vec![estmt(num(2))]),
            },
            IfClause { condition: None, body: Expression::Block(vec![estmt(num(3))]) },
        ]),
    });
    let f = Expression::Function {
        params: vec![],
        body: Box::new(Expression::Block(vec![chain])),
    };
    assert_eq!(
        gen1(estmt(f)),
        "function()\nif cond then\nreturn 1\nelseif d then\nreturn 2\nelse\nreturn 3\nend\nend\n\n\n"
    );
}

#[test]
fn tail_threading_returns_the_last_statement() {
    let body = Expression::Block(vec![
        Statement::Assignment { left: ident("x"), right: num(1) },
        estmt(bin(ident("x"), Operator::Add, num(1))),
    ]);
    let f = Expression::Function { params: vec![], body: Box::new(body) };
    assert_eq!(gen1(estmt(f)), "function()\ndo\nx = 1\nreturn x+1\nend\nend\n\n\n");
}

#[test]
fn return_in_tail_position_passes_through() {
    let body = Expression::Block(vec![Statement::Return(Some(num(5)))]);
    let f = Expression::Function { params: vec![], body: Box::new(body) };
    assert_eq!(gen1(estmt(f)), "function()\nreturn 5\nend\n\n\n");
}

#[test]
fn default_guards_come_in_parameter_order() {
    let f = Expression::Function {
        params: vec![
            Parameter { name: "a".to_string(), default: None },
            Parameter { name: "b".to_string(), default: Some(num(1)) },
            Parameter { name: "c".to_string(), default: Some(num(2)) },
        ],
        body: Box::new(Expression::Block(vec![estmt(ident("a"))])),
    };
    assert_eq!(
        gen1(estmt(f)),
        "function(a,b,c)\nif b == nil then\nb = 1\nend\nif c == nil then\nc = 2\nend\nreturn a\nend\n\n\n"
    );
}

#[test]
fn constant_from_if_threads_each_branch() {
    let chain = Statement::If(IfNode {
        condition: ident("cond"),
        body: Expression::Block(vec![estmt(num(1))]),
        elses: Some(vec![IfClause {
            condition: None,
            body: Expression::Block(vec![estmt(num(2))]),
        }]),
    });
    let s = Statement::ConstDefinition {
        left: ident("x"),
        right: Expression::Block(vec![chain]),
    };
    assert_eq!(gen1(s), "local x\nif cond then\nx = 1\nelse\nx = 2\nend\n\n");
}

#[test]
fn zero_parameter_function_with_expression_body() {
    let f = Expression::Function { params: vec![], body: Box::new(num(42)) };
    assert_eq!(gen1(estmt(f)), "function()\nreturn 42\nend\n\n\n");
}

#[test]
fn function_with_parameter_and_expression_body() {
    let f = Expression::Function {
        params: vec![Parameter { name: "x".to_string(), default: None }],
        body: Box::new(bin(ident("x"), Operator::Mul, num(2))),
    };
    assert_eq!(gen1(estmt(f)), "function(x)\nreturn x*2\nend\n\n\n");
}

#[test]
fn top_level_statements_keep_their_order() {
    let out = gen(vec![estmt(ident("a")), Statement::Return(None)]);
    assert_eq!(out, "a\n\nreturn\n\n");
}

#[test]
fn generate_of_empty_program_is_empty() {
    assert_eq!(gen(vec![]), "");
}

#[test]
fn if_with_non_block_body_renders_the_expression() {
    let s = Statement::If(IfNode { condition: ident("c"), body: ident("g"), elses: None });
    assert_eq!(gen1(s), "if c then\ng\nend\n\n");
}

#[test]
fn nested_call_as_callee() {
    let e = call(call(ident("f"), vec![ident("a")]), vec![ident("b")]);
    assert_eq!(gen1(estmt(e)), "f(a)(b)\n\n");
}

#[test]
fn pipe_with_compound_sides() {
    let e = bin(
        bin(ident("a"), Operator::Add, ident("b")),
        Operator::PipeRight,
        ident("f"),
    );
    assert_eq!(gen1(estmt(e)), "f(a+b)\n\n");
}
