use wasm_grate::analytics::{do_analytics, visit_arrow_expr, visit_function};
use wasm_grate::extract_functions::extract_functions;
use wasm_grate::max_scores::MaxScores;
use wasm_grate::metrics::Metrics;
use wasm_grate::scoring::Finding;
use wasm_grate::syntax::{
    ArrowExpr, BinaryOp, BlockStmtOrExpr, ClassMember, Decl, Expr, Function, ModuleItem, Prop,
    Span, Stmt, SwitchCase,
};

fn ident() -> Expr {
    Expr::Other(vec![])
}

fn sum(n: usize) -> Expr {
    let mut expr = ident();
    for _ in 0..n {
        expr = Expr::Bin { op: BinaryOp::Add, left: Box::new(expr), right: Box::new(ident()) };
    }
    expr
}

fn block(stmts: Vec<Stmt>) -> Box<Stmt> {
    Box::new(Stmt::Block(stmts))
}

fn for_loop(body: Vec<Stmt>) -> Stmt {
    Stmt::For { init: None, test: None, update: None, body: block(body) }
}

fn function(at: usize, body: Vec<Stmt>) -> Function {
    Function { span: Span { lo: at, hi: at + 1 }, body: Some(body) }
}

/// Statements that score 10 under the default thresholds.
fn busy() -> Vec<Stmt> {
    vec![for_loop(vec![for_loop(vec![for_loop(vec![Stmt::Expr(sum(5))])])])]
}

/// Statements that score 0 under the default thresholds.
fn calm() -> Vec<Stmt> {
    vec![Stmt::Return(Some(ident()))]
}

fn findings(items: &[ModuleItem]) -> Vec<(usize, usize)> {
    let thresholds = Metrics::new();
    let ceiling = MaxScores::from_thresholds(&thresholds);
    let mut function_likes = Vec::new();
    extract_functions(items, &mut function_likes);
    do_analytics(&function_likes, &thresholds, &ceiling)
        .iter()
        .map(|f| (f.span.lo, f.score))
        .collect()
}

#[test]
fn nothing_to_analyze() {
    assert_eq!(findings(&[]), vec![]);
}

#[test]
fn complex_function_is_found() {
    let items = vec![
        ModuleItem::Stmt(Stmt::Decl(Decl::Fn(function(1, calm())))),
        ModuleItem::Stmt(Stmt::Decl(Decl::Fn(function(2, busy())))),
        ModuleItem::Stmt(Stmt::Decl(Decl::Fn(function(3, vec![])))),
    ];
    assert_eq!(findings(&items), vec![(2, 10)]);
}

#[test]
fn end_to_end_scenario() {
    // complexity 6, depth 3, arithmetic 5, no strings
    let body = vec![
        Stmt::If { test: ident(), cons: block(vec![]), alt: None },
        Stmt::If { test: ident(), cons: block(vec![]), alt: None },
        for_loop(vec![for_loop(vec![for_loop(vec![Stmt::Expr(sum(5))])])]),
    ];
    // complexity 3, depth 1, arithmetic 3, strings 1
    let at_thresholds = vec![
        Stmt::If { test: ident(), cons: block(vec![]), alt: None },
        for_loop(vec![Stmt::Expr(sum(3)), Stmt::Expr(Expr::Str)]),
    ];
    let items = vec![
        ModuleItem::Stmt(Stmt::Decl(Decl::Fn(function(1, body)))),
        ModuleItem::Stmt(Stmt::Decl(Decl::Fn(function(2, at_thresholds)))),
    ];
    assert_eq!(findings(&items), vec![(1, 10)]);
}

#[test]
fn score_just_above_the_average_is_found() {
    // raw 1.0 of a ceiling of 4 scores 3, raw 0.5 scores 1
    let three = vec![Stmt::Expr(sum(4))];
    let one = vec![Stmt::If { test: ident(), cons: block(vec![]), alt: None }, Stmt::If {
        test: ident(),
        cons: block(vec![]),
        alt: None,
    }, Stmt::If { test: ident(), cons: block(vec![]), alt: None }];
    let items = vec![
        ModuleItem::Stmt(Stmt::Decl(Decl::Fn(function(1, three)))),
        ModuleItem::Stmt(Stmt::Decl(Decl::Fn(function(2, one)))),
    ];
    assert_eq!(findings(&items), vec![(1, 3)]);
}

#[test]
fn nested_functions_are_scored_by_themselves() {
    // function outer(){ if(x){} function inner(){ <busy> } }
    let outer = function(
        1,
        vec![
            Stmt::If { test: ident(), cons: block(vec![]), alt: None },
            Stmt::Decl(Decl::Fn(function(2, busy()))),
        ],
    );
    let items = vec![ModuleItem::Stmt(Stmt::Decl(Decl::Fn(outer)))];
    assert_eq!(findings(&items), vec![(2, 10)]);
}

#[test]
fn outer_function_is_not_excused_by_a_nested_one() {
    let mut body = busy();
    body.push(Stmt::Decl(Decl::Fn(function(2, calm()))));
    let items = vec![ModuleItem::Stmt(Stmt::Decl(Decl::Fn(function(1, body))))];
    assert_eq!(findings(&items), vec![(1, 10)]);
}

#[test]
fn findings_come_in_pre_order() {
    // 1 { 2 { 3 } 4 } 5
    let mut third = busy();
    third.push(Stmt::Return(None));
    let mut second = busy();
    second.push(Stmt::Expr(Expr::Fn(function(3, third))));
    let mut first = busy();
    first.insert(0, Stmt::Decl(Decl::Fn(function(2, second))));
    first.push(Stmt::Decl(Decl::Var(vec![Expr::Arrow(ArrowExpr {
        span: Span { lo: 4, hi: 5 },
        body: BlockStmtOrExpr::BlockStmt(busy()),
    })])));
    let items = vec![
        ModuleItem::Stmt(Stmt::Decl(Decl::Fn(function(1, first)))),
        ModuleItem::ExportDecl(Decl::Fn(function(5, busy()))),
    ];
    assert_eq!(findings(&items), vec![(1, 10), (2, 10), (3, 10), (4, 10), (5, 10)]);
}

#[test]
fn nested_functions_are_found_everywhere() {
    let nested = |at: usize| Expr::Fn(function(at, busy()));
    let body = vec![
        Stmt::If {
            test: nested(1),
            cons: block(vec![Stmt::Expr(nested(2))]),
            alt: Some(Box::new(Stmt::Expr(nested(3)))),
        },
        Stmt::Switch {
            discriminant: nested(4),
            cases: vec![
                SwitchCase { test: Some(nested(5)), cons: vec![Stmt::Expr(nested(6))] },
                SwitchCase { test: None, cons: vec![Stmt::Expr(nested(7))] },
            ],
        },
        Stmt::For {
            init: Some(Box::new(Stmt::Decl(Decl::Var(vec![nested(8)])))),
            test: Some(nested(9)),
            update: Some(nested(10)),
            body: block(vec![Stmt::Expr(nested(11))]),
        },
        Stmt::While { test: nested(12), body: block(vec![Stmt::Expr(nested(13))]) },
        Stmt::DoWhile { body: block(vec![Stmt::Expr(nested(14))]), test: nested(15) },
        Stmt::Return(Some(nested(16))),
        Stmt::Decl(Decl::Class(vec![
            ClassMember::Method(function(17, busy())),
            ClassMember::Other(vec![Stmt::Expr(nested(18))]),
        ])),
        Stmt::Other(vec![Stmt::Expr(nested(19))]),
        Stmt::Expr(Expr::Bin { op: BinaryOp::Other, left: Box::new(nested(20)), right: Box::new(nested(21)) }),
        Stmt::Expr(Expr::Cond {
            test: Box::new(nested(22)),
            cons: Box::new(nested(23)),
            alt: Box::new(nested(24)),
        }),
        Stmt::Expr(Expr::Paren(Box::new(nested(25)))),
        Stmt::Expr(Expr::Tpl(vec![nested(26)])),
        Stmt::Expr(Expr::Call { callee: Box::new(nested(27)), args: vec![nested(28), nested(29)] }),
        Stmt::Expr(Expr::Member {
            obj: Box::new(nested(30)),
            prop: wasm_grate::syntax::MemberProp::Computed(Box::new(nested(31))),
        }),
        Stmt::Expr(Expr::Object(vec![
            Prop::Method(function(32, busy())),
            Prop::KeyValue(nested(33)),
            Prop::Other(vec![nested(34)]),
        ])),
        Stmt::Expr(Expr::Class(vec![ClassMember::Method(function(35, busy()))])),
        Stmt::Expr(Expr::Other(vec![nested(36)])),
        Stmt::Expr(Expr::Arrow(ArrowExpr {
            span: Span { lo: 37, hi: 38 },
            body: BlockStmtOrExpr::Expr(Box::new(nested(38))),
        })),
    ];
    let items = vec![ModuleItem::Stmt(Stmt::Decl(Decl::Fn(function(0, body))))];
    let found: Vec<usize> = findings(&items).iter().map(|f| f.0).collect();
    // the outer function branches and loops enough to be found itself; the
    // arrow function at 37 only holds a function and is not
    let mut expected: Vec<usize> = (0..37).collect();
    expected.push(38);
    assert_eq!(found, expected);
}

#[test]
fn arrow_function_with_an_expression_body() {
    let arrow = ArrowExpr {
        span: Span { lo: 7, hi: 30 },
        body: BlockStmtOrExpr::Expr(Box::new(sum(8))),
    };
    let items = vec![ModuleItem::Stmt(Stmt::Decl(Decl::Var(vec![Expr::Arrow(arrow)])))];
    // raw 5.0 of a ceiling of 4
    assert_eq!(findings(&items), vec![(7, 10)]);
}

#[test]
fn function_without_a_body_is_passed_over() {
    let items = vec![
        ModuleItem::Stmt(Stmt::Decl(Decl::Fn(Function { span: Span { lo: 1, hi: 2 }, body: None }))),
        ModuleItem::Stmt(Stmt::Decl(Decl::Fn(function(2, busy())))),
    ];
    assert_eq!(findings(&items), vec![(2, 10)]);
}

#[test]
fn thresholds_decide_what_is_found() {
    let lenient = Metrics {
        cyclomatic_complexity: 10,
        loop_depth: 5,
        arithmetic_operations: 10,
        string_operations: 0,
    };
    let ceiling = MaxScores::from_thresholds(&lenient);
    let items = vec![ModuleItem::Stmt(Stmt::Decl(Decl::Fn(function(2, busy()))))];
    let mut function_likes = Vec::new();
    extract_functions(&items, &mut function_likes);
    assert_eq!(do_analytics(&function_likes, &lenient, &ceiling), vec![]);
}

#[test]
fn visiting_appends_to_the_findings() {
    let thresholds = Metrics::new();
    let ceiling = MaxScores::from_thresholds(&thresholds);
    let mut found = vec![Finding { span: Span { lo: 99, hi: 100 }, score: 4 }];
    visit_function(&function(1, busy()), &thresholds, &ceiling, &mut found);
    visit_function(&function(2, calm()), &thresholds, &ceiling, &mut found);
    visit_arrow_expr(
        &ArrowExpr { span: Span { lo: 3, hi: 4 }, body: BlockStmtOrExpr::BlockStmt(busy()) },
        &thresholds,
        &ceiling,
        &mut found,
    );
    assert_eq!(
        found,
        vec![
            Finding { span: Span { lo: 99, hi: 100 }, score: 4 },
            Finding { span: Span { lo: 1, hi: 2 }, score: 10 },
            Finding { span: Span { lo: 3, hi: 4 }, score: 10 },
        ]
    );
}
