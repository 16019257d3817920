use wasm_grate::extract_functions::extract_functions;
use wasm_grate::function_like::{Body, FunctionBody, FunctionLike};
use wasm_grate::syntax::{
    ArrowExpr, BinaryOp, BlockStmtOrExpr, ClassMember, Decl, Expr, Function, MemberProp,
    ModuleItem, Prop, Span, Stmt,
};

fn ident() -> Expr {
    Expr::Other(vec![])
}

fn function(at: usize) -> Function {
    Function { span: Span { lo: at, hi: at + 1 }, body: Some(vec![]) }
}

fn arrow(at: usize) -> ArrowExpr {
    ArrowExpr { span: Span { lo: at, hi: at + 1 }, body: BlockStmtOrExpr::Expr(Box::new(ident())) }
}

fn call(args: Vec<Expr>) -> Expr {
    Expr::Call { callee: Box::new(ident()), args }
}

/// The kind and the start of each function-like that is found.
fn located(items: &[ModuleItem]) -> Vec<(&'static str, usize)> {
    let mut function_likes = Vec::new();
    extract_functions(items, &mut function_likes);
    function_likes
        .iter()
        .map(|f| {
            let kind = match f {
                FunctionLike::FunctionDecl(_) => "decl",
                FunctionLike::FunctionExpr(_) => "expr",
                FunctionLike::ArrowFunction(_) => "arrow",
                FunctionLike::Method(_) => "method",
                FunctionLike::PropMethod(_) => "prop",
            };
            (kind, f.span().lo)
        })
        .collect()
}

#[test]
fn empty_module_has_no_functions() {
    assert_eq!(located(&[]), vec![]);
}

#[test]
fn function_declarations_are_found() {
    let items = vec![
        ModuleItem::Stmt(Stmt::Decl(Decl::Fn(function(1)))),
        ModuleItem::Stmt(Stmt::Decl(Decl::Fn(function(2)))),
    ];
    assert_eq!(located(&items), vec![("decl", 1), ("decl", 2)]);
}

#[test]
fn initializers_of_variables_are_searched() {
    let items = vec![ModuleItem::Stmt(Stmt::Decl(Decl::Var(vec![
        Expr::Fn(function(1)),
        ident(),
        Expr::Arrow(arrow(2)),
        Expr::Str,
    ])))];
    assert_eq!(located(&items), vec![("expr", 1), ("arrow", 2)]);
}

#[test]
fn expression_statements_are_searched() {
    let items = vec![
        ModuleItem::Stmt(Stmt::Expr(Expr::Arrow(arrow(1)))),
        ModuleItem::Stmt(Stmt::Expr(Expr::Fn(function(2)))),
    ];
    assert_eq!(located(&items), vec![("arrow", 1), ("expr", 2)]);
}

#[test]
fn exported_declarations_are_searched() {
    let items = vec![
        ModuleItem::ExportDecl(Decl::Fn(function(1))),
        ModuleItem::ExportDecl(Decl::Var(vec![Expr::Arrow(arrow(2))])),
        ModuleItem::ExportDecl(Decl::Class(vec![ClassMember::Method(function(3))])),
        ModuleItem::ExportDecl(Decl::Other),
        ModuleItem::Other,
    ];
    assert_eq!(located(&items), vec![("decl", 1), ("arrow", 2), ("method", 3)]);
}

#[test]
fn class_methods_are_found() {
    let items = vec![ModuleItem::Stmt(Stmt::Decl(Decl::Class(vec![
        ClassMember::Method(function(1)),
        ClassMember::Other(vec![Stmt::Expr(Expr::Fn(function(2)))]),
        ClassMember::Method(function(3)),
    ])))];
    assert_eq!(located(&items), vec![("method", 1), ("method", 3)]);
}

#[test]
fn arguments_of_calls_are_searched() {
    // setup(function () {}, 1, () => x)
    let items = vec![ModuleItem::Stmt(Stmt::Expr(call(vec![
        Expr::Fn(function(1)),
        ident(),
        Expr::Arrow(arrow(2)),
    ])))];
    assert_eq!(located(&items), vec![("expr", 1), ("arrow", 2)]);
}

#[test]
fn callee_of_a_call_is_not_searched() {
    let items = vec![ModuleItem::Stmt(Stmt::Expr(Expr::Call {
        callee: Box::new(Expr::Paren(Box::new(Expr::Fn(function(1))))),
        args: vec![Expr::Arrow(arrow(2))],
    }))];
    assert_eq!(located(&items), vec![("arrow", 2)]);
}

#[test]
fn object_literals_are_searched() {
    let items = vec![ModuleItem::Stmt(Stmt::Decl(Decl::Var(vec![Expr::Object(vec![
        Prop::Method(function(1)),
        Prop::KeyValue(Expr::Fn(function(2))),
        Prop::KeyValue(Expr::Str),
        Prop::Other(vec![Expr::Fn(function(3))]),
        Prop::KeyValue(Expr::Arrow(arrow(4))),
    ])])))];
    assert_eq!(located(&items), vec![("prop", 1), ("expr", 2), ("arrow", 4)]);
}

#[test]
fn calls_and_objects_are_searched_in_depth() {
    // a(b({ m() {}, k: c(() => x) }), function () {})
    let inner_object = Expr::Object(vec![
        Prop::Method(function(1)),
        Prop::KeyValue(call(vec![Expr::Arrow(arrow(2))])),
    ]);
    let items = vec![ModuleItem::Stmt(Stmt::Expr(call(vec![
        call(vec![inner_object]),
        Expr::Fn(function(3)),
    ])))];
    assert_eq!(located(&items), vec![("prop", 1), ("arrow", 2), ("expr", 3)]);
}

#[test]
fn other_places_are_not_searched() {
    let items = vec![
        ModuleItem::Stmt(Stmt::Expr(Expr::Paren(Box::new(Expr::Fn(function(1)))))),
        ModuleItem::Stmt(Stmt::Expr(Expr::Bin {
            op: BinaryOp::LogicalOr,
            left: Box::new(ident()),
            right: Box::new(Expr::Arrow(arrow(2))),
        })),
        ModuleItem::Stmt(Stmt::Expr(Expr::Member {
            obj: Box::new(Expr::Fn(function(3))),
            prop: MemberProp::Ident("call".to_string()),
        })),
        ModuleItem::Stmt(Stmt::Block(vec![Stmt::Decl(Decl::Fn(function(4)))])),
        ModuleItem::Stmt(Stmt::Return(Some(Expr::Fn(function(5))))),
        ModuleItem::Stmt(Stmt::Expr(Expr::Class(vec![ClassMember::Method(function(6))]))),
    ];
    assert_eq!(located(&items), vec![]);
}

#[test]
fn bodies_of_found_functions_are_not_searched() {
    let outer = Function {
        span: Span { lo: 1, hi: 9 },
        body: Some(vec![Stmt::Decl(Decl::Fn(function(2)))]),
    };
    let items = vec![ModuleItem::Stmt(Stmt::Decl(Decl::Fn(outer)))];
    assert_eq!(located(&items), vec![("decl", 1)]);
}

#[test]
fn found_functions_are_appended_in_source_order() {
    let first = vec![ModuleItem::Stmt(Stmt::Decl(Decl::Fn(function(1))))];
    let second = vec![
        ModuleItem::Stmt(Stmt::Expr(Expr::Arrow(arrow(2)))),
        ModuleItem::Stmt(Stmt::Decl(Decl::Fn(function(3)))),
    ];
    let mut function_likes = Vec::new();
    extract_functions(&first, &mut function_likes);
    extract_functions(&second, &mut function_likes);
    let starts: Vec<usize> = function_likes.iter().map(|f| f.span().lo).collect();
    assert_eq!(starts, vec![1, 2, 3]);
}

#[test]
fn span_is_that_of_the_node() {
    let f = Function { span: Span { lo: 3, hi: 17 }, body: None };
    let a = arrow(40);
    assert_eq!(FunctionLike::FunctionDecl(&f).span(), Span { lo: 3, hi: 17 });
    assert_eq!(FunctionLike::FunctionExpr(&f).span(), Span { lo: 3, hi: 17 });
    assert_eq!(FunctionLike::Method(&f).span(), Span { lo: 3, hi: 17 });
    assert_eq!(FunctionLike::PropMethod(&f).span(), Span { lo: 3, hi: 17 });
    assert_eq!(FunctionLike::ArrowFunction(&a).span(), Span { lo: 40, hi: 41 });
}

#[test]
fn body_of_a_function() {
    let f = Function { span: Span { lo: 0, hi: 1 }, body: Some(vec![Stmt::Return(None)]) };
    match FunctionLike::FunctionDecl(&f).get_body() {
        Ok(Body::BlockStmt(stmts)) => assert_eq!(stmts.len(), 1),
        _ => unreachable!(),
    }
}

#[test]
fn body_of_an_arrow_function() {
    let with_expression = arrow(0);
    assert!(matches!(
        FunctionLike::ArrowFunction(&with_expression).get_body(),
        Ok(Body::Expr(Expr::Other(_)))
    ));
    let with_block = ArrowExpr {
        span: Span { lo: 0, hi: 1 },
        body: BlockStmtOrExpr::BlockStmt(vec![Stmt::Return(None), Stmt::Return(None)]),
    };
    match FunctionLike::ArrowFunction(&with_block).get_body() {
        Ok(Body::BlockStmt(stmts)) => assert_eq!(stmts.len(), 2),
        _ => unreachable!(),
    }
}

#[test]
fn missing_body_is_an_error() {
    let f = Function { span: Span { lo: 0, hi: 1 }, body: None };
    assert_eq!(
        FunctionLike::FunctionDecl(&f).get_body().unwrap_err(),
        "FunctionDecl body is missing"
    );
    assert_eq!(
        FunctionLike::FunctionExpr(&f).get_body().unwrap_err(),
        "FunctionExpr body is missing"
    );
    assert_eq!(FunctionLike::Method(&f).get_body().unwrap_err(), "Method body is missing");
    assert_eq!(FunctionLike::PropMethod(&f).get_body().unwrap_err(), "PropMethod body is missing");
}
