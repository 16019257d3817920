//! The function-like locator: finds the functions that a module defines.
//!
//! The search looks where functions are usually defined: in declarations,
//! initializers of variables, expression statements, exported declarations,
//! class bodies, arguments of calls and values of object literals. It does
//! not look into the bodies of the functions it finds.

use vstd::prelude::*;
use crate::function_like::FunctionLike;
use crate::syntax::{ClassMember, Decl, Expr, ModuleItem, Prop, Stmt};

verus! {

/// The function-likes that the search finds in an expression, in source order.
pub open spec fn functions_in_expr<'a>(e: &'a Expr) -> Seq<FunctionLike<'a>>
    decreases e,
{
    match e {
        Expr::Fn(f) => seq![FunctionLike::FunctionExpr(f)],
        Expr::Arrow(a) => seq![FunctionLike::ArrowFunction(a)],
        Expr::Call { callee: _, args } => functions_in_exprs(args),
        Expr::Object(props) => functions_in_props(props),
        _ => Seq::empty(),
    }
}

/// The function-likes found in the first `n` of the expressions.
pub open spec fn functions_in_exprs_to<'a>(exprs: &'a Vec<Expr>, n: nat) -> Seq<FunctionLike<'a>>
    decreases exprs, n,
{
    if n == 0 || n > exprs@.len() {
        Seq::empty()
    } else {
        functions_in_exprs_to(exprs, (n - 1) as nat) + functions_in_expr(&exprs@[n - 1])
    }
}

pub open spec fn functions_in_exprs<'a>(exprs: &'a Vec<Expr>) -> Seq<FunctionLike<'a>>
    decreases exprs, exprs@.len() + 1,
{
    functions_in_exprs_to(exprs, exprs@.len())
}

/// The function-likes found in one entry of an object literal.
pub open spec fn functions_in_prop<'a>(p: &'a Prop) -> Seq<FunctionLike<'a>>
    decreases p,
{
    match p {
        Prop::Method(f) => seq![FunctionLike::PropMethod(f)],
        Prop::KeyValue(value) => functions_in_expr(value),
        Prop::Other(_) => Seq::empty(),
    }
}

pub open spec fn functions_in_props_to<'a>(props: &'a Vec<Prop>, n: nat) -> Seq<FunctionLike<'a>>
    decreases props, n,
{
    if n == 0 || n > props@.len() {
        Seq::empty()
    } else {
        functions_in_props_to(props, (n - 1) as nat) + functions_in_prop(&props@[n - 1])
    }
}

pub open spec fn functions_in_props<'a>(props: &'a Vec<Prop>) -> Seq<FunctionLike<'a>>
    decreases props, props@.len() + 1,
{
    functions_in_props_to(props, props@.len())
}

/// The methods among the first `n` members of a class body.
pub open spec fn functions_in_members_to<'a>(members: &'a Vec<ClassMember>, n: nat) -> Seq<
    FunctionLike<'a>,
>
    decreases n,
{
    if n == 0 || n > members@.len() {
        Seq::empty()
    } else {
        functions_in_members_to(members, (n - 1) as nat) + (match &members@[n - 1] {
            ClassMember::Method(f) => seq![FunctionLike::Method(f)],
            ClassMember::Other(_) => Seq::empty(),
        })
    }
}

/// The methods of a class body, in source order.
pub open spec fn functions_in_members<'a>(members: &'a Vec<ClassMember>) -> Seq<FunctionLike<'a>> {
    functions_in_members_to(members, members@.len())
}

/// The function-likes found in a declaration.
pub open spec fn functions_in_decl<'a>(d: &'a Decl) -> Seq<FunctionLike<'a>> {
    match d {
        Decl::Fn(f) => seq![FunctionLike::FunctionDecl(f)],
        Decl::Var(inits) => functions_in_exprs(inits),
        Decl::Class(members) => functions_in_members(members),
        Decl::Other => Seq::empty(),
    }
}

/// The function-likes found in one top-level item.
pub open spec fn functions_in_item<'a>(item: &'a ModuleItem) -> Seq<FunctionLike<'a>> {
    match item {
        ModuleItem::Stmt(Stmt::Decl(decl)) => functions_in_decl(decl),
        ModuleItem::Stmt(Stmt::Expr(e)) => functions_in_expr(e),
        ModuleItem::ExportDecl(decl) => functions_in_decl(decl),
        _ => Seq::empty(),
    }
}

/// The function-likes found in the first `n` top-level items.
pub open spec fn functions_in_items<'a>(items: &'a [ModuleItem], n: nat) -> Seq<FunctionLike<'a>>
    decreases n,
{
    if n == 0 || n > items@.len() {
        Seq::empty()
    } else {
        functions_in_items(items, (n - 1) as nat) + functions_in_item(&items@[n - 1])
    }
}

/// The function-likes of a module, in source order.
pub open spec fn module_functions<'a>(items: &'a [ModuleItem]) -> Seq<FunctionLike<'a>> {
    functions_in_items(items, items@.len())
}

/// Appends the function-likes of a module to `function_likes`, in source order.
pub fn extract_functions<'a>(items: &'a [ModuleItem], function_likes: &mut Vec<FunctionLike<'a>>)
    ensures
        final(function_likes)@ == old(function_likes)@ + module_functions(items),
{
    let mut i: usize = 0;
    while i < items.len()
        invariant
            i <= items.len(),
            function_likes@ == old(function_likes)@ + functions_in_items(items, i as nat),
        decreases items.len() - i,
    {
        let item = &items[i];
        match item {
            ModuleItem::Stmt(Stmt::Decl(decl)) => _handle_declaration(decl, function_likes),
            ModuleItem::Stmt(Stmt::Expr(e)) => _extract_from_expression(e, function_likes),
            ModuleItem::ExportDecl(decl) => _handle_declaration(decl, function_likes),
            _ => {},
        }
        i += 1;
    }
}

fn _handle_declaration<'a>(decl: &'a Decl, function_likes: &mut Vec<FunctionLike<'a>>)
    ensures
        final(function_likes)@ == old(function_likes)@ + functions_in_decl(decl),
{
    match decl {
        Decl::Fn(fn_decl) => function_likes.push(FunctionLike::FunctionDecl(fn_decl)),
        Decl::Var(inits) => _extract_from_variable_declaration(inits, function_likes),
        Decl::Class(members) => _extract_from_class_declaration(members, function_likes),
        Decl::Other => {},
    }
}

fn _extract_from_expression<'a>(expr: &'a Expr, function_likes: &mut Vec<FunctionLike<'a>>)
    ensures
        final(function_likes)@ == old(function_likes)@ + functions_in_expr(expr),
    decreases expr, 0nat,
{
    match expr {
        Expr::Fn(fn_expr) => function_likes.push(FunctionLike::FunctionExpr(fn_expr)),
        Expr::Arrow(arrow_expr) => function_likes.push(FunctionLike::ArrowFunction(arrow_expr)),
        Expr::Call { callee: _, args } => _extract_from_call_expression(args, function_likes),
        Expr::Object(props) => _extract_from_object_expression(props, function_likes),
        _ => {},
    }
}

fn _extract_from_variable_declaration<'a>(
    inits: &'a Vec<Expr>,
    function_likes: &mut Vec<FunctionLike<'a>>,
)
    ensures
        final(function_likes)@ == old(function_likes)@ + functions_in_exprs(inits),
{
    _extract_from_call_expression(inits, function_likes);
}

fn _extract_from_class_declaration<'a>(
    members: &'a Vec<ClassMember>,
    function_likes: &mut Vec<FunctionLike<'a>>,
)
    ensures
        final(function_likes)@ == old(function_likes)@ + functions_in_members(members),
{
    let mut i: usize = 0;
    while i < members.len()
        invariant
            i <= members.len(),
            function_likes@ == old(function_likes)@ + functions_in_members_to(members, i as nat),
        decreases members.len() - i,
    {
        if let ClassMember::Method(method) = &members[i] {
            function_likes.push(FunctionLike::Method(method));
        }
        i += 1;
    }
}

fn _extract_from_call_expression<'a>(
    args: &'a Vec<Expr>,
    function_likes: &mut Vec<FunctionLike<'a>>,
)
    ensures
        final(function_likes)@ == old(function_likes)@ + functions_in_exprs(args),
    decreases args, 1nat,
{
    let mut i: usize = 0;
    while i < args.len()
        invariant
            i <= args.len(),
            function_likes@ == old(function_likes)@ + functions_in_exprs_to(args, i as nat),
        decreases args.len() - i,
    {
        _extract_from_expression(&args[i], function_likes);
        i += 1;
    }
}

fn _extract_from_object_expression<'a>(
    props: &'a Vec<Prop>,
    function_likes: &mut Vec<FunctionLike<'a>>,
)
    ensures
        final(function_likes)@ == old(function_likes)@ + functions_in_props(props),
    decreases props, 1nat,
{
    let mut i: usize = 0;
    while i < props.len()
        invariant
            i <= props.len(),
            function_likes@ == old(function_likes)@ + functions_in_props_to(props, i as nat),
        decreases props.len() - i,
    {
        let ghost before = function_likes@;
        match &props[i] {
            Prop::Method(method) => function_likes.push(FunctionLike::PropMethod(method)),
            Prop::KeyValue(value) => _extract_from_expression(value, function_likes),
            Prop::Other(_) => {},
        }
        assert(function_likes@ == before + functions_in_prop(&props@[i as int]));
        i += 1;
    }
}

} // verus!
