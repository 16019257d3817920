//! The syntactic forms that define a callable body.

use vstd::prelude::*;
use vstd::string::StringExecFns;
use crate::syntax::{ArrowExpr, BlockStmtOrExpr, Expr, Function, Span, Stmt};

verus! {

/// A handle on one function-like node of the tree.
#[derive(Debug)]
pub enum FunctionLike<'a> {
    FunctionDecl(&'a Function),
    FunctionExpr(&'a Function),
    ArrowFunction(&'a ArrowExpr),
    Method(&'a Function),
    PropMethod(&'a Function),
}

/// The body of a function-like node: statements, or the single expression of
/// an arrow function.
#[derive(Debug)]
pub enum Body<'a> {
    BlockStmt(&'a Vec<Stmt>),
    Expr(&'a Expr),
}

/// Gives the body of a function-like node.
pub trait FunctionBody<'a> {
    /// The body, if the node has one.
    spec fn body(&self) -> Option<Body<'a>>;

    /// What is reported where the node has no body.
    spec fn missing_body(&self) -> Seq<char>;

    /// The body, or a message saying which kind of node is without one.
    fn get_body(&self) -> (body: Result<Body<'a>, String>)
        ensures
            match body {
                Ok(b) => self.body() == Some(b),
                Err(message) => self.body() is None && message@ == self.missing_body(),
            },
    ;
}

impl<'a> FunctionLike<'a> {
    /// The node's range in the source text.
    pub open spec fn spec_span(&self) -> Span {
        match *self {
            FunctionLike::FunctionDecl(f) => f.span,
            FunctionLike::FunctionExpr(f) => f.span,
            FunctionLike::ArrowFunction(a) => a.span,
            FunctionLike::Method(f) => f.span,
            FunctionLike::PropMethod(f) => f.span,
        }
    }

    /// The node's range in the source text.
    pub fn span(&self) -> (span: Span)
        ensures
            span == self.spec_span(),
    {
        match self {
            FunctionLike::FunctionDecl(fn_decl) => fn_decl.span,
            FunctionLike::FunctionExpr(fn_expr) => fn_expr.span,
            FunctionLike::ArrowFunction(arrow_expr) => arrow_expr.span,
            FunctionLike::Method(class_method) => class_method.span,
            FunctionLike::PropMethod(prop_method) => prop_method.span,
        }
    }
}

/// The statements of a function, if it has a body.
pub open spec fn block_of<'a>(f: &'a Function) -> Option<Body<'a>> {
    match &f.body {
        Some(stmts) => Some(Body::BlockStmt(stmts)),
        None => None,
    }
}

fn block_or<'a>(f: &'a Function, message: &str) -> (body: Result<Body<'a>, String>)
    ensures
        match body {
            Ok(b) => block_of(f) == Some(b),
            Err(m) => block_of(f) is None && m@ == message@,
        },
{
    match &f.body {
        Some(stmts) => Ok(Body::BlockStmt(stmts)),
        None => Err(String::from_str(message)),
    }
}

impl<'a> FunctionBody<'a> for FunctionLike<'a> {
    open spec fn body(&self) -> Option<Body<'a>> {
        match *self {
            FunctionLike::FunctionDecl(f) => block_of(f),
            FunctionLike::FunctionExpr(f) => block_of(f),
            FunctionLike::ArrowFunction(a) => match &a.body {
                BlockStmtOrExpr::BlockStmt(stmts) => Some(Body::BlockStmt(stmts)),
                BlockStmtOrExpr::Expr(e) => Some(Body::Expr(&**e)),
            },
            FunctionLike::Method(f) => block_of(f),
            FunctionLike::PropMethod(f) => block_of(f),
        }
    }

    open spec fn missing_body(&self) -> Seq<char> {
        match *self {
            FunctionLike::FunctionDecl(_) => "FunctionDecl body is missing"@,
            FunctionLike::FunctionExpr(_) => "FunctionExpr body is missing"@,
            FunctionLike::ArrowFunction(_) => "ArrowFunction body is missing"@,
            FunctionLike::Method(_) => "Method body is missing"@,
            FunctionLike::PropMethod(_) => "PropMethod body is missing"@,
        }
    }

    fn get_body(&self) -> (body: Result<Body<'a>, String>) {
        match self {
            FunctionLike::FunctionDecl(fn_decl) => block_or(
                fn_decl,
                "FunctionDecl body is missing",
            ),
            FunctionLike::FunctionExpr(fn_expr) => block_or(
                fn_expr,
                "FunctionExpr body is missing",
            ),
            FunctionLike::ArrowFunction(arrow_expr) => {
                match &arrow_expr.body {
                    BlockStmtOrExpr::BlockStmt(stmts) => Ok(Body::BlockStmt(stmts)),
                    BlockStmtOrExpr::Expr(e) => Ok(Body::Expr(e)),
                }
            },
            FunctionLike::Method(method) => block_or(method, "Method body is missing"),
            FunctionLike::PropMethod(prop_method) => block_or(
                prop_method,
                "PropMethod body is missing",
            ),
        }
    }
}

} // verus!
