//! The syntax tree that the analysis walks.
//!
//! The tree keeps what the metrics and the function search read: the shape of
//! statements and expressions, where functions are defined, where loops and
//! branches sit, and which operators and literals occur. Everything else is
//! folded into the `Other` variants, which only carry their children in
//! source order.

use vstd::prelude::*;

verus! {

/// A range of byte offsets into the text of one source file.
#[derive(Clone, Copy, Debug, PartialEq, Eq, Structural)]
pub struct Span {
    pub lo: usize,
    pub hi: usize,
}

/// The operator of a binary expression, as far as the metrics tell operators apart.
#[derive(Clone, Copy, Debug, PartialEq, Eq, Structural)]
pub enum BinaryOp {
    Add,
    Sub,
    Mul,
    Div,
    LogicalAnd,
    LogicalOr,
    Other,
}

/// A function with a statement body: the common part of function
/// declarations, function expressions, class methods and object-literal methods.
/// An ambient declaration has no body.
#[derive(Debug)]
pub struct Function {
    pub span: Span,
    pub body: Option<Vec<Stmt>>,
}

/// The body of an arrow function.
#[derive(Debug)]
pub enum BlockStmtOrExpr {
    BlockStmt(Vec<Stmt>),
    Expr(Box<Expr>),
}

/// An arrow function.
#[derive(Debug)]
pub struct ArrowExpr {
    pub span: Span,
    pub body: BlockStmtOrExpr,
}

/// The property of a member access.
#[derive(Debug)]
pub enum MemberProp {
    /// `object.name`
    Ident(String),
    /// `object[expression]`
    Computed(Box<Expr>),
    /// Any other form, such as a private name.
    Other,
}

/// One entry of an object literal.
#[derive(Debug)]
pub enum Prop {
    /// `name() { .. }`
    Method(Function),
    /// `key: value`
    KeyValue(Expr),
    /// Any other entry, with the expressions it holds.
    Other(Vec<Expr>),
}

/// One member of a class body.
#[derive(Debug)]
pub enum ClassMember {
    Method(Function),
    /// Any other member, with the statements it holds.
    Other(Vec<Stmt>),
}

#[derive(Debug)]
#[allow(inconsistent_fields)]
pub enum Expr {
    Bin { op: BinaryOp, left: Box<Expr>, right: Box<Expr> },
    /// `test ? cons : alt`
    Cond { test: Box<Expr>, cons: Box<Expr>, alt: Box<Expr> },
    Paren(Box<Expr>),
    /// A string literal.
    Str,
    /// A template literal, with its interpolated expressions.
    Tpl(Vec<Expr>),
    Call { callee: Box<Expr>, args: Vec<Expr> },
    Member { obj: Box<Expr>, prop: MemberProp },
    Fn(Function),
    Arrow(ArrowExpr),
    Object(Vec<Prop>),
    Class(Vec<ClassMember>),
    /// Any other expression, with its sub-expressions.
    Other(Vec<Expr>),
}

#[derive(Debug)]
pub enum Decl {
    Fn(Function),
    /// A variable declaration, given by the initializers of its declarators.
    Var(Vec<Expr>),
    Class(Vec<ClassMember>),
    /// Any other declaration; it holds nothing that is analyzed.
    Other,
}

/// One `case` or `default` clause of a `switch`.
#[derive(Debug)]
pub struct SwitchCase {
    pub test: Option<Expr>,
    pub cons: Vec<Stmt>,
}

#[derive(Debug)]
#[allow(inconsistent_fields)]
pub enum Stmt {
    Block(Vec<Stmt>),
    If { test: Expr, cons: Box<Stmt>, alt: Option<Box<Stmt>> },
    Switch { discriminant: Expr, cases: Vec<SwitchCase> },
    For { init: Option<Box<Stmt>>, test: Option<Expr>, update: Option<Expr>, body: Box<Stmt> },
    While { test: Expr, body: Box<Stmt> },
    DoWhile { body: Box<Stmt>, test: Expr },
    Return(Option<Expr>),
    Decl(Decl),
    Expr(Expr),
    /// Any other statement, with the statements it holds; an expression it
    /// holds stands there as an expression statement.
    Other(Vec<Stmt>),
}

/// One top-level item of a module.
#[derive(Debug)]
pub enum ModuleItem {
    Stmt(Stmt),
    /// `export` followed by a declaration.
    ExportDecl(Decl),
    /// Any other module declaration, such as an import.
    Other,
}

} // verus!
