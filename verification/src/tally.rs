//! What a piece of syntax amounts to, as mathematical counts.
//!
//! A function is measured by the statements and expressions of its own body.
//! A function nested in that body is a unit of its own: it adds nothing to
//! the counts of the function around it.

use vstd::prelude::*;
use crate::function_like::Body;
use crate::syntax::{
    ArrowExpr, BinaryOp, ClassMember, Decl, Expr, Function, MemberProp, Prop, Stmt, SwitchCase,
};

verus! {

/// The four structural counts of a piece of syntax.
pub struct Tally {
    /// Branching constructs: `if`, `case`, loops, `&&`, `||`, `?:`.
    pub complexity: nat,
    /// The deepest nesting of loops.
    pub depth: nat,
    /// Binary `+`, `-`, `*` and `/`.
    pub arithmetic: nat,
    /// String literals, template literals and calls of string methods.
    pub strings: nat,
}

impl Tally {
    pub open spec fn zero() -> Tally {
        Tally { complexity: 0, depth: 0, arithmetic: 0, strings: 0 }
    }

    pub open spec fn branches(n: nat) -> Tally {
        Tally { complexity: n, depth: 0, arithmetic: 0, strings: 0 }
    }

    pub open spec fn arithmetic_ops(n: nat) -> Tally {
        Tally { complexity: 0, depth: 0, arithmetic: n, strings: 0 }
    }

    pub open spec fn string_ops(n: nat) -> Tally {
        Tally { complexity: 0, depth: 0, arithmetic: 0, strings: n }
    }

    /// Two pieces side by side: the counts add up, the deeper nesting wins.
    pub open spec fn plus(self, other: Tally) -> Tally {
        Tally {
            complexity: self.complexity + other.complexity,
            depth: if self.depth >= other.depth { self.depth } else { other.depth },
            arithmetic: self.arithmetic + other.arithmetic,
            strings: self.strings + other.strings,
        }
    }

    /// The same piece as the body of a loop: one level deeper.
    pub open spec fn nested(self) -> Tally {
        Tally {
            complexity: self.complexity,
            depth: self.depth + 1,
            arithmetic: self.arithmetic,
            strings: self.strings,
        }
    }
}

/// The method names whose call counts as a string operation.
pub open spec fn is_string_method(name: Seq<char>) -> bool {
    ||| name == "length"@
    ||| name == "slice"@
    ||| name == "substring"@
    ||| name == "substr"@
    ||| name == "replace"@
    ||| name == "replaceAll"@
    ||| name == "toUpperCase"@
    ||| name == "toLowerCase"@
    ||| name == "concat"@
    ||| name == "trim"@
    ||| name == "trimStart"@
    ||| name == "trimEnd"@
    ||| name == "padStart"@
    ||| name == "padEnd"@
    ||| name == "charAt"@
    ||| name == "charCodeAt"@
    ||| name == "split"@
}

/// Whether a call with this callee is a call of a string method: the callee
/// is a member access by name, and the name is one of the string methods.
pub open spec fn is_string_method_callee(callee: Expr) -> bool {
    match callee {
        Expr::Member { obj: _, prop: MemberProp::Ident(name) } => is_string_method(name@),
        _ => false,
    }
}

/// What a statement counts for by itself, its parts left out.
pub open spec fn stmt_own(s: Stmt) -> Tally {
    match s {
        Stmt::If { .. } => Tally::branches(1),
        Stmt::Switch { discriminant: _, cases } => Tally::branches(cases@.len()),
        Stmt::For { .. } | Stmt::While { .. } | Stmt::DoWhile { .. } => Tally::branches(1),
        _ => Tally::zero(),
    }
}

/// What an expression counts for by itself, its parts left out.
pub open spec fn expr_own(e: Expr) -> Tally {
    match e {
        Expr::Bin { op, .. } => match op {
            BinaryOp::Add | BinaryOp::Sub | BinaryOp::Mul | BinaryOp::Div => Tally::arithmetic_ops(
                1,
            ),
            BinaryOp::LogicalAnd | BinaryOp::LogicalOr => Tally::branches(1),
            BinaryOp::Other => Tally::zero(),
        },
        Expr::Cond { .. } => Tally::branches(1),
        Expr::Str => Tally::string_ops(1),
        Expr::Tpl(_) => Tally::string_ops(1),
        Expr::Call { callee, .. } => if is_string_method_callee(*callee) {
            Tally::string_ops(1)
        } else {
            Tally::zero()
        },
        _ => Tally::zero(),
    }
}

/// The counts of a statement with all its parts, nested functions left out.
pub open spec fn stmt_tally(s: Stmt) -> Tally
    decreases s,
{
    stmt_own(s).plus(
        match s {
            Stmt::Block(stmts) => stmts_tally(stmts@),
            Stmt::If { test, cons, alt } => expr_tally(test).plus(stmt_tally(*cons)).plus(
                match alt {
                    Some(alt) => stmt_tally(*alt),
                    None => Tally::zero(),
                },
            ),
            Stmt::Switch { discriminant, cases } => expr_tally(discriminant).plus(
                cases_tally(cases@),
            ),
            Stmt::For { init, test, update, body } => (match init {
                Some(init) => stmt_tally(*init),
                None => Tally::zero(),
            }).plus(
                match test {
                    Some(test) => expr_tally(test),
                    None => Tally::zero(),
                },
            ).plus(
                match update {
                    Some(update) => expr_tally(update),
                    None => Tally::zero(),
                },
            ).plus(stmt_tally(*body).nested()),
            Stmt::While { test, body } => expr_tally(test).plus(stmt_tally(*body).nested()),
            Stmt::DoWhile { body, test } => stmt_tally(*body).nested().plus(expr_tally(test)),
            Stmt::Return(arg) => match arg {
                Some(arg) => expr_tally(arg),
                None => Tally::zero(),
            },
            Stmt::Decl(Decl::Fn(_)) => Tally::zero(),
            Stmt::Decl(Decl::Var(inits)) => exprs_tally(inits@),
            Stmt::Decl(Decl::Class(members)) => members_tally(members@),
            Stmt::Decl(Decl::Other) => Tally::zero(),
            Stmt::Expr(e) => expr_tally(e),
            Stmt::Other(stmts) => stmts_tally(stmts@),
        },
    )
}

pub open spec fn stmts_tally(s: Seq<Stmt>) -> Tally
    decreases s,
{
    if s.len() == 0 {
        Tally::zero()
    } else {
        stmts_tally(s.drop_last()).plus(stmt_tally(s.last()))
    }
}

pub open spec fn case_tally(c: SwitchCase) -> Tally
    decreases c,
{
    (match c.test {
        Some(test) => expr_tally(test),
        None => Tally::zero(),
    }).plus(stmts_tally(c.cons@))
}

pub open spec fn cases_tally(s: Seq<SwitchCase>) -> Tally
    decreases s,
{
    if s.len() == 0 {
        Tally::zero()
    } else {
        cases_tally(s.drop_last()).plus(case_tally(s.last()))
    }
}

pub open spec fn member_tally(m: ClassMember) -> Tally
    decreases m,
{
    match m {
        ClassMember::Method(_) => Tally::zero(),
        ClassMember::Other(stmts) => stmts_tally(stmts@),
    }
}

pub open spec fn members_tally(s: Seq<ClassMember>) -> Tally
    decreases s,
{
    if s.len() == 0 {
        Tally::zero()
    } else {
        members_tally(s.drop_last()).plus(member_tally(s.last()))
    }
}

pub open spec fn prop_tally(p: Prop) -> Tally
    decreases p,
{
    match p {
        Prop::Method(_) => Tally::zero(),
        Prop::KeyValue(value) => expr_tally(value),
        Prop::Other(exprs) => exprs_tally(exprs@),
    }
}

pub open spec fn props_tally(s: Seq<Prop>) -> Tally
    decreases s,
{
    if s.len() == 0 {
        Tally::zero()
    } else {
        props_tally(s.drop_last()).plus(prop_tally(s.last()))
    }
}

/// The counts of an expression with all its parts, nested functions left out.
pub open spec fn expr_tally(e: Expr) -> Tally
    decreases e,
{
    expr_own(e).plus(
        match e {
            Expr::Bin { op: _, left, right } => expr_tally(*left).plus(expr_tally(*right)),
            Expr::Cond { test, cons, alt } => expr_tally(*test).plus(expr_tally(*cons)).plus(
                expr_tally(*alt),
            ),
            Expr::Paren(inner) => expr_tally(*inner),
            Expr::Str => Tally::zero(),
            Expr::Tpl(exprs) => exprs_tally(exprs@),
            Expr::Call { callee, args } => expr_tally(*callee).plus(exprs_tally(args@)),
            Expr::Member { obj, prop } => expr_tally(*obj).plus(
                match prop {
                    MemberProp::Computed(index) => expr_tally(*index),
                    _ => Tally::zero(),
                },
            ),
            Expr::Fn(_) => Tally::zero(),
            Expr::Arrow(_) => Tally::zero(),
            Expr::Object(props) => props_tally(props@),
            Expr::Class(members) => members_tally(members@),
            Expr::Other(exprs) => exprs_tally(exprs@),
        },
    )
}

pub open spec fn exprs_tally(s: Seq<Expr>) -> Tally
    decreases s,
{
    if s.len() == 0 {
        Tally::zero()
    } else {
        exprs_tally(s.drop_last()).plus(expr_tally(s.last()))
    }
}

/// The counts of the body of a function.
pub open spec fn body_tally(body: Body) -> Tally {
    match body {
        Body::BlockStmt(stmts) => stmts_tally(stmts@),
        Body::Expr(e) => expr_tally(*e),
    }
}

/// A function adds nothing to the counts of what it is nested in, whichever
/// form it has and wherever it stands.
pub proof fn lemma_nested_function_counts_nothing(f: Function, a: ArrowExpr)
    ensures
        stmt_tally(Stmt::Decl(Decl::Fn(f))) == Tally::zero(),
        expr_tally(Expr::Fn(f)) == Tally::zero(),
        expr_tally(Expr::Arrow(a)) == Tally::zero(),
        member_tally(ClassMember::Method(f)) == Tally::zero(),
        prop_tally(Prop::Method(f)) == Tally::zero(),
{
}

/// The three kinds of loop count alike: with the same test and the same body
/// a `for`, a `while` and a `do`-`while` loop have the same counts, and each
/// is one level deeper than its body.
pub proof fn lemma_loop_kinds_count_alike(test: Expr, body: Stmt)
    ensures
        stmt_tally(Stmt::While { test, body: Box::new(body) }) == stmt_tally(
            Stmt::DoWhile { body: Box::new(body), test },
        ),
        stmt_tally(Stmt::While { test, body: Box::new(body) }) == stmt_tally(
            Stmt::For { init: None, test: Some(test), update: None, body: Box::new(body) },
        ),
        stmt_tally(Stmt::While { test, body: Box::new(body) }).depth >= stmt_tally(body).depth + 1,
        expr_tally(test).depth <= stmt_tally(body).depth ==> stmt_tally(
            Stmt::While { test, body: Box::new(body) },
        ).depth == stmt_tally(body).depth + 1,
{
}

} // verus!
