//! Branches and arithmetic: what a single node adds to the counts.

use vstd::prelude::*;
use crate::syntax::{BinaryOp, Expr, Stmt};
use crate::tally::{expr_own, stmt_own, Tally};
use crate::visitor::{clip, FunctionAnalysisVisitor};

verus! {

/// Adds what the statement itself counts for: one for an `if` and for each
/// loop, and one for each clause of a `switch`.
pub fn analyze_statement(stmt: &Stmt, complexity: &mut usize)
    ensures
        *final(complexity) == clip(*old(complexity) + stmt_own(*stmt).complexity),
{
    match stmt {
        Stmt::If { .. } => {
            *complexity = complexity.saturating_add(1);
        },
        Stmt::Switch { discriminant: _, cases } => {
            *complexity = complexity.saturating_add(cases.len());
        },
        Stmt::For { .. } | Stmt::While { .. } | Stmt::DoWhile { .. } => {
            *complexity = complexity.saturating_add(1);
        },
        _ => {},
    }
}

/// Adds what the expression itself counts for as a branch or as arithmetic:
/// one operation for `+ - * /`, one branch for `&&`, `||` and `?:`.
pub fn analyze_expression(visitor: &mut FunctionAnalysisVisitor, expr: &Expr)
    ensures
        *final(visitor) == old(visitor).absorbed(
            Tally {
                complexity: expr_own(*expr).complexity,
                depth: 0,
                arithmetic: expr_own(*expr).arithmetic,
                strings: 0,
            },
        ),
{
    reveal(FunctionAnalysisVisitor::absorbed);
    match expr {
        Expr::Bin { op, .. } => {
            match op {
                BinaryOp::Add | BinaryOp::Sub | BinaryOp::Mul | BinaryOp::Div => {
                    visitor.arithmetic_operations = visitor.arithmetic_operations.saturating_add(1);
                },
                BinaryOp::LogicalAnd | BinaryOp::LogicalOr => {
                    visitor.cyclomatic_complexity = visitor.cyclomatic_complexity.saturating_add(1);
                },
                BinaryOp::Other => {},
            }
        },
        Expr::Cond { .. } => {
            visitor.cyclomatic_complexity = visitor.cyclomatic_complexity.saturating_add(1);
        },
        _ => {},
    }
}

} // verus!
