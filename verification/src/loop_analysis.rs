//! Loops and the depth of their nesting.

use vstd::prelude::*;
use crate::syntax::Stmt;
use crate::tally::stmt_tally;
use crate::visitor::FunctionAnalysisVisitor;

verus! {

/// The body of a `for`, `while` or `do`-`while` loop; nothing for any other statement.
pub fn extract_loop_body(stmt: &Stmt) -> (body: Option<&Box<Stmt>>)
    ensures
        match *stmt {
            Stmt::For { init: _, test: _, update: _, body: b } => body == Some(&b),
            Stmt::While { test: _, body: b } => body == Some(&b),
            Stmt::DoWhile { body: b, test: _ } => body == Some(&b),
            _ => body is None,
        },
{
    match stmt {
        Stmt::For { init: _, test: _, update: _, body } => Some(body),
        Stmt::While { test: _, body } => Some(body),
        Stmt::DoWhile { body, test: _ } => Some(body),
        _ => None,
    }
}

/// Walks the body of a loop one level deeper than the loop itself stands.
pub fn handle_loop(visitor: &mut FunctionAnalysisVisitor, body: &Box<Stmt>)
    ensures
        *final(visitor) == old(visitor).absorbed(stmt_tally(**body).nested()),
    decreases body, 3nat,
{
    reveal(FunctionAnalysisVisitor::absorbed);
    let outside = visitor.current_loop_depth;
    visitor.current_loop_depth = outside.saturating_add(1);
    if visitor.current_loop_depth > visitor.max_loop_depth {
        visitor.max_loop_depth = visitor.current_loop_depth;
    }
    _process_loop_body(body, visitor);
    visitor.current_loop_depth = outside;
}

fn _process_loop_body(body: &Box<Stmt>, visitor: &mut FunctionAnalysisVisitor)
    ensures
        *final(visitor) == old(visitor).absorbed(stmt_tally(**body)),
    decreases body, 2nat,
{
    if let Stmt::Block(stmts) = &**body {
        visitor.analyze_function_body(stmts);
    } else {
        visitor.analyze_statement(body);
    }
}

} // verus!
