//! String operations: literals, templates and calls of string methods.

use vstd::prelude::*;
use vstd::string::StringSliceAdditionalSpecFns;
use crate::syntax::{Expr, MemberProp};
use crate::tally::{expr_own, is_string_method, is_string_method_callee, Tally};
use crate::visitor::FunctionAnalysisVisitor;

verus! {

/// Whether two strings hold the same text.
fn same_text(a: &str, b: &str) -> (same: bool)
    ensures
        same == (a@ == b@),
{
    broadcast use {vstd::utf8::encode_utf8_decode_utf8, vstd::utf8::encode_utf8_valid_utf8};

    let x = a.as_bytes();
    let y = b.as_bytes();
    if x.len() != y.len() {
        return false;
    }
    let mut i: usize = 0;
    while i < x.len()
        invariant
            i <= x.len(),
            x.len() == y.len(),
            x@ == a.spec_bytes(),
            y@ == b.spec_bytes(),
            forall|k: int| 0 <= k < i ==> x@[k] == y@[k],
        decreases x.len() - i,
    {
        if x[i] != y[i] {
            return false;
        }
        i += 1;
    }
    assert(x@ =~= y@);
    assert(vstd::utf8::decode_utf8(a.spec_bytes()) == a@);
    assert(vstd::utf8::decode_utf8(b.spec_bytes()) == b@);
    true
}

/// Whether `name` is one of the string methods.
pub fn is_string_method_name(name: &str) -> (known: bool)
    ensures
        known == is_string_method(name@),
{
    same_text(name, "length") || same_text(name, "slice") || same_text(name, "substring")
        || same_text(name, "substr") || same_text(name, "replace") || same_text(
        name,
        "replaceAll",
    ) || same_text(name, "toUpperCase") || same_text(name, "toLowerCase") || same_text(
        name,
        "concat",
    ) || same_text(name, "trim") || same_text(name, "trimStart") || same_text(name, "trimEnd")
        || same_text(name, "padStart") || same_text(name, "padEnd") || same_text(name, "charAt")
        || same_text(name, "charCodeAt") || same_text(name, "split")
}

/// Whether a call with this callee is a call of a string method.
pub fn is_string_method_call(callee: &Expr) -> (known: bool)
    ensures
        known == is_string_method_callee(*callee),
{
    match callee {
        Expr::Member { obj: _, prop: MemberProp::Ident(name) } => is_string_method_name(
            name.as_str(),
        ),
        _ => false,
    }
}

/// Adds what the expression itself counts for as a string operation: one
/// for a string literal, for a template literal and for a call of a string method.
pub fn analyze_expression(visitor: &mut FunctionAnalysisVisitor, expr: &Expr)
    ensures
        *final(visitor) == old(visitor).absorbed(Tally::string_ops(expr_own(*expr).strings)),
{
    reveal(FunctionAnalysisVisitor::absorbed);
    match expr {
        Expr::Str | Expr::Tpl(_) => {
            visitor.string_operations = visitor.string_operations.saturating_add(1);
        },
        Expr::Call { callee, .. } => {
            if is_string_method_call(callee) {
                visitor.string_operations = visitor.string_operations.saturating_add(1);
            }
        },
        _ => {},
    }
}

} // verus!
