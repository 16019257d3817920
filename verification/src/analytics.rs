//! Scores every function of a module, each by itself, and collects the ones
//! that are above the reporting threshold.
//!
//! A function is scored first, then the functions nested in its body, in
//! source order: the findings come in pre-order.

use vstd::prelude::*;
use crate::function_like::{Body, FunctionBody, FunctionLike};
use crate::max_scores::MaxScores;
use crate::metrics::Metrics;
use crate::scoring::{is_reported, normalized_score, raw_score, try_report_function, Finding};
use crate::syntax::{
    ArrowExpr, BlockStmtOrExpr, ClassMember, Decl, Expr, Function, MemberProp, Prop, Span, Stmt,
    SwitchCase,
};
use crate::tally::{expr_tally, stmts_tally, Tally};
use crate::visitor::FunctionAnalysisVisitor;

verus! {

/// The finding for a function whose body amounts to `t`, if it is reported.
pub open spec fn verdict(span: Span, t: Tally, thresholds: Metrics, ceiling: int) -> Seq<Finding> {
    let metrics = FunctionAnalysisVisitor::measured(t);
    if is_reported(metrics, thresholds, ceiling) {
        seq![
            Finding {
                span,
                score: normalized_score(raw_score(metrics, thresholds), ceiling) as usize,
            },
        ]
    } else {
        Seq::empty()
    }
}

/// The findings for a function and the functions nested in it.
pub open spec fn function_findings(f: Function, thresholds: Metrics, ceiling: int) -> Seq<Finding>
    decreases f,
{
    match f.body {
        Some(stmts) => verdict(f.span, stmts_tally(stmts@), thresholds, ceiling) + stmts_findings(
            stmts@,
            thresholds,
            ceiling,
        ),
        None => Seq::empty(),
    }
}

/// The findings for an arrow function and the functions nested in it.
pub open spec fn arrow_findings(a: ArrowExpr, thresholds: Metrics, ceiling: int) -> Seq<Finding>
    decreases a,
{
    match a.body {
        BlockStmtOrExpr::BlockStmt(stmts) => verdict(
            a.span,
            stmts_tally(stmts@),
            thresholds,
            ceiling,
        ) + stmts_findings(stmts@, thresholds, ceiling),
        BlockStmtOrExpr::Expr(e) => verdict(a.span, expr_tally(*e), thresholds, ceiling)
            + expr_findings(*e, thresholds, ceiling),
    }
}

/// The findings for the functions nested in a statement.
pub open spec fn stmt_findings(s: Stmt, thresholds: Metrics, ceiling: int) -> Seq<Finding>
    decreases s,
{
    match s {
        Stmt::Block(stmts) => stmts_findings(stmts@, thresholds, ceiling),
        Stmt::If { test, cons, alt } => expr_findings(test, thresholds, ceiling) + stmt_findings(
            *cons,
            thresholds,
            ceiling,
        ) + (match alt {
            Some(alt) => stmt_findings(*alt, thresholds, ceiling),
            None => Seq::empty(),
        }),
        Stmt::Switch { discriminant, cases } => expr_findings(discriminant, thresholds, ceiling)
            + cases_findings(cases@, thresholds, ceiling),
        Stmt::For { init, test, update, body } => (match init {
            Some(init) => stmt_findings(*init, thresholds, ceiling),
            None => Seq::empty(),
        }) + (match test {
            Some(test) => expr_findings(test, thresholds, ceiling),
            None => Seq::empty(),
        }) + (match update {
            Some(update) => expr_findings(update, thresholds, ceiling),
            None => Seq::empty(),
        }) + stmt_findings(*body, thresholds, ceiling),
        Stmt::While { test, body } => expr_findings(test, thresholds, ceiling) + stmt_findings(
            *body,
            thresholds,
            ceiling,
        ),
        Stmt::DoWhile { body, test } => stmt_findings(*body, thresholds, ceiling) + expr_findings(
            test,
            thresholds,
            ceiling,
        ),
        Stmt::Return(arg) => match arg {
            Some(arg) => expr_findings(arg, thresholds, ceiling),
            None => Seq::empty(),
        },
        Stmt::Decl(Decl::Fn(f)) => function_findings(f, thresholds, ceiling),
        Stmt::Decl(Decl::Var(inits)) => exprs_findings(inits@, thresholds, ceiling),
        Stmt::Decl(Decl::Class(members)) => members_findings(members@, thresholds, ceiling),
        Stmt::Decl(Decl::Other) => Seq::empty(),
        Stmt::Expr(e) => expr_findings(e, thresholds, ceiling),
        Stmt::Other(stmts) => stmts_findings(stmts@, thresholds, ceiling),
    }
}

pub open spec fn stmts_findings(s: Seq<Stmt>, thresholds: Metrics, ceiling: int) -> Seq<Finding>
    decreases s,
{
    if s.len() == 0 {
        Seq::empty()
    } else {
        stmts_findings(s.drop_last(), thresholds, ceiling) + stmt_findings(
            s.last(),
            thresholds,
            ceiling,
        )
    }
}

pub open spec fn case_findings(c: SwitchCase, thresholds: Metrics, ceiling: int) -> Seq<Finding>
    decreases c,
{
    (match c.test {
        Some(test) => expr_findings(test, thresholds, ceiling),
        None => Seq::empty(),
    }) + stmts_findings(c.cons@, thresholds, ceiling)
}

pub open spec fn cases_findings(s: Seq<SwitchCase>, thresholds: Metrics, ceiling: int) -> Seq<
    Finding,
>
    decreases s,
{
    if s.len() == 0 {
        Seq::empty()
    } else {
        cases_findings(s.drop_last(), thresholds, ceiling) + case_findings(
            s.last(),
            thresholds,
            ceiling,
        )
    }
}

pub open spec fn member_findings(m: ClassMember, thresholds: Metrics, ceiling: int) -> Seq<Finding>
    decreases m,
{
    match m {
        ClassMember::Method(f) => function_findings(f, thresholds, ceiling),
        ClassMember::Other(stmts) => stmts_findings(stmts@, thresholds, ceiling),
    }
}

pub open spec fn members_findings(s: Seq<ClassMember>, thresholds: Metrics, ceiling: int) -> Seq<
    Finding,
>
    decreases s,
{
    if s.len() == 0 {
        Seq::empty()
    } else {
        members_findings(s.drop_last(), thresholds, ceiling) + member_findings(
            s.last(),
            thresholds,
            ceiling,
        )
    }
}

pub open spec fn prop_findings(p: Prop, thresholds: Metrics, ceiling: int) -> Seq<Finding>
    decreases p,
{
    match p {
        Prop::Method(f) => function_findings(f, thresholds, ceiling),
        Prop::KeyValue(value) => expr_findings(value, thresholds, ceiling),
        Prop::Other(exprs) => exprs_findings(exprs@, thresholds, ceiling),
    }
}

pub open spec fn props_findings(s: Seq<Prop>, thresholds: Metrics, ceiling: int) -> Seq<Finding>
    decreases s,
{
    if s.len() == 0 {
        Seq::empty()
    } else {
        props_findings(s.drop_last(), thresholds, ceiling) + prop_findings(
            s.last(),
            thresholds,
            ceiling,
        )
    }
}

/// The findings for the functions nested in an expression.
pub open spec fn expr_findings(e: Expr, thresholds: Metrics, ceiling: int) -> Seq<Finding>
    decreases e,
{
    match e {
        Expr::Bin { op: _, left, right } => expr_findings(*left, thresholds, ceiling)
            + expr_findings(*right, thresholds, ceiling),
        Expr::Cond { test, cons, alt } => expr_findings(*test, thresholds, ceiling)
            + expr_findings(*cons, thresholds, ceiling) + expr_findings(*alt, thresholds, ceiling),
        Expr::Paren(inner) => expr_findings(*inner, thresholds, ceiling),
        Expr::Str => Seq::empty(),
        Expr::Tpl(exprs) => exprs_findings(exprs@, thresholds, ceiling),
        Expr::Call { callee, args } => expr_findings(*callee, thresholds, ceiling)
            + exprs_findings(args@, thresholds, ceiling),
        Expr::Member { obj, prop } => expr_findings(*obj, thresholds, ceiling) + (match prop {
            MemberProp::Computed(index) => expr_findings(*index, thresholds, ceiling),
            _ => Seq::empty(),
        }),
        Expr::Fn(f) => function_findings(f, thresholds, ceiling),
        Expr::Arrow(a) => arrow_findings(a, thresholds, ceiling),
        Expr::Object(props) => props_findings(props@, thresholds, ceiling),
        Expr::Class(members) => members_findings(members@, thresholds, ceiling),
        Expr::Other(exprs) => exprs_findings(exprs@, thresholds, ceiling),
    }
}

pub open spec fn exprs_findings(s: Seq<Expr>, thresholds: Metrics, ceiling: int) -> Seq<Finding>
    decreases s,
{
    if s.len() == 0 {
        Seq::empty()
    } else {
        exprs_findings(s.drop_last(), thresholds, ceiling) + expr_findings(
            s.last(),
            thresholds,
            ceiling,
        )
    }
}

/// The findings for one located function-like: for the function itself and
/// for the functions nested in it. One without a body gives none.
pub open spec fn function_like_findings(
    function_like: FunctionLike,
    thresholds: Metrics,
    ceiling: int,
) -> Seq<Finding> {
    match function_like {
        FunctionLike::FunctionDecl(f) => function_findings(*f, thresholds, ceiling),
        FunctionLike::FunctionExpr(f) => function_findings(*f, thresholds, ceiling),
        FunctionLike::ArrowFunction(a) => arrow_findings(*a, thresholds, ceiling),
        FunctionLike::Method(f) => function_findings(*f, thresholds, ceiling),
        FunctionLike::PropMethod(f) => function_findings(*f, thresholds, ceiling),
    }
}

/// The findings for a list of located function-likes, in the order of the list.
pub open spec fn all_findings(
    function_likes: Seq<FunctionLike>,
    thresholds: Metrics,
    ceiling: int,
) -> Seq<Finding>
    decreases function_likes.len(),
{
    if function_likes.len() == 0 {
        Seq::empty()
    } else {
        all_findings(function_likes.drop_last(), thresholds, ceiling) + function_like_findings(
            function_likes.last(),
            thresholds,
            ceiling,
        )
    }
}

/// A function with an empty body has one path and nothing else.
pub proof fn lemma_empty_body_has_one_path()
    ensures
        FunctionAnalysisVisitor::measured(stmts_tally(Seq::empty()))
            == FunctionAnalysisVisitor::fresh(),
        FunctionAnalysisVisitor::measured(stmts_tally(Seq::empty())).cyclomatic_complexity == 1,
{
    FunctionAnalysisVisitor::fresh().lemma_absorbed_zero();
}

/// A nested function is scored by itself: what is found for it is the same
/// wherever it stands, and starts with the verdict on its own body alone.
pub proof fn lemma_nested_function_is_scored_by_itself(
    f: Function,
    thresholds: Metrics,
    ceiling: int,
)
    ensures
        stmt_findings(Stmt::Decl(Decl::Fn(f)), thresholds, ceiling) == function_findings(
            f,
            thresholds,
            ceiling,
        ),
        expr_findings(Expr::Fn(f), thresholds, ceiling) == function_findings(
            f,
            thresholds,
            ceiling,
        ),
        member_findings(ClassMember::Method(f), thresholds, ceiling) == function_findings(
            f,
            thresholds,
            ceiling,
        ),
        prop_findings(Prop::Method(f), thresholds, ceiling) == function_findings(
            f,
            thresholds,
            ceiling,
        ),
        f.body matches Some(stmts) ==> function_findings(f, thresholds, ceiling) == verdict(
            f.span,
            stmts_tally(stmts@),
            thresholds,
            ceiling,
        ) + stmts_findings(stmts@, thresholds, ceiling),
{
}

/// Scores each located function-like and the functions nested in it, and
/// gives the findings in order. A function-like without a body is passed over.
pub fn do_analytics<'a>(
    function_likes: &Vec<FunctionLike<'a>>,
    thresholds: &Metrics,
    max_possible_score: &MaxScores,
) -> (findings: Vec<Finding>)
    ensures
        findings@ == all_findings(function_likes@, *thresholds, max_possible_score.ceiling()),
{
    let mut findings: Vec<Finding> = Vec::new();
    let mut i: usize = 0;
    while i < function_likes.len()
        invariant
            i <= function_likes.len(),
            findings@ == all_findings(
                function_likes@.take(i as int),
                *thresholds,
                max_possible_score.ceiling(),
            ),
        decreases function_likes.len() - i,
    {
        let function_like = &function_likes[i];
        let ghost before = findings@;
        match function_like.get_body() {
            Ok(Body::BlockStmt(stmts)) => {
                visit_block(
                    function_like.span(),
                    stmts,
                    thresholds,
                    max_possible_score,
                    &mut findings,
                );
            },
            Ok(Body::Expr(e)) => {
                visit_expression_body(
                    function_like.span(),
                    e,
                    thresholds,
                    max_possible_score,
                    &mut findings,
                );
            },
            Err(_) => {},
        }
        proof {
            assert(findings@ == before + function_like_findings(
                *function_like,
                *thresholds,
                max_possible_score.ceiling(),
            ));
            assert(function_likes@.take(i + 1).drop_last() == function_likes@.take(i as int));
        }
        i += 1;
    }
    assert(function_likes@.take(i as int) == function_likes@);
    findings
}

/// Scores a function with a statement body, then the functions nested in it.
fn visit_block(
    span: Span,
    stmts: &Vec<Stmt>,
    thresholds: &Metrics,
    max_possible_score: &MaxScores,
    findings: &mut Vec<Finding>,
)
    ensures
        final(findings)@ == old(findings)@ + verdict(
            span,
            stmts_tally(stmts@),
            *thresholds,
            max_possible_score.ceiling(),
        ) + stmts_findings(stmts@, *thresholds, max_possible_score.ceiling()),
    decreases stmts, 1nat,
{
    let visitor = FunctionAnalysisVisitor::analyze(&Body::BlockStmt(stmts));
    if let Some(finding) = try_report_function(&visitor, span, thresholds, max_possible_score) {
        findings.push(finding);
    }
    assert(findings@ =~= old(findings)@ + verdict(
        span,
        stmts_tally(stmts@),
        *thresholds,
        max_possible_score.ceiling(),
    ));
    visit_stmts(stmts, thresholds, max_possible_score, findings);
}

/// Scores an arrow function whose body is an expression, then the functions
/// nested in it.
fn visit_expression_body(
    span: Span,
    e: &Expr,
    thresholds: &Metrics,
    max_possible_score: &MaxScores,
    findings: &mut Vec<Finding>,
)
    ensures
        final(findings)@ == old(findings)@ + verdict(
            span,
            expr_tally(*e),
            *thresholds,
            max_possible_score.ceiling(),
        ) + expr_findings(*e, *thresholds, max_possible_score.ceiling()),
    decreases e, 1nat,
{
    let visitor = FunctionAnalysisVisitor::analyze(&Body::Expr(e));
    if let Some(finding) = try_report_function(&visitor, span, thresholds, max_possible_score) {
        findings.push(finding);
    }
    assert(findings@ =~= old(findings)@ + verdict(
        span,
        expr_tally(*e),
        *thresholds,
        max_possible_score.ceiling(),
    ));
    visit_expr(e, thresholds, max_possible_score, findings);
}

/// Scores a nested function and the functions nested in it.
pub fn visit_function(
    f: &Function,
    thresholds: &Metrics,
    max_possible_score: &MaxScores,
    findings: &mut Vec<Finding>,
)
    ensures
        final(findings)@ == old(findings)@ + function_findings(
            *f,
            *thresholds,
            max_possible_score.ceiling(),
        ),
    decreases f, 0nat,
{
    if let Some(stmts) = &f.body {
        visit_block(f.span, stmts, thresholds, max_possible_score, findings);
        assert(final(findings)@ =~= old(findings)@ + function_findings(
            *f,
            *thresholds,
            max_possible_score.ceiling(),
        ));
    }
}

/// Scores a nested arrow function and the functions nested in it.
pub fn visit_arrow_expr(
    a: &ArrowExpr,
    thresholds: &Metrics,
    max_possible_score: &MaxScores,
    findings: &mut Vec<Finding>,
)
    ensures
        final(findings)@ == old(findings)@ + arrow_findings(
            *a,
            *thresholds,
            max_possible_score.ceiling(),
        ),
    decreases a, 0nat,
{
    match &a.body {
        BlockStmtOrExpr::BlockStmt(stmts) => {
            visit_block(a.span, stmts, thresholds, max_possible_score, findings);
        },
        BlockStmtOrExpr::Expr(e) => {
            visit_expression_body(a.span, e, thresholds, max_possible_score, findings);
        },
    }
    assert(final(findings)@ =~= old(findings)@ + arrow_findings(
        *a,
        *thresholds,
        max_possible_score.ceiling(),
    ));
}

/// Scores the functions nested in a statement.
fn visit_stmt(
    stmt: &Stmt,
    thresholds: &Metrics,
    max_possible_score: &MaxScores,
    findings: &mut Vec<Finding>,
)
    ensures
        final(findings)@ == old(findings)@ + stmt_findings(
            *stmt,
            *thresholds,
            max_possible_score.ceiling(),
        ),
    decreases stmt, 0nat,
{
    match stmt {
        Stmt::Block(stmts) => {
            visit_stmts(stmts, thresholds, max_possible_score, findings);
        },
        Stmt::If { test, cons, alt } => {
            visit_expr(test, thresholds, max_possible_score, findings);
            visit_stmt(cons, thresholds, max_possible_score, findings);
            if let Some(alt) = alt {
                visit_stmt(alt, thresholds, max_possible_score, findings);
            }
        },
        Stmt::Switch { discriminant, cases } => {
            visit_expr(discriminant, thresholds, max_possible_score, findings);
            visit_cases(cases, thresholds, max_possible_score, findings);
        },
        Stmt::For { init, test, update, body } => {
            if let Some(init) = init {
                visit_stmt(init, thresholds, max_possible_score, findings);
            }
            if let Some(test) = test {
                visit_expr(test, thresholds, max_possible_score, findings);
            }
            if let Some(update) = update {
                visit_expr(update, thresholds, max_possible_score, findings);
            }
            visit_stmt(body, thresholds, max_possible_score, findings);
        },
        Stmt::While { test, body } => {
            visit_expr(test, thresholds, max_possible_score, findings);
            visit_stmt(body, thresholds, max_possible_score, findings);
        },
        Stmt::DoWhile { body, test } => {
            visit_stmt(body, thresholds, max_possible_score, findings);
            visit_expr(test, thresholds, max_possible_score, findings);
        },
        Stmt::Return(arg) => {
            if let Some(arg) = arg {
                visit_expr(arg, thresholds, max_possible_score, findings);
            }
        },
        Stmt::Decl(Decl::Fn(f)) => {
            visit_function(f, thresholds, max_possible_score, findings);
        },
        Stmt::Decl(Decl::Var(inits)) => {
            visit_exprs(inits, thresholds, max_possible_score, findings);
        },
        Stmt::Decl(Decl::Class(members)) => {
            visit_members(members, thresholds, max_possible_score, findings);
        },
        Stmt::Decl(Decl::Other) => {},
        Stmt::Expr(e) => {
            visit_expr(e, thresholds, max_possible_score, findings);
        },
        Stmt::Other(stmts) => {
            visit_stmts(stmts, thresholds, max_possible_score, findings);
        },
    }
    assert(final(findings)@ =~= old(findings)@ + stmt_findings(
        *stmt,
        *thresholds,
        max_possible_score.ceiling(),
    ));
}

/// Scores the functions nested in an expression.
fn visit_expr(
    expr: &Expr,
    thresholds: &Metrics,
    max_possible_score: &MaxScores,
    findings: &mut Vec<Finding>,
)
    ensures
        final(findings)@ == old(findings)@ + expr_findings(
            *expr,
            *thresholds,
            max_possible_score.ceiling(),
        ),
    decreases expr, 0nat,
{
    match expr {
        Expr::Bin { op: _, left, right } => {
            visit_expr(left, thresholds, max_possible_score, findings);
            visit_expr(right, thresholds, max_possible_score, findings);
        },
        Expr::Cond { test, cons, alt } => {
            visit_expr(test, thresholds, max_possible_score, findings);
            visit_expr(cons, thresholds, max_possible_score, findings);
            visit_expr(alt, thresholds, max_possible_score, findings);
        },
        Expr::Paren(inner) => {
            visit_expr(inner, thresholds, max_possible_score, findings);
        },
        Expr::Str => {},
        Expr::Tpl(exprs) => {
            visit_exprs(exprs, thresholds, max_possible_score, findings);
        },
        Expr::Call { callee, args } => {
            visit_expr(callee, thresholds, max_possible_score, findings);
            visit_exprs(args, thresholds, max_possible_score, findings);
        },
        Expr::Member { obj, prop } => {
            visit_expr(obj, thresholds, max_possible_score, findings);
            if let MemberProp::Computed(index) = prop {
                visit_expr(index, thresholds, max_possible_score, findings);
            }
        },
        Expr::Fn(f) => {
            visit_function(f, thresholds, max_possible_score, findings);
        },
        Expr::Arrow(a) => {
            visit_arrow_expr(a, thresholds, max_possible_score, findings);
        },
        Expr::Object(props) => {
            visit_props(props, thresholds, max_possible_score, findings);
        },
        Expr::Class(members) => {
            visit_members(members, thresholds, max_possible_score, findings);
        },
        Expr::Other(exprs) => {
            visit_exprs(exprs, thresholds, max_possible_score, findings);
        },
    }
    assert(final(findings)@ =~= old(findings)@ + expr_findings(
        *expr,
        *thresholds,
        max_possible_score.ceiling(),
    ));
}

fn visit_stmts(
    stmts: &Vec<Stmt>,
    thresholds: &Metrics,
    max_possible_score: &MaxScores,
    findings: &mut Vec<Finding>,
)
    ensures
        final(findings)@ == old(findings)@ + stmts_findings(
            stmts@,
            *thresholds,
            max_possible_score.ceiling(),
        ),
    decreases stmts, 0nat,
{
    let mut i: usize = 0;
    while i < stmts.len()
        invariant
            i <= stmts.len(),
            findings@ == old(findings)@ + stmts_findings(
                stmts@.take(i as int),
                *thresholds,
                max_possible_score.ceiling(),
            ),
        decreases stmts.len() - i,
    {
        visit_stmt(&stmts[i], thresholds, max_possible_score, findings);
        assert(stmts@.take(i + 1).drop_last() == stmts@.take(i as int));
        i += 1;
    }
    assert(stmts@.take(i as int) == stmts@);
}

fn visit_exprs(
    exprs: &Vec<Expr>,
    thresholds: &Metrics,
    max_possible_score: &MaxScores,
    findings: &mut Vec<Finding>,
)
    ensures
        final(findings)@ == old(findings)@ + exprs_findings(
            exprs@,
            *thresholds,
            max_possible_score.ceiling(),
        ),
    decreases exprs, 0nat,
{
    let mut i: usize = 0;
    while i < exprs.len()
        invariant
            i <= exprs.len(),
            findings@ == old(findings)@ + exprs_findings(
                exprs@.take(i as int),
                *thresholds,
                max_possible_score.ceiling(),
            ),
        decreases exprs.len() - i,
    {
        visit_expr(&exprs[i], thresholds, max_possible_score, findings);
        assert(exprs@.take(i + 1).drop_last() == exprs@.take(i as int));
        i += 1;
    }
    assert(exprs@.take(i as int) == exprs@);
}

fn visit_cases(
    cases: &Vec<SwitchCase>,
    thresholds: &Metrics,
    max_possible_score: &MaxScores,
    findings: &mut Vec<Finding>,
)
    ensures
        final(findings)@ == old(findings)@ + cases_findings(
            cases@,
            *thresholds,
            max_possible_score.ceiling(),
        ),
    decreases cases, 0nat,
{
    let mut i: usize = 0;
    while i < cases.len()
        invariant
            i <= cases.len(),
            findings@ == old(findings)@ + cases_findings(
                cases@.take(i as int),
                *thresholds,
                max_possible_score.ceiling(),
            ),
        decreases cases.len() - i,
    {
        let case = &cases[i];
        let ghost before = findings@;
        if let Some(test) = &case.test {
            visit_expr(test, thresholds, max_possible_score, findings);
        }
        visit_stmts(&case.cons, thresholds, max_possible_score, findings);
        assert(findings@ =~= before + case_findings(
            *case,
            *thresholds,
            max_possible_score.ceiling(),
        ));
        assert(cases@.take(i + 1).drop_last() == cases@.take(i as int));
        i += 1;
    }
    assert(cases@.take(i as int) == cases@);
}

fn visit_members(
    members: &Vec<ClassMember>,
    thresholds: &Metrics,
    max_possible_score: &MaxScores,
    findings: &mut Vec<Finding>,
)
    ensures
        final(findings)@ == old(findings)@ + members_findings(
            members@,
            *thresholds,
            max_possible_score.ceiling(),
        ),
    decreases members, 0nat,
{
    let mut i: usize = 0;
    while i < members.len()
        invariant
            i <= members.len(),
            findings@ == old(findings)@ + members_findings(
                members@.take(i as int),
                *thresholds,
                max_possible_score.ceiling(),
            ),
        decreases members.len() - i,
    {
        let member = &members[i];
        let ghost before = findings@;
        match member {
            ClassMember::Method(f) => {
                visit_function(f, thresholds, max_possible_score, findings);
            },
            ClassMember::Other(stmts) => {
                visit_stmts(stmts, thresholds, max_possible_score, findings);
            },
        }
        assert(findings@ =~= before + member_findings(
            *member,
            *thresholds,
            max_possible_score.ceiling(),
        ));
        assert(members@.take(i + 1).drop_last() == members@.take(i as int));
        i += 1;
    }
    assert(members@.take(i as int) == members@);
}

fn visit_props(
    props: &Vec<Prop>,
    thresholds: &Metrics,
    max_possible_score: &MaxScores,
    findings: &mut Vec<Finding>,
)
    ensures
        final(findings)@ == old(findings)@ + props_findings(
            props@,
            *thresholds,
            max_possible_score.ceiling(),
        ),
    decreases props, 0nat,
{
    let mut i: usize = 0;
    while i < props.len()
        invariant
            i <= props.len(),
            findings@ == old(findings)@ + props_findings(
                props@.take(i as int),
                *thresholds,
                max_possible_score.ceiling(),
            ),
        decreases props.len() - i,
    {
        let prop = &props[i];
        let ghost before = findings@;
        match prop {
            Prop::Method(f) => {
                visit_function(f, thresholds, max_possible_score, findings);
            },
            Prop::KeyValue(value) => {
                visit_expr(value, thresholds, max_possible_score, findings);
            },
            Prop::Other(exprs) => {
                visit_exprs(exprs, thresholds, max_possible_score, findings);
            },
        }
        assert(findings@ =~= before + prop_findings(
            *prop,
            *thresholds,
            max_possible_score.ceiling(),
        ));
        assert(props@.take(i + 1).drop_last() == props@.take(i as int));
        i += 1;
    }
    assert(props@.take(i as int) == props@);
}

} // verus!
