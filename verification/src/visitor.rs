//! The metric visitor: walks the body of one function and counts.

use vstd::prelude::*;
use crate::cyclomatic_complexity;
use crate::function_like::Body;
use crate::loop_analysis;
use crate::string_counter;
use crate::syntax::{ClassMember, Decl, Expr, MemberProp, Prop, Stmt, SwitchCase};
use crate::tally::{
    body_tally, case_tally, cases_tally, expr_own, expr_tally, exprs_tally, member_tally,
    members_tally, prop_tally, props_tally, stmt_own, stmt_tally, stmts_tally, Tally,
};

verus! {

/// A count as the counters hold it: they stop at the largest `usize`.
pub open spec fn clip(n: int) -> usize {
    if n > usize::MAX {
        usize::MAX
    } else if n < 0 {
        0
    } else {
        n as usize
    }
}

/// The counters of the function that is being walked.
#[derive(Clone, Copy, Debug, PartialEq, Eq, Structural)]
pub struct FunctionAnalysisVisitor {
    pub cyclomatic_complexity: usize,
    pub current_loop_depth: usize,
    pub max_loop_depth: usize,
    pub arithmetic_operations: usize,
    pub string_operations: usize,
}

impl FunctionAnalysisVisitor {
    /// The counters at the entry of a function: one path, nothing else.
    pub open spec fn fresh() -> Self {
        FunctionAnalysisVisitor {
            cyclomatic_complexity: 1,
            current_loop_depth: 0,
            max_loop_depth: 0,
            arithmetic_operations: 0,
            string_operations: 0,
        }
    }

    /// The counters after a walk over syntax that amounts to `t`, met at the
    /// current loop depth.
    #[verifier::opaque]
    pub open spec fn absorbed(self, t: Tally) -> Self {
        FunctionAnalysisVisitor {
            cyclomatic_complexity: clip(self.cyclomatic_complexity + t.complexity),
            current_loop_depth: self.current_loop_depth,
            max_loop_depth: if t.depth == 0 {
                self.max_loop_depth
            } else {
                let reached = clip(self.current_loop_depth + t.depth);
                if reached > self.max_loop_depth {
                    reached
                } else {
                    self.max_loop_depth
                }
            },
            arithmetic_operations: clip(self.arithmetic_operations + t.arithmetic),
            string_operations: clip(self.string_operations + t.strings),
        }
    }

    /// The counters of a function whose body amounts to `t`.
    pub open spec fn measured(t: Tally) -> Self {
        Self::fresh().absorbed(t)
    }

    /// Walking nothing changes nothing.
    pub proof fn lemma_absorbed_zero(self)
        ensures
            self.absorbed(Tally::zero()) == self,
    {
        reveal(FunctionAnalysisVisitor::absorbed);
    }

    /// Walking two pieces in turn is walking them side by side.
    pub proof fn lemma_absorbed_plus(self, a: Tally, b: Tally)
        ensures
            self.absorbed(a).absorbed(b) == self.absorbed(a.plus(b)),
    {
        reveal(FunctionAnalysisVisitor::absorbed);
    }

    /// What has been walked so far, together with what was walked next.
    pub proof fn lemma_walked(self, seen: Tally, next: Tally) -> (all: Tally)
        ensures
            all == seen.plus(next),
            self.absorbed(seen).absorbed(next) == self.absorbed(all),
    {
        self.lemma_absorbed_plus(seen, next);
        seen.plus(next)
    }

    /// A visitor at the entry of a function: one path, nothing else.
    pub fn new() -> (visitor: Self)
        ensures
            visitor == Self::fresh(),
    {
        FunctionAnalysisVisitor {
            cyclomatic_complexity: 1,
            current_loop_depth: 0,
            max_loop_depth: 0,
            arithmetic_operations: 0,
            string_operations: 0,
        }
    }

    /// Sets the counters for the entry of a function.
    pub fn reset_metrics(&mut self)
        ensures
            *final(self) == Self::fresh(),
    {
        self.cyclomatic_complexity = 1;
        self.current_loop_depth = 0;
        self.max_loop_depth = 0;
        self.arithmetic_operations = 0;
        self.string_operations = 0;
    }

    /// The counts of a function, from its body.
    pub fn analyze(body: &Body) -> (metrics: Self)
        ensures
            metrics == Self::measured(body_tally(*body)),
    {
        let mut visitor = FunctionAnalysisVisitor::new();
        match body {
            Body::BlockStmt(stmts) => visitor.analyze_function_body(stmts),
            Body::Expr(e) => visitor.analyze_expression(e),
        }
        visitor
    }

    /// Walks the statements of a function body.
    pub fn analyze_function_body(&mut self, body: &Vec<Stmt>)
        ensures
            *final(self) == old(self).absorbed(stmts_tally(body@)),
        decreases body, 1nat,
    {
        self.analyze_statements(body);
    }

    /// Walks one statement with everything in it but nested functions.
    pub fn analyze_statement(&mut self, stmt: &Stmt)
        ensures
            *final(self) == old(self).absorbed(stmt_tally(*stmt)),
        decreases stmt, 1nat,
    {
        let ghost start = *self;
        let ghost mut seen = stmt_own(*stmt);
        cyclomatic_complexity::analyze_statement(stmt, &mut self.cyclomatic_complexity);
        assert(*self == start.absorbed(seen)) by {
            reveal(FunctionAnalysisVisitor::absorbed);
        }
        match loop_analysis::extract_loop_body(stmt) {
            Some(body) => {
                match stmt {
                    Stmt::For { init, test, update, body: _ } => {
                        if let Some(init) = init {
                            self.analyze_statement(init);
                            proof {
                                seen = start.lemma_walked(seen, stmt_tally(**init));
                            }
                        }
                        if let Some(test) = test {
                            self.analyze_expression(test);
                            proof {
                                seen = start.lemma_walked(seen, expr_tally(*test));
                            }
                        }
                        if let Some(update) = update {
                            self.analyze_expression(update);
                            proof {
                                seen = start.lemma_walked(seen, expr_tally(*update));
                            }
                        }
                    },
                    Stmt::While { test, body: _ } => {
                        self.analyze_expression(test);
                        proof {
                            seen = start.lemma_walked(seen, expr_tally(*test));
                        }
                    },
                    Stmt::DoWhile { body: _, test } => {
                        self.analyze_expression(test);
                        proof {
                            seen = start.lemma_walked(seen, expr_tally(*test));
                        }
                    },
                    _ => {},
                }
                loop_analysis::handle_loop(self, body);
                proof {
                    seen = start.lemma_walked(seen, stmt_tally(**body).nested());
                }
            },
            None => {
                match stmt {
                    Stmt::Block(stmts) => {
                        self.analyze_statements(stmts);
                        proof {
                            seen = start.lemma_walked(seen, stmts_tally(stmts@));
                        }
                    },
                    Stmt::If { test, cons, alt } => {
                        self.analyze_expression(test);
                        proof {
                            seen = start.lemma_walked(seen, expr_tally(*test));
                        }
                        self.analyze_statement(cons);
                        proof {
                            seen = start.lemma_walked(seen, stmt_tally(**cons));
                        }
                        if let Some(alt) = alt {
                            self.analyze_statement(alt);
                            proof {
                                seen = start.lemma_walked(seen, stmt_tally(**alt));
                            }
                        }
                    },
                    Stmt::Switch { discriminant, cases } => {
                        self.analyze_expression(discriminant);
                        proof {
                            seen = start.lemma_walked(seen, expr_tally(*discriminant));
                        }
                        self.analyze_cases(cases);
                        proof {
                            seen = start.lemma_walked(seen, cases_tally(cases@));
                        }
                    },
                    Stmt::Return(arg) => {
                        if let Some(arg) = arg {
                            self.analyze_expression(arg);
                            proof {
                                seen = start.lemma_walked(seen, expr_tally(*arg));
                            }
                        }
                    },
                    Stmt::Decl(Decl::Var(inits)) => {
                        self.analyze_expressions(inits);
                        proof {
                            seen = start.lemma_walked(seen, exprs_tally(inits@));
                        }
                    },
                    Stmt::Decl(Decl::Class(members)) => {
                        self.analyze_members(members);
                        proof {
                            seen = start.lemma_walked(seen, members_tally(members@));
                        }
                    },
                    Stmt::Expr(e) => {
                        self.analyze_expression(e);
                        proof {
                            seen = start.lemma_walked(seen, expr_tally(*e));
                        }
                    },
                    Stmt::Other(stmts) => {
                        self.analyze_statements(stmts);
                        proof {
                            seen = start.lemma_walked(seen, stmts_tally(stmts@));
                        }
                    },
                    _ => {},
                }
            },
        }
        assert(seen == stmt_tally(*stmt));
    }

    /// Walks one expression with everything in it but nested functions.
    pub fn analyze_expression(&mut self, expr: &Expr)
        ensures
            *final(self) == old(self).absorbed(expr_tally(*expr)),
        decreases expr, 1nat,
    {
        let ghost start = *self;
        let ghost mut seen = expr_own(*expr);
        cyclomatic_complexity::analyze_expression(self, expr);
        string_counter::analyze_expression(self, expr);
        assert(*self == start.absorbed(seen)) by {
            reveal(FunctionAnalysisVisitor::absorbed);
        }
        match expr {
            Expr::Bin { op: _, left, right } => {
                self.analyze_expression(left);
                proof {
                    seen = start.lemma_walked(seen, expr_tally(**left));
                }
                self.analyze_expression(right);
                proof {
                    seen = start.lemma_walked(seen, expr_tally(**right));
                }
            },
            Expr::Cond { test, cons, alt } => {
                self.analyze_expression(test);
                proof {
                    seen = start.lemma_walked(seen, expr_tally(**test));
                }
                self.analyze_expression(cons);
                proof {
                    seen = start.lemma_walked(seen, expr_tally(**cons));
                }
                self.analyze_expression(alt);
                proof {
                    seen = start.lemma_walked(seen, expr_tally(**alt));
                }
            },
            Expr::Paren(inner) => {
                self.analyze_expression(inner);
                proof {
                    seen = start.lemma_walked(seen, expr_tally(**inner));
                }
            },
            Expr::Tpl(exprs) => {
                self.analyze_expressions(exprs);
                proof {
                    seen = start.lemma_walked(seen, exprs_tally(exprs@));
                }
            },
            Expr::Call { callee, args } => {
                self.analyze_expression(callee);
                proof {
                    seen = start.lemma_walked(seen, expr_tally(**callee));
                }
                self.analyze_expressions(args);
                proof {
                    seen = start.lemma_walked(seen, exprs_tally(args@));
                }
            },
            Expr::Member { obj, prop } => {
                self.analyze_expression(obj);
                proof {
                    seen = start.lemma_walked(seen, expr_tally(**obj));
                }
                if let MemberProp::Computed(index) = prop {
                    self.analyze_expression(index);
                    proof {
                        seen = start.lemma_walked(seen, expr_tally(**index));
                    }
                }
            },
            Expr::Object(props) => {
                self.analyze_props(props);
                proof {
                    seen = start.lemma_walked(seen, props_tally(props@));
                }
            },
            Expr::Class(members) => {
                self.analyze_members(members);
                proof {
                    seen = start.lemma_walked(seen, members_tally(members@));
                }
            },
            Expr::Other(exprs) => {
                self.analyze_expressions(exprs);
                proof {
                    seen = start.lemma_walked(seen, exprs_tally(exprs@));
                }
            },
            _ => {},
        }
        assert(seen == expr_tally(*expr));
    }

    fn analyze_statements(&mut self, stmts: &Vec<Stmt>)
        ensures
            *final(self) == old(self).absorbed(stmts_tally(stmts@)),
        decreases stmts, 0nat,
    {
        proof {
            old(self).lemma_absorbed_zero();
        }
        let mut i: usize = 0;
        while i < stmts.len()
            invariant
                i <= stmts.len(),
                *self == old(self).absorbed(stmts_tally(stmts@.take(i as int))),
            decreases stmts.len() - i,
        {
            self.analyze_statement(&stmts[i]);
            proof {
                assert(stmts@.take(i + 1).drop_last() == stmts@.take(i as int));
                old(self).lemma_absorbed_plus(
                    stmts_tally(stmts@.take(i as int)),
                    stmt_tally(stmts[i as int]),
                );
            }
            i += 1;
        }
        assert(stmts@.take(i as int) == stmts@);
    }

    fn analyze_expressions(&mut self, exprs: &Vec<Expr>)
        ensures
            *final(self) == old(self).absorbed(exprs_tally(exprs@)),
        decreases exprs, 0nat,
    {
        proof {
            old(self).lemma_absorbed_zero();
        }
        let mut i: usize = 0;
        while i < exprs.len()
            invariant
                i <= exprs.len(),
                *self == old(self).absorbed(exprs_tally(exprs@.take(i as int))),
            decreases exprs.len() - i,
        {
            self.analyze_expression(&exprs[i]);
            proof {
                assert(exprs@.take(i + 1).drop_last() == exprs@.take(i as int));
                old(self).lemma_absorbed_plus(
                    exprs_tally(exprs@.take(i as int)),
                    expr_tally(exprs[i as int]),
                );
            }
            i += 1;
        }
        assert(exprs@.take(i as int) == exprs@);
    }

    fn analyze_case(&mut self, case: &SwitchCase)
        ensures
            *final(self) == old(self).absorbed(case_tally(*case)),
        decreases case, 1nat,
    {
        let ghost start = *self;
        let ghost mut seen = Tally::zero();
        proof {
            start.lemma_absorbed_zero();
        }
        if let Some(test) = &case.test {
            self.analyze_expression(test);
            proof {
                seen = start.lemma_walked(seen, expr_tally(*test));
            }
        }
        self.analyze_statements(&case.cons);
        proof {
            seen = start.lemma_walked(seen, stmts_tally(case.cons@));
        }
        assert(seen == case_tally(*case));
    }

    fn analyze_cases(&mut self, cases: &Vec<SwitchCase>)
        ensures
            *final(self) == old(self).absorbed(cases_tally(cases@)),
        decreases cases, 0nat,
    {
        proof {
            old(self).lemma_absorbed_zero();
        }
        let mut i: usize = 0;
        while i < cases.len()
            invariant
                i <= cases.len(),
                *self == old(self).absorbed(cases_tally(cases@.take(i as int))),
            decreases cases.len() - i,
        {
            self.analyze_case(&cases[i]);
            proof {
                assert(cases@.take(i + 1).drop_last() == cases@.take(i as int));
                old(self).lemma_absorbed_plus(
                    cases_tally(cases@.take(i as int)),
                    case_tally(cases[i as int]),
                );
            }
            i += 1;
        }
        assert(cases@.take(i as int) == cases@);
    }

    fn analyze_member(&mut self, member: &ClassMember)
        ensures
            *final(self) == old(self).absorbed(member_tally(*member)),
        decreases member, 1nat,
    {
        match member {
            ClassMember::Other(stmts) => {
                self.analyze_statements(stmts);
            },
            ClassMember::Method(_) => {
                proof {
                    old(self).lemma_absorbed_zero();
                }
            },
        }
    }

    fn analyze_members(&mut self, members: &Vec<ClassMember>)
        ensures
            *final(self) == old(self).absorbed(members_tally(members@)),
        decreases members, 0nat,
    {
        proof {
            old(self).lemma_absorbed_zero();
        }
        let mut i: usize = 0;
        while i < members.len()
            invariant
                i <= members.len(),
                *self == old(self).absorbed(members_tally(members@.take(i as int))),
            decreases members.len() - i,
        {
            self.analyze_member(&members[i]);
            proof {
                assert(members@.take(i + 1).drop_last() == members@.take(i as int));
                old(self).lemma_absorbed_plus(
                    members_tally(members@.take(i as int)),
                    member_tally(members[i as int]),
                );
            }
            i += 1;
        }
        assert(members@.take(i as int) == members@);
    }

    fn analyze_prop(&mut self, prop: &Prop)
        ensures
            *final(self) == old(self).absorbed(prop_tally(*prop)),
        decreases prop, 1nat,
    {
        match prop {
            Prop::KeyValue(value) => {
                self.analyze_expression(value);
            },
            Prop::Other(exprs) => {
                self.analyze_expressions(exprs);
            },
            Prop::Method(_) => {
                proof {
                    old(self).lemma_absorbed_zero();
                }
            },
        }
    }

    fn analyze_props(&mut self, props: &Vec<Prop>)
        ensures
            *final(self) == old(self).absorbed(props_tally(props@)),
        decreases props, 0nat,
    {
        proof {
            old(self).lemma_absorbed_zero();
        }
        let mut i: usize = 0;
        while i < props.len()
            invariant
                i <= props.len(),
                *self == old(self).absorbed(props_tally(props@.take(i as int))),
            decreases props.len() - i,
        {
            self.analyze_prop(&props[i]);
            proof {
                assert(props@.take(i + 1).drop_last() == props@.take(i as int));
                old(self).lemma_absorbed_plus(
                    props_tally(props@.take(i as int)),
                    prop_tally(props[i as int]),
                );
            }
            i += 1;
        }
        assert(props@.take(i as int) == props@);
    }
}

} // verus!
