use vstd::prelude::*;
use crate::analysis::{Data, is_gt_zero, is_not_one, is_not_zero, not_has_log};

verus! {

/// The kind of side condition that a rewrite may carry.
#[derive(Debug, Clone, Copy, PartialEq, Eq, Structural)]
pub enum GuardKind {
    NotZero,
    NotOne,
    GtZero,
    NotHasLog,
}

/// A side condition on the class bound to one pattern variable.
#[derive(Debug, Clone, Copy)]
pub struct Guard {
    pub kind: GuardKind,
    pub var: &'static str,
}

impl Guard {
    /// Whether the guard permits the rewrite, given the data of the class
    /// bound to its variable.
    pub open spec fn holds_spec(&self, d: Data) -> bool {
        match self.kind {
            GuardKind::NotZero => match d.constant {
                Some(c) => !c.0.is_zero_spec(),
                None => true,
            },
            GuardKind::NotOne => match d.constant {
                Some(c) => !c.0.is_one_spec(),
                None => true,
            },
            GuardKind::GtZero => match d.constant {
                Some(c) => c.0.is_pos_spec(),
                None => true,
            },
            GuardKind::NotHasLog => !d.has_log,
        }
    }

    pub fn holds(&self, d: &Data) -> (r: bool)
        ensures
            r == self.holds_spec(*d),
    {
        match self.kind {
            GuardKind::NotZero => is_not_zero(d),
            GuardKind::NotOne => is_not_one(d),
            GuardKind::GtZero => is_gt_zero(d),
            GuardKind::NotHasLog => not_has_log(d),
        }
    }
}

/// A named rewrite from a left pattern to a right pattern, in the
/// S-expression syntax with `?`-variables, applied where all guards hold.
#[derive(Debug)]
pub struct Rule {
    pub name: &'static str,
    pub lhs: &'static str,
    pub rhs: &'static str,
    pub guards: Vec<Guard>,
}

pub struct RuleView {
    pub name: &'static str,
    pub lhs: &'static str,
    pub rhs: &'static str,
    pub guards: Seq<Guard>,
}

impl Rule {
    pub open spec fn view(&self) -> RuleView {
        RuleView { name: self.name, lhs: self.lhs, rhs: self.rhs, guards: self.guards@ }
    }
}

/// The rule set: normalisation of equalities and inequalities, arithmetic
/// identities, and the identities on powers, roots, exponentials and logs.
pub open spec fn rule_table() -> Seq<RuleView> {
    seq![
        RuleView { name: "eq-add", lhs: "(eq ?a (add ?b ?c))", rhs: "(eq (sub ?a ?c) ?b)", guards: seq![] },
        RuleView { name: "eq-sub", lhs: "(eq ?a (sub ?b ?c))", rhs: "(eq (add ?a ?c) ?b)", guards: seq![] },
        RuleView { name: "eq-mul", lhs: "(eq ?a (mul ?b ?c))", rhs: "(eq (div ?a ?c) ?b)", guards: seq![Guard { kind: GuardKind::NotZero, var: "?c" }] },
        RuleView { name: "eq-div", lhs: "(eq ?a (div ?b ?c))", rhs: "(eq (mul ?a ?c) ?b)", guards: seq![Guard { kind: GuardKind::NotZero, var: "?c" }] },
        RuleView { name: "eq-sub-zero", lhs: "(eq ?a ?b)", rhs: "(eq (sub ?a ?b) 0)", guards: seq![Guard { kind: GuardKind::NotZero, var: "?b" }] },
        RuleView { name: "eq-div-one", lhs: "(eq ?a ?b)", rhs: "(eq (div ?a ?b) 1)", guards: seq![Guard { kind: GuardKind::NotZero, var: "?b" }, Guard { kind: GuardKind::NotOne, var: "?b" }] },
        RuleView { name: "le-sub", lhs: "(le ?a (sub ?b ?c))", rhs: "(le (add ?a ?c) ?b)", guards: seq![] },
        RuleView { name: "le-add", lhs: "(le ?a (add ?b ?c))", rhs: "(le (sub ?a ?c) ?b)", guards: seq![] },
        RuleView { name: "le-mul", lhs: "(le ?a (mul ?b ?c))", rhs: "(le (div ?a ?c) ?b)", guards: seq![Guard { kind: GuardKind::NotZero, var: "?c" }] },
        RuleView { name: "le-div", lhs: "(le ?a (div ?b ?c))", rhs: "(le (mul ?a ?c) ?b)", guards: seq![Guard { kind: GuardKind::NotZero, var: "?c" }] },
        RuleView { name: "le-sub-zero", lhs: "(le ?a ?b)", rhs: "(le (sub ?a ?b) 0)", guards: seq![Guard { kind: GuardKind::NotZero, var: "?b" }] },
        RuleView { name: "le-div-one", lhs: "(le ?a ?b)", rhs: "(le (div ?a ?b) 1)", guards: seq![Guard { kind: GuardKind::NotZero, var: "?b" }, Guard { kind: GuardKind::NotOne, var: "?b" }] },
        RuleView { name: "add-comm", lhs: "(add ?a ?b)", rhs: "(add ?b ?a)", guards: seq![] },
        RuleView { name: "add-assoc", lhs: "(add (add ?a ?b) ?c)", rhs: "(add ?a (add ?b ?c))", guards: seq![] },
        RuleView { name: "mul-comm", lhs: "(mul ?a ?b)", rhs: "(mul ?b ?a)", guards: seq![] },
        RuleView { name: "mul-assoc", lhs: "(mul (mul ?a ?b) ?c)", rhs: "(mul ?a (mul ?b ?c))", guards: seq![] },
        RuleView { name: "add-sub", lhs: "(add ?a (sub ?b ?c))", rhs: "(sub (add ?a ?b) ?c)", guards: seq![] },
        RuleView { name: "add-mul", lhs: "(mul (add ?a ?b) ?c)", rhs: "(add (mul ?a ?c) (mul ?b ?c))", guards: seq![] },
        RuleView { name: "sub-mul-left", lhs: "(sub (mul ?a ?b) (mul ?a ?c))", rhs: "(mul ?a (sub ?b ?c))", guards: seq![] },
        RuleView { name: "sub-mul-right", lhs: "(sub (mul ?a ?b) (mul ?c ?b))", rhs: "(mul (sub ?a ?c) ?b)", guards: seq![] },
        RuleView { name: "sub-mul-same-right", lhs: "(sub ?a (mul ?b ?a))", rhs: "(mul ?a (sub 1 ?b))", guards: seq![] },
        RuleView { name: "sub-mul-same-left", lhs: "(sub (mul ?a ?b) ?a)", rhs: "(mul ?a (sub ?b 1))", guards: seq![] },
        RuleView { name: "mul-div", lhs: "(mul ?a (div ?b ?c))", rhs: "(div (mul ?a ?b) ?c)", guards: seq![Guard { kind: GuardKind::NotZero, var: "?c" }] },
        RuleView { name: "div-add", lhs: "(div (add ?a ?b) ?c)", rhs: "(add (div ?a ?c) (div ?b ?c))", guards: seq![Guard { kind: GuardKind::NotZero, var: "?c" }] },
        RuleView { name: "div-sub", lhs: "(div (sub ?a ?b) ?c)", rhs: "(sub (div ?a ?c) (div ?b ?c))", guards: seq![Guard { kind: GuardKind::NotZero, var: "?c" }] },
        RuleView { name: "pow-add", lhs: "(pow ?a (add ?b ?c))", rhs: "(mul (pow ?a ?b) (pow ?a ?c))", guards: seq![] },
        RuleView { name: "pow-sub", lhs: "(pow ?a (sub ?b ?c))", rhs: "(div (pow ?a ?b) (pow ?a ?c))", guards: seq![Guard { kind: GuardKind::NotZero, var: "?a" }] },
        RuleView { name: "div-pow", lhs: "(div ?a (pow ?b ?c))", rhs: "(mul ?a (pow ?b (neg ?c)))", guards: seq![Guard { kind: GuardKind::GtZero, var: "?b" }] },
        RuleView { name: "div-pow-same-right", lhs: "(div ?a (pow ?a ?b))", rhs: "(pow ?a (sub 1 ?b))", guards: seq![] },
        RuleView { name: "div-pow-same-left", lhs: "(div (pow ?a ?b) ?a)", rhs: "(pow ?a (sub ?b 1))", guards: seq![] },
        RuleView { name: "sqrt_eq_rpow", lhs: "(sqrt ?a)", rhs: "(pow ?a 0.5)", guards: seq![] },
        RuleView { name: "mul-exp", lhs: "(mul (exp ?a) (exp ?b))", rhs: "(exp (add ?a ?b))", guards: seq![] },
        RuleView { name: "div-exp", lhs: "(div (exp ?a) (exp ?b))", rhs: "(exp (sub ?a ?b))", guards: seq![] },
        RuleView { name: "pow-exp", lhs: "(pow (exp ?a) ?b)", rhs: "(exp (mul ?a ?b))", guards: seq![] },
        RuleView { name: "log-mul", lhs: "(log (mul ?a ?b))", rhs: "(add (log ?a) (log ?b))", guards: seq![Guard { kind: GuardKind::GtZero, var: "?a" }, Guard { kind: GuardKind::GtZero, var: "?b" }] },
        RuleView { name: "log-div", lhs: "(log (div ?a ?b))", rhs: "(sub (log ?a) (log ?b))", guards: seq![Guard { kind: GuardKind::GtZero, var: "?a" }, Guard { kind: GuardKind::GtZero, var: "?b" }] },
        RuleView { name: "log-exp", lhs: "(log (exp ?a))", rhs: "?a", guards: seq![] },
        RuleView { name: "eq-log", lhs: "(eq ?a ?b)", rhs: "(eq (log ?a) (log ?b))", guards: seq![Guard { kind: GuardKind::GtZero, var: "?a" }, Guard { kind: GuardKind::GtZero, var: "?b" }, Guard { kind: GuardKind::NotHasLog, var: "?a" }, Guard { kind: GuardKind::NotHasLog, var: "?b" }] },
        RuleView { name: "le-log", lhs: "(le ?a ?b)", rhs: "(le (log ?a) (log ?b))", guards: seq![Guard { kind: GuardKind::GtZero, var: "?a" }, Guard { kind: GuardKind::GtZero, var: "?b" }, Guard { kind: GuardKind::NotHasLog, var: "?a" }, Guard { kind: GuardKind::NotHasLog, var: "?b" }] },
        RuleView { name: "map-objFun-log", lhs: "(objFun ?a)", rhs: "(objFun (log ?a))", guards: seq![Guard { kind: GuardKind::GtZero, var: "?a" }, Guard { kind: GuardKind::NotHasLog, var: "?a" }] },
    ]
}

/// The rule set, in the order of `rule_table`.
pub fn rules() -> (r: Vec<Rule>)
    ensures
        r@.len() == rule_table().len(),
        forall|i: int| 0 <= i < r@.len() ==> (#[trigger] r@[i]).view() == rule_table()[i],
{
    let mut rs: Vec<Rule> = Vec::new();
    rs.push(Rule { name: "eq-add", lhs: "(eq ?a (add ?b ?c))", rhs: "(eq (sub ?a ?c) ?b)", guards: vec![] });
    rs.push(Rule { name: "eq-sub", lhs: "(eq ?a (sub ?b ?c))", rhs: "(eq (add ?a ?c) ?b)", guards: vec![] });
    rs.push(Rule { name: "eq-mul", lhs: "(eq ?a (mul ?b ?c))", rhs: "(eq (div ?a ?c) ?b)", guards: vec![Guard { kind: GuardKind::NotZero, var: "?c" }] });
    rs.push(Rule { name: "eq-div", lhs: "(eq ?a (div ?b ?c))", rhs: "(eq (mul ?a ?c) ?b)", guards: vec![Guard { kind: GuardKind::NotZero, var: "?c" }] });
    rs.push(Rule { name: "eq-sub-zero", lhs: "(eq ?a ?b)", rhs: "(eq (sub ?a ?b) 0)", guards: vec![Guard { kind: GuardKind::NotZero, var: "?b" }] });
    rs.push(Rule { name: "eq-div-one", lhs: "(eq ?a ?b)", rhs: "(eq (div ?a ?b) 1)", guards: vec![Guard { kind: GuardKind::NotZero, var: "?b" }, Guard { kind: GuardKind::NotOne, var: "?b" }] });
    rs.push(Rule { name: "le-sub", lhs: "(le ?a (sub ?b ?c))", rhs: "(le (add ?a ?c) ?b)", guards: vec![] });
    rs.push(Rule { name: "le-add", lhs: "(le ?a (add ?b ?c))", rhs: "(le (sub ?a ?c) ?b)", guards: vec![] });
    rs.push(Rule { name: "le-mul", lhs: "(le ?a (mul ?b ?c))", rhs: "(le (div ?a ?c) ?b)", guards: vec![Guard { kind: GuardKind::NotZero, var: "?c" }] });
    rs.push(Rule { name: "le-div", lhs: "(le ?a (div ?b ?c))", rhs: "(le (mul ?a ?c) ?b)", guards: vec![Guard { kind: GuardKind::NotZero, var: "?c" }] });
    rs.push(Rule { name: "le-sub-zero", lhs: "(le ?a ?b)", rhs: "(le (sub ?a ?b) 0)", guards: vec![Guard { kind: GuardKind::NotZero, var: "?b" }] });
    rs.push(Rule { name: "le-div-one", lhs: "(le ?a ?b)", rhs: "(le (div ?a ?b) 1)", guards: vec![Guard { kind: GuardKind::NotZero, var: "?b" }, Guard { kind: GuardKind::NotOne, var: "?b" }] });
    rs.push(Rule { name: "add-comm", lhs: "(add ?a ?b)", rhs: "(add ?b ?a)", guards: vec![] });
    rs.push(Rule { name: "add-assoc", lhs: "(add (add ?a ?b) ?c)", rhs: "(add ?a (add ?b ?c))", guards: vec![] });
    rs.push(Rule { name: "mul-comm", lhs: "(mul ?a ?b)", rhs: "(mul ?b ?a)", guards: vec![] });
    rs.push(Rule { name: "mul-assoc", lhs: "(mul (mul ?a ?b) ?c)", rhs: "(mul ?a (mul ?b ?c))", guards: vec![] });
    rs.push(Rule { name: "add-sub", lhs: "(add ?a (sub ?b ?c))", rhs: "(sub (add ?a ?b) ?c)", guards: vec![] });
    rs.push(Rule { name: "add-mul", lhs: "(mul (add ?a ?b) ?c)", rhs: "(add (mul ?a ?c) (mul ?b ?c))", guards: vec![] });
    rs.push(Rule { name: "sub-mul-left", lhs: "(sub (mul ?a ?b) (mul ?a ?c))", rhs: "(mul ?a (sub ?b ?c))", guards: vec![] });
    rs.push(Rule { name: "sub-mul-right", lhs: "(sub (mul ?a ?b) (mul ?c ?b))", rhs: "(mul (sub ?a ?c) ?b)", guards: vec![] });
    rs.push(Rule { name: "sub-mul-same-right", lhs: "(sub ?a (mul ?b ?a))", rhs: "(mul ?a (sub 1 ?b))", guards: vec![] });
    rs.push(Rule { name: "sub-mul-same-left", lhs: "(sub (mul ?a ?b) ?a)", rhs: "(mul ?a (sub ?b 1))", guards: vec![] });
    rs.push(Rule { name: "mul-div", lhs: "(mul ?a (div ?b ?c))", rhs: "(div (mul ?a ?b) ?c)", guards: vec![Guard { kind: GuardKind::NotZero, var: "?c" }] });
    rs.push(Rule { name: "div-add", lhs: "(div (add ?a ?b) ?c)", rhs: "(add (div ?a ?c) (div ?b ?c))", guards: vec![Guard { kind: GuardKind::NotZero, var: "?c" }] });
    rs.push(Rule { name: "div-sub", lhs: "(div (sub ?a ?b) ?c)", rhs: "(sub (div ?a ?c) (div ?b ?c))", guards: vec![Guard { kind: GuardKind::NotZero, var: "?c" }] });
    rs.push(Rule { name: "pow-add", lhs: "(pow ?a (add ?b ?c))", rhs: "(mul (pow ?a ?b) (pow ?a ?c))", guards: vec![] });
    rs.push(Rule { name: "pow-sub", lhs: "(pow ?a (sub ?b ?c))", rhs: "(div (pow ?a ?b) (pow ?a ?c))", guards: vec![Guard { kind: GuardKind::NotZero, var: "?a" }] });
    rs.push(Rule { name: "div-pow", lhs: "(div ?a (pow ?b ?c))", rhs: "(mul ?a (pow ?b (neg ?c)))", guards: vec![Guard { kind: GuardKind::GtZero, var: "?b" }] });
    rs.push(Rule { name: "div-pow-same-right", lhs: "(div ?a (pow ?a ?b))", rhs: "(pow ?a (sub 1 ?b))", guards: vec![] });
    rs.push(Rule { name: "div-pow-same-left", lhs: "(div (pow ?a ?b) ?a)", rhs: "(pow ?a (sub ?b 1))", guards: vec![] });
    rs.push(Rule { name: "sqrt_eq_rpow", lhs: "(sqrt ?a)", rhs: "(pow ?a 0.5)", guards: vec![] });
    rs.push(Rule { name: "mul-exp", lhs: "(mul (exp ?a) (exp ?b))", rhs: "(exp (add ?a ?b))", guards: vec![] });
    rs.push(Rule { name: "div-exp", lhs: "(div (exp ?a) (exp ?b))", rhs: "(exp (sub ?a ?b))", guards: vec![] });
    rs.push(Rule { name: "pow-exp", lhs: "(pow (exp ?a) ?b)", rhs: "(exp (mul ?a ?b))", guards: vec![] });
    rs.push(Rule { name: "log-mul", lhs: "(log (mul ?a ?b))", rhs: "(add (log ?a) (log ?b))", guards: vec![Guard { kind: GuardKind::GtZero, var: "?a" }, Guard { kind: GuardKind::GtZero, var: "?b" }] });
    rs.push(Rule { name: "log-div", lhs: "(log (div ?a ?b))", rhs: "(sub (log ?a) (log ?b))", guards: vec![Guard { kind: GuardKind::GtZero, var: "?a" }, Guard { kind: GuardKind::GtZero, var: "?b" }] });
    rs.push(Rule { name: "log-exp", lhs: "(log (exp ?a))", rhs: "?a", guards: vec![] });
    rs.push(Rule { name: "eq-log", lhs: "(eq ?a ?b)", rhs: "(eq (log ?a) (log ?b))", guards: vec![Guard { kind: GuardKind::GtZero, var: "?a" }, Guard { kind: GuardKind::GtZero, var: "?b" }, Guard { kind: GuardKind::NotHasLog, var: "?a" }, Guard { kind: GuardKind::NotHasLog, var: "?b" }] });
    rs.push(Rule { name: "le-log", lhs: "(le ?a ?b)", rhs: "(le (log ?a) (log ?b))", guards: vec![Guard { kind: GuardKind::GtZero, var: "?a" }, Guard { kind: GuardKind::GtZero, var: "?b" }, Guard { kind: GuardKind::NotHasLog, var: "?a" }, Guard { kind: GuardKind::NotHasLog, var: "?b" }] });
    rs.push(Rule { name: "map-objFun-log", lhs: "(objFun ?a)", rhs: "(objFun (log ?a))", guards: vec![Guard { kind: GuardKind::GtZero, var: "?a" }, Guard { kind: GuardKind::NotHasLog, var: "?a" }] });
    proof {
        assert forall|i: int| 0 <= i < rs@.len() implies (#[trigger] rs@[i]).view() == rule_table()[i] by {
            assert(rs@[i].guards@ =~= rule_table()[i].guards);
        }
    }
    rs
}

} // verus!
