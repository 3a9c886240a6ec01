use vstd::prelude::*;
use crate::curvature::{Curvature, curv_le};

verus! {

/// The direction in which a named rewrite was applied.
#[derive(Debug, Clone, Copy, PartialEq, Eq, Structural)]
pub enum Direction {
    Forward,
    Backward,
}

/// One intermediate term of a flattened explanation, node by node: the rule
/// that produced it from its predecessor, if this node is where it applied,
/// and the same for each child.
#[derive(Debug)]
pub struct FlatTerm {
    pub backward_rule: Option<String>,
    pub forward_rule: Option<String>,
    pub children: Vec<FlatTerm>,
}

/// A flattened explanation's intermediate together with its S-expression.
#[derive(Debug)]
pub struct FlatStep {
    pub term: FlatTerm,
    pub text: String,
}

/// One emitted rewrite step.
#[derive(Debug)]
pub struct Step {
    pub rewrite_name: String,
    pub direction: Direction,
    pub expected_term: String,
}

pub struct StepView {
    pub rewrite_name: Seq<char>,
    pub direction: Direction,
    pub expected_term: Seq<char>,
}

impl Step {
    pub open spec fn view(&self) -> StepView {
        StepView {
            rewrite_name: self.rewrite_name@,
            direction: self.direction,
            expected_term: self.expected_term@,
        }
    }
}

/// The rule annotated on a term: its own backward rule, else its own forward
/// rule, else the first annotation found among its children, left to right.
pub open spec fn rule_of(t: FlatTerm) -> Option<(Seq<char>, Direction)>
    decreases t, 1nat,
{
    match t.backward_rule {
        Some(n) => Some((n@, Direction::Backward)),
        None => match t.forward_rule {
            Some(n) => Some((n@, Direction::Forward)),
            None => first_rule(t, 0),
        },
    }
}

/// The first annotation among the children of `t` from index `i` on.
pub open spec fn first_rule(t: FlatTerm, i: int) -> Option<(Seq<char>, Direction)>
    decreases t, 0nat, t.children.len() - i,
{
    if 0 <= i < t.children.len() {
        match rule_of(t.children[i]) {
            Some(r) => Some(r),
            None => first_rule(t, i + 1),
        }
    } else {
        None
    }
}

/// The rewrite annotated on `term`, as `rule_of` describes.
pub fn get_rewrite_name_and_direction(term: &FlatTerm) -> (r: Option<(String, Direction)>)
    ensures
        match rule_of(*term) {
            Some(x) => r matches Some(y) && y.0@ == x.0 && y.1 == x.1,
            None => r is None,
        },
    decreases term, 1nat,
{
    if let Some(n) = &term.backward_rule {
        return Some((n.clone(), Direction::Backward));
    }
    if let Some(n) = &term.forward_rule {
        return Some((n.clone(), Direction::Forward));
    }
    let mut i: usize = 0;
    while i < term.children.len()
        invariant
            0 <= i <= term.children.len(),
            term.backward_rule is None,
            term.forward_rule is None,
            rule_of(*term) == first_rule(*term, i as int),
        decreases term.children.len() - i,
    {
        proof {
            assert(decreases_to!(term => term.children[i as int]));
        }
        let res = get_rewrite_name_and_direction(&term.children[i]);
        if res.is_some() {
            return res;
        }
        i = i + 1;
    }
    None
}

/// A top-level cost that counts as disciplined convex: at most `Convex`, or
/// `Valid` for a proposition.
pub open spec fn acceptable(c: Curvature) -> bool {
    curv_le(c, Curvature::Convex) || c is Valid
}

/// The steps that the first `n` intermediates of a flattened explanation
/// give: one for each annotated intermediate, in order, named by its
/// annotation and carrying the intermediate's text.
pub open spec fn steps_upto(flat: Seq<FlatStep>, n: int) -> Seq<StepView>
    decreases n,
{
    if n <= 0 {
        Seq::empty()
    } else {
        let prev = steps_upto(flat, n - 1);
        match rule_of(flat[n - 1].term) {
            Some(x) => prev.push(
                StepView { rewrite_name: x.0, direction: x.1, expected_term: flat[n - 1].text@ },
            ),
            None => prev,
        }
    }
}

/// The rewrite steps of an explanation that leads from the input to an
/// extracted term of cost `best_cost`; `None` when that cost is not
/// disciplined convex, so that no form was found.
pub fn steps_from_explanation(best_cost: Curvature, flat: &Vec<FlatStep>) -> (r: Option<Vec<Step>>)
    ensures
        r is Some <==> acceptable(best_cost),
        r matches Some(v) ==> v@.map_values(|s: Step| s.view()) == steps_upto(flat@, flat@.len() as int),
{
    if !(best_cost.le(&Curvature::Convex) || matches!(best_cost, Curvature::Valid)) {
        return None;
    }
    let mut res: Vec<Step> = Vec::new();
    let mut i: usize = 0;
    while i < flat.len()
        invariant
            0 <= i <= flat.len(),
            res@.map_values(|s: Step| s.view()) == steps_upto(flat@, i as int),
        decreases flat.len() - i,
    {
        match get_rewrite_name_and_direction(&flat[i].term) {
            Some((rewrite_name, direction)) => {
                let step = Step { rewrite_name, direction, expected_term: flat[i].text.clone() };
                let ghost before = res@;
                res.push(step);
                assert(res@.map_values(|s: Step| s.view()) =~= before.map_values(|s: Step| s.view()).push(step.view()));
            },
            None => {},
        }
        i = i + 1;
    }
    Some(res)
}

} // verus!
