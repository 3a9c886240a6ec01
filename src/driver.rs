use vstd::prelude::*;
use crate::curvature::Curvature;
use crate::explain::{FlatStep, Step, acceptable, steps_from_explanation, steps_upto};

verus! {

/// A minimisation problem: an objective and tagged constraints, each an
/// S-expression.
#[derive(Debug)]
pub struct Minimization {
    pub obj_fun: String,
    pub constrs: Vec<(String, String)>,
}

/// The character of a decimal digit.
pub open spec fn digit(d: nat) -> char {
    seq!['0', '1', '2', '3', '4', '5', '6', '7', '8', '9'][(d % 10) as int]
}

/// The decimal digits of `n`, most significant first.
pub open spec fn decimal(n: nat) -> Seq<char>
    decreases n,
{
    if n < 10 {
        seq![digit(n)]
    } else {
        decimal(n / 10).push(digit(n % 10))
    }
}

/// The tag of the `i`-th constraint: `h` followed by `i` in decimal.
pub open spec fn tag_spec(i: nat) -> Seq<char> {
    seq!['h'] + decimal(i)
}

fn digit_str(d: usize) -> (r: &'static str)
    requires
        d < 10,
    ensures
        r@ == seq![digit(d as nat)],
{
    match d {
        0 => {
            proof {
                reveal_strlit("0");
            }
            "0"
        },
        1 => {
            proof {
                reveal_strlit("1");
            }
            "1"
        },
        2 => {
            proof {
                reveal_strlit("2");
            }
            "2"
        },
        3 => {
            proof {
                reveal_strlit("3");
            }
            "3"
        },
        4 => {
            proof {
                reveal_strlit("4");
            }
            "4"
        },
        5 => {
            proof {
                reveal_strlit("5");
            }
            "5"
        },
        6 => {
            proof {
                reveal_strlit("6");
            }
            "6"
        },
        7 => {
            proof {
                reveal_strlit("7");
            }
            "7"
        },
        8 => {
            proof {
                reveal_strlit("8");
            }
            "8"
        },
        _ => {
            proof {
                reveal_strlit("9");
            }
            "9"
        },
    }
}

/// `n` written in decimal.
fn decimal_of(n: usize) -> (r: String)
    ensures
        r@ == decimal(n as nat),
    decreases n,
{
    if n < 10 {
        String::from_str(digit_str(n))
    } else {
        let mut s = decimal_of(n / 10);
        s.append(digit_str(n % 10));
        s
    }
}

fn tag_of(i: usize) -> (r: String)
    ensures
        r@ == tag_spec(i as nat),
{
    let mut s = String::from_str("h");
    proof {
        reveal_strlit("h");
    }
    let d = decimal_of(i);
    s.append(d.as_str());
    s
}

/// The problem with objective `obj` and the constraints `constrs`, tagged
/// `h0`, `h1`, ... in order.
pub fn make(obj: &str, constrs: Vec<&str>) -> (r: Minimization)
    ensures
        r.obj_fun@ == obj@,
        r.constrs.len() == constrs.len(),
        forall|i: int| 0 <= i < constrs.len() ==> (#[trigger] r.constrs@[i]).0@ == tag_spec(i as nat)
            && r.constrs@[i].1@ == constrs@[i]@,
{
    let mut constrs_s: Vec<(String, String)> = Vec::new();
    let mut i: usize = 0;
    while i < constrs.len()
        invariant
            0 <= i <= constrs.len(),
            constrs_s.len() == i,
            forall|j: int| 0 <= j < i ==> (#[trigger] constrs_s@[j]).0@ == tag_spec(j as nat)
                && constrs_s@[j].1@ == constrs@[j]@,
        decreases constrs.len() - i,
    {
        let tag = tag_of(i);
        constrs_s.push((tag, constrs[i].to_owned()));
        i = i + 1;
    }
    Minimization { obj_fun: obj.to_owned(), constrs: constrs_s }
}

/// The constraints `cs` written one after another, each after a space.
pub open spec fn joined(cs: Seq<Seq<char>>) -> Seq<char>
    decreases cs.len(),
{
    if cs.len() == 0 {
        Seq::empty()
    } else {
        joined(cs.drop_last()) + " "@ + cs.last()
    }
}

/// The single term `(prob (objFun obj) (constraints c1 ... cn))`.
pub open spec fn problem_spec(obj: Seq<char>, cs: Seq<Seq<char>>) -> Seq<char> {
    "(prob (objFun "@ + obj + ") (constraints"@ + joined(cs) + "))"@
}

impl Minimization {
    /// The constraint bodies, without their tags.
    pub open spec fn bodies(&self) -> Seq<Seq<char>> {
        self.constrs@.map_values(|p: (String, String)| p.1@)
    }
}

/// The problem assembled into one term.
pub fn problem_text(m: &Minimization) -> (r: String)
    ensures
        r@ == problem_spec(m.obj_fun@, m.bodies()),
{
    let mut s = String::from_str("(prob (objFun ");
    s.append(m.obj_fun.as_str());
    s.append(") (constraints");
    let ghost head = s@;
    let mut i: usize = 0;
    while i < m.constrs.len()
        invariant
            0 <= i <= m.constrs.len(),
            s@ == head + joined(m.bodies().subrange(0, i as int)),
        decreases m.constrs.len() - i,
    {
        s.append(" ");
        s.append(m.constrs[i].1.as_str());
        assert(m.bodies().subrange(0, i + 1).drop_last() =~= m.bodies().subrange(0, i as int));
        i = i + 1;
    }
    assert(m.bodies().subrange(0, m.constrs.len() as int) =~= m.bodies());
    s.append("))");
    s
}

/// Why a problem could not be convexified.
#[derive(Debug, Clone, Copy, PartialEq, Eq, Structural)]
pub enum ConvexifyError {
    /// The best extracted form is not disciplined convex.
    NoDcpForm,
}

/// A pending convexification: the term to saturate and extract from, and
/// whether the steps found are to be printed.
#[derive(Debug)]
pub struct Convexification {
    pub target: String,
    pub print: bool,
}

impl Convexification {
    /// The verdict once the target has been saturated and extracted: the steps
    /// of the explanation `flat` to a term of cost `best_cost`, or
    /// `NoDcpForm` when that cost is not disciplined convex.
    pub fn finish(&self, best_cost: Curvature, flat: &Vec<FlatStep>) -> (r: Result<Vec<Step>, ConvexifyError>)
        ensures
            r is Ok <==> acceptable(best_cost),
            r matches Ok(v) ==> v@.map_values(|s: Step| s.view()) == steps_upto(flat@, flat@.len() as int),
    {
        match steps_from_explanation(best_cost, flat) {
            Some(v) => Ok(v),
            None => Err(ConvexifyError::NoDcpForm),
        }
    }
}

fn convexify_check_maybe_print(obj: &str, constrs: Vec<&str>, print: bool) -> (r: Convexification)
    ensures
        r.target@ == problem_spec(obj@, constrs@.map_values(|c: &str| c@)),
        r.print == print,
{
    let prob = make(obj, constrs);
    let target = problem_text(&prob);
    assert(prob.bodies() =~= constrs@.map_values(|c: &str| c@));
    Convexification { target, print }
}

/// The convexification of the problem with objective `obj` and constraints
/// `constrs`.
pub fn convexify_check(obj: &str, constrs: Vec<&str>) -> (r: Convexification)
    ensures
        r.target@ == problem_spec(obj@, constrs@.map_values(|c: &str| c@)),
        !r.print,
{
    convexify_check_maybe_print(obj, constrs, false)
}

/// As `convexify_check`, with the steps to be printed.
pub fn convexify_check_and_print(obj: &str, constrs: Vec<&str>) -> (r: Convexification)
    ensures
        r.target@ == problem_spec(obj@, constrs@.map_values(|c: &str| c@)),
        r.print,
{
    convexify_check_maybe_print(obj, constrs, true)
}

/// The convexification of the single expression `s`.
pub fn convexify_check_expression(s: &str) -> (r: Convexification)
    ensures
        r.target@ == s@,
        !r.print,
{
    Convexification { target: s.to_owned(), print: false }
}

/// As `convexify_check_expression`, with the steps to be printed.
pub fn convexify_check_expression_and_print(s: &str) -> (r: Convexification)
    ensures
        r.target@ == s@,
        r.print,
{
    Convexification { target: s.to_owned(), print: true }
}

} // verus!
