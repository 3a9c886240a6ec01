use vstd::prelude::*;
use crate::curvature::{Curvature, curv_le, flip_spec};
use crate::num::Num;
use crate::term::Optimization;

verus! {

/// `Affine` or `Constant`: both convex and concave.
pub open spec fn is_affine_like(c: Curvature) -> bool {
    c is Affine || c is Constant
}

/// Curvature of a sum.
pub open spec fn add_spec(a: Curvature, b: Curvature) -> Curvature {
    if a is Constant && b is Constant {
        Curvature::Constant
    } else if is_affine_like(a) && is_affine_like(b) {
        Curvature::Affine
    } else if (a is Convex || is_affine_like(a)) && (b is Convex || is_affine_like(b)) {
        Curvature::Convex
    } else if (a is Concave || is_affine_like(a)) && (b is Concave || is_affine_like(b)) {
        Curvature::Concave
    } else {
        Curvature::Unknown
    }
}

/// Curvature of a difference: a sum with the subtrahend's curvature flipped.
pub open spec fn sub_spec(a: Curvature, b: Curvature) -> Curvature {
    add_spec(a, flip_spec(b))
}

/// Curvature of a subterm of curvature `q` scaled by a folded constant `k`:
/// kept for `k > 0`, flipped for `k < 0`, constant for `k = 0`.
pub open spec fn scale_spec(k: Num, q: Curvature) -> Curvature {
    if k.is_zero_spec() {
        Curvature::Constant
    } else if k.is_neg_spec() {
        flip_spec(q)
    } else {
        q
    }
}

/// Curvature of a subterm divided by a folded constant `k`.
pub open spec fn divide_spec(q: Curvature, k: Num) -> Curvature {
    if k.is_zero_spec() {
        Curvature::Unknown
    } else {
        scale_spec(k, q)
    }
}

/// Curvature of `neg a`.
pub open spec fn neg_spec(a: Curvature) -> Curvature {
    if a is Valid || a is Unknown { Curvature::Unknown } else { flip_spec(a) }
}

/// Curvature of `sqrt a`.
pub open spec fn sqrt_spec(a: Curvature) -> Curvature {
    if a is Concave || is_affine_like(a) { Curvature::Concave } else { Curvature::Unknown }
}

/// Curvature of `log a`.
pub open spec fn log_spec(a: Curvature) -> Curvature {
    if a is Constant {
        Curvature::Constant
    } else if a is Affine || a is Concave {
        Curvature::Concave
    } else {
        Curvature::Unknown
    }
}

/// Curvature of `exp a`.
pub open spec fn exp_spec(a: Curvature) -> Curvature {
    if a is Constant {
        Curvature::Constant
    } else if a is Affine || a is Convex {
        Curvature::Convex
    } else {
        Curvature::Unknown
    }
}

/// `le a b` is valid when its left side is at most convex and its right side
/// at most concave.
pub open spec fn le_valid_spec(a: Curvature, b: Curvature) -> bool {
    curv_le(a, Curvature::Convex) && curv_le(b, Curvature::Concave)
}

/// `eq a b` and `neq a b` are valid when both sides are at most affine.
pub open spec fn eq_valid_spec(a: Curvature, b: Curvature) -> bool {
    curv_le(a, Curvature::Affine) && curv_le(b, Curvature::Affine)
}

pub open spec fn valid_if(b: bool) -> Curvature {
    if b { Curvature::Valid } else { Curvature::Unknown }
}

/// Curvature of `mul a b`, given each side's curvature and folded constant.
pub open spec fn mul_spec(ca: Curvature, cb: Curvature, ka: Option<Num>, kb: Option<Num>) -> Curvature {
    match (ka, kb) {
        (Some(_), Some(_)) => Curvature::Constant,
        (Some(k), None) => scale_spec(k, cb),
        (None, Some(k)) => scale_spec(k, ca),
        (None, None) => Curvature::Unknown,
    }
}

/// Curvature of `div a b`: only a folded divisor is recognised.
pub open spec fn div_spec(ca: Curvature, ka: Option<Num>, kb: Option<Num>) -> Curvature {
    match (ka, kb) {
        (Some(_), Some(_)) => Curvature::Constant,
        (None, Some(k)) => divide_spec(ca, k),
        _ => Curvature::Unknown,
    }
}

/// The DCP cost of a node, given the curvature `k[i]` extracted for its
/// `i`-th subterm and the constant `c[i]` folded in that subterm's class.
pub open spec fn cost_spec(n: Optimization, k: Seq<Curvature>, c: Seq<Option<Num>>) -> Curvature {
    match n {
        Optimization::Prob(_, _) => if k[1] is Valid { k[0] } else { Curvature::Unknown },
        Optimization::ObjFun(_) | Optimization::VecSum(_) | Optimization::MatDiag(_)
        | Optimization::MatDiagonal(_) => k[0],
        Optimization::Constraints(_) => valid_if(all_valid_spec(k)),
        Optimization::Var(_) | Optimization::VecVar(_) | Optimization::MatVar(_) => Curvature::Affine,
        Optimization::Param(_) | Optimization::Constant(_) => Curvature::Constant,
        Optimization::Symbol(_) | Optimization::Pow(_, _) => Curvature::Unknown,
        Optimization::Eq(_, _) | Optimization::NEq(_, _) => valid_if(eq_valid_spec(k[0], k[1])),
        Optimization::Le(_, _) => valid_if(le_valid_spec(k[0], k[1])),
        Optimization::Neg(_) => neg_spec(k[0]),
        Optimization::Sqrt(_) => sqrt_spec(k[0]),
        Optimization::Log(_) => log_spec(k[0]),
        Optimization::Exp(_) => exp_spec(k[0]),
        Optimization::Add(_, _) => add_spec(k[0], k[1]),
        Optimization::Sub(_, _) => sub_spec(k[0], k[1]),
        Optimization::Mul(_, _) => mul_spec(k[0], k[1], c[0], c[1]),
        Optimization::Div(_, _) => div_spec(k[0], c[0], c[1]),
        Optimization::MatVecMul(_, _) => if k[0] is Constant {
            k[1]
        } else if k[1] is Constant {
            k[0]
        } else {
            Curvature::Unknown
        },
    }
}

fn add_curv(a: Curvature, b: Curvature) -> (r: Curvature)
    ensures
        r == add_spec(a, b),
{
    let al = matches!(a, Curvature::Affine | Curvature::Constant);
    let bl = matches!(b, Curvature::Affine | Curvature::Constant);
    if matches!(a, Curvature::Constant) && matches!(b, Curvature::Constant) {
        Curvature::Constant
    } else if al && bl {
        Curvature::Affine
    } else if (al || matches!(a, Curvature::Convex)) && (bl || matches!(b, Curvature::Convex)) {
        Curvature::Convex
    } else if (al || matches!(a, Curvature::Concave)) && (bl || matches!(b, Curvature::Concave)) {
        Curvature::Concave
    } else {
        Curvature::Unknown
    }
}

fn scale_curv(k: &Num, q: Curvature) -> (r: Curvature)
    ensures
        r == scale_spec(*k, q),
{
    if k.is_zero() {
        Curvature::Constant
    } else if k.is_neg() {
        q.flip()
    } else {
        q
    }
}

fn valid_when(b: bool) -> (r: Curvature)
    ensures
        r == valid_if(b),
{
    if b { Curvature::Valid } else { Curvature::Unknown }
}

pub open spec fn all_valid_spec(k: Seq<Curvature>) -> bool {
    forall|i: int| 0 <= i < k.len() ==> k[i] is Valid
}

fn all_valid(kids: &Vec<Curvature>) -> (r: bool)
    ensures
        r == all_valid_spec(kids@),
{
    let mut i: usize = 0;
    while i < kids.len()
        invariant
            0 <= i <= kids.len(),
            forall|j: int| 0 <= j < i ==> kids@[j] is Valid,
        decreases kids.len() - i,
    {
        if !matches!(kids[i], Curvature::Valid) {
            assert(!(kids@[i as int] is Valid));
            return false;
        }
        i = i + 1;
    }
    true
}

/// The DCP cost of `enode`: `kids[i]` is the curvature extracted for its
/// `i`-th subterm and `consts[i]` the constant folded in that subterm's class.
pub fn cost(enode: &Optimization, kids: &Vec<Curvature>, consts: &Vec<Option<Num>>) -> (r: Curvature)
    requires
        kids.len() == enode.children_spec().len(),
        consts.len() == enode.children_spec().len(),
    ensures
        r == cost_spec(*enode, kids@, consts@),
{
    match enode {
        Optimization::Prob(_, _) => if matches!(kids[1], Curvature::Valid) { kids[0] } else { Curvature::Unknown },
        Optimization::ObjFun(_) | Optimization::VecSum(_) | Optimization::MatDiag(_)
        | Optimization::MatDiagonal(_) => kids[0],
        Optimization::Constraints(_) => valid_when(all_valid(kids)),
        Optimization::Var(_) | Optimization::VecVar(_) | Optimization::MatVar(_) => Curvature::Affine,
        Optimization::Param(_) | Optimization::Constant(_) => Curvature::Constant,
        Optimization::Symbol(_) | Optimization::Pow(_, _) => Curvature::Unknown,
        Optimization::Eq(_, _) | Optimization::NEq(_, _) => valid_when(
            kids[0].le(&Curvature::Affine) && kids[1].le(&Curvature::Affine),
        ),
        Optimization::Le(_, _) => valid_when(
            kids[0].le(&Curvature::Convex) && kids[1].le(&Curvature::Concave),
        ),
        Optimization::Neg(_) => match kids[0] {
            Curvature::Valid | Curvature::Unknown => Curvature::Unknown,
            c => c.flip(),
        },
        Optimization::Sqrt(_) => match kids[0] {
            Curvature::Concave | Curvature::Affine | Curvature::Constant => Curvature::Concave,
            _ => Curvature::Unknown,
        },
        Optimization::Log(_) => match kids[0] {
            Curvature::Constant => Curvature::Constant,
            Curvature::Affine | Curvature::Concave => Curvature::Concave,
            _ => Curvature::Unknown,
        },
        Optimization::Exp(_) => match kids[0] {
            Curvature::Constant => Curvature::Constant,
            Curvature::Affine | Curvature::Convex => Curvature::Convex,
            _ => Curvature::Unknown,
        },
        Optimization::Add(_, _) => add_curv(kids[0], kids[1]),
        Optimization::Sub(_, _) => add_curv(kids[0], kids[1].flip()),
        Optimization::Mul(_, _) => match (&consts[0], &consts[1]) {
            (Some(_), Some(_)) => Curvature::Constant,
            (Some(k), None) => scale_curv(k, kids[1]),
            (None, Some(k)) => scale_curv(k, kids[0]),
            (None, None) => Curvature::Unknown,
        },
        Optimization::Div(_, _) => match (&consts[0], &consts[1]) {
            (Some(_), Some(_)) => Curvature::Constant,
            (None, Some(k)) => if k.is_zero() { Curvature::Unknown } else { scale_curv(k, kids[0]) },
            _ => Curvature::Unknown,
        },
        Optimization::MatVecMul(_, _) => if matches!(kids[0], Curvature::Constant) {
            kids[1]
        } else if matches!(kids[1], Curvature::Constant) {
            kids[0]
        } else {
            Curvature::Unknown
        },
    }
}

} // verus!
