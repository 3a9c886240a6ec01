use vstd::prelude::*;
use crate::num::Num;

verus! {

/// A node of the term language. Every position that holds a subterm holds the
/// identifier of an equivalence class.
#[derive(Debug, Clone)]
pub enum Optimization {
    Prob(usize, usize),
    ObjFun(usize),
    Constraints(Vec<usize>),
    Var(usize),
    VecVar(usize),
    MatVar(usize),
    Param(usize),
    Symbol(String),
    Constant(Num),
    Eq(usize, usize),
    NEq(usize, usize),
    Le(usize, usize),
    Neg(usize),
    Sqrt(usize),
    Add(usize, usize),
    Sub(usize, usize),
    Mul(usize, usize),
    Div(usize, usize),
    Pow(usize, usize),
    Log(usize),
    Exp(usize),
    VecSum(usize),
    MatVecMul(usize, usize),
    MatDiag(usize),
    MatDiagonal(usize),
}

impl Optimization {
    /// The class identifiers of the node's subterms, in order.
    pub open spec fn children_spec(&self) -> Seq<usize> {
        match *self {
            Optimization::Prob(a, b) | Optimization::Eq(a, b) | Optimization::NEq(a, b)
            | Optimization::Le(a, b) | Optimization::Add(a, b) | Optimization::Sub(a, b)
            | Optimization::Mul(a, b) | Optimization::Div(a, b) | Optimization::Pow(a, b)
            | Optimization::MatVecMul(a, b) => seq![a, b],
            Optimization::ObjFun(a) | Optimization::Var(a) | Optimization::VecVar(a)
            | Optimization::MatVar(a) | Optimization::Param(a) | Optimization::Neg(a)
            | Optimization::Sqrt(a) | Optimization::Log(a) | Optimization::Exp(a)
            | Optimization::VecSum(a) | Optimization::MatDiag(a)
            | Optimization::MatDiagonal(a) => seq![a],
            Optimization::Constraints(v) => v@,
            Optimization::Symbol(_) | Optimization::Constant(_) => seq![],
        }
    }

    /// A variable binder: `var`, `vecVar` or `matVar`.
    pub open spec fn is_binder(&self) -> bool {
        self is Var || self is VecVar || self is MatVar
    }

    /// The class identifiers of the node's subterms, in order.
    pub fn children(&self) -> (r: Vec<usize>)
        ensures
            r@ == self.children_spec(),
    {
        match self {
            Optimization::Prob(a, b) | Optimization::Eq(a, b) | Optimization::NEq(a, b)
            | Optimization::Le(a, b) | Optimization::Add(a, b) | Optimization::Sub(a, b)
            | Optimization::Mul(a, b) | Optimization::Div(a, b) | Optimization::Pow(a, b)
            | Optimization::MatVecMul(a, b) => vec![*a, *b],
            Optimization::ObjFun(a) | Optimization::Var(a) | Optimization::VecVar(a)
            | Optimization::MatVar(a) | Optimization::Param(a) | Optimization::Neg(a)
            | Optimization::Sqrt(a) | Optimization::Log(a) | Optimization::Exp(a)
            | Optimization::VecSum(a) | Optimization::MatDiag(a)
            | Optimization::MatDiagonal(a) => vec![*a],
            Optimization::Constraints(v) => v.clone(),
            Optimization::Symbol(_) | Optimization::Constant(_) => Vec::new(),
        }
    }
}

/// Whether the node is an `exp`.
pub fn is_exp(opt: &Optimization) -> (r: bool)
    ensures
        r == (*opt is Exp),
{
    match opt {
        Optimization::Exp(_) => true,
        _ => false,
    }
}

} // verus!
