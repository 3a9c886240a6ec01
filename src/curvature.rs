use core::cmp::Ordering;
use vstd::prelude::*;

verus! {

/// The curvature of an expression under the disciplined convex programming
/// rules; `Valid` marks a proposition that the rules accept.
#[derive(Debug, Clone, Copy, PartialEq, Eq, Structural)]
pub enum Curvature {
    Convex,
    Concave,
    Affine,
    Constant,
    Valid,
    Unknown,
}

/// The strict order of the lattice:
/// `Constant < Affine < {Convex, Concave} < Unknown` and `Valid < Unknown`.
pub open spec fn curv_lt(a: Curvature, b: Curvature) -> bool {
    match a {
        Curvature::Constant => b is Affine || b is Convex || b is Concave || b is Unknown,
        Curvature::Affine => b is Convex || b is Concave || b is Unknown,
        Curvature::Convex | Curvature::Concave | Curvature::Valid => b is Unknown,
        Curvature::Unknown => false,
    }
}

/// The partial order of the lattice, reflexive closure of `curv_lt`.
pub open spec fn curv_le(a: Curvature, b: Curvature) -> bool {
    a == b || curv_lt(a, b)
}

/// What comparing two curvatures yields: `None` for incomparable ones.
pub open spec fn curv_cmp(a: Curvature, b: Curvature) -> Option<Ordering> {
    if a == b {
        Some(Ordering::Equal)
    } else if curv_lt(a, b) {
        Some(Ordering::Less)
    } else if curv_lt(b, a) {
        Some(Ordering::Greater)
    } else {
        None
    }
}

/// Curvature with convex and concave exchanged, as under negation.
pub open spec fn flip_spec(c: Curvature) -> Curvature {
    match c {
        Curvature::Convex => Curvature::Concave,
        Curvature::Concave => Curvature::Convex,
        _ => c,
    }
}

impl Curvature {
    /// Whether `self` is below or equal to `other` in the lattice.
    pub fn le(&self, other: &Curvature) -> (r: bool)
        ensures
            r == curv_le(*self, *other),
    {
        if *self == *other {
            return true;
        }
        match *self {
            Curvature::Constant => !matches!(*other, Curvature::Valid),
            Curvature::Affine => matches!(*other, Curvature::Convex | Curvature::Concave | Curvature::Unknown),
            Curvature::Convex | Curvature::Concave | Curvature::Valid => matches!(*other, Curvature::Unknown),
            Curvature::Unknown => false,
        }
    }

    /// Whether `self` is strictly below `other` in the lattice.
    pub fn lt(&self, other: &Curvature) -> (r: bool)
        ensures
            r == curv_lt(*self, *other),
    {
        *self != *other && self.le(other)
    }

    /// Convex and concave exchanged; every other curvature kept.
    pub fn flip(&self) -> (r: Curvature)
        ensures
            r == flip_spec(*self),
    {
        match *self {
            Curvature::Convex => Curvature::Concave,
            Curvature::Concave => Curvature::Convex,
            c => c,
        }
    }

    /// The curvature's name.
    pub fn name(&self) -> (r: &'static str)
        ensures
            *self is Convex ==> r == "Convex",
            *self is Concave ==> r == "Concave",
            *self is Affine ==> r == "Affine",
            *self is Constant ==> r == "Constant",
            *self is Valid ==> r == "Valid",
            *self is Unknown ==> r == "Unknown",
    {
        match *self {
            Curvature::Convex => "Convex",
            Curvature::Concave => "Concave",
            Curvature::Affine => "Affine",
            Curvature::Constant => "Constant",
            Curvature::Valid => "Valid",
            Curvature::Unknown => "Unknown",
        }
    }
}

impl PartialOrd for Curvature {
    fn partial_cmp(&self, other: &Curvature) -> (r: Option<Ordering>)
        ensures
            r == curv_cmp(*self, *other),
    {
        if *self == *other {
            Some(Ordering::Equal)
        } else if self.lt(other) {
            Some(Ordering::Less)
        } else if other.lt(self) {
            Some(Ordering::Greater)
        } else {
            None
        }
    }
}

impl vstd::std_specs::cmp::PartialOrdSpecImpl for Curvature {
    open spec fn obeys_partial_cmp_spec() -> bool {
        true
    }

    open spec fn partial_cmp_spec(&self, other: &Curvature) -> Option<Ordering> {
        curv_cmp(*self, *other)
    }
}

/// The lattice laws: every curvature is below itself; `Constant` is below
/// `Affine`, which is below both `Convex` and `Concave`; `Convex` and
/// `Concave` are incomparable; `Valid` is incomparable with `Convex`,
/// `Concave`, `Affine` and `Constant`; every curvature is below `Unknown`;
/// and the order is antisymmetric and transitive.
pub proof fn lemma_lattice_laws(a: Curvature, b: Curvature, c: Curvature)
    ensures
        curv_le(a, a),
        curv_le(Curvature::Constant, Curvature::Affine),
        curv_le(Curvature::Affine, Curvature::Convex),
        curv_le(Curvature::Affine, Curvature::Concave),
        !curv_le(Curvature::Convex, Curvature::Concave),
        !curv_le(Curvature::Concave, Curvature::Convex),
        a is Convex || a is Concave || a is Affine || a is Constant ==> !curv_le(a, Curvature::Valid)
            && !curv_le(Curvature::Valid, a),
        curv_le(a, Curvature::Unknown),
        curv_le(a, b) && curv_le(b, a) ==> a == b,
        curv_le(a, b) && curv_le(b, c) ==> curv_le(a, c),
        curv_cmp(a, b) == Some(Ordering::Less) <==> curv_lt(a, b),
        curv_cmp(a, b) is None <==> !curv_le(a, b) && !curv_le(b, a),
{
}

} // verus!
