//! Convexification of optimisation problems: the curvature lattice and the
//! disciplined-convex-programming cost, the per-class analysis of an e-graph,
//! the guarded rewrite rules, and the reading of rewrite explanations.
use vstd::prelude::*;

pub mod curvature;
pub mod num;
pub mod term;
pub mod cost;
pub mod analysis;
pub mod rules;
pub mod explain;
pub mod driver;

verus! {

} // verus!
