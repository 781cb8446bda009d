//! Random 3-SAT instances in conjunctive normal form, a brute-force
//! satisfiability engine, and a reduction from 3-SAT to graph 3-coloring.

pub mod cnf;
pub mod reduction;
pub mod rng;
pub mod sat;
pub mod text;

use vstd::prelude::*;

verus! {

/// Failures that the generation and evaluation entry points report.
#[derive(Debug, Copy, Clone, PartialEq, Eq, Structural)]
pub enum SatError {
    /// The requested variable count cannot support a clause with three
    /// distinct variables.
    InvalidConfiguration,
    /// An assignment does not cover a variable index that a literal references.
    IndexOutOfRange,
}

} // verus!
