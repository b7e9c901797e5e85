//! Lexical token vocabulary for the Cartesian configuration language.
//!
//! The crate defines the closed set of lexical atoms that a scanner for the
//! Cartesian configuration format produces and a parser consumes, together
//! with their equality and canonical-rendering contracts. No scanning or
//! parsing algorithm lives here: this is the vocabulary layer that both are
//! built on.

use vstd::prelude::*;

pub mod decimal;
pub mod tokens;

verus! {

/// The sum of two machine-word integers; the caller keeps it in range.
pub fn add(a: usize, b: usize) -> (r: usize)
    requires
        a + b <= usize::MAX,
    ensures
        r == a + b,
{
    a + b
}

/// The sum of two machine-word integers, rendered in decimal.
pub fn sum_as_string(a: usize, b: usize) -> (r: String)
    requires
        a + b <= usize::MAX,
    ensures
        r@ == crate::decimal::spec_udec(a + b),
{
    crate::decimal::udec_string(crate::add(a, b) as u64)
}

} // verus!
