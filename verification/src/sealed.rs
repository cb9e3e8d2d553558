//! Compile-time relations between constant parameters.
use vstd::prelude::*;

verus! {

/// Relates two constants `L` and `R`.
pub struct Assert<const L: usize, const R: usize>;

impl<const L: usize, const R: usize> Assert<L, R> {
    /// Whether `L` and `R` differ.
    pub fn not_equal() -> (r: bool)
        ensures r == (L != R),
    {
        L != R
    }

    /// Whether `L` is at most `R`.
    pub fn less_equal() -> (r: bool)
        ensures r == (L <= R),
    {
        L <= R
    }

    /// Whether `L` is a power of two.
    pub fn power_of_two() -> (r: bool)
        ensures r == (L > 0 && L & ((L - 1) as usize) == 0),
    {
        L > 0 && L & (L - 1) == 0
    }
}

} // verus!
