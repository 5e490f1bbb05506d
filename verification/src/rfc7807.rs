//! Conversion of values into problems, by value; a problem converts into itself.

use vstd::prelude::*;

use crate::problem::Problem;

verus! {

/// Convert a value into an RFC 7807 [`Problem`], consuming it.
pub trait IntoProblem {
    /// Convert this value into a [`Problem`] instance.
    fn into_problem(self) -> Problem;
}

impl IntoProblem for Problem {
    /// A problem is already a problem: it is handed back unchanged.
    fn into_problem(self) -> (r: Problem)
        ensures
            r == self,
    {
        self
    }
}

} // verus!
