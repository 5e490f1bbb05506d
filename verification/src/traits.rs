//! Conversion of domain errors into problems, by reference.

use vstd::prelude::*;

use crate::problem::Problem;

verus! {

/// Convert a domain error into an RFC 7807 [`Problem`].
///
/// Implement this trait on your application's error types to enable
/// automatic conversion into structured problem responses.
pub trait IntoProblem {
    /// Convert this error into a [`Problem`] instance.
    fn to_problem(&self) -> Problem;
}

} // verus!
