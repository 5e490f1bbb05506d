//! An error type for request handlers that always answers with a problem.

use vstd::prelude::*;

use crate::extensions::ExtensionValueView;
use crate::problem::{generic_detail, trace_id_key, Problem, ProblemView};
use crate::traits::IntoProblem;

verus! {

/// The problem that [`ApiError::internal`] makes of a cause message: status 500,
/// the generic public detail, and the message as internal cause only.
pub open spec fn internal_error_view(cause: Seq<char>) -> ProblemView {
    ProblemView {
        status: Some(500),
        detail: Some(generic_detail()),
        internal_cause: Some(cause),
        ..ProblemView::empty()
    }
}

/// A wrapper error type that converts into an RFC 7807 problem response.
///
/// Unknown errors become safe 500 problems that do not make the original
/// message public (see [`ApiError::internal`]).
#[derive(Debug)]
pub struct ApiError {
    problem: Problem,
}

impl View for ApiError {
    type V = ProblemView;

    closed spec fn view(&self) -> ProblemView {
        self.problem@
    }
}

impl ApiError {
    /// The wrapped problem.
    pub closed spec fn inner(&self) -> Problem {
        self.problem
    }

    /// Create an `ApiError` from an explicit [`Problem`].
    pub fn from_problem(problem: Problem) -> (r: Self)
        ensures
            r@ == problem@,
            r.inner() == problem,
    {
        ApiError { problem }
    }

    /// Create a safe 500 `ApiError` from an error message, kept as the
    /// internal cause of the problem and never made public.
    pub fn internal(cause: &str) -> (r: Self)
        ensures
            r@ == internal_error_view(cause@),
    {
        ApiError { problem: Problem::internal_server_error().with_internal_cause(cause) }
    }

    /// Create an `ApiError` from a domain error that implements [`IntoProblem`]:
    /// the problem is whatever its `to_problem` returns.
    pub fn from_domain<E: IntoProblem>(err: &E) -> (r: Self)
        ensures
            call_ensures(E::to_problem, (err,), r.inner()),
    {
        ApiError { problem: err.to_problem() }
    }

    /// The underlying [`Problem`].
    pub fn problem(&self) -> (r: &Problem)
        ensures
            *r == self.inner(),
            r@ == self@,
    {
        &self.problem
    }

    /// The human-readable form of the wrapped problem.
    pub fn to_string(&self) -> (r: String)
        ensures
            r@ == self@.display(),
    {
        self.problem.to_string()
    }
}

impl From<Problem> for ApiError {
    /// The error that answers with `problem`, as [`ApiError::from_problem`].
    fn from(problem: Problem) -> (r: Self)
        ensures
            r.inner() == problem,
            r@ == problem@,
    {
        Self::from_problem(problem)
    }
}

impl vstd::std_specs::convert::FromSpecImpl<Problem> for ApiError {
    open spec fn obeys_from_spec() -> bool {
        true
    }

    closed spec fn from_spec(problem: Problem) -> ApiError {
        ApiError { problem }
    }
}

/// Set the `trace_id` extension member of a [`Problem`], as
/// [`Problem::with_trace_id`] does.
pub fn with_trace(problem: Problem, trace_id: &str) -> (r: Problem)
    ensures
        r@ == problem@.set_extension(trace_id_key(), ExtensionValueView::Text(trace_id@)),
{
    problem.with_trace_id(trace_id)
}

/// Attach a `trace_id` extension member to a [`Problem`], as
/// [`Problem::with_trace_id`] does.
pub fn attach_trace(problem: Problem, trace_id: &str) -> (r: Problem)
    ensures
        r@ == problem@.set_extension(trace_id_key(), ExtensionValueView::Text(trace_id@)),
{
    problem.with_trace_id(trace_id)
}

} // verus!
