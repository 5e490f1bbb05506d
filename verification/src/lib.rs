//! RFC 7807 Problem Details for HTTP APIs: the `Problem` type, its builder API,
//! field-level validation items, stable error codes and trace correlation,
//! each function with its contract.

use vstd::prelude::*;

pub mod api_error;
pub mod extensions;
pub mod laws;
pub mod order;
pub mod problem;
pub mod response;
pub mod rfc7807;
pub mod text;
pub mod traits;
pub mod validation;

pub use api_error::{attach_trace, with_trace, ApiError};
pub use extensions::{ExtensionValue, Extensions};
pub use problem::Problem;
pub use traits::IntoProblem;
pub use validation::ValidationItem;

verus! {

/// The `Content-Type` header value for RFC 7807 problem responses.
pub const APPLICATION_PROBLEM_JSON: &'static str = "application/problem+json";

} // verus!
