# problem_details

RFC 7807 Problem Details for HTTP APIs, with each library function checked
against its contract.

- `src/` is the verified library: the `Problem` type and its builders
  (`problem.rs`), extension members kept as a map with distinct names in
  name order (`extensions.rs`, `order.rs`), validation items (`validation.rs`), the HTTP status and
  body of a problem response (`response.rs`), `ApiError` and the trace helpers
  (`api_error.rs`), the two conversion traits (`traits.rs`, `rfc7807.rs`),
  decimal rendering (`text.rs`) and the properties that relate operations
  (`laws.rs`).
- `app/` holds what needs outside derives and traits: the serde form of problems
  (`ProblemJson`, `ValidationItemJson`), axum `IntoResponse` wrappers and the
  `Display`/`Error` impls.
- `tests/` runs the library on concrete values.
