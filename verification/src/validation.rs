//! Field-level validation items, reported under the `"errors"` extension key.

use vstd::prelude::*;

verus! {

/// A single field-level validation error.
///
/// Used within the `"errors"` extension key to report multiple validation
/// failures in a structured format suitable for frontend form binding.
#[derive(Debug, Clone, PartialEq, Eq)]
pub struct ValidationItem {
    /// The field path that failed validation (e.g. `"email"` or `"address.zip"`).
    pub field: String,
    /// A human-readable description of the validation failure.
    pub message: String,
    /// An optional machine-readable error code for this specific validation failure.
    pub code: Option<String>,
}

/// The mathematical model of a [`ValidationItem`]: its texts as character sequences.
pub struct ValidationItemView {
    pub field: Seq<char>,
    pub message: Seq<char>,
    pub code: Option<Seq<char>>,
}

/// The model of an optional string.
pub open spec fn opt_view(s: Option<String>) -> Option<Seq<char>> {
    match s {
        Some(t) => Some(t@),
        None => None,
    }
}

impl View for ValidationItem {
    type V = ValidationItemView;

    open spec fn view(&self) -> ValidationItemView {
        ValidationItemView { field: self.field@, message: self.message@, code: opt_view(self.code) }
    }
}

impl ValidationItem {
    /// Create a new validation item for the given field and message, without a code.
    pub fn new(field: &str, message: &str) -> (r: Self)
        ensures
            r@ == (ValidationItemView { field: field@, message: message@, code: None }),
    {
        ValidationItem { field: field.to_owned(), message: message.to_owned(), code: None }
    }

    /// A copy with the same field, message and code.
    pub(crate) fn copy(&self) -> (r: Self)
        ensures
            r@ == self@,
    {
        let code = match &self.code {
            Some(c) => Some(c.clone()),
            None => None,
        };
        ValidationItem { field: self.field.clone(), message: self.message.clone(), code }
    }

    /// Set an error code for this validation item; field and message are kept.
    pub fn code(self, code: &str) -> (r: Self)
        ensures
            r@ == (ValidationItemView { code: Some(code@), ..self@ }),
    {
        ValidationItem { code: Some(code.to_owned()), ..self }
    }
}

} // verus!
