//! The RFC 7807 Problem Details object, its model and its builder API.

use vstd::prelude::*;

use crate::extensions::{
    json_member, json_string, text_of, ExtensionValue, ExtensionValueView, Extensions,
};
use crate::text::{decimal, decimal_string};
use crate::validation::{opt_view, ValidationItem};

verus! {

/// An RFC 7807 Problem Details object.
///
/// All standard members are optional and left out of the JSON form when `None`.
/// Extension members live in [`Problem::extensions`]; the common ones (`code`,
/// `errors`, `trace_id`, `request_id`) have dedicated builder methods.
///
/// The internal cause (see [`Problem::with_internal_cause`]) is a diagnostic
/// message for the server side. It is not part of the public form of the
/// problem ([`ProblemView::public`]), which is all that is serialized.
///
/// Because the internal cause is private, verified code outside this module
/// reads the public members through [`Problem::public_members`], whose
/// contract gives each of them; the fields themselves are for plain Rust code.
#[derive(Debug, Clone)]
pub struct Problem {
    /// A URI reference that identifies the problem type (the `type` member).
    pub problem_type: Option<String>,
    /// A short, human-readable summary of the problem type.
    pub title: Option<String>,
    /// The HTTP status code for this occurrence of the problem.
    pub status: Option<u16>,
    /// A human-readable explanation specific to this occurrence.
    pub detail: Option<String>,
    /// A URI reference that identifies this specific occurrence.
    pub instance: Option<String>,
    /// Extension members beyond the RFC 7807 standard members.
    pub extensions: Extensions,
    /// Internal cause message for diagnostics; never public.
    internal_cause: Option<String>,
}

/// The public members of a problem: everything about it but its internal
/// cause. This is what the JSON form of a problem is written from.
pub struct PublicMembers<'a> {
    pub problem_type: Option<&'a str>,
    pub title: Option<&'a str>,
    pub status: Option<u16>,
    pub detail: Option<&'a str>,
    pub instance: Option<&'a str>,
    pub extensions: &'a Extensions,
}

impl<'a> View for PublicMembers<'a> {
    type V = ProblemView;

    open spec fn view(&self) -> ProblemView {
        ProblemView {
            problem_type: opt_str_view(self.problem_type),
            title: opt_str_view(self.title),
            status: self.status,
            detail: opt_str_view(self.detail),
            instance: opt_str_view(self.instance),
            extensions: self.extensions@,
            internal_cause: None,
        }
    }
}

/// A borrowed view of an optional string.
fn opt_as_str(s: &Option<String>) -> (r: Option<&str>)
    ensures
        opt_str_view(r) == opt_view(*s),
{
    match s {
        Some(t) => Some(t.as_str()),
        None => None,
    }
}

/// The model of a [`Problem`].
pub struct ProblemView {
    pub problem_type: Option<Seq<char>>,
    pub title: Option<Seq<char>>,
    pub status: Option<u16>,
    pub detail: Option<Seq<char>>,
    pub instance: Option<Seq<char>>,
    pub extensions: Map<Seq<char>, ExtensionValueView>,
    pub internal_cause: Option<Seq<char>>,
}

impl View for Problem {
    type V = ProblemView;

    closed spec fn view(&self) -> ProblemView {
        ProblemView {
            problem_type: opt_view(self.problem_type),
            title: opt_view(self.title),
            status: self.status,
            detail: opt_view(self.detail),
            instance: opt_view(self.instance),
            extensions: self.extensions@,
            internal_cause: opt_view(self.internal_cause),
        }
    }
}

/// The name of the error-code extension member.
pub open spec fn code_key() -> Seq<char> {
    "code"@
}

/// The name of the validation-errors extension member.
pub open spec fn errors_key() -> Seq<char> {
    "errors"@
}

/// The name of the trace-id extension member.
pub open spec fn trace_id_key() -> Seq<char> {
    "trace_id"@
}

/// The name of the request-id extension member.
pub open spec fn request_id_key() -> Seq<char> {
    "request_id"@
}

/// The public detail that a 500 problem carries by default.
pub open spec fn generic_detail() -> Seq<char> {
    "An internal error occurred"@
}

/// The model of an optional borrowed string.
pub open spec fn opt_str_view(s: Option<&str>) -> Option<Seq<char>> {
    match s {
        Some(t) => Some(t@),
        None => None,
    }
}

impl ProblemView {
    /// The problem with no member set.
    pub open spec fn empty() -> ProblemView {
        ProblemView {
            problem_type: None,
            title: None,
            status: None,
            detail: None,
            instance: None,
            extensions: Map::empty(),
            internal_cause: None,
        }
    }

    /// Everything that is public about the problem: all but the internal cause.
    pub open spec fn public(self) -> ProblemView {
        ProblemView { internal_cause: None, ..self }
    }

    /// The problem with extension member `key` set to `value`.
    pub open spec fn set_extension(self, key: Seq<char>, value: ExtensionValueView) -> ProblemView {
        ProblemView { extensions: self.extensions.insert(key, value), ..self }
    }

    /// The value of extension member `key`, if set.
    pub open spec fn extension(self, key: Seq<char>) -> Option<ExtensionValueView> {
        if self.extensions.contains_key(key) {
            Some(self.extensions[key])
        } else {
            None
        }
    }

    /// The `code` member, when it is set to a JSON string.
    pub open spec fn code(self) -> Option<Seq<char>> {
        text_of(self.extension(code_key()))
    }

    /// The `trace_id` member, when it is set to a JSON string.
    pub open spec fn trace_id(self) -> Option<Seq<char>> {
        text_of(self.extension(trace_id_key()))
    }

    /// The status, or 500 when none is set.
    pub open spec fn status_or_default(self) -> u16 {
        match self.status {
            Some(s) => s,
            None => 500,
        }
    }

    /// The human-readable form: the title (or `Problem`), then ` (<status>)`
    /// when a status is set, then `: <detail>` when a detail is set.
    pub open spec fn display(self) -> Seq<char> {
        (match self.title {
            Some(t) => t,
            None => "Problem"@,
        }) + (match self.status {
            Some(s) => " ("@ + decimal(s as nat) + ")"@,
            None => Seq::empty(),
        }) + (match self.detail {
            Some(d) => ": "@ + d,
            None => Seq::empty(),
        })
    }
}

impl Problem {
    /// Create a new empty problem.
    pub fn new() -> (r: Self)
        ensures
            r@ == ProblemView::empty(),
    {
        Problem {
            problem_type: None,
            title: None,
            status: None,
            detail: None,
            instance: None,
            extensions: Extensions::new(),
            internal_cause: None,
        }
    }

    /// Create a problem with the given HTTP status code and nothing else set.
    pub fn with_status(status: u16) -> (r: Self)
        ensures
            r@ == (ProblemView { status: Some(status), ..ProblemView::empty() }),
    {
        Problem { status: Some(status), ..Self::new() }
    }

    /// 400 Bad Request.
    pub fn bad_request() -> (r: Self)
        ensures
            r@ == (ProblemView { status: Some(400), ..ProblemView::empty() }),
    {
        Self::with_status(400)
    }

    /// 401 Unauthorized.
    pub fn unauthorized() -> (r: Self)
        ensures
            r@ == (ProblemView { status: Some(401), ..ProblemView::empty() }),
    {
        Self::with_status(401)
    }

    /// 403 Forbidden.
    pub fn forbidden() -> (r: Self)
        ensures
            r@ == (ProblemView { status: Some(403), ..ProblemView::empty() }),
    {
        Self::with_status(403)
    }

    /// 404 Not Found.
    pub fn not_found() -> (r: Self)
        ensures
            r@ == (ProblemView { status: Some(404), ..ProblemView::empty() }),
    {
        Self::with_status(404)
    }

    /// 409 Conflict.
    pub fn conflict() -> (r: Self)
        ensures
            r@ == (ProblemView { status: Some(409), ..ProblemView::empty() }),
    {
        Self::with_status(409)
    }

    /// 422 Unprocessable Entity.
    pub fn unprocessable_entity() -> (r: Self)
        ensures
            r@ == (ProblemView { status: Some(422), ..ProblemView::empty() }),
    {
        Self::with_status(422)
    }

    /// 429 Too Many Requests.
    pub fn too_many_requests() -> (r: Self)
        ensures
            r@ == (ProblemView { status: Some(429), ..ProblemView::empty() }),
    {
        Self::with_status(429)
    }

    /// 500 Internal Server Error.
    ///
    /// The detail is set to a generic message so that no internal information
    /// leaks; use [`Self::with_internal_cause`] to keep diagnostic details.
    pub fn internal_server_error() -> (r: Self)
        ensures
            r@ == (ProblemView {
                status: Some(500),
                detail: Some(generic_detail()),
                ..ProblemView::empty()
            }),
    {
        Self::with_status(500).with_detail("An internal error occurred")
    }

    /// Set the problem type URI.
    pub fn with_type(self, problem_type: &str) -> (r: Self)
        ensures
            r@ == (ProblemView { problem_type: Some(problem_type@), ..self@ }),
    {
        Problem { problem_type: Some(problem_type.to_owned()), ..self }
    }

    /// Set the title.
    pub fn with_title(self, title: &str) -> (r: Self)
        ensures
            r@ == (ProblemView { title: Some(title@), ..self@ }),
    {
        Problem { title: Some(title.to_owned()), ..self }
    }

    /// Set the public detail message.
    pub fn with_detail(self, detail: &str) -> (r: Self)
        ensures
            r@ == (ProblemView { detail: Some(detail@), ..self@ }),
    {
        Problem { detail: Some(detail.to_owned()), ..self }
    }

    /// Set the instance URI.
    pub fn with_instance(self, instance: &str) -> (r: Self)
        ensures
            r@ == (ProblemView { instance: Some(instance@), ..self@ }),
    {
        Problem { instance: Some(instance.to_owned()), ..self }
    }

    /// Set extension member `key` to `value`, replacing an earlier value of it.
    pub fn with_extension_value(self, key: &str, value: ExtensionValue) -> (r: Self)
        ensures
            r@ == self@.set_extension(key@, value@),
    {
        let mut p = self;
        p.extensions.insert(key.to_owned(), value);
        p
    }

    /// Set the `"code"` extension member (a stable string code for clients).
    pub fn with_code(self, code: &str) -> (r: Self)
        ensures
            r@ == self@.set_extension(code_key(), ExtensionValueView::Text(code@)),
    {
        self.with_extension_value("code", ExtensionValue::text(code))
    }

    /// Set the `"errors"` extension member to a list of validation errors.
    pub fn with_errors(self, errors: Vec<ValidationItem>) -> (r: Self)
        ensures
            r@ == self@.set_extension(
                errors_key(),
                ExtensionValueView::Errors(errors@.map_values(|x: ValidationItem| x@)),
            ),
    {
        self.with_extension_value("errors", ExtensionValue::Errors(errors))
    }

    /// Set the `"trace_id"` extension member.
    pub fn with_trace_id(self, trace_id: &str) -> (r: Self)
        ensures
            r@ == self@.set_extension(trace_id_key(), ExtensionValueView::Text(trace_id@)),
    {
        self.with_extension_value("trace_id", ExtensionValue::text(trace_id))
    }

    /// Set the `"request_id"` extension member.
    pub fn with_request_id(self, request_id: &str) -> (r: Self)
        ensures
            r@ == self@.set_extension(request_id_key(), ExtensionValueView::Text(request_id@)),
    {
        self.with_extension_value("request_id", ExtensionValue::text(request_id))
    }

    /// Add an arbitrary JSON extension member. A JSON string is kept as its
    /// text; any other value is kept as it is.
    pub fn with_extension(self, key: &str, value: serde_json::Value) -> (r: Self)
        ensures
            r@ == self@.set_extension(key@, json_member(value)),
            forall|t: Seq<char>| value == #[trigger] json_string(t) ==> r@ == self@.set_extension(
                key@,
                ExtensionValueView::Text(t),
            ),
    {
        self.with_extension_value(key, ExtensionValue::from_json(value))
    }

    /// Store an internal cause message for diagnostics. It is never public.
    pub fn with_internal_cause(self, cause: &str) -> (r: Self)
        ensures
            r@ == (ProblemView { internal_cause: Some(cause@), ..self@ }),
    {
        Problem { internal_cause: Some(cause.to_owned()), ..self }
    }

    /// The public members: all members but the internal cause.
    pub fn public_members(&self) -> (r: PublicMembers<'_>)
        ensures
            r@ == self@.public(),
    {
        PublicMembers {
            problem_type: opt_as_str(&self.problem_type),
            title: opt_as_str(&self.title),
            status: self.status,
            detail: opt_as_str(&self.detail),
            instance: opt_as_str(&self.instance),
            extensions: &self.extensions,
        }
    }

    /// The HTTP status code, 500 when none is set.
    pub fn status_or_default(&self) -> (r: u16)
        ensures
            r == self@.status_or_default(),
    {
        match self.status {
            Some(s) => s,
            None => 500,
        }
    }

    /// The `"code"` extension member, when it is set to a string.
    pub fn code(&self) -> (r: Option<&str>)
        ensures
            opt_str_view(r) == self@.code(),
            forall|t: Seq<char>|
                self@.extension(code_key()) == Some(ExtensionValueView::Json(#[trigger] json_string(t)))
                    ==> opt_str_view(r) == Some(t),
    {
        match self.extensions.get("code") {
            Some(v) => v.as_text(),
            None => None,
        }
    }

    /// The `"trace_id"` extension member, when it is set to a string.
    pub fn trace_id(&self) -> (r: Option<&str>)
        ensures
            opt_str_view(r) == self@.trace_id(),
            forall|t: Seq<char>|
                self@.extension(trace_id_key()) == Some(ExtensionValueView::Json(#[trigger] json_string(t)))
                    ==> opt_str_view(r) == Some(t),
    {
        match self.extensions.get("trace_id") {
            Some(v) => v.as_text(),
            None => None,
        }
    }

    /// The internal cause, if set.
    pub fn internal_cause(&self) -> (r: Option<&str>)
        ensures
            opt_str_view(r) == self@.internal_cause,
    {
        opt_as_str(&self.internal_cause)
    }

    /// The human-readable form, as `format!("{problem}")` writes it:
    /// `Not Found (404): User 42`.
    pub fn to_string(&self) -> (r: String)
        ensures
            r@ == self@.display(),
    {
        let mut s = match &self.title {
            Some(t) => t.clone(),
            None => String::from_str("Problem"),
        };
        match self.status {
            Some(code) => {
                s.append(" (");
                let digits = decimal_string(code);
                s.append(digits.as_str());
                s.append(")");
            },
            None => {},
        }
        match &self.detail {
            Some(d) => {
                s.append(": ");
                s.append(d.as_str());
            },
            None => {},
        }
        s
    }
}

impl Default for Problem {
    /// The empty problem, as [`Problem::new`].
    fn default() -> (r: Self)
        ensures
            r@ == ProblemView::empty(),
    {
        Self::new()
    }
}

} // verus!
