//! Properties of the library that relate several operations.

use vstd::prelude::*;

use crate::api_error::internal_error_view;
use crate::extensions::ExtensionValueView;
use crate::problem::{code_key, generic_detail, trace_id_key, ProblemView};
use crate::text::decimal;
use crate::response::response_status_for;

verus! {

/// Storing an internal cause changes nothing that is public about a problem:
/// the public form after `with_internal_cause` is the public form before.
/// `Problem::public_members`, which the JSON form is written from, returns
/// exactly this public form, so the internal cause is never in it.
pub proof fn law_internal_cause_is_not_public(p: ProblemView, cause: Seq<char>)
    ensures
        (ProblemView { internal_cause: Some(cause), ..p }).public() == p.public(),
{
}

/// An internal error shows the same public problem whatever its cause: the
/// public form of `ApiError::internal(m)` is that of
/// `Problem::internal_server_error()`, for every message `m`.
pub proof fn law_internal_error_hides_cause(cause: Seq<char>)
    ensures
        internal_error_view(cause).public() == (ProblemView {
            status: Some(500),
            detail: Some(generic_detail()),
            ..ProblemView::empty()
        }).public(),
        internal_error_view(cause).internal_cause == Some(cause),
{
}

/// Reading the code back gives the code that was set last.
pub proof fn law_code_read_back(p: ProblemView, code: Seq<char>)
    ensures
        p.set_extension(code_key(), ExtensionValueView::Text(code)).code() == Some(code),
{
}

/// Reading the trace id back gives the trace id that was set last.
pub proof fn law_trace_id_read_back(p: ProblemView, trace_id: Seq<char>)
    ensures
        p.set_extension(trace_id_key(), ExtensionValueView::Text(trace_id)).trace_id() == Some(
            trace_id,
        ),
{
}

/// Setting an extension member twice keeps only the second value.
pub proof fn law_extension_last_write_wins(
    p: ProblemView,
    key: Seq<char>,
    first: ExtensionValueView,
    second: ExtensionValueView,
)
    ensures
        p.set_extension(key, first).set_extension(key, second) == p.set_extension(key, second),
{
    assert(p.extensions.insert(key, first).insert(key, second) =~= p.extensions.insert(
        key,
        second,
    ));
}

/// Setting one extension member leaves every other member, and every standard
/// member, as it was.
pub proof fn law_extension_leaves_others(
    p: ProblemView,
    key: Seq<char>,
    value: ExtensionValueView,
    other: Seq<char>,
)
    requires
        key != other,
    ensures
        p.set_extension(key, value).extension(other) == p.extension(other),
        p.set_extension(key, value).problem_type == p.problem_type,
        p.set_extension(key, value).instance == p.instance,
        p.set_extension(key, value).status == p.status,
        p.set_extension(key, value).title == p.title,
        p.set_extension(key, value).detail == p.detail,
        p.set_extension(key, value).internal_cause == p.internal_cause,
{
}

/// Setting the trace id leaves the code as it was, and setting the code
/// leaves the trace id as it was.
pub proof fn law_code_and_trace_id_independent(p: ProblemView, value: Seq<char>)
    ensures
        p.set_extension(trace_id_key(), ExtensionValueView::Text(value)).code() == p.code(),
        p.set_extension(code_key(), ExtensionValueView::Text(value)).trace_id() == p.trace_id(),
{
    reveal_strlit("code");
    reveal_strlit("trace_id");
    assert(code_key() != trace_id_key()) by {
        assert(code_key().len() != trace_id_key().len());
    }
}

/// A response always carries a valid HTTP status code, and it is the problem's
/// own status whenever that is valid.
pub proof fn law_response_status_valid(status: u16)
    ensures
        100 <= response_status_for(status) <= 999,
        100 <= status <= 999 ==> response_status_for(status) == status,
{
}

/// Setting an extension member makes that member read back as the value
/// set, and changes no standard member: type, title, status, detail,
/// instance and internal cause stay as they were.
pub proof fn law_set_extension_reads_back(p: ProblemView, key: Seq<char>, value: ExtensionValueView)
    ensures
        p.set_extension(key, value).extension(key) == Some(value),
        p.set_extension(key, value).problem_type == p.problem_type,
        p.set_extension(key, value).title == p.title,
        p.set_extension(key, value).status == p.status,
        p.set_extension(key, value).detail == p.detail,
        p.set_extension(key, value).instance == p.instance,
        p.set_extension(key, value).internal_cause == p.internal_cause,
{
}

/// The status of a problem response: a set status is used as it is, whatever
/// its value; 500 stands in only when no status is set. A set status that is a
/// valid HTTP status code is the status of the response.
pub proof fn law_status_or_default(p: ProblemView, s: u16)
    ensures
        (ProblemView { status: Some(s), ..p }).status_or_default() == s,
        (ProblemView { status: None, ..p }).status_or_default() == 500,
        100 <= s <= 999 ==> response_status_for(
            (ProblemView { status: Some(s), ..p }).status_or_default(),
        ) == s,
{
}

/// The public form of a problem is the problem with only its internal cause
/// taken away: every other member is the same.
pub proof fn law_public_keeps_members(p: ProblemView)
    ensures
        p.public().problem_type == p.problem_type,
        p.public().title == p.title,
        p.public().status == p.status,
        p.public().detail == p.detail,
        p.public().instance == p.instance,
        p.public().extensions == p.extensions,
        p.public().internal_cause is None,
{
}

/// The code is read from the `code` member alone: no `code` member reads as
/// no code, and two problems with the same `code` member read the same code,
/// whatever their other members. The same holds of the trace id.
pub proof fn law_code_reads_only_its_member(p: ProblemView, q: ProblemView)
    ensures
        !p.extensions.contains_key(code_key()) ==> p.code() is None,
        p.extension(code_key()) == q.extension(code_key()) ==> p.code() == q.code(),
        !p.extensions.contains_key(trace_id_key()) ==> p.trace_id() is None,
        p.extension(trace_id_key()) == q.extension(trace_id_key()) ==> p.trace_id() == q.trace_id(),
{
}

/// With nothing but a title set, the text is the title; with nothing set at
/// all, it is `Problem`.
pub proof fn law_display_name(t: Seq<char>)
    ensures
        (ProblemView { title: Some(t), ..ProblemView::empty() }).display() == t,
        ProblemView::empty().display() == "Problem"@,
{
    assert((ProblemView { title: Some(t), ..ProblemView::empty() }).display() =~= t);
    assert(ProblemView::empty().display() =~= "Problem"@);
}

/// Setting a status on a problem without status or detail appends
/// ` (<status>)` to its text, whether or not a title is set.
pub proof fn law_display_status_appended(p: ProblemView, s: u16)
    requires
        p.status is None,
        p.detail is None,
    ensures
        (ProblemView { status: Some(s), ..p }).display() == p.display() + " ("@ + decimal(
            s as nat,
        ) + ")"@,
{
    assert((ProblemView { status: Some(s), ..p }).display() =~= p.display() + " ("@ + decimal(
        s as nat,
    ) + ")"@);
}

/// Setting a detail on a problem without detail appends `: <detail>` to its
/// text, whatever its title and status.
pub proof fn law_display_detail_appended(p: ProblemView, d: Seq<char>)
    requires
        p.detail is None,
    ensures
        (ProblemView { detail: Some(d), ..p }).display() == p.display() + ": "@ + d,
{
    assert((ProblemView { detail: Some(d), ..p }).display() =~= p.display() + ": "@ + d);
}

/// A problem with title `t`, status `s` and no detail reads `t (s)`.
pub proof fn law_display_title_and_status(p: ProblemView, t: Seq<char>, s: u16)
    requires
        p.title == Some(t),
        p.status == Some(s),
        p.detail is None,
    ensures
        p.display() == t + " ("@ + decimal(s as nat) + ")"@,
{
    assert(p.display() =~= t + " ("@ + decimal(s as nat) + ")"@);
}

} // verus!
