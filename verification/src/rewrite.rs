//! The rewrite rule itself: a pure mapping from a request's method and path
//! segments to either "unchanged" or a new method/path pair.
//!
//! The rule triggers exactly when the method is `POST` and the last path
//! segment is the literal `delete` (case-sensitively); it then substitutes
//! `DELETE` and drops that final segment. Everything else passes through
//! byte-for-byte.

use vstd::prelude::*;
use vstd::string::StringExecFns;

use crate::method::Method;
use crate::request::{spec_render, RequestDescriptor};

verus! {

/// The path segment whose presence in last position triggers rewriting.
pub open spec fn delete_segment() -> Seq<char> {
    "delete"@
}

/// The trigger condition: the method is `POST` and the path's last segment
/// is exactly `delete`.
pub open spec fn spec_is_trigger(method: Method, segments: Seq<Seq<char>>) -> bool {
    &&& method == Method::Post
    &&& segments.len() > 0
    &&& segments.last() == delete_segment()
}

/// The whole rule as a total function: a triggering request becomes a
/// `DELETE` of the path without its final segment; any other request is
/// returned unchanged.
pub open spec fn spec_rewrite(method: Method, segments: Seq<Seq<char>>) -> (Method, Seq<
    Seq<char>,
>) {
    if spec_is_trigger(method, segments) {
        (Method::Delete, segments.drop_last())
    } else {
        (method, segments)
    }
}

/// Decides the trigger condition on an executable method/path pair.
pub fn is_trigger(method: Method, segments: &Vec<String>) -> (r: bool)
    ensures
        r == spec_is_trigger(method, segments.deep_view()),
{
    if method == Method::Post && segments.len() > 0 {
        let marker: String = String::from_str("delete");
        let idx = segments.len() - 1;
        segments[idx] == marker
    } else {
        false
    }
}

/// Applies the rewrite rule to a method/path pair: `Some` with the new
/// method and path exactly when the trigger condition holds, `None` (no
/// mutation at all) otherwise.
pub fn maybe_rewrite(method: Method, segments: &Vec<String>) -> (r: Option<(Method, Vec<String>)>)
    ensures
        r is Some <==> spec_is_trigger(method, segments.deep_view()),
        (match r {
            Some(p) => p.0 == Method::Delete && p.1.deep_view() == segments.deep_view().drop_last(),
            None => true,
        }),
{
    if is_trigger(method, segments) {
        let mut shortened = segments.clone();
        let _last = shortened.pop();
        Some((Method::Delete, shortened))
    } else {
        None
    }
}

/// Law: a request whose method is not `POST` passes through unchanged,
/// whatever its path holds.
pub proof fn lemma_non_post_unchanged(method: Method, segments: Seq<Seq<char>>)
    requires
        method != Method::Post,
    ensures
        spec_rewrite(method, segments) == (method, segments),
{
}

/// Law: a request whose path is empty or whose last segment is not exactly
/// `delete` passes through unchanged, whatever its method.
pub proof fn lemma_last_segment_not_delete_unchanged(method: Method, segments: Seq<Seq<char>>)
    requires
        segments.len() == 0 || segments.last() != delete_segment(),
    ensures
        spec_rewrite(method, segments) == (method, segments),
{
}

/// Law: a triggering request — `POST`, last segment exactly `delete` — is
/// rewritten to `DELETE` of the path with that trailing segment dropped.
pub proof fn lemma_trigger_rewrites(segments: Seq<Seq<char>>)
    requires
        segments.len() > 0,
        segments.last() == delete_segment(),
    ensures
        spec_rewrite(Method::Post, segments) == (Method::Delete, segments.drop_last()),
{
}

/// Law: in string form, a triggering rewrite strips exactly the trailing
/// `/delete` from the path — the rendered output path plus that suffix is
/// the rendered input path.
pub proof fn lemma_rewrite_strips_delete_suffix(segments: Seq<Seq<char>>)
    requires
        segments.len() > 0,
        segments.last() == delete_segment(),
    ensures
        spec_render(segments) == spec_render(spec_rewrite(Method::Post, segments).1) + "/delete"@,
{
    reveal_strlit("/");
    reveal_strlit("delete");
    reveal_strlit("/delete");
    assert(spec_render(segments) =~= spec_render(segments.drop_last()) + "/delete"@);
}

/// Law: the rule's output never triggers a further rewrite (a rewritten
/// request is no longer a `POST`), so the rule is a fixed point of itself.
pub proof fn lemma_rewrite_idempotent(method: Method, segments: Seq<Seq<char>>)
    ensures
        spec_is_trigger(method, segments) ==> !spec_is_trigger(
            spec_rewrite(method, segments).0,
            spec_rewrite(method, segments).1,
        ),
        spec_rewrite(spec_rewrite(method, segments).0, spec_rewrite(method, segments).1)
            == spec_rewrite(method, segments),
{
}

/// The pre-routing hook, as a value a host can register. It holds no state:
/// each invocation reads only the request it is handed.
pub struct PostAsDelete;

impl PostAsDelete {
    /// The hook's display name, for hosts that label their registered hooks.
    pub fn name(&self) -> (r: String)
        ensures
            r@ == "POST as DELETE"@,
    {
        String::from_str("POST as DELETE")
    }

    /// Runs the rule once on an in-flight request, replacing its method and
    /// path when the trigger condition holds and leaving every other part of
    /// the request untouched. Query and fragment are preserved either way,
    /// and well-formed segments stay well formed.
    pub fn on_request(&self, request: &mut RequestDescriptor)
        ensures
            (final(request).method, final(request).segments.deep_view()) == spec_rewrite(
                old(request).method,
                old(request).segments.deep_view(),
            ),
            final(request).query == old(request).query,
            final(request).fragment == old(request).fragment,
            old(request).wf() ==> final(request).wf(),
    {
        if is_trigger(request.method, &request.segments) {
            request.method = Method::Delete;
            let _last = request.segments.pop();
        }
    }
}

} // verus!
