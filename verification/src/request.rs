//! The mutable subset of an inbound request that the rewrite rule reads and
//! writes: the method and the hierarchical path, carried as a sequence of
//! non-empty segments, plus the query string and fragment, which the rule
//! must pass through untouched.

use vstd::prelude::*;
use vstd::string::StringExecFns;

use crate::method::Method;

verus! {

/// A path segment is well formed when it is non-empty and holds no `/`:
/// the components that splitting a normalized path on `/` yields.
pub open spec fn wf_segment(segment: Seq<char>) -> bool {
    &&& segment.len() > 0
    &&& !segment.contains('/')
}

/// The request state visible to the pre-routing hook. Routing dispatches on
/// `method` and `segments`; `query` and `fragment` ride along and are never
/// part of path-segment matching.
pub struct RequestDescriptor {
    pub method: Method,
    pub segments: Vec<String>,
    pub query: Option<String>,
    pub fragment: Option<String>,
}

impl RequestDescriptor {
    /// Every segment is non-empty and free of separators.
    pub open spec fn wf(self) -> bool {
        forall|i: int|
            0 <= i < self.segments.deep_view().len() ==> wf_segment(
                #[trigger] self.segments.deep_view()[i],
            )
    }
}

/// The path string that a segment sequence denotes: a `/` before each
/// segment, so the empty sequence denotes the empty string and the root
/// path is rendered separately.
pub open spec fn spec_render(segments: Seq<Seq<char>>) -> Seq<char>
    decreases segments.len(),
{
    if segments.len() == 0 {
        Seq::empty()
    } else {
        spec_render(segments.drop_last()) + "/"@ + segments.last()
    }
}

/// Reconstructs the path string from its segments, with the empty sequence
/// rendered as the root path `/`.
pub fn render_path(segments: &Vec<String>) -> (r: String)
    ensures
        segments.deep_view().len() == 0 ==> r@ == "/"@,
        segments.deep_view().len() > 0 ==> r@ == spec_render(segments.deep_view()),
{
    if segments.len() == 0 {
        return String::from_str("/");
    }
    let mut out = String::new();
    let mut i: usize = 0;
    while i < segments.len()
        invariant
            i <= segments@.len(),
            out@ == spec_render(segments.deep_view().subrange(0, i as int)),
        decreases segments@.len() - i,
    {
        out.append("/");
        out.append(segments[i].as_str());
        proof {
            let dv = segments.deep_view();
            assert(dv.subrange(0, i + 1).drop_last() =~= dv.subrange(0, i as int));
            assert(dv.subrange(0, i + 1).last() == dv[i as int]);
        }
        i += 1;
    }
    proof {
        assert(segments.deep_view().subrange(0, segments@.len() as int) =~= segments.deep_view());
    }
    out
}

} // verus!
