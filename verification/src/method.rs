//! The closed set of standard HTTP verbs that a request descriptor may carry.

use vstd::prelude::*;

verus! {

/// An HTTP method. The rewrite rule only ever distinguishes `Post` from the
/// rest, and only ever produces `Delete`, but a request descriptor may carry
/// any verb of the standard set.
#[derive(Clone, Copy, Debug, PartialEq, Eq, Structural)]
pub enum Method {
    Get,
    Put,
    Post,
    Delete,
    Options,
    Head,
    Trace,
    Connect,
    Patch,
}

} // verus!
