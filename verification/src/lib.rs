//! A request-rewriting rule for HTTP servers: a `POST` whose path ends in a
//! final `delete` segment is dispatched as a `DELETE` to the path with that
//! trailing segment removed. Useful for plain HTML forms, which can only
//! submit `GET` and `POST`, when the route is more correctly a `DELETE`.
//!
//! The rule itself is a pure, stateless function over a method and a path
//! (an ordered sequence of non-empty segments); host frameworks attach it as
//! a pre-routing hook that replaces the in-flight request's method and path.

pub mod method;
pub mod request;
pub mod rewrite;
