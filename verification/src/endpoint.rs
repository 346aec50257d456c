//! Endpoint descriptors: one value per API call, carrying the resolved
//! path, the HTTP method, the body (when one is sent) and the shape the
//! response is expected to take.

use vstd::prelude::*;
use vstd::string::StringExecFns;
use crate::body::Body;

verus! {

/// The HTTP method an endpoint uses.
#[derive(Clone, Copy, Debug, PartialEq, Eq, Structural)]
pub enum Method {
    Get,
    Post,
    Delete,
}

/// What the executor expects back from an endpoint.
#[derive(Clone, Copy, Debug, PartialEq, Eq, Structural)]
pub enum ResponseKind {
    /// Any successful status, no decoded value.
    Empty,
    /// A value may legitimately be absent: an empty successful body or a
    /// "not found" status stands for absence, not for an error.
    OptionalValue,
    /// A successful body must decode to the typed value.
    Value,
}

/// One API call, fully resolved: where, how, with what, expecting what.
pub struct EndpointDescriptor {
    /// The request path, with every identity parameter substituted.
    pub path: String,
    pub method: Method,
    /// The serialized fields, for methods that send a body.
    pub body: Option<Body>,
    pub response_kind: ResponseKind,
}

/// Joins a prefix and one path segment: `{prefix}{a}`.
pub fn path1(prefix: &str, a: &str) -> (r: String)
    ensures
        r@ == prefix@ + a@,
{
    let mut r: String = prefix.to_owned();
    r.append(a);
    r
}

/// Substitutes one identity segment and a literal tail:
/// `{prefix}{a}{tail}`.
pub fn path2(prefix: &str, a: &str, tail: &str) -> (r: String)
    ensures
        r@ == prefix@ + a@ + tail@,
{
    let mut r: String = prefix.to_owned();
    r.append(a);
    r.append(tail);
    r
}

/// Substitutes two identity segments around a literal middle:
/// `{prefix}{a}{mid}{b}`.
pub fn path3(prefix: &str, a: &str, mid: &str, b: &str) -> (r: String)
    ensures
        r@ == prefix@ + a@ + mid@ + b@,
{
    let mut r: String = prefix.to_owned();
    r.append(a);
    r.append(mid);
    r.append(b);
    r
}

} // verus!
