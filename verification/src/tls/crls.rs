//! The operations on certificate revocation lists.
//!
//! Each function builds the fully resolved descriptor for one call.
//! Whatever issues it hands the raw response to the matching function
//! in [`crate::executor`]: [`crate::executor::empty_response`] after
//! [`create`] and [`delete`], [`crate::executor::keys_response`] after
//! [`list`], and [`crate::executor::crl_response`] after [`read`].

use vstd::prelude::*;
use crate::body::FieldView;
use crate::endpoint::{EndpointDescriptor, Method, ResponseKind};
use crate::requests::{CreateCRLRequest, DeleteCRLRequest, ListCRLsRequest, ReadCRLRequest};

verus! {

/// Creates or updates the revocation list `name` under `mount`.
///
/// The list's content travels in the `crl` body field; this function
/// sends it empty, as a caller that wants to submit content builds a
/// [`CreateCRLRequest`] itself.
pub fn create(mount: &str, name: &str) -> (r: EndpointDescriptor)
    ensures
        r.path@ == "/auth/"@ + mount@ + "/crls/"@ + name@,
        r.method == Method::Post,
        r.response_kind == ResponseKind::Empty,
        r.body matches Some(bd) && bd@ == Map::empty().insert(
            "crl"@,
            FieldView::Text(Seq::empty()),
        ),
{
    let req = CreateCRLRequest { mount: mount.to_owned(), name: name.to_owned(), crl: String::new() };
    req.endpoint()
}

/// Lists the revocation lists configured under `mount`.
pub fn list(mount: &str) -> (r: EndpointDescriptor)
    ensures
        r.path@ == "/auth/"@ + mount@ + "/crls"@,
        r.method == Method::Get,
        r.body is None,
        r.response_kind == ResponseKind::OptionalValue,
{
    let req = ListCRLsRequest { mount: mount.to_owned() };
    req.endpoint()
}

/// Reads the serial numbers of the revocation list `name` under
/// `mount`.
pub fn read(mount: &str, name: &str) -> (r: EndpointDescriptor)
    ensures
        r.path@ == "/auth/"@ + mount@ + "/crls/"@ + name@,
        r.method == Method::Get,
        r.body is None,
        r.response_kind == ResponseKind::OptionalValue,
{
    let req = ReadCRLRequest { mount: mount.to_owned(), name: name.to_owned() };
    req.endpoint()
}

/// Deletes the revocation list `name` under `mount`.
pub fn delete(mount: &str, name: &str) -> (r: EndpointDescriptor)
    ensures
        r.path@ == "/auth/"@ + mount@ + "/crls/"@ + name@,
        r.method == Method::Delete,
        r.body is None,
        r.response_kind == ResponseKind::Empty,
{
    let req = DeleteCRLRequest { mount: mount.to_owned(), name: name.to_owned() };
    req.endpoint()
}

} // verus!
