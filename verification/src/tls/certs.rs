//! The operations on certificate roles.
//!
//! Each function builds the fully resolved descriptor for one call.
//! Whatever issues it hands the raw response to the matching function
//! in [`crate::executor`]: [`crate::executor::empty_response`] after
//! [`create`] and [`delete`], [`crate::executor::keys_response`] after
//! [`list`], and [`crate::executor::role_response`] after [`read`].

use vstd::prelude::*;
use crate::endpoint::{EndpointDescriptor, Method, ResponseKind};
use crate::requests::{
    CreateCACertificateRoleRequestBuilder,
    DeleteCertificateRoleRequest,
    ListCertificateRolesRequest,
    ReadCertificateRoleRequest,
};

verus! {

/// Creates or updates the certificate role `role` under `mount`.
///
/// The mount and role are taken from the arguments alone: identity
/// fields set on the builder are overwritten, so the path always
/// reflects this call's arguments, never stale builder state.
pub fn create(mount: &str, role: &str, opts: Option<&CreateCACertificateRoleRequestBuilder>) -> (r:
    EndpointDescriptor)
    ensures
        r.path@ == "/auth/"@ + mount@ + "/certs/"@ + role@,
        r.method == Method::Post,
        r.response_kind == ResponseKind::Empty,
        match opts {
            Some(b) => r.body matches Some(bd) && bd@ == b.payload_view(),
            None => r.body matches Some(bd) && bd@
                == CreateCACertificateRoleRequestBuilder::unset().payload_view(),
        },
{
    match opts {
        Some(b) => b.payload(mount.to_owned(), role.to_owned()).endpoint(),
        None => {
            let b = CreateCACertificateRoleRequestBuilder::new();
            b.payload(mount.to_owned(), role.to_owned()).endpoint()
        },
    }
}

/// Lists the certificate roles configured under `mount`.
pub fn list(mount: &str) -> (r: EndpointDescriptor)
    ensures
        r.path@ == "/auth/"@ + mount@ + "/certs"@,
        r.method == Method::Get,
        r.body is None,
        r.response_kind == ResponseKind::OptionalValue,
{
    let req = ListCertificateRolesRequest { mount: mount.to_owned() };
    req.endpoint()
}

/// Reads the certificate role `role` under `mount`.
pub fn read(mount: &str, role: &str) -> (r: EndpointDescriptor)
    ensures
        r.path@ == "/auth/"@ + mount@ + "/certs/"@ + role@,
        r.method == Method::Get,
        r.body is None,
        r.response_kind == ResponseKind::OptionalValue,
{
    let req = ReadCertificateRoleRequest { mount: mount.to_owned(), role: role.to_owned() };
    req.endpoint()
}

/// Deletes the certificate role `role` under `mount`.
pub fn delete(mount: &str, role: &str) -> (r: EndpointDescriptor)
    ensures
        r.path@ == "/auth/"@ + mount@ + "/certs/"@ + role@,
        r.method == Method::Delete,
        r.body is None,
        r.response_kind == ResponseKind::Empty,
{
    let req = DeleteCertificateRoleRequest { mount: mount.to_owned(), role: role.to_owned() };
    req.endpoint()
}

} // verus!
