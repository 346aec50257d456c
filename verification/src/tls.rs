//! The operations on the authentication method itself: configuring the
//! mount and logging in.
//!
//! Each function here builds the fully resolved descriptor for one
//! call.  Whatever issues it hands the raw response to the matching
//! function in [`crate::executor`]:
//! [`crate::executor::empty_response`] after [`configure`], and
//! [`crate::executor::auth_response`] after [`login`].

use vstd::prelude::*;
use crate::body::FieldView;
use crate::endpoint::{EndpointDescriptor, Method, ResponseKind};
use crate::requests::{
    ConfigureTLSCertificateMethodRequest,
    ConfigureTLSCertificateMethodRequestBuilder,
    LoginWithTLSCertificateRequest,
};

pub mod certs;
pub mod crls;

verus! {

/// Configures the authentication method under `mount`.
///
/// The mount is taken from the argument alone: a mount set on the
/// builder is overwritten, so the path always reflects this call's
/// arguments, never stale builder state.
pub fn configure(mount: &str, opts: Option<&ConfigureTLSCertificateMethodRequestBuilder>) -> (r:
    EndpointDescriptor)
    ensures
        r.path@ == "/auth/"@ + mount@ + "/config"@,
        r.method == Method::Post,
        r.response_kind == ResponseKind::Empty,
        match opts {
            Some(b) => r.body matches Some(bd) && bd@ == b.payload_view(),
            None => r.body matches Some(bd) && bd@
                == ConfigureTLSCertificateMethodRequestBuilder::unset().payload_view(),
        },
{
    let req = match opts {
        Some(b) => ConfigureTLSCertificateMethodRequest {
            mount: mount.to_owned(),
            disable_binding: b.disable_binding,
            enable_identity_alias_metadata: b.enable_identity_alias_metadata,
            ocsp_cache_size: b.ocsp_cache_size,
        },
        None => ConfigureTLSCertificateMethodRequest {
            mount: mount.to_owned(),
            disable_binding: None,
            enable_identity_alias_metadata: None,
            ocsp_cache_size: None,
        },
    };
    req.endpoint()
}

/// Logs in under `mount` with the certificate role `name`.
///
/// The role name is payload, not identity: it travels in the body, and
/// the path holds the mount alone.
pub fn login(mount: &str, name: &str) -> (r: EndpointDescriptor)
    ensures
        r.path@ == "/auth/"@ + mount@ + "/login"@,
        r.method == Method::Post,
        r.response_kind == ResponseKind::Value,
        r.body matches Some(bd) && bd@ == Map::empty().insert("name"@, FieldView::Text(name@)),
{
    let req = LoginWithTLSCertificateRequest { mount: mount.to_owned(), name: name.to_owned() };
    req.endpoint()
}

} // verus!
