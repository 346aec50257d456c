//! The request types, one per API operation, and the builders for the
//! two operations that take optional parameters.
//!
//! Every identity field (mount, role, name) is substituted into the
//! request path and never serialized into the body; every optional
//! payload field appears in the body exactly when it was set.

use vstd::prelude::*;
use crate::body::{
    opt_flag,
    opt_list,
    opt_text,
    opt_uint,
    set_opt,
    set_opt_flag,
    set_opt_list,
    set_opt_text,
    set_opt_uint,
    set_text,
    Body,
    FieldView,
};
use crate::endpoint::{path1, path2, path3, EndpointDescriptor, Method, ResponseKind};
use crate::error::ClientError;

verus! {

/// Copies an optional text field.
fn clone_opt_text(o: &Option<String>) -> (r: Option<String>)
    ensures
        opt_text(r) == opt_text(*o),
{
    match o {
        Some(s) => Some(s.clone()),
        None => None,
    }
}

/// Copies an optional list-of-strings field.
fn clone_opt_strings(o: &Option<Vec<String>>) -> (r: Option<Vec<String>>)
    ensures
        opt_list(r) == opt_list(*o),
{
    match o {
        Some(v) => Some(crate::body::clone_strings(v)),
        None => None,
    }
}

/// The text a defaulting required field takes: its value when set, the
/// empty string otherwise.
pub open spec fn text_or_empty(o: Option<String>) -> Seq<char> {
    match o {
        Some(s) => s@,
        None => Seq::empty(),
    }
}

/// Materializes a defaulting required field.
fn take_or_empty(o: &Option<String>) -> (r: String)
    ensures
        r@ == text_or_empty(*o),
{
    match o {
        Some(s) => s.clone(),
        None => String::new(),
    }
}

/// Reads the configuration of the named certificate role.
///
/// GET `/auth/{mount}/certs/{role}`.
pub struct ReadCertificateRoleRequest {
    pub mount: String,
    pub role: String,
}

impl ReadCertificateRoleRequest {
    /// The fully resolved descriptor for this call.
    pub fn endpoint(&self) -> (r: EndpointDescriptor)
        ensures
            r.path@ == "/auth/"@ + self.mount@ + "/certs/"@ + self.role@,
            r.method == Method::Get,
            r.body is None,
            r.response_kind == ResponseKind::OptionalValue,
    {
        EndpointDescriptor {
            path: path3("/auth/", self.mount.as_str(), "/certs/", self.role.as_str()),
            method: Method::Get,
            body: None,
            response_kind: ResponseKind::OptionalValue,
        }
    }
}

/// Lists the configured certificate roles.
///
/// GET `/auth/{mount}/certs`.
pub struct ListCertificateRolesRequest {
    pub mount: String,
}

impl ListCertificateRolesRequest {
    /// The fully resolved descriptor for this call.
    pub fn endpoint(&self) -> (r: EndpointDescriptor)
        ensures
            r.path@ == "/auth/"@ + self.mount@ + "/certs"@,
            r.method == Method::Get,
            r.body is None,
            r.response_kind == ResponseKind::OptionalValue,
    {
        EndpointDescriptor {
            path: path2("/auth/", self.mount.as_str(), "/certs"),
            method: Method::Get,
            body: None,
            response_kind: ResponseKind::OptionalValue,
        }
    }
}

/// Deletes the named certificate role.
///
/// DELETE `/auth/{mount}/certs/{role}`.
pub struct DeleteCertificateRoleRequest {
    pub mount: String,
    pub role: String,
}

impl DeleteCertificateRoleRequest {
    /// The fully resolved descriptor for this call.
    pub fn endpoint(&self) -> (r: EndpointDescriptor)
        ensures
            r.path@ == "/auth/"@ + self.mount@ + "/certs/"@ + self.role@,
            r.method == Method::Delete,
            r.body is None,
            r.response_kind == ResponseKind::Empty,
    {
        EndpointDescriptor {
            path: path3("/auth/", self.mount.as_str(), "/certs/", self.role.as_str()),
            method: Method::Delete,
            body: None,
            response_kind: ResponseKind::Empty,
        }
    }
}

/// Lists the configured certificate revocation lists.
///
/// GET `/auth/{mount}/crls`.
pub struct ListCRLsRequest {
    pub mount: String,
}

impl ListCRLsRequest {
    /// The fully resolved descriptor for this call.
    pub fn endpoint(&self) -> (r: EndpointDescriptor)
        ensures
            r.path@ == "/auth/"@ + self.mount@ + "/crls"@,
            r.method == Method::Get,
            r.body is None,
            r.response_kind == ResponseKind::OptionalValue,
    {
        EndpointDescriptor {
            path: path2("/auth/", self.mount.as_str(), "/crls"),
            method: Method::Get,
            body: None,
            response_kind: ResponseKind::OptionalValue,
        }
    }
}

/// Sets the named certificate revocation list.
///
/// POST `/auth/{mount}/crls/{name}`.
pub struct CreateCRLRequest {
    pub mount: String,
    pub name: String,
    pub crl: String,
}

impl CreateCRLRequest {
    /// The fully resolved descriptor for this call.
    pub fn endpoint(&self) -> (r: EndpointDescriptor)
        ensures
            r.path@ == "/auth/"@ + self.mount@ + "/crls/"@ + self.name@,
            r.method == Method::Post,
            r.body matches Some(b) && b@ == Map::empty().insert("crl"@, FieldView::Text(self.crl@)),
            r.response_kind == ResponseKind::Empty,
    {
        let mut b = Body::new();
        set_text(&mut b, "crl", &self.crl);
        EndpointDescriptor {
            path: path3("/auth/", self.mount.as_str(), "/crls/", self.name.as_str()),
            method: Method::Post,
            body: Some(b),
            response_kind: ResponseKind::Empty,
        }
    }
}

/// Reads the serial numbers of the named revocation list.
///
/// GET `/auth/{mount}/crls/{name}`.
pub struct ReadCRLRequest {
    pub mount: String,
    pub name: String,
}

impl ReadCRLRequest {
    /// The fully resolved descriptor for this call.
    pub fn endpoint(&self) -> (r: EndpointDescriptor)
        ensures
            r.path@ == "/auth/"@ + self.mount@ + "/crls/"@ + self.name@,
            r.method == Method::Get,
            r.body is None,
            r.response_kind == ResponseKind::OptionalValue,
    {
        EndpointDescriptor {
            path: path3("/auth/", self.mount.as_str(), "/crls/", self.name.as_str()),
            method: Method::Get,
            body: None,
            response_kind: ResponseKind::OptionalValue,
        }
    }
}

/// Deletes the named certificate revocation list.
///
/// DELETE `/auth/{mount}/crls/{name}`.
pub struct DeleteCRLRequest {
    pub mount: String,
    pub name: String,
}

impl DeleteCRLRequest {
    /// The fully resolved descriptor for this call.
    pub fn endpoint(&self) -> (r: EndpointDescriptor)
        ensures
            r.path@ == "/auth/"@ + self.mount@ + "/crls/"@ + self.name@,
            r.method == Method::Delete,
            r.body is None,
            r.response_kind == ResponseKind::Empty,
    {
        EndpointDescriptor {
            path: path3("/auth/", self.mount.as_str(), "/crls/", self.name.as_str()),
            method: Method::Delete,
            body: None,
            response_kind: ResponseKind::Empty,
        }
    }
}

/// Logs in against the named certificate role.
///
/// POST `/auth/{mount}/login`.
pub struct LoginWithTLSCertificateRequest {
    pub mount: String,
    pub name: String,
}

impl LoginWithTLSCertificateRequest {
    /// The fully resolved descriptor for this call.
    pub fn endpoint(&self) -> (r: EndpointDescriptor)
        ensures
            r.path@ == "/auth/"@ + self.mount@ + "/login"@,
            r.method == Method::Post,
            r.body matches Some(b) && b@ == Map::empty().insert("name"@, FieldView::Text(self.name@)),
            r.response_kind == ResponseKind::Value,
    {
        let mut b = Body::new();
        set_text(&mut b, "name", &self.name);
        EndpointDescriptor {
            path: path2("/auth/", self.mount.as_str(), "/login"),
            method: Method::Post,
            body: Some(b),
            response_kind: ResponseKind::Value,
        }
    }
}

/// Configures the authentication method on its mount.
///
/// POST `/auth/{mount}/config`.
pub struct ConfigureTLSCertificateMethodRequest {
    pub mount: String,
    pub disable_binding: Option<bool>,
    pub enable_identity_alias_metadata: Option<bool>,
    pub ocsp_cache_size: Option<u32>,
}

impl ConfigureTLSCertificateMethodRequest {
    /// The body this request serializes: exactly the fields that were
    /// set, keyed by their wire names.
    pub open spec fn body_view(&self) -> Map<Seq<char>, FieldView> {
        set_opt(
            set_opt(
                set_opt(Map::empty(), "disable_binding"@, opt_flag(self.disable_binding)),
                "enable_identity_alias_metadata"@,
                opt_flag(self.enable_identity_alias_metadata),
            ),
            "ocsp_cache_size"@,
            opt_uint(self.ocsp_cache_size),
        )
    }

    /// The fully resolved descriptor for this call.
    pub fn endpoint(&self) -> (r: EndpointDescriptor)
        ensures
            r.path@ == "/auth/"@ + self.mount@ + "/config"@,
            r.method == Method::Post,
            r.body matches Some(b) && b@ == self.body_view(),
            r.response_kind == ResponseKind::Empty,
    {
        let mut b = Body::new();
        set_opt_flag(&mut b, "disable_binding", &self.disable_binding);
        set_opt_flag(&mut b, "enable_identity_alias_metadata", &self.enable_identity_alias_metadata);
        set_opt_uint(&mut b, "ocsp_cache_size", &self.ocsp_cache_size);
        EndpointDescriptor {
            path: path2("/auth/", self.mount.as_str(), "/config"),
            method: Method::Post,
            body: Some(b),
            response_kind: ResponseKind::Empty,
        }
    }
}

/// Collects the optional parameters of a configure call.  The mount is
/// an identity field: [`crate::tls::configure`] overwrites it with its
/// own argument, whatever was set here.
pub struct ConfigureTLSCertificateMethodRequestBuilder {
    pub mount: Option<String>,
    pub disable_binding: Option<bool>,
    pub enable_identity_alias_metadata: Option<bool>,
    pub ocsp_cache_size: Option<u32>,
}

impl ConfigureTLSCertificateMethodRequestBuilder {
    /// A builder with every field unset.
    pub fn new() -> (r: Self)
        ensures
            r == Self::unset(),
    {
        ConfigureTLSCertificateMethodRequestBuilder {
            mount: None,
            disable_binding: None,
            enable_identity_alias_metadata: None,
            ocsp_cache_size: None,
        }
    }

    /// The builder with every field unset.
    pub open spec fn unset() -> Self {
        ConfigureTLSCertificateMethodRequestBuilder {
            mount: None,
            disable_binding: None,
            enable_identity_alias_metadata: None,
            ocsp_cache_size: None,
        }
    }

    /// Sets the mount this method is enabled under.
    pub fn mount(&mut self, v: &str)
        ensures
            final(self).mount matches Some(m) && m@ == v@,
            *final(self) == (ConfigureTLSCertificateMethodRequestBuilder {
                mount: final(self).mount,
                ..*old(self)
            }),
    {
        self.mount = Some(v.to_owned());
    }

    /// Sets whether certificate/token binding is disabled.
    pub fn disable_binding(&mut self, v: bool)
        ensures
            *final(self) == (ConfigureTLSCertificateMethodRequestBuilder {
                disable_binding: Some(v),
                ..*old(self)
            }),
    {
        self.disable_binding = Some(v);
    }

    /// Sets whether identity alias metadata is enabled.
    pub fn enable_identity_alias_metadata(&mut self, v: bool)
        ensures
            *final(self) == (ConfigureTLSCertificateMethodRequestBuilder {
                enable_identity_alias_metadata: Some(v),
                ..*old(self)
            }),
    {
        self.enable_identity_alias_metadata = Some(v);
    }

    /// Sets the OCSP cache size.
    pub fn ocsp_cache_size(&mut self, v: u32)
        ensures
            *final(self) == (ConfigureTLSCertificateMethodRequestBuilder {
                ocsp_cache_size: Some(v),
                ..*old(self)
            }),
    {
        self.ocsp_cache_size = Some(v);
    }

    /// The body the built request will serialize: exactly the optional
    /// fields that were set.  The mount never appears in it.
    pub open spec fn payload_view(&self) -> Map<Seq<char>, FieldView> {
        set_opt(
            set_opt(
                set_opt(Map::empty(), "disable_binding"@, opt_flag(self.disable_binding)),
                "enable_identity_alias_metadata"@,
                opt_flag(self.enable_identity_alias_metadata),
            ),
            "ocsp_cache_size"@,
            opt_uint(self.ocsp_cache_size),
        )
    }

    /// Builds the request.  Fails exactly when the mount — the one
    /// required identity field — was never set.
    pub fn build(&self) -> (r: Result<ConfigureTLSCertificateMethodRequest, ClientError>)
        ensures
            match self.mount {
                Some(m) => r matches Ok(req) && req.mount@ == m@ && req.disable_binding
                    == self.disable_binding && req.enable_identity_alias_metadata
                    == self.enable_identity_alias_metadata && req.ocsp_cache_size
                    == self.ocsp_cache_size,
                None => r matches Err(e) && e matches ClientError::Build { field } && field@
                    == "mount"@,
            },
    {
        match &self.mount {
            Some(m) => Ok(
                ConfigureTLSCertificateMethodRequest {
                    mount: m.clone(),
                    disable_binding: self.disable_binding,
                    enable_identity_alias_metadata: self.enable_identity_alias_metadata,
                    ocsp_cache_size: self.ocsp_cache_size,
                },
            ),
            None => Err(ClientError::Build { field: "mount".to_owned() }),
        }
    }
}

/// Sets a CA certificate and its login constraints under a role name.
///
/// POST `/auth/{mount}/certs/{role}`.  The certificate is the one
/// required payload field and defaults to the empty string; every
/// other payload field is serialized only when set.
pub struct CreateCACertificateRoleRequest {
    pub mount: String,
    pub role: String,
    pub certificate: String,
    pub allowed_names: Option<String>,
    pub allowed_common_names: Option<Vec<String>>,
    pub allowed_dns_sans: Option<Vec<String>>,
    pub allowed_email_sans: Option<Vec<String>>,
    pub allowed_uri_sans: Option<Vec<String>>,
    pub allowed_organizational_units: Option<Vec<String>>,
    pub required_extensions: Option<Vec<String>>,
    pub allowed_metadata_extensions: Option<Vec<String>>,
    pub ocsp_enabled: Option<bool>,
    pub ocsp_ca_certificates: Option<String>,
    pub ocsp_servers_override: Option<Vec<String>>,
    pub ocsp_fail_open: Option<bool>,
    pub ocsp_query_all_servers: Option<bool>,
    pub display_name: Option<String>,
    pub token_ttl: Option<String>,
    pub token_max_ttl: Option<String>,
    pub token_policies: Option<Vec<String>>,
    pub policies: Option<Vec<String>>,
    pub token_bound_cidrs: Option<Vec<String>>,
    pub token_explicit_max_ttl: Option<String>,
    pub token_no_default_policy: Option<bool>,
    pub token_num_uses: Option<String>,
    pub token_period: Option<String>,
    pub token_type: Option<String>,
}

impl CreateCACertificateRoleRequest {
    /// The body this request serializes: the certificate, then
    /// exactly the optional fields that were set, keyed by their
    /// wire names.
    pub open spec fn body_view(&self) -> Map<Seq<char>, FieldView> {
        set_opt(
        set_opt(
        set_opt(
        set_opt(
        set_opt(
        set_opt(
        set_opt(
        set_opt(
        set_opt(
        set_opt(
        set_opt(
        set_opt(
        set_opt(
        set_opt(
        set_opt(
        set_opt(
        set_opt(
        set_opt(
        set_opt(
        set_opt(
        set_opt(
        set_opt(
        set_opt(
        set_opt(
        Map::empty().insert("certificate"@, FieldView::Text(self.certificate@)),
        "allowed_names"@,
        opt_text(self.allowed_names),
        ),
        "allowed_common_names"@,
        opt_list(self.allowed_common_names),
        ),
        "allowed_dns_sans"@,
        opt_list(self.allowed_dns_sans),
        ),
        "allowed_email_sans"@,
        opt_list(self.allowed_email_sans),
        ),
        "allowed_uri_sans"@,
        opt_list(self.allowed_uri_sans),
        ),
        "allowed_organizational_units"@,
        opt_list(self.allowed_organizational_units),
        ),
        "required_extensions"@,
        opt_list(self.required_extensions),
        ),
        "allowed_metadata_extensions"@,
        opt_list(self.allowed_metadata_extensions),
        ),
        "ocsp_enabled"@,
        opt_flag(self.ocsp_enabled),
        ),
        "ocsp_ca_certificates"@,
        opt_text(self.ocsp_ca_certificates),
        ),
        "ocsp_servers_override"@,
        opt_list(self.ocsp_servers_override),
        ),
        "ocsp_fail_open"@,
        opt_flag(self.ocsp_fail_open),
        ),
        "ocsp_query_all_servers"@,
        opt_flag(self.ocsp_query_all_servers),
        ),
        "display_name"@,
        opt_text(self.display_name),
        ),
        "token_ttl"@,
        opt_text(self.token_ttl),
        ),
        "token_max_ttl"@,
        opt_text(self.token_max_ttl),
        ),
        "token_policies"@,
        opt_list(self.token_policies),
        ),
        "policies"@,
        opt_list(self.policies),
        ),
        "token_bound_cidrs"@,
        opt_list(self.token_bound_cidrs),
        ),
        "token_explicit_max_ttl"@,
        opt_text(self.token_explicit_max_ttl),
        ),
        "token_no_default_policy"@,
        opt_flag(self.token_no_default_policy),
        ),
        "token_num_uses"@,
        opt_text(self.token_num_uses),
        ),
        "token_period"@,
        opt_text(self.token_period),
        ),
        "token_type"@,
        opt_text(self.token_type),
        )
    }

    /// The fully resolved descriptor for this call.
    pub fn endpoint(&self) -> (r: EndpointDescriptor)
        ensures
            r.path@ == "/auth/"@ + self.mount@ + "/certs/"@ + self.role@,
            r.method == Method::Post,
            r.body matches Some(b) && b@ == self.body_view(),
            r.response_kind == ResponseKind::Empty,
    {
        let mut b = Body::new();
        set_text(&mut b, "certificate", &self.certificate);
        set_opt_text(&mut b, "allowed_names", &self.allowed_names);
        set_opt_list(&mut b, "allowed_common_names", &self.allowed_common_names);
        set_opt_list(&mut b, "allowed_dns_sans", &self.allowed_dns_sans);
        set_opt_list(&mut b, "allowed_email_sans", &self.allowed_email_sans);
        set_opt_list(&mut b, "allowed_uri_sans", &self.allowed_uri_sans);
        set_opt_list(&mut b, "allowed_organizational_units", &self.allowed_organizational_units);
        set_opt_list(&mut b, "required_extensions", &self.required_extensions);
        set_opt_list(&mut b, "allowed_metadata_extensions", &self.allowed_metadata_extensions);
        set_opt_flag(&mut b, "ocsp_enabled", &self.ocsp_enabled);
        set_opt_text(&mut b, "ocsp_ca_certificates", &self.ocsp_ca_certificates);
        set_opt_list(&mut b, "ocsp_servers_override", &self.ocsp_servers_override);
        set_opt_flag(&mut b, "ocsp_fail_open", &self.ocsp_fail_open);
        set_opt_flag(&mut b, "ocsp_query_all_servers", &self.ocsp_query_all_servers);
        set_opt_text(&mut b, "display_name", &self.display_name);
        set_opt_text(&mut b, "token_ttl", &self.token_ttl);
        set_opt_text(&mut b, "token_max_ttl", &self.token_max_ttl);
        set_opt_list(&mut b, "token_policies", &self.token_policies);
        set_opt_list(&mut b, "policies", &self.policies);
        set_opt_list(&mut b, "token_bound_cidrs", &self.token_bound_cidrs);
        set_opt_text(&mut b, "token_explicit_max_ttl", &self.token_explicit_max_ttl);
        set_opt_flag(&mut b, "token_no_default_policy", &self.token_no_default_policy);
        set_opt_text(&mut b, "token_num_uses", &self.token_num_uses);
        set_opt_text(&mut b, "token_period", &self.token_period);
        set_opt_text(&mut b, "token_type", &self.token_type);
        EndpointDescriptor {
            path: path3("/auth/", self.mount.as_str(), "/certs/", self.role.as_str()),
            method: Method::Post,
            body: Some(b),
            response_kind: ResponseKind::Empty,
        }
    }
}

/// Collects the optional parameters of a role-creation call.  The
/// mount and role are identity fields: [`crate::tls::certs::create`]
/// overwrites them with its own arguments, whatever was set here.
pub struct CreateCACertificateRoleRequestBuilder {
    pub mount: Option<String>,
    pub role: Option<String>,
    pub certificate: Option<String>,
    pub allowed_names: Option<String>,
    pub allowed_common_names: Option<Vec<String>>,
    pub allowed_dns_sans: Option<Vec<String>>,
    pub allowed_email_sans: Option<Vec<String>>,
    pub allowed_uri_sans: Option<Vec<String>>,
    pub allowed_organizational_units: Option<Vec<String>>,
    pub required_extensions: Option<Vec<String>>,
    pub allowed_metadata_extensions: Option<Vec<String>>,
    pub ocsp_enabled: Option<bool>,
    pub ocsp_ca_certificates: Option<String>,
    pub ocsp_servers_override: Option<Vec<String>>,
    pub ocsp_fail_open: Option<bool>,
    pub ocsp_query_all_servers: Option<bool>,
    pub display_name: Option<String>,
    pub token_ttl: Option<String>,
    pub token_max_ttl: Option<String>,
    pub token_policies: Option<Vec<String>>,
    pub policies: Option<Vec<String>>,
    pub token_bound_cidrs: Option<Vec<String>>,
    pub token_explicit_max_ttl: Option<String>,
    pub token_no_default_policy: Option<bool>,
    pub token_num_uses: Option<String>,
    pub token_period: Option<String>,
    pub token_type: Option<String>,
}

impl CreateCACertificateRoleRequestBuilder {
    /// A builder with every field unset.
    pub fn new() -> (r: Self)
        ensures
            r == Self::unset(),
    {
        CreateCACertificateRoleRequestBuilder {
            mount: None,
            role: None,
            certificate: None,
            allowed_names: None,
            allowed_common_names: None,
            allowed_dns_sans: None,
            allowed_email_sans: None,
            allowed_uri_sans: None,
            allowed_organizational_units: None,
            required_extensions: None,
            allowed_metadata_extensions: None,
            ocsp_enabled: None,
            ocsp_ca_certificates: None,
            ocsp_servers_override: None,
            ocsp_fail_open: None,
            ocsp_query_all_servers: None,
            display_name: None,
            token_ttl: None,
            token_max_ttl: None,
            token_policies: None,
            policies: None,
            token_bound_cidrs: None,
            token_explicit_max_ttl: None,
            token_no_default_policy: None,
            token_num_uses: None,
            token_period: None,
            token_type: None,
        }
    }

    /// The builder with every field unset.
    pub open spec fn unset() -> Self {
        CreateCACertificateRoleRequestBuilder {
            mount: None,
            role: None,
            certificate: None,
            allowed_names: None,
            allowed_common_names: None,
            allowed_dns_sans: None,
            allowed_email_sans: None,
            allowed_uri_sans: None,
            allowed_organizational_units: None,
            required_extensions: None,
            allowed_metadata_extensions: None,
            ocsp_enabled: None,
            ocsp_ca_certificates: None,
            ocsp_servers_override: None,
            ocsp_fail_open: None,
            ocsp_query_all_servers: None,
            display_name: None,
            token_ttl: None,
            token_max_ttl: None,
            token_policies: None,
            policies: None,
            token_bound_cidrs: None,
            token_explicit_max_ttl: None,
            token_no_default_policy: None,
            token_num_uses: None,
            token_period: None,
            token_type: None,
        }
    }

    /// Sets the mount this method is enabled under.
    pub fn mount(&mut self, v: &str)
        ensures
            final(self).mount matches Some(s) && s@ == v@,
            *final(self) == (CreateCACertificateRoleRequestBuilder {
                mount: final(self).mount,
                ..*old(self)
            }),
    {
        self.mount = Some(v.to_owned());
    }

    /// Sets the role name.
    pub fn role(&mut self, v: &str)
        ensures
            final(self).role matches Some(s) && s@ == v@,
            *final(self) == (CreateCACertificateRoleRequestBuilder {
                role: final(self).role,
                ..*old(self)
            }),
    {
        self.role = Some(v.to_owned());
    }

    /// Sets the trusted CA certificate, as PEM text.
    pub fn certificate(&mut self, v: &str)
        ensures
            final(self).certificate matches Some(s) && s@ == v@,
            *final(self) == (CreateCACertificateRoleRequestBuilder {
                certificate: final(self).certificate,
                ..*old(self)
            }),
    {
        self.certificate = Some(v.to_owned());
    }

    /// Sets the names the certificate must match.
    pub fn allowed_names(&mut self, v: &str)
        ensures
            final(self).allowed_names matches Some(s) && s@ == v@,
            *final(self) == (CreateCACertificateRoleRequestBuilder {
                allowed_names: final(self).allowed_names,
                ..*old(self)
            }),
    {
        self.allowed_names = Some(v.to_owned());
    }

    /// Sets the allowed common names.
    pub fn allowed_common_names(&mut self, v: Vec<String>)
        ensures
            *final(self) == (CreateCACertificateRoleRequestBuilder {
                allowed_common_names: Some(v),
                ..*old(self)
            }),
    {
        self.allowed_common_names = Some(v);
    }

    /// Sets the allowed DNS subject alternative names.
    pub fn allowed_dns_sans(&mut self, v: Vec<String>)
        ensures
            *final(self) == (CreateCACertificateRoleRequestBuilder {
                allowed_dns_sans: Some(v),
                ..*old(self)
            }),
    {
        self.allowed_dns_sans = Some(v);
    }

    /// Sets the allowed email subject alternative names.
    pub fn allowed_email_sans(&mut self, v: Vec<String>)
        ensures
            *final(self) == (CreateCACertificateRoleRequestBuilder {
                allowed_email_sans: Some(v),
                ..*old(self)
            }),
    {
        self.allowed_email_sans = Some(v);
    }

    /// Sets the allowed URI subject alternative names.
    pub fn allowed_uri_sans(&mut self, v: Vec<String>)
        ensures
            *final(self) == (CreateCACertificateRoleRequestBuilder {
                allowed_uri_sans: Some(v),
                ..*old(self)
            }),
    {
        self.allowed_uri_sans = Some(v);
    }

    /// Sets the allowed organizational units.
    pub fn allowed_organizational_units(&mut self, v: Vec<String>)
        ensures
            *final(self) == (CreateCACertificateRoleRequestBuilder {
                allowed_organizational_units: Some(v),
                ..*old(self)
            }),
    {
        self.allowed_organizational_units = Some(v);
    }

    /// Sets the extensions the certificate must carry.
    pub fn required_extensions(&mut self, v: Vec<String>)
        ensures
            *final(self) == (CreateCACertificateRoleRequestBuilder {
                required_extensions: Some(v),
                ..*old(self)
            }),
    {
        self.required_extensions = Some(v);
    }

    /// Sets the extensions copied into metadata.
    pub fn allowed_metadata_extensions(&mut self, v: Vec<String>)
        ensures
            *final(self) == (CreateCACertificateRoleRequestBuilder {
                allowed_metadata_extensions: Some(v),
                ..*old(self)
            }),
    {
        self.allowed_metadata_extensions = Some(v);
    }

    /// Sets whether OCSP checking is enabled.
    pub fn ocsp_enabled(&mut self, v: bool)
        ensures
            *final(self) == (CreateCACertificateRoleRequestBuilder {
                ocsp_enabled: Some(v),
                ..*old(self)
            }),
    {
        self.ocsp_enabled = Some(v);
    }

    /// Sets the CA certificates trusted for OCSP responses.
    pub fn ocsp_ca_certificates(&mut self, v: &str)
        ensures
            final(self).ocsp_ca_certificates matches Some(s) && s@ == v@,
            *final(self) == (CreateCACertificateRoleRequestBuilder {
                ocsp_ca_certificates: final(self).ocsp_ca_certificates,
                ..*old(self)
            }),
    {
        self.ocsp_ca_certificates = Some(v.to_owned());
    }

    /// Sets the OCSP server addresses to use instead of the certificate's.
    pub fn ocsp_servers_override(&mut self, v: Vec<String>)
        ensures
            *final(self) == (CreateCACertificateRoleRequestBuilder {
                ocsp_servers_override: Some(v),
                ..*old(self)
            }),
    {
        self.ocsp_servers_override = Some(v);
    }

    /// Sets whether an unreachable OCSP server lets the login pass.
    pub fn ocsp_fail_open(&mut self, v: bool)
        ensures
            *final(self) == (CreateCACertificateRoleRequestBuilder {
                ocsp_fail_open: Some(v),
                ..*old(self)
            }),
    {
        self.ocsp_fail_open = Some(v);
    }

    /// Sets whether every OCSP server is queried.
    pub fn ocsp_query_all_servers(&mut self, v: bool)
        ensures
            *final(self) == (CreateCACertificateRoleRequestBuilder {
                ocsp_query_all_servers: Some(v),
                ..*old(self)
            }),
    {
        self.ocsp_query_all_servers = Some(v);
    }

    /// Sets the display name of logins under this role.
    pub fn display_name(&mut self, v: &str)
        ensures
            final(self).display_name matches Some(s) && s@ == v@,
            *final(self) == (CreateCACertificateRoleRequestBuilder {
                display_name: final(self).display_name,
                ..*old(self)
            }),
    {
        self.display_name = Some(v.to_owned());
    }

    /// Sets the issued token's time to live.
    pub fn token_ttl(&mut self, v: &str)
        ensures
            final(self).token_ttl matches Some(s) && s@ == v@,
            *final(self) == (CreateCACertificateRoleRequestBuilder {
                token_ttl: final(self).token_ttl,
                ..*old(self)
            }),
    {
        self.token_ttl = Some(v.to_owned());
    }

    /// Sets the issued token's maximum time to live.
    pub fn token_max_ttl(&mut self, v: &str)
        ensures
            final(self).token_max_ttl matches Some(s) && s@ == v@,
            *final(self) == (CreateCACertificateRoleRequestBuilder {
                token_max_ttl: final(self).token_max_ttl,
                ..*old(self)
            }),
    {
        self.token_max_ttl = Some(v.to_owned());
    }

    /// Sets the policies attached to the issued token.
    pub fn token_policies(&mut self, v: Vec<String>)
        ensures
            *final(self) == (CreateCACertificateRoleRequestBuilder {
                token_policies: Some(v),
                ..*old(self)
            }),
    {
        self.token_policies = Some(v);
    }

    /// Sets the policies attached to the issued token, by the older name.
    pub fn policies(&mut self, v: Vec<String>)
        ensures
            *final(self) == (CreateCACertificateRoleRequestBuilder {
                policies: Some(v),
                ..*old(self)
            }),
    {
        self.policies = Some(v);
    }

    /// Sets the address blocks a login may come from.
    pub fn token_bound_cidrs(&mut self, v: Vec<String>)
        ensures
            *final(self) == (CreateCACertificateRoleRequestBuilder {
                token_bound_cidrs: Some(v),
                ..*old(self)
            }),
    {
        self.token_bound_cidrs = Some(v);
    }

    /// Sets the issued token's explicit maximum time to live.
    pub fn token_explicit_max_ttl(&mut self, v: &str)
        ensures
            final(self).token_explicit_max_ttl matches Some(s) && s@ == v@,
            *final(self) == (CreateCACertificateRoleRequestBuilder {
                token_explicit_max_ttl: final(self).token_explicit_max_ttl,
                ..*old(self)
            }),
    {
        self.token_explicit_max_ttl = Some(v.to_owned());
    }

    /// Sets whether the default policy is withheld.
    pub fn token_no_default_policy(&mut self, v: bool)
        ensures
            *final(self) == (CreateCACertificateRoleRequestBuilder {
                token_no_default_policy: Some(v),
                ..*old(self)
            }),
    {
        self.token_no_default_policy = Some(v);
    }

    /// Sets how many uses the issued token gets.
    pub fn token_num_uses(&mut self, v: &str)
        ensures
            final(self).token_num_uses matches Some(s) && s@ == v@,
            *final(self) == (CreateCACertificateRoleRequestBuilder {
                token_num_uses: final(self).token_num_uses,
                ..*old(self)
            }),
    {
        self.token_num_uses = Some(v.to_owned());
    }

    /// Sets the issued token's renewal period.
    pub fn token_period(&mut self, v: &str)
        ensures
            final(self).token_period matches Some(s) && s@ == v@,
            *final(self) == (CreateCACertificateRoleRequestBuilder {
                token_period: final(self).token_period,
                ..*old(self)
            }),
    {
        self.token_period = Some(v.to_owned());
    }

    /// Sets the issued token's type.
    pub fn token_type(&mut self, v: &str)
        ensures
            final(self).token_type matches Some(s) && s@ == v@,
            *final(self) == (CreateCACertificateRoleRequestBuilder {
                token_type: final(self).token_type,
                ..*old(self)
            }),
    {
        self.token_type = Some(v.to_owned());
    }

    /// Builds the request.  Fails exactly when an identity field —
    /// the mount or the role — was never set; the certificate
    /// defaults to the empty string.
    pub fn build(&self) -> (r: Result<CreateCACertificateRoleRequest, ClientError>)
        ensures
            match (self.mount, self.role) {
                (Some(m), Some(ro)) => r matches Ok(req) && req.mount@ == m@ && req.role@ == ro@
                    && req.body_view() == self.payload_view(),
                (None, _) => r matches Err(e) && e matches ClientError::Build { field } && field@
                    == "mount"@,
                (Some(_), None) => r matches Err(e) && e matches ClientError::Build { field }
                    && field@ == "role"@,
            },
    {
        let mount = match &self.mount {
            Some(m) => m.clone(),
            None => {
                return Err(ClientError::Build { field: "mount".to_owned() });
            },
        };
        let role = match &self.role {
            Some(ro) => ro.clone(),
            None => {
                return Err(ClientError::Build { field: "role".to_owned() });
            },
        };
        Ok(self.payload(mount, role))
    }

    /// The body the built request will serialize: the certificate
    /// (empty when unset), then exactly the optional fields that
    /// were set.  The mount and role never appear in it.
    pub open spec fn payload_view(&self) -> Map<Seq<char>, FieldView> {
        set_opt(
        set_opt(
        set_opt(
        set_opt(
        set_opt(
        set_opt(
        set_opt(
        set_opt(
        set_opt(
        set_opt(
        set_opt(
        set_opt(
        set_opt(
        set_opt(
        set_opt(
        set_opt(
        set_opt(
        set_opt(
        set_opt(
        set_opt(
        set_opt(
        set_opt(
        set_opt(
        set_opt(
        Map::empty().insert("certificate"@, FieldView::Text(text_or_empty(self.certificate))),
        "allowed_names"@,
        opt_text(self.allowed_names),
        ),
        "allowed_common_names"@,
        opt_list(self.allowed_common_names),
        ),
        "allowed_dns_sans"@,
        opt_list(self.allowed_dns_sans),
        ),
        "allowed_email_sans"@,
        opt_list(self.allowed_email_sans),
        ),
        "allowed_uri_sans"@,
        opt_list(self.allowed_uri_sans),
        ),
        "allowed_organizational_units"@,
        opt_list(self.allowed_organizational_units),
        ),
        "required_extensions"@,
        opt_list(self.required_extensions),
        ),
        "allowed_metadata_extensions"@,
        opt_list(self.allowed_metadata_extensions),
        ),
        "ocsp_enabled"@,
        opt_flag(self.ocsp_enabled),
        ),
        "ocsp_ca_certificates"@,
        opt_text(self.ocsp_ca_certificates),
        ),
        "ocsp_servers_override"@,
        opt_list(self.ocsp_servers_override),
        ),
        "ocsp_fail_open"@,
        opt_flag(self.ocsp_fail_open),
        ),
        "ocsp_query_all_servers"@,
        opt_flag(self.ocsp_query_all_servers),
        ),
        "display_name"@,
        opt_text(self.display_name),
        ),
        "token_ttl"@,
        opt_text(self.token_ttl),
        ),
        "token_max_ttl"@,
        opt_text(self.token_max_ttl),
        ),
        "token_policies"@,
        opt_list(self.token_policies),
        ),
        "policies"@,
        opt_list(self.policies),
        ),
        "token_bound_cidrs"@,
        opt_list(self.token_bound_cidrs),
        ),
        "token_explicit_max_ttl"@,
        opt_text(self.token_explicit_max_ttl),
        ),
        "token_no_default_policy"@,
        opt_flag(self.token_no_default_policy),
        ),
        "token_num_uses"@,
        opt_text(self.token_num_uses),
        ),
        "token_period"@,
        opt_text(self.token_period),
        ),
        "token_type"@,
        opt_text(self.token_type),
        )
    }

    /// The request this builder describes, under the given identity.
    pub fn payload(&self, mount: String, role: String) -> (r: CreateCACertificateRoleRequest)
        ensures
            r.mount@ == mount@,
            r.role@ == role@,
            r.body_view() == self.payload_view(),
    {
        CreateCACertificateRoleRequest {
            mount,
            role,
            certificate: take_or_empty(&self.certificate),
            allowed_names: clone_opt_text(&self.allowed_names),
            allowed_common_names: clone_opt_strings(&self.allowed_common_names),
            allowed_dns_sans: clone_opt_strings(&self.allowed_dns_sans),
            allowed_email_sans: clone_opt_strings(&self.allowed_email_sans),
            allowed_uri_sans: clone_opt_strings(&self.allowed_uri_sans),
            allowed_organizational_units: clone_opt_strings(&self.allowed_organizational_units),
            required_extensions: clone_opt_strings(&self.required_extensions),
            allowed_metadata_extensions: clone_opt_strings(&self.allowed_metadata_extensions),
            ocsp_enabled: self.ocsp_enabled,
            ocsp_ca_certificates: clone_opt_text(&self.ocsp_ca_certificates),
            ocsp_servers_override: clone_opt_strings(&self.ocsp_servers_override),
            ocsp_fail_open: self.ocsp_fail_open,
            ocsp_query_all_servers: self.ocsp_query_all_servers,
            display_name: clone_opt_text(&self.display_name),
            token_ttl: clone_opt_text(&self.token_ttl),
            token_max_ttl: clone_opt_text(&self.token_max_ttl),
            token_policies: clone_opt_strings(&self.token_policies),
            policies: clone_opt_strings(&self.policies),
            token_bound_cidrs: clone_opt_strings(&self.token_bound_cidrs),
            token_explicit_max_ttl: clone_opt_text(&self.token_explicit_max_ttl),
            token_no_default_policy: self.token_no_default_policy,
            token_num_uses: clone_opt_text(&self.token_num_uses),
            token_period: clone_opt_text(&self.token_period),
            token_type: clone_opt_text(&self.token_type),
        }
    }
}

} // verus!
