use cert_auth::body::FieldValue;
use cert_auth::endpoint::{Method, ResponseKind};
use cert_auth::error::ClientError;
use cert_auth::executor::{auth_response, crl_response, empty_response, keys_response, role_response};
use cert_auth::requests::{
    ConfigureTLSCertificateMethodRequestBuilder, CreateCACertificateRoleRequestBuilder,
};
use cert_auth::tls;

#[test]
fn paths_substitute_identity_exactly() {
    assert_eq!(tls::certs::read("cert", "admin").path, "/auth/cert/certs/admin");
    assert_eq!(tls::certs::list("cert").path, "/auth/cert/certs");
    assert_eq!(tls::certs::delete("m1", "r1").path, "/auth/m1/certs/r1");
    assert_eq!(tls::crls::read("cert", "blocked").path, "/auth/cert/crls/blocked");
    assert_eq!(tls::crls::list("cert").path, "/auth/cert/crls");
    assert_eq!(tls::crls::create("cert", "blocked").path, "/auth/cert/crls/blocked");
    assert_eq!(tls::crls::delete("cert", "blocked").path, "/auth/cert/crls/blocked");
    assert_eq!(tls::configure("cert", None).path, "/auth/cert/config");
    assert_eq!(tls::login("cert", "web").path, "/auth/cert/login");
}

#[test]
fn methods_and_response_kinds() {
    assert_eq!(tls::certs::read("m", "r").method, Method::Get);
    assert_eq!(tls::certs::read("m", "r").response_kind, ResponseKind::OptionalValue);
    assert_eq!(tls::certs::delete("m", "r").method, Method::Delete);
    assert_eq!(tls::certs::delete("m", "r").response_kind, ResponseKind::Empty);
    assert_eq!(tls::configure("m", None).method, Method::Post);
    assert_eq!(tls::configure("m", None).response_kind, ResponseKind::Empty);
    assert_eq!(tls::login("m", "r").method, Method::Post);
    assert_eq!(tls::login("m", "r").response_kind, ResponseKind::Value);
}

#[test]
fn reads_carry_no_body() {
    assert!(tls::certs::read("m", "r").body.is_none());
    assert!(tls::certs::list("m").body.is_none());
    assert!(tls::crls::read("m", "n").body.is_none());
    assert!(tls::crls::list("m").body.is_none());
    assert!(tls::certs::delete("m", "r").body.is_none());
    assert!(tls::crls::delete("m", "n").body.is_none());
}

#[test]
fn unset_optional_fields_are_omitted() {
    let d = tls::configure("cert", None);
    let body = d.body.expect("configure sends a body");
    assert_eq!(body.len(), 0);
    assert!(body.get("disable_binding").is_none());
    assert!(body.get("ocsp_cache_size").is_none());
    assert!(body.get("mount").is_none());
}

#[test]
fn set_optional_fields_appear_even_when_falsy() {
    let mut b = ConfigureTLSCertificateMethodRequestBuilder::new();
    b.disable_binding(false);
    b.ocsp_cache_size(0);
    let d = tls::configure("cert", Some(&b));
    let body = d.body.expect("configure sends a body");
    match body.get("disable_binding") {
        Some(FieldValue::Flag(v)) => assert!(!*v),
        other => panic!("disable_binding missing or mistyped: {:?}", other.is_some()),
    }
    match body.get("ocsp_cache_size") {
        Some(FieldValue::Uint(v)) => assert_eq!(*v, 0),
        _ => panic!("ocsp_cache_size missing or mistyped"),
    }
    assert!(body.get("enable_identity_alias_metadata").is_none());
}

#[test]
fn role_body_keeps_empty_list_and_omits_unset() {
    let mut b = CreateCACertificateRoleRequestBuilder::new();
    b.certificate("PEM DATA");
    b.allowed_common_names(Vec::new());
    b.ocsp_enabled(false);
    let d = tls::certs::create("cert", "admin", Some(&b));
    let body = d.body.expect("create sends a body");
    match body.get("certificate") {
        Some(FieldValue::Text(v)) => assert_eq!(v, "PEM DATA"),
        _ => panic!("certificate missing or mistyped"),
    }
    match body.get("allowed_common_names") {
        Some(FieldValue::TextList(v)) => assert!(v.is_empty()),
        _ => panic!("allowed_common_names missing or mistyped"),
    }
    match body.get("ocsp_enabled") {
        Some(FieldValue::Flag(v)) => assert!(!*v),
        _ => panic!("ocsp_enabled missing or mistyped"),
    }
    assert!(body.get("allowed_names").is_none());
    assert!(body.get("token_ttl").is_none());
    assert!(body.get("display_name").is_none());
}

#[test]
fn stale_builder_identity_is_overwritten() {
    let mut b = CreateCACertificateRoleRequestBuilder::new();
    b.mount("stale-mount");
    b.role("stale-role");
    b.certificate("PEM");
    let d = tls::certs::create("cert", "admin", Some(&b));
    assert_eq!(d.path, "/auth/cert/certs/admin");
    let body = d.body.expect("create sends a body");
    assert!(body.get("mount").is_none());
    assert!(body.get("role").is_none());

    let mut c = ConfigureTLSCertificateMethodRequestBuilder::new();
    c.mount("stale");
    let d = tls::configure("cert", Some(&c));
    assert_eq!(d.path, "/auth/cert/config");
}

#[test]
fn build_reports_missing_identity_fields() {
    let b = ConfigureTLSCertificateMethodRequestBuilder::new();
    match b.build() {
        Err(ClientError::Build { field }) => assert_eq!(field, "mount"),
        _ => panic!("build without a mount must fail"),
    }
    let mut b = ConfigureTLSCertificateMethodRequestBuilder::new();
    b.mount("cert");
    let req = b.build().expect("build with the mount set succeeds");
    assert_eq!(req.mount, "cert");

    let mut rb = CreateCACertificateRoleRequestBuilder::new();
    rb.mount("cert");
    match rb.build() {
        Err(ClientError::Build { field }) => assert_eq!(field, "role"),
        _ => panic!("build without a role must fail"),
    }
    rb.role("admin");
    let req = rb.build().expect("build with the identity set succeeds");
    assert_eq!(req.mount, "cert");
    assert_eq!(req.role, "admin");
    assert_eq!(req.certificate, "");
}

#[test]
fn login_body_carries_the_role_name() {
    let d = tls::login("cert", "web");
    let body = d.body.expect("login sends a body");
    match body.get("name") {
        Some(FieldValue::Text(v)) => assert_eq!(v, "web"),
        _ => panic!("name missing or mistyped"),
    }
    assert!(body.get("mount").is_none());
}

#[test]
fn empty_kind_accepts_any_success_and_reports_others() {
    assert!(empty_response(200, "").is_ok());
    assert!(empty_response(204, "").is_ok());
    match empty_response(500, "boom") {
        Err(ClientError::Status { status, body }) => {
            assert_eq!(status, 500);
            assert_eq!(body, "boom");
        }
        _ => panic!("a failing status must surface"),
    }
}

#[test]
fn optional_absence_is_not_an_error() {
    assert!(role_response(200, "").expect("empty body is absence").is_none());
    assert!(role_response(404, "anything").expect("not found is absence").is_none());
    assert!(keys_response(200, "").expect("empty body is absence").is_none());
    assert!(keys_response(404, "").expect("not found is absence").is_none());
    assert!(crl_response(200, "").expect("empty body is absence").is_none());
}

#[test]
fn optional_present_value_decodes() {
    let body = "{\"certificate\":\"PEM DATA\",\"display_name\":\"web\",\"policies\":\"a,b\",\"allowed_names\":\"web.example\",\"required_extensions\":\"\",\"ttl\":60,\"max_ttl\":120,\"period\":0}";
    let rec = role_response(200, body)
        .expect("a well-shaped body decodes")
        .expect("a present value is not absent");
    assert_eq!(rec.certificate, "PEM DATA");
    assert_eq!(rec.display_name, "web");
    assert_eq!(rec.policies, "a,b");
    assert_eq!(rec.allowed_names, "web.example");
    assert_eq!(rec.required_extensions, "");
    assert_eq!(rec.ttl, 60);
    assert_eq!(rec.max_ttl, 120);
    assert_eq!(rec.period, 0);
}

#[test]
fn malformed_json_is_a_decode_error() {
    match role_response(200, "{not json") {
        Err(ClientError::Decode { .. }) => {}
        _ => panic!("malformed JSON must be a decode error"),
    }
    match keys_response(200, "{\"keys\":[\"a\",7]}") {
        Err(ClientError::Decode { .. }) => {}
        _ => panic!("a mistyped element must be a decode error"),
    }
    match role_response(200, "{\"certificate\":\"PEM\"}") {
        Err(ClientError::Decode { .. }) => {}
        _ => panic!("a missing field must be a decode error"),
    }
}

#[test]
fn optional_failure_status_is_an_error() {
    match role_response(500, "server error") {
        Err(ClientError::Status { status, .. }) => assert_eq!(status, 500),
        _ => panic!("a failing status must surface"),
    }
    match keys_response(403, "denied") {
        Err(ClientError::Status { status, .. }) => assert_eq!(status, 403),
        _ => panic!("a failing status must surface"),
    }
}

#[test]
fn list_and_crl_bodies_decode() {
    let names = keys_response(200, "{\"keys\":[\"admin\",\"web\"]}")
        .expect("a well-shaped body decodes")
        .expect("a present value is not absent");
    assert_eq!(names, vec!["admin".to_string(), "web".to_string()]);

    let crl = crl_response(200, "{\"serials\":{\"0f:5a\":{},\"12:34\":{}}}")
        .expect("a well-shaped body decodes")
        .expect("a present value is not absent");
    let mut serials = crl.serials.clone();
    serials.sort();
    assert_eq!(serials, vec!["0f:5a".to_string(), "12:34".to_string()]);
}

#[test]
fn login_decodes_credential_material() {
    let body = "{\"auth\":{\"client_token\":\"s.SECRET-REDACTED\",\"accessor\":\"acc1\",\"policies\":[\"default\",\"web\"],\"lease_duration\":3600,\"renewable\":true}}";
    let auth = auth_response(200, body).expect("valid credentials decode");
    assert!(!auth.client_token.is_empty());
    assert_eq!(auth.accessor, "acc1");
    assert_eq!(auth.policies, vec!["default".to_string(), "web".to_string()]);
    assert_eq!(auth.lease_duration, 3600);
    assert!(auth.renewable);
}

#[test]
fn login_rejection_is_an_error_not_absence() {
    match auth_response(403, "permission denied") {
        Err(ClientError::Status { status, .. }) => assert_eq!(status, 403),
        _ => panic!("a rejected login must be an error"),
    }
    match auth_response(200, "") {
        Err(ClientError::Decode { .. }) => {}
        _ => panic!("a success without credential material must be an error"),
    }
    match auth_response(200, "{\"auth\":{\"client_token\":\"\"}}") {
        Err(ClientError::Decode { .. }) => {}
        _ => panic!("empty credential material must be an error"),
    }
    match auth_response(200, "{\"auth\":{}}") {
        Err(ClientError::Decode { .. }) => {}
        _ => panic!("missing credential material must be an error"),
    }
}

#[test]
fn round_trip_scenarios_against_a_simulated_mount() {
    // A mount with no roles: listing yields absence, not an error.
    assert!(keys_response(404, "").expect("no roles is not an error").is_none());

    // Create, then read back: the record carries the submitted PEM.
    let mut b = CreateCACertificateRoleRequestBuilder::new();
    b.certificate("PEM ROUND TRIP");
    let create = tls::certs::create("cert", "admin", Some(&b));
    assert_eq!(create.path, "/auth/cert/certs/admin");
    assert!(empty_response(204, "").is_ok());
    let read_back = "{\"certificate\":\"PEM ROUND TRIP\",\"display_name\":\"\",\"policies\":\"\",\"allowed_names\":\"\",\"required_extensions\":\"\",\"ttl\":0,\"max_ttl\":0,\"period\":0}";
    let rec = role_response(200, read_back).unwrap().unwrap();
    assert_eq!(rec.certificate, "PEM ROUND TRIP");

    // Delete, then read: absence again.
    assert!(empty_response(204, "").is_ok());
    assert!(role_response(404, "").expect("deleted role is absent").is_none());
}
