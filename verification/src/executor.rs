//! Interpretation of an HTTP status and body into a typed result, one
//! function per expected response shape.
//!
//! The transport itself lives outside this crate: whatever issues the
//! request hands the raw status and body text back in, and these
//! functions decide — for every possible answer — whether the call
//! succeeded, found nothing, or failed, and with which error.

use vstd::prelude::*;
use crate::error::ClientError;
use crate::json::{json_of, parse_json};
use crate::responses::{
    auth_from_json,
    auth_view_of,
    crl_from_json,
    crl_view_of,
    keys_from_json,
    keys_view_of,
    role_from_json,
    role_view_of,
    AuthInfo,
    ReadCACertificateRoleResponse,
    ReadCRLResponse,
};

verus! {

/// Whether a status reports success.
pub open spec fn is_success(status: u16) -> bool {
    200 <= status < 300
}

/// Whether a status reports that the addressed value does not exist,
/// as opposed to a failure of the call itself.
pub open spec fn is_not_found(status: u16) -> bool {
    status == 404
}

/// Whether `r` is the status error that carries exactly this call's
/// status and body.
pub open spec fn status_error(r: ClientError, status: u16, body: Seq<char>) -> bool {
    match r {
        ClientError::Status { status: s, body: b } => s == status && b@ == body,
        _ => false,
    }
}

fn success(status: u16) -> (r: bool)
    ensures
        r == is_success(status),
{
    200 <= status && status < 300
}

fn status_failure(status: u16, body: &str) -> (r: ClientError)
    ensures
        status_error(r, status, body@),
{
    ClientError::Status { status, body: body.to_owned() }
}

fn decode_failure(what: &str) -> (r: ClientError)
    ensures
        r.is_decode(),
{
    ClientError::Decode { message: what.to_owned() }
}

/// Interprets a response from which no value is expected: any success
/// is enough, any other status is the call's one error.
pub fn empty_response(status: u16, body: &str) -> (r: Result<(), ClientError>)
    ensures
        is_success(status) ==> r is Ok,
        !is_success(status) ==> (r matches Err(e) && status_error(e, status, body@)),
{
    if success(status) {
        Ok(())
    } else {
        Err(status_failure(status, body))
    }
}

/// Interprets a response that may legitimately be absent.  A "not
/// found" status or a successful empty body stands for absence; a
/// successful body must parse and match the expected shape; any other
/// status is an error.
pub fn role_response(status: u16, body: &str) -> (r: Result<
    Option<ReadCACertificateRoleResponse>,
    ClientError,
>)
    ensures
        is_not_found(status) ==> (r matches Ok(o) && o is None),
        is_success(status) && body@.len() == 0 ==> (r matches Ok(o) && o is None),
        is_success(status) && body@.len() > 0 ==> match json_of(body@) {
            Some(j) => match role_view_of(j) {
                Some(v) => r matches Ok(o) && o matches Some(rec) && rec@ == v,
                None => r matches Err(e) && e.is_decode(),
            },
            None => r matches Err(e) && e.is_decode(),
        },
        !is_success(status) && !is_not_found(status) ==> (r matches Err(e) && status_error(
            e,
            status,
            body@,
        )),
{
    if status == 404 {
        return Ok(None);
    }
    if !success(status) {
        return Err(status_failure(status, body));
    }
    if body.is_empty() {
        return Ok(None);
    }
    match parse_json(body) {
        None => Err(decode_failure("response body is not valid JSON")),
        Some(j) => match role_from_json(&j) {
            Some(rec) => Ok(Some(rec)),
            None => Err(decode_failure("response body is not a role record")),
        },
    }
}

/// Interprets an optional revocation-list response; absence and errors
/// are told apart as in [`role_response`].
pub fn crl_response(status: u16, body: &str) -> (r: Result<Option<ReadCRLResponse>, ClientError>)
    ensures
        is_not_found(status) ==> (r matches Ok(o) && o is None),
        is_success(status) && body@.len() == 0 ==> (r matches Ok(o) && o is None),
        is_success(status) && body@.len() > 0 ==> match json_of(body@) {
            Some(j) => match crl_view_of(j) {
                Some(v) => r matches Ok(o) && o matches Some(rec) && rec@ == v,
                None => r matches Err(e) && e.is_decode(),
            },
            None => r matches Err(e) && e.is_decode(),
        },
        !is_success(status) && !is_not_found(status) ==> (r matches Err(e) && status_error(
            e,
            status,
            body@,
        )),
{
    if status == 404 {
        return Ok(None);
    }
    if !success(status) {
        return Err(status_failure(status, body));
    }
    if body.is_empty() {
        return Ok(None);
    }
    match parse_json(body) {
        None => Err(decode_failure("response body is not valid JSON")),
        Some(j) => match crl_from_json(&j) {
            Some(rec) => Ok(Some(rec)),
            None => Err(decode_failure("response body is not a revocation list")),
        },
    }
}

/// Interprets an optional name-list response; absence and errors are
/// told apart as in [`role_response`].
pub fn keys_response(status: u16, body: &str) -> (r: Result<Option<Vec<String>>, ClientError>)
    ensures
        is_not_found(status) ==> (r matches Ok(o) && o is None),
        is_success(status) && body@.len() == 0 ==> (r matches Ok(o) && o is None),
        is_success(status) && body@.len() > 0 ==> match json_of(body@) {
            Some(j) => match keys_view_of(j) {
                Some(v) => r matches Ok(o) && o matches Some(names) && names.deep_view() == v,
                None => r matches Err(e) && e.is_decode(),
            },
            None => r matches Err(e) && e.is_decode(),
        },
        !is_success(status) && !is_not_found(status) ==> (r matches Err(e) && status_error(
            e,
            status,
            body@,
        )),
{
    if status == 404 {
        return Ok(None);
    }
    if !success(status) {
        return Err(status_failure(status, body));
    }
    if body.is_empty() {
        return Ok(None);
    }
    match parse_json(body) {
        None => Err(decode_failure("response body is not valid JSON")),
        Some(j) => match keys_from_json(&j) {
            Some(names) => Ok(Some(names)),
            None => Err(decode_failure("response body is not a name list")),
        },
    }
}

/// Interprets a login response: a rejected login is a status error, a
/// successful body must carry credential material, and material that is
/// missing from an otherwise well-formed body is a decode error — never
/// an absent value.
pub fn auth_response(status: u16, body: &str) -> (r: Result<AuthInfo, ClientError>)
    ensures
        !is_success(status) ==> (r matches Err(e) && status_error(e, status, body@)),
        is_success(status) && body@.len() == 0 ==> (r matches Err(e) && e.is_decode()),
        is_success(status) && body@.len() > 0 ==> match json_of(body@) {
            Some(j) => match auth_view_of(j) {
                Some(v) => r matches Ok(a) && a@ == v && v.client_token.len() > 0,
                None => r matches Err(e) && e.is_decode(),
            },
            None => r matches Err(e) && e.is_decode(),
        },
{
    if !success(status) {
        return Err(status_failure(status, body));
    }
    if body.is_empty() {
        return Err(decode_failure("login response carried no body"));
    }
    match parse_json(body) {
        None => Err(decode_failure("response body is not valid JSON")),
        Some(j) => match auth_from_json(&j) {
            Some(a) => Ok(a),
            None => Err(decode_failure("login response carried no credential material")),
        },
    }
}

} // verus!
