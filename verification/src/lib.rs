//! Typed client core for a TLS-certificate authentication API.
//!
//! The crate builds endpoint descriptors (path, method, body, expected
//! response shape) from typed request values, and interprets HTTP
//! status/body pairs into typed results.  The HTTP transport itself is an
//! external collaborator and lives outside this crate.

use vstd::prelude::*;

pub mod body;
pub mod endpoint;
pub mod error;
pub mod executor;
pub mod json;
pub mod laws;
pub mod requests;
pub mod responses;
pub mod tls;

verus! {

} // verus!
