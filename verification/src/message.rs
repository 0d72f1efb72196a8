//! The request and response envelopes.
//!
//! The envelopes themselves come from the `http` crate; this library never
//! looks inside them, it only fixes [`Body`] as their payload type and moves
//! them between a server and a service.

use vstd::prelude::*;

verus! {

use crate::body::Body;

/// Declares `http::Request` so that it can stand in signatures. The library
/// treats a request as an opaque value: it never reads or edits one.
#[verifier::external_type_specification]
#[verifier::external_body]
#[verifier::reject_recursive_types(T)]
pub struct ExRequest<T>(http::Request<T>);

/// Declares `http::Response` so that it can stand in signatures. The library
/// treats a response as an opaque value: it never reads or edits one.
#[verifier::external_type_specification]
#[verifier::external_body]
#[verifier::reject_recursive_types(T)]
pub struct ExResponse<T>(http::Response<T>);

/// An HTTP request with a streaming body.
pub type HttpRequest = http::Request<Body>;

/// An HTTP response with a streaming body.
pub type HttpResponse = http::Response<Body>;

} // verus!
