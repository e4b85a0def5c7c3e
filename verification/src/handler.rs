//! The fixed answers of the service's plain routes.

use vstd::prelude::*;
use crate::status::StatusCode;

verus! {

/// A JSON body with an error flag and a message.
#[derive(Debug, Clone)]
pub struct PlainResponse {
    pub error: bool,
    pub message: String,
}

/// Answer to a health check request: `200`, `healthy`.
pub fn health_handler() -> (r: (StatusCode, PlainResponse))
    ensures
        r.0.code() == 200,
        !r.1.error,
        r.1.message@ == "healthy"@,
{
    let err = PlainResponse { error: false, message: "healthy".to_owned() };
    (StatusCode::ok(), err)
}

/// Default answer when no route matched, as JSON: `404`, `not found`.
pub fn handle_404_json() -> (r: (StatusCode, PlainResponse))
    ensures
        r.0.code() == 404,
        r.1.error,
        r.1.message@ == "not found"@,
{
    let err = PlainResponse { error: true, message: "not found".to_owned() };
    (StatusCode::not_found(), err)
}

/// Default answer when no route matched, as plain text.
pub fn handler_404() -> (r: (StatusCode, &'static str))
    ensures
        r.0.code() == 404,
        r.1@ == "nothing to see here"@,
{
    (StatusCode::not_found(), "nothing to see here")
}

/// Answer to a request for `/`: `200`, `sup!`.
pub fn root_handler() -> (r: (StatusCode, PlainResponse))
    ensures
        r.0.code() == 200,
        !r.1.error,
        r.1.message@ == "sup!"@,
{
    let idx = PlainResponse { error: false, message: "sup!".to_owned() };
    (StatusCode::ok(), idx)
}

} // verus!
