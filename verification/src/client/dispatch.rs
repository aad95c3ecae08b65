//! The decisions of a dispatched call, separated from the transport
//! that carries it: which statuses succeed, what a failed response
//! means, and what text is handed to the decoder.

use vstd::prelude::*;
use crate::client::error::ClientError;

verus! {

/// Whether an HTTP status code is a success code.
pub open spec fn spec_is_success(status: u16) -> bool {
    200 <= status < 300
}

/// Whether a received status means success.
pub fn status_is_success(status: u16) -> (r: bool)
    ensures
        r == spec_is_success(status),
{
    200 <= status && status < 300
}

/// What a received response means: a success keeps its body for
/// decoding; any other status is an error carrying the status and the
/// whole body text as diagnostics, and the body is never decoded.
pub fn evaluate_response(status: u16, body: String) -> (r: Result<String, ClientError>)
    ensures
        spec_is_success(status) ==> (r matches Ok(b) && b == body),
        !spec_is_success(status) ==> (r matches Err(e) && e == (ClientError::Response {
            status,
            message: body,
        })),
{
    if status_is_success(status) {
        Ok(body)
    } else {
        Err(ClientError::Response { status, message: body })
    }
}

/// The text handed to the JSON decoder: the body of an ordinary
/// response, or the fixed placeholder for a response that carries no
/// body, as an existence check does.
pub fn decode_payload(bodyless: bool, body: String) -> (r: String)
    ensures
        bodyless ==> r@ == "null"@,
        !bodyless ==> r == body,
{
    if bodyless {
        String::from_str("null")
    } else {
        body
    }
}

} // verus!
