//! The error taxonomy of the client: transport failures, non-success HTTP
//! statuses, response-shape mismatches, contract-level rejections from the
//! view endpoint, and exhaustion of the submit retry budget.

use vstd::prelude::*;

verus! {

/// A terminal or per-attempt failure of one client operation.
#[derive(Debug)]
pub enum ClientError {
    /// The transport could not complete the request at all.
    Network { detail: String },
    /// The node answered with an HTTP status of 400 or above.
    Api { status: u16, body: String },
    /// The response did not have the expected shape.
    Decode { msg: String },
    /// The view endpoint reported a status other than success.
    Contract { raw: String },
    /// Every submission attempt of a call-type method failed.
    RetryExhausted,
}

/// The transport-level success rule: any HTTP status of 400 or above is an
/// API error; everything below is handed on for decoding.
pub fn is_error_status(status: u16) -> (r: bool)
    ensures
        r <==> status >= 400,
{
    status >= 400
}

impl ClientError {
    /// A short human-readable tag for the error kind, for report lines.
    pub fn kind_name(&self) -> (r: &'static str)
        ensures
            self is Network ==> r@ == "network error"@,
            self is Api ==> r@ == "api error"@,
            self is Decode ==> r@ == "decode error"@,
            self is Contract ==> r@ == "contract error"@,
            self is RetryExhausted ==> r@ == "all retries failed"@,
    {
        match self {
            ClientError::Network { .. } => "network error",
            ClientError::Api { .. } => "api error",
            ClientError::Decode { .. } => "decode error",
            ClientError::Contract { .. } => "contract error",
            ClientError::RetryExhausted => "all retries failed",
        }
    }
}

} // verus!
