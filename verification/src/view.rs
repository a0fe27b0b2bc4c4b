//! The view invoker's decision: a read-only contract call needs no
//! signature and no nonce, only an interpretation of the node's reply.

use vstd::prelude::*;
use crate::errors::ClientError;

verus! {

/// The fields the client reads out of a call-view reply: the status
/// discriminator, and the result text when the node sent a textual result.
pub struct ViewResponse {
    pub status: String,
    pub result: Option<String>,
}

/// Interprets a call-view reply.  A status of "success" yields the result
/// text, with the literal sentinel "null" standing in when the node sent no
/// textual result; any other status is a contract-level rejection carrying
/// the reported status.
pub fn interpret_view_response(resp: &ViewResponse) -> (r: Result<String, ClientError>)
    ensures
        resp.status@ == "success"@ ==> r is Ok,
        resp.status@ == "success"@ ==> match resp.result {
            Some(s) => r->Ok_0@ == s@,
            None => r->Ok_0@ == "null"@,
        },
        resp.status@ != "success"@ ==> r is Err && r->Err_0 is Contract
            && r->Err_0->raw@ == resp.status@,
{
    let success = String::from_str("success");
    if resp.status == success {
        match &resp.result {
            Some(s) => Ok(s.clone()),
            None => Ok(String::from_str("null")),
        }
    } else {
        Err(ClientError::Contract { raw: resp.status.clone() })
    }
}

} // verus!
