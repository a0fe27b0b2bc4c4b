//! Client-side core of a smart-contract exerciser: canonical transaction
//! encoding, Ed25519 signing, account-state resolution, the submit/retry
//! state machine, the view-call interpreter, and method dispatch decisions.

pub mod account;
pub mod dispatch;
pub mod errors;
pub mod numfmt;
pub mod seqtext;
pub mod signer;
pub mod submitter;
pub mod tx;
pub mod view;
pub mod wire;

use vstd::prelude::*;

verus! {

/// Number of submission attempts a call-type method is given before the
/// submitter gives up.
pub const MAX_ATTEMPTS: u64 = 3;

/// Fixed pause between a failed attempt and the next fetch, in seconds.
pub const RETRY_BACKOFF_SECS: u64 = 2;

/// Fixed pacing delay between two dispatched methods, in seconds.
pub const INTER_METHOD_DELAY_SECS: u64 = 2;

/// Upper bound on any single request, in seconds; retry happens above this
/// layer, never inside it.
pub const REQUEST_TIMEOUT_SECS: u64 = 100;

} // verus!
