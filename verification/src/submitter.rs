//! The submission retry state machine.  One attempt is fetch → sign →
//! submit; any failure inside an attempt discards the whole attempt and, if
//! the budget of `MAX_ATTEMPTS` is not yet spent, returns to fetching so the
//! nonce is re-observed.  The machine itself decides; the caller performs
//! the network work and feeds the outcome back as an `Event`.

use vstd::prelude::*;
use crate::MAX_ATTEMPTS;
use crate::errors::ClientError;
use crate::seqtext::free_of;
use crate::signer::{sign_transaction, encode_signature, encode_public_key, sig_of, vk_of, b64_of,
    valid_sig};
use crate::tx::{Transaction, canon_spec, tx_wf};

verus! {

/// What a submission run needs besides events: the signing seed and the two
/// addresses every attempt's transaction carries.
pub struct SubmitContext {
    pub seed: Vec<u8>,
    pub from: String,
    pub contract: String,
}

/// A usable context: a 32-byte Ed25519 seed and quote-free addresses.
pub open spec fn ctx_wf(ctx: &SubmitContext) -> bool {
    &&& ctx.seed@.len() == 32
    &&& free_of(ctx.from@, '"')
    &&& free_of(ctx.contract@, '"')
}

/// Where the machine stands inside or after an attempt.
pub enum Phase {
    /// Waiting for a fresh account-state fetch.
    Fetching,
    /// A transaction with this nonce has been handed out for submission.
    Submitting { nonce: u64 },
    /// The node accepted and returned this non-empty transaction hash.
    Succeeded { hash: String },
    /// Every attempt failed.
    Failed,
}

/// The machine: which attempt is running (1-based) and its phase.
pub struct Submitter {
    pub attempt: u64,
    pub phase: Phase,
}

/// The outcome of the network work the caller was asked to do.
pub enum Event {
    /// The account state arrived; `timestamp` is the textual clock reading
    /// taken for this attempt.
    FetchOk { nonce: u64, timestamp: String },
    /// The account-state fetch failed.
    FetchErr,
    /// The submit endpoint answered; `tx_hash` is its hash field, if any.
    SubmitOk { tx_hash: Option<String> },
    /// The submit request itself failed.
    SubmitErr,
}

/// What the caller must do next.
pub enum Action {
    /// Send the signed transaction, then report with `SubmitOk`/`SubmitErr`.
    Submit { tx: Transaction, signature: String, public_key: String },
    /// Wait out the fixed backoff, re-fetch the account state, then report
    /// with `FetchOk`/`FetchErr`.
    Retry,
    /// The run is over; the phase holds the result.
    Done,
}

/// An event the machine can be given in its current phase.
pub open spec fn compat(s: Submitter, e: Event) -> bool {
    match s.phase {
        Phase::Fetching => e is FetchOk || e is FetchErr,
        Phase::Submitting { .. } => e is SubmitOk || e is SubmitErr,
        _ => false,
    }
}

/// A well-formed event: a fetched nonce leaves room for the successor the
/// transaction must carry, and the clock text is quote-free.
pub open spec fn event_wf(e: Event) -> bool {
    e is FetchOk ==> e->nonce < u64::MAX && free_of(e->timestamp@, '"')
}

/// Whether this event ends the current attempt in failure: a failed fetch, a
/// failed submit request, or a submit reply with a missing or empty hash.
pub open spec fn is_attempt_failure(e: Event) -> bool {
    ||| e is FetchErr
    ||| e is SubmitErr
    ||| (e is SubmitOk && match e->tx_hash {
        Some(h) => h@.len() == 0,
        None => true,
    })
}

/// The pure state transition: a fresh fetch moves into submission with the
/// successor nonce; an accepted hash ends the run; any attempt failure
/// either starts the next attempt at fetching or, with the budget spent,
/// ends the run failed.
pub open spec fn step_spec(s: Submitter, e: Event) -> Submitter {
    match e {
        Event::FetchOk { nonce, .. } => Submitter {
            attempt: s.attempt,
            phase: Phase::Submitting { nonce: (nonce + 1) as u64 },
        },
        Event::SubmitOk { tx_hash: Some(h) } => {
            if h@.len() > 0 {
                Submitter { attempt: s.attempt, phase: Phase::Succeeded { hash: h } }
            } else {
                fail_spec(s)
            }
        },
        _ => fail_spec(s),
    }
}

/// The transition an attempt failure takes.
pub open spec fn fail_spec(s: Submitter) -> Submitter {
    if s.attempt < MAX_ATTEMPTS {
        Submitter { attempt: (s.attempt + 1) as u64, phase: Phase::Fetching }
    } else {
        Submitter { attempt: s.attempt, phase: Phase::Failed }
    }
}

impl Submitter {
    /// The attempt counter stays within the budget.
    pub open spec fn wf(&self) -> bool {
        1 <= self.attempt <= MAX_ATTEMPTS
    }

    /// A run starts with its first attempt, fetching.
    pub fn new() -> (s: Submitter)
        ensures
            s.attempt == 1,
            s.phase is Fetching,
            s.wf(),
    {
        Submitter { attempt: 1, phase: Phase::Fetching }
    }

    /// Feeds one event in.  The state moves exactly as `step_spec` says, and
    /// the returned action is pinned down: a `Submit` comes out if and only
    /// if the event was a fresh fetch, and then its transaction carries the
    /// just-observed nonce plus one, this attempt's clock reading, and a
    /// signature over exactly its canonical text.
    pub fn step(&mut self, ctx: &SubmitContext, event: Event) -> (action: Action)
        requires
            old(self).wf(),
            compat(*old(self), event),
            ctx_wf(ctx),
            event_wf(event),
        ensures
            *final(self) == step_spec(*old(self), event),
            final(self).wf(),
            action is Submit <==> event is FetchOk,
            event is FetchOk ==> match action {
                Action::Submit { tx, signature, public_key } => {
                    &&& tx.from@ == ctx.from@
                    &&& tx.to@ == ctx.contract@
                    &&& tx.amount@ == "0"@
                    &&& tx.nonce == event->nonce + 1
                    &&& tx.ou@ == "1"@
                    &&& tx.timestamp@ == event->timestamp@
                    &&& tx_wf(&tx)
                    &&& signature@ == b64_of(sig_of(ctx.seed@, canon_spec(&tx)))
                    &&& public_key@ == b64_of(vk_of(ctx.seed@))
                    &&& valid_sig(vk_of(ctx.seed@), canon_spec(&tx), sig_of(ctx.seed@, canon_spec(&tx)))
                },
                _ => false,
            },
            is_attempt_failure(event) && old(self).attempt < MAX_ATTEMPTS ==> action is Retry
                && final(self).attempt == old(self).attempt + 1 && final(self).phase is Fetching,
            is_attempt_failure(event) && old(self).attempt == MAX_ATTEMPTS ==> action is Done
                && final(self).phase is Failed,
            event is SubmitOk && !is_attempt_failure(event) ==> action is Done
                && final(self).phase is Succeeded
                && final(self).phase->hash@ == event->tx_hash->0@,
    {
        match event {
            Event::FetchOk { nonce, timestamp } => {
                let tx = Transaction {
                    from: ctx.from.clone(),
                    to: ctx.contract.clone(),
                    amount: String::from_str("0"),
                    nonce: nonce + 1,
                    ou: String::from_str("1"),
                    timestamp,
                };
                proof {
                    reveal_strlit("0");
                    reveal_strlit("1");
                    assert(tx_wf(&tx));
                }
                let sig = sign_transaction(&ctx.seed, &tx);
                let signature = encode_signature(&sig);
                let public_key = encode_public_key(&ctx.seed);
                self.phase = Phase::Submitting { nonce: nonce + 1 };
                Action::Submit { tx, signature, public_key }
            },
            Event::SubmitOk { tx_hash } => {
                match tx_hash {
                    Some(h) => {
                        if !h.as_str().is_empty() {
                            self.phase = Phase::Succeeded { hash: h };
                            Action::Done
                        } else {
                            self.fail_step()
                        }
                    },
                    None => self.fail_step(),
                }
            },
            Event::FetchErr => self.fail_step(),
            Event::SubmitErr => self.fail_step(),
        }
    }

    /// Ends the current attempt in failure: moves on to the next attempt, or
    /// to the failed terminal state once the budget is spent.
    fn fail_step(&mut self) -> (action: Action)
        requires
            old(self).wf(),
        ensures
            *final(self) == fail_spec(*old(self)),
            final(self).wf(),
            old(self).attempt < MAX_ATTEMPTS ==> action is Retry,
            old(self).attempt == MAX_ATTEMPTS ==> action is Done,
    {
        if self.attempt < MAX_ATTEMPTS {
            self.attempt = self.attempt + 1;
            self.phase = Phase::Fetching;
            Action::Retry
        } else {
            self.phase = Phase::Failed;
            Action::Done
        }
    }

    /// The run's result, once a terminal phase is reached: the accepted hash,
    /// or the aggregate retry-exhaustion error.
    pub fn outcome(&self) -> (r: Option<Result<String, ClientError>>)
        ensures
            self.phase is Succeeded ==> r is Some && r->0 is Ok && r->0->Ok_0@
                == self.phase->hash@,
            self.phase is Failed ==> r is Some && r->0 is Err && r->0->Err_0 is RetryExhausted,
            self.phase is Fetching || self.phase is Submitting ==> r is None,
    {
        match &self.phase {
            Phase::Succeeded { hash } => Some(Ok(hash.clone())),
            Phase::Failed => Some(Err(ClientError::RetryExhausted)),
            _ => None,
        }
    }
}

/// The retry bound: from a fresh machine, three straight attempt failures —
/// each an event the machine can take in its phase — leave the run failed,
/// and not one step earlier.
pub proof fn lemma_retry_bound(s0: Submitter, e1: Event, e2: Event, e3: Event)
    requires
        s0.attempt == 1,
        s0.phase is Fetching,
        is_attempt_failure(e1),
        is_attempt_failure(e2),
        is_attempt_failure(e3),
        compat(s0, e1),
        compat(step_spec(s0, e1), e2),
        compat(step_spec(step_spec(s0, e1), e2), e3),
    ensures
        step_spec(s0, e1).attempt == 2 && step_spec(s0, e1).phase is Fetching,
        step_spec(step_spec(s0, e1), e2).attempt == 3 && step_spec(
            step_spec(s0, e1),
            e2,
        ).phase is Fetching,
        step_spec(step_spec(step_spec(s0, e1), e2), e3).phase is Failed,
{
}

/// Nonce discipline: the only transition that hands out a transaction is the
/// one taking a fresh fetch, and the transaction's nonce is the observed
/// nonce plus one.  After any attempt failure the machine is fetching again,
/// so a later attempt can only submit a nonce derived from a later fetch.
pub proof fn lemma_nonce_from_fresh_fetch(s: Submitter, e: Event)
    requires
        compat(s, e),
        event_wf(e),
    ensures
        step_spec(s, e).phase is Submitting ==> e is FetchOk && step_spec(s, e).phase->nonce
            == e->nonce + 1,
        is_attempt_failure(e) && step_spec(s, e).phase is Fetching ==> step_spec(s, e).attempt
            == s.attempt + 1,
{
}

} // verus!
