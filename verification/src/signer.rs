//! Ed25519 signing over the canonical transaction text, and base64 encoding
//! of signatures and public keys for transport.  The cryptographic
//! primitives come from outside crates; what they return is named here and
//! everything the library proves about signatures goes through those names.

use vstd::prelude::*;
use base64::Engine;
use ed25519_dalek::{Signer, Verifier};
use crate::seqtext::free_of;
use crate::tx::{Transaction, canon_spec};

verus! {

/// The Ed25519 signature bytes that the given 32-byte seed produces over the
/// given message.  Ed25519 signing is deterministic, so this is a function
/// of the seed and the message alone.
pub uninterp spec fn sig_of(seed: Seq<u8>, msg: Seq<char>) -> Seq<u8>;

/// The Ed25519 public key bytes derived from a 32-byte seed.
pub uninterp spec fn vk_of(seed: Seq<u8>) -> Seq<u8>;

/// Whether Ed25519 verification accepts `sig` as a signature on `msg` under
/// the public key bytes `vk`.
pub uninterp spec fn valid_sig(vk: Seq<u8>, msg: Seq<char>, sig: Seq<u8>) -> bool;

/// The standard base64 text (padded, RFC 4648 alphabet) of `bytes`.
pub uninterp spec fn b64_of(bytes: Seq<u8>) -> Seq<char>;

/// Relies on `ed25519_dalek::SigningKey`: `from_bytes` accepts any 32-byte
/// seed, `Signer::sign` is deterministic in the seed and message, produces a
/// 64-byte signature, and that signature verifies under the key's own
/// verifying key.
#[verifier::external_body]
fn sign_with_seed(seed: &Vec<u8>, msg: &str) -> (r: Vec<u8>)
    requires
        seed@.len() == 32,
    ensures
        r@ == sig_of(seed@, msg@),
        r@.len() == 64,
        valid_sig(vk_of(seed@), msg@, r@),
{
    let bytes: [u8; 32] = seed.as_slice().try_into().unwrap();
    let sk = ed25519_dalek::SigningKey::from_bytes(&bytes);
    sk.sign(msg.as_bytes()).to_vec()
}

/// Relies on `ed25519_dalek::SigningKey::verifying_key` and
/// `VerifyingKey::to_bytes`: the 32-byte public key is determined by the
/// seed alone.
#[verifier::external_body]
fn verifying_key_of_seed(seed: &Vec<u8>) -> (r: Vec<u8>)
    requires
        seed@.len() == 32,
    ensures
        r@ == vk_of(seed@),
        r@.len() == 32,
{
    let bytes: [u8; 32] = seed.as_slice().try_into().unwrap();
    ed25519_dalek::SigningKey::from_bytes(&bytes).verifying_key().to_bytes().to_vec()
}

/// Relies on `ed25519_dalek::VerifyingKey::from_bytes` and
/// `Verifier::verify`: acceptance is a function of key, message and
/// signature bytes alone; key bytes that decode to no valid curve point
/// accept nothing.
#[verifier::external_body]
fn verify_with_key(vk: &Vec<u8>, msg: &str, sig: &Vec<u8>) -> (r: bool)
    requires
        vk@.len() == 32,
        sig@.len() == 64,
    ensures
        r == valid_sig(vk@, msg@, sig@),
{
    let key_bytes: [u8; 32] = vk.as_slice().try_into().unwrap();
    let key = match ed25519_dalek::VerifyingKey::from_bytes(&key_bytes) {
        Ok(k) => k,
        Err(_) => return false,
    };
    let sig_bytes: [u8; 64] = sig.as_slice().try_into().unwrap();
    key.verify(msg.as_bytes(), &ed25519_dalek::Signature::from_bytes(&sig_bytes)).is_ok()
}

/// Relies on `base64::engine::general_purpose::STANDARD.encode`: four output
/// characters for every three input bytes (padded), all drawn from the RFC
/// 4648 standard alphabet plus `=`, which contains no double quote.
#[verifier::external_body]
fn b64_encode(bytes: &Vec<u8>) -> (r: String)
    ensures
        r@ == b64_of(bytes@),
        r@.len() == ((bytes@.len() + 2) / 3) * 4,
        free_of(r@, '"'),
{
    base64::engine::general_purpose::STANDARD.encode(bytes.as_slice())
}

/// Signs the canonical text of `tx` with the Ed25519 seed: the signature is
/// exactly the deterministic signature over `canon_spec(tx)`, and it
/// verifies under the seed's own public key.
pub fn sign_transaction(seed: &Vec<u8>, tx: &Transaction) -> (sig: Vec<u8>)
    requires
        seed@.len() == 32,
    ensures
        sig@ == sig_of(seed@, canon_spec(tx)),
        sig@.len() == 64,
        valid_sig(vk_of(seed@), canon_spec(tx), sig@),
{
    let msg = tx.canonicalize();
    sign_with_seed(seed, msg.as_str())
}

/// Base64 text of a signature, for the wire.
pub fn encode_signature(sig: &Vec<u8>) -> (r: String)
    ensures
        r@ == b64_of(sig@),
        free_of(r@, '"'),
{
    b64_encode(sig)
}

/// Base64 text of the public key belonging to `seed`, for the wire.
pub fn encode_public_key(seed: &Vec<u8>) -> (r: String)
    requires
        seed@.len() == 32,
    ensures
        r@ == b64_of(vk_of(seed@)),
        free_of(r@, '"'),
{
    let vk = verifying_key_of_seed(seed);
    b64_encode(&vk)
}

/// The sign/verify round trip: a signature freshly produced over the
/// canonical text of `tx` always verifies against that same text and the
/// corresponding public key, so this function can promise `true`.
pub fn sign_then_verify(seed: &Vec<u8>, tx: &Transaction) -> (ok: bool)
    requires
        seed@.len() == 32,
    ensures
        ok,
{
    let msg = tx.canonicalize();
    let sig = sign_with_seed(seed, msg.as_str());
    let vk = verifying_key_of_seed(seed);
    verify_with_key(&vk, msg.as_str(), &sig)
}

} // verus!
