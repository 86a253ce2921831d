//! Trusted boundary to the Ed25519 primitives of ed25519-dalek. Signing
//! there is deterministic (RFC 8032), so public key, signature and the
//! verifier's verdict are each named as a function of their byte inputs
//! alone, and the library's contracts speak of those names.

use vstd::prelude::*;

verus! {

/// The 32 public-key bytes that ed25519-dalek derives from 32 bytes of
/// secret key material.
pub uninterp spec fn ed25519_public_key_of(secret: Seq<u8>) -> Seq<u8>;

/// The 64 signature bytes that ed25519-dalek produces over a message;
/// Ed25519 signing is deterministic, so this depends on secret and
/// message alone.
pub uninterp spec fn ed25519_signature_of(secret: Seq<u8>, msg: Seq<u8>) -> Seq<u8>;

/// Whether ed25519-dalek's verification accepts the triple of public-key
/// bytes, message and signature bytes; false also when the public-key or
/// signature bytes do not parse.
pub uninterp spec fn ed25519_accepts(public_key: Seq<u8>, msg: Seq<u8>, sig: Seq<u8>) -> bool;

/// Relies on ed25519_dalek::SigningKey::{from_bytes, verifying_key} and
/// VerifyingKey::to_bytes: any 32 secret bytes yield a 32-byte public
/// key, a function of the secret alone.
#[verifier::external_body]
pub(crate) fn ed25519_public_key(secret: &[u8]) -> (r: Vec<u8>)
    requires
        secret@.len() == 32,
    ensures
        r@ == ed25519_public_key_of(secret@),
        r@.len() == 32,
{
    let mut sk = [0u8; 32];
    sk.copy_from_slice(secret);
    ed25519_dalek::SigningKey::from_bytes(&sk).verifying_key().to_bytes().to_vec()
}

/// Relies on ed25519_dalek's Signer impl for SigningKey: signing never
/// fails, yields 64 bytes, and the documented round trip holds — the
/// matching VerifyingKey accepts the produced signature over the same
/// message.
#[verifier::external_body]
pub(crate) fn ed25519_sign(secret: &[u8], msg: &[u8]) -> (r: Vec<u8>)
    requires
        secret@.len() == 32,
    ensures
        r@ == ed25519_signature_of(secret@, msg@),
        r@.len() == 64,
        ed25519_accepts(ed25519_public_key_of(secret@), msg@, r@),
{
    let mut sk = [0u8; 32];
    sk.copy_from_slice(secret);
    let signing_key = ed25519_dalek::SigningKey::from_bytes(&sk);
    ed25519_dalek::Signer::sign(&signing_key, msg).to_bytes().to_vec()
}

/// Relies on ed25519_dalek::VerifyingKey::{from_bytes, verify} and
/// Signature::from_slice: the verdict is a function of the three byte
/// strings alone, and unparsable public-key or signature bytes are
/// rejected.
#[verifier::external_body]
pub(crate) fn ed25519_verify(public_key: &[u8], msg: &[u8], sig: &[u8]) -> (r: bool)
    ensures
        r == ed25519_accepts(public_key@, msg@, sig@),
{
    if public_key.len() != 32 {
        return false;
    }
    let mut pk = [0u8; 32];
    pk.copy_from_slice(public_key);
    let vk = match ed25519_dalek::VerifyingKey::from_bytes(&pk) {
        Ok(vk) => vk,
        Err(_) => return false,
    };
    let s = match ed25519_dalek::Signature::from_slice(sig) {
        Ok(s) => s,
        Err(_) => return false,
    };
    ed25519_dalek::Verifier::verify(&vk, msg, &s).is_ok()
}

} // verus!
