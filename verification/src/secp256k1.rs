//! Trusted boundary to the Secp256k1 ECDSA primitives of k256. Signing
//! there is deterministic (RFC 6979, no randomizer), so the named results
//! are functions of their byte inputs alone. Not every 32-byte string is
//! a valid secret scalar, so validity carries its own name and the
//! wrappers return nothing for an invalid secret.

use vstd::prelude::*;

verus! {

/// Whether k256::ecdsa::SigningKey::from_slice accepts 32 bytes as a
/// secret scalar; it rejects zero and anything at or above the curve
/// order.
pub uninterp spec fn secp256k1_valid_secret(secret: Seq<u8>) -> bool;

/// The 33 compressed SEC1 public-key bytes that k256 derives from a
/// valid secret; meaningful only where the secret is valid.
pub uninterp spec fn secp256k1_public_key_of(secret: Seq<u8>) -> Seq<u8>;

/// The 64 fixed-size signature bytes of k256's deterministic ECDSA over
/// a message; meaningful only where the secret is valid.
pub uninterp spec fn secp256k1_signature_of(secret: Seq<u8>, msg: Seq<u8>) -> Seq<u8>;

/// Whether k256's verification accepts the triple of compressed
/// public-key bytes, message and signature bytes; false also when the
/// public-key or signature bytes do not parse.
pub uninterp spec fn secp256k1_accepts(public_key: Seq<u8>, msg: Seq<u8>, sig: Seq<u8>) -> bool;

/// Relies on k256::ecdsa::SigningKey::{from_slice, verifying_key} and
/// VerifyingKey::to_sec1_bytes: from_slice succeeds exactly on valid
/// secret scalars, and the compressed public key is 33 bytes, a function
/// of the secret alone.
#[verifier::external_body]
pub(crate) fn secp256k1_public_key(secret: &[u8]) -> (r: Option<Vec<u8>>)
    ensures
        r is Some <==> secp256k1_valid_secret(secret@),
        r is Some ==> r->0@ == secp256k1_public_key_of(secret@),
        r is Some ==> r->0@.len() == 33,
{
    match k256::ecdsa::SigningKey::from_slice(secret) {
        Ok(sk) => Some(sk.verifying_key().to_sec1_bytes().to_vec()),
        Err(_) => None,
    }
}

/// Relies on k256's Signer impl for SigningKey (RFC 6979): once the
/// secret parses as a valid scalar, signing always succeeds — the
/// deterministic nonce derivation loops until a signature exists — so
/// success holds exactly for valid secrets. A produced signature is 64
/// bytes, a function of secret and message alone, and the documented
/// round trip holds — the matching VerifyingKey accepts it over the
/// same message.
#[verifier::external_body]
pub(crate) fn secp256k1_sign(secret: &[u8], msg: &[u8]) -> (r: Option<Vec<u8>>)
    ensures
        r is Some <==> secp256k1_valid_secret(secret@),
        r is Some ==> r->0@ == secp256k1_signature_of(secret@, msg@),
        r is Some ==> r->0@.len() == 64,
        r is Some ==> secp256k1_accepts(secp256k1_public_key_of(secret@), msg@, r->0@),
{
    let sk = match k256::ecdsa::SigningKey::from_slice(secret) {
        Ok(sk) => sk,
        Err(_) => return None,
    };
    let sig: Result<k256::ecdsa::Signature, _> = k256::ecdsa::signature::Signer::try_sign(
        &sk,
        msg,
    );
    match sig {
        Ok(s) => Some(s.to_bytes().to_vec()),
        Err(_) => None,
    }
}

/// Relies on k256::ecdsa::VerifyingKey::{from_sec1_bytes, verify} and
/// Signature::from_slice: the verdict is a function of the three byte
/// strings alone, and unparsable public-key or signature bytes are
/// rejected.
#[verifier::external_body]
pub(crate) fn secp256k1_verify(public_key: &[u8], msg: &[u8], sig: &[u8]) -> (r: bool)
    ensures
        r == secp256k1_accepts(public_key@, msg@, sig@),
{
    let vk = match k256::ecdsa::VerifyingKey::from_sec1_bytes(public_key) {
        Ok(vk) => vk,
        Err(_) => return false,
    };
    let s = match k256::ecdsa::Signature::from_slice(sig) {
        Ok(s) => s,
        Err(_) => return false,
    };
    k256::ecdsa::signature::Verifier::verify(&vk, msg, &s).is_ok()
}

} // verus!
