//! The two supported signing schemes, and the spec-level dispatch from a
//! scheme to the named results of its primitives.

use vstd::prelude::*;

use crate::ed25519::{ed25519_accepts, ed25519_public_key_of, ed25519_signature_of};
use crate::secp256k1::{
    secp256k1_accepts, secp256k1_public_key_of, secp256k1_signature_of, secp256k1_valid_secret,
};

verus! {

#[derive(Clone, Copy, Debug, PartialEq, Eq, Structural)]
pub enum SignatureScheme {
    ED25519,
    Secp256k1,
}

/// The public key that a scheme derives from 32 bytes of secret material.
pub open spec fn scheme_public_key_of(scheme: SignatureScheme, secret: Seq<u8>) -> Seq<u8> {
    match scheme {
        SignatureScheme::ED25519 => ed25519_public_key_of(secret),
        SignatureScheme::Secp256k1 => secp256k1_public_key_of(secret),
    }
}

/// The signature that a scheme produces over a message; both schemes sign
/// deterministically, so this is a function of secret and message alone.
pub open spec fn scheme_signature_of(
    scheme: SignatureScheme,
    secret: Seq<u8>,
    msg: Seq<u8>,
) -> Seq<u8> {
    match scheme {
        SignatureScheme::ED25519 => ed25519_signature_of(secret, msg),
        SignatureScheme::Secp256k1 => secp256k1_signature_of(secret, msg),
    }
}

/// Whether a scheme's verification accepts the triple of public key,
/// message and signature bytes.
pub open spec fn scheme_accepts(
    scheme: SignatureScheme,
    public_key: Seq<u8>,
    msg: Seq<u8>,
    sig: Seq<u8>,
) -> bool {
    match scheme {
        SignatureScheme::ED25519 => ed25519_accepts(public_key, msg, sig),
        SignatureScheme::Secp256k1 => secp256k1_accepts(public_key, msg, sig),
    }
}

/// Whether 32 bytes of secret material are usable under a scheme; every
/// byte string works for Ed25519, while Secp256k1 rejects the few scalars
/// outside its field.
pub open spec fn scheme_valid_secret(scheme: SignatureScheme, secret: Seq<u8>) -> bool {
    match scheme {
        SignatureScheme::ED25519 => true,
        SignatureScheme::Secp256k1 => secp256k1_valid_secret(secret),
    }
}

} // verus!
