//! A detached signature: scheme tag, signature bytes and the signer's
//! public-key bytes. Verification either fails or returns exactly the
//! address of the public key that produced a valid signature over the
//! presented bytes — never a different one.

use vstd::prelude::*;

use crate::db3_address::DB3Address;
use crate::db3_error::DB3Error;
use crate::ed25519::ed25519_verify;
use crate::key_derive::{address_from_public, address_of_public};
use crate::secp256k1::secp256k1_verify;
use crate::signature_scheme::{scheme_accepts, SignatureScheme};

verus! {

pub struct Signature {
    pub scheme: SignatureScheme,
    pub signature: Vec<u8>,
    pub public_key: Vec<u8>,
}

impl Signature {
    /// Verify this signature over exactly `msg`. Succeeds precisely when
    /// the scheme's verifier accepts the embedded public key, the
    /// message and the signature bytes, and then returns the address of
    /// the embedded public key; any mismatch — wrong message, wrong
    /// scheme, corrupted bytes — is a verify error, never a panic.
    pub fn verify(&self, msg: &[u8]) -> (r: Result<DB3Address, DB3Error>)
        ensures
            r is Ok <==> scheme_accepts(self.scheme, self.public_key@, msg@, self.signature@),
            r matches Ok(addr) ==> addr@ == address_of_public(self.scheme, self.public_key@),
            r matches Ok(addr) ==> addr.wf(),
            r matches Err(e) ==> e == DB3Error::VerifyMessageError,
    {
        let accepted = match self.scheme {
            SignatureScheme::ED25519 => ed25519_verify(
                self.public_key.as_slice(),
                msg,
                self.signature.as_slice(),
            ),
            SignatureScheme::Secp256k1 => secp256k1_verify(
                self.public_key.as_slice(),
                msg,
                self.signature.as_slice(),
            ),
        };
        if accepted {
            Ok(address_from_public(&self.scheme, self.public_key.as_slice()))
        } else {
            Err(DB3Error::VerifyMessageError)
        }
    }
}

} // verus!
