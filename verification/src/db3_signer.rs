//! The multi-scheme signer: wraps exactly one keypair of one scheme and
//! signs arbitrary byte payloads without interpreting them. Callers
//! never branch on the scheme.

use vstd::prelude::*;

use crate::db3_error::DB3Error;
use crate::db3_keypair::DB3KeyPair;
use crate::db3_signature::Signature;
use crate::key_derive::address_of_public;
use crate::signature_scheme::{scheme_accepts, scheme_signature_of};

verus! {

pub struct Db3MultiSchemeSigner {
    kp: DB3KeyPair,
}

impl Db3MultiSchemeSigner {
    pub closed spec fn kp_spec(&self) -> DB3KeyPair {
        self.kp
    }

    pub fn new(kp: DB3KeyPair) -> (s: Self)
        ensures
            s.kp_spec() == kp,
    {
        Self { kp }
    }

    /// Sign `msg` byte-for-byte. Signing always succeeds: the
    /// signature carries the keypair's scheme and public key and the
    /// scheme's deterministic signature over exactly `msg`, and
    /// verifying it over `msg` succeeds and recovers this keypair's
    /// own address.
    pub fn sign(&self, msg: &[u8]) -> (r: Result<Signature, DB3Error>)
        ensures
            r is Ok,
            r matches Ok(sig) ==> sig.scheme == self.kp_spec().scheme_spec(),
            r matches Ok(sig) ==> sig.public_key@ == self.kp_spec().public_key_spec(),
            r matches Ok(sig) ==> sig.signature@ == scheme_signature_of(
                self.kp_spec().scheme_spec(),
                self.kp_spec().secret_spec(),
                msg@,
            ),
            r matches Ok(sig) ==> scheme_accepts(sig.scheme, sig.public_key@, msg@, sig.signature@),
            r matches Ok(sig) ==> address_of_public(sig.scheme, sig.public_key@)
                == address_of_public(
                self.kp_spec().scheme_spec(),
                self.kp_spec().public_key_spec(),
            ),
    {
        let signature = match self.kp.sign(msg) {
            Ok(bytes) => bytes,
            Err(e) => return Err(e),
        };
        let public_key = self.kp.public_key();
        Ok(Signature { scheme: self.kp.scheme(), signature, public_key })
    }
}

} // verus!
