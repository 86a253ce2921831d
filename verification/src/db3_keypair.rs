//! Scheme-polymorphic signing key material. A keypair owns 32 bytes of
//! secret material valid under its scheme, and exposes a signing
//! capability and the derived public key, never the raw secret.

use vstd::prelude::*;

use crate::db3_error::DB3Error;
use crate::ed25519::{ed25519_public_key, ed25519_sign};
use crate::secp256k1::{secp256k1_public_key, secp256k1_sign};
use crate::signature_scheme::{
    scheme_accepts, scheme_public_key_of, scheme_signature_of, scheme_valid_secret,
    SignatureScheme,
};

verus! {

pub struct DB3KeyPair {
    scheme: SignatureScheme,
    secret: Vec<u8>,
}

impl DB3KeyPair {
    /// Every keypair in existence carries 32 secret bytes that its
    /// scheme accepts; constructors establish this and nothing breaks it.
    #[verifier::type_invariant]
    spec fn type_wf(self) -> bool {
        &&& self.secret@.len() == 32
        &&& scheme_valid_secret(self.scheme, self.secret@)
    }

    pub closed spec fn scheme_spec(&self) -> SignatureScheme {
        self.scheme
    }

    pub closed spec fn secret_spec(&self) -> Seq<u8> {
        self.secret@
    }

    /// The public key this keypair's scheme derives from its secret.
    pub open spec fn public_key_spec(&self) -> Seq<u8> {
        scheme_public_key_of(self.scheme_spec(), self.secret_spec())
    }

    pub(crate) fn from_parts(scheme: SignatureScheme, secret: Vec<u8>) -> (kp: DB3KeyPair)
        requires
            secret@.len() == 32,
            scheme_valid_secret(scheme, secret@),
        ensures
            kp.scheme_spec() == scheme,
            kp.secret_spec() == secret@,
    {
        DB3KeyPair { scheme, secret }
    }

    /// The scheme this keypair signs under.
    pub fn scheme(&self) -> (s: SignatureScheme)
        ensures
            s == self.scheme_spec(),
    {
        self.scheme
    }

    /// The public key bytes: 32 for Ed25519, 33 (compressed) for
    /// Secp256k1.
    pub fn public_key(&self) -> (r: Vec<u8>)
        ensures
            r@ == self.public_key_spec(),
    {
        proof {
            use_type_invariant(&*self);
        }
        match self.scheme {
            SignatureScheme::ED25519 => ed25519_public_key(self.secret.as_slice()),
            SignatureScheme::Secp256k1 => {
                match secp256k1_public_key(self.secret.as_slice()) {
                    Some(pk) => pk,
                    None => {
                        proof {
                            assert(false);
                        }
                        Vec::new()
                    },
                }
            },
        }
    }

    /// Sign a message byte-for-byte under this keypair's scheme. Both
    /// primitives are deterministic and total on the valid secret every
    /// keypair carries, so signing always succeeds: the result is the
    /// scheme's signature over exactly these bytes, and the scheme's
    /// verifier accepts it under this keypair's public key.
    pub fn sign(&self, msg: &[u8]) -> (r: Result<Vec<u8>, DB3Error>)
        ensures
            r is Ok,
            r matches Ok(sig) ==> sig@ == scheme_signature_of(
                self.scheme_spec(),
                self.secret_spec(),
                msg@,
            ),
            r is Ok ==> scheme_accepts(
                self.scheme_spec(),
                self.public_key_spec(),
                msg@,
                scheme_signature_of(self.scheme_spec(), self.secret_spec(), msg@),
            ),
            r matches Ok(sig) ==> sig@.len() == 64,
    {
        proof {
            use_type_invariant(&*self);
        }
        match self.scheme {
            SignatureScheme::ED25519 => Ok(ed25519_sign(self.secret.as_slice(), msg)),
            SignatureScheme::Secp256k1 => {
                match secp256k1_sign(self.secret.as_slice(), msg) {
                    Some(sig) => Ok(sig),
                    None => {
                        proof {
                            assert(false);
                        }
                        Err(DB3Error::SignMessageError)
                    },
                }
            },
        }
    }
}

} // verus!
