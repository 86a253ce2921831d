//! The failure taxonomy of the node core. Codec and signature failures are
//! recoverable and cross the endpoint boundary as values; a bind failure is
//! fatal at startup; a poisoned storage guard is fatal while serving.

use vstd::prelude::*;

verus! {

#[derive(Clone, Copy, Debug, PartialEq, Eq, Structural)]
pub enum DB3Error {
    /// A malformed encoded storage key.
    KeyCodecError,
    /// The signing primitive failed; no partial signature is returned.
    SignMessageError,
    /// A signature that does not validate over the presented bytes.
    VerifyMessageError,
    /// Key derivation could not build usable key material from the seed.
    KeyDerivationError,
    /// A startup-time network or resource bind failed; the node must not serve.
    BindError,
    /// A prior panic while the shared storage guard was held; the node must stop.
    GuardPoisonError,
}

} // verus!
