//! Verified core of a blockchain-backed key-value node: the namespaced
//! storage-key codec, the scheme-polymorphic signer and verifier with
//! deterministic key derivation, the storage session that the consensus
//! bridge drives, and the runtime coordinator's startup state machine.

pub mod auth_storage;
pub mod bytes;
pub mod db3_address;
pub mod db3_error;
pub mod db3_keypair;
pub mod db3_signature;
pub mod db3_signer;
pub mod db_key;
pub mod ed25519;
pub mod hash;
pub mod key_derive;
pub mod mutation;
pub mod node_runtime;
pub mod secp256k1;
pub mod signature_scheme;
