use db3::auth_storage::AuthStorage;
use db3::db3_error::DB3Error;
use db3::node_runtime::fatal_error;
use db3::db_key::DbKey;
use db3::key_derive::derive_key_pair_from_path;
use db3::db3_signer::Db3MultiSchemeSigner;
use db3::mutation::{ChainId, ChainRole, KvPair, Mutation, MutationAction};
use db3::node_runtime::{
    deliver_mutation, NodeAction, NodeEvent, NodeRuntime, RuntimePhase,
};
use db3::signature_scheme::SignatureScheme;

fn mutation_for(ns: &str, key: &str, value: &str, action: MutationAction, nonce: u64) -> Mutation {
    Mutation {
        ns: ns.as_bytes().to_vec(),
        kv_pairs: vec![KvPair {
            key: key.as_bytes().to_vec(),
            value: value.as_bytes().to_vec(),
            action,
        }],
        nonce,
        chain_id: ChainId::MainNet,
        chain_role: ChainRole::StorageShardChain,
        gas_price: None,
        gas: 10,
    }
}

fn storage_key(addr: &db3::db3_address::DB3Address, ns: &str, key: &str) -> Vec<u8> {
    let mut k = db3::db_key::encode_parts(addr, ns.as_bytes());
    k.extend_from_slice(key.as_bytes());
    k
}

#[test]
fn serialize_layout_is_exact() {
    let m = Mutation {
        ns: vec![9u8],
        kv_pairs: Vec::new(),
        nonce: 1,
        chain_id: ChainId::MainNet,
        chain_role: ChainRole::SettlementChain,
        gas_price: None,
        gas: 2,
    };
    let expected: Vec<u8> = vec![
        0, 0, 0, 0, 0, 0, 0, 1, // nonce
        0, // chain id tag
        0, // chain role tag
        0, // no gas price
        0, 0, 0, 0, 0, 0, 0, 2, // gas
        0, 0, 0, 0, 0, 0, 0, 1, // namespace length
        9, // namespace
        0, 0, 0, 0, 0, 0, 0, 0, // no pairs
    ];
    assert_eq!(m.serialize(), expected);
}

#[test]
fn serialize_is_deterministic_and_field_sensitive() {
    let m1 = mutation_for("ns", "k", "v", MutationAction::InsertKv, 1);
    let m2 = mutation_for("ns", "k", "v", MutationAction::InsertKv, 1);
    assert_eq!(m1.serialize(), m2.serialize());
    let m3 = mutation_for("ns", "k", "v", MutationAction::InsertKv, 2);
    assert_ne!(m1.serialize(), m3.serialize());
    let m4 = mutation_for("ns", "k", "v", MutationAction::DeleteKv, 1);
    assert_ne!(m1.serialize(), m4.serialize());
}

#[test]
fn reads_see_a_mutation_all_or_nothing() {
    let seed: [u8; 32] = [0; 32];
    let (addr, kp) =
        derive_key_pair_from_path(&seed[..], None, &SignatureScheme::ED25519).unwrap();
    let signer = Db3MultiSchemeSigner::new(kp);
    let mut store = AuthStorage::new();
    let k1 = storage_key(&addr, "ns", "k1");

    // first block: insert k1 = old
    let m1 = mutation_for("ns", "k1", "old", MutationAction::InsertKv, 1);
    let sig1 = signer.sign(m1.serialize().as_slice()).unwrap();
    let acting = deliver_mutation(&mut store, &sig1, &m1).unwrap();
    assert!(acting == addr);
    // staged but not committed: a reader sees nothing yet
    assert_eq!(store.get(k1.as_slice()), None);
    store.commit();
    assert_eq!(store.get(k1.as_slice()), Some("old".as_bytes().to_vec()));

    // second block: overwrite k1; the reader sees the old value for as
    // long as the block is open, then the new one, never anything else
    let m2 = mutation_for("ns", "k1", "new", MutationAction::InsertKv, 2);
    let sig2 = signer.sign(m2.serialize().as_slice()).unwrap();
    deliver_mutation(&mut store, &sig2, &m2).unwrap();
    assert_eq!(store.get(k1.as_slice()), Some("old".as_bytes().to_vec()));
    store.commit();
    assert_eq!(store.get(k1.as_slice()), Some("new".as_bytes().to_vec()));

    // third block: delete k1
    let m3 = mutation_for("ns", "k1", "", MutationAction::DeleteKv, 3);
    let sig3 = signer.sign(m3.serialize().as_slice()).unwrap();
    deliver_mutation(&mut store, &sig3, &m3).unwrap();
    assert_eq!(store.get(k1.as_slice()), Some("new".as_bytes().to_vec()));
    store.commit();
    assert_eq!(store.get(k1.as_slice()), None);
}

#[test]
fn deliver_rejects_an_unverifiable_mutation() {
    let seed: [u8; 32] = [3; 32];
    let (_, kp) =
        derive_key_pair_from_path(&seed[..], None, &SignatureScheme::ED25519).unwrap();
    let signer = Db3MultiSchemeSigner::new(kp);
    let mut store = AuthStorage::new();
    let m1 = mutation_for("ns", "k1", "v1", MutationAction::InsertKv, 1);
    // a signature over different bytes must be rejected at deliver
    let m_other = mutation_for("ns", "k1", "v2", MutationAction::InsertKv, 1);
    let sig = signer.sign(m_other.serialize().as_slice()).unwrap();
    assert!(deliver_mutation(&mut store, &sig, &m1).is_err());
    store.commit();
    let (addr, _) =
        derive_key_pair_from_path(&seed[..], None, &SignatureScheme::ED25519).unwrap();
    let k1 = storage_key(&addr, "ns", "k1");
    assert_eq!(store.get(k1.as_slice()), None);
}

#[test]
fn startup_happy_path_reaches_serving() {
    let mut rt = NodeRuntime::new();
    assert_eq!(rt.phase, RuntimePhase::Initializing);
    assert_eq!(rt.step(NodeEvent::StorageOpened), NodeAction::StartAbci);
    assert_eq!(rt.step(NodeEvent::AbciStarted), NodeAction::StartJsonRpc);
    assert_eq!(rt.step(NodeEvent::JsonRpcStarted), NodeAction::StartGrpc);
    assert_eq!(rt.step(NodeEvent::GrpcStarted), NodeAction::Serve);
    assert_eq!(rt.phase, RuntimePhase::Serving);
}

#[test]
fn any_startup_failure_is_fatal() {
    let mut rt = NodeRuntime::new();
    assert_eq!(rt.step(NodeEvent::StorageOpened), NodeAction::StartAbci);
    assert_eq!(rt.step(NodeEvent::AbciBindFailed), NodeAction::Abort);
    assert_eq!(rt.phase, RuntimePhase::Terminated);
    // nothing that happens later ever brings the node into Serving
    assert_eq!(rt.step(NodeEvent::JsonRpcStarted), NodeAction::Abort);
    assert_eq!(rt.step(NodeEvent::GrpcStarted), NodeAction::Abort);
    assert_eq!(rt.phase, RuntimePhase::Terminated);
}

#[test]
fn fatal_events_name_their_errors() {
    assert_eq!(fatal_error(NodeEvent::StorageOpenFailed), Some(DB3Error::BindError));
    assert_eq!(fatal_error(NodeEvent::AbciBindFailed), Some(DB3Error::BindError));
    assert_eq!(fatal_error(NodeEvent::JsonRpcBindFailed), Some(DB3Error::BindError));
    assert_eq!(fatal_error(NodeEvent::GrpcBindFailed), Some(DB3Error::BindError));
    assert_eq!(fatal_error(NodeEvent::GuardPoisoned), Some(DB3Error::GuardPoisonError));
    assert_eq!(fatal_error(NodeEvent::GrpcStopped), None);
    assert_eq!(fatal_error(NodeEvent::StorageOpened), None);
}

#[test]
fn guard_poisoning_terminates_a_serving_node() {
    let mut rt = NodeRuntime::new();
    rt.step(NodeEvent::StorageOpened);
    rt.step(NodeEvent::AbciStarted);
    rt.step(NodeEvent::JsonRpcStarted);
    rt.step(NodeEvent::GrpcStarted);
    assert_eq!(rt.phase, RuntimePhase::Serving);
    assert_eq!(rt.step(NodeEvent::GuardPoisoned), NodeAction::Abort);
    assert_eq!(rt.phase, RuntimePhase::Terminated);
}

#[test]
fn end_to_end_ed25519() {
    // seed = 32 zero bytes, scheme = Ed25519
    let seed: [u8; 32] = [0; 32];
    let (address, keypair) =
        derive_key_pair_from_path(&seed[..], None, &SignatureScheme::ED25519).unwrap();
    // build and serialize the mutation
    let mutation = mutation_for("my_twitter", "k1", "value1", MutationAction::InsertKv, 1);
    let serialized = mutation.serialize();
    // sign, then verify recovers the derived address
    let signer = Db3MultiSchemeSigner::new(keypair);
    let signature = signer.sign(serialized.as_slice()).unwrap();
    let recovered = signature.verify(serialized.as_slice()).unwrap();
    assert!(recovered == address);
    // encode then decode recovers (address, namespace)
    let encoded = DbKey(recovered, "my_twitter".as_bytes().to_vec())
        .encode()
        .unwrap();
    let decoded = DbKey::decode(encoded.as_slice()).unwrap();
    assert!(decoded.0 == address);
    assert_eq!(decoded.1, "my_twitter".as_bytes().to_vec());
}

#[test]
fn end_to_end_secp256k1_differs_from_ed25519() {
    let seed: [u8; 32] = [0; 32];
    let (address_ed, _) =
        derive_key_pair_from_path(&seed[..], None, &SignatureScheme::ED25519).unwrap();
    let (address_secp, keypair) =
        derive_key_pair_from_path(&seed[..], None, &SignatureScheme::Secp256k1).unwrap();
    assert!(!(address_secp == address_ed));
    let mutation = mutation_for("my_twitter", "k1", "value1", MutationAction::InsertKv, 1);
    let serialized = mutation.serialize();
    let signer = Db3MultiSchemeSigner::new(keypair);
    let signature = signer.sign(serialized.as_slice()).unwrap();
    let recovered = signature.verify(serialized.as_slice()).unwrap();
    assert!(recovered == address_secp);
}
