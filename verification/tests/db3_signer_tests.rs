use db3::db3_signature::Signature;
use db3::db3_signer::Db3MultiSchemeSigner;
use db3::key_derive::derive_key_pair_from_path;
use db3::mutation::{ChainId, ChainRole, KvPair, Mutation, MutationAction};
use db3::signature_scheme::SignatureScheme;

fn sample_mutation() -> Mutation {
    let kv = KvPair {
        key: "k1".as_bytes().to_vec(),
        value: "value1".as_bytes().to_vec(),
        action: MutationAction::InsertKv,
    };
    Mutation {
        ns: "my_twitter".as_bytes().to_vec(),
        kv_pairs: vec![kv],
        nonce: 1,
        chain_id: ChainId::MainNet,
        chain_role: ChainRole::StorageShardChain,
        gas_price: None,
        gas: 10,
    }
}

fn db3_signer_smoke_test(scheme: &SignatureScheme) {
    let mutation = sample_mutation();
    let buf = mutation.serialize();
    let seed: [u8; 32] = [0; 32];
    let (address, keypair) = derive_key_pair_from_path(&seed[..], None, scheme).unwrap();
    let signer = Db3MultiSchemeSigner::new(keypair);
    let signature_ret = signer.sign(buf.as_slice());
    assert_eq!(true, signature_ret.is_ok());
    let signature = signature_ret.unwrap();
    let result = signature.verify(buf.as_slice());
    assert_eq!(true, result.is_ok());
    assert!(address == result.unwrap());
}

#[test]
fn db3_signer_ed25519_smoke_test() {
    db3_signer_smoke_test(&SignatureScheme::ED25519);
}

#[test]
fn db3_signer_secp256k1_smoke_test() {
    db3_signer_smoke_test(&SignatureScheme::Secp256k1);
}

fn verify_rejects_wrong_message(scheme: &SignatureScheme) {
    let seed: [u8; 32] = [7; 32];
    let (_, keypair) = derive_key_pair_from_path(&seed[..], None, scheme).unwrap();
    let signer = Db3MultiSchemeSigner::new(keypair);
    let msg = b"the exact signed bytes";
    let signature = signer.sign(&msg[..]).unwrap();
    assert!(signature.verify(&msg[..]).is_ok());
    let other = b"the exact signed byteS";
    assert!(signature.verify(&other[..]).is_err());
    assert!(signature.verify(&[]).is_err());
}

#[test]
fn verify_rejects_wrong_message_ed25519() {
    verify_rejects_wrong_message(&SignatureScheme::ED25519);
}

#[test]
fn verify_rejects_wrong_message_secp256k1() {
    verify_rejects_wrong_message(&SignatureScheme::Secp256k1);
}

#[test]
fn verify_rejects_wrong_scheme_and_corruption() {
    let seed: [u8; 32] = [1; 32];
    let (_, keypair) =
        derive_key_pair_from_path(&seed[..], None, &SignatureScheme::ED25519).unwrap();
    let signer = Db3MultiSchemeSigner::new(keypair);
    let msg = b"payload";
    let good = signer.sign(&msg[..]).unwrap();

    // same bytes under the wrong scheme tag must not validate
    let wrong_scheme = Signature {
        scheme: SignatureScheme::Secp256k1,
        signature: good.signature.clone(),
        public_key: good.public_key.clone(),
    };
    assert!(wrong_scheme.verify(&msg[..]).is_err());

    // a corrupted signature byte must not validate
    let mut corrupted_sig = good.signature.clone();
    corrupted_sig[0] ^= 0xff;
    let corrupted = Signature {
        scheme: SignatureScheme::ED25519,
        signature: corrupted_sig,
        public_key: good.public_key.clone(),
    };
    assert!(corrupted.verify(&msg[..]).is_err());

    // unparsable public-key bytes must not validate
    let bad_pk = Signature {
        scheme: SignatureScheme::ED25519,
        signature: good.signature.clone(),
        public_key: vec![3u8; 5],
    };
    assert!(bad_pk.verify(&msg[..]).is_err());
}

#[test]
fn signature_is_not_the_message_and_address_is_hashed() {
    let seed: [u8; 32] = [2; 32];
    let (address, keypair) =
        derive_key_pair_from_path(&seed[..], None, &SignatureScheme::ED25519).unwrap();
    let signer = Db3MultiSchemeSigner::new(keypair);
    let msg = vec![5u8; 64];
    let signature = signer.sign(msg.as_slice()).unwrap();
    // a real signature: fixed width, not an echo of the message
    assert_eq!(signature.signature.len(), 64);
    assert_ne!(signature.signature, msg);
    assert_eq!(signature.public_key.len(), 32);
    // a real digest behind the address: were the hash an echo of its
    // input, the address would be the tagged public key's first bytes
    let mut tagged = vec![0u8];
    tagged.extend_from_slice(&signature.public_key);
    assert_ne!(address.as_bytes().as_slice(), &tagged[..20]);
}

#[test]
fn signing_is_deterministic_for_both_schemes() {
    for scheme in [SignatureScheme::ED25519, SignatureScheme::Secp256k1] {
        let seed: [u8; 32] = [9; 32];
        let (_, kp1) = derive_key_pair_from_path(&seed[..], None, &scheme).unwrap();
        let (_, kp2) = derive_key_pair_from_path(&seed[..], None, &scheme).unwrap();
        let msg = b"same message";
        let s1 = Db3MultiSchemeSigner::new(kp1).sign(&msg[..]).unwrap();
        let s2 = Db3MultiSchemeSigner::new(kp2).sign(&msg[..]).unwrap();
        assert_eq!(s1.signature, s2.signature);
        assert_eq!(s1.public_key, s2.public_key);
    }
}

#[test]
fn derivation_is_deterministic_and_schemes_differ() {
    let seed: [u8; 32] = [0; 32];
    let (a1, _) =
        derive_key_pair_from_path(&seed[..], None, &SignatureScheme::ED25519).unwrap();
    let (a2, _) =
        derive_key_pair_from_path(&seed[..], None, &SignatureScheme::ED25519).unwrap();
    assert!(a1 == a2);
    let (b1, _) =
        derive_key_pair_from_path(&seed[..], Some(vec![44, 0, 1]), &SignatureScheme::ED25519)
            .unwrap();
    let (b2, _) =
        derive_key_pair_from_path(&seed[..], Some(vec![44, 0, 1]), &SignatureScheme::ED25519)
            .unwrap();
    assert!(b1 == b2);
    // a different path names different key material
    assert!(!(a1 == b1));
    // the same seed under the other scheme names a different address
    let (c1, _) =
        derive_key_pair_from_path(&seed[..], None, &SignatureScheme::Secp256k1).unwrap();
    assert!(!(a1 == c1));
}
