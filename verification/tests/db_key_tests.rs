use db3::db3_address::DB3Address;
use db3::db3_error::DB3Error;
use db3::db_key::DbKey;
use db3::key_derive::derive_key_pair_from_path;
use db3::signature_scheme::SignatureScheme;

fn gen_address() -> DB3Address {
    let seed: [u8; 32] = [0; 32];
    let (address, _) =
        derive_key_pair_from_path(&seed[..], None, &SignatureScheme::ED25519).unwrap();
    address
}

#[test]
fn it_key_serde() {
    let addr = gen_address();
    let ns: &str = "ns1";
    let key = DbKey(gen_address(), ns.as_bytes().to_vec());
    let key_encoded = key.encode();
    assert!(key_encoded.is_ok());
    let key_decoded = DbKey::decode(key_encoded.as_ref().unwrap().as_slice());
    assert!(key_decoded.is_ok());
    let key2 = key_decoded.unwrap();
    assert!(key2.0 == addr);
    assert_eq!(key2.1, ns.as_bytes().to_vec());
}

#[test]
fn it_key_serde_cmp() -> Result<(), DB3Error> {
    let addr = gen_address();
    let ns: &str = "ns1";
    let key = DbKey(addr, ns.as_bytes().to_vec());
    let key_encoded1 = key.encode()?;
    let ns: &str = "ns2";
    let key = DbKey(gen_address(), ns.as_bytes().to_vec());
    let key_encoded2 = key.encode()?;
    assert!(key_encoded1.cmp(&key_encoded1) == std::cmp::Ordering::Equal);
    assert!(key_encoded1.cmp(&key_encoded2) == std::cmp::Ordering::Less);
    Ok(())
}

#[test]
fn decode_rejects_short_inputs() {
    // empty input
    assert!(matches!(DbKey::decode(&[]), Err(DB3Error::KeyCodecError)));
    // address-only input
    let addr = gen_address();
    assert!(matches!(
        DbKey::decode(addr.as_bytes().as_slice()),
        Err(DB3Error::KeyCodecError)
    ));
    // exactly address + marker is still too short
    let key = DbKey(gen_address(), Vec::new());
    let encoded = key.encode().unwrap();
    assert_eq!(encoded.len(), 24);
    assert!(matches!(
        DbKey::decode(encoded.as_slice()),
        Err(DB3Error::KeyCodecError)
    ));
    // one namespace byte is enough
    let key = DbKey(gen_address(), vec![7u8]);
    let encoded = key.encode().unwrap();
    assert!(DbKey::decode(encoded.as_slice()).is_ok());
}

#[test]
fn encode_layout_is_exact() {
    let addr = gen_address();
    let ns = vec![1u8, 2u8];
    let key = DbKey(gen_address(), ns.clone());
    let encoded = key.encode().unwrap();
    let mut expected = addr.as_bytes().clone();
    expected.extend_from_slice("_DB_".as_bytes());
    expected.extend_from_slice(&ns);
    assert_eq!(encoded, expected);
}

#[test]
fn decode_does_not_check_marker_bytes() {
    // decode accounts for the marker's length only; any bytes pass there
    let addr = gen_address();
    let mut data = addr.as_bytes().clone();
    data.extend_from_slice(&[9u8, 9u8, 9u8, 9u8]);
    data.extend_from_slice(&[42u8]);
    let key = DbKey::decode(data.as_slice()).unwrap();
    assert!(key.0 == addr);
    assert_eq!(key.1, vec![42u8]);
}

#[test]
fn encoded_key_order_follows_namespace_order() {
    let k1 = DbKey(gen_address(), "a".as_bytes().to_vec()).encode().unwrap();
    let k2 = DbKey(gen_address(), "b".as_bytes().to_vec()).encode().unwrap();
    let k3 = DbKey(gen_address(), "ab".as_bytes().to_vec()).encode().unwrap();
    assert_eq!(k1.cmp(&k2), std::cmp::Ordering::Less);
    assert_eq!(k2.cmp(&k1), std::cmp::Ordering::Greater);
    // a proper prefix of a namespace comes first, as it does for the raw namespaces
    assert_eq!(k1.cmp(&k3), std::cmp::Ordering::Less);
    assert_eq!("a".as_bytes().cmp("b".as_bytes()), std::cmp::Ordering::Less);
    assert_eq!("a".as_bytes().cmp("ab".as_bytes()), std::cmp::Ordering::Less);
}
