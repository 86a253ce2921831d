//! Deterministic derivation of (address, keypair) from a seed, an
//! optional hierarchical path, and a scheme. The same three inputs name
//! the same key material on every machine: the material is a fixed
//! byte layout over the inputs, the secret its digest, and the address
//! the truncated digest of the scheme-tagged public key.

use vstd::prelude::*;

use crate::bytes::push_bytes;
use crate::db3_address::{DB3Address, DB3_ADDRESS_LENGTH};
use crate::db3_error::DB3Error;
use crate::db3_keypair::DB3KeyPair;
use crate::ed25519::ed25519_public_key;
use crate::hash::{sha256, sha256_of};
use crate::secp256k1::secp256k1_public_key;
use crate::signature_scheme::{scheme_public_key_of, scheme_valid_secret, SignatureScheme};

verus! {

/// The byte tagging a scheme inside derivation material and address
/// material.
pub open spec fn scheme_flag(scheme: SignatureScheme) -> u8 {
    match scheme {
        SignatureScheme::ED25519 => 0,
        SignatureScheme::Secp256k1 => 1,
    }
}

/// A path component as four big-endian bytes.
pub open spec fn be32(x: u32) -> Seq<u8> {
    seq![
        ((x >> 24) & 0xff) as u8,
        ((x >> 16) & 0xff) as u8,
        ((x >> 8) & 0xff) as u8,
        (x & 0xff) as u8,
    ]
}

/// The concatenated big-endian encoding of a derivation path.
pub open spec fn path_component_bytes(p: Seq<u32>) -> Seq<u8>
    decreases p.len(),
{
    if p.len() == 0 {
        Seq::empty()
    } else {
        path_component_bytes(p.drop_last()) + be32(p.last())
    }
}

/// How an optional path enters the material: one byte telling a missing
/// path from a present one, then the components.
pub open spec fn path_material(path: Option<Seq<u32>>) -> Seq<u8> {
    match path {
        Option::None => seq![0u8],
        Option::Some(p) => seq![1u8] + path_component_bytes(p),
    }
}

/// The ghost view of an optional exec path.
pub open spec fn path_view(path: Option<Vec<u32>>) -> Option<Seq<u32>> {
    match path {
        Option::None => Option::None,
        Option::Some(v) => Option::Some(v@),
    }
}

/// The bytes hashed into the secret: seed, scheme byte, path bytes.
pub open spec fn derive_material(
    seed: Seq<u8>,
    path: Option<Seq<u32>>,
    scheme: SignatureScheme,
) -> Seq<u8> {
    seed + seq![scheme_flag(scheme)] + path_material(path)
}

/// The 32 secret bytes derived from seed, path and scheme.
pub open spec fn derived_secret(
    seed: Seq<u8>,
    path: Option<Seq<u32>>,
    scheme: SignatureScheme,
) -> Seq<u8> {
    sha256_of(derive_material(seed, path, scheme))
}

/// The public key of the derived keypair.
pub open spec fn derived_public_key(
    seed: Seq<u8>,
    path: Option<Seq<u32>>,
    scheme: SignatureScheme,
) -> Seq<u8> {
    scheme_public_key_of(scheme, derived_secret(seed, path, scheme))
}

/// The address a public key names: the truncated digest of the
/// scheme-tagged public-key bytes.
pub open spec fn address_of_public(scheme: SignatureScheme, public_key: Seq<u8>) -> Seq<u8> {
    sha256_of(seq![scheme_flag(scheme)] + public_key).subrange(0, DB3_ADDRESS_LENGTH as int)
}

/// The address derived from seed, path and scheme.
pub open spec fn derived_address(
    seed: Seq<u8>,
    path: Option<Seq<u32>>,
    scheme: SignatureScheme,
) -> Seq<u8> {
    address_of_public(scheme, derived_public_key(seed, path, scheme))
}

fn scheme_flag_byte(scheme: &SignatureScheme) -> (r: u8)
    ensures
        r == scheme_flag(*scheme),
{
    match scheme {
        SignatureScheme::ED25519 => 0,
        SignatureScheme::Secp256k1 => 1,
    }
}

fn be32_push(out: &mut Vec<u8>, x: u32)
    ensures
        final(out)@ == old(out)@ + be32(x),
{
    out.push(((x >> 24) & 0xff) as u8);
    out.push(((x >> 16) & 0xff) as u8);
    out.push(((x >> 8) & 0xff) as u8);
    out.push((x & 0xff) as u8);
    proof {
        assert(out@ =~= old(out)@ + be32(x));
    }
}

/// The address a public key is known under.
pub fn address_from_public(scheme: &SignatureScheme, public_key: &[u8]) -> (a: DB3Address)
    ensures
        a@ == address_of_public(*scheme, public_key@),
        a.wf(),
{
    let mut material: Vec<u8> = Vec::new();
    material.push(scheme_flag_byte(scheme));
    push_bytes(&mut material, public_key);
    proof {
        assert(material@ =~= seq![scheme_flag(*scheme)] + public_key@);
    }
    let digest = sha256(material.as_slice());
    let mut addr_bytes: Vec<u8> = Vec::new();
    let mut i: usize = 0;
    while i < DB3_ADDRESS_LENGTH
        invariant
            i <= DB3_ADDRESS_LENGTH,
            digest@.len() == 32,
            digest@ == sha256_of(seq![scheme_flag(*scheme)] + public_key@),
            addr_bytes@ == digest@.subrange(0, i as int),
        decreases DB3_ADDRESS_LENGTH - i,
    {
        addr_bytes.push(digest[i]);
        i += 1;
        proof {
            assert(digest@.subrange(0, i as int) =~= digest@.subrange(0, i - 1).push(
                digest@[i - 1],
            ));
        }
    }
    DB3Address::from_vec(addr_bytes)
}

/// Deterministically derive the address and keypair for a seed, an
/// optional path, and a scheme. Succeeds always for Ed25519; for
/// Secp256k1 exactly when the derived secret is a valid scalar, and
/// fails with a derivation error otherwise.
pub fn derive_key_pair_from_path(
    seed: &[u8],
    path: Option<Vec<u32>>,
    scheme: &SignatureScheme,
) -> (r: Result<(DB3Address, DB3KeyPair), DB3Error>)
    requires
        seed@.len() == 32,
    ensures
        r is Ok <==> scheme_valid_secret(*scheme, derived_secret(seed@, path_view(path), *scheme)),
        r matches Ok(out) ==> out.0@ == derived_address(seed@, path_view(path), *scheme),
        r matches Ok(out) ==> out.0.wf(),
        r matches Ok(out) ==> out.1.scheme_spec() == *scheme,
        r matches Ok(out) ==> out.1.secret_spec() == derived_secret(
            seed@,
            path_view(path),
            *scheme,
        ),
        *scheme is ED25519 ==> r is Ok,
        r matches Err(e) ==> e == DB3Error::KeyDerivationError,
{
    let mut material: Vec<u8> = Vec::new();
    push_bytes(&mut material, seed);
    material.push(scheme_flag_byte(scheme));
    match &path {
        Option::None => {
            material.push(0);
            proof {
                assert(material@ =~= derive_material(seed@, path_view(path), *scheme));
            }
        },
        Option::Some(p) => {
            material.push(1);
            let ghost prefix = seed@ + seq![scheme_flag(*scheme)] + seq![1u8];
            proof {
                assert(material@ =~= prefix);
            }
            let n = p.len();
            let mut i: usize = 0;
            while i < n
                invariant
                    i <= n,
                    n == p@.len(),
                    material@ == prefix + path_component_bytes(p@.take(i as int)),
                decreases n - i,
            {
                be32_push(&mut material, p[i]);
                i += 1;
                proof {
                    assert(p@.take(i as int).drop_last() =~= p@.take(i - 1));
                    assert(p@.take(i as int).last() == p@[i - 1]);
                }
            }
            proof {
                assert(p@.take(n as int) =~= p@);
                assert(prefix + path_component_bytes(p@) =~= derive_material(
                    seed@,
                    path_view(path),
                    *scheme,
                ));
            }
        },
    }
    let secret = sha256(material.as_slice());
    match scheme {
        SignatureScheme::ED25519 => {
            let pk = ed25519_public_key(secret.as_slice());
            let addr = address_from_public(scheme, pk.as_slice());
            let kp = DB3KeyPair::from_parts(SignatureScheme::ED25519, secret);
            Ok((addr, kp))
        },
        SignatureScheme::Secp256k1 => {
            match secp256k1_public_key(secret.as_slice()) {
                Some(pk) => {
                    let addr = address_from_public(scheme, pk.as_slice());
                    let kp = DB3KeyPair::from_parts(SignatureScheme::Secp256k1, secret);
                    Ok((addr, kp))
                },
                Option::None => Err(DB3Error::KeyDerivationError),
            }
        },
    }
}

/// Derivation is a function of its three inputs: equal seeds, paths and
/// schemes name equal secrets, public keys and addresses, on every
/// machine and in every run.
pub proof fn lemma_derivation_deterministic(
    seed1: Seq<u8>,
    path1: Option<Seq<u32>>,
    scheme1: SignatureScheme,
    seed2: Seq<u8>,
    path2: Option<Seq<u32>>,
    scheme2: SignatureScheme,
)
    requires
        seed1 == seed2,
        path1 == path2,
        scheme1 == scheme2,
    ensures
        derived_secret(seed1, path1, scheme1) == derived_secret(seed2, path2, scheme2),
        derived_public_key(seed1, path1, scheme1) == derived_public_key(seed2, path2, scheme2),
        derived_address(seed1, path1, scheme1) == derived_address(seed2, path2, scheme2),
{
}

/// Distinct schemes never hash the same key material: over one seed and
/// one path, the material differs at the scheme byte. The addresses
/// themselves are digests, so their distinctness rests on the hash and
/// is checked by test, not proved.
pub proof fn lemma_schemes_separate_material(
    seed: Seq<u8>,
    path: Option<Seq<u32>>,
    s1: SignatureScheme,
    s2: SignatureScheme,
)
    requires
        seed.len() == 32,
        s1 != s2,
    ensures
        derive_material(seed, path, s1) != derive_material(seed, path, s2),
{
    assert(derive_material(seed, path, s1)[32] == scheme_flag(s1));
    assert(derive_material(seed, path, s2)[32] == scheme_flag(s2));
}

} // verus!
