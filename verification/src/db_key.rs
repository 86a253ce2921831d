//! The namespaced storage-key codec. An encoded key is the account
//! address, a fixed namespace marker, and the namespace bytes, in that
//! order; the encoded form defines both the on-disk layout and the scan
//! order. Decoding accounts for the marker's length only and does not
//! check that the marker bytes equal the constant, exactly as the
//! permissive design leaves it.

use vstd::prelude::*;

use crate::bytes::push_bytes;
use crate::db3_address::{DB3Address, DB3_ADDRESS_LENGTH};
use crate::db3_error::DB3Error;

verus! {

pub const NS_MARKER_LENGTH: usize = 4;

/// The marker standing between the address and the namespace: the bytes
/// of the string `"_DB_"`.
pub open spec fn ns_marker() -> Seq<u8> {
    seq![95u8, 68u8, 66u8, 95u8]
}

/// The encoded form of a storage key.
pub open spec fn encoded_key(addr: Seq<u8>, ns: Seq<u8>) -> Seq<u8> {
    addr + ns_marker() + ns
}

/// What decoding recovers from raw bytes: nothing when the input is no
/// longer than address plus marker, else the leading address bytes and
/// everything after the marker's position as the namespace.
pub open spec fn decoded_key(data: Seq<u8>) -> Option<(Seq<u8>, Seq<u8>)> {
    if data.len() <= DB3_ADDRESS_LENGTH + NS_MARKER_LENGTH {
        None
    } else {
        Some(
            (
                data.subrange(0, DB3_ADDRESS_LENGTH as int),
                data.skip((DB3_ADDRESS_LENGTH + NS_MARKER_LENGTH) as int),
            ),
        )
    }
}

fn marker_bytes() -> (r: Vec<u8>)
    ensures
        r@ == ns_marker(),
{
    let mut v: Vec<u8> = Vec::new();
    v.push(95);
    v.push(68);
    v.push(66);
    v.push(95);
    proof {
        assert(v@ =~= ns_marker());
    }
    v
}

/// A storage key: account address and namespace bytes.
pub struct DbKey(pub DB3Address, pub Vec<u8>);

impl DbKey {
    /// Encode the key: address bytes, then the namespace marker, then the
    /// namespace bytes. Encoding never fails.
    pub fn encode(&self) -> (r: Result<Vec<u8>, DB3Error>)
        ensures
            r is Ok,
            r->Ok_0@ == encoded_key(self.0@, self.1@),
    {
        Ok(encode_parts(&self.0, self.1.as_slice()))
    }

    /// Decode a key from raw bytes. Fails with a codec error exactly when
    /// the input is no longer than address plus marker; otherwise the
    /// leading bytes become the address and everything after the marker's
    /// position becomes the namespace, with no check of the marker bytes
    /// themselves.
    pub fn decode(data: &[u8]) -> (r: Result<DbKey, DB3Error>)
        ensures
            r is Ok <==> decoded_key(data@) is Some,
            r is Ok ==> r->Ok_0.0@ == decoded_key(data@)->Some_0.0,
            r is Ok ==> r->Ok_0.1@ == decoded_key(data@)->Some_0.1,
            r is Ok ==> r->Ok_0.0.wf(),
            r is Err ==> r->Err_0 == DB3Error::KeyCodecError,
    {
        if data.len() <= DB3_ADDRESS_LENGTH + NS_MARKER_LENGTH {
            return Err(DB3Error::KeyCodecError);
        }
        let mut addr_bytes: Vec<u8> = Vec::new();
        let mut i: usize = 0;
        while i < DB3_ADDRESS_LENGTH
            invariant
                i <= DB3_ADDRESS_LENGTH,
                data@.len() > DB3_ADDRESS_LENGTH + NS_MARKER_LENGTH,
                addr_bytes@ == data@.subrange(0, i as int),
            decreases DB3_ADDRESS_LENGTH - i,
        {
            addr_bytes.push(data[i]);
            i += 1;
            proof {
                assert(data@.subrange(0, i as int) =~= data@.subrange(0, i - 1).push(
                    data@[i - 1],
                ));
            }
        }
        let mut ns: Vec<u8> = Vec::new();
        let mut j: usize = DB3_ADDRESS_LENGTH + NS_MARKER_LENGTH;
        while j < data.len()
            invariant
                DB3_ADDRESS_LENGTH + NS_MARKER_LENGTH <= j <= data@.len(),
                ns@ == data@.subrange((DB3_ADDRESS_LENGTH + NS_MARKER_LENGTH) as int, j as int),
            decreases data@.len() - j,
        {
            ns.push(data[j]);
            j += 1;
            proof {
                assert(data@.subrange((DB3_ADDRESS_LENGTH + NS_MARKER_LENGTH) as int, j as int)
                    =~= data@.subrange(
                    (DB3_ADDRESS_LENGTH + NS_MARKER_LENGTH) as int,
                    j - 1,
                ).push(data@[j - 1]));
            }
        }
        proof {
            assert(ns@ =~= data@.skip((DB3_ADDRESS_LENGTH + NS_MARKER_LENGTH) as int));
        }
        let addr = DB3Address::from_vec(addr_bytes);
        Ok(DbKey(addr, ns))
    }
}

/// Encode a key from its two parts; `DbKey::encode` and the storage
/// session both build keys through this.
pub fn encode_parts(addr: &DB3Address, ns: &[u8]) -> (r: Vec<u8>)
    ensures
        r@ == encoded_key(addr@, ns@),
{
    let mut out: Vec<u8> = Vec::new();
    push_bytes(&mut out, addr.as_bytes().as_slice());
    let marker = marker_bytes();
    push_bytes(&mut out, marker.as_slice());
    push_bytes(&mut out, ns);
    proof {
        assert(Seq::<u8>::empty() + addr@ =~= addr@);
        assert(addr@ + ns_marker() + ns@ =~= encoded_key(addr@, ns@));
    }
    out
}

/// Decoding inverts encoding: for every well-formed address and every
/// namespace that is not empty, decoding the encoded key recovers exactly
/// the address and the namespace. An empty namespace is the one input on
/// which this fails, because the encoded key is then no longer than
/// address plus marker and decoding rejects it.
pub proof fn lemma_key_codec_round_trip(addr: Seq<u8>, ns: Seq<u8>)
    requires
        addr.len() == DB3_ADDRESS_LENGTH,
        ns.len() > 0,
    ensures
        decoded_key(encoded_key(addr, ns)) == Some((addr, ns)),
{
    let e = encoded_key(addr, ns);
    assert(e.subrange(0, DB3_ADDRESS_LENGTH as int) =~= addr);
    assert(e.skip((DB3_ADDRESS_LENGTH + NS_MARKER_LENGTH) as int) =~= ns);
}

/// Byte-lexicographic strict order, the order in which encoded keys are
/// laid out and scanned: a proper prefix comes first, and otherwise the
/// first differing byte decides.
pub open spec fn lex_less(a: Seq<u8>, b: Seq<u8>) -> bool
    decreases a.len(),
{
    if b.len() == 0 {
        false
    } else if a.len() == 0 {
        true
    } else if a[0] < b[0] {
        true
    } else if a[0] > b[0] {
        false
    } else {
        lex_less(a.drop_first(), b.drop_first())
    }
}

/// A shared prefix neither makes nor breaks the order: comparing two byte
/// strings under a common prefix compares their remainders.
pub proof fn lemma_lex_common_prefix(p: Seq<u8>, a: Seq<u8>, b: Seq<u8>)
    ensures
        lex_less(p + a, p + b) == lex_less(a, b),
    decreases p.len(),
{
    if p.len() == 0 {
        assert(p + a =~= a);
        assert(p + b =~= b);
    } else {
        assert((p + a).len() > 0 && (p + b).len() > 0);
        assert((p + a)[0] == p[0] && (p + b)[0] == p[0]);
        assert((p + a).drop_first() =~= p.drop_first() + a);
        assert((p + b).drop_first() =~= p.drop_first() + b);
        lemma_lex_common_prefix(p.drop_first(), a, b);
    }
}

/// For one address, the order of two encoded keys is exactly the byte
/// order of their namespaces, and two encoded keys are equal exactly when
/// the namespaces are; this is what makes ordered range scans per account
/// work.
pub proof fn lemma_encoded_key_order(addr: Seq<u8>, ns1: Seq<u8>, ns2: Seq<u8>)
    ensures
        lex_less(encoded_key(addr, ns1), encoded_key(addr, ns2)) == lex_less(ns1, ns2),
        (encoded_key(addr, ns1) == encoded_key(addr, ns2)) == (ns1 == ns2),
{
    let p = addr + ns_marker();
    assert(encoded_key(addr, ns1) =~= p + ns1);
    assert(encoded_key(addr, ns2) =~= p + ns2);
    lemma_lex_common_prefix(p, ns1, ns2);
    if p + ns1 == p + ns2 {
        assert(ns1 =~= ns2) by {
            assert(forall|k: int|
                0 <= k < ns1.len() ==> ns1[k] == (p + ns1)[p.len() + k] && ns2[k] == (p + ns2)[
                    p.len() + k
                ]);
        }
    }
}

} // verus!
