//! The mutation a client signs and the consensus bridge applies: a
//! namespace, key-value actions and fee fields. To the signer the
//! serialized form is an opaque byte payload; here it is pinned down
//! exactly, so that what gets signed is a function of the mutation
//! alone.

use vstd::prelude::*;

use crate::bytes::push_bytes;

verus! {

#[derive(Clone, Copy, Debug, PartialEq, Eq, Structural)]
pub enum MutationAction {
    InsertKv,
    DeleteKv,
}

#[derive(Clone, Copy, Debug, PartialEq, Eq, Structural)]
pub enum ChainId {
    MainNet,
    TestNet,
    DevNet,
}

#[derive(Clone, Copy, Debug, PartialEq, Eq, Structural)]
pub enum ChainRole {
    SettlementChain,
    StorageShardChain,
}

pub struct KvPair {
    pub key: Vec<u8>,
    pub value: Vec<u8>,
    pub action: MutationAction,
}

pub struct Mutation {
    pub ns: Vec<u8>,
    pub kv_pairs: Vec<KvPair>,
    pub nonce: u64,
    pub chain_id: ChainId,
    pub chain_role: ChainRole,
    pub gas_price: Option<u64>,
    pub gas: u64,
}

/// A 64-bit quantity as eight big-endian bytes.
pub open spec fn be64(x: u64) -> Seq<u8> {
    seq![
        ((x >> 56) & 0xff) as u8,
        ((x >> 48) & 0xff) as u8,
        ((x >> 40) & 0xff) as u8,
        ((x >> 32) & 0xff) as u8,
        ((x >> 24) & 0xff) as u8,
        ((x >> 16) & 0xff) as u8,
        ((x >> 8) & 0xff) as u8,
        (x & 0xff) as u8,
    ]
}

pub open spec fn action_tag(a: MutationAction) -> u8 {
    match a {
        MutationAction::InsertKv => 0,
        MutationAction::DeleteKv => 1,
    }
}

pub open spec fn chain_id_tag(c: ChainId) -> u8 {
    match c {
        ChainId::MainNet => 0,
        ChainId::TestNet => 1,
        ChainId::DevNet => 2,
    }
}

pub open spec fn chain_role_tag(c: ChainRole) -> u8 {
    match c {
        ChainRole::SettlementChain => 0,
        ChainRole::StorageShardChain => 1,
    }
}

/// An optional gas price: one byte telling absent from present, then
/// the price.
pub open spec fn gas_price_bytes(g: Option<u64>) -> Seq<u8> {
    match g {
        Option::None => seq![0u8],
        Option::Some(x) => seq![1u8] + be64(x),
    }
}

/// One key-value action: action tag, length-prefixed key, then
/// length-prefixed value.
pub open spec fn kv_pair_bytes(p: KvPair) -> Seq<u8> {
    seq![action_tag(p.action)] + be64(p.key@.len() as u64) + p.key@ + be64(
        p.value@.len() as u64,
    ) + p.value@
}

/// The actions of a mutation, serialized in order.
pub open spec fn kv_pairs_bytes(ps: Seq<KvPair>) -> Seq<u8>
    decreases ps.len(),
{
    if ps.len() == 0 {
        Seq::empty()
    } else {
        kv_pairs_bytes(ps.drop_last()) + kv_pair_bytes(ps.last())
    }
}

/// The serialized form of a mutation: exactly these bytes are signed.
pub open spec fn mutation_bytes(m: Mutation) -> Seq<u8> {
    be64(m.nonce) + seq![chain_id_tag(m.chain_id), chain_role_tag(m.chain_role)]
        + gas_price_bytes(m.gas_price) + be64(m.gas) + be64(m.ns@.len() as u64) + m.ns@ + be64(
        m.kv_pairs@.len() as u64,
    ) + kv_pairs_bytes(m.kv_pairs@)
}

fn be64_push(out: &mut Vec<u8>, x: u64)
    ensures
        final(out)@ == old(out)@ + be64(x),
{
    out.push(((x >> 56) & 0xff) as u8);
    out.push(((x >> 48) & 0xff) as u8);
    out.push(((x >> 40) & 0xff) as u8);
    out.push(((x >> 32) & 0xff) as u8);
    out.push(((x >> 24) & 0xff) as u8);
    out.push(((x >> 16) & 0xff) as u8);
    out.push(((x >> 8) & 0xff) as u8);
    out.push((x & 0xff) as u8);
    proof {
        assert(out@ =~= old(out)@ + be64(x));
    }
}

impl Mutation {
    /// Serialize the mutation into the bytes that get signed.
    pub fn serialize(&self) -> (r: Vec<u8>)
        ensures
            r@ == mutation_bytes(*self),
    {
        let mut out: Vec<u8> = Vec::new();
        be64_push(&mut out, self.nonce);
        match self.chain_id {
            ChainId::MainNet => out.push(0),
            ChainId::TestNet => out.push(1),
            ChainId::DevNet => out.push(2),
        }
        match self.chain_role {
            ChainRole::SettlementChain => out.push(0),
            ChainRole::StorageShardChain => out.push(1),
        }
        match self.gas_price {
            Option::None => out.push(0),
            Option::Some(x) => {
                out.push(1);
                be64_push(&mut out, x);
            },
        }
        be64_push(&mut out, self.gas);
        be64_push(&mut out, self.ns.len() as u64);
        push_bytes(&mut out, self.ns.as_slice());
        be64_push(&mut out, self.kv_pairs.len() as u64);
        let ghost header = out@;
        let n = self.kv_pairs.len();
        let mut i: usize = 0;
        while i < n
            invariant
                i <= n,
                n == self.kv_pairs@.len(),
                out@ == header + kv_pairs_bytes(self.kv_pairs@.take(i as int)),
            decreases n - i,
        {
            let p = &self.kv_pairs[i];
            match p.action {
                MutationAction::InsertKv => out.push(0),
                MutationAction::DeleteKv => out.push(1),
            }
            be64_push(&mut out, p.key.len() as u64);
            push_bytes(&mut out, p.key.as_slice());
            be64_push(&mut out, p.value.len() as u64);
            push_bytes(&mut out, p.value.as_slice());
            i += 1;
            proof {
                assert(self.kv_pairs@.take(i as int).drop_last() =~= self.kv_pairs@.take(i - 1));
                assert(self.kv_pairs@.take(i as int).last() == self.kv_pairs@[i - 1]);
                assert(out@ =~= header + kv_pairs_bytes(self.kv_pairs@.take(i as int)));
            }
        }
        proof {
            assert(self.kv_pairs@.take(n as int) =~= self.kv_pairs@);
            assert(out@ =~= mutation_bytes(*self));
        }
        out
    }
}

} // verus!
