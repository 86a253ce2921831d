//! The storage session the node shares across its endpoints, modelled
//! as two write logs: `committed`, the only state a read ever sees, and
//! `pending`, where the consensus bridge stages delivered mutations
//! until commit. Staging never touches `committed`, and commit appends
//! the whole block in one step, so a reader sees a delivered mutation
//! either not at all or in full — never half-applied.

use vstd::prelude::*;

use crate::bytes::{bytes_eq, copy_bytes, push_bytes};
use crate::db3_address::DB3Address;
use crate::db_key::{encode_parts, encoded_key};
use crate::mutation::{KvPair, Mutation, MutationAction};

verus! {

/// One write: an encoded storage key, and the new value or a deletion.
pub open spec fn entry_view(e: (Vec<u8>, Option<Vec<u8>>)) -> (Seq<u8>, Option<Seq<u8>>) {
    (
        e.0@,
        match e.1 {
            Option::Some(v) => Option::Some(v@),
            Option::None => Option::None,
        },
    )
}

pub open spec fn log_view(log: Seq<(Vec<u8>, Option<Vec<u8>>)>) -> Seq<(Seq<u8>, Option<Seq<u8>>)> {
    log.map_values(|e: (Vec<u8>, Option<Vec<u8>>)| entry_view(e))
}

/// Whether a write log touches a key.
pub open spec fn log_has(log: Seq<(Seq<u8>, Option<Seq<u8>>)>, k: Seq<u8>) -> bool
    decreases log.len(),
{
    log.len() > 0 && (log.last().0 == k || log_has(log.drop_last(), k))
}

/// What a key reads as under a write log: the last write to it, absent
/// when the log never touches it or last deletes it.
pub open spec fn log_get(log: Seq<(Seq<u8>, Option<Seq<u8>>)>, k: Seq<u8>) -> Option<Seq<u8>>
    decreases log.len(),
{
    if log.len() == 0 {
        Option::None
    } else if log.last().0 == k {
        log.last().1
    } else {
        log_get(log.drop_last(), k)
    }
}

/// The writes one mutation stands for: each pair keyed under the
/// account's encoded namespace key extended by the pair's own key, an
/// insert carrying the value and a delete carrying nothing.
pub open spec fn mutation_entry(addr: Seq<u8>, ns: Seq<u8>, p: KvPair) -> (
    Seq<u8>,
    Option<Seq<u8>>,
) {
    (
        encoded_key(addr, ns) + p.key@,
        if p.action is InsertKv {
            Option::Some(p.value@)
        } else {
            Option::None
        },
    )
}

pub open spec fn mutation_entries(addr: Seq<u8>, ns: Seq<u8>, ps: Seq<KvPair>) -> Seq<
    (Seq<u8>, Option<Seq<u8>>),
> {
    ps.map_values(|p: KvPair| mutation_entry(addr, ns, p))
}

pub struct AuthStorage {
    committed: Vec<(Vec<u8>, Option<Vec<u8>>)>,
    pending: Vec<(Vec<u8>, Option<Vec<u8>>)>,
}

impl AuthStorage {
    /// The writes a reader sees.
    pub closed spec fn committed_log(&self) -> Seq<(Seq<u8>, Option<Seq<u8>>)> {
        log_view(self.committed@)
    }

    /// The writes delivered in the open block, invisible to readers.
    pub closed spec fn pending_log(&self) -> Seq<(Seq<u8>, Option<Seq<u8>>)> {
        log_view(self.pending@)
    }

    /// A fresh, empty storage session.
    pub fn new() -> (s: AuthStorage)
        ensures
            s.committed_log() == Seq::<(Seq<u8>, Option<Seq<u8>>)>::empty(),
            s.pending_log() == Seq::<(Seq<u8>, Option<Seq<u8>>)>::empty(),
    {
        let s = AuthStorage { committed: Vec::new(), pending: Vec::new() };
        proof {
            assert(s.committed_log() =~= Seq::<(Seq<u8>, Option<Seq<u8>>)>::empty());
            assert(s.pending_log() =~= Seq::<(Seq<u8>, Option<Seq<u8>>)>::empty());
        }
        s
    }

    /// Stage one delivered mutation: every pair of the mutation joins
    /// the pending log in order, and the committed state a reader sees
    /// does not move.
    pub fn apply_mutation(&mut self, addr: &DB3Address, m: &Mutation)
        ensures
            final(self).committed_log() == old(self).committed_log(),
            final(self).pending_log() == old(self).pending_log() + mutation_entries(
                addr@,
                m.ns@,
                m.kv_pairs@,
            ),
    {
        let n = m.kv_pairs.len();
        let mut i: usize = 0;
        while i < n
            invariant
                i <= n,
                n == m.kv_pairs@.len(),
                self.committed@ == old(self).committed@,
                self.pending_log() == old(self).pending_log() + mutation_entries(
                    addr@,
                    m.ns@,
                    m.kv_pairs@.take(i as int),
                ),
            decreases n - i,
        {
            let p = &m.kv_pairs[i];
            let mut key = encode_parts(addr, m.ns.as_slice());
            push_bytes(&mut key, p.key.as_slice());
            let value: Option<Vec<u8>> = match p.action {
                MutationAction::InsertKv => Some(copy_bytes(p.value.as_slice())),
                MutationAction::DeleteKv => None,
            };
            let ghost prev = self.pending@;
            self.pending.push((key, value));
            i += 1;
            proof {
                assert(log_view(self.pending@) =~= log_view(prev).push(
                    entry_view((key, value)),
                ));
                assert(entry_view((key, value)) == mutation_entry(
                    addr@,
                    m.ns@,
                    m.kv_pairs@[i - 1],
                ));
                assert(mutation_entries(addr@, m.ns@, m.kv_pairs@.take(i as int))
                    =~= mutation_entries(addr@, m.ns@, m.kv_pairs@.take(i - 1)).push(
                    mutation_entry(addr@, m.ns@, m.kv_pairs@[i - 1]),
                ));
                assert(self.pending_log() =~= old(self).pending_log() + mutation_entries(
                    addr@,
                    m.ns@,
                    m.kv_pairs@.take(i as int),
                ));
            }
        }
        proof {
            assert(m.kv_pairs@.take(n as int) =~= m.kv_pairs@);
        }
    }

    /// Commit the open block: the whole pending log joins the committed
    /// log in one step, in delivery order, and the pending log empties.
    pub fn commit(&mut self)
        ensures
            final(self).committed_log() == old(self).committed_log() + old(self).pending_log(),
            final(self).pending_log() == Seq::<(Seq<u8>, Option<Seq<u8>>)>::empty(),
    {
        let n = self.pending.len();
        let mut i: usize = 0;
        while i < n
            invariant
                i <= n,
                n == self.pending@.len(),
                self.pending@ == old(self).pending@,
                self.committed_log() == old(self).committed_log() + old(self).pending_log().take(
                    i as int,
                ),
            decreases n - i,
        {
            let key = copy_bytes(self.pending[i].0.as_slice());
            let value: Option<Vec<u8>> = match &self.pending[i].1 {
                Some(v) => Some(copy_bytes(v.as_slice())),
                None => None,
            };
            let ghost prev = self.committed@;
            self.committed.push((key, value));
            i += 1;
            proof {
                assert(log_view(self.committed@) =~= log_view(prev).push(
                    entry_view((key, value)),
                ));
                assert(entry_view((key, value)) == entry_view(self.pending@[i - 1]));
                assert(old(self).pending_log().take(i as int) =~= old(self).pending_log().take(
                    i - 1,
                ).push(entry_view(self.pending@[i - 1])));
                assert(self.committed_log() =~= old(self).committed_log() + old(
                    self,
                ).pending_log().take(i as int));
            }
        }
        self.pending.clear();
        proof {
            assert(old(self).pending_log().take(n as int) =~= old(self).pending_log());
            assert(self.pending_log() =~= Seq::<(Seq<u8>, Option<Seq<u8>>)>::empty());
        }
    }

    /// Read one key from the committed state alone: exactly the last
    /// committed write to it, absent when nothing committed touches it
    /// or the last write deleted it. The pending log never shows.
    pub fn get(&self, key: &[u8]) -> (r: Option<Vec<u8>>)
        ensures
            r is Some <==> log_get(self.committed_log(), key@) is Some,
            r matches Some(v) ==> Option::Some(v@) == log_get(self.committed_log(), key@),
    {
        let ghost lv = self.committed_log();
        let mut i: usize = self.committed.len();
        proof {
            assert(lv.take(i as int) =~= lv);
        }
        while i > 0
            invariant
                i <= self.committed@.len(),
                lv == self.committed_log(),
                lv.len() == self.committed@.len(),
                log_get(lv, key@) == log_get(lv.take(i as int), key@),
            decreases i,
        {
            i = i - 1;
            proof {
                assert(lv.take(i + 1).drop_last() =~= lv.take(i as int));
                assert(lv.take(i + 1).last() == lv[i as int]);
            }
            if bytes_eq(self.committed[i].0.as_slice(), key) {
                match &self.committed[i].1 {
                    Some(v) => {
                        return Some(copy_bytes(v.as_slice()));
                    },
                    None => {
                        return None;
                    },
                }
            }
        }
        proof {
            assert(lv.take(0) =~= Seq::<(Seq<u8>, Option<Seq<u8>>)>::empty());
        }
        None
    }
}

/// What a key reads as once two logs run one after the other: the later
/// log decides every key it touches, and every other key falls through
/// to the earlier log.
pub proof fn lemma_log_get_append(
    a: Seq<(Seq<u8>, Option<Seq<u8>>)>,
    b: Seq<(Seq<u8>, Option<Seq<u8>>)>,
    k: Seq<u8>,
)
    ensures
        log_get(a + b, k) == if log_has(b, k) {
            log_get(b, k)
        } else {
            log_get(a, k)
        },
    decreases b.len(),
{
    if b.len() == 0 {
        assert(a + b =~= a);
    } else {
        assert((a + b).last() == b.last());
        assert((a + b).drop_last() =~= a + b.drop_last());
        lemma_log_get_append(a, b.drop_last(), k);
    }
}

/// No read observes a half-applied mutation. Take a session with no
/// open block, the session after the bridge stages one mutation, and
/// the session after commit: while the mutation is staged every key
/// reads exactly as before, and at commit the mutation lands whole —
/// each key it touches reads as its last write in the mutation, and
/// every other key reads as before. There is no state in between.
pub proof fn lemma_reads_all_or_nothing(
    pre: AuthStorage,
    staged: AuthStorage,
    committed: AuthStorage,
    addr: Seq<u8>,
    ns: Seq<u8>,
    pairs: Seq<KvPair>,
    k: Seq<u8>,
)
    requires
        pre.pending_log().len() == 0,
        staged.committed_log() == pre.committed_log(),
        staged.pending_log() == pre.pending_log() + mutation_entries(addr, ns, pairs),
        committed.committed_log() == staged.committed_log() + staged.pending_log(),
    ensures
        log_get(staged.committed_log(), k) == log_get(pre.committed_log(), k),
        log_get(committed.committed_log(), k) == if log_has(
            mutation_entries(addr, ns, pairs),
            k,
        ) {
            log_get(mutation_entries(addr, ns, pairs), k)
        } else {
            log_get(pre.committed_log(), k)
        },
{
    assert(staged.pending_log() =~= mutation_entries(addr, ns, pairs));
    lemma_log_get_append(pre.committed_log(), mutation_entries(addr, ns, pairs), k);
}

} // verus!
