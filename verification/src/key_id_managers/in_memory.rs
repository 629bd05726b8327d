//! In-memory implementation of the key identity mapping contract.
//!
//! The backend keeps one entry per recorded triple in a vector whose
//! well-formedness is that no two entries share a triple value; the table it
//! presents is the association map of that vector. It never fails, which
//! makes it both a within-process mapping and the reference implementation
//! of the contract; durability across restarts is the concern of persistent
//! backends.

use crate::key_id_managers::{KeyInfo, KeyInfoView, KeyTriple, KeyTripleView, ManageKeyIDs};
use crate::requests::ProviderID;
use vstd::prelude::*;

verus! {

/// One recorded mapping.
struct KeyMapping {
    triple: KeyTriple,
    info: KeyInfo,
}

/// The table described by a sequence of key-value pairs: later pairs win,
/// as repeated insertion into a map.
spec fn assoc_map<K, V>(pairs: Seq<(K, V)>) -> Map<K, V>
    decreases pairs.len(),
{
    if pairs.len() == 0 {
        Map::empty()
    } else {
        assoc_map(pairs.drop_last()).insert(pairs.last().0, pairs.last().1)
    }
}

/// No two pairs share a key.
spec fn unique_keys<K, V>(pairs: Seq<(K, V)>) -> bool {
    forall|i: int, j: int| 0 <= i < j < pairs.len() ==> pairs[i].0 != pairs[j].0
}

/// A key is in the table exactly when some pair holds it.
proof fn lemma_assoc_map_contains<K, V>(pairs: Seq<(K, V)>, k: K)
    ensures
        assoc_map(pairs).contains_key(k) <==> exists|i: int|
            0 <= i < pairs.len() && pairs[i].0 == k,
    decreases pairs.len(),
{
    if pairs.len() > 0 {
        let prefix = pairs.drop_last();
        lemma_assoc_map_contains(prefix, k);
        if k == pairs.last().0 {
            assert(pairs[pairs.len() - 1].0 == k);
        } else {
            if assoc_map(prefix).contains_key(k) {
                let i = choose|i: int| 0 <= i < prefix.len() && prefix[i].0 == k;
                assert(pairs[i].0 == k);
            }
            if exists|i: int| 0 <= i < pairs.len() && pairs[i].0 == k {
                let i = choose|i: int| 0 <= i < pairs.len() && pairs[i].0 == k;
                assert(prefix[i].0 == k);
            }
        }
    }
}

/// The value of a key is the one of the last pair holding it.
proof fn lemma_assoc_map_index<K, V>(pairs: Seq<(K, V)>, i: int, k: K)
    requires
        0 <= i < pairs.len(),
        pairs[i].0 == k,
        forall|j: int| i < j < pairs.len() ==> pairs[j].0 != k,
    ensures
        assoc_map(pairs).contains_key(k),
        assoc_map(pairs)[k] == pairs[i].1,
    decreases pairs.len(),
{
    if i == pairs.len() - 1 {
        assert(pairs.last() == pairs[i]);
    } else {
        let prefix = pairs.drop_last();
        lemma_assoc_map_index(prefix, i, k);
        assert(pairs.last().0 != k);
    }
}

/// Appending a pair is insertion into the table.
proof fn lemma_assoc_map_push<K, V>(pairs: Seq<(K, V)>, k: K, v: V)
    ensures
        assoc_map(pairs.push((k, v))) == assoc_map(pairs).insert(k, v),
{
    assert(pairs.push((k, v)).drop_last() =~= pairs);
    assert(pairs.push((k, v)).last() == (k, v));
}

/// Removing the only pair holding a key is removal from the table.
proof fn lemma_assoc_map_remove<K, V>(pairs: Seq<(K, V)>, i: int, k: K)
    requires
        0 <= i < pairs.len(),
        pairs[i].0 == k,
        forall|j: int| 0 <= j < pairs.len() && j != i ==> pairs[j].0 != k,
    ensures
        assoc_map(pairs.remove(i)) == assoc_map(pairs).remove(k),
    decreases pairs.len(),
{
    let prefix = pairs.drop_last();
    lemma_assoc_map_contains(prefix, k);
    if i == pairs.len() - 1 {
        assert(pairs.remove(i) =~= prefix);
        assert(!assoc_map(prefix).contains_key(k));
        assert(assoc_map(prefix).insert(k, pairs.last().1).remove(k) =~= assoc_map(prefix));
    } else {
        assert(pairs.remove(i).drop_last() =~= prefix.remove(i));
        assert(pairs.remove(i).last() == pairs.last());
        lemma_assoc_map_remove(prefix, i, k);
        assert(pairs.last().0 != k);
        assert(assoc_map(prefix).remove(k).insert(pairs.last().0, pairs.last().1) =~= assoc_map(
            prefix,
        ).insert(pairs.last().0, pairs.last().1).remove(k));
    }
}

/// Removing a pair keeps the keys unique.
proof fn lemma_unique_keys_remove<K, V>(pairs: Seq<(K, V)>, i: int)
    requires
        unique_keys(pairs),
        0 <= i < pairs.len(),
    ensures
        unique_keys(pairs.remove(i)),
{
    let removed = pairs.remove(i);
    assert forall|a: int, b: int| 0 <= a < b < removed.len() implies removed[a].0 != removed[b].0 by {
        let a0 = if a < i { a } else { a + 1 };
        let b0 = if b < i { b } else { b + 1 };
        assert(removed[a] == pairs[a0]);
        assert(removed[b] == pairs[b0]);
    }
}

/// An in-memory backend: one vector entry per recorded triple.
pub struct InMemoryKeyIDManager {
    entries: Vec<KeyMapping>,
}

impl InMemoryKeyIDManager {
    /// The entries as key-value pairs of triple and record values.
    spec fn pairs(&self) -> Seq<(KeyTripleView, KeyInfoView)> {
        self.entries@.map(|i: int, e: KeyMapping| (e.triple@, e.info@))
    }

    /// An empty mapping.
    pub fn new() -> (r: Self)
        ensures
            r.inv(),
            r.mapping() == Map::<KeyTripleView, KeyInfoView>::empty(),
    {
        let r = InMemoryKeyIDManager { entries: Vec::new() };
        proof {
            assert(r.pairs() =~= Seq::<(KeyTripleView, KeyInfoView)>::empty());
        }
        r
    }

    /// Index of the entry recording this triple, if there is one.
    #[verifier::loop_isolation(false)]
    fn find_index(&self, key_triple: &KeyTriple) -> (r: Option<usize>)
        ensures
            match r {
                Some(i) => i < self.entries@.len() && self.entries@[i as int].triple@
                    == key_triple@,
                None => forall|j: int|
                    0 <= j < self.entries@.len() ==> self.entries@[j].triple@ != key_triple@,
            },
    {
        let mut i: usize = 0;
        while i < self.entries.len()
            invariant
                i <= self.entries.len(),
                forall|j: int| 0 <= j < i ==> self.entries@[j].triple@ != key_triple@,
            decreases self.entries.len() - i,
        {
            if self.entries[i].triple == *key_triple {
                return Some(i);
            }
            i = i + 1;
        }
        None
    }
}

impl ManageKeyIDs for InMemoryKeyIDManager {
    /// The association map of the entries.
    closed spec fn mapping(&self) -> Map<KeyTripleView, KeyInfoView> {
        assoc_map(self.pairs())
    }

    /// No two entries record the same triple.
    closed spec fn inv(&self) -> bool {
        unique_keys(self.pairs())
    }

    /// Never fails.
    fn get(&self, key_triple: &KeyTriple) -> (r: Result<Option<&KeyInfo>, String>)
        ensures
            r is Ok,
    {
        match self.find_index(key_triple) {
            Some(i) => {
                proof {
                    lemma_assoc_map_index(self.pairs(), i as int, key_triple@);
                }
                Ok(Some(&self.entries[i].info))
            },
            None => {
                proof {
                    lemma_assoc_map_contains(self.pairs(), key_triple@);
                }
                Ok(None)
            },
        }
    }

    /// Never fails.
    #[verifier::loop_isolation(false)]
    fn get_all(&self, provider_id: ProviderID) -> (r: Result<Vec<&KeyTriple>, String>)
        ensures
            r is Ok,
    {
        let mut triples: Vec<&KeyTriple> = Vec::new();
        let mut i: usize = 0;
        while i < self.entries.len()
            invariant
                i <= self.entries.len(),
                forall|l: int|
                    0 <= l < triples@.len() ==> (#[trigger] triples@[l]@).provider_id == provider_id
                        && exists|j: int| 0 <= j < i && self.entries@[j].triple@ == triples@[l]@,
                forall|j: int|
                    0 <= j < i && (#[trigger] self.entries@[j].triple@).provider_id == provider_id
                        ==> exists|l: int| 0 <= l < triples@.len() && triples@[l]@
                        == self.entries@[j].triple@,
                forall|l1: int, l2: int|
                    0 <= l1 < l2 < triples@.len() ==> triples@[l1]@ != triples@[l2]@,
            decreases self.entries.len() - i,
        {
            if self.entries[i].triple.belongs_to_provider(provider_id) {
                let ghost pre = triples@;
                triples.push(&self.entries[i].triple);
                proof {
                    assert(triples@[triples@.len() - 1]@ == self.entries@[i as int].triple@);
                    assert forall|j: int|
                        0 <= j < i + 1 && (#[trigger] self.entries@[j].triple@).provider_id
                            == provider_id implies exists|l: int|
                        0 <= l < triples@.len() && triples@[l]@ == self.entries@[j].triple@ by {
                        if j < i {
                            let l0 = choose|l0: int|
                                0 <= l0 < pre.len() && pre[l0]@ == self.entries@[j].triple@;
                            assert(triples@[l0]@ == self.entries@[j].triple@);
                        } else {
                            assert(triples@[triples@.len() - 1]@ == self.entries@[j].triple@);
                        }
                    }
                    let ghost current = self.entries@[i as int].triple@;
                    assert forall|l: int|
                        0 <= l < triples@.len() - 1 implies triples@[l]@ != current by {
                        let j = choose|j: int|
                            0 <= j < i && self.entries@[j].triple@ == pre[l]@;
                        assert(self.pairs()[j].0 == self.entries@[j].triple@);
                        assert(self.pairs()[i as int].0 == self.entries@[i as int].triple@);
                        assert(triples@[l] == pre[l]);
                    }
                }
            }
            i = i + 1;
        }
        proof {
            assert forall|l: int| 0 <= l < triples@.len() implies (#[trigger] triples@[l]@)
                .provider_id == provider_id && self.mapping().contains_key(triples@[l]@) by {
                let j = choose|j: int|
                    0 <= j < self.entries@.len() && self.entries@[j].triple@ == triples@[l]@;
                assert(self.pairs()[j].0 == triples@[l]@);
                lemma_assoc_map_contains(self.pairs(), triples@[l]@);
            }
            assert forall|k: KeyTripleView|
                #[trigger] self.mapping().contains_key(k) && k.provider_id
                    == provider_id implies exists|l: int| 0 <= l < triples@.len() && triples@[l]@
                == k by {
                lemma_assoc_map_contains(self.pairs(), k);
                let j = choose|j: int| 0 <= j < self.pairs().len() && self.pairs()[j].0 == k;
                assert(self.entries@[j].triple@ == k);
                assert((self.entries@[j].triple@).provider_id == provider_id);
            }
        }
        Ok(triples)
    }

    /// Never fails: the new state is already durable for the lifetime of the
    /// process, which is all this backend promises.
    fn insert(&mut self, key_triple: KeyTriple, key_info: KeyInfo) -> (r: Result<
        Option<KeyInfo>,
        String,
    >)
        ensures
            r is Ok,
    {
        let ghost old_pairs = self.pairs();
        let ghost k = key_triple@;
        let ghost v = key_info@;
        match self.find_index(&key_triple) {
            Some(i) => {
                let replaced = self.entries.remove(i);
                self.entries.push(KeyMapping { triple: key_triple, info: key_info });
                proof {
                    lemma_assoc_map_index(old_pairs, i as int, k);
                    lemma_assoc_map_remove(old_pairs, i as int, k);
                    lemma_unique_keys_remove(old_pairs, i as int);
                    assert(self.pairs() =~= old_pairs.remove(i as int).push((k, v)));
                    lemma_assoc_map_push(old_pairs.remove(i as int), k, v);
                    assert(assoc_map(old_pairs).remove(k).insert(k, v) =~= assoc_map(
                        old_pairs,
                    ).insert(k, v));
                    lemma_assoc_map_contains(old_pairs.remove(i as int), k);
                }
                Ok(Some(replaced.info))
            },
            None => {
                self.entries.push(KeyMapping { triple: key_triple, info: key_info });
                proof {
                    lemma_assoc_map_contains(old_pairs, k);
                    assert(self.pairs() =~= old_pairs.push((k, v)));
                    lemma_assoc_map_push(old_pairs, k, v);
                }
                Ok(None)
            },
        }
    }

    /// Never fails.
    fn remove(&mut self, key_triple: &KeyTriple) -> (r: Result<Option<KeyInfo>, String>)
        ensures
            r is Ok,
    {
        let ghost old_pairs = self.pairs();
        let ghost k = key_triple@;
        match self.find_index(key_triple) {
            Some(i) => {
                let removed = self.entries.remove(i);
                proof {
                    lemma_assoc_map_index(old_pairs, i as int, k);
                    lemma_assoc_map_remove(old_pairs, i as int, k);
                    lemma_unique_keys_remove(old_pairs, i as int);
                    assert(self.pairs() =~= old_pairs.remove(i as int));
                }
                Ok(Some(removed.info))
            },
            None => {
                proof {
                    lemma_assoc_map_contains(old_pairs, k);
                    assert(self.mapping().remove(k) =~= self.mapping());
                }
                Ok(None)
            },
        }
    }

    /// Never fails.
    fn exists_key(&self, key_triple: &KeyTriple) -> (r: Result<bool, String>)
        ensures
            r is Ok,
    {
        match self.find_index(key_triple) {
            Some(i) => {
                proof {
                    assert(self.pairs()[i as int].0 == key_triple@);
                    lemma_assoc_map_contains(self.pairs(), key_triple@);
                }
                Ok(true)
            },
            None => {
                proof {
                    lemma_assoc_map_contains(self.pairs(), key_triple@);
                    if self.mapping().contains_key(key_triple@) {
                        let j = choose|j: int|
                            0 <= j < self.pairs().len() && self.pairs()[j].0 == key_triple@;
                        assert(self.entries@[j].triple@ == key_triple@);
                    }
                }
                Ok(false)
            },
        }
    }
}

} // verus!
