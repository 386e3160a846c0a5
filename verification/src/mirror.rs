//! The in-process mirror: a map from account id to a record, backed by
//! parallel vectors with unique keys.
use vstd::prelude::*;

use crate::crypto::AccountId;

verus! {

/// The map named by parallel key and value lists, later entries
/// overriding earlier ones.
pub open spec fn map_of<V>(ids: Seq<AccountId>, vals: Seq<V>) -> Map<Seq<u8>, V>
    decreases ids.len(),
{
    if ids.len() == 0 || vals.len() == 0 {
        Map::empty()
    } else {
        map_of(ids.drop_last(), vals.drop_last()).insert(ids.last()@, vals.last())
    }
}

/// A map from account id to a record, keyed by the id's bytes.
pub struct IdMap<V> {
    ids: Vec<AccountId>,
    vals: Vec<V>,
}

impl<V> View for IdMap<V> {
    type V = Map<Seq<u8>, V>;

    closed spec fn view(&self) -> Map<Seq<u8>, V> {
        map_of(self.ids@, self.vals@)
    }
}

proof fn lemma_map_of_characterization<V>(ids: Seq<AccountId>, vals: Seq<V>)
    requires
        ids.len() == vals.len(),
    ensures
        forall|k: Seq<u8>|
            map_of(ids, vals).contains_key(k) <==> exists|i: int|
                0 <= i < ids.len() && #[trigger] ids[i]@ == k,
        forall|i: int|
            #![trigger ids[i]]
            0 <= i < ids.len() && (forall|j: int| i < j < ids.len() ==> ids[j]@ != ids[i]@)
                ==> map_of(ids, vals).contains_key(ids[i]@) && map_of(ids, vals)[ids[i]@]
                == vals[i],
    decreases ids.len(),
{
    if ids.len() > 0 {
        lemma_map_of_characterization(ids.drop_last(), vals.drop_last());
        let m = map_of(ids, vals);
        let prev = map_of(ids.drop_last(), vals.drop_last());
        let n = ids.len() - 1;
        assert forall|k: Seq<u8>| m.contains_key(k) implies exists|i: int|
            0 <= i < ids.len() && #[trigger] ids[i]@ == k by {
            if k == ids.last()@ {
                assert(ids[n]@ == k);
            } else {
                let i = choose|i: int|
                    0 <= i < ids.drop_last().len() && #[trigger] ids.drop_last()[i]@ == k;
                assert(ids[i]@ == k);
            }
        }
        assert forall|k: Seq<u8>|
            (exists|i: int| 0 <= i < ids.len() && #[trigger] ids[i]@ == k) implies m.contains_key(
            k,
        ) by {
            let i = choose|i: int| 0 <= i < ids.len() && #[trigger] ids[i]@ == k;
            if i == n {
                assert(m.contains_key(ids.last()@));
            } else {
                assert(ids.drop_last()[i]@ == k);
            }
        }
        assert forall|i: int|
            0 <= i < ids.len() && (forall|j: int|
                i < j < ids.len() ==> ids[j]@ != ids[i]@) implies m.contains_key(ids[i]@)
            && m[#[trigger] ids[i]@] == vals[i] by {
            if i == n {
                assert(m[ids.last()@] == vals.last());
            } else {
                assert(ids[n]@ != ids[i]@);
                assert(ids.drop_last()[i]@ == ids[i]@);
                assert(forall|j: int|
                    i < j < ids.drop_last().len() ==> ids.drop_last()[j]@ != ids.drop_last()[i]@);
                assert(prev[ids[i]@] == vals.drop_last()[i]);
                assert(m[ids[i]@] == prev[ids[i]@]);
            }
        }
    }
}

proof fn lemma_map_of_dom_len<V>(ids: Seq<AccountId>, vals: Seq<V>)
    requires
        ids.len() == vals.len(),
        forall|i: int, j: int| 0 <= i < j < ids.len() ==> ids[i]@ != ids[j]@,
    ensures
        map_of(ids, vals).dom().finite(),
        map_of(ids, vals).dom().len() == ids.len(),
    decreases ids.len(),
{
    if ids.len() == 0 {
        assert(map_of(ids, vals) == Map::<Seq<u8>, V>::empty());
    } else {
        lemma_map_of_dom_len(ids.drop_last(), vals.drop_last());
        lemma_map_of_characterization(ids.drop_last(), vals.drop_last());
        let prev = map_of(ids.drop_last(), vals.drop_last());
        assert(!prev.contains_key(ids.last()@));
        assert(map_of(ids, vals).dom() =~= prev.dom().insert(ids.last()@));
        vstd::set::axiom_set_insert_len(prev.dom(), ids.last()@);
    }
}

impl<V> IdMap<V> {
    /// Well-formedness: parallel lists of one length, keys unique.
    pub closed spec fn wf(&self) -> bool {
        &&& self.ids@.len() == self.vals@.len()
        &&& forall|i: int, j: int|
            0 <= i < j < self.ids@.len() ==> self.ids@[i]@ != self.ids@[j]@
    }

    /// The keys, in insertion order.
    pub closed spec fn key_seq(&self) -> Seq<Seq<u8>> {
        Seq::new(self.ids@.len(), |i: int| self.ids@[i]@)
    }

    /// The values, in insertion order.
    pub closed spec fn val_seq(&self) -> Seq<V> {
        self.vals@
    }

    /// A well-formed map holds exactly the keys of its key list, each
    /// bound to the value at the same position.
    pub proof fn lemma_entries(&self)
        requires
            self.wf(),
        ensures
            self.key_seq().len() == self.val_seq().len(),
            forall|i: int, j: int|
                0 <= i < j < self.key_seq().len() ==> self.key_seq()[i] != self.key_seq()[j],
            forall|k: Seq<u8>|
                self@.contains_key(k) <==> self.key_seq().contains(k),
            forall|i: int|
                0 <= i < self.key_seq().len() ==> self@.contains_key(#[trigger] self.key_seq()[i])
                    && self@[self.key_seq()[i]] == self.val_seq()[i],
            self@.dom().finite(),
            self@.dom().len() == self.key_seq().len(),
    {
        lemma_map_of_characterization(self.ids@, self.vals@);
        lemma_map_of_dom_len(self.ids@, self.vals@);
        assert forall|k: Seq<u8>| self@.contains_key(k) implies self.key_seq().contains(k) by {
            let i = choose|i: int| 0 <= i < self.ids@.len() && #[trigger] self.ids@[i]@ == k;
            assert(self.key_seq()[i] == k);
        }
        assert forall|k: Seq<u8>| self.key_seq().contains(k) implies self@.contains_key(k) by {
            let i = choose|i: int|
                0 <= i < self.key_seq().len() && #[trigger] self.key_seq()[i] == k;
            assert(self.ids@[i]@ == k);
        }
    }

    /// An empty mirror.
    pub fn new() -> (r: IdMap<V>)
        ensures
            r.wf(),
            r@ == Map::<Seq<u8>, V>::empty(),
            r.key_seq() == Seq::<Seq<u8>>::empty(),
    {
        let r = IdMap { ids: Vec::new(), vals: Vec::new() };
        proof {
            assert(r.key_seq() =~= Seq::<Seq<u8>>::empty());
        }
        r
    }

    fn index_of(&self, id: &AccountId) -> (r: Option<usize>)
        requires
            self.wf(),
        ensures
            match r {
                Some(i) => i < self.ids@.len() && self.ids@[i as int]@ == id@,
                None => forall|i: int| 0 <= i < self.ids@.len() ==> self.ids@[i]@ != id@,
            },
    {
        let mut i: usize = 0;
        while i < self.ids.len()
            invariant
                i <= self.ids@.len(),
                forall|j: int| 0 <= j < i ==> self.ids@[j]@ != id@,
            decreases self.ids@.len() - i,
        {
            if self.ids[i].eq_id(id) {
                return Some(i);
            }
            i = i + 1;
        }
        None
    }

    /// The number of records held.
    pub fn len(&self) -> (r: usize)
        requires
            self.wf(),
        ensures
            r as nat == self@.dom().len(),
            r as nat == self.key_seq().len(),
    {
        proof {
            self.lemma_entries();
        }
        self.ids.len()
    }

    /// Whether a record is held for an id.
    pub fn contains(&self, id: &AccountId) -> (r: bool)
        requires
            self.wf(),
        ensures
            r == self@.contains_key(id@),
    {
        proof {
            self.lemma_entries();
        }
        match self.index_of(id) {
            Some(i) => {
                proof {
                    assert(self.key_seq()[i as int] == id@);
                    assert(self.key_seq().contains(id@));
                }
                true
            },
            None => {
                proof {
                    if self.key_seq().contains(id@) {
                        let i = choose|i: int|
                            0 <= i < self.key_seq().len() && #[trigger] self.key_seq()[i] == id@;
                        assert(self.ids@[i]@ == id@);
                    }
                }
                false
            },
        }
    }

    /// The record held for an id, where one is held.
    pub fn get(&self, id: &AccountId) -> (r: Option<&V>)
        requires
            self.wf(),
        ensures
            match r {
                Some(v) => self@.contains_key(id@) && *v == self@[id@],
                None => !self@.contains_key(id@),
            },
    {
        proof {
            self.lemma_entries();
        }
        match self.index_of(id) {
            Some(i) => {
                proof {
                    assert(self.key_seq()[i as int] == id@);
                    assert(self.key_seq().contains(id@));
                }
                Some(&self.vals[i])
            },
            None => {
                proof {
                    if self.key_seq().contains(id@) {
                        let i = choose|i: int|
                            0 <= i < self.key_seq().len() && #[trigger] self.key_seq()[i] == id@;
                        assert(self.ids@[i]@ == id@);
                    }
                }
                None
            },
        }
    }

    /// The key at a position, for iteration.
    pub fn key_at(&self, i: usize) -> (r: &AccountId)
        requires
            self.wf(),
            i < self.key_seq().len(),
        ensures
            r@ == self.key_seq()[i as int],
    {
        &self.ids[i]
    }

    /// The value at a position, for iteration.
    pub fn val_at(&self, i: usize) -> (r: &V)
        requires
            self.wf(),
            i < self.key_seq().len(),
        ensures
            *r == self.val_seq()[i as int],
            self@.contains_key(self.key_seq()[i as int]),
            *r == self@[self.key_seq()[i as int]],
    {
        proof {
            self.lemma_entries();
        }
        &self.vals[i]
    }

    /// Binds an id to a record, replacing any record held for it.
    pub fn insert(&mut self, id: AccountId, v: V)
        requires
            old(self).wf(),
        ensures
            final(self).wf(),
            final(self)@ == old(self)@.insert(id@, v),
    {
        proof {
            self.lemma_entries();
        }
        let found = self.index_of(&id);
        match found {
            Some(i) => {
                self.vals.set(i, v);
                proof {
                    let news = *self;
                    assert(news.ids@ == old(self).ids@);
                    assert(news.wf());
                    news.lemma_entries();
                    assert(news.key_seq() =~= old(self).key_seq());
                    assert(news.key_seq()[i as int] == id@);
                    assert(news.key_seq().contains(id@));
                    let target = old(self)@.insert(id@, v);
                    assert forall|k: Seq<u8>| #[trigger] news@.contains_key(k)
                        == target.contains_key(k) by {
                        assert(news@.contains_key(k) == news.key_seq().contains(k));
                        assert(old(self)@.contains_key(k) == old(self).key_seq().contains(k));
                    }
                    assert forall|k: Seq<u8>| news@.contains_key(k) implies #[trigger] news@[k]
                        == target[k] by {
                        assert(news.key_seq().contains(k));
                        let j = choose|j: int|
                            0 <= j < news.key_seq().len() && #[trigger] news.key_seq()[j] == k;
                        assert(news@[news.key_seq()[j]] == news.val_seq()[j]);
                        if k == id@ {
                            assert(news.key_seq()[j] == news.key_seq()[i as int]);
                            assert(j == i);
                            assert(news.val_seq()[j] == v);
                        } else {
                            assert(old(self).key_seq()[j] == k);
                            assert(old(self)@[old(self).key_seq()[j]] == old(self).val_seq()[j]);
                            assert(news.val_seq()[j] == old(self).val_seq()[j]);
                        }
                    }
                    assert(news@ =~= target);
                }
            },
            None => {
                self.ids.push(id);
                self.vals.push(v);
                proof {
                    assert(self.ids@.drop_last() =~= old(self).ids@);
                    assert(self.vals@.drop_last() =~= old(self).vals@);
                    assert(self@ =~= old(self)@.insert(id@, v));
                    assert forall|a: int, b: int|
                        0 <= a < b < self.ids@.len() implies self.ids@[a]@ != self.ids@[b]@ by {
                        if b == self.ids@.len() - 1 {
                            assert(old(self).key_seq()[a] == self.ids@[a]@);
                            if self.ids@[a]@ == id@ {
                                assert(old(self).key_seq().contains(id@));
                                assert(old(self)@.contains_key(id@));
                                assert(old(self).ids@[a]@ == id@);
                            }
                        }
                    }
                }
            },
        }
    }

    /// Unbinds an id, where bound.
    pub fn remove(&mut self, id: &AccountId)
        requires
            old(self).wf(),
        ensures
            final(self).wf(),
            final(self)@ == old(self)@.remove(id@),
    {
        proof {
            self.lemma_entries();
        }
        let found = self.index_of(id);
        match found {
            Some(i) => {
                self.ids.remove(i);
                self.vals.remove(i);
                proof {
                    let news = *self;
                    assert(news.ids@ == old(self).ids@.remove(i as int));
                    assert(news.vals@ == old(self).vals@.remove(i as int));
                    assert forall|j: int|
                        0 <= j < news.ids@.len() implies #[trigger] news.ids@[j] == (if j < i {
                        old(self).ids@[j]
                    } else {
                        old(self).ids@[j + 1]
                    }) by {}
                    assert(news.wf());
                    news.lemma_entries();
                    assert(old(self).key_seq()[i as int] == id@);
                    let target = old(self)@.remove(id@);
                    assert forall|k: Seq<u8>| #[trigger] news@.contains_key(k)
                        == target.contains_key(k) by {
                        assert(news@.contains_key(k) == news.key_seq().contains(k));
                        assert(old(self)@.contains_key(k) == old(self).key_seq().contains(k));
                        if news@.contains_key(k) {
                            let j = choose|j: int|
                                0 <= j < news.key_seq().len() && #[trigger] news.key_seq()[j] == k;
                            let j0: int = if j < i {
                                j
                            } else {
                                j + 1
                            };
                            assert(news.key_seq()[j] == news.ids@[j]@);
                            assert(news.ids@[j] == old(self).ids@[j0]);
                            assert(old(self).key_seq()[j0] == old(self).ids@[j0]@);
                            assert(old(self).key_seq()[j0] == k);
                            assert(old(self).key_seq().contains(k));
                            assert(old(self).key_seq()[i as int] == id@);
                            assert(j0 != i);
                            assert(k != id@);
                        }
                        if target.contains_key(k) {
                            assert(old(self).key_seq().contains(k));
                            let j0 = choose|j0: int|
                                0 <= j0 < old(self).key_seq().len() && #[trigger] old(
                                    self,
                                ).key_seq()[j0] == k;
                            assert(k != id@);
                            assert(j0 != i);
                            let j: int = if j0 < i {
                                j0
                            } else {
                                j0 - 1
                            };
                            assert(news.ids@[j] == old(self).ids@[j0]);
                            assert(news.key_seq()[j] == news.ids@[j]@);
                            assert(news.key_seq()[j] == k);
                            assert(news.key_seq().contains(k));
                        }
                    }
                    assert forall|k: Seq<u8>| news@.contains_key(k) implies #[trigger] news@[k]
                        == target[k] by {
                        assert(news@.contains_key(k) == news.key_seq().contains(k));
                        let j = choose|j: int|
                            0 <= j < news.key_seq().len() && #[trigger] news.key_seq()[j] == k;
                        let j0: int = if j < i {
                            j
                        } else {
                            j + 1
                        };
                        assert(news.key_seq()[j] == news.ids@[j]@);
                        assert(news.ids@[j] == old(self).ids@[j0]);
                        assert(old(self).key_seq()[j0] == old(self).ids@[j0]@);
                        assert(old(self).key_seq()[j0] == k);
                        assert(news@[news.key_seq()[j]] == news.val_seq()[j]);
                        assert(old(self)@[old(self).key_seq()[j0]] == old(self).val_seq()[j0]);
                        assert(news.vals@[j] == old(self).vals@[j0]);
                        assert(news.val_seq()[j] == old(self).val_seq()[j0]);
                        assert(old(self).key_seq()[i as int] == id@);
                        assert(j0 != i);
                        assert(k != id@);
                    }
                    assert(news@ =~= target);
                }
            },
            None => {
                proof {
                    if old(self)@.contains_key(id@) {
                        assert(old(self)@.contains_key(id@) == old(self).key_seq().contains(id@));
                        let j = choose|j: int|
                            0 <= j < old(self).key_seq().len() && #[trigger] old(
                                self,
                            ).key_seq()[j] == id@;
                        assert(old(self).ids@[j]@ == id@);
                    }
                    assert(self@ =~= old(self)@.remove(id@));
                }
            },
        }
    }
}

} // verus!
