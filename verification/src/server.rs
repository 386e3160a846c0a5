//! The validator list server: an in-process mirror of the latest
//! validator list, updated on each finalized-block notification, and
//! the delta-compressed updates it broadcasts to subscribers.
use vstd::prelude::*;

use crate::crypto::AccountId;
use crate::diff::{
    spec_apply_summary_diff, spec_summary_diff, ValidatorSummaryDiff, ValidatorSummaryDiffV,
};
use crate::mirror::IdMap;
use crate::subvt::{
    spec_validator_summary, ValidatorDetails, ValidatorSummary, ValidatorSummaryV,
};

verus! {

/// The ids of a list of account ids.
pub open spec fn ids_view(v: Seq<AccountId>) -> Seq<Seq<u8>> {
    Seq::new(v.len(), |i: int| v[i]@)
}

/// The account ids of a list of validator records.
pub open spec fn detail_ids(v: Seq<ValidatorDetails>) -> Seq<Seq<u8>> {
    Seq::new(v.len(), |i: int| v[i]@.account.id)
}

/// The account ids of a list of summaries.
pub open spec fn spec_insert_ids(xs: Seq<ValidatorSummaryV>) -> Seq<Seq<u8>> {
    Seq::new(xs.len(), |i: int| xs[i].account.id)
}

/// The account ids of a list of summary diffs.
pub open spec fn spec_update_ids(xs: Seq<ValidatorSummaryDiffV>) -> Seq<Seq<u8>> {
    Seq::new(xs.len(), |i: int| xs[i].account.id)
}

/// The summary projection of a whole mirror.
pub open spec fn spec_summaries_of(m: Map<Seq<u8>, ValidatorDetails>) -> Map<
    Seq<u8>,
    ValidatorSummaryV,
> {
    Map::new(|k: Seq<u8>| m.contains_key(k), |k: Seq<u8>| spec_validator_summary(m[k]@))
}

/// The update message pushed to list subscribers: fresh records to
/// insert, field diffs for changed records, and ids to remove.
#[derive(Debug)]
pub struct ValidatorListUpdate {
    pub finalized_block_number: Option<u64>,
    pub insert: Vec<ValidatorSummary>,
    pub update: Vec<ValidatorSummaryDiff>,
    pub remove_ids: Vec<AccountId>,
}

/// Mathematical value of a list update message.
pub ghost struct ValidatorListUpdateV {
    pub finalized_block_number: Option<u64>,
    pub insert: Seq<ValidatorSummaryV>,
    pub update: Seq<ValidatorSummaryDiffV>,
    pub remove_ids: Seq<Seq<u8>>,
}

impl View for ValidatorListUpdate {
    type V = ValidatorListUpdateV;

    open spec fn view(&self) -> ValidatorListUpdateV {
        ValidatorListUpdateV {
            finalized_block_number: self.finalized_block_number,
            insert: Seq::new(self.insert@.len(), |i: int| self.insert@[i]@),
            update: Seq::new(self.update@.len(), |i: int| self.update@[i]@),
            remove_ids: ids_view(self.remove_ids@),
        }
    }
}

impl Clone for ValidatorListUpdate {
    fn clone(&self) -> (res: Self)
        ensures
            res@ == self@,
    {
        let mut insert: Vec<ValidatorSummary> = Vec::new();
        let mut i: usize = 0;
        while i < self.insert.len()
            invariant
                i <= self.insert@.len(),
                insert@.len() == i,
                forall|j: int| 0 <= j < i ==> insert@[j]@ == self.insert@[j]@,
            decreases self.insert@.len() - i,
        {
            insert.push(self.insert[i].clone());
            i = i + 1;
        }
        let mut update: Vec<ValidatorSummaryDiff> = Vec::new();
        let mut j: usize = 0;
        while j < self.update.len()
            invariant
                j <= self.update@.len(),
                update@.len() == j,
                forall|x: int| 0 <= x < j ==> update@[x]@ == self.update@[x]@,
            decreases self.update@.len() - j,
        {
            update.push(self.update[j].clone());
            j = j + 1;
        }
        let mut remove_ids: Vec<AccountId> = Vec::new();
        let mut x: usize = 0;
        while x < self.remove_ids.len()
            invariant
                x <= self.remove_ids@.len(),
                remove_ids@.len() == x,
                forall|y: int| 0 <= y < x ==> remove_ids@[y]@ == self.remove_ids@[y]@,
            decreases self.remove_ids@.len() - x,
        {
            remove_ids.push(self.remove_ids[x].clone());
            x = x + 1;
        }
        let res = ValidatorListUpdate {
            finalized_block_number: self.finalized_block_number,
            insert,
            update,
            remove_ids,
        };
        proof {
            assert(res@.insert =~= self@.insert);
            assert(res@.update =~= self@.update);
            assert(res@.remove_ids =~= self@.remove_ids);
        }
        res
    }
}

/// An event on the broadcast bus between the pub/sub loop and the
/// subscriber sessions.
#[derive(Debug)]
pub enum BusEvent {
    Update(ValidatorListUpdate),
    Error,
}

impl Clone for BusEvent {
    fn clone(&self) -> (res: Self)
        ensures
            match (self, &res) {
                (BusEvent::Update(a), BusEvent::Update(b)) => a@ == b@,
                (BusEvent::Error, BusEvent::Error) => true,
                _ => false,
            },
    {
        match self {
            BusEvent::Update(u) => BusEvent::Update(u.clone()),
            BusEvent::Error => BusEvent::Error,
        }
    }
}

/// Whether an id occurs in a list of account ids.
pub fn id_in_list(id: &AccountId, list: &Vec<AccountId>) -> (r: bool)
    ensures
        r == ids_view(list@).contains(id@),
{
    let mut i: usize = 0;
    while i < list.len()
        invariant
            i <= list@.len(),
            forall|j: int| 0 <= j < i ==> list@[j]@ != id@,
        decreases list@.len() - i,
    {
        if list[i].eq_id(id) {
            proof {
                assert(ids_view(list@)[i as int] == id@);
            }
            return true;
        }
        i = i + 1;
    }
    proof {
        if ids_view(list@).contains(id@) {
            let j = choose|j: int|
                0 <= j < ids_view(list@).len() && #[trigger] ids_view(list@)[j] == id@;
            assert(list@[j]@ == id@);
        }
    }
    false
}

/// The validator list server's in-process state: the mirror of the
/// latest list and the last block it processed.
pub struct ValidatorListServer {
    pub mirror: IdMap<ValidatorDetails>,
    pub last_finalized_block_number: u64,
}

impl ValidatorListServer {
    /// Well-formedness: the mirror is sound and every record is keyed
    /// by its own account id.
    pub open spec fn wf(&self) -> bool {
        &&& self.mirror.wf()
        &&& forall|k: Seq<u8>|
            #[trigger] self.mirror@.contains_key(k) ==> self.mirror@[k]@.account.id == k
    }

    /// A fresh server: empty mirror, no block processed yet.
    pub fn new() -> (r: ValidatorListServer)
        ensures
            r.wf(),
            r.mirror@ == Map::<Seq<u8>, ValidatorDetails>::empty(),
            r.last_finalized_block_number == 0,
    {
        ValidatorListServer { mirror: IdMap::new(), last_finalized_block_number: 0 }
    }

    /// Whether a notification for a block must be processed: a repeat
    /// of the last processed block number is a no-op.
    pub fn should_process(&self, finalized_block_number: u64) -> (r: bool)
        ensures
            r == (finalized_block_number != self.last_finalized_block_number),
    {
        finalized_block_number != self.last_finalized_block_number
    }

    /// Whether a mirrored record's summary hash differs from the hash
    /// the buffer holds for the block, which is the one signal to fetch
    /// the record anew.
    pub fn summary_changed(mirrored: &ValidatorDetails, buffer_summary_hash: u64) -> (r: bool)
        ensures
            r == (crate::hashing::spec_summary_hash(spec_validator_summary(mirrored@))
                != buffer_summary_hash),
    {
        let summary = ValidatorSummary::from_details(mirrored);
        let h = crate::hashing::summary_hash(&summary);
        h != buffer_summary_hash
    }

    /// The snapshot sent to a new subscriber: no block number, every
    /// mirrored record's summary as an insert, nothing else. Applying
    /// it to an empty local map reproduces the mirror's summaries.
    pub fn initial_update(&self) -> (r: ValidatorListUpdate)
        requires
            self.wf(),
        ensures
            r@.finalized_block_number is None,
            r@.update.len() == 0,
            r@.remove_ids.len() == 0,
            r@.insert.len() == self.mirror@.dom().len(),
            forall|i: int|
                0 <= i < r@.insert.len() ==> self.mirror@.contains_key(
                    #[trigger] r@.insert[i].account.id,
                ) && r@.insert[i] == spec_validator_summary(
                    self.mirror@[r@.insert[i].account.id]@,
                ),
            forall|k: Seq<u8>|
                #[trigger] self.mirror@.contains_key(k) ==> spec_insert_ids(r@.insert).contains(k),
            forall|i: int, j: int|
                0 <= i < j < r@.insert.len() ==> r@.insert[i].account.id != r@.insert[j].account.id,
    {
        proof {
            self.mirror.lemma_entries();
        }
        let n = self.mirror.len();
        let mut insert: Vec<ValidatorSummary> = Vec::new();
        let mut i: usize = 0;
        while i < n
            invariant
                self.wf(),
                n as nat == self.mirror.key_seq().len(),
                self.mirror.key_seq().len() == self.mirror.val_seq().len(),
                i <= n,
                insert@.len() == i,
                forall|j: int|
                    0 <= j < i ==> #[trigger] insert@[j]@ == spec_validator_summary(
                        self.mirror.val_seq()[j]@,
                    ) && insert@[j]@.account.id == self.mirror.key_seq()[j],
            decreases n - i,
        {
            let v = self.mirror.val_at(i);
            let s = ValidatorSummary::from_details(v);
            proof {
                self.mirror.lemma_entries();
                assert(self.mirror@[self.mirror.key_seq()[i as int]]@.account.id
                    == self.mirror.key_seq()[i as int]);
            }
            insert.push(s);
            i = i + 1;
        }
        let r = ValidatorListUpdate {
            finalized_block_number: None,
            insert,
            update: Vec::new(),
            remove_ids: Vec::new(),
        };
        proof {
            self.mirror.lemma_entries();
            assert(r@.remove_ids =~= Seq::<Seq<u8>>::empty());
            assert forall|i: int|
                0 <= i < r@.insert.len() implies self.mirror@.contains_key(
                #[trigger] r@.insert[i].account.id,
            ) && r@.insert[i] == spec_validator_summary(
                self.mirror@[r@.insert[i].account.id]@,
            ) by {
                assert(r@.insert[i] == insert@[i]@);
                assert(insert@[i]@.account.id == self.mirror.key_seq()[i]);
            }
            assert forall|k: Seq<u8>| #[trigger]
                self.mirror@.contains_key(k) implies spec_insert_ids(r@.insert).contains(k) by {
                assert(self.mirror.key_seq().contains(k));
                let j = choose|j: int|
                    0 <= j < self.mirror.key_seq().len() && #[trigger] self.mirror.key_seq()[j]
                        == k;
                assert(spec_insert_ids(r@.insert)[j] == k);
            }
        }
        r
    }
}


/// The map a subscriber holds after applying an update message: removed
/// ids dropped, diffs applied to the records they name, fresh summaries
/// inserted.
pub open spec fn spec_apply_list_update(
    s: Map<Seq<u8>, ValidatorSummaryV>,
    u: ValidatorListUpdateV,
) -> Map<Seq<u8>, ValidatorSummaryV> {
    Map::new(
        |k: Seq<u8>|
            (s.contains_key(k) && !u.remove_ids.contains(k)) || spec_insert_ids(
                u.insert,
            ).contains(k),
        |k: Seq<u8>|
            if spec_insert_ids(u.insert).contains(k) {
                u.insert[choose|i: int|
                    0 <= i < u.insert.len() && #[trigger] u.insert[i].account.id == k]
            } else if s.contains_key(k) && spec_update_ids(u.update).contains(k) {
                spec_apply_summary_diff(
                    s[k],
                    u.update[choose|i: int|
                        0 <= i < u.update.len() && #[trigger] u.update[i].account.id == k],
                )
            } else {
                s[k]
            },
    )
}

impl ValidatorListServer {
    /// The ids mirrored locally but absent from the block\'s id set:
    /// exactly the validators that left the set.
    fn compute_removals(&self, present: &Vec<AccountId>) -> (r: Vec<AccountId>)
        requires
            self.wf(),
        ensures
            forall|j: int|
                0 <= j < r@.len() ==> self.mirror@.contains_key(#[trigger] r@[j]@) && !ids_view(
                    present@,
                ).contains(r@[j]@),
            forall|k: Seq<u8>|
                #[trigger] self.mirror@.contains_key(k) && !ids_view(present@).contains(k)
                    ==> ids_view(r@).contains(k),
            forall|i: int, j: int| 0 <= i < j < r@.len() ==> r@[i]@ != r@[j]@,
    {
        proof {
            self.mirror.lemma_entries();
        }
        let n = self.mirror.len();
        let mut r: Vec<AccountId> = Vec::new();
        let mut i: usize = 0;
        while i < n
            invariant
                self.wf(),
                n as nat == self.mirror.key_seq().len(),
                i <= n,
                forall|j: int|
                    0 <= j < r@.len() ==> exists|idx: int|
                        0 <= idx < i && #[trigger] r@[j]@ == self.mirror.key_seq()[idx],
                forall|j: int|
                    0 <= j < r@.len() ==> self.mirror@.contains_key(#[trigger] r@[j]@)
                        && !ids_view(present@).contains(r@[j]@),
                forall|idx: int|
                    0 <= idx < i ==> ids_view(present@).contains(
                        #[trigger] self.mirror.key_seq()[idx],
                    ) || ids_view(r@).contains(self.mirror.key_seq()[idx]),
                forall|a: int, b: int| 0 <= a < b < r@.len() ==> r@[a]@ != r@[b]@,
            decreases n - i,
        {
            proof {
                self.mirror.lemma_entries();
            }
            let key = self.mirror.key_at(i);
            if !id_in_list(key, present) {
                let ghost pre = r@;
                r.push(key.clone());
                proof {
                    assert(r@[pre.len() as int]@ == self.mirror.key_seq()[i as int]);
                    assert(self.mirror.key_seq().contains(self.mirror.key_seq()[i as int]));
                    assert(self.mirror@.contains_key(self.mirror.key_seq()[i as int]));
                    assert forall|a: int, b: int|
                        0 <= a < b < r@.len() implies r@[a]@ != r@[b]@ by {
                        if b == r@.len() - 1 {
                            let idx = choose|idx: int|
                                0 <= idx < i && #[trigger] r@[a]@ == self.mirror.key_seq()[idx];
                            assert(self.mirror.key_seq()[idx] != self.mirror.key_seq()[i as int]);
                        }
                    }
                    assert(ids_view(r@)[pre.len() as int] == self.mirror.key_seq()[i as int]);
                    assert forall|idx: int|
                        0 <= idx < i implies ids_view(present@).contains(
                        #[trigger] self.mirror.key_seq()[idx],
                    ) || ids_view(r@).contains(self.mirror.key_seq()[idx]) by {
                        if !ids_view(present@).contains(self.mirror.key_seq()[idx]) {
                            let j = choose|j: int|
                                0 <= j < ids_view(pre).len() && #[trigger] ids_view(pre)[j]
                                    == self.mirror.key_seq()[idx];
                            assert(ids_view(r@)[j] == self.mirror.key_seq()[idx]);
                        }
                    }
                }
            } else {
                proof {
                    assert(ids_view(present@).contains(self.mirror.key_seq()[i as int]));
                }
            }
            i = i + 1;
        }
        proof {
            self.mirror.lemma_entries();
            assert forall|k: Seq<u8>| #[trigger]
                self.mirror@.contains_key(k) && !ids_view(present@).contains(k) implies ids_view(
                r@,
            ).contains(k) by {
                assert(self.mirror.key_seq().contains(k));
                let idx = choose|idx: int|
                    0 <= idx < self.mirror.key_seq().len() && #[trigger] self.mirror.key_seq()[idx]
                        == k;
            }
        }
        r
    }
}



impl ValidatorListServer {
    /// Drops the given ids from the mirror; every other record stays.
    fn apply_removals(&mut self, remove_ids: &Vec<AccountId>)
        requires
            old(self).wf(),
        ensures
            final(self).wf(),
            final(self).last_finalized_block_number == old(self).last_finalized_block_number,
            forall|k: Seq<u8>|
                #[trigger] final(self).mirror@.contains_key(k) <==> (old(
                    self,
                ).mirror@.contains_key(k) && !ids_view(remove_ids@).contains(k)),
            forall|k: Seq<u8>|
                #[trigger] final(self).mirror@.contains_key(k) ==> final(self).mirror@[k] == old(
                    self,
                ).mirror@[k],
    {
        let mut j: usize = 0;
        while j < remove_ids.len()
            invariant
                self.mirror.wf(),
                self.last_finalized_block_number == old(self).last_finalized_block_number,
                j <= remove_ids@.len(),
                forall|k: Seq<u8>|
                    #[trigger] self.mirror@.contains_key(k) <==> (old(
                        self,
                    ).mirror@.contains_key(k) && (forall|jj: int|
                        0 <= jj < j ==> remove_ids@[jj]@ != k)),
                forall|k: Seq<u8>|
                    #[trigger] self.mirror@.contains_key(k) ==> self.mirror@[k] == old(
                        self,
                    ).mirror@[k],
            decreases remove_ids@.len() - j,
        {
            self.mirror.remove(&remove_ids[j]);
            j = j + 1;
        }
        proof {
            assert forall|k: Seq<u8>| #[trigger]
                self.mirror@.contains_key(k) <==> (old(self).mirror@.contains_key(k) && !ids_view(
                remove_ids@,
            ).contains(k)) by {
                if ids_view(remove_ids@).contains(k) {
                    let jj = choose|jj: int|
                        0 <= jj < ids_view(remove_ids@).len() && #[trigger] ids_view(
                            remove_ids@,
                        )[jj] == k;
                    assert(remove_ids@[jj]@ == k);
                }
                if !ids_view(remove_ids@).contains(k) {
                    assert forall|jj: int|
                        0 <= jj < remove_ids@.len() implies #[trigger] remove_ids@[jj]@ != k by {
                        if remove_ids@[jj]@ == k {
                            assert(ids_view(remove_ids@)[jj] == k);
                        }
                    }
                }
            }
            assert forall|k: Seq<u8>| #[trigger]
                self.mirror@.contains_key(k) implies self.mirror@[k]@.account.id == k by {
                assert(self.mirror@[k] == old(self).mirror@[k]);
            }
        }
    }

    /// Re-fetched records for mirrored validators whose summary hash
    /// changed: computes the summary diff pushed to clients and the
    /// record diff applied to the mirror, whose application reproduces
    /// the fetched record exactly.
    fn apply_changes(&mut self, changed: &Vec<ValidatorDetails>) -> (r: Vec<ValidatorSummaryDiff>)
        requires
            old(self).wf(),
            forall|i: int|
                0 <= i < changed@.len() ==> old(self).mirror@.contains_key(
                    #[trigger] changed@[i]@.account.id,
                ),
            forall|i: int, j: int|
                0 <= i < j < changed@.len() ==> changed@[i]@.account.id != changed@[j]@.account.id,
        ensures
            final(self).wf(),
            final(self).last_finalized_block_number == old(self).last_finalized_block_number,
            forall|k: Seq<u8>|
                #[trigger] final(self).mirror@.contains_key(k) <==> old(
                    self,
                ).mirror@.contains_key(k),
            forall|i: int|
                0 <= i < changed@.len() ==> final(self).mirror@[#[trigger] changed@[i]@.account.id]@
                    == changed@[i]@,
            forall|k: Seq<u8>|
                #[trigger] final(self).mirror@.contains_key(k) && !detail_ids(changed@).contains(k)
                    ==> final(self).mirror@[k] == old(self).mirror@[k],
            r@.len() == changed@.len(),
            forall|i: int|
                0 <= i < changed@.len() ==> #[trigger] r@[i]@ == spec_summary_diff(
                    spec_validator_summary(old(self).mirror@[changed@[i]@.account.id]@),
                    spec_validator_summary(changed@[i]@),
                ),
    {
        let mut r: Vec<ValidatorSummaryDiff> = Vec::new();
        let mut i: usize = 0;
        while i < changed.len()
            invariant
                self.wf(),
                self.last_finalized_block_number == old(self).last_finalized_block_number,
                i <= changed@.len(),
                forall|x: int|
                    0 <= x < changed@.len() ==> old(self).mirror@.contains_key(
                        #[trigger] changed@[x]@.account.id,
                    ),
                forall|x: int, y: int|
                    0 <= x < y < changed@.len() ==> changed@[x]@.account.id
                        != changed@[y]@.account.id,
                forall|k: Seq<u8>|
                    #[trigger] self.mirror@.contains_key(k) <==> old(self).mirror@.contains_key(k),
                forall|x: int|
                    0 <= x < i ==> self.mirror@[#[trigger] changed@[x]@.account.id]@
                        == changed@[x]@,
                forall|k: Seq<u8>|
                    #[trigger] self.mirror@.contains_key(k) && (forall|x: int|
                        0 <= x < i ==> changed@[x]@.account.id != k) ==> self.mirror@[k] == old(
                        self,
                    ).mirror@[k],
                r@.len() == i,
                forall|x: int|
                    0 <= x < i ==> #[trigger] r@[x]@ == spec_summary_diff(
                        spec_validator_summary(old(self).mirror@[changed@[x]@.account.id]@),
                        spec_validator_summary(changed@[x]@),
                    ),
            decreases changed@.len() - i,
        {
            let c = &changed[i];
            let mirrored: ValidatorDetails = match self.mirror.get(&c.account.id) {
                Some(m) => m.clone(),
                None => {
                    proof {
                        assert(false);
                    }
                    c.clone()
                },
            };
            proof {
                assert(mirrored@ == old(self).mirror@[changed@[i as int]@.account.id]@);
            }
            let old_summary = ValidatorSummary::from_details(&mirrored);
            let new_summary = ValidatorSummary::from_details(c);
            let summary_diff = old_summary.get_diff(&new_summary);
            let record_diff = mirrored.get_diff(c);
            let mut updated = mirrored;
            updated.apply_diff(&record_diff);
            proof {
                crate::diff::lemma_details_diff_round_trip(
                    old(self).mirror@[changed@[i as int]@.account.id]@,
                    changed@[i as int]@,
                );
                assert(updated@ == changed@[i as int]@);
            }
            self.mirror.insert(c.account.id.clone(), updated);
            r.push(summary_diff);
            i = i + 1;
            proof {
                assert forall|k: Seq<u8>| #[trigger]
                    self.mirror@.contains_key(k) <==> old(self).mirror@.contains_key(k) by {
                    if k == changed@[i - 1]@.account.id {
                        assert(old(self).mirror@.contains_key(k));
                    }
                }
            }
        }
        proof {
            assert forall|k: Seq<u8>| #[trigger]
                self.mirror@.contains_key(k) && !detail_ids(changed@).contains(k) implies
                self.mirror@[k] == old(self).mirror@[k] by {
                assert forall|x: int|
                    0 <= x < changed@.len() implies #[trigger] changed@[x]@.account.id != k by {
                    if changed@[x]@.account.id == k {
                        assert(detail_ids(changed@)[x] == k);
                    }
                }
            }
        }
        r
    }

    /// Inserts records for validators newly present in the id set and
    /// returns their summaries, which clients receive as inserts.
    fn apply_inserts(&mut self, new_validators: &Vec<ValidatorDetails>) -> (r: Vec<
        ValidatorSummary,
    >)
        requires
            old(self).wf(),
            forall|i: int|
                0 <= i < new_validators@.len() ==> !old(self).mirror@.contains_key(
                    #[trigger] new_validators@[i]@.account.id,
                ),
            forall|i: int, j: int|
                0 <= i < j < new_validators@.len() ==> new_validators@[i]@.account.id
                    != new_validators@[j]@.account.id,
        ensures
            final(self).wf(),
            final(self).last_finalized_block_number == old(self).last_finalized_block_number,
            forall|k: Seq<u8>|
                #[trigger] final(self).mirror@.contains_key(k) <==> (old(
                    self,
                ).mirror@.contains_key(k) || detail_ids(new_validators@).contains(k)),
            forall|i: int|
                0 <= i < new_validators@.len() ==> final(self).mirror@[
                    #[trigger] new_validators@[i]@.account.id]@ == new_validators@[i]@,
            forall|k: Seq<u8>|
                #[trigger] old(self).mirror@.contains_key(k) ==> final(self).mirror@[k] == old(
                    self,
                ).mirror@[k],
            r@.len() == new_validators@.len(),
            forall|i: int|
                0 <= i < new_validators@.len() ==> #[trigger] r@[i]@ == spec_validator_summary(
                    new_validators@[i]@,
                ),
    {
        let mut r: Vec<ValidatorSummary> = Vec::new();
        let mut i: usize = 0;
        while i < new_validators.len()
            invariant
                self.wf(),
                self.last_finalized_block_number == old(self).last_finalized_block_number,
                i <= new_validators@.len(),
                forall|x: int|
                    0 <= x < new_validators@.len() ==> !old(self).mirror@.contains_key(
                        #[trigger] new_validators@[x]@.account.id,
                    ),
                forall|x: int, y: int|
                    0 <= x < y < new_validators@.len() ==> new_validators@[x]@.account.id
                        != new_validators@[y]@.account.id,
                forall|k: Seq<u8>|
                    #[trigger] self.mirror@.contains_key(k) <==> (old(
                        self,
                    ).mirror@.contains_key(k) || (exists|x: int|
                        0 <= x < i && #[trigger] new_validators@[x]@.account.id == k)),
                forall|x: int|
                    0 <= x < i ==> self.mirror@[#[trigger] new_validators@[x]@.account.id]@
                        == new_validators@[x]@,
                forall|k: Seq<u8>|
                    #[trigger] old(self).mirror@.contains_key(k) ==> self.mirror@[k] == old(
                        self,
                    ).mirror@[k],
                r@.len() == i,
                forall|x: int|
                    0 <= x < i ==> #[trigger] r@[x]@ == spec_validator_summary(
                        new_validators@[x]@,
                    ),
            decreases new_validators@.len() - i,
        {
            let v = &new_validators[i];
            let summary = ValidatorSummary::from_details(v);
            self.mirror.insert(v.account.id.clone(), v.clone());
            r.push(summary);
            i = i + 1;
            proof {
                assert(self.mirror@[new_validators@[i - 1]@.account.id]@ == new_validators@[i
                    - 1]@);
            }
        }
        proof {
            assert forall|k: Seq<u8>| #[trigger]
                self.mirror@.contains_key(k) <==> (old(self).mirror@.contains_key(k) || detail_ids(
                new_validators@,
            ).contains(k)) by {
                if detail_ids(new_validators@).contains(k) {
                    let x = choose|x: int|
                        0 <= x < detail_ids(new_validators@).len() && #[trigger] detail_ids(
                            new_validators@,
                        )[x] == k;
                    assert(new_validators@[x]@.account.id == k);
                }
                if exists|x: int|
                    0 <= x < new_validators@.len() && #[trigger] new_validators@[x]@.account.id
                        == k {
                    let x = choose|x: int|
                        0 <= x < new_validators@.len() && #[trigger] new_validators@[x]@.account.id
                            == k;
                    assert(detail_ids(new_validators@)[x] == k);
                }
            }
        }
        r
    }
}



impl ValidatorListServer {
    /// One pub/sub notification for a finalized block, after the app
    /// has read the block\'s id set, re-fetched the mirrored records
    /// whose summary hash changed, and fetched the records of ids not
    /// mirrored yet. Removes the validators that left the set, applies
    /// the record diffs, inserts the fresh records, and assembles the
    /// update broadcast to subscribers.
    ///
    /// The last two conditions are the synchronisation law: a
    /// subscriber that applies the returned update to its copy of the
    /// mirror\'s summaries holds exactly the new mirror\'s summaries.
    #[verifier::rlimit(100)]
    #[verifier::spinoff_prover]
    pub fn process_block(
        &mut self,
        finalized_block_number: u64,
        present: &Vec<AccountId>,
        changed: &Vec<ValidatorDetails>,
        new_validators: &Vec<ValidatorDetails>,
    ) -> (r: ValidatorListUpdate)
        requires
            old(self).wf(),
            forall|i: int|
                0 <= i < changed@.len() ==> old(self).mirror@.contains_key(
                    #[trigger] changed@[i]@.account.id,
                ),
            forall|i: int|
                0 <= i < changed@.len() ==> ids_view(present@).contains(
                    #[trigger] changed@[i]@.account.id,
                ),
            forall|i: int, j: int|
                0 <= i < j < changed@.len() ==> changed@[i]@.account.id != changed@[j]@.account.id,
            forall|i: int|
                0 <= i < new_validators@.len() ==> !old(self).mirror@.contains_key(
                    #[trigger] new_validators@[i]@.account.id,
                ),
            forall|i: int|
                0 <= i < new_validators@.len() ==> ids_view(present@).contains(
                    #[trigger] new_validators@[i]@.account.id,
                ),
            forall|i: int, j: int|
                0 <= i < j < new_validators@.len() ==> new_validators@[i]@.account.id
                    != new_validators@[j]@.account.id,
        ensures
            final(self).wf(),
            final(self).last_finalized_block_number == finalized_block_number,
            r@.finalized_block_number == Some(finalized_block_number),
            forall|k: Seq<u8>|
                #[trigger] r@.remove_ids.contains(k) <==> (old(self).mirror@.contains_key(k)
                    && !ids_view(present@).contains(k)),
            forall|i: int, j: int|
                0 <= i < j < r@.remove_ids.len() ==> r@.remove_ids[i] != r@.remove_ids[j],
            r@.insert.len() == new_validators@.len(),
            forall|i: int|
                0 <= i < new_validators@.len() ==> #[trigger] r@.insert[i]
                    == spec_validator_summary(new_validators@[i]@),
            r@.update.len() == changed@.len(),
            forall|i: int|
                0 <= i < changed@.len() ==> #[trigger] r@.update[i] == spec_summary_diff(
                    spec_validator_summary(old(self).mirror@[changed@[i]@.account.id]@),
                    spec_validator_summary(changed@[i]@),
                ),
            forall|k: Seq<u8>|
                #[trigger] final(self).mirror@.contains_key(k) <==> ((old(
                    self,
                ).mirror@.contains_key(k) && ids_view(present@).contains(k)) || detail_ids(
                    new_validators@,
                ).contains(k)),
            forall|i: int|
                0 <= i < changed@.len() ==> final(self).mirror@[#[trigger] changed@[i]@.account.id]@
                    == changed@[i]@,
            forall|i: int|
                0 <= i < new_validators@.len() ==> final(self).mirror@[
                    #[trigger] new_validators@[i]@.account.id]@ == new_validators@[i]@,
            forall|k: Seq<u8>|
                #[trigger] final(self).mirror@.contains_key(k) && !detail_ids(changed@).contains(k)
                    && !detail_ids(new_validators@).contains(k) ==> old(
                    self,
                ).mirror@.contains_key(k) && final(self).mirror@[k] == old(self).mirror@[k],
            spec_apply_list_update(spec_summaries_of(old(self).mirror@), r@) == spec_summaries_of(
                final(self).mirror@,
            ),
    {
        let ghost m0 = old(self).mirror@;
        let remove_ids = self.compute_removals(present);
        self.apply_removals(&remove_ids);
        proof {
            assert forall|i: int|
                0 <= i < changed@.len() implies self.mirror@.contains_key(
                #[trigger] changed@[i]@.account.id,
            ) by {
                assert(!ids_view(remove_ids@).contains(changed@[i]@.account.id)) by {
                    if ids_view(remove_ids@).contains(changed@[i]@.account.id) {
                        let j = choose|j: int|
                            0 <= j < ids_view(remove_ids@).len() && #[trigger] ids_view(
                                remove_ids@,
                            )[j] == changed@[i]@.account.id;
                        assert(remove_ids@[j]@ == changed@[i]@.account.id);
                    }
                }
            }
        }
        let ghost m1 = self.mirror@;
        let update = self.apply_changes(changed);
        let ghost m2 = self.mirror@;
        let insert = self.apply_inserts(new_validators);
        self.last_finalized_block_number = finalized_block_number;
        let r = ValidatorListUpdate {
            finalized_block_number: Some(finalized_block_number),
            insert,
            update,
            remove_ids,
        };
        proof {
            assert forall|k: Seq<u8>| #[trigger]
                r@.remove_ids.contains(k) <==> (m0.contains_key(k) && !ids_view(
                present@,
            ).contains(k)) by {
                if r@.remove_ids.contains(k) {
                    let j = choose|j: int|
                        0 <= j < r@.remove_ids.len() && #[trigger] r@.remove_ids[j] == k;
                    assert(r.remove_ids@[j]@ == k);
                }
            }
            assert forall|i: int|
                0 <= i < new_validators@.len() implies #[trigger] r@.insert[i]
                == spec_validator_summary(new_validators@[i]@) by {
                assert(r@.insert[i] == r.insert@[i]@);
            }
            assert forall|i: int|
                0 <= i < changed@.len() implies #[trigger] r@.update[i] == spec_summary_diff(
                spec_validator_summary(m0[changed@[i]@.account.id]@),
                spec_validator_summary(changed@[i]@),
            ) by {
                assert(r@.update[i] == r.update@[i]@);
                assert(m1[changed@[i]@.account.id] == m0[changed@[i]@.account.id]);
            }
            assert forall|i: int|
                0 <= i < changed@.len() implies self.mirror@[
                #[trigger] changed@[i]@.account.id]@ == changed@[i]@ by {
                assert(m2.contains_key(changed@[i]@.account.id));
                assert(self.mirror@[changed@[i]@.account.id] == m2[changed@[i]@.account.id]);
            }
            assert forall|k: Seq<u8>| #[trigger]
                self.mirror@.contains_key(k) <==> ((m0.contains_key(k) && ids_view(
                present@,
            ).contains(k)) || detail_ids(new_validators@).contains(k)) by {
                if ids_view(remove_ids@).contains(k) {
                    let j = choose|j: int|
                        0 <= j < ids_view(remove_ids@).len() && #[trigger] ids_view(
                            remove_ids@,
                        )[j] == k;
                    assert(remove_ids@[j]@ == k);
                    assert(!ids_view(present@).contains(k));
                }
                if m0.contains_key(k) && !ids_view(present@).contains(k) {
                    assert(ids_view(remove_ids@).contains(k));
                }
            }
            let s0 = spec_summaries_of(m0);
            let s1 = spec_summaries_of(self.mirror@);
            let applied = spec_apply_list_update(s0, r@);
            assert forall|k: Seq<u8>| #[trigger]
                applied.contains_key(k) == s1.contains_key(k) by {
                if spec_insert_ids(r@.insert).contains(k) {
                    let i = choose|i: int|
                        0 <= i < spec_insert_ids(r@.insert).len() && #[trigger] spec_insert_ids(
                            r@.insert,
                        )[i] == k;
                    assert(r@.insert[i].account.id == k);
                    assert(new_validators@[i]@.account.id == k);
                    assert(detail_ids(new_validators@)[i] == k);
                    assert(self.mirror@.contains_key(k));
                }
                if detail_ids(new_validators@).contains(k) {
                    let i = choose|i: int|
                        0 <= i < detail_ids(new_validators@).len() && #[trigger] detail_ids(
                            new_validators@,
                        )[i] == k;
                    assert(new_validators@[i]@.account.id == k);
                    assert(spec_insert_ids(r@.insert)[i] == k);
                    assert(spec_insert_ids(r@.insert).contains(k));
                }
            }
            assert forall|k: Seq<u8>| applied.contains_key(k) implies #[trigger] applied[k]
                == s1[k] by {
                if spec_insert_ids(r@.insert).contains(k) {
                    let i = choose|i: int|
                        0 <= i < r@.insert.len() && #[trigger] r@.insert[i].account.id == k;
                    assert(r@.insert[i] == spec_validator_summary(new_validators@[i]@));
                    assert(new_validators@[i]@.account.id == k);
                    assert(self.mirror@[k]@ == new_validators@[i]@);
                    assert(applied[k] == r@.insert[i]);
                } else {
                    assert(s0.contains_key(k) && !r@.remove_ids.contains(k));
                    assert(m0.contains_key(k));
                    assert(!detail_ids(new_validators@).contains(k)) by {
                        if detail_ids(new_validators@).contains(k) {
                            let i = choose|i: int|
                                0 <= i < detail_ids(new_validators@).len() && #[trigger] detail_ids(
                                    new_validators@,
                                )[i] == k;
                            assert(spec_insert_ids(r@.insert)[i] == k);
                        }
                    }
                    if spec_update_ids(r@.update).contains(k) {
                        let i = choose|i: int|
                            0 <= i < r@.update.len() && #[trigger] r@.update[i].account.id == k;
                        assert(r@.update[i] == spec_summary_diff(
                            spec_validator_summary(m0[changed@[i]@.account.id]@),
                            spec_validator_summary(changed@[i]@),
                        ));
                        assert(changed@[i]@.account.id == k);
                        assert(applied[k] == spec_apply_summary_diff(s0[k], r@.update[i]));
                        crate::diff::lemma_summary_diff_round_trip(
                            spec_validator_summary(m0[k]@),
                            spec_validator_summary(changed@[i]@),
                        );
                        assert(applied[k] == spec_validator_summary(changed@[i]@));
                        assert(self.mirror@[k]@ == changed@[i]@);
                    } else {
                        assert(!detail_ids(changed@).contains(k)) by {
                            if detail_ids(changed@).contains(k) {
                                let i = choose|i: int|
                                    0 <= i < detail_ids(changed@).len() && #[trigger] detail_ids(
                                        changed@,
                                    )[i] == k;
                                assert(changed@[i]@.account.id == k);
                                assert(spec_update_ids(r@.update)[i] == k);
                            }
                        }
                        assert(applied[k] == s0[k]);
                        assert(self.mirror@.contains_key(k));
                        assert(self.mirror@[k] == m0[k]);
                    }
                }
            }
            assert(applied =~= s1);
        }
        r
    }
}

/// When the first block ever observed arrives the mirror is still
/// empty, so the update carries no removal: every id the block names
/// is an insert.
pub proof fn lemma_first_block_no_removals(
    m: Map<Seq<u8>, ValidatorDetails>,
    remove_ids: Seq<Seq<u8>>,
)
    requires
        m =~= Map::<Seq<u8>, ValidatorDetails>::empty(),
        forall|k: Seq<u8>| #[trigger] remove_ids.contains(k) ==> m.contains_key(k),
    ensures
        remove_ids =~= Seq::<Seq<u8>>::empty(),
{
    if remove_ids.len() > 0 {
        assert(remove_ids.contains(remove_ids[0]));
    }
}

/// A validator that leaves the id set is removed and is named by no
/// update and no insert of the same message: nothing follows a removal.
pub proof fn lemma_removed_id_gets_no_update(
    u: ValidatorListUpdateV,
    present: Seq<Seq<u8>>,
    update_ids: Seq<Seq<u8>>,
    insert_ids: Seq<Seq<u8>>,
    k: Seq<u8>,
)
    requires
        u.remove_ids.contains(k),
        forall|kk: Seq<u8>| #[trigger] u.remove_ids.contains(kk) ==> !present.contains(kk),
        forall|i: int|
            0 <= i < update_ids.len() ==> present.contains(#[trigger] update_ids[i]),
        forall|i: int|
            0 <= i < insert_ids.len() ==> present.contains(#[trigger] insert_ids[i]),
    ensures
        !update_ids.contains(k),
        !insert_ids.contains(k),
{
    if update_ids.contains(k) {
        let i = choose|i: int| 0 <= i < update_ids.len() && #[trigger] update_ids[i] == k;
    }
    if insert_ids.contains(k) {
        let i = choose|i: int| 0 <= i < insert_ids.len() && #[trigger] insert_ids[i] == k;
    }
}



/// Churn of a single validator: with exactly one validator mirrored
/// and the block\'s id set naming only another, an update whose
/// removals satisfy the processing step\'s characterization removes
/// exactly the mirrored one.
pub proof fn lemma_singleton_churn(
    m: Map<Seq<u8>, ValidatorDetails>,
    present: Seq<Seq<u8>>,
    remove_ids: Seq<Seq<u8>>,
    departing: Seq<u8>,
    arriving: Seq<u8>,
)
    requires
        m.dom() =~= Set::<Seq<u8>>::empty().insert(departing),
        present =~= seq![arriving],
        arriving != departing,
        forall|k: Seq<u8>|
            #[trigger] remove_ids.contains(k) <==> (m.contains_key(k) && !present.contains(k)),
        forall|i: int, j: int| 0 <= i < j < remove_ids.len() ==> remove_ids[i] != remove_ids[j],
    ensures
        remove_ids =~= seq![departing],
{
    assert(!present.contains(departing)) by {
        if present.contains(departing) {
            let i = choose|i: int| 0 <= i < present.len() && present[i] == departing;
            assert(present[0] == arriving);
        }
    }
    assert(m.contains_key(departing));
    assert(remove_ids.contains(departing));
    assert forall|i: int| 0 <= i < remove_ids.len() implies remove_ids[i] == departing by {
        assert(remove_ids.contains(remove_ids[i]));
        assert(m.contains_key(remove_ids[i]));
        assert(m.dom().contains(remove_ids[i]));
    }
    let w = choose|w: int| 0 <= w < remove_ids.len() && remove_ids[w] == departing;
    if remove_ids.len() >= 2 {
        assert(remove_ids[0] == departing && remove_ids[1] == departing);
        assert(false);
    }
}


} // verus!
