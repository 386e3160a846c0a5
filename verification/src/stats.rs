//! Era staking statistics: the stake backing each active validator and
//! the aggregates over them. The median is taken from the list sorted
//! by total stake.
use vstd::prelude::*;
use vstd::multiset::Multiset;

use crate::substrate::{Account, Balance, Era};
use crate::crypto::AccountId;

verus! {

/// A nominator's active stake on one validator.
#[derive(Debug)]
pub struct NominatorStake {
    pub account: Account,
    pub stake: Balance,
}

/// One active validator's stake: own, total, and per-nominator.
#[derive(Debug)]
pub struct ValidatorStake {
    pub account: Account,
    pub self_stake: Balance,
    pub total_stake: Balance,
    pub nominators: Vec<NominatorStake>,
}

/// All active stakers of an era.
#[derive(Debug)]
pub struct EraStakers {
    pub era: Era,
    pub stakers: Vec<ValidatorStake>,
}

/// Total reward points earned over an era, per validator.
#[derive(Debug)]
pub struct EraRewardPoints {
    pub total: u32,
    pub individual: Vec<(AccountId, u32)>,
}

/// The total stakes of a staker list, in list order.
pub open spec fn spec_total_stakes(vs: Seq<ValidatorStake>) -> Seq<Balance> {
    Seq::new(vs.len(), |i: int| vs[i].total_stake)
}

/// The sum of a list of balances.
pub open spec fn spec_balance_sum(xs: Seq<Balance>) -> int
    decreases xs.len(),
{
    if xs.len() == 0 {
        0
    } else {
        spec_balance_sum(xs.drop_last()) + xs.last()
    }
}

proof fn lemma_balance_sum_nonneg(xs: Seq<Balance>)
    ensures
        spec_balance_sum(xs) >= 0,
    decreases xs.len(),
{
    if xs.len() > 0 {
        lemma_balance_sum_nonneg(xs.drop_last());
    }
}

/// A sequence of balances in nondecreasing order.
pub open spec fn spec_sorted(xs: Seq<Balance>) -> bool {
    forall|i: int, j: int| 0 <= i < j < xs.len() ==> xs[i] <= xs[j]
}

/// Sorts a list of balances, keeping its multiset of values.
pub fn sort_balances(v: Vec<Balance>) -> (r: Vec<Balance>)
    ensures
        spec_sorted(r@),
        r@.to_multiset() == v@.to_multiset(),
        r@.len() == v@.len(),
{
    broadcast use vstd::seq_lib::group_to_multiset_ensures;

    let mut rest = v;
    let ghost orig = rest@;
    let mut r: Vec<Balance> = Vec::new();
    while rest.len() > 0
        invariant
            r@.to_multiset().add(rest@.to_multiset()) =~= orig.to_multiset(),
            r@.len() + rest@.len() == orig.len(),
            spec_sorted(r@),
            forall|i: int, j: int|
                0 <= i < r@.len() && 0 <= j < rest@.len() ==> r@[i] <= rest@[j],
        decreases rest@.len(),
    {
        let mut min_idx: usize = 0;
        let mut k: usize = 1;
        while k < rest.len()
            invariant
                rest@.len() > 0,
                min_idx < k,
                k <= rest@.len(),
                forall|j: int| 0 <= j < k ==> rest@[min_idx as int] <= rest@[j],
            decreases rest@.len() - k,
        {
            if rest[k] < rest[min_idx] {
                min_idx = k;
            }
            k = k + 1;
        }
        let ghost pre_rest = rest@;
        let ghost pre_r = r@;
        let m = rest.remove(min_idx);
        r.push(m);
        proof {
            broadcast use vstd::seq_lib::group_to_multiset_ensures;
            broadcast use vstd::multiset::group_multiset_axioms;

            vstd::seq_lib::to_multiset_remove(pre_rest, min_idx as int);
            vstd::seq_lib::to_multiset_build(pre_r, m);
            assert(rest@ == pre_rest.remove(min_idx as int));
            assert(rest@.to_multiset() =~= pre_rest.to_multiset().remove(m));
            assert(r@ == pre_r.push(m));
            assert(r@.to_multiset() =~= pre_r.to_multiset().insert(m));
            assert(pre_rest.to_multiset().count(m) >= 1) by {
                assert(pre_rest[min_idx as int] == m);
                assert(pre_rest.contains(m));
            }
            assert(r@.to_multiset().add(rest@.to_multiset()) =~= orig.to_multiset());
            assert forall|i: int, j: int|
                0 <= i < r@.len() && 0 <= j < rest@.len() implies r@[i] <= rest@[j] by {
                let j0 = if j < min_idx {
                    j
                } else {
                    j + 1
                };
                assert(rest@[j] == pre_rest[j0]);
                if i < pre_r.len() {
                    assert(r@[i] == pre_r[i]);
                } else {
                    assert(r@[i] == m);
                }
            }
            assert forall|i: int, j: int|
                0 <= i < j < r@.len() implies r@[i] <= r@[j] by {
                if j == r@.len() - 1 {
                    assert(pre_rest[min_idx as int] == m);
                    assert(pre_r.len() == 0 || pre_r[i] <= pre_rest[min_idx as int]);
                }
            }
        }
    }
    proof {
        broadcast use vstd::seq_lib::group_to_multiset_ensures;
        broadcast use vstd::multiset::group_multiset_axioms;

        assert(rest@.to_multiset() =~= Multiset::<Balance>::empty());
        assert(r@.to_multiset() =~= orig.to_multiset());
    }
    r
}

impl EraStakers {
    /// The total stake backing all active validators, saturated at the
    /// balance range.
    pub fn total_stake(&self) -> (r: Balance)
        ensures
            r == if spec_balance_sum(spec_total_stakes(self.stakers@)) > Balance::MAX {
                Balance::MAX
            } else {
                spec_balance_sum(spec_total_stakes(self.stakers@)) as Balance
            },
    {
        let ghost xs = spec_total_stakes(self.stakers@);
        let mut total: Balance = 0;
        let mut i: usize = 0;
        while i < self.stakers.len()
            invariant
                xs == spec_total_stakes(self.stakers@),
                xs.len() == self.stakers@.len(),
                i <= self.stakers@.len(),
                total == if spec_balance_sum(xs.take(i as int)) > Balance::MAX {
                    Balance::MAX
                } else {
                    spec_balance_sum(xs.take(i as int)) as Balance
                },
            decreases self.stakers@.len() - i,
        {
            let x = self.stakers[i].total_stake;
            proof {
                let cur = xs.take(i + 1);
                assert(cur.drop_last() =~= xs.take(i as int));
                assert(cur.last() == xs[i as int]);
                assert(xs[i as int] == self.stakers@[i as int].total_stake);
                lemma_balance_sum_nonneg(xs.take(i as int));
            }
            if total > Balance::MAX - x {
                total = Balance::MAX;
            } else {
                total = total + x;
            }
            i = i + 1;
        }
        proof {
            assert(xs.take(xs.len() as int) =~= xs);
        }
        total
    }

    /// The smallest stake backing an active validator, with an account
    /// it backs.
    pub fn min_stake(&self) -> (r: (Account, Balance))
        requires
            self.stakers@.len() > 0,
        ensures
            forall|j: int| 0 <= j < self.stakers@.len() ==> r.1 <= #[trigger] self.stakers@[j].total_stake,
            exists|j: int|
                0 <= j < self.stakers@.len() && r.1 == #[trigger] self.stakers@[j].total_stake
                    && r.0@ == self.stakers@[j].account@,
    {
        let mut best: usize = 0;
        let mut k: usize = 1;
        while k < self.stakers.len()
            invariant
                self.stakers@.len() > 0,
                best < k,
                k <= self.stakers@.len(),
                forall|j: int| 0 <= j < k ==> self.stakers@[best as int].total_stake <= #[trigger] self.stakers@[j].total_stake,
            decreases self.stakers@.len() - k,
        {
            if self.stakers[k].total_stake < self.stakers[best].total_stake {
                best = k;
            }
            k = k + 1;
        }
        (self.stakers[best].account.clone(), self.stakers[best].total_stake)
    }

    /// The largest stake backing an active validator, with an account
    /// it backs.
    pub fn max_stake(&self) -> (r: (Account, Balance))
        requires
            self.stakers@.len() > 0,
        ensures
            forall|j: int| 0 <= j < self.stakers@.len() ==> r.1 >= #[trigger] self.stakers@[j].total_stake,
            exists|j: int|
                0 <= j < self.stakers@.len() && r.1 == #[trigger] self.stakers@[j].total_stake
                    && r.0@ == self.stakers@[j].account@,
    {
        let mut best: usize = 0;
        let mut k: usize = 1;
        while k < self.stakers.len()
            invariant
                self.stakers@.len() > 0,
                best < k,
                k <= self.stakers@.len(),
                forall|j: int| 0 <= j < k ==> self.stakers@[best as int].total_stake >= #[trigger] self.stakers@[j].total_stake,
            decreases self.stakers@.len() - k,
        {
            if self.stakers[k].total_stake > self.stakers[best].total_stake {
                best = k;
            }
            k = k + 1;
        }
        (self.stakers[best].account.clone(), self.stakers[best].total_stake)
    }

    /// The average stake backing an active validator: the saturated
    /// total divided by the validator count.
    pub fn average_stake(&self) -> (r: Balance)
        requires
            self.stakers@.len() > 0,
        ensures
            r == (if spec_balance_sum(spec_total_stakes(self.stakers@)) > Balance::MAX {
                Balance::MAX
            } else {
                spec_balance_sum(spec_total_stakes(self.stakers@)) as Balance
            }) / (self.stakers@.len() as Balance),
    {
        let sum = self.total_stake();
        sum / (self.stakers.len() as Balance)
    }

    /// The median stake backing an active validator: the midpoint of
    /// the stakes sorted in nondecreasing order.
    pub fn median_stake(&self) -> (r: Balance)
        requires
            self.stakers@.len() > 0,
        ensures
            exists|s: Seq<Balance>|
                {
                    &&& #[trigger] spec_sorted(s)
                    &&& s.to_multiset() == spec_total_stakes(self.stakers@).to_multiset()
                    &&& s.len() == self.stakers@.len()
                    &&& r == s[(s.len() / 2) as int]
                },
    {
        let mut totals: Vec<Balance> = Vec::new();
        let mut i: usize = 0;
        while i < self.stakers.len()
            invariant
                i <= self.stakers@.len(),
                totals@.len() == i,
                forall|j: int| 0 <= j < i ==> totals@[j] == self.stakers@[j].total_stake,
            decreases self.stakers@.len() - i,
        {
            totals.push(self.stakers[i].total_stake);
            i = i + 1;
        }
        proof {
            assert(totals@ =~= spec_total_stakes(self.stakers@));
        }
        let sorted = sort_balances(totals);
        let mid = sorted.len() / 2;
        let r = sorted[mid];
        proof {
            assert(spec_sorted(sorted@) && sorted@.to_multiset() == spec_total_stakes(
                self.stakers@,
            ).to_multiset() && sorted@.len() == self.stakers@.len() && r == sorted@[(sorted@.len()
                / 2) as int]);
        }
        r
    }
}


/// A run of nominator exposures read at a position: each one a
/// 32-byte account id and a compact stake.
pub open spec fn spec_nominators_from(b: Seq<u8>, pos: int, n: int) -> Option<
    (Seq<(Seq<u8>, Balance)>, int),
>
    decreases n,
{
    if n <= 0 {
        Some((Seq::empty(), pos))
    } else if pos < 0 || pos + 32 > b.len() {
        None
    } else {
        let who = b.subrange(pos, pos + 32);
        match crate::scale::spec_compact_u128(b, pos + 32) {
            Some((value, p1)) => match spec_nominators_from(b, p1, n - 1) {
                Some((rest, pend)) => Some((seq![(who, value)] + rest, pend)),
                None => None,
            },
            None => None,
        }
    }
}

/// An account holding nothing but an id, as exposure entries name
/// their nominators.
pub open spec fn spec_bare_account(a: crate::substrate::AccountV) -> bool {
    &&& a.identity is None
    &&& a.parent is None
    &&& a.child_display is None
    &&& a.discovered_at is None
    &&& a.killed_at is None
}

fn bare_account(id: AccountId) -> (r: Account)
    ensures
        r@.id == id@,
        spec_bare_account(r@),
{
    Account {
        id,
        identity: None,
        parent: Box::new(None),
        child_display: None,
        discovered_at: None,
        killed_at: None,
    }
}

fn read_nominators(b: &Vec<u8>, pos: usize, n: u32) -> (r: Option<(Vec<NominatorStake>, usize)>)
    requires
        pos <= b@.len(),
    ensures
        match r {
            Some((ns, next)) => {
                &&& spec_nominators_from(b@, pos as int, n as int) matches Some((nsv, nextv))
                    && ns@.len() == nsv.len() && (forall|j: int|
                    0 <= j < nsv.len() ==> (#[trigger] ns@[j]).account@.id == nsv[j].0
                        && ns@[j].stake == nsv[j].1 && spec_bare_account(ns@[j].account@)) && next
                    == nextv
                &&& next <= b@.len()
            },
            None => spec_nominators_from(b@, pos as int, n as int) is None,
        },
    decreases n,
{
    if n == 0 {
        let ns: Vec<NominatorStake> = Vec::new();
        return Some((ns, pos));
    }
    let (who, p1) = match crate::scale::read_account_id(b, pos) {
        Some(x) => x,
        None => {
            return None;
        },
    };
    let (value, p2) = match crate::scale::compact_u128(b, p1) {
        Some(x) => x,
        None => {
            return None;
        },
    };
    let (mut rest, pend) = match read_nominators(b, p2, n - 1) {
        Some(x) => x,
        None => {
            return None;
        },
    };
    let ghost pre = rest@;
    rest.insert(0, NominatorStake { account: bare_account(who), stake: value });
    proof {
        assert(rest@ =~= seq![rest@[0]] + pre);
    }
    Some((rest, pend))
}

/// The exposure named by its runtime bytes: the compact total and own
/// stakes, then the compact-prefixed nominator list.
pub open spec fn spec_exposure_from(b: Seq<u8>) -> Option<
    (Balance, Balance, Seq<(Seq<u8>, Balance)>),
> {
    match crate::scale::spec_compact_u128(b, 0) {
        Some((total, p1)) => match crate::scale::spec_compact_u128(b, p1) {
            Some((own, p2)) => match crate::scale::spec_compact_u32(b, p2) {
                Some((count, p3)) => match spec_nominators_from(b, p3, count as int) {
                    Some((others, _pend)) => Some((total, own, others)),
                    None => None,
                },
                None => None,
            },
            None => None,
        },
        None => None,
    }
}

impl ValidatorStake {
    /// Reads one validator\'s exposure from its runtime encoding: the
    /// compact total and own stakes, then each nominator\'s id and
    /// compact stake, carried over in order. The validator\'s own
    /// account id is the storage key\'s, handed in alongside; every
    /// account carries only its id.
    pub fn from_bytes(bytes: &Vec<u8>, validator_account_id: AccountId) -> (r: Option<
        ValidatorStake,
    >)
        ensures
            match r {
                Some(v) => {
                    &&& spec_exposure_from(bytes@) matches Some((total, own, others)) && v
                        .total_stake == total && v.self_stake == own && v.nominators@.len()
                        == others.len() && (forall|j: int|
                        0 <= j < others.len() ==> (#[trigger] v.nominators@[j]).account@.id
                            == others[j].0 && v.nominators@[j].stake == others[j].1
                            && spec_bare_account(v.nominators@[j].account@))
                    &&& v.account@.id == validator_account_id@
                    &&& spec_bare_account(v.account@)
                },
                None => spec_exposure_from(bytes@) is None,
            },
    {
        let (total, p1) = match crate::scale::compact_u128(bytes, 0) {
            Some(x) => x,
            None => {
                return None;
            },
        };
        let (own, p2) = match crate::scale::compact_u128(bytes, p1) {
            Some(x) => x,
            None => {
                return None;
            },
        };
        let (count, p3) = match crate::scale::compact_u32(bytes, p2) {
            Some(x) => x,
            None => {
                return None;
            },
        };
        let (nominators, _pend) = match read_nominators(bytes, p3, count) {
            Some(x) => x,
            None => {
                return None;
            },
        };
        Some(
            ValidatorStake {
                account: bare_account(validator_account_id),
                self_stake: own,
                total_stake: total,
                nominators,
            },
        )
    }
}

} // verus!
