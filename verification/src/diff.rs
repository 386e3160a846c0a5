//! The structural diff protocol: a diff for a record carries the key
//! field whole and, for each value field that changed, the new value;
//! unchanged value fields are omitted. Applying a diff overwrites the
//! present fields and leaves absent fields untouched.
use vstd::prelude::*;

use crate::crypto::AccountId;
use crate::substrate::{
    view_opt_string, Account, IdentityRegistration, IdentityRegistrationSummary, Nomination,
    NominationsSummary, RewardDestination, RewardDestinationV, Stake, StakeSummary,
    ValidatorPreferences,
};
use crate::subvt::{
    clone_nominations, view_nominations, AccountSummary, AccountSummaryV, LiveNetworkStatus,
    LiveNetworkStatusV, ValidatorDetails, ValidatorDetailsV, ValidatorSummary, ValidatorSummaryV,
};

verus! {

/// Compares two optional strings by value.
pub fn opt_string_eq(a: &Option<String>, b: &Option<String>) -> (r: bool)
    ensures
        r == (view_opt_string(*a) == view_opt_string(*b)),
{
    match (a, b) {
        (Some(x), Some(y)) => *x == *y,
        (None, None) => true,
        _ => false,
    }
}

/// Compares two identity registrations by value.
pub fn identity_registration_eq(a: &IdentityRegistration, b: &IdentityRegistration) -> (r: bool)
    ensures
        r == (a@ == b@),
{
    opt_string_eq(&a.display, &b.display) && opt_string_eq(&a.email, &b.email) && opt_string_eq(
        &a.riot,
        &b.riot,
    ) && opt_string_eq(&a.twitter, &b.twitter) && opt_string_eq(&a.web, &b.web) && a.confirmed
        == b.confirmed
}

/// Compares two identity summaries by value.
pub fn identity_summary_eq(
    a: &IdentityRegistrationSummary,
    b: &IdentityRegistrationSummary,
) -> (r: bool)
    ensures
        r == (a@ == b@),
{
    opt_string_eq(&a.display, &b.display) && a.confirmed == b.confirmed
}

/// Compares two accounts by value, parents included.
pub fn account_eq(a: &Account, b: &Account) -> (r: bool)
    ensures
        r == (a@ == b@),
    decreases *a,
{
    let ids = a.id.eq_id(&b.id);
    let identities = match (&a.identity, &b.identity) {
        (Some(x), Some(y)) => identity_registration_eq(x, y),
        (None, None) => true,
        _ => false,
    };
    let parents = match (&*a.parent, &*b.parent) {
        (Some(x), Some(y)) => account_eq(x, y),
        (None, None) => true,
        _ => false,
    };
    ids && identities && parents && opt_string_eq(&a.child_display, &b.child_display)
        && a.discovered_at == b.discovered_at && a.killed_at == b.killed_at
}

/// Compares two account summaries by value.
pub fn account_summary_eq(a: &AccountSummary, b: &AccountSummary) -> (r: bool)
    ensures
        r == (a@ == b@),
{
    let identities = match (&a.identity, &b.identity) {
        (Some(x), Some(y)) => identity_summary_eq(x, y),
        (None, None) => true,
        _ => false,
    };
    a.id.eq_id(&b.id) && identities && opt_string_eq(&a.child_display, &b.child_display)
        && a.confirmed == b.confirmed
}

/// Compares two stakes by value.
pub fn stake_eq(a: &Stake, b: &Stake) -> (r: bool)
    ensures
        r == (a@ == b@),
{
    a.stash_account_id.eq_id(&b.stash_account_id) && a.total_amount == b.total_amount
        && a.active_amount == b.active_amount
}

/// Compares two stake summaries by value.
pub fn stake_summary_eq(a: &StakeSummary, b: &StakeSummary) -> (r: bool)
    ensures
        r == (a@ == b@),
{
    a.stash_account_id.eq_id(&b.stash_account_id) && a.active_amount == b.active_amount
}

/// Compares two reward destinations by value.
pub fn reward_destination_eq(a: &RewardDestination, b: &RewardDestination) -> (r: bool)
    ensures
        r == (a@ == b@),
{
    match (a, b) {
        (RewardDestination::Staked, RewardDestination::Staked) => true,
        (RewardDestination::Stash, RewardDestination::Stash) => true,
        (RewardDestination::Controller, RewardDestination::Controller) => true,
        (RewardDestination::Account(x), RewardDestination::Account(y)) => x.eq_id(y),
        (RewardDestination::NoPayout, RewardDestination::NoPayout) => true,
        _ => false,
    }
}

/// Compares two lists of account ids by value.
pub fn account_id_list_eq(a: &Vec<AccountId>, b: &Vec<AccountId>) -> (r: bool)
    ensures
        r == (Seq::new(a@.len(), |i: int| a@[i]@) == Seq::new(b@.len(), |i: int| b@[i]@)),
{
    let ghost av = Seq::new(a@.len(), |i: int| a@[i]@);
    let ghost bv = Seq::new(b@.len(), |i: int| b@[i]@);
    if a.len() != b.len() {
        proof {
            assert(av.len() != bv.len());
        }
        return false;
    }
    let mut i: usize = 0;
    while i < a.len()
        invariant
            a@.len() == b@.len(),
            i <= a@.len(),
            av == Seq::new(a@.len(), |i: int| a@[i]@),
            bv == Seq::new(b@.len(), |i: int| b@[i]@),
            forall|j: int| 0 <= j < i ==> av[j] == bv[j],
        decreases a@.len() - i,
    {
        if !a[i].eq_id(&b[i]) {
            proof {
                assert(av[i as int] != bv[i as int]);
            }
            return false;
        }
        i = i + 1;
    }
    proof {
        assert(av =~= bv);
    }
    true
}

/// Compares two nominations by value.
pub fn nomination_eq(a: &Nomination, b: &Nomination) -> (r: bool)
    ensures
        r == (a@ == b@),
{
    a.stash_account_id.eq_id(&b.stash_account_id) && a.submission_era_index
        == b.submission_era_index && account_id_list_eq(&a.target_account_ids, &b.target_account_ids)
        && stake_eq(&a.stake, &b.stake)
}

/// Compares two lists of nominations by value.
pub fn nominations_eq(a: &Vec<Nomination>, b: &Vec<Nomination>) -> (r: bool)
    ensures
        r == (view_nominations(a@) == view_nominations(b@)),
{
    let ghost av = view_nominations(a@);
    let ghost bv = view_nominations(b@);
    if a.len() != b.len() {
        proof {
            assert(av.len() != bv.len());
        }
        return false;
    }
    let mut i: usize = 0;
    while i < a.len()
        invariant
            a@.len() == b@.len(),
            i <= a@.len(),
            av == view_nominations(a@),
            bv == view_nominations(b@),
            forall|j: int| 0 <= j < i ==> av[j] == bv[j],
        decreases a@.len() - i,
    {
        if !nomination_eq(&a[i], &b[i]) {
            proof {
                assert(av[i as int] != bv[i as int]);
            }
            return false;
        }
        i = i + 1;
    }
    proof {
        assert(av =~= bv);
    }
    true
}

/// Compares two lists of era indices by value.
pub fn era_index_list_eq(a: &Vec<u32>, b: &Vec<u32>) -> (r: bool)
    ensures
        r == (a@ == b@),
{
    let r = a == b;
    proof {
        if r {
            assert(a@ =~= b@);
        } else {
            if a@ == b@ {
                assert(forall|i: int| 0 <= i < a@.len() ==> a@[i] == b@[i]);
                assert(false);
            }
        }
    }
    r
}

/// A diff between two validator summaries with the same identity: the
/// account projection is carried whole (its id names the record), every
/// other field only where it changed.
#[derive(Debug)]
pub struct ValidatorSummaryDiff {
    pub account: AccountSummary,
    pub preferences: Option<ValidatorPreferences>,
    pub self_stake: Option<StakeSummary>,
    pub active_next_session: Option<bool>,
    pub nominations: Option<NominationsSummary>,
    pub oversubscribed: Option<bool>,
    pub slashed: Option<bool>,
}

/// Mathematical value of a summary diff.
pub ghost struct ValidatorSummaryDiffV {
    pub account: AccountSummaryV,
    pub preferences: Option<ValidatorPreferences>,
    pub self_stake: Option<crate::substrate::StakeSummaryV>,
    pub active_next_session: Option<bool>,
    pub nominations: Option<NominationsSummary>,
    pub oversubscribed: Option<bool>,
    pub slashed: Option<bool>,
}

impl View for ValidatorSummaryDiff {
    type V = ValidatorSummaryDiffV;

    open spec fn view(&self) -> ValidatorSummaryDiffV {
        ValidatorSummaryDiffV {
            account: self.account@,
            preferences: self.preferences,
            self_stake: match self.self_stake {
                Some(s) => Some(s@),
                None => None,
            },
            active_next_session: self.active_next_session,
            nominations: self.nominations,
            oversubscribed: self.oversubscribed,
            slashed: self.slashed,
        }
    }
}

impl Clone for ValidatorSummaryDiff {
    fn clone(&self) -> (res: Self)
        ensures
            res@ == self@,
    {
        ValidatorSummaryDiff {
            account: self.account.clone(),
            preferences: self.preferences,
            self_stake: match &self.self_stake {
                Some(s) => Some(s.clone()),
                None => None,
            },
            active_next_session: self.active_next_session,
            nominations: self.nominations,
            oversubscribed: self.oversubscribed,
            slashed: self.slashed,
        }
    }
}

/// The diff of two summaries: the new account projection, and each value
/// field that differs, with its new value.
pub open spec fn spec_summary_diff(
    x: ValidatorSummaryV,
    y: ValidatorSummaryV,
) -> ValidatorSummaryDiffV {
    ValidatorSummaryDiffV {
        account: y.account,
        preferences: if x.preferences == y.preferences {
            None
        } else {
            Some(y.preferences)
        },
        self_stake: if x.self_stake == y.self_stake {
            None
        } else {
            Some(y.self_stake)
        },
        active_next_session: if x.active_next_session == y.active_next_session {
            None
        } else {
            Some(y.active_next_session)
        },
        nominations: if x.nominations == y.nominations {
            None
        } else {
            Some(y.nominations)
        },
        oversubscribed: if x.oversubscribed == y.oversubscribed {
            None
        } else {
            Some(y.oversubscribed)
        },
        slashed: if x.slashed == y.slashed {
            None
        } else {
            Some(y.slashed)
        },
    }
}

/// The result of applying a summary diff: the diff's account projection,
/// each present value field, and the local value of each absent field.
pub open spec fn spec_apply_summary_diff(
    x: ValidatorSummaryV,
    d: ValidatorSummaryDiffV,
) -> ValidatorSummaryV {
    ValidatorSummaryV {
        account: d.account,
        preferences: match d.preferences {
            Some(v) => v,
            None => x.preferences,
        },
        self_stake: match d.self_stake {
            Some(v) => v,
            None => x.self_stake,
        },
        active_next_session: match d.active_next_session {
            Some(v) => v,
            None => x.active_next_session,
        },
        nominations: match d.nominations {
            Some(v) => v,
            None => x.nominations,
        },
        oversubscribed: match d.oversubscribed {
            Some(v) => v,
            None => x.oversubscribed,
        },
        slashed: match d.slashed {
            Some(v) => v,
            None => x.slashed,
        },
    }
}

impl ValidatorSummaryDiff {
    /// Whether this diff changes no value field beyond the account
    /// projection it carries.
    pub open spec fn is_empty(&self) -> bool {
        &&& self@.preferences is None
        &&& self@.self_stake is None
        &&& self@.active_next_session is None
        &&& self@.nominations is None
        &&& self@.oversubscribed is None
        &&& self@.slashed is None
    }
}

/// Whether a summary diff value changes no value field.
pub open spec fn spec_summary_diff_is_empty(d: ValidatorSummaryDiffV) -> bool {
    &&& d.preferences is None
    &&& d.self_stake is None
    &&& d.active_next_session is None
    &&& d.nominations is None
    &&& d.oversubscribed is None
    &&& d.slashed is None
}

impl ValidatorSummary {
    /// The diff that turns this summary into `other`.
    pub fn get_diff(&self, other: &ValidatorSummary) -> (r: ValidatorSummaryDiff)
        ensures
            r@ == spec_summary_diff(self@, other@),
    {
        ValidatorSummaryDiff {
            account: other.account.clone(),
            preferences: if self.preferences == other.preferences {
                None
            } else {
                Some(other.preferences)
            },
            self_stake: if stake_summary_eq(&self.self_stake, &other.self_stake) {
                None
            } else {
                Some(other.self_stake.clone())
            },
            active_next_session: if self.active_next_session == other.active_next_session {
                None
            } else {
                Some(other.active_next_session)
            },
            nominations: if self.nominations == other.nominations {
                None
            } else {
                Some(other.nominations)
            },
            oversubscribed: if self.oversubscribed == other.oversubscribed {
                None
            } else {
                Some(other.oversubscribed)
            },
            slashed: if self.slashed == other.slashed {
                None
            } else {
                Some(other.slashed)
            },
        }
    }

    /// Overwrites this summary with the fields a diff carries.
    pub fn apply_diff(&mut self, diff: &ValidatorSummaryDiff)
        ensures
            final(self)@ == spec_apply_summary_diff(old(self)@, diff@),
    {
        self.account = diff.account.clone();
        if let Some(v) = &diff.preferences {
            self.preferences = *v;
        }
        if let Some(v) = &diff.self_stake {
            self.self_stake = v.clone();
        }
        if let Some(v) = &diff.active_next_session {
            self.active_next_session = *v;
        }
        if let Some(v) = &diff.nominations {
            self.nominations = *v;
        }
        if let Some(v) = &diff.oversubscribed {
            self.oversubscribed = *v;
        }
        if let Some(v) = &diff.slashed {
            self.slashed = *v;
        }
    }
}

/// Applying the diff of two summaries to the first yields the second,
/// whatever the two summaries are.
pub proof fn lemma_summary_diff_round_trip(x: ValidatorSummaryV, y: ValidatorSummaryV)
    ensures
        spec_apply_summary_diff(x, spec_summary_diff(x, y)) == y,
{
}

/// The diff of a summary with itself carries no value field.
pub proof fn lemma_summary_diff_self_empty(x: ValidatorSummaryV)
    ensures
        spec_summary_diff_is_empty(spec_summary_diff(x, x)),
{
}


/// A diff between two validator records with the same identity: the
/// account is carried whole (its id names the record), every other
/// field only where it changed.
#[derive(Debug)]
pub struct ValidatorDetailsDiff {
    pub account: Account,
    pub controller_account: Option<Account>,
    pub preferences: Option<ValidatorPreferences>,
    pub self_stake: Option<Stake>,
    pub reward_destination: Option<RewardDestination>,
    pub next_session_keys: Option<String>,
    pub is_active: Option<bool>,
    pub active_next_session: Option<bool>,
    pub nominations: Option<Vec<Nomination>>,
    pub oversubscribed: Option<bool>,
    pub slashed: Option<bool>,
    pub slash_count: Option<u64>,
    pub offline_offence_count: Option<u64>,
    pub active_era_count: Option<u64>,
    pub inactive_era_count: Option<u64>,
    pub total_reward_points: Option<u64>,
    pub unclaimed_era_indices: Option<Vec<u32>>,
    pub blocks_authored: Option<u64>,
    pub reward_points: Option<u64>,
    pub heartbeat_received: Option<bool>,
    pub onekv_candidate_record_id: Option<Option<u32>>,
    pub onekv_rank: Option<Option<u64>>,
    pub onekv_is_valid: Option<Option<bool>>,
}

/// Mathematical value of a validator record diff.
pub ghost struct ValidatorDetailsDiffV {
    pub account: crate::substrate::AccountV,
    pub controller_account: Option<crate::substrate::AccountV>,
    pub preferences: Option<ValidatorPreferences>,
    pub self_stake: Option<crate::substrate::StakeV>,
    pub reward_destination: Option<RewardDestinationV>,
    pub next_session_keys: Option<Seq<char>>,
    pub is_active: Option<bool>,
    pub active_next_session: Option<bool>,
    pub nominations: Option<Seq<crate::substrate::NominationV>>,
    pub oversubscribed: Option<bool>,
    pub slashed: Option<bool>,
    pub slash_count: Option<u64>,
    pub offline_offence_count: Option<u64>,
    pub active_era_count: Option<u64>,
    pub inactive_era_count: Option<u64>,
    pub total_reward_points: Option<u64>,
    pub unclaimed_era_indices: Option<Seq<u32>>,
    pub blocks_authored: Option<u64>,
    pub reward_points: Option<u64>,
    pub heartbeat_received: Option<bool>,
    pub onekv_candidate_record_id: Option<Option<u32>>,
    pub onekv_rank: Option<Option<u64>>,
    pub onekv_is_valid: Option<Option<bool>>,
}

impl View for ValidatorDetailsDiff {
    type V = ValidatorDetailsDiffV;

    open spec fn view(&self) -> ValidatorDetailsDiffV {
        ValidatorDetailsDiffV {
            account: self.account@,
            controller_account: match self.controller_account {
                Some(a) => Some(a@),
                None => None,
            },
            preferences: self.preferences,
            self_stake: match self.self_stake {
                Some(s) => Some(s@),
                None => None,
            },
            reward_destination: match self.reward_destination {
                Some(d) => Some(d@),
                None => None,
            },
            next_session_keys: match self.next_session_keys {
                Some(k) => Some(k@),
                None => None,
            },
            is_active: self.is_active,
            active_next_session: self.active_next_session,
            nominations: match self.nominations {
                Some(n) => Some(view_nominations(n@)),
                None => None,
            },
            oversubscribed: self.oversubscribed,
            slashed: self.slashed,
            slash_count: self.slash_count,
            offline_offence_count: self.offline_offence_count,
            active_era_count: self.active_era_count,
            inactive_era_count: self.inactive_era_count,
            total_reward_points: self.total_reward_points,
            unclaimed_era_indices: match self.unclaimed_era_indices {
                Some(u) => Some(u@),
                None => None,
            },
            blocks_authored: self.blocks_authored,
            reward_points: self.reward_points,
            heartbeat_received: self.heartbeat_received,
            onekv_candidate_record_id: self.onekv_candidate_record_id,
            onekv_rank: self.onekv_rank,
            onekv_is_valid: self.onekv_is_valid,
        }
    }
}

/// The diff of two validator records: the new account, and each value
/// field that differs, with its new value.
pub open spec fn spec_details_diff(
    x: ValidatorDetailsV,
    y: ValidatorDetailsV,
) -> ValidatorDetailsDiffV {
    ValidatorDetailsDiffV {
        account: y.account,
        controller_account: if x.controller_account == y.controller_account {
            None
        } else {
            Some(y.controller_account)
        },
        preferences: if x.preferences == y.preferences {
            None
        } else {
            Some(y.preferences)
        },
        self_stake: if x.self_stake == y.self_stake {
            None
        } else {
            Some(y.self_stake)
        },
        reward_destination: if x.reward_destination == y.reward_destination {
            None
        } else {
            Some(y.reward_destination)
        },
        next_session_keys: if x.next_session_keys == y.next_session_keys {
            None
        } else {
            Some(y.next_session_keys)
        },
        is_active: if x.is_active == y.is_active {
            None
        } else {
            Some(y.is_active)
        },
        active_next_session: if x.active_next_session == y.active_next_session {
            None
        } else {
            Some(y.active_next_session)
        },
        nominations: if x.nominations == y.nominations {
            None
        } else {
            Some(y.nominations)
        },
        oversubscribed: if x.oversubscribed == y.oversubscribed {
            None
        } else {
            Some(y.oversubscribed)
        },
        slashed: if x.slashed == y.slashed {
            None
        } else {
            Some(y.slashed)
        },
        slash_count: if x.slash_count == y.slash_count {
            None
        } else {
            Some(y.slash_count)
        },
        offline_offence_count: if x.offline_offence_count == y.offline_offence_count {
            None
        } else {
            Some(y.offline_offence_count)
        },
        active_era_count: if x.active_era_count == y.active_era_count {
            None
        } else {
            Some(y.active_era_count)
        },
        inactive_era_count: if x.inactive_era_count == y.inactive_era_count {
            None
        } else {
            Some(y.inactive_era_count)
        },
        total_reward_points: if x.total_reward_points == y.total_reward_points {
            None
        } else {
            Some(y.total_reward_points)
        },
        unclaimed_era_indices: if x.unclaimed_era_indices == y.unclaimed_era_indices {
            None
        } else {
            Some(y.unclaimed_era_indices)
        },
        blocks_authored: if x.blocks_authored == y.blocks_authored {
            None
        } else {
            Some(y.blocks_authored)
        },
        reward_points: if x.reward_points == y.reward_points {
            None
        } else {
            Some(y.reward_points)
        },
        heartbeat_received: if x.heartbeat_received == y.heartbeat_received {
            None
        } else {
            Some(y.heartbeat_received)
        },
        onekv_candidate_record_id: if x.onekv_candidate_record_id == y.onekv_candidate_record_id {
            None
        } else {
            Some(y.onekv_candidate_record_id)
        },
        onekv_rank: if x.onekv_rank == y.onekv_rank {
            None
        } else {
            Some(y.onekv_rank)
        },
        onekv_is_valid: if x.onekv_is_valid == y.onekv_is_valid {
            None
        } else {
            Some(y.onekv_is_valid)
        },
    }
}

/// The result of applying a record diff: the diff\'s account, each
/// present value field, and the local value of each absent field.
pub open spec fn spec_apply_details_diff(
    x: ValidatorDetailsV,
    d: ValidatorDetailsDiffV,
) -> ValidatorDetailsV {
    ValidatorDetailsV {
        account: d.account,
        controller_account: match d.controller_account {
            Some(v) => v,
            None => x.controller_account,
        },
        preferences: match d.preferences {
            Some(v) => v,
            None => x.preferences,
        },
        self_stake: match d.self_stake {
            Some(v) => v,
            None => x.self_stake,
        },
        reward_destination: match d.reward_destination {
            Some(v) => v,
            None => x.reward_destination,
        },
        next_session_keys: match d.next_session_keys {
            Some(v) => v,
            None => x.next_session_keys,
        },
        is_active: match d.is_active {
            Some(v) => v,
            None => x.is_active,
        },
        active_next_session: match d.active_next_session {
            Some(v) => v,
            None => x.active_next_session,
        },
        nominations: match d.nominations {
            Some(v) => v,
            None => x.nominations,
        },
        oversubscribed: match d.oversubscribed {
            Some(v) => v,
            None => x.oversubscribed,
        },
        slashed: match d.slashed {
            Some(v) => v,
            None => x.slashed,
        },
        slash_count: match d.slash_count {
            Some(v) => v,
            None => x.slash_count,
        },
        offline_offence_count: match d.offline_offence_count {
            Some(v) => v,
            None => x.offline_offence_count,
        },
        active_era_count: match d.active_era_count {
            Some(v) => v,
            None => x.active_era_count,
        },
        inactive_era_count: match d.inactive_era_count {
            Some(v) => v,
            None => x.inactive_era_count,
        },
        total_reward_points: match d.total_reward_points {
            Some(v) => v,
            None => x.total_reward_points,
        },
        unclaimed_era_indices: match d.unclaimed_era_indices {
            Some(v) => v,
            None => x.unclaimed_era_indices,
        },
        blocks_authored: match d.blocks_authored {
            Some(v) => v,
            None => x.blocks_authored,
        },
        reward_points: match d.reward_points {
            Some(v) => v,
            None => x.reward_points,
        },
        heartbeat_received: match d.heartbeat_received {
            Some(v) => v,
            None => x.heartbeat_received,
        },
        onekv_candidate_record_id: match d.onekv_candidate_record_id {
            Some(v) => v,
            None => x.onekv_candidate_record_id,
        },
        onekv_rank: match d.onekv_rank {
            Some(v) => v,
            None => x.onekv_rank,
        },
        onekv_is_valid: match d.onekv_is_valid {
            Some(v) => v,
            None => x.onekv_is_valid,
        },
    }
}

impl ValidatorDetails {
    /// The diff that turns this record into `other`.
    #[verifier::rlimit(100)]
    #[verifier::spinoff_prover]
    pub fn get_diff(&self, other: &ValidatorDetails) -> (r: ValidatorDetailsDiff)
        ensures
            r@ == spec_details_diff(self@, other@),
    {
        let account = other.account.clone();
        let controller_account = other.controller_account.clone();
        let self_stake = other.self_stake.clone();
        let reward_destination = other.reward_destination.clone();
        let next_session_keys = other.next_session_keys.clone();
        let nominations = clone_nominations(&other.nominations);
        let unclaimed_era_indices = other.unclaimed_era_indices.clone();
        proof {
            assert(unclaimed_era_indices@ =~= other.unclaimed_era_indices@);
        }
        let controller_eq = account_eq(&self.controller_account, &other.controller_account);
        let self_stake_eq = stake_eq(&self.self_stake, &other.self_stake);
        let destination_eq = reward_destination_eq(
            &self.reward_destination,
            &other.reward_destination,
        );
        let session_keys_eq = self.next_session_keys == other.next_session_keys;
        let noms_eq = nominations_eq(&self.nominations, &other.nominations);
        let unclaimed_eq = era_index_list_eq(
            &self.unclaimed_era_indices,
            &other.unclaimed_era_indices,
        );
        ValidatorDetailsDiff {
            account,
            controller_account: if controller_eq {
                None
            } else {
                Some(controller_account)
            },
            preferences: if self.preferences == other.preferences {
                None
            } else {
                Some(other.preferences)
            },
            self_stake: if self_stake_eq {
                None
            } else {
                Some(self_stake)
            },
            reward_destination: if destination_eq {
                None
            } else {
                Some(reward_destination)
            },
            next_session_keys: if session_keys_eq {
                None
            } else {
                Some(next_session_keys)
            },
            is_active: if self.is_active == other.is_active {
                None
            } else {
                Some(other.is_active)
            },
            active_next_session: if self.active_next_session == other.active_next_session {
                None
            } else {
                Some(other.active_next_session)
            },
            nominations: if noms_eq {
                None
            } else {
                Some(nominations)
            },
            oversubscribed: if self.oversubscribed == other.oversubscribed {
                None
            } else {
                Some(other.oversubscribed)
            },
            slashed: if self.slashed == other.slashed {
                None
            } else {
                Some(other.slashed)
            },
            slash_count: if self.slash_count == other.slash_count {
                None
            } else {
                Some(other.slash_count)
            },
            offline_offence_count: if self.offline_offence_count == other.offline_offence_count {
                None
            } else {
                Some(other.offline_offence_count)
            },
            active_era_count: if self.active_era_count == other.active_era_count {
                None
            } else {
                Some(other.active_era_count)
            },
            inactive_era_count: if self.inactive_era_count == other.inactive_era_count {
                None
            } else {
                Some(other.inactive_era_count)
            },
            total_reward_points: if self.total_reward_points == other.total_reward_points {
                None
            } else {
                Some(other.total_reward_points)
            },
            unclaimed_era_indices: if unclaimed_eq {
                None
            } else {
                Some(unclaimed_era_indices)
            },
            blocks_authored: if self.blocks_authored == other.blocks_authored {
                None
            } else {
                Some(other.blocks_authored)
            },
            reward_points: if self.reward_points == other.reward_points {
                None
            } else {
                Some(other.reward_points)
            },
            heartbeat_received: if self.heartbeat_received == other.heartbeat_received {
                None
            } else {
                Some(other.heartbeat_received)
            },
            onekv_candidate_record_id: if self.onekv_candidate_record_id
                == other.onekv_candidate_record_id {
                None
            } else {
                Some(other.onekv_candidate_record_id)
            },
            onekv_rank: if self.onekv_rank == other.onekv_rank {
                None
            } else {
                Some(other.onekv_rank)
            },
            onekv_is_valid: if self.onekv_is_valid == other.onekv_is_valid {
                None
            } else {
                Some(other.onekv_is_valid)
            },
        }
    }

    /// Overwrites this record with the fields a diff carries.
    #[verifier::rlimit(100)]
    #[verifier::spinoff_prover]
    pub fn apply_diff(&mut self, diff: &ValidatorDetailsDiff)
        ensures
            final(self)@ == spec_apply_details_diff(old(self)@, diff@),
    {
        let account = diff.account.clone();
        let controller_account = match &diff.controller_account {
            Some(v) => v.clone(),
            None => self.controller_account.clone(),
        };
        let self_stake = match &diff.self_stake {
            Some(v) => v.clone(),
            None => self.self_stake.clone(),
        };
        let reward_destination = match &diff.reward_destination {
            Some(v) => v.clone(),
            None => self.reward_destination.clone(),
        };
        let next_session_keys = match &diff.next_session_keys {
            Some(v) => v.clone(),
            None => self.next_session_keys.clone(),
        };
        let nominations = match &diff.nominations {
            Some(v) => clone_nominations(v),
            None => clone_nominations(&self.nominations),
        };
        let unclaimed_era_indices = match &diff.unclaimed_era_indices {
            Some(v) => {
                let u = v.clone();
                proof {
                    assert(u@ =~= v@);
                }
                u
            },
            None => {
                let u = self.unclaimed_era_indices.clone();
                proof {
                    assert(u@ =~= self.unclaimed_era_indices@);
                }
                u
            },
        };
        *self = ValidatorDetails {
            account,
            controller_account,
            preferences: match diff.preferences {
                Some(v) => v,
                None => self.preferences,
            },
            self_stake,
            reward_destination,
            next_session_keys,
            is_active: match diff.is_active {
                Some(v) => v,
                None => self.is_active,
            },
            active_next_session: match diff.active_next_session {
                Some(v) => v,
                None => self.active_next_session,
            },
            nominations,
            oversubscribed: match diff.oversubscribed {
                Some(v) => v,
                None => self.oversubscribed,
            },
            slashed: match diff.slashed {
                Some(v) => v,
                None => self.slashed,
            },
            slash_count: match diff.slash_count {
                Some(v) => v,
                None => self.slash_count,
            },
            offline_offence_count: match diff.offline_offence_count {
                Some(v) => v,
                None => self.offline_offence_count,
            },
            active_era_count: match diff.active_era_count {
                Some(v) => v,
                None => self.active_era_count,
            },
            inactive_era_count: match diff.inactive_era_count {
                Some(v) => v,
                None => self.inactive_era_count,
            },
            total_reward_points: match diff.total_reward_points {
                Some(v) => v,
                None => self.total_reward_points,
            },
            unclaimed_era_indices,
            blocks_authored: match diff.blocks_authored {
                Some(v) => v,
                None => self.blocks_authored,
            },
            reward_points: match diff.reward_points {
                Some(v) => v,
                None => self.reward_points,
            },
            heartbeat_received: match diff.heartbeat_received {
                Some(v) => v,
                None => self.heartbeat_received,
            },
            onekv_candidate_record_id: match diff.onekv_candidate_record_id {
                Some(v) => v,
                None => self.onekv_candidate_record_id,
            },
            onekv_rank: match diff.onekv_rank {
                Some(v) => v,
                None => self.onekv_rank,
            },
            onekv_is_valid: match diff.onekv_is_valid {
                Some(v) => v,
                None => self.onekv_is_valid,
            },
        };
    }
}

/// Whether a record diff value changes no value field.
pub open spec fn spec_details_diff_is_empty(d: ValidatorDetailsDiffV) -> bool {
    &&& d.controller_account is None
    &&& d.preferences is None
    &&& d.self_stake is None
    &&& d.reward_destination is None
    &&& d.next_session_keys is None
    &&& d.is_active is None
    &&& d.active_next_session is None
    &&& d.nominations is None
    &&& d.oversubscribed is None
    &&& d.slashed is None
    &&& d.slash_count is None
    &&& d.offline_offence_count is None
    &&& d.active_era_count is None
    &&& d.inactive_era_count is None
    &&& d.total_reward_points is None
    &&& d.unclaimed_era_indices is None
    &&& d.blocks_authored is None
    &&& d.reward_points is None
    &&& d.heartbeat_received is None
    &&& d.onekv_candidate_record_id is None
    &&& d.onekv_rank is None
    &&& d.onekv_is_valid is None
}

/// Applying the diff of two validator records to the first yields the
/// second, whatever the two records are.
pub proof fn lemma_details_diff_round_trip(x: ValidatorDetailsV, y: ValidatorDetailsV)
    ensures
        spec_apply_details_diff(x, spec_details_diff(x, y)) == y,
{
}

/// The diff of a validator record with itself carries no value field.
pub proof fn lemma_details_diff_self_empty(x: ValidatorDetailsV)
    ensures
        spec_details_diff_is_empty(spec_details_diff(x, x)),
{
}



/// A diff between two live network status records. The status is a
/// singleton keyed by the network name carried in the update message,
/// so every field is a value field.
#[derive(Debug)]
pub struct LiveNetworkStatusDiff {
    pub finalized_block_number: Option<u64>,
    pub finalized_block_hash: Option<String>,
    pub best_block_number: Option<u64>,
    pub best_block_hash: Option<String>,
    pub active_era: Option<crate::substrate::Era>,
    pub current_epoch: Option<crate::substrate::Epoch>,
    pub active_validator_count: Option<u32>,
    pub inactive_validator_count: Option<u32>,
    pub last_era_total_reward: Option<crate::substrate::Balance>,
    pub total_stake: Option<crate::substrate::Balance>,
    pub return_rate_per_million: Option<u32>,
    pub min_stake: Option<crate::substrate::Balance>,
    pub max_stake: Option<crate::substrate::Balance>,
    pub average_stake: Option<crate::substrate::Balance>,
    pub median_stake: Option<crate::substrate::Balance>,
    pub era_reward_points: Option<u32>,
}

/// Mathematical value of a live network status diff.
pub ghost struct LiveNetworkStatusDiffV {
    pub finalized_block_number: Option<u64>,
    pub finalized_block_hash: Option<Seq<char>>,
    pub best_block_number: Option<u64>,
    pub best_block_hash: Option<Seq<char>>,
    pub active_era: Option<crate::substrate::Era>,
    pub current_epoch: Option<crate::substrate::Epoch>,
    pub active_validator_count: Option<u32>,
    pub inactive_validator_count: Option<u32>,
    pub last_era_total_reward: Option<crate::substrate::Balance>,
    pub total_stake: Option<crate::substrate::Balance>,
    pub return_rate_per_million: Option<u32>,
    pub min_stake: Option<crate::substrate::Balance>,
    pub max_stake: Option<crate::substrate::Balance>,
    pub average_stake: Option<crate::substrate::Balance>,
    pub median_stake: Option<crate::substrate::Balance>,
    pub era_reward_points: Option<u32>,
}

impl View for LiveNetworkStatusDiff {
    type V = LiveNetworkStatusDiffV;

    open spec fn view(&self) -> LiveNetworkStatusDiffV {
        LiveNetworkStatusDiffV {
            finalized_block_number: self.finalized_block_number,
            finalized_block_hash: match self.finalized_block_hash {
                Some(h) => Some(h@),
                None => None,
            },
            best_block_number: self.best_block_number,
            best_block_hash: match self.best_block_hash {
                Some(h) => Some(h@),
                None => None,
            },
            active_era: self.active_era,
            current_epoch: self.current_epoch,
            active_validator_count: self.active_validator_count,
            inactive_validator_count: self.inactive_validator_count,
            last_era_total_reward: self.last_era_total_reward,
            total_stake: self.total_stake,
            return_rate_per_million: self.return_rate_per_million,
            min_stake: self.min_stake,
            max_stake: self.max_stake,
            average_stake: self.average_stake,
            median_stake: self.median_stake,
            era_reward_points: self.era_reward_points,
        }
    }
}

impl Clone for LiveNetworkStatusDiff {
    fn clone(&self) -> (res: Self)
        ensures
            res@ == self@,
    {
        LiveNetworkStatusDiff {
            finalized_block_number: self.finalized_block_number,
            finalized_block_hash: match &self.finalized_block_hash {
                Some(h) => Some(h.clone()),
                None => None,
            },
            best_block_number: self.best_block_number,
            best_block_hash: match &self.best_block_hash {
                Some(h) => Some(h.clone()),
                None => None,
            },
            active_era: self.active_era,
            current_epoch: self.current_epoch,
            active_validator_count: self.active_validator_count,
            inactive_validator_count: self.inactive_validator_count,
            last_era_total_reward: self.last_era_total_reward,
            total_stake: self.total_stake,
            return_rate_per_million: self.return_rate_per_million,
            min_stake: self.min_stake,
            max_stake: self.max_stake,
            average_stake: self.average_stake,
            median_stake: self.median_stake,
            era_reward_points: self.era_reward_points,
        }
    }
}

/// The diff of two status records: each field that differs, with its
/// new value.
pub open spec fn spec_status_diff(
    x: LiveNetworkStatusV,
    y: LiveNetworkStatusV,
) -> LiveNetworkStatusDiffV {
    LiveNetworkStatusDiffV {
        finalized_block_number: if x.finalized_block_number == y.finalized_block_number {
            None
        } else {
            Some(y.finalized_block_number)
        },
        finalized_block_hash: if x.finalized_block_hash == y.finalized_block_hash {
            None
        } else {
            Some(y.finalized_block_hash)
        },
        best_block_number: if x.best_block_number == y.best_block_number {
            None
        } else {
            Some(y.best_block_number)
        },
        best_block_hash: if x.best_block_hash == y.best_block_hash {
            None
        } else {
            Some(y.best_block_hash)
        },
        active_era: if x.active_era == y.active_era {
            None
        } else {
            Some(y.active_era)
        },
        current_epoch: if x.current_epoch == y.current_epoch {
            None
        } else {
            Some(y.current_epoch)
        },
        active_validator_count: if x.active_validator_count == y.active_validator_count {
            None
        } else {
            Some(y.active_validator_count)
        },
        inactive_validator_count: if x.inactive_validator_count == y.inactive_validator_count {
            None
        } else {
            Some(y.inactive_validator_count)
        },
        last_era_total_reward: if x.last_era_total_reward == y.last_era_total_reward {
            None
        } else {
            Some(y.last_era_total_reward)
        },
        total_stake: if x.total_stake == y.total_stake {
            None
        } else {
            Some(y.total_stake)
        },
        return_rate_per_million: if x.return_rate_per_million == y.return_rate_per_million {
            None
        } else {
            Some(y.return_rate_per_million)
        },
        min_stake: if x.min_stake == y.min_stake {
            None
        } else {
            Some(y.min_stake)
        },
        max_stake: if x.max_stake == y.max_stake {
            None
        } else {
            Some(y.max_stake)
        },
        average_stake: if x.average_stake == y.average_stake {
            None
        } else {
            Some(y.average_stake)
        },
        median_stake: if x.median_stake == y.median_stake {
            None
        } else {
            Some(y.median_stake)
        },
        era_reward_points: if x.era_reward_points == y.era_reward_points {
            None
        } else {
            Some(y.era_reward_points)
        },
    }
}

/// The result of applying a status diff: each present field, and the
/// local value of each absent field.
pub open spec fn spec_apply_status_diff(
    x: LiveNetworkStatusV,
    d: LiveNetworkStatusDiffV,
) -> LiveNetworkStatusV {
    LiveNetworkStatusV {
        finalized_block_number: match d.finalized_block_number {
            Some(v) => v,
            None => x.finalized_block_number,
        },
        finalized_block_hash: match d.finalized_block_hash {
            Some(v) => v,
            None => x.finalized_block_hash,
        },
        best_block_number: match d.best_block_number {
            Some(v) => v,
            None => x.best_block_number,
        },
        best_block_hash: match d.best_block_hash {
            Some(v) => v,
            None => x.best_block_hash,
        },
        active_era: match d.active_era {
            Some(v) => v,
            None => x.active_era,
        },
        current_epoch: match d.current_epoch {
            Some(v) => v,
            None => x.current_epoch,
        },
        active_validator_count: match d.active_validator_count {
            Some(v) => v,
            None => x.active_validator_count,
        },
        inactive_validator_count: match d.inactive_validator_count {
            Some(v) => v,
            None => x.inactive_validator_count,
        },
        last_era_total_reward: match d.last_era_total_reward {
            Some(v) => v,
            None => x.last_era_total_reward,
        },
        total_stake: match d.total_stake {
            Some(v) => v,
            None => x.total_stake,
        },
        return_rate_per_million: match d.return_rate_per_million {
            Some(v) => v,
            None => x.return_rate_per_million,
        },
        min_stake: match d.min_stake {
            Some(v) => v,
            None => x.min_stake,
        },
        max_stake: match d.max_stake {
            Some(v) => v,
            None => x.max_stake,
        },
        average_stake: match d.average_stake {
            Some(v) => v,
            None => x.average_stake,
        },
        median_stake: match d.median_stake {
            Some(v) => v,
            None => x.median_stake,
        },
        era_reward_points: match d.era_reward_points {
            Some(v) => v,
            None => x.era_reward_points,
        },
    }
}

/// Whether a status diff value changes no field.
pub open spec fn spec_status_diff_is_empty(d: LiveNetworkStatusDiffV) -> bool {
    &&& d.finalized_block_number is None
    &&& d.finalized_block_hash is None
    &&& d.best_block_number is None
    &&& d.best_block_hash is None
    &&& d.active_era is None
    &&& d.current_epoch is None
    &&& d.active_validator_count is None
    &&& d.inactive_validator_count is None
    &&& d.last_era_total_reward is None
    &&& d.total_stake is None
    &&& d.return_rate_per_million is None
    &&& d.min_stake is None
    &&& d.max_stake is None
    &&& d.average_stake is None
    &&& d.median_stake is None
    &&& d.era_reward_points is None
}

impl LiveNetworkStatus {
    /// The diff that turns this status into `other`.
    #[verifier::rlimit(100)]
    #[verifier::spinoff_prover]
    pub fn get_diff(&self, other: &LiveNetworkStatus) -> (r: LiveNetworkStatusDiff)
        ensures
            r@ == spec_status_diff(self@, other@),
    {
        let finalized_hash = other.finalized_block_hash.clone();
        let best_hash = other.best_block_hash.clone();
        let finalized_hash_eq = self.finalized_block_hash == other.finalized_block_hash;
        let best_hash_eq = self.best_block_hash == other.best_block_hash;
        LiveNetworkStatusDiff {
            finalized_block_number: if self.finalized_block_number == other.finalized_block_number {
                None
            } else {
                Some(other.finalized_block_number)
            },
            finalized_block_hash: if finalized_hash_eq {
                None
            } else {
                Some(finalized_hash)
            },
            best_block_number: if self.best_block_number == other.best_block_number {
                None
            } else {
                Some(other.best_block_number)
            },
            best_block_hash: if best_hash_eq {
                None
            } else {
                Some(best_hash)
            },
            active_era: if self.active_era == other.active_era {
                None
            } else {
                Some(other.active_era)
            },
            current_epoch: if self.current_epoch == other.current_epoch {
                None
            } else {
                Some(other.current_epoch)
            },
            active_validator_count: if self.active_validator_count
                == other.active_validator_count {
                None
            } else {
                Some(other.active_validator_count)
            },
            inactive_validator_count: if self.inactive_validator_count
                == other.inactive_validator_count {
                None
            } else {
                Some(other.inactive_validator_count)
            },
            last_era_total_reward: if self.last_era_total_reward == other.last_era_total_reward {
                None
            } else {
                Some(other.last_era_total_reward)
            },
            total_stake: if self.total_stake == other.total_stake {
                None
            } else {
                Some(other.total_stake)
            },
            return_rate_per_million: if self.return_rate_per_million
                == other.return_rate_per_million {
                None
            } else {
                Some(other.return_rate_per_million)
            },
            min_stake: if self.min_stake == other.min_stake {
                None
            } else {
                Some(other.min_stake)
            },
            max_stake: if self.max_stake == other.max_stake {
                None
            } else {
                Some(other.max_stake)
            },
            average_stake: if self.average_stake == other.average_stake {
                None
            } else {
                Some(other.average_stake)
            },
            median_stake: if self.median_stake == other.median_stake {
                None
            } else {
                Some(other.median_stake)
            },
            era_reward_points: if self.era_reward_points == other.era_reward_points {
                None
            } else {
                Some(other.era_reward_points)
            },
        }
    }

    /// Overwrites this status with the fields a diff carries.
    #[verifier::rlimit(100)]
    #[verifier::spinoff_prover]
    pub fn apply_diff(&mut self, diff: &LiveNetworkStatusDiff)
        ensures
            final(self)@ == spec_apply_status_diff(old(self)@, diff@),
    {
        let finalized_block_hash = match &diff.finalized_block_hash {
            Some(v) => v.clone(),
            None => self.finalized_block_hash.clone(),
        };
        let best_block_hash = match &diff.best_block_hash {
            Some(v) => v.clone(),
            None => self.best_block_hash.clone(),
        };
        *self = LiveNetworkStatus {
            finalized_block_number: match diff.finalized_block_number {
                Some(v) => v,
                None => self.finalized_block_number,
            },
            finalized_block_hash,
            best_block_number: match diff.best_block_number {
                Some(v) => v,
                None => self.best_block_number,
            },
            best_block_hash,
            active_era: match diff.active_era {
                Some(v) => v,
                None => self.active_era,
            },
            current_epoch: match diff.current_epoch {
                Some(v) => v,
                None => self.current_epoch,
            },
            active_validator_count: match diff.active_validator_count {
                Some(v) => v,
                None => self.active_validator_count,
            },
            inactive_validator_count: match diff.inactive_validator_count {
                Some(v) => v,
                None => self.inactive_validator_count,
            },
            last_era_total_reward: match diff.last_era_total_reward {
                Some(v) => v,
                None => self.last_era_total_reward,
            },
            total_stake: match diff.total_stake {
                Some(v) => v,
                None => self.total_stake,
            },
            return_rate_per_million: match diff.return_rate_per_million {
                Some(v) => v,
                None => self.return_rate_per_million,
            },
            min_stake: match diff.min_stake {
                Some(v) => v,
                None => self.min_stake,
            },
            max_stake: match diff.max_stake {
                Some(v) => v,
                None => self.max_stake,
            },
            average_stake: match diff.average_stake {
                Some(v) => v,
                None => self.average_stake,
            },
            median_stake: match diff.median_stake {
                Some(v) => v,
                None => self.median_stake,
            },
            era_reward_points: match diff.era_reward_points {
                Some(v) => v,
                None => self.era_reward_points,
            },
        };
    }
}

/// Applying the diff of two status records to the first yields the
/// second, whatever the two records are.
pub proof fn lemma_status_diff_round_trip(x: LiveNetworkStatusV, y: LiveNetworkStatusV)
    ensures
        spec_apply_status_diff(x, spec_status_diff(x, y)) == y,
{
}

/// The diff of a status record with itself carries no field.
pub proof fn lemma_status_diff_self_empty(x: LiveNetworkStatusV)
    ensures
        spec_status_diff_is_empty(spec_status_diff(x, x)),
{
}


} // verus!
