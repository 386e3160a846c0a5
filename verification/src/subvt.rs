//! The canonical per-validator record, its summary projection for list
//! clients, and the aggregated live network status record.
use vstd::prelude::*;

use crate::crypto::AccountId;
use crate::substrate::{
    spec_confirmed, spec_identity_summary, spec_stake_summary, view_opt_string, Account, AccountV,
    Balance, Epoch, Era, IdentityRegistrationSummary, IdentityRegistrationSummaryV, Nomination,
    NominationV, NominationsSummary, RewardDestination, RewardDestinationV, Stake, StakeSummary,
    StakeSummaryV, StakeV, ValidatorPreferences,
};

verus! {

/// The canonical per-validator record, assembled from chain state and
/// relational-store enrichment.
#[derive(Debug)]
pub struct ValidatorDetails {
    pub account: Account,
    pub controller_account: Account,
    pub preferences: ValidatorPreferences,
    pub self_stake: Stake,
    pub reward_destination: RewardDestination,
    pub next_session_keys: String,
    pub is_active: bool,
    pub active_next_session: bool,
    pub nominations: Vec<Nomination>,
    pub oversubscribed: bool,
    pub slashed: bool,
    pub slash_count: u64,
    pub offline_offence_count: u64,
    pub active_era_count: u64,
    pub inactive_era_count: u64,
    pub total_reward_points: u64,
    pub unclaimed_era_indices: Vec<u32>,
    pub blocks_authored: u64,
    pub reward_points: u64,
    pub heartbeat_received: bool,
    pub onekv_candidate_record_id: Option<u32>,
    pub onekv_rank: Option<u64>,
    pub onekv_is_valid: Option<bool>,
}

/// Mathematical value of a validator record.
pub ghost struct ValidatorDetailsV {
    pub account: AccountV,
    pub controller_account: AccountV,
    pub preferences: ValidatorPreferences,
    pub self_stake: StakeV,
    pub reward_destination: RewardDestinationV,
    pub next_session_keys: Seq<char>,
    pub is_active: bool,
    pub active_next_session: bool,
    pub nominations: Seq<NominationV>,
    pub oversubscribed: bool,
    pub slashed: bool,
    pub slash_count: u64,
    pub offline_offence_count: u64,
    pub active_era_count: u64,
    pub inactive_era_count: u64,
    pub total_reward_points: u64,
    pub unclaimed_era_indices: Seq<u32>,
    pub blocks_authored: u64,
    pub reward_points: u64,
    pub heartbeat_received: bool,
    pub onekv_candidate_record_id: Option<u32>,
    pub onekv_rank: Option<u64>,
    pub onekv_is_valid: Option<bool>,
}

/// The value of a list of nominations.
pub open spec fn view_nominations(n: Seq<Nomination>) -> Seq<NominationV> {
    Seq::new(n.len(), |i: int| n[i]@)
}

/// Clones a list of nominations, keeping its value.
pub fn clone_nominations(nominations: &Vec<Nomination>) -> (res: Vec<Nomination>)
    ensures
        view_nominations(res@) == view_nominations(nominations@),
{
    let mut res: Vec<Nomination> = Vec::new();
    let mut i: usize = 0;
    while i < nominations.len()
        invariant
            i <= nominations@.len(),
            res@.len() == i,
            forall|j: int| 0 <= j < i ==> res@[j]@ == nominations@[j]@,
        decreases nominations@.len() - i,
    {
        res.push(nominations[i].clone());
        i = i + 1;
    }
    proof {
        assert(view_nominations(res@) =~= view_nominations(nominations@));
    }
    res
}

impl View for ValidatorDetails {
    type V = ValidatorDetailsV;

    open spec fn view(&self) -> ValidatorDetailsV {
        ValidatorDetailsV {
            account: self.account@,
            controller_account: self.controller_account@,
            preferences: self.preferences,
            self_stake: self.self_stake@,
            reward_destination: self.reward_destination@,
            next_session_keys: self.next_session_keys@,
            is_active: self.is_active,
            active_next_session: self.active_next_session,
            nominations: view_nominations(self.nominations@),
            oversubscribed: self.oversubscribed,
            slashed: self.slashed,
            slash_count: self.slash_count,
            offline_offence_count: self.offline_offence_count,
            active_era_count: self.active_era_count,
            inactive_era_count: self.inactive_era_count,
            total_reward_points: self.total_reward_points,
            unclaimed_era_indices: self.unclaimed_era_indices@,
            blocks_authored: self.blocks_authored,
            reward_points: self.reward_points,
            heartbeat_received: self.heartbeat_received,
            onekv_candidate_record_id: self.onekv_candidate_record_id,
            onekv_rank: self.onekv_rank,
            onekv_is_valid: self.onekv_is_valid,
        }
    }
}

impl Clone for ValidatorDetails {
    fn clone(&self) -> (res: Self)
        ensures
            res@ == self@,
    {
        let nominations = clone_nominations(&self.nominations);
        let unclaimed = self.unclaimed_era_indices.clone();
        let res = ValidatorDetails {
            account: self.account.clone(),
            controller_account: self.controller_account.clone(),
            preferences: self.preferences,
            self_stake: self.self_stake.clone(),
            reward_destination: self.reward_destination.clone(),
            next_session_keys: self.next_session_keys.clone(),
            is_active: self.is_active,
            active_next_session: self.active_next_session,
            nominations,
            oversubscribed: self.oversubscribed,
            slashed: self.slashed,
            slash_count: self.slash_count,
            offline_offence_count: self.offline_offence_count,
            active_era_count: self.active_era_count,
            inactive_era_count: self.inactive_era_count,
            total_reward_points: self.total_reward_points,
            unclaimed_era_indices: unclaimed,
            blocks_authored: self.blocks_authored,
            reward_points: self.reward_points,
            heartbeat_received: self.heartbeat_received,
            onekv_candidate_record_id: self.onekv_candidate_record_id,
            onekv_rank: self.onekv_rank,
            onekv_is_valid: self.onekv_is_valid,
        };
        proof {
            assert(res@.nominations =~= self@.nominations);
            assert(res@.unclaimed_era_indices =~= self@.unclaimed_era_indices);
        }
        res
    }
}

/// The account projection kept in validator summaries: the id, the
/// identity summary, the sub-identity display and the folded
/// confirmation flag.
#[derive(Debug)]
pub struct AccountSummary {
    pub id: AccountId,
    pub identity: Option<IdentityRegistrationSummary>,
    pub child_display: Option<String>,
    pub confirmed: bool,
}

/// Mathematical value of an account summary.
pub ghost struct AccountSummaryV {
    pub id: Seq<u8>,
    pub identity: Option<IdentityRegistrationSummaryV>,
    pub child_display: Option<Seq<char>>,
    pub confirmed: bool,
}

impl View for AccountSummary {
    type V = AccountSummaryV;

    open spec fn view(&self) -> AccountSummaryV {
        AccountSummaryV {
            id: self.id@,
            identity: match self.identity {
                Some(i) => Some(i@),
                None => None,
            },
            child_display: view_opt_string(self.child_display),
            confirmed: self.confirmed,
        }
    }
}

impl Clone for AccountSummary {
    fn clone(&self) -> (res: Self)
        ensures
            res@ == self@,
    {
        AccountSummary {
            id: self.id.clone(),
            identity: match &self.identity {
                Some(i) => Some(i.clone()),
                None => None,
            },
            child_display: self.child_display.clone(),
            confirmed: self.confirmed,
        }
    }
}

/// The account summary an account projects to.
pub open spec fn spec_account_summary(a: AccountV) -> AccountSummaryV {
    AccountSummaryV {
        id: a.id,
        identity: match a.identity {
            Some(i) => Some(spec_identity_summary(i)),
            None => None,
        },
        child_display: a.child_display,
        confirmed: spec_confirmed(a),
    }
}

impl AccountSummary {
    /// Projects an account to its summary.
    pub fn from_account(account: &Account) -> (r: AccountSummary)
        ensures
            r@ == spec_account_summary(account@),
    {
        AccountSummary {
            id: account.id.clone(),
            identity: match &account.identity {
                Some(i) => Some(IdentityRegistrationSummary::from_registration(i)),
                None => None,
            },
            child_display: account.child_display.clone(),
            confirmed: account.get_confirmed(),
        }
    }
}

/// The total of the active amounts of a list of nominations.
pub open spec fn spec_nominations_total(n: Seq<NominationV>) -> int
    decreases n.len(),
{
    if n.len() == 0 {
        0
    } else {
        spec_nominations_total(n.drop_last()) + n.last().stake.active_amount
    }
}

/// The nominations summary a list of nominations reduces to: the count
/// (truncated to 16 bits) and the total active amount (saturated).
pub open spec fn spec_nominations_summary(n: Seq<NominationV>) -> NominationsSummary {
    NominationsSummary {
        nomination_count: n.len() as u16,
        total_amount: if spec_nominations_total(n) > Balance::MAX {
            Balance::MAX
        } else {
            spec_nominations_total(n) as Balance
        },
    }
}

proof fn lemma_nominations_total_nonneg(n: Seq<NominationV>)
    ensures
        spec_nominations_total(n) >= 0,
    decreases n.len(),
{
    if n.len() > 0 {
        lemma_nominations_total_nonneg(n.drop_last());
    }
}

impl NominationsSummary {
    /// Reduces a list of nominations to its summary.
    pub fn from_nominations(nominations: &Vec<Nomination>) -> (r: NominationsSummary)
        ensures
            r == spec_nominations_summary(view_nominations(nominations@)),
    {
        let ghost nv = view_nominations(nominations@);
        let count: u16 = #[verifier::truncate] (nominations.len() as u16);
        let mut total: Balance = 0;
        let mut i: usize = 0;
        while i < nominations.len()
            invariant
                i <= nominations@.len(),
                nv == view_nominations(nominations@),
                nv.len() == nominations@.len(),
                forall|j: int| 0 <= j < nv.len() ==> nv[j] == nominations@[j]@,
                total == if spec_nominations_total(nv.take(i as int)) > Balance::MAX {
                    Balance::MAX
                } else {
                    spec_nominations_total(nv.take(i as int)) as Balance
                },
            decreases nominations@.len() - i,
        {
            let x = nominations[i].stake.active_amount;
            proof {
                let pre = nv.take(i as int);
                let cur = nv.take(i + 1);
                assert(cur.drop_last() =~= pre);
                assert(cur.last() == nv[i as int]);
                lemma_nominations_total_nonneg(pre);
            }
            if total > Balance::MAX - x {
                total = Balance::MAX;
            } else {
                total = total + x;
            }
            i = i + 1;
        }
        proof {
            assert(nv.take(nv.len() as int) =~= nv);
        }
        NominationsSummary { nomination_count: count, total_amount: total }
    }
}

/// The projection of a validator record that list clients receive.
#[derive(Debug)]
pub struct ValidatorSummary {
    pub account: AccountSummary,
    pub preferences: ValidatorPreferences,
    pub self_stake: StakeSummary,
    pub active_next_session: bool,
    pub nominations: NominationsSummary,
    pub oversubscribed: bool,
    pub slashed: bool,
}

/// Mathematical value of a validator summary.
pub ghost struct ValidatorSummaryV {
    pub account: AccountSummaryV,
    pub preferences: ValidatorPreferences,
    pub self_stake: StakeSummaryV,
    pub active_next_session: bool,
    pub nominations: NominationsSummary,
    pub oversubscribed: bool,
    pub slashed: bool,
}

impl View for ValidatorSummary {
    type V = ValidatorSummaryV;

    open spec fn view(&self) -> ValidatorSummaryV {
        ValidatorSummaryV {
            account: self.account@,
            preferences: self.preferences,
            self_stake: self.self_stake@,
            active_next_session: self.active_next_session,
            nominations: self.nominations,
            oversubscribed: self.oversubscribed,
            slashed: self.slashed,
        }
    }
}

impl Clone for ValidatorSummary {
    fn clone(&self) -> (res: Self)
        ensures
            res@ == self@,
    {
        ValidatorSummary {
            account: self.account.clone(),
            preferences: self.preferences,
            self_stake: self.self_stake.clone(),
            active_next_session: self.active_next_session,
            nominations: self.nominations,
            oversubscribed: self.oversubscribed,
            slashed: self.slashed,
        }
    }
}

/// The summary a validator record projects to. The projection is pure:
/// equal records always project to equal summaries.
pub open spec fn spec_validator_summary(v: ValidatorDetailsV) -> ValidatorSummaryV {
    ValidatorSummaryV {
        account: spec_account_summary(v.account),
        preferences: v.preferences,
        self_stake: spec_stake_summary(v.self_stake),
        active_next_session: v.active_next_session,
        nominations: spec_nominations_summary(v.nominations),
        oversubscribed: v.oversubscribed,
        slashed: v.slashed,
    }
}

impl ValidatorSummary {
    /// Projects a validator record to the summary its list clients see.
    pub fn from_details(validator: &ValidatorDetails) -> (r: ValidatorSummary)
        ensures
            r@ == spec_validator_summary(validator@),
    {
        ValidatorSummary {
            account: AccountSummary::from_account(&validator.account),
            preferences: validator.preferences,
            self_stake: StakeSummary::from_stake(&validator.self_stake),
            active_next_session: validator.active_next_session,
            nominations: NominationsSummary::from_nominations(&validator.nominations),
            oversubscribed: validator.oversubscribed,
            slashed: validator.slashed,
        }
    }
}

/// The network's aggregated status, updated every block.
#[derive(Debug)]
pub struct LiveNetworkStatus {
    pub finalized_block_number: u64,
    pub finalized_block_hash: String,
    pub best_block_number: u64,
    pub best_block_hash: String,
    pub active_era: Era,
    pub current_epoch: Epoch,
    pub active_validator_count: u32,
    pub inactive_validator_count: u32,
    pub last_era_total_reward: Balance,
    pub total_stake: Balance,
    pub return_rate_per_million: u32,
    pub min_stake: Balance,
    pub max_stake: Balance,
    pub average_stake: Balance,
    pub median_stake: Balance,
    pub era_reward_points: u32,
}

/// Mathematical value of the live network status.
pub ghost struct LiveNetworkStatusV {
    pub finalized_block_number: u64,
    pub finalized_block_hash: Seq<char>,
    pub best_block_number: u64,
    pub best_block_hash: Seq<char>,
    pub active_era: Era,
    pub current_epoch: Epoch,
    pub active_validator_count: u32,
    pub inactive_validator_count: u32,
    pub last_era_total_reward: Balance,
    pub total_stake: Balance,
    pub return_rate_per_million: u32,
    pub min_stake: Balance,
    pub max_stake: Balance,
    pub average_stake: Balance,
    pub median_stake: Balance,
    pub era_reward_points: u32,
}

impl View for LiveNetworkStatus {
    type V = LiveNetworkStatusV;

    open spec fn view(&self) -> LiveNetworkStatusV {
        LiveNetworkStatusV {
            finalized_block_number: self.finalized_block_number,
            finalized_block_hash: self.finalized_block_hash@,
            best_block_number: self.best_block_number,
            best_block_hash: self.best_block_hash@,
            active_era: self.active_era,
            current_epoch: self.current_epoch,
            active_validator_count: self.active_validator_count,
            inactive_validator_count: self.inactive_validator_count,
            last_era_total_reward: self.last_era_total_reward,
            total_stake: self.total_stake,
            return_rate_per_million: self.return_rate_per_million,
            min_stake: self.min_stake,
            max_stake: self.max_stake,
            average_stake: self.average_stake,
            median_stake: self.median_stake,
            era_reward_points: self.era_reward_points,
        }
    }
}

impl Clone for LiveNetworkStatus {
    fn clone(&self) -> (res: Self)
        ensures
            res@ == self@,
    {
        LiveNetworkStatus {
            finalized_block_number: self.finalized_block_number,
            finalized_block_hash: self.finalized_block_hash.clone(),
            best_block_number: self.best_block_number,
            best_block_hash: self.best_block_hash.clone(),
            active_era: self.active_era,
            current_epoch: self.current_epoch,
            active_validator_count: self.active_validator_count,
            inactive_validator_count: self.inactive_validator_count,
            last_era_total_reward: self.last_era_total_reward,
            total_stake: self.total_stake,
            return_rate_per_million: self.return_rate_per_million,
            min_stake: self.min_stake,
            max_stake: self.max_stake,
            average_stake: self.average_stake,
            median_stake: self.median_stake,
            era_reward_points: self.era_reward_points,
        }
    }
}


/// Per-validator enrichment read from the relational store: discovery
/// and death blocks, offence and era counters, reward bookkeeping and
/// the Thousand Validators fields.
#[derive(Debug)]
pub struct ValidatorDbInfo {
    pub discovered_at: Option<u64>,
    pub killed_at: Option<u64>,
    pub slash_count: u64,
    pub offline_offence_count: u64,
    pub active_era_count: u64,
    pub inactive_era_count: u64,
    pub total_reward_points: u64,
    pub unclaimed_era_indices: Vec<u32>,
    pub blocks_authored: u64,
    pub reward_points: u64,
    pub heartbeat_received: bool,
    pub onekv_candidate_record_id: Option<u32>,
    pub onekv_rank: Option<u64>,
    pub onekv_is_valid: Option<bool>,
}

impl ValidatorDetails {
    /// Overwrites the enrichment fields of a freshly assembled chain
    /// record with the relational store\'s values; every chain-derived
    /// field stays as it was.
    #[verifier::rlimit(100)]
    #[verifier::spinoff_prover]
    pub fn enrich(&mut self, info: &ValidatorDbInfo)
        ensures
            final(self)@.account.id == old(self)@.account.id,
            final(self)@.account.identity == old(self)@.account.identity,
            final(self)@.account.parent == old(self)@.account.parent,
            final(self)@.account.child_display == old(self)@.account.child_display,
            final(self)@.account.discovered_at == info.discovered_at,
            final(self)@.account.killed_at == info.killed_at,
            final(self)@.controller_account == old(self)@.controller_account,
            final(self)@.preferences == old(self)@.preferences,
            final(self)@.self_stake == old(self)@.self_stake,
            final(self)@.reward_destination == old(self)@.reward_destination,
            final(self)@.next_session_keys == old(self)@.next_session_keys,
            final(self)@.is_active == old(self)@.is_active,
            final(self)@.active_next_session == old(self)@.active_next_session,
            final(self)@.nominations == old(self)@.nominations,
            final(self)@.oversubscribed == old(self)@.oversubscribed,
            final(self)@.slashed == old(self)@.slashed,
            final(self)@.slash_count == info.slash_count,
            final(self)@.offline_offence_count == info.offline_offence_count,
            final(self)@.active_era_count == info.active_era_count,
            final(self)@.inactive_era_count == info.inactive_era_count,
            final(self)@.total_reward_points == info.total_reward_points,
            final(self)@.unclaimed_era_indices == info.unclaimed_era_indices@,
            final(self)@.blocks_authored == info.blocks_authored,
            final(self)@.reward_points == info.reward_points,
            final(self)@.heartbeat_received == info.heartbeat_received,
            final(self)@.onekv_candidate_record_id == info.onekv_candidate_record_id,
            final(self)@.onekv_rank == info.onekv_rank,
            final(self)@.onekv_is_valid == info.onekv_is_valid,
    {
        self.account.discovered_at = info.discovered_at;
        self.account.killed_at = info.killed_at;
        self.slash_count = info.slash_count;
        self.offline_offence_count = info.offline_offence_count;
        self.active_era_count = info.active_era_count;
        self.inactive_era_count = info.inactive_era_count;
        self.total_reward_points = info.total_reward_points;
        let unclaimed = info.unclaimed_era_indices.clone();
        proof {
            assert(unclaimed@ =~= info.unclaimed_era_indices@);
        }
        self.unclaimed_era_indices = unclaimed;
        self.blocks_authored = info.blocks_authored;
        self.reward_points = info.reward_points;
        self.heartbeat_received = info.heartbeat_received;
        self.onekv_candidate_record_id = info.onekv_candidate_record_id;
        self.onekv_rank = info.onekv_rank;
        self.onekv_is_valid = info.onekv_is_valid;
    }
}


} // verus!
