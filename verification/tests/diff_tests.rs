//! The diff protocol on concrete records: round trip, idempotence, and
//! single-field updates.
use subvt::crypto::AccountId;
use subvt::diff::{account_summary_eq, nominations_eq, stake_summary_eq};
use subvt::substrate::{
    Account, IdentityRegistration, Nomination, NominationsSummary, RewardDestination, Stake,
    StakeSummary, ValidatorPreferences,
};
use subvt::subvt::{ValidatorDetails, ValidatorSummary};

fn id_of_byte(b: u8) -> AccountId {
    AccountId { bytes: vec![b; 32] }
}

fn account_of(b: u8) -> Account {
    Account {
        id: id_of_byte(b),
        identity: Some(IdentityRegistration {
            display: Some("validator".to_string()),
            email: None,
            riot: None,
            twitter: None,
            web: None,
            confirmed: true,
        }),
        parent: Box::new(None),
        child_display: None,
        discovered_at: Some(1),
        killed_at: None,
    }
}

fn validator_of(b: u8) -> ValidatorDetails {
    ValidatorDetails {
        account: account_of(b),
        controller_account: account_of(b.wrapping_add(1)),
        preferences: ValidatorPreferences { commission_per_billion: 100_000_000, blocks_nominations: false },
        self_stake: Stake {
            stash_account_id: id_of_byte(b),
            total_amount: 1_000,
            active_amount: 900,
        },
        reward_destination: RewardDestination::Staked,
        next_session_keys: "0xdead".to_string(),
        is_active: true,
        active_next_session: true,
        nominations: vec![Nomination {
            stash_account_id: id_of_byte(b.wrapping_add(2)),
            submission_era_index: 10,
            target_account_ids: vec![id_of_byte(b)],
            stake: Stake {
                stash_account_id: id_of_byte(b.wrapping_add(2)),
                total_amount: 50,
                active_amount: 40,
            },
        }],
        oversubscribed: false,
        slashed: false,
        slash_count: 0,
        offline_offence_count: 0,
        active_era_count: 5,
        inactive_era_count: 2,
        total_reward_points: 1234,
        unclaimed_era_indices: vec![7, 8],
        blocks_authored: 11,
        reward_points: 20,
        heartbeat_received: true,
        onekv_candidate_record_id: None,
        onekv_rank: None,
        onekv_is_valid: None,
    }
}

fn summaries_equal(a: &ValidatorSummary, b: &ValidatorSummary) -> bool {
    account_summary_eq(&a.account, &b.account) && a.preferences == b.preferences
        && stake_summary_eq(&a.self_stake, &b.self_stake)
        && a.active_next_session == b.active_next_session && a.nominations == b.nominations
        && a.oversubscribed == b.oversubscribed && a.slashed == b.slashed
}

#[test]
fn summary_diff_round_trip() {
    let x = ValidatorSummary::from_details(&validator_of(1));
    let mut changed = validator_of(1);
    changed.preferences.commission_per_billion = 42;
    changed.self_stake.active_amount = 123;
    changed.oversubscribed = true;
    let y = ValidatorSummary::from_details(&changed);
    let d = x.get_diff(&y);
    let mut applied = x.clone();
    applied.apply_diff(&d);
    assert!(summaries_equal(&applied, &y));
}

#[test]
fn summary_diff_of_identical_records_is_empty() {
    let x = ValidatorSummary::from_details(&validator_of(3));
    let y = ValidatorSummary::from_details(&validator_of(3));
    let d = x.get_diff(&y);
    assert!(d.preferences.is_none());
    assert!(d.self_stake.is_none());
    assert!(d.active_next_session.is_none());
    assert!(d.nominations.is_none());
    assert!(d.oversubscribed.is_none());
    assert!(d.slashed.is_none());
}

#[test]
fn summary_diff_carries_only_the_changed_field() {
    let base = validator_of(4);
    let x = ValidatorSummary::from_details(&base);
    let mut changed = validator_of(4);
    changed.preferences.commission_per_billion = 999;
    let y = ValidatorSummary::from_details(&changed);
    let d = x.get_diff(&y);
    assert_eq!(
        d.preferences,
        Some(ValidatorPreferences { commission_per_billion: 999, blocks_nominations: false })
    );
    assert!(d.self_stake.is_none());
    assert!(d.active_next_session.is_none());
    assert!(d.nominations.is_none());
    assert!(d.oversubscribed.is_none());
    assert!(d.slashed.is_none());
}

#[test]
fn details_diff_round_trip() {
    let x = validator_of(5);
    let mut y = validator_of(5);
    y.blocks_authored = 99;
    y.nominations.push(Nomination {
        stash_account_id: id_of_byte(9),
        submission_era_index: 11,
        target_account_ids: vec![],
        stake: Stake { stash_account_id: id_of_byte(9), total_amount: 1, active_amount: 1 },
    });
    y.next_session_keys = "0xbeef".to_string();
    let d = x.get_diff(&y);
    let mut applied = x.clone();
    applied.apply_diff(&d);
    assert_eq!(applied.blocks_authored, 99);
    assert_eq!(applied.next_session_keys, "0xbeef");
    assert!(nominations_eq(&applied.nominations, &y.nominations));
}

#[test]
fn details_diff_of_identical_records_is_empty() {
    let x = validator_of(6);
    let y = validator_of(6);
    let d = x.get_diff(&y);
    assert!(d.controller_account.is_none());
    assert!(d.preferences.is_none());
    assert!(d.self_stake.is_none());
    assert!(d.reward_destination.is_none());
    assert!(d.next_session_keys.is_none());
    assert!(d.is_active.is_none());
    assert!(d.nominations.is_none());
    assert!(d.unclaimed_era_indices.is_none());
    assert!(d.blocks_authored.is_none());
    assert!(d.onekv_rank.is_none());
}

#[test]
fn status_diff_round_trip_and_idempotence() {
    let x = subvt::subvt::LiveNetworkStatus {
        finalized_block_number: 100,
        finalized_block_hash: "0xaa".to_string(),
        best_block_number: 101,
        best_block_hash: "0xbb".to_string(),
        active_era: subvt::substrate::Era { index: 1, start_timestamp: 2, end_timestamp: 3 },
        current_epoch: subvt::substrate::Epoch {
            index: 9,
            start_block_number: 90,
            start_timestamp: 2,
            end_timestamp: 3,
        },
        active_validator_count: 10,
        inactive_validator_count: 20,
        last_era_total_reward: 1000,
        total_stake: 5000,
        return_rate_per_million: 140_000,
        min_stake: 10,
        max_stake: 1000,
        average_stake: 500,
        median_stake: 450,
        era_reward_points: 777,
    };
    let self_diff = x.get_diff(&x.clone());
    assert!(self_diff.finalized_block_number.is_none());
    assert!(self_diff.finalized_block_hash.is_none());
    assert!(self_diff.era_reward_points.is_none());
    let mut y = x.clone();
    y.best_block_number = 102;
    y.best_block_hash = "0xcc".to_string();
    let d = x.get_diff(&y);
    assert_eq!(d.best_block_number, Some(102));
    assert_eq!(d.best_block_hash, Some("0xcc".to_string()));
    assert!(d.finalized_block_number.is_none());
    let mut applied = x.clone();
    applied.apply_diff(&d);
    assert_eq!(applied.best_block_number, 102);
    assert_eq!(applied.best_block_hash, "0xcc");
    assert_eq!(applied.finalized_block_number, 100);
}
