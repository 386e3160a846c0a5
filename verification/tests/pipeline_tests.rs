//! End-to-end pipeline scenarios: the updater's buffer plan and the
//! list server's per-block processing.
use subvt::crypto::AccountId;
use subvt::hashing::{details_hash, summary_hash};
use subvt::server::ValidatorListServer;
use subvt::substrate::{
    Account, Era, Nomination, RewardDestination, Stake, ValidatorPreferences,
};
use subvt::subvt::{ValidatorDetails, ValidatorSummary};
use subvt::updater::{BufferCommand, ValidatorListUpdater};

fn id_of_byte(b: u8) -> AccountId {
    AccountId { bytes: vec![b; 32] }
}

fn account_of(b: u8) -> Account {
    Account {
        id: id_of_byte(b),
        identity: None,
        parent: Box::new(None),
        child_display: None,
        discovered_at: None,
        killed_at: None,
    }
}

fn validator_of(b: u8, active: bool) -> ValidatorDetails {
    ValidatorDetails {
        account: account_of(b),
        controller_account: account_of(b.wrapping_add(100)),
        preferences: ValidatorPreferences { commission_per_billion: 1_000_000, blocks_nominations: false },
        self_stake: Stake { stash_account_id: id_of_byte(b), total_amount: 100, active_amount: 90 },
        reward_destination: RewardDestination::Staked,
        next_session_keys: "0x00".to_string(),
        is_active: active,
        active_next_session: active,
        nominations: Vec::<Nomination>::new(),
        oversubscribed: false,
        slashed: false,
        slash_count: 0,
        offline_offence_count: 0,
        active_era_count: 0,
        inactive_era_count: 0,
        total_reward_points: 0,
        unclaimed_era_indices: vec![],
        blocks_authored: 0,
        reward_points: 0,
        heartbeat_received: false,
        onekv_candidate_record_id: None,
        onekv_rank: None,
        onekv_is_valid: None,
    }
}

fn era() -> Era {
    Era { index: 1, start_timestamp: 0, end_timestamp: 1 }
}

#[test]
fn cold_start_writes_three_keys_and_publishes_last() {
    let updater = ValidatorListUpdater::new();
    let v1 = validator_of(1, true);
    let commands = updater.plan_block_update("kusama", 100, &era(), &vec![v1]);
    // id sets, era, three keys for the one validator, publish
    assert_eq!(commands.len(), 7);
    match &commands[0] {
        BufferCommand::SetAdd { key, members } => {
            assert_eq!(key, "subvt:kusama:validators:100:active:account_id_set");
            assert_eq!(members.len(), 1);
            assert_eq!(members[0], hex::encode(vec![1u8; 32]));
        }
        _ => panic!("expected the active id set first"),
    }
    match &commands[1] {
        BufferCommand::SetAdd { key, members } => {
            assert_eq!(key, "subvt:kusama:validators:100:inactive:account_id_set");
            assert!(members.is_empty());
        }
        _ => panic!("expected the inactive id set second"),
    }
    match &commands[2] {
        BufferCommand::SetEra { key, .. } => {
            assert_eq!(key, "subvt:kusama:validators:100:active_era");
        }
        _ => panic!("expected the era third"),
    }
    let prefix = format!("subvt:kusama:validators:100:active:validator:{}", hex::encode(vec![1u8; 32]));
    match &commands[3] {
        BufferCommand::SetHash { key, hash } => {
            assert_eq!(*key, format!("{}:hash", prefix));
            assert_eq!(*hash, details_hash(&validator_of(1, true)));
        }
        _ => panic!("expected the record hash"),
    }
    match &commands[4] {
        BufferCommand::SetHash { key, hash } => {
            assert_eq!(*key, format!("{}:summary_hash", prefix));
            let summary = ValidatorSummary::from_details(&validator_of(1, true));
            assert_eq!(*hash, summary_hash(&summary));
        }
        _ => panic!("expected the summary hash"),
    }
    match &commands[5] {
        BufferCommand::SetValidator { key, .. } => assert_eq!(*key, prefix),
        _ => panic!("expected the record"),
    }
    match &commands[6] {
        BufferCommand::Publish { channel, block_number } => {
            assert_eq!(channel, "subvt:kusama:validators:publish:finalized_block_number");
            assert_eq!(*block_number, 100);
        }
        _ => panic!("expected the publish last"),
    }
}

#[test]
fn buckets_partition_the_validator_list() {
    let updater = ValidatorListUpdater::new();
    let vs = vec![validator_of(1, true), validator_of(2, false), validator_of(3, true)];
    let commands = updater.plan_block_update("kusama", 5, &era(), &vs);
    let actives = match &commands[0] {
        BufferCommand::SetAdd { members, .. } => members.clone(),
        _ => panic!(),
    };
    let inactives = match &commands[1] {
        BufferCommand::SetAdd { members, .. } => members.clone(),
        _ => panic!(),
    };
    assert_eq!(actives, vec![hex::encode(vec![1u8; 32]), hex::encode(vec![3u8; 32])]);
    assert_eq!(inactives, vec![hex::encode(vec![2u8; 32])]);
    for a in &actives {
        assert!(!inactives.contains(a));
    }
}

#[test]
fn history_bound_keeps_three_blocks() {
    let mut updater = ValidatorListUpdater::new();
    let mut deleted: Vec<String> = Vec::new();
    for block in 100u64..=110 {
        let commands = updater.plan_block_update("kusama", block, &era(), &vec![]);
        for c in &commands {
            if let BufferCommand::DeletePattern { pattern } = c {
                deleted.push(pattern.clone());
            }
        }
        updater.commit_block(block);
        assert!(updater.processed_block_numbers.len() <= 3);
    }
    assert_eq!(updater.processed_block_numbers, vec![108, 109, 110]);
    assert!(deleted.contains(&"subvt:kusama:validators:107:*".to_string()));
    assert!(!deleted.contains(&"subvt:kusama:validators:108:*".to_string()));
}

#[test]
fn uncommitted_block_leaves_no_trace() {
    // a failed pipeline never reaches the commit: the history stands
    // unchanged and the publish sat in the unexecuted plan
    let mut updater = ValidatorListUpdater::new();
    let _plan = updater.plan_block_update("kusama", 100, &era(), &vec![]);
    assert!(updater.processed_block_numbers.is_empty());
    updater.commit_block(100);
    assert_eq!(updater.processed_block_numbers, vec![100]);
    let _plan2 = updater.plan_block_update("kusama", 101, &era(), &vec![]);
    assert_eq!(updater.processed_block_numbers, vec![100]);
}

#[test]
fn busy_flag_drops_overlapping_blocks() {
    let mut updater = ValidatorListUpdater::new();
    assert!(updater.try_begin_block());
    assert!(!updater.try_begin_block());
    updater.finish_block();
    assert!(updater.try_begin_block());
}

#[test]
fn startup_wipe_pattern_covers_the_chain() {
    assert_eq!(subvt::updater::startup_wipe_pattern("polkadot"), "subvt:polkadot:*");
}

#[test]
fn first_block_is_all_inserts() {
    let mut server = ValidatorListServer::new();
    let v1 = validator_of(1, true);
    let present = vec![id_of_byte(1)];
    let update = server.process_block(100, &present, &vec![], &vec![v1]);
    assert_eq!(update.finalized_block_number, Some(100));
    assert!(update.remove_ids.is_empty());
    assert!(update.update.is_empty());
    assert_eq!(update.insert.len(), 1);
    assert_eq!(update.insert[0].account.id.bytes, vec![1u8; 32]);
    assert_eq!(server.last_finalized_block_number, 100);
}

#[test]
fn duplicate_notification_is_skipped() {
    let mut server = ValidatorListServer::new();
    let present = vec![id_of_byte(1)];
    server.process_block(100, &present, &vec![], &vec![validator_of(1, true)]);
    assert!(!server.should_process(100));
    assert!(server.should_process(101));
}

#[test]
fn summary_invariant_change_needs_no_push() {
    // enrichment counter moves: the record hash changes, the summary
    // hash does not, so the server fetches nothing
    let v_old = validator_of(1, true);
    let mut v_new = validator_of(1, true);
    v_new.blocks_authored += 1;
    assert_ne!(details_hash(&v_old), details_hash(&v_new));
    let s_old = ValidatorSummary::from_details(&v_old);
    let s_new = ValidatorSummary::from_details(&v_new);
    assert_eq!(summary_hash(&s_old), summary_hash(&s_new));
    assert!(!ValidatorListServer::summary_changed(&v_old, summary_hash(&s_new)));
}

#[test]
fn summary_affecting_change_is_pushed_as_one_field() {
    let mut server = ValidatorListServer::new();
    let present = vec![id_of_byte(1)];
    server.process_block(102, &present, &vec![], &vec![validator_of(1, true)]);
    let mut v_new = validator_of(1, true);
    v_new.preferences.commission_per_billion = 777;
    // the changed summary hash is what triggers the re-fetch
    let new_summary = ValidatorSummary::from_details(&v_new);
    assert!(ValidatorListServer::summary_changed(
        server.mirror.get(&id_of_byte(1)).unwrap(),
        summary_hash(&new_summary)
    ));
    let update = server.process_block(103, &present, &vec![v_new], &vec![]);
    assert!(update.remove_ids.is_empty());
    assert!(update.insert.is_empty());
    assert_eq!(update.update.len(), 1);
    let d = &update.update[0];
    assert_eq!(
        d.preferences,
        Some(ValidatorPreferences { commission_per_billion: 777, blocks_nominations: false })
    );
    assert!(d.self_stake.is_none());
    assert!(d.nominations.is_none());
    // the mirror now holds the new record
    assert_eq!(
        server.mirror.get(&id_of_byte(1)).unwrap().preferences.commission_per_billion,
        777
    );
}

#[test]
fn churn_removes_and_inserts() {
    let mut server = ValidatorListServer::new();
    server.process_block(102, &vec![id_of_byte(1)], &vec![], &vec![validator_of(1, true)]);
    let present = vec![id_of_byte(2)];
    let update = server.process_block(103, &present, &vec![], &vec![validator_of(2, true)]);
    assert_eq!(update.remove_ids.len(), 1);
    assert_eq!(update.remove_ids[0].bytes, vec![1u8; 32]);
    assert_eq!(update.insert.len(), 1);
    assert_eq!(update.insert[0].account.id.bytes, vec![2u8; 32]);
    assert!(update.update.is_empty());
    assert!(server.mirror.get(&id_of_byte(1)).is_none());
    assert!(server.mirror.get(&id_of_byte(2)).is_some());
}

#[test]
fn snapshot_inserts_every_mirrored_summary() {
    let mut server = ValidatorListServer::new();
    let present = vec![id_of_byte(1), id_of_byte(2)];
    server.process_block(
        104,
        &present,
        &vec![],
        &vec![validator_of(1, true), validator_of(2, true)],
    );
    let snapshot = server.initial_update();
    assert_eq!(snapshot.finalized_block_number, None);
    assert_eq!(snapshot.insert.len(), 2);
    assert!(snapshot.update.is_empty());
    assert!(snapshot.remove_ids.is_empty());
}

#[test]
fn slow_subscriber_slot_errors_while_others_continue() {
    // the broadcast bus the sessions hang off: a reader that never
    // drains makes try_broadcast fail, and the session for that slot
    // is closed with an error event; a draining reader keeps receiving
    let mut bus = bus::Bus::<u64>::new(2);
    let mut fast = bus.add_rx();
    let mut slow = bus.add_rx();
    bus.broadcast(1);
    bus.broadcast(2);
    assert_eq!(fast.recv().unwrap(), 1);
    assert_eq!(fast.recv().unwrap(), 2);
    // slow drained nothing: the bus is full for its slot
    assert!(bus.try_broadcast(3).is_err());
    assert_eq!(slow.recv().unwrap(), 1);
    assert_eq!(slow.recv().unwrap(), 2);
    assert!(bus.try_broadcast(3).is_ok());
    assert_eq!(fast.recv().unwrap(), 3);
}
