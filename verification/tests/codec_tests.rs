//! Hex and wire-format reading, cross-checked against the reference
//! implementations.
use parity_scale_codec::{Compact, Encode};
use subvt::crypto::AccountId;
use subvt::scale;
use subvt::substrate::{BlockHeader, Era, EventDigest, RewardDestination, Stake, ValidatorPreferences};

fn id_of_byte(b: u8) -> AccountId {
    AccountId { bytes: vec![b; 32] }
}

#[test]
fn hex_encoding_matches_reference() {
    let id = AccountId { bytes: (0u8..32u8).collect() };
    assert_eq!(id.to_hex_string(), hex::encode((0u8..32u8).collect::<Vec<u8>>()));
}

#[test]
fn hex_round_trip() {
    let id = id_of_byte(0xab);
    let s = id.to_hex_string();
    let back = AccountId::from_hex_string(&s).unwrap();
    assert_eq!(back.bytes, id.bytes);
    let with_prefix = format!("0x{}", s);
    let back2 = AccountId::from_hex_string(&with_prefix).unwrap();
    assert_eq!(back2.bytes, id.bytes);
}

#[test]
fn hex_rejects_bad_input() {
    assert!(AccountId::from_hex_string("zz").is_none());
    assert!(AccountId::from_hex_string("abcd").is_none());
}

#[test]
fn parse_hex_bytes_matches_reference() {
    let bytes = scale::parse_hex_bytes("0x0563ad5e").unwrap();
    assert_eq!(bytes, hex::decode("0563ad5e").unwrap());
    assert!(scale::parse_hex_bytes("0x123").is_none());
}

#[test]
fn block_number_parses_from_hex_header() {
    let header = BlockHeader {
        digest: EventDigest { logs: vec![] },
        extrinsics_root: String::new(),
        number: "0x64".to_string(),
        parent_hash: String::new(),
        state_root: String::new(),
    };
    assert_eq!(header.get_number(), Some(100));
    let bad = BlockHeader {
        digest: EventDigest { logs: vec![] },
        extrinsics_root: String::new(),
        number: "0x".to_string(),
        parent_hash: String::new(),
        state_root: String::new(),
    };
    assert_eq!(bad.get_number(), None);
    let big = BlockHeader {
        digest: EventDigest { logs: vec![] },
        extrinsics_root: String::new(),
        number: "0x10000000000000000".to_string(),
        parent_hash: String::new(),
        state_root: String::new(),
    };
    assert_eq!(big.get_number(), None);
}

#[test]
fn compact_decoding_matches_reference_codec() {
    for v in [0u32, 1, 63, 64, 16383, 16384, 1073741823, 1073741824, u32::MAX] {
        let encoded = Compact(v).encode();
        let (decoded, next) = scale::compact_u32(&encoded, 0).unwrap();
        assert_eq!(decoded, v);
        assert_eq!(next, encoded.len());
    }
    for v in [0u128, 63, 64, 16383, 16384, 1 << 40, u64::MAX as u128, u128::MAX] {
        let encoded = Compact(v).encode();
        let (decoded, next) = scale::compact_u128(&encoded, 0).unwrap();
        assert_eq!(decoded, v);
        assert_eq!(next, encoded.len());
    }
}

#[test]
fn era_decodes_from_runtime_hex() {
    // index 1379, start timestamp present
    let mut bytes: Vec<u8> = Vec::new();
    bytes.extend_from_slice(&1379u32.to_le_bytes());
    bytes.push(1);
    bytes.extend_from_slice(&1_600_000_000_000u64.to_le_bytes());
    let hex_string = format!("0x{}", hex::encode(&bytes));
    let era = Era::from(&hex_string, 21_600_000).unwrap();
    assert_eq!(era.index, 1379);
    assert_eq!(era.start_timestamp, 1_600_000_000_000);
    assert_eq!(era.end_timestamp, 1_600_021_600_000);
}

#[test]
fn era_rejects_missing_start() {
    let mut bytes: Vec<u8> = Vec::new();
    bytes.extend_from_slice(&7u32.to_le_bytes());
    bytes.push(0);
    let hex_string = hex::encode(&bytes);
    assert!(Era::from(&hex_string, 1000).is_none());
}

#[test]
fn preferences_decode_from_runtime_bytes() {
    let mut bytes = Compact(50_000_000u32).encode();
    bytes.push(1);
    let p = ValidatorPreferences::from_bytes(&bytes).unwrap();
    assert_eq!(p.commission_per_billion, 50_000_000);
    assert!(p.blocks_nominations);
}

#[test]
fn reward_destination_decodes_all_tags() {
    assert!(matches!(
        RewardDestination::from_bytes(&vec![0]).unwrap(),
        RewardDestination::Staked
    ));
    assert!(matches!(
        RewardDestination::from_bytes(&vec![1]).unwrap(),
        RewardDestination::Stash
    ));
    assert!(matches!(
        RewardDestination::from_bytes(&vec![2]).unwrap(),
        RewardDestination::Controller
    ));
    let mut with_account = vec![3u8];
    with_account.extend_from_slice(&[9u8; 32]);
    match RewardDestination::from_bytes(&with_account).unwrap() {
        RewardDestination::Account(id) => assert_eq!(id.bytes, vec![9u8; 32]),
        _ => panic!("expected account destination"),
    }
    assert!(matches!(
        RewardDestination::from_bytes(&vec![4]).unwrap(),
        RewardDestination::NoPayout
    ));
    assert!(RewardDestination::from_bytes(&vec![5]).is_none());
    assert!(RewardDestination::from_bytes(&vec![]).is_none());
}

#[test]
fn stake_decodes_ledger_head() {
    let mut bytes: Vec<u8> = vec![7u8; 32];
    bytes.extend(Compact(1_000_000u128).encode());
    bytes.extend(Compact(900_000u128).encode());
    let stake = Stake::from_bytes(&bytes).unwrap();
    assert_eq!(stake.stash_account_id.bytes, vec![7u8; 32]);
    assert_eq!(stake.total_amount, 1_000_000);
    assert_eq!(stake.active_amount, 900_000);
}

#[test]
fn nomination_decodes_targets_and_era() {
    let mut bytes = Compact(2u32).encode();
    bytes.extend_from_slice(&[1u8; 32]);
    bytes.extend_from_slice(&[2u8; 32]);
    bytes.extend_from_slice(&777u32.to_le_bytes());
    bytes.push(0);
    let n = subvt::substrate::Nomination::from_bytes(&bytes, id_of_byte(5)).unwrap();
    assert_eq!(n.stash_account_id.bytes, vec![5u8; 32]);
    assert_eq!(n.submission_era_index, 777);
    assert_eq!(n.target_account_ids.len(), 2);
    assert_eq!(n.target_account_ids[0].bytes, vec![1u8; 32]);
    assert_eq!(n.target_account_ids[1].bytes, vec![2u8; 32]);
}

#[test]
fn validator_stake_decodes_exposure() {
    let mut bytes = Compact(1_000u128).encode();
    bytes.extend(Compact(400u128).encode());
    bytes.extend(Compact(2u32).encode());
    bytes.extend_from_slice(&[8u8; 32]);
    bytes.extend(Compact(350u128).encode());
    bytes.extend_from_slice(&[9u8; 32]);
    bytes.extend(Compact(250u128).encode());
    let v = subvt::stats::ValidatorStake::from_bytes(&bytes, id_of_byte(1)).unwrap();
    assert_eq!(v.account.id.bytes, vec![1u8; 32]);
    assert_eq!(v.total_stake, 1_000);
    assert_eq!(v.self_stake, 400);
    assert_eq!(v.nominators.len(), 2);
    assert_eq!(v.nominators[0].account.id.bytes, vec![8u8; 32]);
    assert_eq!(v.nominators[0].stake, 350);
    assert_eq!(v.nominators[1].stake, 250);
}

#[test]
fn validator_index_reads_babe_pre_runtime_log() {
    // digest item: pre-runtime (6), engine BABE, payload: secondary plain
    // pre-digest (2) with authority index 42 and a slot number
    let mut payload: Vec<u8> = vec![2];
    payload.extend_from_slice(&42u32.to_le_bytes());
    payload.extend_from_slice(&123456u64.to_le_bytes());
    let mut item: Vec<u8> = vec![6, 0x42, 0x41, 0x42, 0x45];
    item.extend(Compact(payload.len() as u32).encode());
    item.extend(&payload);
    let header = BlockHeader {
        digest: EventDigest { logs: vec![format!("0x{}", hex::encode(&item))] },
        extrinsics_root: String::new(),
        number: "0x1".to_string(),
        parent_hash: String::new(),
        state_root: String::new(),
    };
    assert_eq!(header.get_validator_index(), Some(42));
}

#[test]
fn validator_index_ignores_other_engines() {
    let item: Vec<u8> = vec![6, 0x61, 0x75, 0x72, 0x61, 0];
    let header = BlockHeader {
        digest: EventDigest { logs: vec![hex::encode(&item)] },
        extrinsics_root: String::new(),
        number: "0x1".to_string(),
        parent_hash: String::new(),
        state_root: String::new(),
    };
    assert_eq!(header.get_validator_index(), None);
}

fn data_raw(text: &str) -> Vec<u8> {
    let mut out = vec![(text.len() + 1) as u8];
    out.extend_from_slice(text.as_bytes());
    out
}

fn identity_bytes(judgement_tags: &[u8], display: &str, twitter: &str) -> Vec<u8> {
    let mut bytes = Compact(judgement_tags.len() as u32).encode();
    for (i, tag) in judgement_tags.iter().enumerate() {
        bytes.extend_from_slice(&(i as u32).to_le_bytes());
        bytes.push(*tag);
        if *tag == 1 {
            bytes.extend_from_slice(&5u128.to_le_bytes());
        }
    }
    bytes.extend_from_slice(&0u128.to_le_bytes()); // deposit
    bytes.extend(Compact(0u32).encode()); // no additional fields
    bytes.extend(data_raw(display)); // display
    bytes.push(0); // legal
    bytes.push(0); // web
    bytes.push(0); // riot
    bytes.push(0); // email
    bytes.push(0); // no pgp fingerprint
    bytes.push(0); // image
    bytes.extend(data_raw(twitter)); // twitter
    bytes
}

#[test]
fn identity_registration_decodes_fields_and_judgements() {
    // one KnownGood judgement: confirmed
    let bytes = identity_bytes(&[3], "alice", "@alice");
    let reg = subvt::substrate::identity_registration_from_bytes(&bytes).unwrap();
    assert!(reg.confirmed);
    assert_eq!(reg.display, Some("alice".to_string()));
    assert_eq!(reg.twitter, Some("@alice".to_string()));
    assert_eq!(reg.email, None);
    assert_eq!(reg.web, None);
    assert_eq!(reg.riot, None);
    // a KnownGood and an OutOfDate judgement: not confirmed
    let mixed = identity_bytes(&[3, 4], "bob", "");
    let reg2 = subvt::substrate::identity_registration_from_bytes(&mixed).unwrap();
    assert!(!reg2.confirmed);
    // no judgements at all: confirmed vacuously
    let none = identity_bytes(&[], "carol", "");
    let reg3 = subvt::substrate::identity_registration_from_bytes(&none).unwrap();
    assert!(reg3.confirmed);
    // truncated record: rejected
    assert!(subvt::substrate::identity_registration_from_bytes(&vec![4, 0, 0]).is_none());
}
