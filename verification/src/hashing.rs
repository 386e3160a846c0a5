//! Stable change detection: a 64-bit FNV-1a hash over a canonical byte
//! encoding of each record, with fixed constants and fixed field order,
//! so producer and consumer processes always agree.
use vstd::prelude::*;
use vstd::utf8::encode_utf8;

use crate::substrate::{
    AccountV, IdentityRegistrationSummaryV, IdentityRegistrationV, NominationV,
    NominationsSummary, RewardDestinationV, StakeSummaryV, StakeV, ValidatorPreferences,
};
use crate::substrate::{Account, IdentityRegistration, Nomination, RewardDestination, Stake};
use crate::subvt::{
    AccountSummary, AccountSummaryV, ValidatorDetails, ValidatorDetailsV, ValidatorSummary,
    ValidatorSummaryV,
};

verus! {

/// The FNV-1a 64-bit hash of a byte string: fixed offset basis, fixed
/// prime, independent of process and machine.
pub open spec fn spec_fnv1a(bytes: Seq<u8>) -> u64
    decreases bytes.len(),
{
    if bytes.len() == 0 {
        0xcbf29ce484222325u64
    } else {
        ((((spec_fnv1a(bytes.drop_last()) ^ (bytes.last() as u64)) as nat) * (
        0x100000001b3 as nat)) % (0x10000000000000000 as nat)) as u64
    }
}

/// Computes the FNV-1a 64-bit hash of a byte string.
pub fn fnv1a(bytes: &Vec<u8>) -> (h: u64)
    ensures
        h == spec_fnv1a(bytes@),
{
    let mut h: u64 = 0xcbf29ce484222325;
    let mut i: usize = 0;
    while i < bytes.len()
        invariant
            i <= bytes@.len(),
            h == spec_fnv1a(bytes@.take(i as int)),
        decreases bytes@.len() - i,
    {
        h = (h ^ (bytes[i] as u64)).wrapping_mul(0x100000001b3);
        i = i + 1;
        proof {
            let cur = bytes@.take(i as int);
            assert(cur.drop_last() =~= bytes@.take(i - 1));
            assert(cur.last() == bytes@[i - 1]);
        }
    }
    proof {
        assert(bytes@.take(bytes@.len() as int) =~= bytes@);
    }
    h
}

/// Little-endian encoding of a 32-bit number.
pub open spec fn spec_enc_u32(x: u32) -> Seq<u8> {
    seq![
        (x & 0xff) as u8,
        ((x >> 8) & 0xff) as u8,
        ((x >> 16) & 0xff) as u8,
        ((x >> 24) & 0xff) as u8,
    ]
}

/// Little-endian encoding of a 64-bit number.
pub open spec fn spec_enc_u64(x: u64) -> Seq<u8> {
    seq![
        (x & 0xff) as u8,
        ((x >> 8) & 0xff) as u8,
        ((x >> 16) & 0xff) as u8,
        ((x >> 24) & 0xff) as u8,
        ((x >> 32) & 0xff) as u8,
        ((x >> 40) & 0xff) as u8,
        ((x >> 48) & 0xff) as u8,
        ((x >> 56) & 0xff) as u8,
    ]
}

/// Little-endian encoding of a 128-bit number.
pub open spec fn spec_enc_u128(x: u128) -> Seq<u8> {
    seq![
        (x & 0xff) as u8,
        ((x >> 8) & 0xff) as u8,
        ((x >> 16) & 0xff) as u8,
        ((x >> 24) & 0xff) as u8,
        ((x >> 32) & 0xff) as u8,
        ((x >> 40) & 0xff) as u8,
        ((x >> 48) & 0xff) as u8,
        ((x >> 56) & 0xff) as u8,
        ((x >> 64) & 0xff) as u8,
        ((x >> 72) & 0xff) as u8,
        ((x >> 80) & 0xff) as u8,
        ((x >> 88) & 0xff) as u8,
        ((x >> 96) & 0xff) as u8,
        ((x >> 104) & 0xff) as u8,
        ((x >> 112) & 0xff) as u8,
        ((x >> 120) & 0xff) as u8,
    ]
}

/// One byte for a boolean.
pub open spec fn spec_enc_bool(b: bool) -> Seq<u8> {
    if b {
        seq![1u8]
    } else {
        seq![0u8]
    }
}

/// A length-prefixed byte string.
pub open spec fn spec_enc_bytes(b: Seq<u8>) -> Seq<u8> {
    spec_enc_u64(b.len() as u64) + b
}

/// A length-prefixed string, as its UTF-8 bytes.
pub open spec fn spec_enc_str(s: Seq<char>) -> Seq<u8> {
    spec_enc_bytes(encode_utf8(s))
}

/// An optional string: a tag byte, then the string where present.
pub open spec fn spec_enc_opt_str(o: Option<Seq<char>>) -> Seq<u8> {
    match o {
        Some(s) => seq![1u8] + spec_enc_str(s),
        None => seq![0u8],
    }
}

/// An optional 64-bit number: a tag byte, then the number where present.
pub open spec fn spec_enc_opt_u64(o: Option<u64>) -> Seq<u8> {
    match o {
        Some(x) => seq![1u8] + spec_enc_u64(x),
        None => seq![0u8],
    }
}

/// An optional 32-bit number: a tag byte, then the number where present.
pub open spec fn spec_enc_opt_u32(o: Option<u32>) -> Seq<u8> {
    match o {
        Some(x) => seq![1u8] + spec_enc_u32(x),
        None => seq![0u8],
    }
}

/// An optional boolean: a tag byte, then the flag where present.
pub open spec fn spec_enc_opt_bool(o: Option<bool>) -> Seq<u8> {
    match o {
        Some(b) => seq![1u8] + spec_enc_bool(b),
        None => seq![0u8],
    }
}

fn push_u32(dst: &mut Vec<u8>, x: u32)
    ensures
        final(dst)@ == old(dst)@ + spec_enc_u32(x),
{
    dst.push((x & 0xff) as u8);
    dst.push(((x >> 8) & 0xff) as u8);
    dst.push(((x >> 16) & 0xff) as u8);
    dst.push(((x >> 24) & 0xff) as u8);
    proof {
        assert(dst@ =~= old(dst)@ + spec_enc_u32(x));
    }
}

fn push_u64(dst: &mut Vec<u8>, x: u64)
    ensures
        final(dst)@ == old(dst)@ + spec_enc_u64(x),
{
    dst.push((x & 0xff) as u8);
    dst.push(((x >> 8) & 0xff) as u8);
    dst.push(((x >> 16) & 0xff) as u8);
    dst.push(((x >> 24) & 0xff) as u8);
    dst.push(((x >> 32) & 0xff) as u8);
    dst.push(((x >> 40) & 0xff) as u8);
    dst.push(((x >> 48) & 0xff) as u8);
    dst.push(((x >> 56) & 0xff) as u8);
    proof {
        assert(dst@ =~= old(dst)@ + spec_enc_u64(x));
    }
}

fn push_u128(dst: &mut Vec<u8>, x: u128)
    ensures
        final(dst)@ == old(dst)@ + spec_enc_u128(x),
{
    dst.push((x & 0xff) as u8);
    dst.push(((x >> 8) & 0xff) as u8);
    dst.push(((x >> 16) & 0xff) as u8);
    dst.push(((x >> 24) & 0xff) as u8);
    dst.push(((x >> 32) & 0xff) as u8);
    dst.push(((x >> 40) & 0xff) as u8);
    dst.push(((x >> 48) & 0xff) as u8);
    dst.push(((x >> 56) & 0xff) as u8);
    dst.push(((x >> 64) & 0xff) as u8);
    dst.push(((x >> 72) & 0xff) as u8);
    dst.push(((x >> 80) & 0xff) as u8);
    dst.push(((x >> 88) & 0xff) as u8);
    dst.push(((x >> 96) & 0xff) as u8);
    dst.push(((x >> 104) & 0xff) as u8);
    dst.push(((x >> 112) & 0xff) as u8);
    dst.push(((x >> 120) & 0xff) as u8);
    proof {
        assert(dst@ =~= old(dst)@ + spec_enc_u128(x));
    }
}

fn push_bool(dst: &mut Vec<u8>, b: bool)
    ensures
        final(dst)@ == old(dst)@ + spec_enc_bool(b),
{
    dst.push(if b {
        1
    } else {
        0
    });
    proof {
        assert(dst@ =~= old(dst)@ + spec_enc_bool(b));
    }
}

fn push_bytes(dst: &mut Vec<u8>, src: &Vec<u8>)
    ensures
        final(dst)@ == old(dst)@ + spec_enc_bytes(src@),
{
    push_u64(dst, src.len() as u64);
    let mut i: usize = 0;
    while i < src.len()
        invariant
            i <= src@.len(),
            dst@ == old(dst)@ + spec_enc_u64(src@.len() as u64) + src@.take(i as int),
        decreases src@.len() - i,
    {
        dst.push(src[i]);
        i = i + 1;
        proof {
            assert(dst@ =~= old(dst)@ + spec_enc_u64(src@.len() as u64) + src@.take(i as int));
        }
    }
    proof {
        assert(src@.take(src@.len() as int) =~= src@);
        assert(dst@ =~= old(dst)@ + spec_enc_bytes(src@));
    }
}

fn push_str(dst: &mut Vec<u8>, s: &str)
    ensures
        final(dst)@ == old(dst)@ + spec_enc_str(s@),
{
    let bytes = s.as_bytes_vec();
    push_bytes(dst, &bytes);
}

fn push_opt_str(dst: &mut Vec<u8>, o: &Option<String>)
    ensures
        final(dst)@ == old(dst)@ + spec_enc_opt_str(crate::substrate::view_opt_string(*o)),
{
    match o {
        Some(s) => {
            dst.push(1);
            push_str(dst, s.as_str());
            proof {
                assert(dst@ =~= old(dst)@ + spec_enc_opt_str(Some(s@)));
            }
        },
        None => {
            dst.push(0);
            proof {
                assert(dst@ =~= old(dst)@ + spec_enc_opt_str(None));
            }
        },
    }
}

fn push_opt_u64(dst: &mut Vec<u8>, o: Option<u64>)
    ensures
        final(dst)@ == old(dst)@ + spec_enc_opt_u64(o),
{
    match o {
        Some(x) => {
            dst.push(1);
            push_u64(dst, x);
            proof {
                assert(dst@ =~= old(dst)@ + spec_enc_opt_u64(Some(x)));
            }
        },
        None => {
            dst.push(0);
            proof {
                assert(dst@ =~= old(dst)@ + spec_enc_opt_u64(None::<u64>));
            }
        },
    }
}

fn push_opt_u32(dst: &mut Vec<u8>, o: Option<u32>)
    ensures
        final(dst)@ == old(dst)@ + spec_enc_opt_u32(o),
{
    match o {
        Some(x) => {
            dst.push(1);
            push_u32(dst, x);
            proof {
                assert(dst@ =~= old(dst)@ + spec_enc_opt_u32(Some(x)));
            }
        },
        None => {
            dst.push(0);
            proof {
                assert(dst@ =~= old(dst)@ + spec_enc_opt_u32(None::<u32>));
            }
        },
    }
}

fn push_opt_bool(dst: &mut Vec<u8>, o: Option<bool>)
    ensures
        final(dst)@ == old(dst)@ + spec_enc_opt_bool(o),
{
    match o {
        Some(b) => {
            dst.push(1);
            push_bool(dst, b);
            proof {
                assert(dst@ =~= old(dst)@ + spec_enc_opt_bool(Some(b)));
            }
        },
        None => {
            dst.push(0);
            proof {
                assert(dst@ =~= old(dst)@ + spec_enc_opt_bool(None::<bool>));
            }
        },
    }
}

/// Canonical encoding of an identity registration.
pub open spec fn spec_enc_identity(i: IdentityRegistrationV) -> Seq<u8> {
    spec_enc_opt_str(i.display) + spec_enc_opt_str(i.email) + spec_enc_opt_str(i.riot)
        + spec_enc_opt_str(i.twitter) + spec_enc_opt_str(i.web) + spec_enc_bool(i.confirmed)
}

fn push_identity(dst: &mut Vec<u8>, i: &IdentityRegistration)
    ensures
        final(dst)@ == old(dst)@ + spec_enc_identity(i@),
{
    push_opt_str(dst, &i.display);
    push_opt_str(dst, &i.email);
    push_opt_str(dst, &i.riot);
    push_opt_str(dst, &i.twitter);
    push_opt_str(dst, &i.web);
    push_bool(dst, i.confirmed);
    proof {
        assert(dst@ =~= old(dst)@ + spec_enc_identity(i@));
    }
}

/// Canonical encoding of an account, parents included.
pub open spec fn spec_enc_account(a: AccountV) -> Seq<u8>
    decreases a,
{
    spec_enc_bytes(a.id) + (match a.identity {
        Some(i) => seq![1u8] + spec_enc_identity(i),
        None => seq![0u8],
    }) + (match a.parent {
        Some(p) => seq![1u8] + spec_enc_account(*p),
        None => seq![0u8],
    }) + spec_enc_opt_str(a.child_display) + spec_enc_opt_u64(a.discovered_at) + spec_enc_opt_u64(
        a.killed_at,
    )
}

#[verifier::rlimit(100)]
#[verifier::spinoff_prover]
fn push_account(dst: &mut Vec<u8>, a: &Account)
    ensures
        final(dst)@ == old(dst)@ + spec_enc_account(a@),
    decreases *a,
{
    let ghost o = dst@;
    let ghost e1 = spec_enc_bytes(a@.id);
    let ghost m2: Seq<u8> = match a@.identity {
        Some(i) => seq![1u8] + spec_enc_identity(i),
        None => seq![0u8],
    };
    let ghost m3: Seq<u8> = match a@.parent {
        Some(p) => seq![1u8] + spec_enc_account(*p),
        None => seq![0u8],
    };
    let ghost e4 = spec_enc_opt_str(a@.child_display);
    let ghost e5 = spec_enc_opt_u64(a@.discovered_at);
    let ghost e6 = spec_enc_opt_u64(a@.killed_at);
    push_bytes(dst, &a.id.bytes);
    match &a.identity {
        Some(i) => {
            dst.push(1);
            push_identity(dst, i);
        },
        None => {
            dst.push(0);
        },
    }
    proof {
        assert(dst@ =~= o + (e1 + m2));
    }
    match &*a.parent {
        Some(p) => {
            dst.push(1);
            push_account(dst, p);
        },
        None => {
            dst.push(0);
        },
    }
    proof {
        assert(dst@ =~= o + ((e1 + m2) + m3));
    }
    push_opt_str(dst, &a.child_display);
    proof {
        assert(dst@ =~= o + (((e1 + m2) + m3) + e4));
    }
    push_opt_u64(dst, a.discovered_at);
    proof {
        assert(dst@ =~= o + ((((e1 + m2) + m3) + e4) + e5));
    }
    push_opt_u64(dst, a.killed_at);
    proof {
        assert(dst@ =~= o + (((((e1 + m2) + m3) + e4) + e5) + e6));
        assert(spec_enc_account(a@) == ((((e1 + m2) + m3) + e4) + e5) + e6);
    }
}

/// Canonical encoding of validator preferences.
pub open spec fn spec_enc_preferences(p: ValidatorPreferences) -> Seq<u8> {
    spec_enc_u32(p.commission_per_billion) + spec_enc_bool(p.blocks_nominations)
}

fn push_preferences(dst: &mut Vec<u8>, p: &ValidatorPreferences)
    ensures
        final(dst)@ == old(dst)@ + spec_enc_preferences(*p),
{
    push_u32(dst, p.commission_per_billion);
    push_bool(dst, p.blocks_nominations);
    proof {
        assert(dst@ =~= old(dst)@ + spec_enc_preferences(*p));
    }
}

/// Canonical encoding of a stake.
pub open spec fn spec_enc_stake(s: StakeV) -> Seq<u8> {
    spec_enc_bytes(s.stash_account_id) + spec_enc_u128(s.total_amount) + spec_enc_u128(
        s.active_amount,
    )
}

fn push_stake(dst: &mut Vec<u8>, s: &Stake)
    ensures
        final(dst)@ == old(dst)@ + spec_enc_stake(s@),
{
    push_bytes(dst, &s.stash_account_id.bytes);
    push_u128(dst, s.total_amount);
    push_u128(dst, s.active_amount);
    proof {
        assert(dst@ =~= old(dst)@ + spec_enc_stake(s@));
    }
}

/// Canonical encoding of a reward destination.
pub open spec fn spec_enc_reward_destination(d: RewardDestinationV) -> Seq<u8> {
    match d {
        RewardDestinationV::Staked => seq![0u8],
        RewardDestinationV::Stash => seq![1u8],
        RewardDestinationV::Controller => seq![2u8],
        RewardDestinationV::Account(id) => seq![3u8] + spec_enc_bytes(id),
        RewardDestinationV::NoPayout => seq![4u8],
    }
}

fn push_reward_destination(dst: &mut Vec<u8>, d: &RewardDestination)
    ensures
        final(dst)@ == old(dst)@ + spec_enc_reward_destination(d@),
{
    match d {
        RewardDestination::Staked => {
            dst.push(0);
        },
        RewardDestination::Stash => {
            dst.push(1);
        },
        RewardDestination::Controller => {
            dst.push(2);
        },
        RewardDestination::Account(id) => {
            dst.push(3);
            push_bytes(dst, &id.bytes);
        },
        RewardDestination::NoPayout => {
            dst.push(4);
        },
    }
    proof {
        assert(dst@ =~= old(dst)@ + spec_enc_reward_destination(d@));
    }
}

/// Canonical encoding of a list of account ids.
pub open spec fn spec_enc_id_list_items(ids: Seq<Seq<u8>>) -> Seq<u8>
    decreases ids.len(),
{
    if ids.len() == 0 {
        Seq::empty()
    } else {
        spec_enc_id_list_items(ids.drop_last()) + spec_enc_bytes(ids.last())
    }
}

/// Canonical encoding of a nomination.
pub open spec fn spec_enc_nomination(n: NominationV) -> Seq<u8> {
    spec_enc_bytes(n.stash_account_id) + spec_enc_u32(n.submission_era_index) + spec_enc_u64(
        n.target_account_ids.len() as u64,
    ) + spec_enc_id_list_items(n.target_account_ids) + spec_enc_stake(n.stake)
}

fn push_nomination(dst: &mut Vec<u8>, n: &Nomination)
    ensures
        final(dst)@ == old(dst)@ + spec_enc_nomination(n@),
{
    push_bytes(dst, &n.stash_account_id.bytes);
    push_u32(dst, n.submission_era_index);
    push_u64(dst, n.target_account_ids.len() as u64);
    let ghost ids = n@.target_account_ids;
    let ghost base = dst@;
    let mut i: usize = 0;
    while i < n.target_account_ids.len()
        invariant
            i <= n.target_account_ids@.len(),
            ids == n@.target_account_ids,
            ids.len() == n.target_account_ids@.len(),
            forall|j: int| 0 <= j < ids.len() ==> ids[j] == n.target_account_ids@[j]@,
            dst@ == base + spec_enc_id_list_items(ids.take(i as int)),
        decreases n.target_account_ids@.len() - i,
    {
        push_bytes(dst, &n.target_account_ids[i].bytes);
        i = i + 1;
        proof {
            let cur = ids.take(i as int);
            assert(cur.drop_last() =~= ids.take(i - 1));
            assert(cur.last() == ids[i - 1]);
            assert(dst@ =~= base + spec_enc_id_list_items(cur));
        }
    }
    proof {
        assert(ids.take(ids.len() as int) =~= ids);
    }
    push_stake(dst, &n.stake);
    proof {
        assert(dst@ =~= old(dst)@ + spec_enc_nomination(n@));
    }
}

/// Canonical encoding of the items of a list of nominations.
pub open spec fn spec_enc_nomination_items(ns: Seq<NominationV>) -> Seq<u8>
    decreases ns.len(),
{
    if ns.len() == 0 {
        Seq::empty()
    } else {
        spec_enc_nomination_items(ns.drop_last()) + spec_enc_nomination(ns.last())
    }
}

/// Canonical encoding of a list of nominations.
pub open spec fn spec_enc_nominations(ns: Seq<NominationV>) -> Seq<u8> {
    spec_enc_u64(ns.len() as u64) + spec_enc_nomination_items(ns)
}

fn push_nominations(dst: &mut Vec<u8>, ns: &Vec<Nomination>)
    ensures
        final(dst)@ == old(dst)@ + spec_enc_nominations(crate::subvt::view_nominations(ns@)),
{
    let ghost nv = crate::subvt::view_nominations(ns@);
    push_u64(dst, ns.len() as u64);
    let ghost base = dst@;
    let mut i: usize = 0;
    while i < ns.len()
        invariant
            i <= ns@.len(),
            nv == crate::subvt::view_nominations(ns@),
            nv.len() == ns@.len(),
            forall|j: int| 0 <= j < nv.len() ==> nv[j] == ns@[j]@,
            dst@ == base + spec_enc_nomination_items(nv.take(i as int)),
        decreases ns@.len() - i,
    {
        push_nomination(dst, &ns[i]);
        i = i + 1;
        proof {
            let cur = nv.take(i as int);
            assert(cur.drop_last() =~= nv.take(i - 1));
            assert(cur.last() == nv[i - 1]);
            assert(dst@ =~= base + spec_enc_nomination_items(cur));
        }
    }
    proof {
        assert(nv.take(nv.len() as int) =~= nv);
        assert(dst@ =~= old(dst)@ + spec_enc_nominations(nv));
    }
}

/// Canonical encoding of the items of a list of era indices.
pub open spec fn spec_enc_u32_items(xs: Seq<u32>) -> Seq<u8>
    decreases xs.len(),
{
    if xs.len() == 0 {
        Seq::empty()
    } else {
        spec_enc_u32_items(xs.drop_last()) + spec_enc_u32(xs.last())
    }
}

/// Canonical encoding of a list of era indices.
pub open spec fn spec_enc_u32_list(xs: Seq<u32>) -> Seq<u8> {
    spec_enc_u64(xs.len() as u64) + spec_enc_u32_items(xs)
}

fn push_u32_list(dst: &mut Vec<u8>, xs: &Vec<u32>)
    ensures
        final(dst)@ == old(dst)@ + spec_enc_u32_list(xs@),
{
    push_u64(dst, xs.len() as u64);
    let ghost base = dst@;
    let mut i: usize = 0;
    while i < xs.len()
        invariant
            i <= xs@.len(),
            dst@ == base + spec_enc_u32_items(xs@.take(i as int)),
        decreases xs@.len() - i,
    {
        push_u32(dst, xs[i]);
        i = i + 1;
        proof {
            let cur = xs@.take(i as int);
            assert(cur.drop_last() =~= xs@.take(i - 1));
            assert(cur.last() == xs@[i - 1]);
            assert(dst@ =~= base + spec_enc_u32_items(cur));
        }
    }
    proof {
        assert(xs@.take(xs@.len() as int) =~= xs@);
        assert(dst@ =~= old(dst)@ + spec_enc_u32_list(xs@));
    }
}

/// Canonical encoding of a full validator record, fields in declaration
/// order.
pub open spec fn spec_enc_details(v: ValidatorDetailsV) -> Seq<u8> {
    spec_enc_account(v.account) + spec_enc_account(v.controller_account) + spec_enc_preferences(
        v.preferences,
    ) + spec_enc_stake(v.self_stake) + spec_enc_reward_destination(v.reward_destination)
        + spec_enc_str(v.next_session_keys) + spec_enc_bool(v.is_active) + spec_enc_bool(
        v.active_next_session,
    ) + spec_enc_nominations(v.nominations) + spec_enc_bool(v.oversubscribed) + spec_enc_bool(
        v.slashed,
    ) + spec_enc_u64(v.slash_count) + spec_enc_u64(v.offline_offence_count) + spec_enc_u64(
        v.active_era_count,
    ) + spec_enc_u64(v.inactive_era_count) + spec_enc_u64(v.total_reward_points)
        + spec_enc_u32_list(v.unclaimed_era_indices) + spec_enc_u64(v.blocks_authored)
        + spec_enc_u64(v.reward_points) + spec_enc_bool(v.heartbeat_received) + spec_enc_opt_u32(
        v.onekv_candidate_record_id,
    ) + spec_enc_opt_u64(v.onekv_rank) + spec_enc_opt_bool(v.onekv_is_valid)
}

/// Encodes a full validator record canonically.
#[verifier::rlimit(100)]
#[verifier::spinoff_prover]
pub fn encode_details(v: &ValidatorDetails) -> (r: Vec<u8>)
    ensures
        r@ == spec_enc_details(v@),
{
    let mut out: Vec<u8> = Vec::new();
    push_account(&mut out, &v.account);
    push_account(&mut out, &v.controller_account);
    push_preferences(&mut out, &v.preferences);
    push_stake(&mut out, &v.self_stake);
    push_reward_destination(&mut out, &v.reward_destination);
    push_str(&mut out, v.next_session_keys.as_str());
    push_bool(&mut out, v.is_active);
    push_bool(&mut out, v.active_next_session);
    push_nominations(&mut out, &v.nominations);
    push_bool(&mut out, v.oversubscribed);
    push_bool(&mut out, v.slashed);
    push_u64(&mut out, v.slash_count);
    push_u64(&mut out, v.offline_offence_count);
    push_u64(&mut out, v.active_era_count);
    push_u64(&mut out, v.inactive_era_count);
    push_u64(&mut out, v.total_reward_points);
    push_u32_list(&mut out, &v.unclaimed_era_indices);
    push_u64(&mut out, v.blocks_authored);
    push_u64(&mut out, v.reward_points);
    push_bool(&mut out, v.heartbeat_received);
    push_opt_u32(&mut out, v.onekv_candidate_record_id);
    push_opt_u64(&mut out, v.onekv_rank);
    push_opt_bool(&mut out, v.onekv_is_valid);
    proof {
        assert(out@ =~= spec_enc_details(v@));
    }
    out
}

/// Canonical encoding of an identity summary.
pub open spec fn spec_enc_identity_summary(i: IdentityRegistrationSummaryV) -> Seq<u8> {
    spec_enc_opt_str(i.display) + spec_enc_bool(i.confirmed)
}

/// Canonical encoding of an account summary.
pub open spec fn spec_enc_account_summary(a: AccountSummaryV) -> Seq<u8> {
    spec_enc_bytes(a.id) + (match a.identity {
        Some(i) => seq![1u8] + spec_enc_identity_summary(i),
        None => seq![0u8],
    }) + spec_enc_opt_str(a.child_display) + spec_enc_bool(a.confirmed)
}

fn push_account_summary(dst: &mut Vec<u8>, a: &AccountSummary)
    ensures
        final(dst)@ == old(dst)@ + spec_enc_account_summary(a@),
{
    push_bytes(dst, &a.id.bytes);
    match &a.identity {
        Some(i) => {
            dst.push(1);
            push_opt_str(dst, &i.display);
            push_bool(dst, i.confirmed);
        },
        None => {
            dst.push(0);
        },
    }
    push_opt_str(dst, &a.child_display);
    push_bool(dst, a.confirmed);
    proof {
        assert(dst@ =~= old(dst)@ + spec_enc_account_summary(a@));
    }
}

/// Canonical encoding of a stake summary.
pub open spec fn spec_enc_stake_summary(s: StakeSummaryV) -> Seq<u8> {
    spec_enc_bytes(s.stash_account_id) + spec_enc_u128(s.active_amount)
}

/// Canonical encoding of a nominations summary.
pub open spec fn spec_enc_nominations_summary(n: NominationsSummary) -> Seq<u8> {
    spec_enc_u32(n.nomination_count as u32) + spec_enc_u128(n.total_amount)
}

/// Canonical encoding of a validator summary, fields in declaration
/// order.
pub open spec fn spec_enc_summary(s: ValidatorSummaryV) -> Seq<u8> {
    spec_enc_account_summary(s.account) + spec_enc_preferences(s.preferences)
        + spec_enc_stake_summary(s.self_stake) + spec_enc_bool(s.active_next_session)
        + spec_enc_nominations_summary(s.nominations) + spec_enc_bool(s.oversubscribed)
        + spec_enc_bool(s.slashed)
}

/// Encodes a validator summary canonically.
pub fn encode_summary(s: &ValidatorSummary) -> (r: Vec<u8>)
    ensures
        r@ == spec_enc_summary(s@),
{
    let mut out: Vec<u8> = Vec::new();
    push_account_summary(&mut out, &s.account);
    push_preferences(&mut out, &s.preferences);
    push_bytes(&mut out, &s.self_stake.stash_account_id.bytes);
    push_u128(&mut out, s.self_stake.active_amount);
    push_bool(&mut out, s.active_next_session);
    push_u32(&mut out, s.nominations.nomination_count as u32);
    push_u128(&mut out, s.nominations.total_amount);
    push_bool(&mut out, s.oversubscribed);
    push_bool(&mut out, s.slashed);
    proof {
        assert(out@ =~= spec_enc_summary(s@));
    }
    out
}

/// The stable hash of a full validator record.
pub open spec fn spec_details_hash(v: ValidatorDetailsV) -> u64 {
    spec_fnv1a(spec_enc_details(v))
}

/// Hashes a full validator record for change detection.
pub fn details_hash(v: &ValidatorDetails) -> (h: u64)
    ensures
        h == spec_details_hash(v@),
{
    let bytes = encode_details(v);
    fnv1a(&bytes)
}

/// The stable hash of a validator summary.
pub open spec fn spec_summary_hash(s: ValidatorSummaryV) -> u64 {
    spec_fnv1a(spec_enc_summary(s))
}

/// Hashes a validator summary for change detection.
pub fn summary_hash(s: &ValidatorSummary) -> (h: u64)
    ensures
        h == spec_summary_hash(s@),
{
    let bytes = encode_summary(s);
    fnv1a(&bytes)
}

} // verus!
