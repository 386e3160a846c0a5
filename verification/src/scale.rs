//! Reading chain state from its wire form: hex strings into bytes,
//! little-endian and compact-prefixed numbers, and the handful of
//! runtime records the pipeline consumes.
use vstd::prelude::*;

use crate::crypto::{spec_hex_bytes, spec_strip_hex_prefix, AccountId};
use crate::strings::{hex_char_val, spec_hex_char_val, spec_is_hex};
use crate::substrate::{Era, Nomination, RewardDestination, Stake, ValidatorPreferences};

verus! {

/// Reads a whole hex string (optionally `0x`-prefixed, even length)
/// into bytes.
pub fn parse_hex_bytes(s: &str) -> (r: Option<Vec<u8>>)
    ensures
        match r {
            Some(bytes) => {
                &&& spec_strip_hex_prefix(s@).len() % 2 == 0
                &&& spec_is_hex(spec_strip_hex_prefix(s@))
                &&& bytes@ == spec_hex_bytes(spec_strip_hex_prefix(s@))
            },
            None => !(spec_strip_hex_prefix(s@).len() % 2 == 0 && spec_is_hex(
                spec_strip_hex_prefix(s@),
            )),
        },
{
    let len = s.unicode_len();
    let has_prefix = if len >= 2 {
        let c0 = s.get_char(0);
        let c1 = s.get_char(1);
        c0 == '0' && (c1 == 'x' || c1 == 'X')
    } else {
        false
    };
    let start: usize = if has_prefix {
        2
    } else {
        0
    };
    let ghost t = spec_strip_hex_prefix(s@);
    proof {
        assert(t =~= s@.subrange(start as int, s@.len() as int));
    }
    let n = len - start;
    if n % 2 != 0 {
        return None;
    }
    let half = n / 2;
    let mut bytes: Vec<u8> = Vec::new();
    let mut i: usize = 0;
    while i < half
        invariant
            len as nat == s@.len(),
            start + n == len,
            n % 2 == 0,
            half == n / 2,
            t == spec_strip_hex_prefix(s@),
            t =~= s@.subrange(start as int, s@.len() as int),
            i <= half,
            bytes@.len() == i,
            forall|j: int| 0 <= j < 2 * i ==> spec_hex_char_val(#[trigger] t[j]) < 16,
            forall|j: int|
                0 <= j < i ==> bytes@[j] == (spec_hex_char_val(t[2 * j]) * 16 + spec_hex_char_val(
                    t[2 * j + 1],
                )) as u8,
        decreases half - i,
    {
        let hi = hex_char_val(s.get_char(start + 2 * i));
        let lo = hex_char_val(s.get_char(start + 2 * i + 1));
        proof {
            assert(t[2 * i] == s@[start + 2 * i]);
            assert(t[2 * i + 1] == s@[start + 2 * i + 1]);
        }
        if hi >= 16 || lo >= 16 {
            proof {
                assert(spec_hex_char_val(t[2 * i]) == hi);
                assert(spec_hex_char_val(t[2 * i + 1]) == lo);
                assert(!spec_is_hex(t)) by {
                    if spec_is_hex(t) {
                        assert(spec_hex_char_val(t[2 * i]) < 16);
                        assert(spec_hex_char_val(t[2 * i + 1]) < 16);
                    }
                }
            }
            return None;
        }
        bytes.push(hi * 16 + lo);
        i = i + 1;
    }
    proof {
        assert forall|j: int| 0 <= j < t.len() implies spec_hex_char_val(#[trigger] t[j])
            < 16 by {
            let k = j / 2;
            assert(j == 2 * k || j == 2 * k + 1);
        }
        assert(bytes@ =~= spec_hex_bytes(t));
    }
    Some(bytes)
}

/// The value of `n` little-endian bytes at a position.
pub open spec fn spec_le_val(b: Seq<u8>, pos: int, n: int) -> int
    decreases n,
{
    if n <= 0 {
        0
    } else {
        b[pos] + 256 * spec_le_val(b, pos + 1, n - 1)
    }
}

/// Powers of 256.
pub open spec fn spec_pow256(n: int) -> int
    decreases n,
{
    if n <= 0 {
        1
    } else {
        256 * spec_pow256(n - 1)
    }
}

proof fn lemma_pow256_values()
    ensures
        spec_pow256(4) == 0x100000000,
        spec_pow256(8) == 0x10000000000000000,
        spec_pow256(15) == 0x1000000000000000000000000000000,
        spec_pow256(16) == 0x100000000000000000000000000000000,
{
    assert(spec_pow256(0) == 1);
    assert(spec_pow256(1) == 0x100);
    assert(spec_pow256(2) == 0x10000);
    assert(spec_pow256(3) == 0x1000000);
    assert(spec_pow256(4) == 0x100000000);
    assert(spec_pow256(5) == 0x10000000000);
    assert(spec_pow256(6) == 0x1000000000000);
    assert(spec_pow256(7) == 0x100000000000000);
    assert(spec_pow256(8) == 0x10000000000000000);
    assert(spec_pow256(9) == 0x1000000000000000000);
    assert(spec_pow256(10) == 0x100000000000000000000);
    assert(spec_pow256(11) == 0x10000000000000000000000);
    assert(spec_pow256(12) == 0x1000000000000000000000000);
    assert(spec_pow256(13) == 0x100000000000000000000000000);
    assert(spec_pow256(14) == 0x10000000000000000000000000000);
    assert(spec_pow256(15) == 0x1000000000000000000000000000000);
    assert(spec_pow256(16) == 0x100000000000000000000000000000000);
}

proof fn lemma_le_val_bound(b: Seq<u8>, pos: int, n: int)
    requires
        0 <= pos,
        pos + n <= b.len(),
    ensures
        0 <= spec_le_val(b, pos, n) < spec_pow256(n),
    decreases n,
{
    if n > 0 {
        lemma_le_val_bound(b, pos + 1, n - 1);
    }
}

proof fn lemma_le_val_step(b: Seq<u8>, pos: int, n: int)
    requires
        0 <= pos,
        0 <= n,
        pos + n + 1 <= b.len(),
    ensures
        spec_le_val(b, pos, n + 1) == spec_le_val(b, pos, n) + b[pos + n] * spec_pow256(n),
    decreases n,
{
    if n == 0 {
        assert(spec_le_val(b, pos, 1) == b[pos] + 256 * spec_le_val(b, pos + 1, 0));
        assert(spec_le_val(b, pos, 0) == 0);
        assert(spec_pow256(0) == 1);
    } else {
        lemma_le_val_step(b, pos + 1, n - 1);
        assert(spec_le_val(b, pos, n + 1) == b[pos] + 256 * spec_le_val(b, pos + 1, n));
        assert(256 * (b[pos + n] * spec_pow256(n - 1)) == b[pos + n] * spec_pow256(n))
            by (nonlinear_arith)
            requires
                spec_pow256(n) == 256 * spec_pow256(n - 1),
        ;
    }
}

/// Reads `n` little-endian bytes as a number.
pub fn read_le(b: &Vec<u8>, pos: usize, n: usize) -> (r: u128)
    requires
        n <= 16,
        pos + n <= b@.len(),
    ensures
        r == spec_le_val(b@, pos as int, n as int),
{
    proof {
        lemma_pow256_values();
    }
    let mut res: u128 = 0;
    let mut mult: u128 = 1;
    let mut i: usize = 0;
    while i < n
        invariant
            n <= 16,
            pos + n <= b@.len(),
            i <= n,
            spec_pow256(16) == 0x100000000000000000000000000000000,
            i < n ==> mult == spec_pow256(i as int),
            res == spec_le_val(b@, pos as int, i as int),
        decreases n - i,
    {
        proof {
            lemma_le_val_bound(b@, pos as int, i as int);
            lemma_le_val_step(b@, pos as int, i as int);
            lemma_pow256_values();
            lemma_pow256_mono(i as int, 15);
            assert(spec_pow256(15) < spec_pow256(16));
            assert((b@[pos + i] as int) * spec_pow256(i as int) <= 255 * spec_pow256(i as int))
                by (nonlinear_arith)
                requires
                    0 <= b@[pos + i] <= 255,
                    spec_pow256(i as int) >= 1,
            ;
            assert(res + 255 * spec_pow256(i as int) < 256 * spec_pow256(i as int));
            assert(256 * spec_pow256(i as int) == spec_pow256(i + 1));
            lemma_pow256_mono(i + 1, 16);
        }
        let blen = b.len();
        res = res + (b[pos + i] as u128) * mult;
        i = i + 1;
        if i < n {
            proof {
                lemma_pow256_mono(i as int, 15);
            }
            mult = mult * 256;
        }
    }
    res
}

proof fn lemma_pow256_pos(a: int)
    ensures
        spec_pow256(a) >= 1,
    decreases a,
{
    if a > 0 {
        lemma_pow256_pos(a - 1);
    }
}

proof fn lemma_pow256_mono(a: int, b: int)
    requires
        a <= b,
    ensures
        spec_pow256(a) <= spec_pow256(b),
        spec_pow256(a) >= 1,
    decreases b - a,
{
    lemma_pow256_pos(a);
    if a < b {
        lemma_pow256_mono(a, b - 1);
        lemma_pow256_pos(b - 1);
    }
}

/// The exclusive lower bound a canonical compact number of `n` bytes
/// (big-integer mode) must exceed.
pub open spec fn spec_compact_min(n: int) -> int {
    if n == 4 {
        0x3fffffff
    } else if n <= 8 {
        (0xffffffffffffffffu64 >> (((8 - n + 1) * 8) as u64)) as int
    } else {
        (0xffffffffffffffffffffffffffffffffu128 >> (((16 - n + 1) * 8) as u128)) as int
    }
}

/// A compact-prefixed number read at a position: the value and the
/// position after it, or nothing where the bytes are no canonical
/// compact encoding.
pub open spec fn spec_compact_u128(b: Seq<u8>, pos: int) -> Option<(u128, int)> {
    if pos < 0 || pos >= b.len() {
        None
    } else {
        let prefix = b[pos];
        let mode = prefix % 4;
        if mode == 0 {
            Some((((prefix / 4) as u128, pos + 1)))
        } else if mode == 1 {
            if pos + 2 <= b.len() {
                let x = spec_le_val(b, pos, 2) / 4;
                if 0x3f < x <= 0x3fff {
                    Some(((x as u128, pos + 2)))
                } else {
                    None
                }
            } else {
                None
            }
        } else if mode == 2 {
            if pos + 4 <= b.len() {
                let x = spec_le_val(b, pos, 4) / 4;
                if 0x3fff < x <= 0x3fffffff {
                    Some(((x as u128, pos + 4)))
                } else {
                    None
                }
            } else {
                None
            }
        } else {
            let n = (prefix / 4) + 4;
            if n <= 16 && pos + 1 + n <= b.len() {
                let x = spec_le_val(b, pos + 1, n as int);
                if x > spec_compact_min(n as int) {
                    Some(((x as u128, pos + 1 + n)))
                } else {
                    None
                }
            } else {
                None
            }
        }
    }
}

/// Reads a compact-prefixed number.
pub fn compact_u128(b: &Vec<u8>, pos: usize) -> (r: Option<(u128, usize)>)
    ensures
        match r {
            Some((v, next)) => spec_compact_u128(b@, pos as int) == Some((v, next as int))
                && next <= b@.len(),
            None => spec_compact_u128(b@, pos as int) is None,
        },
{
    if pos >= b.len() {
        return None;
    }
    let prefix = b[pos];
    let mode = prefix % 4;
    if mode == 0 {
        Some(((prefix / 4) as u128, pos + 1))
    } else if mode == 1 {
        if b.len() - pos >= 2 {
            let x = read_le(b, pos, 2) / 4;
            if 0x3f < x && x <= 0x3fff {
                Some((x, pos + 2))
            } else {
                None
            }
        } else {
            None
        }
    } else if mode == 2 {
        if b.len() - pos >= 4 {
            let x = read_le(b, pos, 4) / 4;
            if 0x3fff < x && x <= 0x3fffffff {
                Some((x, pos + 4))
            } else {
                None
            }
        } else {
            None
        }
    } else {
        let n: usize = (prefix / 4) as usize + 4;
        if n <= 16 && pos < b.len() && b.len() - pos - 1 >= n {
            let x = read_le(b, pos + 1, n);
            let min: u128 = if n == 4 {
                0x3fffffff
            } else if n <= 8 {
                (0xffffffffffffffffu64 >> (((8 - n as u64) + 1) * 8)) as u128
            } else {
                0xffffffffffffffffffffffffffffffffu128 >> (((16 - n as u128) + 1) * 8)
            };
            proof {
                assert(min as int == spec_compact_min(n as int));
            }
            if x > min {
                Some((x, pos + 1 + n))
            } else {
                None
            }
        } else {
            None
        }
    }
}

/// A compact-prefixed 32-bit number: the same wire form, with the
/// 32-bit canonical ranges.
pub open spec fn spec_compact_u32(b: Seq<u8>, pos: int) -> Option<(u32, int)> {
    match spec_compact_u128(b, pos) {
        Some((v, next)) => {
            if v <= 0xffffffffu128 && (b[pos] % 4 != 3 || b[pos] / 4 == 0) {
                Some(((v as u32, next)))
            } else {
                None
            }
        },
        None => None,
    }
}

/// Reads a compact-prefixed 32-bit number.
pub fn compact_u32(b: &Vec<u8>, pos: usize) -> (r: Option<(u32, usize)>)
    ensures
        match r {
            Some((v, next)) => spec_compact_u32(b@, pos as int) == Some((v, next as int))
                && next <= b@.len(),
            None => spec_compact_u32(b@, pos as int) is None,
        },
{
    match compact_u128(b, pos) {
        Some((v, next)) => {
            if v <= 0xffffffff && (b[pos] % 4 != 3 || b[pos] / 4 == 0) {
                Some((v as u32, next))
            } else {
                None
            }
        },
        None => None,
    }
}

/// Reads 32 bytes at a position as an account id.
pub fn read_account_id(b: &Vec<u8>, pos: usize) -> (r: Option<(AccountId, usize)>)
    ensures
        match r {
            Some((id, next)) => pos + 32 <= b@.len() && id.wf() && id@ == b@.subrange(
                pos as int,
                pos + 32,
            ) && next == pos + 32,
            None => pos + 32 > b@.len(),
        },
{
    if pos >= b.len() || b.len() - pos < 32 {
        return None;
    }
    let mut bytes: Vec<u8> = Vec::new();
    let mut i: usize = 0;
    while i < 32
        invariant
            pos + 32 <= b@.len(),
            i <= 32,
            bytes@.len() == i,
            forall|j: int| 0 <= j < i ==> bytes@[j] == b@[pos + j],
        decreases 32 - i,
    {
        let blen = b.len();
        bytes.push(b[pos + i]);
        i = i + 1;
    }
    proof {
        assert(bytes@ =~= b@.subrange(pos as int, pos + 32));
    }
    Some((AccountId { bytes }, pos + 32))
}

/// The era record named by the runtime's active-era bytes and a fixed
/// era duration: a 32-bit index, then an optional millisecond start.
/// The record is rejected where the bytes are malformed, the start is
/// absent, or the end timestamp leaves the 64-bit range.
pub open spec fn spec_era_from(bytes: Seq<u8>, era_duration_millis: u64) -> Option<Era> {
    if bytes.len() >= 5 && bytes[4] == 1 && bytes.len() >= 13 {
        let index = spec_le_val(bytes, 0, 4);
        let start = spec_le_val(bytes, 5, 8);
        if start + era_duration_millis <= 0xffffffffffffffff {
            Some(
                Era {
                    index: index as u32,
                    start_timestamp: start as u64,
                    end_timestamp: (start + era_duration_millis) as u64,
                },
            )
        } else {
            None
        }
    } else {
        None
    }
}

impl Era {
    /// Reads the active era from its hex-encoded runtime state, fixing
    /// the end as one era duration after the start.
    pub fn from(hex_string: &str, era_duration_millis: u64) -> (r: Option<Era>)
        ensures
            match r {
                Some(era) => {
                    &&& spec_is_hex(spec_strip_hex_prefix(hex_string@))
                    &&& spec_strip_hex_prefix(hex_string@).len() % 2 == 0
                    &&& Some(era) == spec_era_from(
                        spec_hex_bytes(spec_strip_hex_prefix(hex_string@)),
                        era_duration_millis,
                    )
                },
                None => !(spec_strip_hex_prefix(hex_string@).len() % 2 == 0 && spec_is_hex(
                    spec_strip_hex_prefix(hex_string@),
                )) || spec_era_from(
                    spec_hex_bytes(spec_strip_hex_prefix(hex_string@)),
                    era_duration_millis,
                ) is None,
            },
    {
        let bytes = match parse_hex_bytes(hex_string) {
            Some(b) => b,
            None => {
                return None;
            },
        };
        if bytes.len() < 13 {
            if bytes.len() >= 5 && bytes[4] == 1 {
                return None;
            }
            return None;
        }
        if bytes[4] != 1 {
            return None;
        }
        let index = read_le(&bytes, 0, 4);
        let start = read_le(&bytes, 5, 8);
        proof {
            lemma_le_val_bound(bytes@, 0, 4);
            lemma_le_val_bound(bytes@, 5, 8);
            lemma_pow256_values();
        }
        let start64 = start as u64;
        if start64 > u64::MAX - era_duration_millis {
            return None;
        }
        Some(
            Era {
                index: index as u32,
                start_timestamp: start64,
                end_timestamp: start64 + era_duration_millis,
            },
        )
    }
}

/// The preferences named by the runtime's validator-preferences bytes:
/// a compact commission, then a nomination-blocking flag.
pub open spec fn spec_preferences_from(bytes: Seq<u8>) -> Option<ValidatorPreferences> {
    match spec_compact_u32(bytes, 0) {
        Some((commission, next)) => {
            if next < bytes.len() && (bytes[next] == 0 || bytes[next] == 1) {
                Some(
                    ValidatorPreferences {
                        commission_per_billion: commission,
                        blocks_nominations: bytes[next] == 1,
                    },
                )
            } else {
                None
            }
        },
        None => None,
    }
}

impl ValidatorPreferences {
    /// Reads validator preferences from their runtime encoding.
    pub fn from_bytes(bytes: &Vec<u8>) -> (r: Option<ValidatorPreferences>)
        ensures
            r == spec_preferences_from(bytes@),
    {
        match compact_u32(bytes, 0) {
            Some((commission, next)) => {
                if next < bytes.len() && (bytes[next] == 0 || bytes[next] == 1) {
                    Some(
                        ValidatorPreferences {
                            commission_per_billion: commission,
                            blocks_nominations: bytes[next] == 1,
                        },
                    )
                } else {
                    None
                }
            },
            None => None,
        }
    }
}

/// The destination named by the runtime's reward-destination bytes: a
/// tag, and an account id after the fourth tag.
pub open spec fn spec_reward_destination_from(bytes: Seq<u8>) -> Option<RewardDestinationWire> {
    if bytes.len() < 1 {
        None
    } else if bytes[0] == 0 {
        Some(RewardDestinationWire { tag: 0, account: None })
    } else if bytes[0] == 1 {
        Some(RewardDestinationWire { tag: 1, account: None })
    } else if bytes[0] == 2 {
        Some(RewardDestinationWire { tag: 2, account: None })
    } else if bytes[0] == 3 {
        if bytes.len() >= 33 {
            Some(RewardDestinationWire { tag: 3, account: Some(bytes.subrange(1, 33)) })
        } else {
            None
        }
    } else if bytes[0] == 4 {
        Some(RewardDestinationWire { tag: 4, account: None })
    } else {
        None
    }
}

/// The shape a decoded reward destination takes before it becomes the
/// domain enum: the wire tag, and the account id bytes the fourth tag
/// carries.
pub ghost struct RewardDestinationWire {
    pub tag: u8,
    pub account: Option<Seq<u8>>,
}

impl RewardDestination {
    /// Reads a reward destination from its runtime encoding.
    pub fn from_bytes(bytes: &Vec<u8>) -> (r: Option<RewardDestination>)
        ensures
            match r {
                Some(d) => {
                    &&& spec_reward_destination_from(bytes@) is Some
                    &&& (d@ == crate::substrate::RewardDestinationV::Staked <==> bytes@[0] == 0)
                    &&& (d@ == crate::substrate::RewardDestinationV::Stash <==> bytes@[0] == 1)
                    &&& (d@ == crate::substrate::RewardDestinationV::Controller <==> bytes@[0]
                        == 2)
                    &&& (d@ matches crate::substrate::RewardDestinationV::Account(id) ==> bytes@[0]
                        == 3 && id == bytes@.subrange(1, 33))
                    &&& (bytes@[0] == 3 ==> (d@
                        matches crate::substrate::RewardDestinationV::Account(id) && id
                        == bytes@.subrange(1, 33)))
                    &&& (d@ == crate::substrate::RewardDestinationV::NoPayout <==> bytes@[0] == 4)
                },
                None => spec_reward_destination_from(bytes@) is None,
            },
    {
        if bytes.len() < 1 {
            return None;
        }
        let tag = bytes[0];
        if tag == 0 {
            Some(RewardDestination::Staked)
        } else if tag == 1 {
            Some(RewardDestination::Stash)
        } else if tag == 2 {
            Some(RewardDestination::Controller)
        } else if tag == 3 {
            match read_account_id(bytes, 1) {
                Some((id, _)) => Some(RewardDestination::Account(id)),
                None => None,
            }
        } else if tag == 4 {
            Some(RewardDestination::NoPayout)
        } else {
            None
        }
    }
}

impl Stake {
    /// Reads the head of a staking ledger from its runtime encoding:
    /// the stash id, then the compact total and active amounts, which
    /// are the three fields this record carries. The ledger\'s tail
    /// (the unlocking chunks and claimed eras) is deliberately left
    /// unread and unvalidated: its layout shifts across runtime
    /// versions and no field of it reaches the pipeline.
    pub fn from_bytes(bytes: &Vec<u8>) -> (r: Option<Stake>)
        ensures
            match r {
                Some(s) => {
                    &&& bytes@.len() >= 32
                    &&& s.stash_account_id@ == bytes@.subrange(0, 32)
                    &&& s.stash_account_id.wf()
                    &&& spec_compact_u128(bytes@, 32) matches Some((total, next))
                        && s.total_amount == total && (spec_compact_u128(bytes@, next)
                        matches Some((active, _)) && s.active_amount == active)
                },
                None => bytes@.len() < 32 || spec_compact_u128(bytes@, 32) is None || (
                spec_compact_u128(bytes@, 32) matches Some((t, next)) && spec_compact_u128(
                    bytes@,
                    next,
                ) is None),
            },
    {
        let (stash, pos) = match read_account_id(bytes, 0) {
            Some(x) => x,
            None => {
                return None;
            },
        };
        let (total, pos2) = match compact_u128(bytes, pos) {
            Some(x) => x,
            None => {
                return None;
            },
        };
        let (active, _pos3) = match compact_u128(bytes, pos2) {
            Some(x) => x,
            None => {
                return None;
            },
        };
        Some(Stake { stash_account_id: stash, total_amount: total, active_amount: active })
    }
}

/// A run of 32-byte account ids read at a position.
pub open spec fn spec_ids_from(b: Seq<u8>, pos: int, n: int) -> Option<(Seq<Seq<u8>>, int)>
    decreases n,
{
    if n <= 0 {
        Some((Seq::empty(), pos))
    } else if pos < 0 || pos + 32 > b.len() {
        None
    } else {
        match spec_ids_from(b, pos + 32, n - 1) {
            Some((rest, pend)) => Some((seq![b.subrange(pos, pos + 32)] + rest, pend)),
            None => None,
        }
    }
}

fn read_ids(b: &Vec<u8>, pos: usize, n: u32) -> (r: Option<(Vec<AccountId>, usize)>)
    requires
        pos <= b@.len(),
    ensures
        match r {
            Some((ids, next)) => {
                &&& spec_ids_from(b@, pos as int, n as int) matches Some((idsv, nextv))
                    && ids@.len() == idsv.len() && (forall|j: int|
                    0 <= j < idsv.len() ==> (#[trigger] ids@[j])@ == idsv[j]) && next == nextv
                &&& next <= b@.len()
                &&& forall|j: int| 0 <= j < ids@.len() ==> (#[trigger] ids@[j]).wf()
            },
            None => spec_ids_from(b@, pos as int, n as int) is None,
        },
    decreases n,
{
    if n == 0 {
        let ids: Vec<AccountId> = Vec::new();
        return Some((ids, pos));
    }
    let (id, p1) = match read_account_id(b, pos) {
        Some(x) => x,
        None => {
            return None;
        },
    };
    let (mut rest, pend) = match read_ids(b, p1, n - 1) {
        Some(x) => x,
        None => {
            return None;
        },
    };
    let ghost pre = rest@;
    rest.insert(0, id);
    proof {
        assert(rest@ =~= seq![rest@[0]] + pre);
    }
    Some((rest, pend))
}

/// The nomination named by its runtime bytes: a compact count of
/// target ids, the ids, the 32-bit submission era, and the suppression
/// flag; the result is the target list and the era.
pub open spec fn spec_nomination_from(b: Seq<u8>) -> Option<(Seq<Seq<u8>>, u32)> {
    match spec_compact_u32(b, 0) {
        Some((count, p0)) => match spec_ids_from(b, p0, count as int) {
            Some((targets, p1)) => {
                if p1 + 5 <= b.len() && (b[p1 + 4] == 0 || b[p1 + 4] == 1) {
                    Some((targets, spec_le_val(b, p1, 4) as u32))
                } else {
                    None
                }
            },
            None => None,
        },
        None => None,
    }
}

impl Nomination {
    /// Reads a nomination from its runtime encoding: the compact-
    /// prefixed target ids, the submission era and the suppression
    /// flag. The stash id is the storage key\'s, handed in alongside;
    /// the stake stands empty, as the chain state holds it elsewhere.
    pub fn from_bytes(bytes: &Vec<u8>, account_id: AccountId) -> (r: Option<Nomination>)
        ensures
            match r {
                Some(n) => {
                    &&& spec_nomination_from(bytes@) matches Some((targets, era))
                        && n.target_account_ids@.len() == targets.len() && (forall|j: int|
                        0 <= j < targets.len() ==> (#[trigger] n.target_account_ids@[j])@
                            == targets[j]) && n.submission_era_index == era
                    &&& n.stash_account_id@ == account_id@
                    &&& n.stake.stash_account_id@ == Seq::<u8>::empty()
                    &&& n.stake.total_amount == 0
                    &&& n.stake.active_amount == 0
                },
                None => spec_nomination_from(bytes@) is None,
            },
    {
        let (count, first) = match compact_u32(bytes, 0) {
            Some(x) => x,
            None => {
                return None;
            },
        };
        let (targets, p1) = match read_ids(bytes, first, count) {
            Some(x) => x,
            None => {
                return None;
            },
        };
        if bytes.len() - p1 < 5 {
            return None;
        }
        let flag = bytes[p1 + 4];
        if !(flag == 0 || flag == 1) {
            return None;
        }
        let submitted = read_le(bytes, p1, 4);
        proof {
            lemma_le_val_bound(bytes@, p1 as int, 4);
            lemma_pow256_values();
        }
        let empty_stash = AccountId { bytes: Vec::new() };
        proof {
            assert(empty_stash@ =~= Seq::<u8>::empty());
        }
        Some(
            Nomination {
                stash_account_id: account_id,
                submission_era_index: submitted as u32,
                target_account_ids: targets,
                stake: Stake {
                    stash_account_id: empty_stash,
                    total_amount: 0,
                    active_amount: 0,
                },
            },
        )
    }
}

proof fn lemma_hex_val_nonneg(t: Seq<char>)
    ensures
        crate::strings::spec_hex_val(t) >= 0,
    decreases t.len(),
{
    if t.len() > 0 {
        lemma_hex_val_nonneg(t.drop_last());
    }
}

proof fn lemma_hex_val_prefix(t: Seq<char>, i: int)
    requires
        0 <= i <= t.len(),
    ensures
        crate::strings::spec_hex_val(t.take(i)) <= crate::strings::spec_hex_val(t),
    decreases t.len() - i,
{
    if i == t.len() {
        assert(t.take(i) =~= t);
    } else {
        lemma_hex_val_prefix(t.drop_last(), i);
        assert(t.drop_last().take(i) =~= t.take(i));
        lemma_hex_val_nonneg(t.drop_last());
        assert(crate::strings::spec_hex_val(t) == crate::strings::spec_hex_val(t.drop_last()) * 16
            + crate::strings::spec_hex_char_val(t.last()));
        assert(crate::strings::spec_hex_val(t.drop_last()) * 16 >= crate::strings::spec_hex_val(
            t.drop_last(),
        )) by (nonlinear_arith)
            requires
                crate::strings::spec_hex_val(t.drop_last()) >= 0,
        ;
    }
}

/// Reads a hex number (optionally `0x`-prefixed) into 64 bits. The
/// number is returned exactly when the string is one or more hex
/// digits and the value fits.
pub fn parse_hex_u64(s: &str) -> (r: Option<u64>)
    ensures
        match r {
            Some(v) => {
                let t = spec_strip_hex_prefix(s@);
                t.len() > 0 && spec_is_hex(t) && crate::strings::spec_hex_val(t) == v
            },
            None => {
                let t = spec_strip_hex_prefix(s@);
                !(t.len() > 0 && spec_is_hex(t) && crate::strings::spec_hex_val(t)
                    <= 0xffffffffffffffff)
            },
        },
{
    let len = s.unicode_len();
    let has_prefix = if len >= 2 {
        let c0 = s.get_char(0);
        let c1 = s.get_char(1);
        c0 == '0' && (c1 == 'x' || c1 == 'X')
    } else {
        false
    };
    let start: usize = if has_prefix {
        2
    } else {
        0
    };
    let ghost t = spec_strip_hex_prefix(s@);
    proof {
        assert(t =~= s@.subrange(start as int, s@.len() as int));
    }
    if len == start {
        return None;
    }
    let mut acc: u64 = 0;
    let mut i: usize = 0;
    let n = len - start;
    while i < n
        invariant
            len as nat == s@.len(),
            start + n == len,
            n > 0,
            t == spec_strip_hex_prefix(s@),
            t =~= s@.subrange(start as int, s@.len() as int),
            i <= n,
            forall|j: int| 0 <= j < i ==> spec_hex_char_val(#[trigger] t[j]) < 16,
            acc == crate::strings::spec_hex_val(t.take(i as int)),
        decreases n - i,
    {
        let c = s.get_char(start + i);
        let d = hex_char_val(c);
        proof {
            assert(t[i as int] == s@[start + i]);
        }
        if d >= 16 {
            proof {
                assert(!spec_is_hex(t)) by {
                    if spec_is_hex(t) {
                        assert(spec_hex_char_val(t[i as int]) < 16);
                    }
                }
            }
            return None;
        }
        proof {
            let cur = t.take(i + 1);
            assert(cur.drop_last() =~= t.take(i as int));
            assert(cur.last() == t[i as int]);
        }
        if acc > (0xffffffffffffffffu64 - (d as u64)) / 16 {
            proof {
                let partial = crate::strings::spec_hex_val(t.take(i + 1));
                assert(partial == acc * 16 + d);
                assert(acc * 16 + d > 0xffffffffffffffff) by (nonlinear_arith)
                    requires
                        acc > (0xffffffffffffffffu64 - (d as u64)) / 16,
                        d < 16,
                ;
                lemma_hex_val_prefix(t, i + 1);
            }
            return None;
        }
        acc = acc * 16 + (d as u64);
        i = i + 1;
    }
    proof {
        assert(t.take(t.len() as int) =~= t);
    }
    Some(acc)
}



/// A four-byte little-endian value fits 32 bits.
pub proof fn lemma_le_val_fits_u32(b: Seq<u8>, pos: int)
    requires
        0 <= pos,
        pos + 4 <= b.len(),
    ensures
        0 <= spec_le_val(b, pos, 4) < 0x100000000,
{
    lemma_le_val_bound(b, pos, 4);
    lemma_pow256_values();
}


} // verus!
