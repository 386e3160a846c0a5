//! Domain types mirrored from the chain runtime: accounts and identities,
//! eras and epochs, stakes, nominations and validator preferences.
use vstd::prelude::*;

use crate::crypto::AccountId;

verus! {

/// Token balance, in the chain's smallest unit.
pub type Balance = u128;

/// The chains this toolkit serves.
#[derive(Clone, Copy, Debug, PartialEq, Eq, Structural)]
pub enum Chain {
    Kusama,
    Polkadot,
    Darwinia,
}

/// Runtime upgrade information read from chain state.
#[derive(Clone, Debug)]
pub struct LastRuntimeUpgradeInfo {
    pub spec_version: u32,
    pub spec_name: String,
}

/// System properties as fetched from the node RPC interface.
#[derive(Clone, Debug)]
pub struct SystemProperties {
    pub ss_58_format: u8,
    pub token_decimals: u32,
    pub token_symbol: String,
}

/// The address forms a transaction may carry.
#[derive(Clone, Debug)]
pub enum MultiAddress {
    Id(AccountId),
    Index(u32),
    Raw(Vec<u8>),
    Address32(Vec<u8>),
    Address20(Vec<u8>),
}

impl MultiAddress {
    /// The account id of an `Id` address; other forms carry none.
    pub fn get_account_id(&self) -> (r: Option<AccountId>)
        ensures
            match self {
                MultiAddress::Id(id) => r is Some && r.unwrap()@ == id@,
                _ => r is None,
            },
    {
        match self {
            MultiAddress::Id(account_id) => Some(account_id.clone()),
            _ => None,
        }
    }
}

/// An on-chain identity registration, reduced to its display fields and
/// the judgement outcome.
#[derive(Debug)]
pub struct IdentityRegistration {
    pub display: Option<String>,
    pub email: Option<String>,
    pub riot: Option<String>,
    pub twitter: Option<String>,
    pub web: Option<String>,
    pub confirmed: bool,
}

impl Clone for IdentityRegistration {
    fn clone(&self) -> (res: Self)
        ensures
            res@ == self@,
    {
        IdentityRegistration {
            display: self.display.clone(),
            email: self.email.clone(),
            riot: self.riot.clone(),
            twitter: self.twitter.clone(),
            web: self.web.clone(),
            confirmed: self.confirmed,
        }
    }
}

/// Mathematical value of an identity registration.
pub ghost struct IdentityRegistrationV {
    pub display: Option<Seq<char>>,
    pub email: Option<Seq<char>>,
    pub riot: Option<Seq<char>>,
    pub twitter: Option<Seq<char>>,
    pub web: Option<Seq<char>>,
    pub confirmed: bool,
}

/// The value of an optional string.
pub open spec fn view_opt_string(o: Option<String>) -> Option<Seq<char>> {
    match o {
        Some(s) => Some(s@),
        None => None,
    }
}

impl View for IdentityRegistration {
    type V = IdentityRegistrationV;

    open spec fn view(&self) -> IdentityRegistrationV {
        IdentityRegistrationV {
            display: view_opt_string(self.display),
            email: view_opt_string(self.email),
            riot: view_opt_string(self.riot),
            twitter: view_opt_string(self.twitter),
            web: view_opt_string(self.web),
            confirmed: self.confirmed,
        }
    }
}

/// The projection of an identity kept in validator summaries.
#[derive(Debug)]
pub struct IdentityRegistrationSummary {
    pub display: Option<String>,
    pub confirmed: bool,
}

impl Clone for IdentityRegistrationSummary {
    fn clone(&self) -> (res: Self)
        ensures
            res@ == self@,
    {
        IdentityRegistrationSummary { display: self.display.clone(), confirmed: self.confirmed }
    }
}

/// Mathematical value of an identity summary.
pub ghost struct IdentityRegistrationSummaryV {
    pub display: Option<Seq<char>>,
    pub confirmed: bool,
}

impl View for IdentityRegistrationSummary {
    type V = IdentityRegistrationSummaryV;

    open spec fn view(&self) -> IdentityRegistrationSummaryV {
        IdentityRegistrationSummaryV {
            display: view_opt_string(self.display),
            confirmed: self.confirmed,
        }
    }
}

/// The identity summary a full registration projects to.
pub open spec fn spec_identity_summary(v: IdentityRegistrationV) -> IdentityRegistrationSummaryV {
    IdentityRegistrationSummaryV { display: v.display, confirmed: v.confirmed }
}

impl IdentityRegistrationSummary {
    /// Projects a registration to its summary.
    pub fn from_registration(identity: &IdentityRegistration) -> (r: IdentityRegistrationSummary)
        ensures
            r@ == spec_identity_summary(identity@),
    {
        IdentityRegistrationSummary {
            display: identity.display.clone(),
            confirmed: identity.confirmed,
        }
    }
}

/// A chain account, with optional identity and optional parent account
/// for sub-identities.
#[derive(Debug)]
pub struct Account {
    pub id: AccountId,
    pub identity: Option<IdentityRegistration>,
    pub parent: Box<Option<Account>>,
    pub child_display: Option<String>,
    pub discovered_at: Option<u64>,
    pub killed_at: Option<u64>,
}

impl Clone for Account {
    fn clone(&self) -> (res: Self)
        ensures
            res@ == self@,
        decreases *self,
    {
        Account {
            id: self.id.clone(),
            identity: match &self.identity {
                Some(i) => Some(i.clone()),
                None => None,
            },
            parent: Box::new(
                match &*self.parent {
                    Some(p) => Some(p.clone()),
                    None => None,
                },
            ),
            child_display: self.child_display.clone(),
            discovered_at: self.discovered_at,
            killed_at: self.killed_at,
        }
    }
}

/// Mathematical value of an account, parent included.
pub ghost struct AccountV {
    pub id: Seq<u8>,
    pub identity: Option<IdentityRegistrationV>,
    pub parent: Option<Box<AccountV>>,
    pub child_display: Option<Seq<char>>,
    pub discovered_at: Option<u64>,
    pub killed_at: Option<u64>,
}

/// The value of an account.
pub open spec fn account_view(a: Account) -> AccountV
    decreases a,
{
    AccountV {
        id: a.id@,
        identity: match a.identity {
            Some(i) => Some(i@),
            None => None,
        },
        parent: match *a.parent {
            Some(p) => Some(Box::new(account_view(p))),
            None => None,
        },
        child_display: view_opt_string(a.child_display),
        discovered_at: a.discovered_at,
        killed_at: a.killed_at,
    }
}

impl View for Account {
    type V = AccountV;

    open spec fn view(&self) -> AccountV {
        account_view(*self)
    }
}

/// Whether an account's identity, or an ancestor's, is confirmed by
/// a registrar judgement.
pub open spec fn spec_confirmed(a: AccountV) -> bool
    decreases a,
{
    let self_confirmed = match a.identity {
        Some(i) => i.confirmed,
        None => false,
    };
    let parent_confirmed = match a.parent {
        Some(p) => spec_confirmed(*p),
        None => false,
    };
    self_confirmed || parent_confirmed
}

impl Account {
    /// Whether this account, or a parent, carries a confirmed identity.
    pub fn get_confirmed(&self) -> (r: bool)
        ensures
            r == spec_confirmed(self@),
        decreases *self,
    {
        let self_confirmed = if let Some(identity) = &self.identity {
            identity.confirmed
        } else {
            false
        };
        let parent_confirmed = if let Some(parent_account) = &*self.parent {
            parent_account.get_confirmed()
        } else {
            false
        };
        self_confirmed || parent_confirmed
    }
}

/// A staking era: a multi-hour accounting period.
#[derive(Clone, Copy, Debug, Default, PartialEq, Eq, Structural)]
pub struct Era {
    pub index: u32,
    pub start_timestamp: u64,
    pub end_timestamp: u64,
}

/// A session inside an era.
#[derive(Clone, Copy, Debug, Default, PartialEq, Eq, Structural)]
pub struct Epoch {
    pub index: u64,
    pub start_block_number: u32,
    pub start_timestamp: u64,
    pub end_timestamp: u64,
}

/// Validator commission and nomination-blocking preferences.
#[derive(Clone, Copy, Debug, Default, PartialEq, Eq, Structural)]
pub struct ValidatorPreferences {
    pub commission_per_billion: u32,
    pub blocks_nominations: bool,
}

/// A staker's bonded funds.
#[derive(Debug)]
pub struct Stake {
    pub stash_account_id: AccountId,
    pub total_amount: Balance,
    pub active_amount: Balance,
}

impl Clone for Stake {
    fn clone(&self) -> (res: Self)
        ensures
            res@ == self@,
    {
        Stake {
            stash_account_id: self.stash_account_id.clone(),
            total_amount: self.total_amount,
            active_amount: self.active_amount,
        }
    }
}

/// Mathematical value of a stake.
pub ghost struct StakeV {
    pub stash_account_id: Seq<u8>,
    pub total_amount: Balance,
    pub active_amount: Balance,
}

impl View for Stake {
    type V = StakeV;

    open spec fn view(&self) -> StakeV {
        StakeV {
            stash_account_id: self.stash_account_id@,
            total_amount: self.total_amount,
            active_amount: self.active_amount,
        }
    }
}

/// The projection of a stake kept in validator summaries.
#[derive(Debug)]
pub struct StakeSummary {
    pub stash_account_id: AccountId,
    pub active_amount: Balance,
}

impl Clone for StakeSummary {
    fn clone(&self) -> (res: Self)
        ensures
            res@ == self@,
    {
        StakeSummary {
            stash_account_id: self.stash_account_id.clone(),
            active_amount: self.active_amount,
        }
    }
}

/// Mathematical value of a stake summary.
pub ghost struct StakeSummaryV {
    pub stash_account_id: Seq<u8>,
    pub active_amount: Balance,
}

impl View for StakeSummary {
    type V = StakeSummaryV;

    open spec fn view(&self) -> StakeSummaryV {
        StakeSummaryV {
            stash_account_id: self.stash_account_id@,
            active_amount: self.active_amount,
        }
    }
}

/// The stake summary a full stake projects to.
pub open spec fn spec_stake_summary(v: StakeV) -> StakeSummaryV {
    StakeSummaryV { stash_account_id: v.stash_account_id, active_amount: v.active_amount }
}

impl StakeSummary {
    /// Projects a stake to its summary.
    pub fn from_stake(stake: &Stake) -> (r: StakeSummary)
        ensures
            r@ == spec_stake_summary(stake@),
    {
        StakeSummary {
            stash_account_id: stake.stash_account_id.clone(),
            active_amount: stake.active_amount,
        }
    }
}

/// A nominator's delegation to a set of validators.
#[derive(Debug)]
pub struct Nomination {
    pub stash_account_id: AccountId,
    pub submission_era_index: u32,
    pub target_account_ids: Vec<AccountId>,
    pub stake: Stake,
}

impl Clone for Nomination {
    fn clone(&self) -> (res: Self)
        ensures
            res@ == self@,
    {
        let mut targets: Vec<AccountId> = Vec::new();
        let mut i: usize = 0;
        while i < self.target_account_ids.len()
            invariant
                i <= self.target_account_ids@.len(),
                targets@.len() == i,
                forall|j: int|
                    0 <= j < i ==> targets@[j]@ == self.target_account_ids@[j]@,
            decreases self.target_account_ids@.len() - i,
        {
            targets.push(self.target_account_ids[i].clone());
            i = i + 1;
        }
        let res = Nomination {
            stash_account_id: self.stash_account_id.clone(),
            submission_era_index: self.submission_era_index,
            target_account_ids: targets,
            stake: self.stake.clone(),
        };
        proof {
            assert(res@.target_account_ids =~= self@.target_account_ids);
        }
        res
    }
}

/// Mathematical value of a nomination.
pub ghost struct NominationV {
    pub stash_account_id: Seq<u8>,
    pub submission_era_index: u32,
    pub target_account_ids: Seq<Seq<u8>>,
    pub stake: StakeV,
}

impl View for Nomination {
    type V = NominationV;

    open spec fn view(&self) -> NominationV {
        NominationV {
            stash_account_id: self.stash_account_id@,
            submission_era_index: self.submission_era_index,
            target_account_ids: Seq::new(
                self.target_account_ids@.len(),
                |i: int| self.target_account_ids@[i]@,
            ),
            stake: self.stake@,
        }
    }
}

/// The count and total amount a list of nominations reduces to in a
/// validator summary.
#[derive(Clone, Copy, Debug, Default, PartialEq, Eq, Structural)]
pub struct NominationsSummary {
    pub nomination_count: u16,
    pub total_amount: Balance,
}

/// The sum of the active amounts of a list of nominations.
pub open spec fn spec_nominations_total(n: Seq<NominationV>) -> int
    decreases n.len(),
{
    if n.len() == 0 {
        0
    } else {
        spec_nominations_total(n.drop_last()) + n.last().stake.active_amount
    }
}

/// Where a validator's rewards are paid. `NoPayout` stands for the
/// runtime's fifth destination, which refuses the payout altogether.
#[derive(Debug)]
pub enum RewardDestination {
    Staked,
    Stash,
    Controller,
    Account(AccountId),
    NoPayout,
}

impl Clone for RewardDestination {
    fn clone(&self) -> (res: Self)
        ensures
            res@ == self@,
    {
        match self {
            RewardDestination::Staked => RewardDestination::Staked,
            RewardDestination::Stash => RewardDestination::Stash,
            RewardDestination::Controller => RewardDestination::Controller,
            RewardDestination::Account(id) => RewardDestination::Account(id.clone()),
            RewardDestination::NoPayout => RewardDestination::NoPayout,
        }
    }
}

/// Mathematical value of a reward destination.
pub ghost enum RewardDestinationV {
    Staked,
    Stash,
    Controller,
    Account(Seq<u8>),
    NoPayout,
}

impl View for RewardDestination {
    type V = RewardDestinationV;

    open spec fn view(&self) -> RewardDestinationV {
        match self {
            RewardDestination::Staked => RewardDestinationV::Staked,
            RewardDestination::Stash => RewardDestinationV::Stash,
            RewardDestination::Controller => RewardDestinationV::Controller,
            RewardDestination::Account(id) => RewardDestinationV::Account(id@),
            RewardDestination::NoPayout => RewardDestinationV::NoPayout,
        }
    }
}

/// A slashing event.
#[derive(Clone, Debug)]
pub struct Slash {
    pub block_hash: String,
    pub extrinsic_index: u32,
    pub validator_account_id: AccountId,
    pub amount: Balance,
}

/// Auction slot ranges, as the runtime encodes them.
#[derive(Clone, Copy, Debug, PartialEq, Eq, Structural)]
pub enum SlotRange {
    ZeroZero,
    ZeroOne,
    ZeroTwo,
    ZeroThree,
    OneOne,
    OneTwo,
    OneThree,
    TwoTwo,
    TwoThree,
    ThreeThree,
}

/// Proxy kinds, as the runtime encodes them.
#[derive(Clone, Copy, Debug, PartialEq, Eq, Structural)]
pub enum ProxyType {
    Any,
    NonTransfer,
    Governance,
    Staking,
    IdentityJudgement,
    CancelProxy,
    Auction,
}


impl Chain {
    /// Reads a chain from its name or ticker, ASCII case ignored; an
    /// unknown chain is a configuration error, never coerced.
    pub fn from_str(s: &str) -> (r: Option<Chain>)
        ensures
            r == spec_chain_of(s@),
    {
        if crate::strings::str_eq_ignore_ascii_case(s, "kusama")
            || crate::strings::str_eq_ignore_ascii_case(s, "ksm") {
            Some(Chain::Kusama)
        } else if crate::strings::str_eq_ignore_ascii_case(s, "polkadot")
            || crate::strings::str_eq_ignore_ascii_case(s, "dot") {
            Some(Chain::Polkadot)
        } else if crate::strings::str_eq_ignore_ascii_case(s, "darwinia") {
            Some(Chain::Darwinia)
        } else {
            None
        }
    }

    /// The chain's SS58 address format prefix.
    pub fn ss58_prefix(&self) -> (r: u16)
        ensures
            *self == Chain::Kusama ==> r == 2,
            *self == Chain::Polkadot ==> r == 0,
            *self == Chain::Darwinia ==> r == 18,
    {
        match self {
            Chain::Kusama => 2,
            Chain::Polkadot => 0,
            Chain::Darwinia => 18,
        }
    }
}

/// The chain a name selects, ASCII case ignored.
pub open spec fn spec_chain_of(s: Seq<char>) -> Option<Chain> {
    if crate::strings::spec_eq_ignore_case(s, "kusama"@) || crate::strings::spec_eq_ignore_case(
        s,
        "ksm"@,
    ) {
        Some(Chain::Kusama)
    } else if crate::strings::spec_eq_ignore_case(s, "polkadot"@)
        || crate::strings::spec_eq_ignore_case(s, "dot"@) {
        Some(Chain::Polkadot)
    } else if crate::strings::spec_eq_ignore_case(s, "darwinia"@) {
        Some(Chain::Darwinia)
    } else {
        None
    }
}

impl LastRuntimeUpgradeInfo {
    /// Builds the record from its decoded parts.
    pub fn from_parts(spec_version: u32, spec_name: String) -> (r: LastRuntimeUpgradeInfo)
        ensures
            r.spec_version == spec_version,
            r.spec_name@ == spec_name@,
    {
        LastRuntimeUpgradeInfo { spec_version, spec_name }
    }
}

/// A block as the node RPC interface wraps it.
#[derive(Debug)]
pub struct BlockWrapper {
    pub block: Block,
}

/// The inner block response: a header and hex-encoded extrinsics.
#[derive(Debug)]
pub struct Block {
    pub header: BlockHeader,
    pub extrinsics: Vec<String>,
}

/// A block header as fetched from the node RPC interface; numbers and
/// hashes arrive as hex strings.
#[derive(Debug)]
pub struct BlockHeader {
    pub digest: EventDigest,
    pub extrinsics_root: String,
    pub number: String,
    pub parent_hash: String,
    pub state_root: String,
}

/// The digest logs of a block header, hex-encoded.
#[derive(Debug)]
pub struct EventDigest {
    pub logs: Vec<String>,
}

/// The author a digest log names: a pre-runtime, consensus or seal
/// item of the BABE engine whose payload opens with a primary or
/// secondary pre-digest carrying the authority index.
pub open spec fn spec_log_authority(b: Seq<u8>) -> Option<u32> {
    if b.len() >= 5 && (b[0] == 6 || b[0] == 4 || b[0] == 5) && b[1] == 0x42 && b[2] == 0x41
        && b[3] == 0x42 && b[4] == 0x45 {
        match crate::scale::spec_compact_u128(b, 5) {
            Some((_len, p)) => {
                if p + 5 <= b.len() && (b[p] == 1 || b[p] == 2 || b[p] == 3) {
                    Some(crate::scale::spec_le_val(b, p + 1, 4) as u32)
                } else {
                    None
                }
            },
            None => None,
        }
    } else {
        None
    }
}

/// How one digest log changes the author found so far: a pre-runtime
/// item always decides; a consensus or seal item decides only where
/// none was found yet; anything else, and any malformed log, changes
/// nothing.
pub open spec fn spec_index_step(prev: Option<u32>, log: Seq<char>) -> Option<u32> {
    let t = crate::crypto::spec_strip_hex_prefix(log);
    if t.len() % 2 == 0 && crate::strings::spec_is_hex(t) {
        let b = crate::crypto::spec_hex_bytes(t);
        if b.len() >= 1 && b[0] == 6 {
            spec_log_authority(b)
        } else if b.len() >= 1 && (b[0] == 4 || b[0] == 5) && prev is None {
            spec_log_authority(b)
        } else {
            prev
        }
    } else {
        prev
    }
}

/// The author named by the first `i` digest logs.
pub open spec fn spec_index_upto(logs: Seq<Seq<char>>, i: int) -> Option<u32>
    decreases i,
{
    if i <= 0 {
        None
    } else {
        spec_index_step(spec_index_upto(logs, i - 1), logs[i - 1])
    }
}

fn log_authority(b: &Vec<u8>) -> (r: Option<u32>)
    ensures
        r == spec_log_authority(b@),
{
    if b.len() < 5 {
        return None;
    }
    let tag = b[0];
    if !(tag == 6 || tag == 4 || tag == 5) {
        return None;
    }
    if !(b[1] == 0x42 && b[2] == 0x41 && b[3] == 0x42 && b[4] == 0x45) {
        return None;
    }
    match crate::scale::compact_u128(b, 5) {
        Some((_len, p)) => {
            if p < b.len() && b.len() - p >= 5 && (b[p] == 1 || b[p] == 2 || b[p] == 3) {
                let v = crate::scale::read_le(b, p + 1, 4);
                proof {
                    crate::scale::lemma_le_val_fits_u32(b@, p + 1);
                }
                Some(v as u32)
            } else {
                None
            }
        },
        None => None,
    }
}

impl BlockHeader {
    /// The block number its hex header field names.
    pub fn get_number(&self) -> (r: Option<u64>)
        ensures
            match r {
                Some(v) => {
                    let t = crate::crypto::spec_strip_hex_prefix(self.number@);
                    t.len() > 0 && crate::strings::spec_is_hex(t)
                        && crate::strings::spec_hex_val(t) == v
                },
                None => {
                    let t = crate::crypto::spec_strip_hex_prefix(self.number@);
                    !(t.len() > 0 && crate::strings::spec_is_hex(t)
                        && crate::strings::spec_hex_val(t) <= 0xffffffffffffffff)
                },
            },
    {
        crate::scale::parse_hex_u64(self.number.as_str())
    }

    /// The authority index of the block's author, read from the digest
    /// logs in order.
    pub fn get_validator_index(&self) -> (r: Option<u32>)
        ensures
            r == spec_index_upto(
                Seq::new(self.digest.logs@.len(), |i: int| self.digest.logs@[i]@),
                self.digest.logs@.len() as int,
            ),
    {
        let ghost logs_v = Seq::new(self.digest.logs@.len(), |i: int| self.digest.logs@[i]@);
        let mut r: Option<u32> = None;
        let mut i: usize = 0;
        while i < self.digest.logs.len()
            invariant
                logs_v == Seq::new(self.digest.logs@.len(), |i: int| self.digest.logs@[i]@),
                logs_v.len() == self.digest.logs@.len(),
                i <= self.digest.logs@.len(),
                r == spec_index_upto(logs_v, i as int),
            decreases self.digest.logs@.len() - i,
        {
            let log = &self.digest.logs[i];
            proof {
                assert(logs_v[i as int] == log@);
            }
            match crate::scale::parse_hex_bytes(log.as_str()) {
                Some(bytes) => {
                    if bytes.len() >= 1 && bytes[0] == 6 {
                        r = log_authority(&bytes);
                    } else if bytes.len() >= 1 && (bytes[0] == 4 || bytes[0] == 5) && r.is_none() {
                        r = log_authority(&bytes);
                    }
                },
                None => {},
            }
            i = i + 1;
        }
        r
    }
}

/// On-chain identity data, as the identity pallet stores a field: raw
/// bytes, a hash of them, or nothing.
#[derive(Debug)]
pub enum IdentityData {
    NoData,
    Raw(Vec<u8>),
    Hashed(Vec<u8>),
}

/// Relies on String::from_utf8: it succeeds exactly on valid UTF-8,
/// and a returned string's UTF-8 bytes are exactly the input bytes.
#[verifier::external_body]
fn string_from_utf8(bytes: Vec<u8>) -> (r: Option<String>)
    ensures
        match r {
            Some(s) => vstd::utf8::valid_utf8(bytes@) && vstd::utf8::encode_utf8(s@) == bytes@,
            None => !vstd::utf8::valid_utf8(bytes@),
        },
{
    match String::from_utf8(bytes) {
        Ok(s) => Some(s),
        Err(_) => None,
    }
}

/// The text a raw identity field carries: exactly the decoding of a
/// raw field's bytes where they are valid UTF-8; raw fields with
/// invalid bytes, hashed fields and absent fields carry none.
pub fn data_to_string(data: IdentityData) -> (r: Option<String>)
    ensures
        match data {
            IdentityData::Raw(b) => match r {
                Some(s) => vstd::utf8::valid_utf8(b@) && s@ == vstd::utf8::decode_utf8(b@),
                None => !vstd::utf8::valid_utf8(b@),
            },
            _ => r is None,
        },
{
    match data {
        IdentityData::Raw(raw) => {
            let ghost b = raw@;
            let r = string_from_utf8(raw);
            proof {
                if r is Some {
                    vstd::utf8::encode_utf8_decode_utf8(r.unwrap()@);
                    vstd::utf8::decode_utf8_encode_utf8(b);
                }
            }
            r
        },
        _ => None,
    }
}

/// A registrar's judgement on an identity.
#[derive(Clone, Copy, Debug, PartialEq, Eq, Structural)]
pub enum Judgement {
    Unknown,
    FeePaid,
    Reasonable,
    KnownGood,
    OutOfDate,
    LowQuality,
    Erroneous,
}

/// Whether one judgement counts as confirmation.
pub open spec fn spec_judgement_confirms(j: Judgement) -> bool {
    j == Judgement::Reasonable || j == Judgement::KnownGood
}

/// An identity is confirmed exactly when every judgement on it
/// confirms it; with no judgements it stands confirmed.
pub open spec fn spec_judgements_confirmed(js: Seq<Judgement>) -> bool {
    forall|i: int| 0 <= i < js.len() ==> spec_judgement_confirms(#[trigger] js[i])
}

impl IdentityRegistration {
    /// Builds a registration from its decoded display fields and the
    /// registrars' judgements.
    pub fn from_parts(
        display: Option<String>,
        email: Option<String>,
        riot: Option<String>,
        twitter: Option<String>,
        web: Option<String>,
        judgements: &Vec<Judgement>,
    ) -> (r: IdentityRegistration)
        ensures
            r@.display == view_opt_string(display),
            r@.email == view_opt_string(email),
            r@.riot == view_opt_string(riot),
            r@.twitter == view_opt_string(twitter),
            r@.web == view_opt_string(web),
            r@.confirmed == spec_judgements_confirmed(judgements@),
    {
        let mut confirmed = true;
        let mut i: usize = 0;
        while i < judgements.len()
            invariant
                i <= judgements@.len(),
                confirmed == spec_judgements_confirmed(judgements@.take(i as int)),
            decreases judgements@.len() - i,
        {
            let ok = match judgements[i] {
                Judgement::Reasonable => true,
                Judgement::KnownGood => true,
                _ => false,
            };
            proof {
                let cur = judgements@.take(i + 1);
                assert forall|j: int|
                    0 <= j < cur.len() implies cur[j] == judgements@[j] by {}
                if confirmed && ok {
                    assert(spec_judgements_confirmed(cur));
                }
                if !(confirmed && ok) {
                    if !confirmed {
                        let w = choose|w: int|
                            0 <= w < i && !spec_judgement_confirms(
                                #[trigger] judgements@.take(i as int)[w],
                            );
                        assert(cur[w] == judgements@.take(i as int)[w]);
                        assert(!spec_judgements_confirmed(cur));
                    } else {
                        assert(cur[i as int] == judgements@[i as int]);
                        assert(!spec_judgements_confirmed(cur));
                    }
                }
            }
            confirmed = confirmed && ok;
            i = i + 1;
        }
        proof {
            assert(judgements@.take(judgements@.len() as int) =~= judgements@);
        }
        IdentityRegistration { display, email, riot, twitter, web, confirmed }
    }
}



/// One decoded identity data field, as the wire carries it.
pub ghost enum DataWire {
    NoData,
    Raw(Seq<u8>),
    Hashed,
}

/// The wire value of a decoded data field.
pub open spec fn spec_data_view(d: IdentityData) -> DataWire {
    match d {
        IdentityData::NoData => DataWire::NoData,
        IdentityData::Raw(b) => DataWire::Raw(b@),
        IdentityData::Hashed(_) => DataWire::Hashed,
    }
}

/// An identity data field read at a position: tag 0 carries nothing,
/// tags 1 to 33 carry that many bytes minus one raw, tags 34 to 37 a
/// 32-byte hash.
pub open spec fn spec_data_from(b: Seq<u8>, pos: int) -> Option<(DataWire, int)> {
    if pos < 0 || pos >= b.len() {
        None
    } else {
        let tag = b[pos];
        if tag == 0 {
            Some((DataWire::NoData, pos + 1))
        } else if tag <= 33 {
            if pos + tag <= b.len() {
                Some((DataWire::Raw(b.subrange(pos + 1, pos + tag)), pos + tag))
            } else {
                None
            }
        } else if tag <= 37 {
            if pos + 33 <= b.len() {
                Some((DataWire::Hashed, pos + 33))
            } else {
                None
            }
        } else {
            None
        }
    }
}

fn read_data(b: &Vec<u8>, pos: usize) -> (r: Option<(IdentityData, usize)>)
    ensures
        match r {
            Some((d, next)) => spec_data_from(b@, pos as int) == Some(
                (spec_data_view(d), next as int),
            ) && next <= b@.len(),
            None => spec_data_from(b@, pos as int) is None,
        },
{
    if pos >= b.len() {
        return None;
    }
    let tag = b[pos];
    if tag == 0 {
        Some((IdentityData::NoData, pos + 1))
    } else if tag <= 33 {
        let len = (tag - 1) as usize;
        if b.len() - pos - 1 < len {
            return None;
        }
        let mut raw: Vec<u8> = Vec::new();
        let mut i: usize = 0;
        while i < len
            invariant
                pos + 1 + len <= b@.len(),
                i <= len,
                raw@.len() == i,
                forall|j: int| 0 <= j < i ==> raw@[j] == b@[pos + 1 + j],
            decreases len - i,
        {
            let blen = b.len();
            raw.push(b[pos + 1 + i]);
            i = i + 1;
        }
        proof {
            assert(raw@ =~= b@.subrange(pos + 1, pos + tag));
        }
        Some((IdentityData::Raw(raw), pos + 1 + len))
    } else if tag <= 37 {
        if b.len() - pos < 33 {
            return None;
        }
        let mut hash: Vec<u8> = Vec::new();
        let mut i: usize = 0;
        while i < 32
            invariant
                pos + 33 <= b@.len(),
                i <= 32,
            decreases 32 - i,
        {
            let blen = b.len();
            hash.push(b[pos + 1 + i]);
            i = i + 1;
        }
        Some((IdentityData::Hashed(hash), pos + 33))
    } else {
        None
    }
}

/// A registrar judgement read at a position: a tag byte, with a
/// balance after the fee-paid tag.
pub open spec fn spec_judgement_from(b: Seq<u8>, pos: int) -> Option<(Judgement, int)> {
    if pos < 0 || pos >= b.len() {
        None
    } else {
        let tag = b[pos];
        if tag == 0 {
            Some((Judgement::Unknown, pos + 1))
        } else if tag == 1 {
            if pos + 17 <= b.len() {
                Some((Judgement::FeePaid, pos + 17))
            } else {
                None
            }
        } else if tag == 2 {
            Some((Judgement::Reasonable, pos + 1))
        } else if tag == 3 {
            Some((Judgement::KnownGood, pos + 1))
        } else if tag == 4 {
            Some((Judgement::OutOfDate, pos + 1))
        } else if tag == 5 {
            Some((Judgement::LowQuality, pos + 1))
        } else if tag == 6 {
            Some((Judgement::Erroneous, pos + 1))
        } else {
            None
        }
    }
}

/// The judgement list read at a position: each entry a 32-bit
/// registrar index, then the judgement itself.
pub open spec fn spec_judgements_from(b: Seq<u8>, pos: int, n: int) -> Option<(Seq<Judgement>, int)>
    decreases n,
{
    if n <= 0 {
        Some((Seq::empty(), pos))
    } else if pos < 0 || pos + 4 > b.len() {
        None
    } else {
        match spec_judgement_from(b, pos + 4) {
            Some((j, p1)) => match spec_judgements_from(b, p1, n - 1) {
                Some((rest, pend)) => Some((seq![j] + rest, pend)),
                None => None,
            },
            None => None,
        }
    }
}

fn read_judgement(b: &Vec<u8>, pos: usize) -> (r: Option<(Judgement, usize)>)
    ensures
        match r {
            Some((j, next)) => spec_judgement_from(b@, pos as int) == Some((j, next as int))
                && next <= b@.len(),
            None => spec_judgement_from(b@, pos as int) is None,
        },
{
    if pos >= b.len() {
        return None;
    }
    let tag = b[pos];
    if tag == 0 {
        Some((Judgement::Unknown, pos + 1))
    } else if tag == 1 {
        if b.len() - pos < 17 {
            return None;
        }
        Some((Judgement::FeePaid, pos + 17))
    } else if tag == 2 {
        Some((Judgement::Reasonable, pos + 1))
    } else if tag == 3 {
        Some((Judgement::KnownGood, pos + 1))
    } else if tag == 4 {
        Some((Judgement::OutOfDate, pos + 1))
    } else if tag == 5 {
        Some((Judgement::LowQuality, pos + 1))
    } else if tag == 6 {
        Some((Judgement::Erroneous, pos + 1))
    } else {
        None
    }
}

fn read_judgements(b: &Vec<u8>, pos: usize, n: u32) -> (r: Option<(Vec<Judgement>, usize)>)
    requires
        pos <= b@.len(),
    ensures
        match r {
            Some((js, next)) => spec_judgements_from(b@, pos as int, n as int) == Some(
                (js@, next as int),
            ) && next <= b@.len(),
            None => spec_judgements_from(b@, pos as int, n as int) is None,
        },
    decreases n,
{
    if n == 0 {
        let r: Vec<Judgement> = Vec::new();
        proof {
            assert(r@ =~= Seq::<Judgement>::empty());
        }
        return Some((r, pos));
    }
    if pos >= b.len() || b.len() - pos < 4 {
        return None;
    }
    let (j, p1) = match read_judgement(b, pos + 4) {
        Some(x) => x,
        None => {
            return None;
        },
    };
    let (mut rest, pend) = match read_judgements(b, p1, n - 1) {
        Some(x) => x,
        None => {
            return None;
        },
    };
    let ghost pre = rest@;
    rest.insert(0, j);
    proof {
        assert(rest@ =~= seq![j] + pre);
    }
    Some((rest, pend))
}

/// Additional identity fields (key and value pairs) read at a
/// position; the pipeline skips their content.
pub open spec fn spec_additional_from(b: Seq<u8>, pos: int, n: int) -> Option<int>
    decreases n,
{
    if n <= 0 {
        Some(pos)
    } else {
        match spec_data_from(b, pos) {
            Some((_k, p1)) => match spec_data_from(b, p1) {
                Some((_v, p2)) => spec_additional_from(b, p2, n - 1),
                None => None,
            },
            None => None,
        }
    }
}

fn skip_additional(b: &Vec<u8>, pos: usize, n: u32) -> (r: Option<usize>)
    requires
        pos <= b@.len(),
    ensures
        match r {
            Some(next) => spec_additional_from(b@, pos as int, n as int) == Some(next as int)
                && next <= b@.len(),
            None => spec_additional_from(b@, pos as int, n as int) is None,
        },
    decreases n,
{
    if n == 0 {
        return Some(pos);
    }
    let (_k, p1) = match read_data(b, pos) {
        Some(x) => x,
        None => {
            return None;
        },
    };
    let (_v, p2) = match read_data(b, p1) {
        Some(x) => x,
        None => {
            return None;
        },
    };
    skip_additional(b, p2, n - 1)
}

/// The parts of an identity registration the pipeline reads, as the
/// wire carries them: the judgements and the five display fields.
pub ghost struct IdentityWire {
    pub judgements: Seq<Judgement>,
    pub display: DataWire,
    pub email: DataWire,
    pub riot: DataWire,
    pub twitter: DataWire,
    pub web: DataWire,
}

/// The identity registration named by its runtime bytes: the judgement
/// list (each entry a registrar index and a judgement), a deposit,
/// then the identity info in field order: the additional pairs, then
/// display, legal, web, riot, email, an optional 20-byte fingerprint,
/// image, and twitter, each a data field.
pub open spec fn spec_identity_wire_from(b: Seq<u8>) -> Option<IdentityWire> {
    match crate::scale::spec_compact_u32(b, 0) {
        Some((n, p0)) => match spec_judgements_from(b, p0, n as int) {
            Some((judgements, p1)) => {
                if p1 + 16 <= b.len() {
                    match crate::scale::spec_compact_u32(b, p1 + 16) {
                        Some((n2, p2)) => match spec_additional_from(b, p2, n2 as int) {
                            Some(p3) => match spec_data_from(b, p3) {
                                Some((display, p4)) => match spec_data_from(b, p4) {
                                    Some((_legal, p5)) => match spec_data_from(b, p5) {
                                        Some((web, p6)) => match spec_data_from(b, p6) {
                                            Some((riot, p7)) => match spec_data_from(b, p7) {
                                                Some((email, p8)) => {
                                                    let fp = if p8 < b.len() && b[p8] == 0 {
                                                        Some(p8 + 1)
                                                    } else if p8 < b.len() && b[p8] == 1 && p8 + 21
                                                        <= b.len() {
                                                        Some(p8 + 21)
                                                    } else {
                                                        None
                                                    };
                                                    match fp {
                                                        Some(p9) => match spec_data_from(b, p9) {
                                                            Some((_image, p10)) => match
                                                                spec_data_from(b, p10) {
                                                                Some((twitter, _p11)) => Some(
                                                                    IdentityWire {
                                                                        judgements,
                                                                        display,
                                                                        email,
                                                                        riot,
                                                                        twitter,
                                                                        web,
                                                                    },
                                                                ),
                                                                None => None,
                                                            },
                                                            None => None,
                                                        },
                                                        None => None,
                                                    }
                                                },
                                                None => None,
                                            },
                                            None => None,
                                        },
                                        None => None,
                                    },
                                    None => None,
                                },
                                None => None,
                            },
                            None => None,
                        },
                        None => None,
                    }
                } else {
                    None
                }
            },
            None => None,
        },
        None => None,
    }
}

/// Whether an optional text field carries exactly what a wire data
/// field names: the decoding of a raw field's valid UTF-8 bytes, and
/// nothing otherwise.
pub open spec fn spec_field_matches(f: Option<Seq<char>>, d: DataWire) -> bool {
    match d {
        DataWire::Raw(b) => if vstd::utf8::valid_utf8(b) {
            f == Some(vstd::utf8::decode_utf8(b))
        } else {
            f is None
        },
        _ => f is None,
    }
}

/// Reads an identity registration from its runtime encoding: the five
/// display fields where raw and valid UTF-8, and the confirmation
/// flag folded over the judgements.
pub fn identity_registration_from_bytes(bytes: &Vec<u8>) -> (r: Option<IdentityRegistration>)
    ensures
        match r {
            Some(reg) => spec_identity_wire_from(bytes@) matches Some(w) && reg@.confirmed
                == spec_judgements_confirmed(w.judgements) && spec_field_matches(
                reg@.display,
                w.display,
            ) && spec_field_matches(reg@.email, w.email) && spec_field_matches(
                reg@.riot,
                w.riot,
            ) && spec_field_matches(reg@.twitter, w.twitter) && spec_field_matches(
                reg@.web,
                w.web,
            ),
            None => spec_identity_wire_from(bytes@) is None,
        },
{
    let (n, p0) = match crate::scale::compact_u32(bytes, 0) {
        Some(x) => x,
        None => {
            return None;
        },
    };
    let (judgements, p1) = match read_judgements(bytes, p0, n) {
        Some(x) => x,
        None => {
            return None;
        },
    };
    if p1 >= bytes.len() || bytes.len() - p1 < 16 {
        return None;
    }
    let (n2, p2) = match crate::scale::compact_u32(bytes, p1 + 16) {
        Some(x) => x,
        None => {
            return None;
        },
    };
    let p3 = match skip_additional(bytes, p2, n2) {
        Some(x) => x,
        None => {
            return None;
        },
    };
    let (display_data, p4) = match read_data(bytes, p3) {
        Some(x) => x,
        None => {
            return None;
        },
    };
    let (_legal, p5) = match read_data(bytes, p4) {
        Some(x) => x,
        None => {
            return None;
        },
    };
    let (web_data, p6) = match read_data(bytes, p5) {
        Some(x) => x,
        None => {
            return None;
        },
    };
    let (riot_data, p7) = match read_data(bytes, p6) {
        Some(x) => x,
        None => {
            return None;
        },
    };
    let (email_data, p8) = match read_data(bytes, p7) {
        Some(x) => x,
        None => {
            return None;
        },
    };
    let p9: usize = if p8 < bytes.len() && bytes[p8] == 0 {
        p8 + 1
    } else if p8 < bytes.len() && bytes[p8] == 1 && bytes.len() - p8 >= 21 {
        p8 + 21
    } else {
        return None;
    };
    let (_image, p10) = match read_data(bytes, p9) {
        Some(x) => x,
        None => {
            return None;
        },
    };
    let (twitter_data, _p11) = match read_data(bytes, p10) {
        Some(x) => x,
        None => {
            return None;
        },
    };
    let display = data_to_string(display_data);
    let email = data_to_string(email_data);
    let riot = data_to_string(riot_data);
    let twitter = data_to_string(twitter_data);
    let web = data_to_string(web_data);
    Some(IdentityRegistration::from_parts(display, email, riot, twitter, web, &judgements))
}


} // verus!
