//! The validator list updater: for each finalized block it assembles
//! the full validator list and plans one pipelined transaction for the
//! shared buffer: the id sets, the era, three keys per validator,
//! deletion of history older than the retention depth, and the pub/sub
//! notification last of all.
use vstd::prelude::*;

use crate::hashing::{
    details_hash, spec_details_hash, spec_summary_hash, summary_hash,
};
use crate::strings::{spec_dec_str, spec_hex_of, u64_to_dec_string};
use crate::substrate::Era;
use crate::subvt::{spec_validator_summary, ValidatorDetails, ValidatorSummary};

verus! {

/// How many blocks of derived state the shared buffer retains,
/// the newest included.
pub const HISTORY_BLOCK_DEPTH: u64 = 3;

/// The per-block key prefix: `subvt:{chain}:validators:{block}`.
pub open spec fn spec_block_prefix(chain: Seq<char>, block: u64) -> Seq<char> {
    "subvt:"@ + chain + ":validators:"@ + spec_dec_str(block)
}

/// The key of a bucket's account id set.
pub open spec fn spec_account_id_set_key(chain: Seq<char>, block: u64, active: bool) -> Seq<
    char,
> {
    spec_block_prefix(chain, block) + (if active {
        ":active"@
    } else {
        ":inactive"@
    }) + ":account_id_set"@
}

/// The key of the block's active era record.
pub open spec fn spec_era_key(chain: Seq<char>, block: u64) -> Seq<char> {
    spec_block_prefix(chain, block) + ":active_era"@
}

/// The key prefix of one validator's records under a block.
pub open spec fn spec_validator_key(
    chain: Seq<char>,
    block: u64,
    active: bool,
    id: Seq<u8>,
) -> Seq<char> {
    spec_block_prefix(chain, block) + (if active {
        ":active"@
    } else {
        ":inactive"@
    }) + ":validator:"@ + spec_hex_of(id)
}

/// The pub/sub channel that announces each finalized block.
pub open spec fn spec_publish_channel(chain: Seq<char>) -> Seq<char> {
    "subvt:"@ + chain + ":validators:publish:finalized_block_number"@
}

/// The glob pattern of every key a block's state lives under.
pub open spec fn spec_block_pattern(chain: Seq<char>, block: u64) -> Seq<char> {
    spec_block_prefix(chain, block) + ":*"@
}

/// The glob pattern of every key the toolkit owns for a chain.
pub open spec fn spec_wipe_pattern(chain: Seq<char>) -> Seq<char> {
    "subvt:"@ + chain + ":*"@
}

fn block_prefix(chain: &str, block: u64) -> (r: String)
    ensures
        r@ == spec_block_prefix(chain@, block),
{
    let mut s = ("subvt:").to_owned();
    s.append(chain);
    s.append(":validators:");
    let num = u64_to_dec_string(block);
    s.append(num.as_str());
    proof {
        assert(s@ =~= spec_block_prefix(chain@, block));
    }
    s
}

fn account_id_set_key(chain: &str, block: u64, active: bool) -> (r: String)
    ensures
        r@ == spec_account_id_set_key(chain@, block, active),
{
    let mut s = block_prefix(chain, block);
    if active {
        s.append(":active");
    } else {
        s.append(":inactive");
    }
    s.append(":account_id_set");
    proof {
        assert(s@ =~= spec_account_id_set_key(chain@, block, active));
    }
    s
}

fn era_key(chain: &str, block: u64) -> (r: String)
    ensures
        r@ == spec_era_key(chain@, block),
{
    let mut s = block_prefix(chain, block);
    s.append(":active_era");
    s
}

fn validator_key(chain: &str, block: u64, active: bool, id_hex: &str) -> (r: String)
    requires
        exists|id: Seq<u8>| id_hex@ == spec_hex_of(id),
    ensures
        forall|id: Seq<u8>|
            id_hex@ == spec_hex_of(id) ==> r@ == spec_validator_key(chain@, block, active, id),
{
    let mut s = block_prefix(chain, block);
    if active {
        s.append(":active");
    } else {
        s.append(":inactive");
    }
    s.append(":validator:");
    s.append(id_hex);
    proof {
        assert forall|id: Seq<u8>| id_hex@ == spec_hex_of(id) implies s@ == spec_validator_key(
            chain@,
            block,
            active,
            id,
        ) by {
            assert(s@ =~= spec_validator_key(chain@, block, active, id));
        }
    }
    s
}

/// The pub/sub channel name for a chain.
pub fn publish_channel(chain: &str) -> (r: String)
    ensures
        r@ == spec_publish_channel(chain@),
{
    let mut s = ("subvt:").to_owned();
    s.append(chain);
    s.append(":validators:publish:finalized_block_number");
    proof {
        assert(s@ =~= spec_publish_channel(chain@));
    }
    s
}

fn block_pattern(chain: &str, block: u64) -> (r: String)
    ensures
        r@ == spec_block_pattern(chain@, block),
{
    let mut s = block_prefix(chain, block);
    s.append(":*");
    s
}

/// The glob pattern the updater wipes at startup, and again after a
/// chain subscription is lost and rebuilt: every key of the chain.
pub fn startup_wipe_pattern(chain: &str) -> (r: String)
    ensures
        r@ == spec_wipe_pattern(chain@),
{
    let mut s = ("subvt:").to_owned();
    s.append(chain);
    s.append(":*");
    proof {
        assert(s@ =~= spec_wipe_pattern(chain@));
    }
    s
}

/// One entry of the pipelined buffer transaction for a block. The
/// values stay typed: the process edge serializes them.
#[derive(Debug)]
pub enum BufferCommand {
    /// Add hex account ids to a bucket's id set.
    SetAdd { key: String, members: Vec<String> },
    /// Write the block's active era.
    SetEra { key: String, era: Era },
    /// Write one validator's full record.
    SetValidator { key: String, validator: ValidatorDetails },
    /// Write one 64-bit change-detection hash.
    SetHash { key: String, hash: u64 },
    /// Delete every key matching a glob pattern.
    DeletePattern { pattern: String },
    /// Announce the finalized block on the pub/sub channel.
    Publish { channel: String, block_number: u64 },
}

/// The hex ids of the validators of one bucket, in list order.
pub open spec fn spec_bucket_hex_ids(vs: Seq<ValidatorDetails>, active: bool) -> Seq<Seq<char>>
    decreases vs.len(),
{
    if vs.len() == 0 {
        Seq::empty()
    } else {
        spec_bucket_hex_ids(vs.drop_last(), active) + (if vs.last()@.is_active == active {
            seq![spec_hex_of(vs.last()@.account.id)]
        } else {
            Seq::empty()
        })
    }
}

fn bucket_hex_ids(validators: &Vec<ValidatorDetails>, active: bool) -> (r: Vec<String>)
    ensures
        Seq::new(r@.len(), |i: int| r@[i]@) =~= spec_bucket_hex_ids(validators@, active),
{
    let mut r: Vec<String> = Vec::new();
    let mut i: usize = 0;
    while i < validators.len()
        invariant
            i <= validators@.len(),
            Seq::new(r@.len(), |j: int| r@[j]@) =~= spec_bucket_hex_ids(
                validators@.take(i as int),
                active,
            ),
        decreases validators@.len() - i,
    {
        let ghost pre = r@;
        if validators[i].is_active == active {
            let hex = crate::strings::bytes_to_hex_string(&validators[i].account.id.bytes);
            r.push(hex);
        }
        i = i + 1;
        proof {
            let cur = validators@.take(i as int);
            assert(cur.drop_last() =~= validators@.take(i - 1));
            assert(cur.last() == validators@[i - 1]);
            assert(Seq::new(r@.len(), |j: int| r@[j]@) =~= spec_bucket_hex_ids(cur, active));
        }
    }
    proof {
        assert(validators@.take(validators@.len() as int) =~= validators@);
    }
    r
}

/// The updater's in-process state: the block numbers whose derived
/// state the buffer still holds, oldest first, and the single-slot
/// busy flag.
pub struct ValidatorListUpdater {
    pub processed_block_numbers: Vec<u64>,
    pub busy: bool,
}

impl ValidatorListUpdater {
    /// Retained history is bounded by the retention depth.
    pub open spec fn wf(&self) -> bool {
        self.processed_block_numbers@.len() <= HISTORY_BLOCK_DEPTH
    }

    /// A fresh updater: no history, not busy.
    pub fn new() -> (r: ValidatorListUpdater)
        ensures
            r.wf(),
            r.processed_block_numbers@ == Seq::<u64>::empty(),
            !r.busy,
    {
        ValidatorListUpdater { processed_block_numbers: Vec::new(), busy: false }
    }

    /// Claims the single processing slot. A block that arrives while a
    /// previous one is still processed is dropped, never queued: the
    /// state at a later block supersedes it.
    pub fn try_begin_block(&mut self) -> (r: bool)
        ensures
            r == !old(self).busy,
            final(self).busy,
            final(self).processed_block_numbers == old(self).processed_block_numbers,
    {
        let was_busy = self.busy;
        self.busy = true;
        !was_busy
    }

    /// Releases the processing slot after a block's pipeline ran, or
    /// after it failed; the next finalized block retries from scratch.
    pub fn finish_block(&mut self)
        ensures
            !final(self).busy,
            final(self).processed_block_numbers == old(self).processed_block_numbers,
    {
        self.busy = false;
    }

    /// Plans the buffer transaction for one finalized block: the two
    /// id sets, the era, three keys per validator carrying the record
    /// and its two stable hashes, deletion of every retained block
    /// falling out of the window once this one lands, and the pub/sub
    /// announcement as the last command. Planning changes nothing:
    /// only `commit_block`, called after the pipeline ran to
    /// completion, records the block, so a failed pipeline leaves no
    /// trace in the history and no announcement is made (the publish
    /// sits in the unexecuted plan).
    #[verifier::rlimit(100)]
    #[verifier::spinoff_prover]
    pub fn plan_block_update(
        &self,
        chain: &str,
        finalized_block_number: u64,
        active_era: &Era,
        validators: &Vec<ValidatorDetails>,
    ) -> (r: Vec<BufferCommand>)
        requires
            self.wf(),
        ensures
            r@.len() == 3 + 3 * validators@.len() + spec_dropped_count(
                self.processed_block_numbers@,
            ) + 1,
            (r@[0] matches BufferCommand::SetAdd { key, members } && key@
                == spec_account_id_set_key(chain@, finalized_block_number, true) && Seq::new(
                members@.len(),
                |i: int| members@[i]@,
            ) == spec_bucket_hex_ids(validators@, true)),
            (r@[1] matches BufferCommand::SetAdd { key, members } && key@
                == spec_account_id_set_key(chain@, finalized_block_number, false) && Seq::new(
                members@.len(),
                |i: int| members@[i]@,
            ) == spec_bucket_hex_ids(validators@, false)),
            (r@[2] matches BufferCommand::SetEra { key, era } && key@ == spec_era_key(
                chain@,
                finalized_block_number,
            ) && era == *active_era),
            forall|i: int|
                0 <= i < validators@.len() ==> (#[trigger] r@[3 + 3 * i]
                    matches BufferCommand::SetHash { key, hash } && key@ == spec_validator_key(
                    chain@,
                    finalized_block_number,
                    validators@[i]@.is_active,
                    validators@[i]@.account.id,
                ) + ":hash"@ && hash == spec_details_hash(validators@[i]@)),
            forall|i: int|
                0 <= i < validators@.len() ==> (#[trigger] r@[3 + 3 * i + 1]
                    matches BufferCommand::SetHash { key, hash } && key@ == spec_validator_key(
                    chain@,
                    finalized_block_number,
                    validators@[i]@.is_active,
                    validators@[i]@.account.id,
                ) + ":summary_hash"@ && hash == spec_summary_hash(
                    spec_validator_summary(validators@[i]@),
                )),
            forall|i: int|
                0 <= i < validators@.len() ==> (#[trigger] r@[3 + 3 * i + 2]
                    matches BufferCommand::SetValidator { key, validator } && key@
                    == spec_validator_key(
                    chain@,
                    finalized_block_number,
                    validators@[i]@.is_active,
                    validators@[i]@.account.id,
                ) && validator@ == validators@[i]@),
            forall|j: int|
                0 <= j < spec_dropped_count(self.processed_block_numbers@) ==> (
                #[trigger] r@[3 + 3 * validators@.len() + j]
                    matches BufferCommand::DeletePattern { pattern } && pattern@
                    == spec_block_pattern(chain@, self.processed_block_numbers@[j])),
            (r@[r@.len() - 1] matches BufferCommand::Publish { channel, block_number } && channel@
                == spec_publish_channel(chain@) && block_number == finalized_block_number),
    {
        let mut r: Vec<BufferCommand> = Vec::new();
        let active_members = bucket_hex_ids(validators, true);
        let inactive_members = bucket_hex_ids(validators, false);
        r.push(
            BufferCommand::SetAdd {
                key: account_id_set_key(chain, finalized_block_number, true),
                members: active_members,
            },
        );
        r.push(
            BufferCommand::SetAdd {
                key: account_id_set_key(chain, finalized_block_number, false),
                members: inactive_members,
            },
        );
        r.push(
            BufferCommand::SetEra { key: era_key(chain, finalized_block_number), era: *active_era },
        );
        let ghost head = r@;
        let mut i: usize = 0;
        while i < validators.len()
            invariant
                i <= validators@.len(),
                r@.len() == 3 + 3 * i,
                head.len() == 3,
                r@.subrange(0, 3) =~= head,
                forall|x: int|
                    0 <= x < i ==> (#[trigger] r@[3 + 3 * x]
                        matches BufferCommand::SetHash { key, hash } && key@ == spec_validator_key(
                        chain@,
                        finalized_block_number,
                        validators@[x]@.is_active,
                        validators@[x]@.account.id,
                    ) + ":hash"@ && hash == spec_details_hash(validators@[x]@)),
                forall|x: int|
                    0 <= x < i ==> (#[trigger] r@[3 + 3 * x + 1]
                        matches BufferCommand::SetHash { key, hash } && key@ == spec_validator_key(
                        chain@,
                        finalized_block_number,
                        validators@[x]@.is_active,
                        validators@[x]@.account.id,
                    ) + ":summary_hash"@ && hash == spec_summary_hash(
                        spec_validator_summary(validators@[x]@),
                    )),
                forall|x: int|
                    0 <= x < i ==> (#[trigger] r@[3 + 3 * x + 2]
                        matches BufferCommand::SetValidator { key, validator } && key@
                        == spec_validator_key(
                        chain@,
                        finalized_block_number,
                        validators@[x]@.is_active,
                        validators@[x]@.account.id,
                    ) && validator@ == validators@[x]@),
            decreases validators@.len() - i,
        {
            let v = &validators[i];
            let hex = v.account.id.to_hex_string();
            let vkey = validator_key(chain, finalized_block_number, v.is_active, hex.as_str());
            let mut hash_key = vkey.clone();
            hash_key.append(":hash");
            let mut summary_hash_key = vkey.clone();
            summary_hash_key.append(":summary_hash");
            let dh = details_hash(v);
            let summary = ValidatorSummary::from_details(v);
            let sh = summary_hash(&summary);
            r.push(BufferCommand::SetHash { key: hash_key, hash: dh });
            r.push(BufferCommand::SetHash { key: summary_hash_key, hash: sh });
            r.push(BufferCommand::SetValidator { key: vkey, validator: v.clone() });
            i = i + 1;
            proof {
                assert(r@.subrange(0, 3) =~= head);
            }
        }
        let n = validators.len();
        let ghost body = r@;
        let history_len = self.processed_block_numbers.len();
        let keep_limit: usize = (HISTORY_BLOCK_DEPTH - 1) as usize;
        let dropped: usize = if history_len > keep_limit {
            history_len - keep_limit
        } else {
            0
        };
        let mut j: usize = 0;
        while j < dropped
            invariant
                dropped <= self.processed_block_numbers@.len(),
                j <= dropped,
                body.len() == 3 + 3 * n,
                r@.len() == 3 + 3 * n + j,
                r@.subrange(0, 3 + 3 * (n as int)) =~= body,
                forall|x: int|
                    0 <= x < j ==> (#[trigger] r@[3 + 3 * n + x]
                        matches BufferCommand::DeletePattern { pattern } && pattern@
                        == spec_block_pattern(chain@, self.processed_block_numbers@[x])),
            decreases dropped - j,
        {
            let block = self.processed_block_numbers[j];
            r.push(BufferCommand::DeletePattern { pattern: block_pattern(chain, block) });
            j = j + 1;
            proof {
                assert(r@.subrange(0, 3 + 3 * (n as int)) =~= body);
            }
        }
        r.push(
            BufferCommand::Publish {
                channel: publish_channel(chain),
                block_number: finalized_block_number,
            },
        );
        proof {
            assert(dropped == spec_dropped_count(self.processed_block_numbers@));
            assert(r@.subrange(0, 3 + 3 * (n as int)) =~= body);
            assert(body.subrange(0, 3) =~= head);
            assert(body[0] == head[0]);
            assert(body[1] == head[1]);
            assert(body[2] == head[2]);
            assert(body[0] matches BufferCommand::SetAdd { key, members } && Seq::new(
                members@.len(),
                |i: int| members@[i]@,
            ) =~= spec_bucket_hex_ids(validators@, true));
            assert(body[1] matches BufferCommand::SetAdd { key, members } && Seq::new(
                members@.len(),
                |i: int| members@[i]@,
            ) =~= spec_bucket_hex_ids(validators@, false));
            assert forall|x: int| 0 <= x < 3 + 3 * n implies #[trigger] r@[x] == body[x] by {
                assert(r@.subrange(0, 3 + 3 * (n as int))[x] == r@[x]);
            }
            assert forall|x: int|
                0 <= x < dropped implies (#[trigger] r@[3 + 3 * n + x]
                    matches BufferCommand::DeletePattern { pattern } && pattern@
                    == spec_block_pattern(chain@, self.processed_block_numbers@[x])) by {
                assert(r@[3 + 3 * n + x] == r@.subrange(0, r@.len() - 1)[3 + 3 * n + x]);
            }
        }
        r
    }

    /// Commits a block to the retained history once its planned
    /// pipeline ran to completion: the blocks the plan deleted fall
    /// out, the committed block comes in, and at most
    /// `HISTORY_BLOCK_DEPTH` blocks remain, this one included. On a
    /// failed pipeline this is not called: the history stands
    /// unchanged, nothing was announced, and the next finalized block
    /// retries from scratch.
    pub fn commit_block(&mut self, finalized_block_number: u64)
        ensures
            final(self).wf(),
            final(self).busy == old(self).busy,
            final(self).processed_block_numbers@ == old(self).processed_block_numbers@.subrange(
                spec_dropped_count(old(self).processed_block_numbers@) as int,
                old(self).processed_block_numbers@.len() as int,
            ).push(finalized_block_number),
            final(self).processed_block_numbers@.len() <= HISTORY_BLOCK_DEPTH,
    {
        let ghost old_history = self.processed_block_numbers@;
        let initial_len = self.processed_block_numbers.len();
        let keep_limit: usize = (HISTORY_BLOCK_DEPTH - 1) as usize;
        let mut dropped: usize = 0;
        while self.processed_block_numbers.len() > keep_limit
            invariant
                keep_limit == HISTORY_BLOCK_DEPTH - 1,
                initial_len as nat == old_history.len(),
                self.busy == old(self).busy,
                dropped <= old_history.len(),
                old_history == old(self).processed_block_numbers@,
                dropped == 0 || old_history.len() - dropped >= keep_limit,
                self.processed_block_numbers@ =~= old_history.subrange(
                    dropped as int,
                    old_history.len() as int,
                ),
            decreases self.processed_block_numbers@.len(),
        {
            self.processed_block_numbers.remove(0);
            dropped = dropped + 1;
            proof {
                assert(self.processed_block_numbers@ =~= old_history.subrange(
                    dropped as int,
                    old_history.len() as int,
                ));
            }
        }
        self.processed_block_numbers.push(finalized_block_number);
        proof {
            assert(dropped == spec_dropped_count(old_history));
            assert(self.processed_block_numbers@ =~= old_history.subrange(
                spec_dropped_count(old_history) as int,
                old_history.len() as int,
            ).push(finalized_block_number));
        }
    }
}

/// How many of the retained blocks fall out of the window when one
/// more block is committed.
pub open spec fn spec_dropped_count(history: Seq<u64>) -> nat {
    if history.len() > HISTORY_BLOCK_DEPTH - 1 {
        (history.len() - (HISTORY_BLOCK_DEPTH - 1)) as nat
    } else {
        0
    }
}

proof fn lemma_bucket_contains(vs: Seq<ValidatorDetails>, active: bool)
    ensures
        forall|k: Seq<char>|
            #[trigger] spec_bucket_hex_ids(vs, active).contains(k) <==> exists|i: int|
                0 <= i < vs.len() && #[trigger] vs[i]@.is_active == active && k == spec_hex_of(
                    vs[i]@.account.id,
                ),
    decreases vs.len(),
{
    if vs.len() > 0 {
        lemma_bucket_contains(vs.drop_last(), active);
        let n = vs.len() - 1;
        let whole = spec_bucket_hex_ids(vs, active);
        let prev = spec_bucket_hex_ids(vs.drop_last(), active);
        assert forall|k: Seq<char>| #[trigger] whole.contains(k) implies exists|i: int|
            0 <= i < vs.len() && #[trigger] vs[i]@.is_active == active && k == spec_hex_of(
                vs[i]@.account.id,
            ) by {
            let j = choose|j: int| 0 <= j < whole.len() && whole[j] == k;
            if j < prev.len() {
                assert(prev[j] == k);
                assert(prev.contains(k));
                let i = choose|i: int|
                    0 <= i < vs.drop_last().len() && #[trigger] vs.drop_last()[i]@.is_active
                        == active && k == spec_hex_of(vs.drop_last()[i]@.account.id);
                assert(vs[i]@.is_active == active && k == spec_hex_of(vs[i]@.account.id));
            } else {
                assert(vs.last()@.is_active == active);
                assert(k == spec_hex_of(vs.last()@.account.id));
                assert(vs[n]@.is_active == active && k == spec_hex_of(vs[n]@.account.id));
            }
        }
        assert forall|k: Seq<char>|
            (exists|i: int|
                0 <= i < vs.len() && #[trigger] vs[i]@.is_active == active && k == spec_hex_of(
                    vs[i]@.account.id,
                )) implies #[trigger] whole.contains(k) by {
            let i = choose|i: int|
                0 <= i < vs.len() && #[trigger] vs[i]@.is_active == active && k == spec_hex_of(
                    vs[i]@.account.id,
                );
            if i < n {
                assert(vs.drop_last()[i]@.is_active == active && k == spec_hex_of(
                    vs.drop_last()[i]@.account.id,
                ));
                assert(prev.contains(k));
                let j = choose|j: int| 0 <= j < prev.len() && prev[j] == k;
                assert(whole[j] == k);
            } else {
                assert(whole[whole.len() - 1] == k);
            }
        }
    }
}

/// For every block, the hex ids written to the active and the inactive
/// id set are disjoint, and together they are exactly the ids of the
/// validator list the chain returned.
pub proof fn lemma_bucket_partition(vs: Seq<ValidatorDetails>)
    requires
        forall|i: int, j: int|
            0 <= i < j < vs.len() ==> vs[i]@.account.id != vs[j]@.account.id,
    ensures
        forall|k: Seq<char>|
            !(#[trigger] spec_bucket_hex_ids(vs, true).contains(k) && spec_bucket_hex_ids(
                vs,
                false,
            ).contains(k)),
        forall|i: int|
            0 <= i < vs.len() ==> spec_bucket_hex_ids(vs, #[trigger] vs[i]@.is_active).contains(
                spec_hex_of(vs[i]@.account.id),
            ),
        forall|k: Seq<char>|
            (spec_bucket_hex_ids(vs, true).contains(k) || #[trigger] spec_bucket_hex_ids(
                vs,
                false,
            ).contains(k)) ==> exists|i: int|
                0 <= i < vs.len() && k == spec_hex_of(#[trigger] vs[i]@.account.id),
{
    lemma_bucket_contains(vs, true);
    lemma_bucket_contains(vs, false);
    assert forall|k: Seq<char>|
        !(#[trigger] spec_bucket_hex_ids(vs, true).contains(k) && spec_bucket_hex_ids(
            vs,
            false,
        ).contains(k)) by {
        if spec_bucket_hex_ids(vs, true).contains(k) && spec_bucket_hex_ids(
            vs,
            false,
        ).contains(k) {
            let i = choose|i: int|
                0 <= i < vs.len() && #[trigger] vs[i]@.is_active == true && k == spec_hex_of(
                    vs[i]@.account.id,
                );
            let j = choose|j: int|
                0 <= j < vs.len() && #[trigger] vs[j]@.is_active == false && k == spec_hex_of(
                    vs[j]@.account.id,
                );
            assert(i != j);
            crate::crypto::lemma_hex_round_trip(vs[i]@.account.id);
            crate::crypto::lemma_hex_round_trip(vs[j]@.account.id);
            assert(vs[i]@.account.id == vs[j]@.account.id);
            assert(false);
        }
    }
    assert forall|i: int|
        0 <= i < vs.len() implies spec_bucket_hex_ids(
        vs,
        #[trigger] vs[i]@.is_active,
    ).contains(spec_hex_of(vs[i]@.account.id)) by {
        let k = spec_hex_of(vs[i]@.account.id);
        assert(vs[i]@.is_active == vs[i]@.is_active && k == spec_hex_of(vs[i]@.account.id));
    }
}


} // verus!
