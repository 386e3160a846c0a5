//! The live network status pipeline: a single aggregated record,
//! re-published every block, with field diffs for subscribers that
//! already hold a snapshot.
use vstd::prelude::*;

use crate::diff::{
    spec_status_diff, LiveNetworkStatusDiff, LiveNetworkStatusDiffV,
};
use crate::subvt::{LiveNetworkStatus, LiveNetworkStatusV};

verus! {

/// The update message pushed to status subscribers: the full record on
/// first contact, a field diff against a named base block afterwards.
#[derive(Debug)]
pub struct LiveNetworkStatusUpdate {
    pub network: String,
    pub status: Option<LiveNetworkStatus>,
    pub diff_base_block_number: Option<u64>,
    pub diff: Option<LiveNetworkStatusDiff>,
}

/// Mathematical value of a status update message.
pub ghost struct LiveNetworkStatusUpdateV {
    pub network: Seq<char>,
    pub status: Option<LiveNetworkStatusV>,
    pub diff_base_block_number: Option<u64>,
    pub diff: Option<LiveNetworkStatusDiffV>,
}

impl View for LiveNetworkStatusUpdate {
    type V = LiveNetworkStatusUpdateV;

    open spec fn view(&self) -> LiveNetworkStatusUpdateV {
        LiveNetworkStatusUpdateV {
            network: self.network@,
            status: match self.status {
                Some(s) => Some(s@),
                None => None,
            },
            diff_base_block_number: self.diff_base_block_number,
            diff: match self.diff {
                Some(d) => Some(d@),
                None => None,
            },
        }
    }
}

/// The status server's in-process state: the last status broadcast and
/// the block it belongs to.
pub struct LiveNetworkStatusServer {
    pub status: Option<LiveNetworkStatus>,
    pub last_finalized_block_number: u64,
}

impl LiveNetworkStatusServer {
    /// A fresh server: no status seen, no block processed.
    pub fn new() -> (r: LiveNetworkStatusServer)
        ensures
            r.status is None,
            r.last_finalized_block_number == 0,
    {
        LiveNetworkStatusServer { status: None, last_finalized_block_number: 0 }
    }

    /// Whether a notification for a block must be processed: a repeat
    /// of the last processed block number is a no-op.
    pub fn should_process(&self, finalized_block_number: u64) -> (r: bool)
        ensures
            r == (finalized_block_number != self.last_finalized_block_number),
    {
        finalized_block_number != self.last_finalized_block_number
    }

    /// The snapshot sent to a new subscriber: the full record, no diff.
    pub fn initial_update(network: &str, status: &LiveNetworkStatus) -> (r:
        LiveNetworkStatusUpdate)
        ensures
            r@.network == network@,
            r@.status == Some(status@),
            r@.diff_base_block_number is None,
            r@.diff is None,
    {
        LiveNetworkStatusUpdate {
            network: network.to_owned(),
            status: Some(status.clone()),
            diff_base_block_number: None,
            diff: None,
        }
    }

    /// One pub/sub notification: against a held status the message
    /// carries only the field diff and the base block it applies to;
    /// with none held yet it carries the full record. The new status
    /// and block replace the held ones either way.
    pub fn on_new_status(
        &mut self,
        network: &str,
        finalized_block_number: u64,
        new_status: &LiveNetworkStatus,
    ) -> (r: LiveNetworkStatusUpdate)
        ensures
            final(self).last_finalized_block_number == finalized_block_number,
            final(self).status matches Some(s) && s@ == new_status@,
            r@.network == network@,
            match old(self).status {
                Some(prev) => {
                    &&& r@.status is None
                    &&& r@.diff_base_block_number == Some(
                        old(self).last_finalized_block_number,
                    )
                    &&& r@.diff == Some(spec_status_diff(prev@, new_status@))
                },
                None => {
                    &&& r@.status == Some(new_status@)
                    &&& r@.diff_base_block_number is None
                    &&& r@.diff is None
                },
            },
    {
        let r = match &self.status {
            Some(prev) => {
                let d = prev.get_diff(new_status);
                LiveNetworkStatusUpdate {
                    network: network.to_owned(),
                    status: None,
                    diff_base_block_number: Some(self.last_finalized_block_number),
                    diff: Some(d),
                }
            },
            None => LiveNetworkStatusUpdate {
                network: network.to_owned(),
                status: Some(new_status.clone()),
                diff_base_block_number: None,
                diff: None,
            },
        };
        self.status = Some(new_status.clone());
        self.last_finalized_block_number = finalized_block_number;
        r
    }
}

} // verus!
