//! The reporting service's input checking, and the row conversions the
//! persistence layer hands its callers. The HTTP and SQL edges live at
//! the process boundary.
use vstd::prelude::*;

use crate::crypto::AccountId;

verus! {

/// Why an era report request is rejected.
#[derive(Clone, Copy, Debug, PartialEq, Eq, Structural)]
pub enum EraReportError {
    EndBeforeStart,
    RangeTooWide,
}

/// The reporting REST service.
#[derive(Debug)]
pub struct ReportService;

impl ReportService {
    /// Checks an era report request: the end era, where given, must
    /// not precede the start, and the span must stay within the
    /// configured maximum; the resolved range is a single era where no
    /// end is given.
    pub fn validate_era_report_range(
        start_era_index: u32,
        maybe_end_era_index: Option<u32>,
        max_era_index_range: u32,
    ) -> (r: Result<(u32, u32), EraReportError>)
        ensures
            match r {
                Ok((s, e)) => {
                    &&& s == start_era_index
                    &&& e == (match maybe_end_era_index {
                        Some(end) => end,
                        None => start_era_index,
                    })
                    &&& (maybe_end_era_index matches Some(end) ==> end >= start_era_index && end
                        - start_era_index <= max_era_index_range)
                },
                Err(EraReportError::EndBeforeStart) => maybe_end_era_index matches Some(end)
                    && end < start_era_index,
                Err(EraReportError::RangeTooWide) => maybe_end_era_index matches Some(end) && end
                    >= start_era_index && end - start_era_index > max_era_index_range,
            },
    {
        if let Some(end_era_index) = maybe_end_era_index {
            if end_era_index < start_era_index {
                return Err(EraReportError::EndBeforeStart);
            }
            let era_count = end_era_index - start_era_index;
            if era_count > max_era_index_range {
                return Err(EraReportError::RangeTooWide);
            }
            Ok((start_era_index, end_era_index))
        } else {
            Ok((start_era_index, start_era_index))
        }
    }
}

/// A validate-intent extrinsic as read back from the relational store.
#[derive(Clone, Debug)]
pub struct ValidateExtrinsic {
    pub id: u32,
    pub block_hash: String,
    pub extrinsic_index: u32,
    pub is_nested_call: bool,
    pub stash_account_id: AccountId,
    pub controller_account_id: AccountId,
    pub commission_per_billion: u64,
    pub blocks_nominations: bool,
    pub is_successful: bool,
}

/// A supported network as the application store describes it.
#[derive(Clone, Debug)]
pub struct Network {
    pub id: u32,
    pub hash: String,
    pub name: String,
    pub live_network_status_service_url: Option<String>,
    pub report_service_url: Option<String>,
    pub validator_details_service_url: Option<String>,
    pub validator_list_service_url: Option<String>,
}

impl Network {
    /// Builds a network from the signed row the store returns; row ids
    /// are non-negative by schema.
    pub fn from_db_row(
        id: i64,
        hash: String,
        name: String,
        live_network_status_service_url: Option<String>,
        report_service_url: Option<String>,
        validator_details_service_url: Option<String>,
        validator_list_service_url: Option<String>,
    ) -> (r: Result<Network, ()>)
        ensures
            match r {
                Ok(n) => {
                    &&& 0 <= id <= u32::MAX
                    &&& n.id == id
                    &&& n.hash@ == hash@
                    &&& n.name@ == name@
                    &&& crate::substrate::view_opt_string(n.live_network_status_service_url)
                        == crate::substrate::view_opt_string(live_network_status_service_url)
                    &&& crate::substrate::view_opt_string(n.report_service_url)
                        == crate::substrate::view_opt_string(report_service_url)
                    &&& crate::substrate::view_opt_string(n.validator_details_service_url)
                        == crate::substrate::view_opt_string(validator_details_service_url)
                    &&& crate::substrate::view_opt_string(n.validator_list_service_url)
                        == crate::substrate::view_opt_string(validator_list_service_url)
                },
                Err(_) => !(0 <= id <= u32::MAX),
            },
    {
        if id < 0 || id > u32::MAX as i64 {
            return Err(());
        }
        Ok(
            Network {
                id: id as u32,
                hash,
                name,
                live_network_status_service_url,
                report_service_url,
                validator_details_service_url,
                validator_list_service_url,
            },
        )
    }
}

/// A notification channel name as the application store lists it.
#[derive(Clone, Debug)]
pub struct NotificationChannel {
    pub name: String,
}

/// A notification type as the application store lists it.
#[derive(Clone, Debug)]
pub struct NotificationType {
    pub id: u32,
    pub code: String,
}

/// An application user.
#[derive(Clone, Debug)]
pub struct User {
    pub id: u32,
    pub public_key_hex: String,
}

/// Whether a row count names an existing user.
pub fn user_count_exists(record_count: i64) -> (r: bool)
    ensures
        r == (record_count > 0),
{
    record_count > 0
}

} // verus!
