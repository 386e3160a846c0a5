//! Core of a real-time validator telemetry pipeline for Substrate-based
//! chains: domain types for validators and network status, a structural
//! diff protocol over them, stable change-detection hashing, and the
//! per-block planning logic of the list updater and list server.
use vstd::prelude::*;

pub mod config;
pub mod crypto;
pub mod diff;
pub mod hashing;
pub mod mirror;
pub mod scale;
pub mod report;
pub mod server;
pub mod stats;
pub mod updater;
pub mod substrate;
pub mod status;
pub mod subvt;
pub mod strings;

verus! {

} // verus!
