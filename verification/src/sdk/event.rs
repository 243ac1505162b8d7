//! What a running network reports.

use vstd::prelude::*;

use crate::keys::{Pubkey, Signature};

verus! {

/// The network's clock.
#[derive(Clone, Copy, Debug)]
pub struct Clock {
    pub slot: u64,
    pub epoch_start_timestamp: i64,
    pub epoch: u64,
    pub leader_schedule_epoch: u64,
    pub unix_timestamp: i64,
}

/// Where in its epoch the network is.
#[derive(Clone, Copy, Debug)]
pub struct EpochInfo {
    pub epoch: u64,
    pub slot_index: u64,
    pub slots_in_epoch: u64,
    pub absolute_slot: u64,
    pub block_height: u64,
    pub transaction_count: Option<u64>,
}

/// A change to how slots pass.
#[derive(Clone, Copy, Debug, PartialEq, Eq, Structural)]
pub enum ClockCommand {
    Pause,
    PauseWithConfirmation,
    Resume,
    Toggle,
    /// The new length of a slot in milliseconds.
    UpdateSlotInterval(u64),
}

/// What is known of a processed transaction.
#[derive(Debug)]
pub struct TransactionMetadata {
    pub signature: Signature,
    pub logs: Vec<String>,
    pub compute_units_consumed: u64,
    pub fee: u64,
}

/// The profile of a transaction.
#[derive(Debug)]
pub struct ProfileResult {
    pub key: String,
    pub slot: u64,
    pub log_messages: Option<Vec<String>>,
    pub compute_units_consumed: u64,
    pub error_message: Option<String>,
}

/// What a running network reports. Points in time are in RFC 3339 text, errors in their own text.
#[derive(Debug)]
pub enum SimnetEvent {
    /// The network is up, with this many transactions in its history.
    Ready(u64),
    Connected(String),
    Aborted(String),
    Shutdown,
    SystemClockUpdated(Clock),
    ClockUpdate(ClockCommand),
    EpochInfoUpdate(EpochInfo),
    BlockHashExpired,
    InfoLog(String, String),
    ErrorLog(String, String),
    WarnLog(String, String),
    DebugLog(String, String),
    PluginLoaded(String),
    TransactionReceived { timestamp: String, signatures: Vec<Signature> },
    TransactionProcessed {
        timestamp: String,
        metadata: TransactionMetadata,
        error: Option<String>,
    },
    AccountUpdate { timestamp: String, pubkey: Pubkey },
    TaggedProfile { result: ProfileResult, tag: String, timestamp: String },
    RunbookStarted(String),
    RunbookCompleted(String, Option<Vec<String>>),
}

} // verus!
