//! What the network reports, as JavaScript gets it.

use vstd::prelude::*;
use vstd::string::*;

use crate::keys::{encode_pubkey, encode_signature, pubkey_text, signature_text};
use crate::number::Number;
use crate::sdk::event::{Clock, ClockCommand, EpochInfo, SimnetEvent};
use crate::text::{option_text, option_texts, texts};

verus! {

/// The network's clock.
#[derive(Clone, Copy, Debug)]
pub struct ClockValue {
    pub slot: Number,
    pub epoch_start_timestamp: Number,
    pub epoch: Number,
    pub leader_schedule_epoch: Number,
    pub unix_timestamp: Number,
}

/// Where in its epoch the network is.
#[derive(Clone, Copy, Debug)]
pub struct EpochInfoValue {
    pub epoch: Number,
    pub slot_index: Number,
    pub slots_in_epoch: Number,
    pub absolute_slot: Number,
    pub block_height: Number,
    pub transaction_count: Option<Number>,
}

/// A report of the network. `kind` tells what it is about; only the fields that belong to that
/// kind are set.
#[derive(Debug)]
pub struct SimnetEventValue {
    pub kind: String,
    pub message: Option<String>,
    pub timestamp: Option<String>,
    pub initial_transaction_count: Option<Number>,
    pub clock: Option<ClockValue>,
    pub epoch_info: Option<EpochInfoValue>,
    pub account_pubkey: Option<String>,
    pub clock_command: Option<String>,
    pub slot_interval_ms: Option<Number>,
    pub transaction_signature: Option<String>,
    pub logs: Option<Vec<String>>,
    pub compute_units_consumed: Option<Number>,
    pub fee: Option<Number>,
    pub error_message: Option<String>,
    pub tag: Option<String>,
    pub profile_key: Option<String>,
    pub profile_slot: Option<Number>,
    pub runbook_id: Option<String>,
    pub runbook_errors: Option<Vec<String>>,
}

/// A report of the network.
pub struct EventView {
    pub kind: Seq<char>,
    pub message: Option<Seq<char>>,
    pub timestamp: Option<Seq<char>>,
    pub initial_transaction_count: Option<Number>,
    pub clock: Option<ClockValue>,
    pub epoch_info: Option<EpochInfoValue>,
    pub account_pubkey: Option<Seq<char>>,
    pub clock_command: Option<Seq<char>>,
    pub slot_interval_ms: Option<Number>,
    pub transaction_signature: Option<Seq<char>>,
    pub logs: Option<Seq<Seq<char>>>,
    pub compute_units_consumed: Option<Number>,
    pub fee: Option<Number>,
    pub error_message: Option<Seq<char>>,
    pub tag: Option<Seq<char>>,
    pub profile_key: Option<Seq<char>>,
    pub profile_slot: Option<Number>,
    pub runbook_id: Option<Seq<char>>,
    pub runbook_errors: Option<Seq<Seq<char>>>,
}

impl View for SimnetEventValue {
    type V = EventView;

    open spec fn view(&self) -> EventView {
        EventView {
            kind: self.kind@,
            message: option_text(self.message),
            timestamp: option_text(self.timestamp),
            initial_transaction_count: self.initial_transaction_count,
            clock: self.clock,
            epoch_info: self.epoch_info,
            account_pubkey: option_text(self.account_pubkey),
            clock_command: option_text(self.clock_command),
            slot_interval_ms: self.slot_interval_ms,
            transaction_signature: option_text(self.transaction_signature),
            logs: option_texts(self.logs),
            compute_units_consumed: self.compute_units_consumed,
            fee: self.fee,
            error_message: option_text(self.error_message),
            tag: option_text(self.tag),
            profile_key: option_text(self.profile_key),
            profile_slot: self.profile_slot,
            runbook_id: option_text(self.runbook_id),
            runbook_errors: option_texts(self.runbook_errors),
        }
    }
}

/// A report of which nothing but its kind is known.
pub open spec fn bare(kind: Seq<char>) -> EventView {
    EventView {
        kind,
        message: None,
        timestamp: None,
        initial_transaction_count: None,
        clock: None,
        epoch_info: None,
        account_pubkey: None,
        clock_command: None,
        slot_interval_ms: None,
        transaction_signature: None,
        logs: None,
        compute_units_consumed: None,
        fee: None,
        error_message: None,
        tag: None,
        profile_key: None,
        profile_slot: None,
        runbook_id: None,
        runbook_errors: None,
    }
}

/// A report with a message.
pub open spec fn messaged(kind: Seq<char>, message: Seq<char>) -> EventView {
    EventView { message: Some(message), ..bare(kind) }
}

/// A log line.
pub open spec fn logged(kind: Seq<char>, timestamp: Seq<char>, message: Seq<char>) -> EventView {
    EventView { timestamp: Some(timestamp), message: Some(message), ..bare(kind) }
}

/// The clock in JavaScript numbers.
pub open spec fn clock_value(clock: Clock) -> ClockValue {
    ClockValue {
        slot: Number::nearest(clock.slot),
        epoch_start_timestamp: Number::nearest_signed(clock.epoch_start_timestamp),
        epoch: Number::nearest(clock.epoch),
        leader_schedule_epoch: Number::nearest(clock.leader_schedule_epoch),
        unix_timestamp: Number::nearest_signed(clock.unix_timestamp),
    }
}

/// The place in the epoch in JavaScript numbers.
pub open spec fn epoch_info_value(info: EpochInfo) -> EpochInfoValue {
    EpochInfoValue {
        epoch: Number::nearest(info.epoch),
        slot_index: Number::nearest(info.slot_index),
        slots_in_epoch: Number::nearest(info.slots_in_epoch),
        absolute_slot: Number::nearest(info.absolute_slot),
        block_height: Number::nearest(info.block_height),
        transaction_count: match info.transaction_count {
            Some(count) => Some(Number::nearest(count)),
            None => None,
        },
    }
}

/// The name of a change to how slots pass.
pub open spec fn command_name(command: ClockCommand) -> Seq<char> {
    match command {
        ClockCommand::Pause => "pause"@,
        ClockCommand::PauseWithConfirmation => "pauseWithConfirmation"@,
        ClockCommand::Resume => "resume"@,
        ClockCommand::Toggle => "toggle"@,
        ClockCommand::UpdateSlotInterval(_) => "updateSlotInterval"@,
    }
}

/// What JavaScript gets for a report of the network.
pub open spec fn event_value(event: SimnetEvent) -> EventView {
    match event {
        SimnetEvent::Ready(count) => EventView {
            initial_transaction_count: Some(Number::nearest(count)),
            ..bare("ready"@)
        },
        SimnetEvent::Connected(url) => messaged("connected"@, url@),
        SimnetEvent::Aborted(reason) => messaged("aborted"@, reason@),
        SimnetEvent::Shutdown => bare("shutdown"@),
        SimnetEvent::SystemClockUpdated(clock) => EventView {
            clock: Some(clock_value(clock)),
            ..bare("systemClockUpdated"@)
        },
        SimnetEvent::ClockUpdate(command) => EventView {
            clock_command: Some(command_name(command)),
            slot_interval_ms: match command {
                ClockCommand::UpdateSlotInterval(ms) => Some(Number::nearest(ms)),
                _ => None,
            },
            ..bare("clockUpdate"@)
        },
        SimnetEvent::EpochInfoUpdate(info) => EventView {
            epoch_info: Some(epoch_info_value(info)),
            ..bare("epochInfoUpdate"@)
        },
        SimnetEvent::BlockHashExpired => bare("blockHashExpired"@),
        SimnetEvent::InfoLog(timestamp, message) => logged("infoLog"@, timestamp@, message@),
        SimnetEvent::ErrorLog(timestamp, message) => logged("errorLog"@, timestamp@, message@),
        SimnetEvent::WarnLog(timestamp, message) => logged("warnLog"@, timestamp@, message@),
        SimnetEvent::DebugLog(timestamp, message) => logged("debugLog"@, timestamp@, message@),
        SimnetEvent::PluginLoaded(name) => messaged("pluginLoaded"@, name@),
        SimnetEvent::TransactionReceived { timestamp, signatures } => EventView {
            timestamp: Some(timestamp@),
            transaction_signature: if signatures@.len() > 0 {
                Some(signature_text(signatures@[0]@))
            } else {
                None
            },
            ..bare("transactionReceived"@)
        },
        SimnetEvent::TransactionProcessed { timestamp, metadata, error } => EventView {
            timestamp: Some(timestamp@),
            transaction_signature: Some(signature_text(metadata.signature@)),
            logs: Some(texts(metadata.logs@)),
            compute_units_consumed: Some(Number::nearest(metadata.compute_units_consumed)),
            fee: Some(Number::nearest(metadata.fee)),
            error_message: option_text(error),
            ..bare("transactionProcessed"@)
        },
        SimnetEvent::AccountUpdate { timestamp, pubkey } => EventView {
            timestamp: Some(timestamp@),
            account_pubkey: Some(pubkey_text(pubkey@)),
            ..bare("accountUpdate"@)
        },
        SimnetEvent::TaggedProfile { result, tag, timestamp } => EventView {
            timestamp: Some(timestamp@),
            tag: Some(tag@),
            profile_key: Some(result.key@),
            profile_slot: Some(Number::nearest(result.slot)),
            logs: option_texts(result.log_messages),
            compute_units_consumed: Some(Number::nearest(result.compute_units_consumed)),
            error_message: option_text(result.error_message),
            ..bare("taggedProfile"@)
        },
        SimnetEvent::RunbookStarted(id) => EventView {
            runbook_id: Some(id@),
            ..bare("runbookStarted"@)
        },
        SimnetEvent::RunbookCompleted(id, errors) => EventView {
            runbook_id: Some(id@),
            runbook_errors: option_texts(errors),
            ..bare("runbookCompleted"@)
        },
    }
}

/// The reports of the network in their order.
pub open spec fn event_values(values: Seq<SimnetEventValue>) -> Seq<EventView> {
    Seq::new(values.len(), |i: int| values[i]@)
}

impl ClockValue {
    /// The clock in JavaScript numbers.
    pub fn from_clock(clock: Clock) -> (r: ClockValue)
        ensures
            r == clock_value(clock),
    {
        ClockValue {
            slot: Number::from_u64(clock.slot),
            epoch_start_timestamp: Number::from_i64(clock.epoch_start_timestamp),
            epoch: Number::from_u64(clock.epoch),
            leader_schedule_epoch: Number::from_u64(clock.leader_schedule_epoch),
            unix_timestamp: Number::from_i64(clock.unix_timestamp),
        }
    }
}

impl EpochInfoValue {
    /// The place in the epoch in JavaScript numbers.
    pub fn from_epoch_info(value: EpochInfo) -> (r: EpochInfoValue)
        ensures
            r == epoch_info_value(value),
    {
        EpochInfoValue {
            epoch: Number::from_u64(value.epoch),
            slot_index: Number::from_u64(value.slot_index),
            slots_in_epoch: Number::from_u64(value.slots_in_epoch),
            absolute_slot: Number::from_u64(value.absolute_slot),
            block_height: Number::from_u64(value.block_height),
            transaction_count: match value.transaction_count {
                Some(count) => Some(Number::from_u64(count)),
                None => None,
            },
        }
    }
}

impl From<EpochInfo> for EpochInfoValue {
    fn from(value: EpochInfo) -> (r: EpochInfoValue) {
        EpochInfoValue::from_epoch_info(value)
    }
}

impl vstd::std_specs::convert::FromSpecImpl<EpochInfo> for EpochInfoValue {
    open spec fn obeys_from_spec() -> bool {
        true
    }

    open spec fn from_spec(v: EpochInfo) -> EpochInfoValue {
        epoch_info_value(v)
    }
}

impl SimnetEventValue {
    /// A report of which nothing but its kind is known.
    pub fn new(kind: &str) -> (r: SimnetEventValue)
        ensures
            r@ == bare(kind@),
    {
        SimnetEventValue {
            kind: kind.to_owned(),
            message: None,
            timestamp: None,
            initial_transaction_count: None,
            clock: None,
            epoch_info: None,
            account_pubkey: None,
            clock_command: None,
            slot_interval_ms: None,
            transaction_signature: None,
            logs: None,
            compute_units_consumed: None,
            fee: None,
            error_message: None,
            tag: None,
            profile_key: None,
            profile_slot: None,
            runbook_id: None,
            runbook_errors: None,
        }
    }

    fn with_message(kind: &str, message: String) -> (r: SimnetEventValue)
        ensures
            r@ == messaged(kind@, message@),
    {
        let mut value = SimnetEventValue::new(kind);
        value.message = Some(message);
        value
    }

    /// What JavaScript gets for a report of the network.
    pub fn from(event: SimnetEvent) -> (r: SimnetEventValue)
        ensures
            r@ == event_value(event),
    {
        match event {
            SimnetEvent::Ready(count) => {
                let mut value = SimnetEventValue::new("ready");
                value.initial_transaction_count = Some(Number::from_u64(count));
                value
            },
            SimnetEvent::Connected(url) => SimnetEventValue::with_message("connected", url),
            SimnetEvent::Aborted(reason) => SimnetEventValue::with_message("aborted", reason),
            SimnetEvent::Shutdown => SimnetEventValue::new("shutdown"),
            SimnetEvent::SystemClockUpdated(clock) => {
                let mut value = SimnetEventValue::new("systemClockUpdated");
                value.clock = Some(ClockValue::from_clock(clock));
                value
            },
            SimnetEvent::ClockUpdate(command) => {
                let mut value = SimnetEventValue::new("clockUpdate");
                match command {
                    ClockCommand::Pause => {
                        value.clock_command = Some("pause".to_owned());
                    },
                    ClockCommand::PauseWithConfirmation => {
                        value.clock_command = Some("pauseWithConfirmation".to_owned());
                    },
                    ClockCommand::Resume => {
                        value.clock_command = Some("resume".to_owned());
                    },
                    ClockCommand::Toggle => {
                        value.clock_command = Some("toggle".to_owned());
                    },
                    ClockCommand::UpdateSlotInterval(ms) => {
                        value.clock_command = Some("updateSlotInterval".to_owned());
                        value.slot_interval_ms = Some(Number::from_u64(ms));
                    },
                }
                value
            },
            SimnetEvent::EpochInfoUpdate(info) => {
                let mut value = SimnetEventValue::new("epochInfoUpdate");
                value.epoch_info = Some(EpochInfoValue::from(info));
                value
            },
            SimnetEvent::BlockHashExpired => SimnetEventValue::new("blockHashExpired"),
            SimnetEvent::InfoLog(timestamp, message) => log_event("infoLog", timestamp, message),
            SimnetEvent::ErrorLog(timestamp, message) => log_event("errorLog", timestamp, message),
            SimnetEvent::WarnLog(timestamp, message) => log_event("warnLog", timestamp, message),
            SimnetEvent::DebugLog(timestamp, message) => log_event("debugLog", timestamp, message),
            SimnetEvent::PluginLoaded(name) => SimnetEventValue::with_message("pluginLoaded", name),
            SimnetEvent::TransactionReceived { timestamp, signatures } => {
                let mut value = SimnetEventValue::new("transactionReceived");
                value.timestamp = Some(timestamp);
                if signatures.len() > 0 {
                    value.transaction_signature = Some(encode_signature(&signatures[0]));
                }
                value
            },
            SimnetEvent::TransactionProcessed { timestamp, metadata, error } => {
                let mut value = SimnetEventValue::new("transactionProcessed");
                value.timestamp = Some(timestamp);
                value.transaction_signature = Some(encode_signature(&metadata.signature));
                value.logs = Some(metadata.logs);
                value.compute_units_consumed = Some(
                    Number::from_u64(metadata.compute_units_consumed),
                );
                value.fee = Some(Number::from_u64(metadata.fee));
                value.error_message = error;
                value
            },
            SimnetEvent::AccountUpdate { timestamp, pubkey } => {
                let mut value = SimnetEventValue::new("accountUpdate");
                value.timestamp = Some(timestamp);
                value.account_pubkey = Some(encode_pubkey(&pubkey));
                value
            },
            SimnetEvent::TaggedProfile { result, tag, timestamp } => {
                let mut value = SimnetEventValue::new("taggedProfile");
                value.timestamp = Some(timestamp);
                value.tag = Some(tag);
                value.profile_key = Some(result.key);
                value.profile_slot = Some(Number::from_u64(result.slot));
                value.logs = result.log_messages;
                value.compute_units_consumed = Some(
                    Number::from_u64(result.compute_units_consumed),
                );
                value.error_message = result.error_message;
                value
            },
            SimnetEvent::RunbookStarted(id) => {
                let mut value = SimnetEventValue::new("runbookStarted");
                value.runbook_id = Some(id);
                value
            },
            SimnetEvent::RunbookCompleted(id, errors) => {
                let mut value = SimnetEventValue::new("runbookCompleted");
                value.runbook_id = Some(id);
                value.runbook_errors = errors;
                value
            },
        }
    }
}

/// What JavaScript gets for a log line.
pub fn log_event(kind: &str, timestamp: String, message: String) -> (r: SimnetEventValue)
    ensures
        r@ == logged(kind@, timestamp@, message@),
{
    let mut value = SimnetEventValue::new(kind);
    value.timestamp = Some(timestamp);
    value.message = Some(message);
    value
}

/// The position of a report's variant among the variants.
pub open spec fn variant(event: SimnetEvent) -> int {
    match event {
        SimnetEvent::Ready(_) => 0,
        SimnetEvent::Connected(_) => 1,
        SimnetEvent::Aborted(_) => 2,
        SimnetEvent::Shutdown => 3,
        SimnetEvent::SystemClockUpdated(_) => 4,
        SimnetEvent::ClockUpdate(_) => 5,
        SimnetEvent::EpochInfoUpdate(_) => 6,
        SimnetEvent::BlockHashExpired => 7,
        SimnetEvent::InfoLog(_, _) => 8,
        SimnetEvent::ErrorLog(_, _) => 9,
        SimnetEvent::WarnLog(_, _) => 10,
        SimnetEvent::DebugLog(_, _) => 11,
        SimnetEvent::PluginLoaded(_) => 12,
        SimnetEvent::TransactionReceived { .. } => 13,
        SimnetEvent::TransactionProcessed { .. } => 14,
        SimnetEvent::AccountUpdate { .. } => 15,
        SimnetEvent::TaggedProfile { .. } => 16,
        SimnetEvent::RunbookStarted(_) => 17,
        SimnetEvent::RunbookCompleted(_, _) => 18,
    }
}

/// The variant that a kind stands for, told by its length and its first letter.
spec fn variant_of_kind(kind: Seq<char>) -> int {
    match (kind.len() as u64, kind[0]) {
        (5, _) => 0,
        (9, _) => 1,
        (7, 'a') => 2,
        (8, 's') => 3,
        (18, _) => 4,
        (11, _) => 5,
        (15, _) => 6,
        (16, 'b') => 7,
        (7, 'i') => 8,
        (8, 'e') => 9,
        (7, _) => 10,
        (8, _) => 11,
        (12, _) => 12,
        (19, _) => 13,
        (20, _) => 14,
        (13, 'a') => 15,
        (13, _) => 16,
        (14, _) => 17,
        _ => 18,
    }
}

proof fn lemma_variant_of_kind(event: SimnetEvent)
    ensures
        variant(event) == variant_of_kind(event_value(event).kind),
{
    match event {
        SimnetEvent::Ready(_) => reveal_strlit("ready"),
        SimnetEvent::Connected(_) => reveal_strlit("connected"),
        SimnetEvent::Aborted(_) => reveal_strlit("aborted"),
        SimnetEvent::Shutdown => reveal_strlit("shutdown"),
        SimnetEvent::SystemClockUpdated(_) => reveal_strlit("systemClockUpdated"),
        SimnetEvent::ClockUpdate(_) => reveal_strlit("clockUpdate"),
        SimnetEvent::EpochInfoUpdate(_) => reveal_strlit("epochInfoUpdate"),
        SimnetEvent::BlockHashExpired => reveal_strlit("blockHashExpired"),
        SimnetEvent::InfoLog(_, _) => reveal_strlit("infoLog"),
        SimnetEvent::ErrorLog(_, _) => reveal_strlit("errorLog"),
        SimnetEvent::WarnLog(_, _) => reveal_strlit("warnLog"),
        SimnetEvent::DebugLog(_, _) => reveal_strlit("debugLog"),
        SimnetEvent::PluginLoaded(_) => reveal_strlit("pluginLoaded"),
        SimnetEvent::TransactionReceived { .. } => reveal_strlit("transactionReceived"),
        SimnetEvent::TransactionProcessed { .. } => reveal_strlit("transactionProcessed"),
        SimnetEvent::AccountUpdate { .. } => reveal_strlit("accountUpdate"),
        SimnetEvent::TaggedProfile { .. } => reveal_strlit("taggedProfile"),
        SimnetEvent::RunbookStarted(_) => reveal_strlit("runbookStarted"),
        SimnetEvent::RunbookCompleted(_, _) => reveal_strlit("runbookCompleted"),
    }
}

/// The kind tells the reports apart: two reports of the same kind are of the same variant.
pub proof fn law_kind_identifies_variant(a: SimnetEvent, b: SimnetEvent)
    requires
        event_value(a).kind == event_value(b).kind,
    ensures
        variant(a) == variant(b),
{
    lemma_variant_of_kind(a);
    lemma_variant_of_kind(b);
}

} // verus!
