//! What the network's reports become for JavaScript.
//!
//! A report is looked at field by field: which reports have the field, and what it holds.

use vstd::prelude::*;

use crate::keys::{pubkey_text, reads_as, signature_text, Pubkey};
use crate::node::args::{Error, Status};
use crate::node::surfnet::{
    finish, finish_with_address, finish_with_epoch_info, KeypairInfo, Surfnet,
};
use crate::node::value::{
    event_value, event_values, ClockValue, EpochInfoValue, SimnetEventValue,
};
use crate::number::Number;
use crate::sdk::event::{Clock, ClockCommand, EpochInfo, SimnetEvent};
use crate::sdk::stop::{StopAction, Stopping};
use crate::text::texts;

verus! {

/// Whether two lists hold the same texts in the same order.
pub open spec fn same_texts(a: Seq<String>, b: Seq<String>) -> bool {
    a.len() == b.len() && forall|i: int| 0 <= i < a.len() ==> (#[trigger] a[i])@ == b[i]@
}

/// Whether an optional list is there and holds these texts in this order.
pub open spec fn has_texts(list: Option<Vec<String>>, wanted: Seq<String>) -> bool {
    list matches Some(found) && same_texts(found@, wanted)
}

/// Whether an optional text is there and holds these characters.
pub open spec fn has_text(text: Option<String>, wanted: String) -> bool {
    text matches Some(found) && found@ == wanted@
}

proof fn lemma_same_texts(a: Seq<String>, b: Seq<String>)
    requires
        texts(a) == texts(b),
    ensures
        same_texts(a, b),
{
    assert(texts(a).len() == a.len() && texts(b).len() == b.len());
    assert forall|i: int| 0 <= i < a.len() implies (#[trigger] a[i])@ == b[i]@ by {
        assert(texts(a)[i] == a[i]@);
        assert(texts(b)[i] == b[i]@);
    }
}

/// The report of a processed transaction carries all of the transaction's logs, in order, whether or
/// not the transaction failed, with its signature, its cost and its fee. It carries an error exactly
/// when the transaction failed.
pub proof fn law_processed_transaction(event: SimnetEvent, value: SimnetEventValue)
    requires
        call_ensures(SimnetEventValue::from, (event,), value),
    ensures
        event matches SimnetEvent::TransactionProcessed { timestamp, metadata, error } ==> {
            &&& value.kind@ == "transactionProcessed"@
            &&& has_text(value.timestamp, timestamp)
            &&& has_texts(value.logs, metadata.logs@)
            &&& value.transaction_signature matches Some(text) && text@ == signature_text(
                metadata.signature@,
            )
            &&& value.compute_units_consumed == Some(
                Number::nearest(metadata.compute_units_consumed),
            )
            &&& value.fee == Some(Number::nearest(metadata.fee))
            &&& value.error_message is Some <==> error is Some
            &&& error matches Some(reason) ==> has_text(value.error_message, reason)
        },
{
    if let SimnetEvent::TransactionProcessed { timestamp, metadata, error } = event {
        assert(value@.logs == Some(texts(metadata.logs@)));
        lemma_same_texts(value.logs->Some_0@, metadata.logs@);
    }
}

/// Logs and costs are reported of processed and of profiled transactions, fees of processed ones
/// alone. A profile carries its logs exactly when there are some.
pub proof fn law_transaction_fields(event: SimnetEvent, value: SimnetEventValue)
    requires
        call_ensures(SimnetEventValue::from, (event,), value),
    ensures
        value.logs is Some <==> event is TransactionProcessed || (event matches
            SimnetEvent::TaggedProfile { result, .. } && result.log_messages is Some),
        event matches SimnetEvent::TaggedProfile { result, .. } ==> (
        result.log_messages matches Some(logs) ==> has_texts(value.logs, logs@)),
        value.compute_units_consumed is Some <==> event is TransactionProcessed
            || event is TaggedProfile,
        event matches SimnetEvent::TaggedProfile { result, .. } ==> value.compute_units_consumed
            == Some(Number::nearest(result.compute_units_consumed)),
        value.fee is Some <==> event is TransactionProcessed,
        value.error_message is Some <==> (event matches SimnetEvent::TransactionProcessed {
            error,
            ..
        } && error is Some) || (event matches SimnetEvent::TaggedProfile { result, .. }
            && result.error_message is Some),
        event matches SimnetEvent::TaggedProfile { result, .. } ==> (
        result.error_message matches Some(reason) ==> has_text(value.error_message, reason)),
        value.transaction_signature is Some <==> event is TransactionProcessed || (event matches
            SimnetEvent::TransactionReceived { signatures, .. } && signatures@.len() > 0),
        event matches SimnetEvent::TransactionReceived { signatures, .. } ==> (signatures@.len() > 0
            ==> (value.transaction_signature matches Some(text) && text@ == signature_text(
            signatures@[0]@,
        ))),
{
    if let SimnetEvent::TaggedProfile { result, .. } = event {
        if let Some(logs) = result.log_messages {
            assert(value@.logs == Some(texts(logs@)));
            lemma_same_texts(value.logs->Some_0@, logs@);
        }
    }
}

/// A tag, the key and the slot of a profile are reported of profiles alone, an account of account
/// updates alone, each as it is.
pub proof fn law_profile_and_account_fields(event: SimnetEvent, value: SimnetEventValue)
    requires
        call_ensures(SimnetEventValue::from, (event,), value),
    ensures
        value.tag is Some <==> event is TaggedProfile,
        value.profile_key is Some <==> event is TaggedProfile,
        value.profile_slot is Some <==> event is TaggedProfile,
        event matches SimnetEvent::TaggedProfile { result, tag, .. } ==> {
            &&& has_text(value.tag, tag)
            &&& has_text(value.profile_key, result.key)
            &&& value.profile_slot == Some(Number::nearest(result.slot))
        },
        value.account_pubkey is Some <==> event is AccountUpdate,
        event matches SimnetEvent::AccountUpdate { pubkey, .. } ==> (
        value.account_pubkey matches Some(text) && text@ == pubkey_text(pubkey@)),
{
}

/// A message is reported of log lines, connections, failures and plugins; a point in time of log
/// lines, transactions, accounts and profiles; each as it is.
pub proof fn law_message_and_timestamp(event: SimnetEvent, value: SimnetEventValue)
    requires
        call_ensures(SimnetEventValue::from, (event,), value),
    ensures
        match event {
            SimnetEvent::Connected(text) => has_text(value.message, text),
            SimnetEvent::Aborted(text) => has_text(value.message, text),
            SimnetEvent::PluginLoaded(text) => has_text(value.message, text),
            SimnetEvent::InfoLog(_, text) => has_text(value.message, text),
            SimnetEvent::ErrorLog(_, text) => has_text(value.message, text),
            SimnetEvent::WarnLog(_, text) => has_text(value.message, text),
            SimnetEvent::DebugLog(_, text) => has_text(value.message, text),
            _ => value.message is None,
        },
        match event {
            SimnetEvent::InfoLog(time, _) => has_text(value.timestamp, time),
            SimnetEvent::ErrorLog(time, _) => has_text(value.timestamp, time),
            SimnetEvent::WarnLog(time, _) => has_text(value.timestamp, time),
            SimnetEvent::DebugLog(time, _) => has_text(value.timestamp, time),
            SimnetEvent::TransactionReceived { timestamp, .. } => has_text(
                value.timestamp,
                timestamp,
            ),
            SimnetEvent::TransactionProcessed { timestamp, .. } => has_text(
                value.timestamp,
                timestamp,
            ),
            SimnetEvent::AccountUpdate { timestamp, .. } => has_text(value.timestamp, timestamp),
            SimnetEvent::TaggedProfile { timestamp, .. } => has_text(value.timestamp, timestamp),
            _ => value.timestamp is None,
        },
{
}

/// The clock, the change to how slots pass, the place in the epoch and the number of transactions
/// are each reported by one kind of report alone. The length of a slot is reported where it changes.
pub proof fn law_clock_fields(event: SimnetEvent, value: SimnetEventValue)
    requires
        call_ensures(SimnetEventValue::from, (event,), value),
    ensures
        value.initial_transaction_count is Some <==> event is Ready,
        event matches SimnetEvent::Ready(count) ==> value.initial_transaction_count == Some(
            Number::nearest(count),
        ),
        value.clock is Some <==> event is SystemClockUpdated,
        event matches SimnetEvent::SystemClockUpdated(clock) ==> (value.clock matches Some(shown)
            && shows_clock(shown, clock)),
        value.epoch_info is Some <==> event is EpochInfoUpdate,
        event matches SimnetEvent::EpochInfoUpdate(info) ==> (value.epoch_info matches Some(shown)
            && shows_epoch_info(shown, info)),
        value.clock_command is Some <==> event is ClockUpdate,
        value.slot_interval_ms is Some <==> (event matches SimnetEvent::ClockUpdate(command)
            && command is UpdateSlotInterval),
        event matches SimnetEvent::ClockUpdate(command) ==> (value.clock_command matches Some(name)
            && match command {
            ClockCommand::Pause => name@ == "pause"@,
            ClockCommand::PauseWithConfirmation => name@ == "pauseWithConfirmation"@,
            ClockCommand::Resume => name@ == "resume"@,
            ClockCommand::Toggle => name@ == "toggle"@,
            ClockCommand::UpdateSlotInterval(ms) => name@ == "updateSlotInterval"@
                && value.slot_interval_ms == Some(Number::nearest(ms)),
        }),
{
}

/// Whether each part of a clock is shown by the double nearest to it.
pub open spec fn shows_clock(shown: ClockValue, clock: Clock) -> bool {
    &&& shown.slot == Number::nearest(clock.slot)
    &&& shown.epoch_start_timestamp == Number::nearest_signed(clock.epoch_start_timestamp)
    &&& shown.epoch == Number::nearest(clock.epoch)
    &&& shown.leader_schedule_epoch == Number::nearest(clock.leader_schedule_epoch)
    &&& shown.unix_timestamp == Number::nearest_signed(clock.unix_timestamp)
}

/// Whether each part of a place in an epoch is shown by the double nearest to it.
pub open spec fn shows_epoch_info(shown: EpochInfoValue, info: EpochInfo) -> bool {
    &&& shown.epoch == Number::nearest(info.epoch)
    &&& shown.slot_index == Number::nearest(info.slot_index)
    &&& shown.slots_in_epoch == Number::nearest(info.slots_in_epoch)
    &&& shown.absolute_slot == Number::nearest(info.absolute_slot)
    &&& shown.block_height == Number::nearest(info.block_height)
    &&& shown.transaction_count is Some <==> info.transaction_count is Some
    &&& info.transaction_count matches Some(count) ==> shown.transaction_count == Some(
        Number::nearest(count),
    )
}

/// The runbook is reported at its start and at its end, its errors at its end where there are some.
pub proof fn law_runbook_fields(event: SimnetEvent, value: SimnetEventValue)
    requires
        call_ensures(SimnetEventValue::from, (event,), value),
    ensures
        match event {
            SimnetEvent::RunbookStarted(id) => has_text(value.runbook_id, id),
            SimnetEvent::RunbookCompleted(id, _) => has_text(value.runbook_id, id),
            _ => value.runbook_id is None,
        },
        value.runbook_errors is Some <==> (event matches SimnetEvent::RunbookCompleted(_, errors)
            && errors is Some),
        event matches SimnetEvent::RunbookCompleted(_, errors) ==> (errors matches Some(list)
            ==> has_texts(value.runbook_errors, list@)),
{
    if let SimnetEvent::RunbookCompleted(_, errors) = event {
        if let Some(list) = errors {
            assert(value@.runbook_errors == Some(texts(list@)));
            lemma_same_texts(value.runbook_errors->Some_0@, list@);
        }
    }
}

/// The kind of a report is the name of what happened.
pub proof fn law_kind_names_the_event(event: SimnetEvent, value: SimnetEventValue)
    requires
        call_ensures(SimnetEventValue::from, (event,), value),
    ensures
        value.kind@ == match event {
            SimnetEvent::Ready(_) => "ready"@,
            SimnetEvent::Connected(_) => "connected"@,
            SimnetEvent::Aborted(_) => "aborted"@,
            SimnetEvent::Shutdown => "shutdown"@,
            SimnetEvent::SystemClockUpdated(_) => "systemClockUpdated"@,
            SimnetEvent::ClockUpdate(_) => "clockUpdate"@,
            SimnetEvent::EpochInfoUpdate(_) => "epochInfoUpdate"@,
            SimnetEvent::BlockHashExpired => "blockHashExpired"@,
            SimnetEvent::InfoLog(_, _) => "infoLog"@,
            SimnetEvent::ErrorLog(_, _) => "errorLog"@,
            SimnetEvent::WarnLog(_, _) => "warnLog"@,
            SimnetEvent::DebugLog(_, _) => "debugLog"@,
            SimnetEvent::PluginLoaded(_) => "pluginLoaded"@,
            SimnetEvent::TransactionReceived { .. } => "transactionReceived"@,
            SimnetEvent::TransactionProcessed { .. } => "transactionProcessed"@,
            SimnetEvent::AccountUpdate { .. } => "accountUpdate"@,
            SimnetEvent::TaggedProfile { .. } => "taggedProfile"@,
            SimnetEvent::RunbookStarted(_) => "runbookStarted"@,
            SimnetEvent::RunbookCompleted(_, _) => "runbookCompleted"@,
        },
{
}

/// Draining hands out as many reports as are buffered, in the order in which they came in, each as
/// it would be handed out on its own.
pub proof fn law_drained_in_order(
    surfnet: &Surfnet,
    buffered: Vec<SimnetEvent>,
    r: Vec<SimnetEventValue>,
    i: int,
    alone: SimnetEventValue,
)
    requires
        call_ensures(Surfnet::drain_events, (surfnet, buffered), r),
        0 <= i < buffered@.len(),
        call_ensures(SimnetEventValue::from, (buffered@[i],), alone),
    ensures
        r@.len() == buffered@.len(),
        r@[i]@ == alone@,
{
    let shown = event_values(r@);
    let wanted = buffered@.map_values(|event: SimnetEvent| event_value(event));
    assert(shown.len() == r@.len() && wanted.len() == buffered@.len());
    assert(shown[i] == r@[i]@);
    assert(wanted[i] == event_value(buffered@[i]));
}

/// Where nothing is buffered, nothing is handed out.
pub proof fn law_nothing_drained(
    surfnet: &Surfnet,
    buffered: Vec<SimnetEvent>,
    r: Vec<SimnetEventValue>,
)
    requires
        call_ensures(Surfnet::drain_events, (surfnet, buffered), r),
        buffered@.len() == 0,
    ensures
        r@.len() == 0,
{
    assert(event_values(r@).len() == r@.len());
}

/// A clock and a place in an epoch are shown part by part.
pub proof fn law_shown_part_by_part(
    clock: Clock,
    info: EpochInfo,
    shown_clock: ClockValue,
    shown_info: EpochInfoValue,
)
    requires
        call_ensures(ClockValue::from_clock, (clock,), shown_clock),
        call_ensures(EpochInfoValue::from_epoch_info, (info,), shown_info),
    ensures
        shows_clock(shown_clock, clock),
        shows_epoch_info(shown_info, info),
{
}

/// Whether a call failed in the network, with this reason.
pub open spec fn is_failure<T>(r: Result<T, Error>, reason: Seq<char>) -> bool {
    r matches Err(e) && e.status == Status::GenericFailure && e.reason@ == reason
}

/// A reply of the network is handed on: nothing as nothing, a place in an epoch part by part, an
/// address as a text that reads as that address. A failure is handed on in its own words, and is
/// told apart from a refused argument.
pub proof fn law_reply_is_handed_on(
    nothing: Result<(), String>,
    info: Result<EpochInfo, String>,
    address: Result<Pubkey, String>,
    r_nothing: Result<(), Error>,
    r_info: Result<EpochInfoValue, Error>,
    r_address: Result<String, Error>,
)
    requires
        call_ensures(finish, (nothing,), r_nothing),
        call_ensures(finish_with_epoch_info, (info,), r_info),
        call_ensures(finish_with_address, (address,), r_address),
    ensures
        nothing is Ok ==> r_nothing is Ok,
        nothing matches Err(e) ==> is_failure(r_nothing, e@),
        info matches Ok(i) ==> (r_info matches Ok(shown) && shows_epoch_info(shown, i)),
        info matches Err(e) ==> is_failure(r_info, e@),
        address matches Ok(key) ==> (r_address matches Ok(text) && reads_as(text@, key@) && text@
            == pubkey_text(key@)),
        address matches Err(e) ==> is_failure(r_address, e@),
{
}

/// A network that has come up is handed out as it is; a start that failed is a failure in the
/// network's own words.
pub proof fn law_started_is_handed_out(
    result: Result<crate::sdk::surfnet::Surfnet, String>,
    r: Result<Surfnet, Error>,
)
    requires
        call_ensures(Surfnet::started, (result,), r),
    ensures
        result matches Ok(inner) ==> (r matches Ok(surfnet) && {
            &&& surfnet@.rpc_url == inner@.rpc_url
            &&& surfnet@.ws_url == inner@.ws_url
            &&& surfnet@.payer == inner@.payer
            &&& surfnet@.stopped == inner@.stopped
            &&& surfnet.id() == inner.id()
        }),
        result matches Err(e) ==> is_failure(r, e@),
{
}

/// The public key that goes with a keypair, the payer's or a new one's, is the second half of its
/// sixty-four bytes, in a text that reads as that account.
pub proof fn law_public_key_belongs_to_keypair(
    surfnet: &Surfnet,
    payer: String,
    secret: Vec<u8>,
    fresh: KeypairInfo,
)
    requires
        call_ensures(Surfnet::payer, (surfnet,), payer),
        call_ensures(Surfnet::payer_secret_key, (surfnet,), secret),
        call_ensures(Surfnet::new_keypair, (), fresh),
    ensures
        secret@ == surfnet@.payer,
        secret@.len() == 64,
        reads_as(payer@, secret@.skip(32)),
        fresh.secret_key@.len() == 64,
        reads_as(fresh.public_key@, fresh.secret_key@.skip(32)),
{
    assert(secret@.skip(32) =~= secret@.subrange(32, 64));
    assert(fresh.secret_key@.skip(32) =~= fresh.secret_key@.subrange(32, 64));
}

/// The endpoints and the identifier that JavaScript gets are the network's own.
pub proof fn law_endpoints_are_handed_out(
    surfnet: &Surfnet,
    rpc_url: String,
    ws_url: String,
    instance_id: String,
)
    requires
        call_ensures(Surfnet::rpc_url, (surfnet,), rpc_url),
        call_ensures(Surfnet::ws_url, (surfnet,), ws_url),
        call_ensures(Surfnet::instance_id, (surfnet,), instance_id),
    ensures
        rpc_url@ == surfnet@.rpc_url,
        ws_url@ == surfnet@.ws_url,
        instance_id@ == surfnet.id(),
{
}

/// A network that was shut down is not told again, and that is a success; any other is told to
/// terminate, and also when it is dropped.
pub proof fn law_shutdown_begins(surfnet: &Surfnet, r: (Stopping, StopAction), on_drop: bool)
    requires
        call_ensures(Surfnet::stop, (surfnet,), r),
        call_ensures(Surfnet::terminate_on_drop, (surfnet,), on_drop),
    ensures
        surfnet@.stopped ==> r.0 is Finished && (r.1 matches StopAction::Finish(Ok(_))),
        !surfnet@.stopped ==> r.0 is Terminating && r.1 is Terminate,
        on_drop == !surfnet@.stopped,
{
}

} // verus!
