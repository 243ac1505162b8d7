//! What the wait for the airdrops and the shutdown of a network do.

use vstd::prelude::*;

use crate::keys::{pubkey_text, Pubkey};
use crate::sdk::airdrop::{
    next_step, AirdropAction, AirdropActionView, AirdropEvent, AirdropEventView, AirdropPhase,
    AirdropView, AirdropWait, AIRDROP_PAUSE_MS, AIRDROP_TIMEOUT_MS,
};
use crate::sdk::error::{SurfnetError, SurfnetErrorView};
use crate::sdk::event::SimnetEvent;
use crate::sdk::stop::{
    self, acknowledgements, after_reports, after_step, first_step, StopAction, StopActionView,
    StopEvent, Stopping, STOP_TIMEOUT_MS,
};
use crate::sdk::surfnet::{Surfnet, SurfnetView};
use crate::text::{decimal_text, joined};

verus! {

/// A wait begins with a look at the deadline. It waits for the addresses and the balance that it was
/// given, and nothing was seen yet.
pub proof fn law_wait_begins(addresses: Vec<Pubkey>, expected: u64, r: (AirdropWait, AirdropAction))
    requires
        call_ensures(AirdropWait::begin, (addresses, expected), r),
    ensures
        r.1 is CheckDeadline,
        r.0@.addresses.len() == addresses@.len(),
        forall|i: int|
            0 <= i < addresses@.len() ==> #[trigger] r.0@.addresses[i] == addresses@[i]@,
        r.0@.expected == expected,
        r.0@.last_balances.len() == 0,
        r.0@.last_error is None,
{
}

/// A round of the wait: the deadline still lies ahead, and then these balances come in.
pub open spec fn round(state: AirdropView, balances: Seq<u64>) -> (AirdropView, AirdropActionView)
    decreases balances.len(),
{
    if balances.len() == 0 {
        next_step(state, AirdropEvent::Checked(true)@)
    } else {
        next_step(
            round(state, balances.drop_last()).0,
            AirdropEvent::Balance(Ok(balances.last()))@,
        )
    }
}

/// A round asks for the balance of each address in order. Once all have come in, the wait is over if
/// and only if every one of them is the balance that is waited for; otherwise there is a pause. What
/// was seen before the round does not count.
pub proof fn law_round(state: AirdropView, balances: Seq<u64>)
    requires
        state.addresses.len() > 0,
        balances.len() <= state.addresses.len(),
    ensures
        ({
            let (after, action) = round(state, balances);
            let all_right = forall|i: int|
                0 <= i < balances.len() ==> #[trigger] balances[i] == state.expected;
            &&& after.addresses == state.addresses
            &&& after.expected == state.expected
            &&& after.last_error == state.last_error
            &&& after.last_balances.len() == balances.len()
            &&& forall|i: int|
                0 <= i < balances.len() ==> (#[trigger] after.last_balances[i]).lamports
                    == balances[i] && after.last_balances[i].address == pubkey_text(
                    state.addresses[i],
                )
            &&& after.all_match <==> all_right
            &&& balances.len() < state.addresses.len() ==> {
                &&& action == AirdropActionView::QueryBalance(
                    state.addresses[balances.len() as int],
                )
                &&& after.phase == AirdropPhase::Querying
            }
            &&& balances.len() == state.addresses.len() && all_right ==> {
                &&& action == AirdropActionView::Finish(Ok(()))
                &&& after.phase == AirdropPhase::Finished
            }
            &&& balances.len() == state.addresses.len() && !all_right ==> {
                &&& action is Pause
                &&& after.phase == AirdropPhase::Pausing
            }
        }),
    decreases balances.len(),
{
    if balances.len() > 0 {
        let init = balances.drop_last();
        law_round(state, init);
        let before = round(state, init).0;
        let after = round(state, balances).0;
        assert(forall|i: int| 0 <= i < init.len() ==> #[trigger] balances[i] == init[i]);
        assert forall|i: int| 0 <= i < balances.len() implies (
        #[trigger] after.last_balances[i]).lamports == balances[i] && after.last_balances[i].address
            == pubkey_text(state.addresses[i]) by {
            if i < init.len() {
                assert(after.last_balances[i] == before.last_balances[i]);
            }
        }
        if !before.all_match {
            let i = choose|i: int|
                0 <= i < init.len() && #[trigger] init[i] != state.expected;
            assert(balances[i] != state.expected);
        } else {
            assert(balances.last() == balances[balances.len() - 1]);
            if balances.last() == state.expected {
                assert forall|i: int| 0 <= i < balances.len() implies #[trigger] balances[i]
                    == state.expected by {
                    if i < init.len() {
                        assert(init[i] == state.expected);
                    }
                }
            }
        }
    }
}

/// Where there is no address to wait for, the wait is over at once.
pub proof fn law_nothing_to_wait_for(state: AirdropView)
    requires
        state.addresses.len() == 0,
    ensures
        next_step(state, AirdropEvent::Checked(true)@).1 == AirdropActionView::Finish(Ok(())),
{
}

/// A balance that cannot be read ends the round: there is a pause, the failure is remembered, and so
/// are the balances of the round. After the pause the deadline is looked at again.
pub proof fn law_failed_query(
    wait: AirdropWait,
    e: String,
    r: (AirdropWait, AirdropAction),
    again: (AirdropWait, AirdropAction),
)
    requires
        call_ensures(AirdropWait::step, (wait, AirdropEvent::Balance(Err(e))), r),
        call_ensures(AirdropWait::step, (r.0, AirdropEvent::Paused), again),
    ensures
        r.1 is Pause,
        r.0@.phase == AirdropPhase::Pausing,
        r.0@.last_error == Some(e@),
        r.0@.last_balances == wait@.last_balances,
        r.0@.addresses == wait@.addresses,
        r.0@.expected == wait@.expected,
        again.1 is CheckDeadline,
        again.0@.phase == AirdropPhase::Checking,
        again.0@.last_error == Some(e@),
        again.0@.last_balances == wait@.last_balances,
        again.0@.addresses == wait@.addresses,
        again.0@.expected == wait@.expected,
{
}

/// Once the deadline has passed, the wait fails. The error tells the balance that was waited for, the
/// balances that were seen last with their addresses, and the last failure.
pub proof fn law_deadline_passed(wait: AirdropWait, r: (AirdropWait, AirdropAction))
    requires
        call_ensures(AirdropWait::step, (wait, AirdropEvent::Checked(false)), r),
    ensures
        r.0@.phase == AirdropPhase::Finished,
        r.1 matches AirdropAction::Finish(Err(SurfnetError::Startup(message))) && {
            let balances = wait@.last_balances;
            let shown = if balances.len() == 0 {
                "no balances observed"@
            } else {
                joined(
                    Seq::new(
                        balances.len(),
                        |i: int|
                            balances[i].address + "="@ + decimal_text(balances[i].lamports as nat),
                    ),
                    ", "@,
                )
            };
            let failure = match wait@.last_error {
                Some(e) => e,
                None => "none"@,
            };
            message@ == "startup balances not visible over RPC within timeout (expected "@
                + decimal_text(wait@.expected as nat) + "); last balances: "@ + shown
                + "; last error: "@ + failure
        },
{
}

/// A step of the wait goes by what the event says.
pub proof fn law_wait_goes_by_the_event(
    wait: AirdropWait,
    event: AirdropEvent,
    r: (AirdropWait, AirdropAction),
)
    requires
        call_ensures(AirdropWait::step, (wait, event), r),
    ensures
        (r.0@, r.1@) == next_step(wait@, event@),
        match event {
            AirdropEvent::Checked(ahead) => event@ == AirdropEventView::Checked(ahead),
            AirdropEvent::Balance(Ok(lamports)) => event@ == AirdropEventView::Balance(
                Ok(lamports),
            ),
            AirdropEvent::Balance(Err(e)) => event@ == AirdropEventView::Balance(Err(e@)),
            AirdropEvent::Paused => event@ is Paused,
        },
        match r.1 {
            AirdropAction::CheckDeadline => r.1@ is CheckDeadline,
            AirdropAction::QueryBalance(key) => r.1@ == AirdropActionView::QueryBalance(key@),
            AirdropAction::Pause => r.1@ is Pause,
            AirdropAction::Finish(Ok(_)) => r.1@ == AirdropActionView::Finish(Ok(())),
            AirdropAction::Finish(Err(_)) => r.1@ matches AirdropActionView::Finish(Err(_)),
        },
{
}

/// The wait for the airdrops and the wait for a shutdown take five seconds at most; rounds are
/// twenty-five milliseconds apart, so that many fit before the deadline.
pub proof fn law_deadlines()
    ensures
        AIRDROP_TIMEOUT_MS == 5 * 1000,
        STOP_TIMEOUT_MS == 5 * 1000,
        AIRDROP_TIMEOUT_MS == 200 * AIRDROP_PAUSE_MS,
{
}

/// A network that was shut down is not told again, and that is a success; any other is told to
/// terminate. The same network is told to terminate when it is dropped, exactly if it was not shut
/// down.
pub proof fn law_stop_begins(surfnet: &Surfnet, r: (Stopping, StopAction), on_drop: bool)
    requires
        call_ensures(Surfnet::stop, (surfnet,), r),
        call_ensures(Surfnet::terminate_on_drop, (surfnet,), on_drop),
    ensures
        surfnet@.stopped ==> r.0 is Finished && (r.1 matches StopAction::Finish(Ok(_))),
        !surfnet@.stopped ==> r.0 is Terminating && r.1 is Terminate,
        on_drop == !surfnet@.stopped,
{
}

/// A runtime that could not be told to terminate is an error; once it was told, both servers have to
/// acknowledge.
pub proof fn law_told_to_terminate(told: Result<(), String>)
    ensures
        match told {
            Err(e) => stop::next_step(Stopping::Terminating, StopEvent::Terminated(told)) == (
                Stopping::Finished,
                StopActionView::Finish(
                    Err(SurfnetErrorView::Runtime("failed to send terminate command: "@ + e@)),
                ),
            ),
            Ok(_) => stop::next_step(Stopping::Terminating, StopEvent::Terminated(told)) == (
                Stopping::Acknowledging(0),
                StopActionView::Receive,
            ),
        },
{
}

proof fn lemma_after_reports(events: Seq<SimnetEvent>)
    ensures
        acknowledgements(events) < 2 ==> after_reports(events) == Stopping::Acknowledging(
            acknowledgements(events) as u64,
        ),
        acknowledgements(events) >= 2 ==> after_reports(events) == Stopping::Finished,
    decreases events.len(),
{
    if events.len() > 0 {
        lemma_after_reports(events.drop_last());
    }
}

/// A shutdown succeeds with the second acknowledgement, not with the first and not without, whatever
/// else is reported meanwhile.
pub proof fn law_shutdown_needs_both_servers(events: Seq<SimnetEvent>, event: SimnetEvent)
    requires
        acknowledgements(events) < 2,
    ensures
        ({
            let action = stop::next_step(after_reports(events), StopEvent::Received(event)).1;
            if event is Shutdown && acknowledgements(events) == 1 {
                action == StopActionView::Finish(Ok(()))
            } else {
                action is Receive
            }
        }),
{
    lemma_after_reports(events);
}

/// A shutdown that is not acknowledged in time by both servers fails, and says how many of the two
/// have acknowledged.
pub proof fn law_shutdown_not_confirmed(events: Seq<SimnetEvent>)
    requires
        acknowledgements(events) < 2,
    ensures
        stop::next_step(after_reports(events), StopEvent::Silence) == (
            Stopping::Finished,
            StopActionView::Finish(
                Err(
                    SurfnetErrorView::Runtime(
                        "surfnet shutdown not confirmed within 5s: "@ + decimal_text(
                            acknowledgements(events),
                        ) + " of 2 RPC servers acknowledged. The port may still be bound."@,
                    ),
                ),
            ),
        ),
{
    lemma_after_reports(events);
}

/// A step of a shutdown changes nothing of a network but whether it was shut down: it was from the
/// step on that succeeds, and a network that was shut down stays so.
pub proof fn law_shutdown_marks_the_network(surfnet: SurfnetView, action: StopActionView)
    ensures
        ({
            let after = after_step(surfnet, action);
            &&& after.rpc_url == surfnet.rpc_url
            &&& after.ws_url == surfnet.ws_url
            &&& after.payer == surfnet.payer
            &&& after.stopped <==> surfnet.stopped || (action matches StopActionView::Finish(result)
                && result is Ok)
        }),
{
    if let StopActionView::Finish(Ok(nothing)) = action {
        assert(nothing == ());
    }
}

/// What comes after a shutdown that succeeded: the next one is over at once and succeeds, and
/// nothing is told to terminate any more.
pub proof fn law_stopped_for_good(surfnet: SurfnetView, state: Stopping, event: StopEvent)
    requires
        stop::next_step(state, event).1 == StopActionView::Finish(Ok(())),
    ensures
        first_step(after_step(surfnet, stop::next_step(state, event).1).stopped) == (
            Stopping::Finished,
            StopActionView::Finish(Ok(())),
        ),
{
}

} // verus!
