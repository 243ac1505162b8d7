//! Shutting a local network down.
//!
//! The runtime is told to terminate, and both RPC servers have to acknowledge that before the
//! timeout. Each step takes what came of the last action and says which action is next.

use vstd::prelude::*;
use vstd::string::*;

use crate::sdk::error::{outcome, SurfnetError, SurfnetErrorView};
use crate::sdk::event::SimnetEvent;
use crate::sdk::surfnet::{Surfnet, SurfnetView};
use crate::text::{cat2, cat3, decimal, decimal_text};

verus! {

/// How long to wait for the acknowledgements, in milliseconds.
pub const STOP_TIMEOUT_MS: u64 = 5000;

/// The number of RPC servers that have to acknowledge.
pub const SERVERS: u64 = 2;

/// How far a shutdown has come.
#[derive(Clone, Copy, Debug, PartialEq, Eq, Structural)]
pub enum Stopping {
    /// The runtime is being told.
    Terminating,
    /// So many servers have acknowledged.
    Acknowledging(u64),
    Finished,
}

/// What came of an action.
#[derive(Debug)]
pub enum StopEvent {
    /// Whether the runtime could be told.
    Terminated(Result<(), String>),
    /// The runtime reported something.
    Received(SimnetEvent),
    /// Nothing more was reported before the timeout.
    Silence,
}

/// What to do next.
#[derive(Debug)]
pub enum StopAction {
    /// Tell the runtime to terminate. The timeout of [`STOP_TIMEOUT_MS`] starts after that.
    Terminate,
    /// Wait for a report, until the timeout.
    Receive,
    Finish(Result<(), SurfnetError>),
}

/// What to do next.
pub enum StopActionView {
    Terminate,
    Receive,
    Finish(Result<(), SurfnetErrorView>),
}

impl View for StopAction {
    type V = StopActionView;

    open spec fn view(&self) -> StopActionView {
        match *self {
            StopAction::Terminate => StopActionView::Terminate,
            StopAction::Receive => StopActionView::Receive,
            StopAction::Finish(result) => StopActionView::Finish(outcome(result)),
        }
    }
}

/// Whether the state can occur: the last acknowledgement ends the wait.
pub open spec fn consistent(state: Stopping) -> bool {
    state matches Stopping::Acknowledging(seen) ==> seen < SERVERS
}

/// Whether an event is an answer to the action that the shutdown is at.
pub open spec fn answers(state: Stopping, event: StopEvent) -> bool {
    match state {
        Stopping::Terminating => event is Terminated,
        Stopping::Acknowledging(_) => event is Received || event is Silence,
        Stopping::Finished => false,
    }
}

/// The description of a shutdown that was not acknowledged in time by all servers.
pub open spec fn unconfirmed_message(seen: u64) -> Seq<char> {
    "surfnet shutdown not confirmed within 5s: "@ + decimal_text(seen as nat)
        + " of 2 RPC servers acknowledged. The port may still be bound."@
}

/// The next state and the next action, for what came of the last action.
pub open spec fn next_step(state: Stopping, event: StopEvent) -> (Stopping, StopActionView) {
    match (state, event) {
        (_, StopEvent::Terminated(Err(e))) => (
            Stopping::Finished,
            StopActionView::Finish(
                Err(SurfnetErrorView::Runtime("failed to send terminate command: "@ + e@)),
            ),
        ),
        (_, StopEvent::Terminated(Ok(_))) => (
            Stopping::Acknowledging(0),
            StopActionView::Receive,
        ),
        (Stopping::Acknowledging(seen), StopEvent::Received(SimnetEvent::Shutdown)) => if seen + 1
            >= SERVERS {
            (Stopping::Finished, StopActionView::Finish(Ok(())))
        } else {
            (Stopping::Acknowledging((seen + 1) as u64), StopActionView::Receive)
        },
        (Stopping::Acknowledging(seen), StopEvent::Silence) => (
            Stopping::Finished,
            StopActionView::Finish(Err(SurfnetErrorView::Runtime(unconfirmed_message(seen)))),
        ),
        _ => (state, StopActionView::Receive),
    }
}

/// How a shutdown begins, for a network that was or was not shut down before.
pub open spec fn first_step(stopped: bool) -> (Stopping, StopActionView) {
    if stopped {
        (Stopping::Finished, StopActionView::Finish(Ok(())))
    } else {
        (Stopping::Terminating, StopActionView::Terminate)
    }
}

/// The network after a step of its shutdown: it counts as shut down from the step on that ends
/// well.
pub open spec fn after_step(surfnet: SurfnetView, action: StopActionView) -> SurfnetView {
    SurfnetView {
        stopped: surfnet.stopped || action == StopActionView::Finish(Ok(())),
        ..surfnet
    }
}

impl Surfnet {
    /// Starts to shut the network down. A network that was shut down before is left alone: there
    /// is nothing to do, and that is a success.
    pub fn stop(&self) -> (r: (Stopping, StopAction))
        ensures
            consistent(r.0),
            (r.0, r.1@) == first_step(self@.stopped),
    {
        if self.is_stopped() {
            (Stopping::Finished, StopAction::Finish(Ok(())))
        } else {
            (Stopping::Terminating, StopAction::Terminate)
        }
    }

    /// Takes what came of the last action of a shutdown and says what to do next. The network
    /// counts as shut down once both servers have acknowledged, and not before.
    pub fn stop_step(&mut self, state: Stopping, event: StopEvent) -> (r: (Stopping, StopAction))
        requires
            consistent(state),
            answers(state, event),
        ensures
            consistent(r.0),
            (r.0, r.1@) == next_step(state, event),
            final(self)@ == after_step(old(self)@, r.1@),
            final(self).id() == old(self).id(),
            (r.1 matches StopAction::Finish(Ok(_))) <==> state == Stopping::Acknowledging(1) && (
            event matches StopEvent::Received(report) && report is Shutdown),
            final(self)@.stopped <==> old(self)@.stopped || (r.1 matches StopAction::Finish(Ok(_))),
            final(self)@.rpc_url == old(self)@.rpc_url,
            final(self)@.ws_url == old(self)@.ws_url,
            final(self)@.payer == old(self)@.payer,
    {
        match (state, event) {
            (_, StopEvent::Terminated(Err(e))) => (
                Stopping::Finished,
                StopAction::Finish(
                    Err(
                        SurfnetError::Runtime(
                            cat2("failed to send terminate command: ", e.as_str()),
                        ),
                    ),
                ),
            ),
            (_, StopEvent::Terminated(Ok(_))) => (Stopping::Acknowledging(0), StopAction::Receive),
            (Stopping::Acknowledging(seen), StopEvent::Received(SimnetEvent::Shutdown)) => {
                if seen + 1 >= SERVERS {
                    self.mark_stopped();
                    (Stopping::Finished, StopAction::Finish(Ok(())))
                } else {
                    (Stopping::Acknowledging(seen + 1), StopAction::Receive)
                }
            },
            (Stopping::Acknowledging(seen), StopEvent::Silence) => {
                let count: String = decimal(seen);
                (
                    Stopping::Finished,
                    StopAction::Finish(
                        Err(
                            SurfnetError::Runtime(
                                cat3(
                                    "surfnet shutdown not confirmed within 5s: ",
                                    count.as_str(),
                                    " of 2 RPC servers acknowledged. The port may still be bound.",
                                ),
                            ),
                        ),
                    ),
                )
            },
            _ => (state, StopAction::Receive),
        }
    }

    /// Whether the runtime has to be told to terminate when the network is dropped: it was not
    /// shut down before.
    pub fn terminate_on_drop(&self) -> (r: bool)
        ensures
            r == !self@.stopped,
    {
        !self.is_stopped()
    }
}

/// The number of acknowledgements among the reports.
pub open spec fn acknowledgements(events: Seq<SimnetEvent>) -> nat
    decreases events.len(),
{
    if events.len() == 0 {
        0
    } else {
        acknowledgements(events.drop_last()) + if events.last() is Shutdown {
            1nat
        } else {
            0
        }
    }
}

/// The state after a series of reports, for a shutdown that the runtime was told of.
pub open spec fn after_reports(events: Seq<SimnetEvent>) -> Stopping
    decreases events.len(),
{
    if events.len() == 0 {
        Stopping::Acknowledging(0)
    } else {
        next_step(after_reports(events.drop_last()), StopEvent::Received(events.last())).0
    }
}

/// A shutdown is over exactly when the second acknowledgement has come in, whatever else was
/// reported meanwhile; until then it waits, and knows how many acknowledgements it has seen.
pub proof fn law_two_acknowledgements(events: Seq<SimnetEvent>)
    ensures
        acknowledgements(events) < SERVERS ==> after_reports(events) == Stopping::Acknowledging(
            acknowledgements(events) as u64,
        ),
        acknowledgements(events) >= SERVERS ==> after_reports(events) == Stopping::Finished,
    decreases events.len(),
{
    if events.len() > 0 {
        law_two_acknowledgements(events.drop_last());
    }
}

/// A shutdown that runs into the timeout before the second acknowledgement fails, says how many
/// servers have acknowledged, and does not count as a shutdown.
pub proof fn law_unconfirmed_shutdown(surfnet: SurfnetView, events: Seq<SimnetEvent>)
    requires
        !surfnet.stopped,
        acknowledgements(events) < SERVERS,
    ensures
        ({
            let action = next_step(after_reports(events), StopEvent::Silence).1;
            &&& action == StopActionView::Finish(
                Err(
                    SurfnetErrorView::Runtime(unconfirmed_message(acknowledgements(events) as u64)),
                ),
            )
            &&& !after_step(surfnet, action).stopped
        }),
{
    law_two_acknowledgements(events);
}

/// Shutting down is idempotent: once a shutdown has ended well, the next one succeeds at once and
/// does nothing. A shutdown that failed can be tried again.
pub proof fn law_stop_is_idempotent(surfnet: SurfnetView, state: Stopping, event: StopEvent)
    requires
        !surfnet.stopped,
        consistent(state),
        answers(state, event),
        next_step(state, event).0 == Stopping::Finished,
    ensures
        ({
            let action = next_step(state, event).1;
            let again = first_step(after_step(surfnet, action).stopped);
            &&& action == StopActionView::Finish(Ok(())) ==> again == (
                Stopping::Finished,
                StopActionView::Finish(Ok(())),
            )
            &&& action != StopActionView::Finish(Ok(())) ==> again == (
                Stopping::Terminating,
                StopActionView::Terminate,
            )
        }),
{
}

/// Whether an action is the one that a shutdown is at.
pub open spec fn in_step(state: Stopping, action: StopActionView) -> bool {
    match state {
        Stopping::Terminating => action is Terminate,
        Stopping::Acknowledging(_) => action is Receive,
        Stopping::Finished => action is Finish,
    }
}

/// A shutdown is always at the action that it asked for: what comes of that action is an
/// acceptable event.
pub proof fn law_shutdown_stays_in_step(stopped: bool, state: Stopping, event: StopEvent)
    requires
        consistent(state),
        answers(state, event),
    ensures
        in_step(first_step(stopped).0, first_step(stopped).1),
        in_step(next_step(state, event).0, next_step(state, event).1),
{
}

} // verus!
