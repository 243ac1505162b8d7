//! What starting a local network does as a whole.

use vstd::prelude::*;

use crate::keys::pubkey_text;
use crate::sdk::airdrop::{
    self, AirdropEvent, AirdropEventView, AirdropPhase, AirdropView, SeenView,
};
use crate::sdk::builder::BuilderView;
use crate::sdk::event::SimnetEvent;
use crate::sdk::startup::{
    answers, consistent, first_wait, funded_addresses, launch_for, next_step, public_half,
    readiness, running, LaunchView, StartActionView, StartEvent, StartupView,
};
use crate::sdk::surfnet::SurfnetView;
use crate::text::decimal_text;

verus! {

/// The state that a series of events leads to.
pub open spec fn course(state: StartupView, events: Seq<StartEvent>) -> StartupView
    decreases events.len(),
{
    if events.len() == 0 {
        state
    } else {
        next_step(course(state, events.drop_last()), events.last()).0
    }
}

/// Whether each event is an answer to the action before it.
pub open spec fn orderly(state: StartupView, events: Seq<StartEvent>) -> bool
    decreases events.len(),
{
    events.len() == 0 || {
        &&& orderly(state, events.drop_last())
        &&& answers(course(state, events.drop_last()), events.last())
    }
}

/// Whether an event is the runtime's report to be ready.
pub open spec fn reports_readiness(event: StartEvent) -> bool {
    event matches StartEvent::Simnet(report) && readiness(report) matches Some(Ok(_))
}

/// Whether one of the events is the runtime's report to be ready.
pub open spec fn became_ready(events: Seq<StartEvent>) -> bool {
    exists|i: int| 0 <= i < events.len() && reports_readiness(#[trigger] events[i])
}

/// Whether the first two events are the allocation of these ports.
pub open spec fn took_ports(events: Seq<StartEvent>, bind_port: u16, ws_port: u16) -> bool {
    &&& events.len() >= 2
    &&& events[0] == StartEvent::Port(Ok(bind_port))
    &&& events[1] == StartEvent::Port(Ok(ws_port))
}

/// The ports of a start that has got past their allocation.
pub open spec fn ports(events: Seq<StartEvent>) -> (u16, u16) {
    (
        events[0]->Port_0->Ok_0,
        events[1]->Port_0->Ok_0,
    )
}

/// What every state of a start has in common with the events that led to it.
pub open spec fn traced(
    builder: BuilderView,
    payer: Seq<u8>,
    events: Seq<StartEvent>,
    state: StartupView,
) -> bool {
    let (bind_port, ws_port) = ports(events);
    let launch = launch_for(builder, payer, bind_port, ws_port);
    match state {
        StartupView::BindPort(b, p) => events.len() == 0 && b == builder && p == payer,
        StartupView::WsPort(b, p, port) => {
            &&& events.len() == 1
            &&& events[0] == StartEvent::Port(Ok(port))
            &&& b == builder
            &&& p == payer
        },
        StartupView::Svm(l, _) => took_ports(events, bind_port, ws_port) && l == launch,
        StartupView::Runloop(l) => took_ports(events, bind_port, ws_port) && l == launch,
        StartupView::Ready(l) => took_ports(events, bind_port, ws_port) && l == launch,
        StartupView::Airdrops(l, wait) => {
            &&& took_ports(events, bind_port, ws_port)
            &&& l == launch
            &&& became_ready(events)
            &&& airdrop::consistent(wait)
            &&& wait.addresses == funded_addresses(builder, payer)
            &&& wait.expected == builder.airdrop_lamports
        },
        StartupView::Finished => true,
    }
}

proof fn lemma_traced(builder: BuilderView, payer: Seq<u8>, events: Seq<StartEvent>)
    requires
        orderly(StartupView::BindPort(builder, payer), events),
    ensures
        traced(builder, payer, events, course(StartupView::BindPort(builder, payer), events)),
    decreases events.len(),
{
    if events.len() > 0 {
        let earlier = events.drop_last();
        let state = course(StartupView::BindPort(builder, payer), earlier);
        lemma_traced(builder, payer, earlier);
        assert(forall|i: int| 0 <= i < earlier.len() ==> #[trigger] events[i] == earlier[i]);
        match state {
            StartupView::Ready(_) => {
                if reports_readiness(events.last()) {
                    assert(reports_readiness(events[events.len() - 1]));
                }
            },
            StartupView::Airdrops(_, wait) => {
                airdrop::law_consistency_is_kept(wait, events.last()->Airdrop_0@);
                let i = choose|i: int|
                    0 <= i < earlier.len() && reports_readiness(#[trigger] earlier[i]);
                assert(reports_readiness(events[i]));
            },
            _ => {},
        }
    }
}

/// Reports that decide nothing leave the start waiting for readiness, however many they are.
pub proof fn law_waits_for_readiness(launch: LaunchView, events: Seq<StartEvent>)
    requires
        forall|i: int|
            0 <= i < events.len() ==> ((#[trigger] events[i]) matches StartEvent::Simnet(report)
                && readiness(report) is None),
    ensures
        course(StartupView::Ready(launch), events) == StartupView::Ready(launch),
    decreases events.len(),
{
    if events.len() > 0 {
        assert(events.last() == events[events.len() - 1]);
        assert(forall|i: int| 0 <= i < events.len() - 1 ==> events.drop_last()[i] == events[i]);
        law_waits_for_readiness(launch, events.drop_last());
    }
}

/// A network is handed out only after two ports were taken, the runtime has reported to be ready
/// and every funded address, the payer first, has been seen with the expected balance. It listens
/// on those ports, has the payer that the start had, and is not shut down.
pub proof fn law_started_network(
    builder: BuilderView,
    payer: Seq<u8>,
    events: Seq<StartEvent>,
    event: StartEvent,
    surfnet: SurfnetView,
)
    requires
        orderly(StartupView::BindPort(builder, payer), events),
        answers(course(StartupView::BindPort(builder, payer), events), event),
        next_step(course(StartupView::BindPort(builder, payer), events), event).1
            == StartActionView::Finish(Ok(surfnet)),
    ensures
        ({
            let (bind_port, ws_port) = ports(events);
            let wait = course(StartupView::BindPort(builder, payer), events)->Airdrops_1;
            let balances = airdrop::next_step(wait, event->Airdrop_0@).0.last_balances;
            let funded = seq![payer.subrange(32, 64)] + builder.airdrop_addresses;
            &&& took_ports(events, bind_port, ws_port)
            &&& surfnet == running(launch_for(builder, payer, bind_port, ws_port))
            &&& surfnet.rpc_url == "http://"@ + "127.0.0.1"@ + ":"@ + decimal_text(bind_port as nat)
            &&& surfnet.ws_url == "ws://"@ + "127.0.0.1"@ + ":"@ + decimal_text(ws_port as nat)
            &&& surfnet.payer == payer
            &&& !surfnet.stopped
            &&& became_ready(events)
            &&& funded[0] == public_half(payer)
            &&& balances.len() == funded.len()
            &&& forall|i: int|
                0 <= i < funded.len() ==> (#[trigger] balances[i]) == (SeenView {
                    address: pubkey_text(funded[i]),
                    lamports: builder.airdrop_lamports,
                })
        }),
{
    let state = course(StartupView::BindPort(builder, payer), events);
    lemma_traced(builder, payer, events);
    match state {
        StartupView::Airdrops(_, wait) => {
            airdrop::law_success_means_funded(wait, event->Airdrop_0@);
        },
        _ => {},
    }
}

proof fn lemma_course_of_both(state: StartupView, first: Seq<StartEvent>, second: Seq<StartEvent>)
    ensures
        course(state, first + second) == course(course(state, first), second),
    decreases second.len(),
{
    if second.len() == 0 {
        assert(first + second =~= first);
    } else {
        assert((first + second).drop_last() =~= first + second.drop_last());
        lemma_course_of_both(state, first, second.drop_last());
    }
}

/// A round of balance reports, all with the same balance.
pub open spec fn even_round(count: nat, lamports: u64) -> Seq<StartEvent> {
    Seq::new(count, |i: int| StartEvent::Airdrop(AirdropEvent::Balance(Ok(lamports))))
}

/// The wait after some balances of a round have come in as expected.
spec fn partly_seen(launch: LaunchView, seen: nat) -> AirdropView {
    AirdropView {
        all_match: true,
        last_balances: Seq::new(
            seen,
            |i: int|
                SeenView {
                    address: pubkey_text(launch.airdrop_addresses[i]),
                    lamports: launch.airdrop_lamports,
                },
        ),
        phase: AirdropPhase::Querying,
        ..first_wait(launch)
    }
}

proof fn lemma_round(launch: LaunchView, seen: nat)
    requires
        seen < launch.airdrop_addresses.len(),
    ensures
        course(
            StartupView::Airdrops(launch, partly_seen(launch, 0)),
            even_round(seen, launch.airdrop_lamports),
        ) == StartupView::Airdrops(launch, partly_seen(launch, seen)),
    decreases seen,
{
    if seen > 0 {
        let before = (seen - 1) as nat;
        let round = even_round(seen, launch.airdrop_lamports);
        lemma_round(launch, before);
        assert(round.drop_last() =~= even_round(before, launch.airdrop_lamports));
        let wait = partly_seen(launch, before);
        let (after, _) = airdrop::next_step(wait, AirdropEventView::Balance(
            Ok(launch.airdrop_lamports),
        ));
        assert(after.last_balances =~= partly_seen(launch, seen).last_balances);
    }
}

/// The events of a start at which nothing goes wrong: two ports, the virtual machine, the loop,
/// reports that decide nothing, readiness, and a first round that shows the expected balance for
/// every address.
pub open spec fn smooth_start(
    builder: BuilderView,
    bind_port: u16,
    ws_port: u16,
    undecided: Seq<StartEvent>,
    transactions: u64,
) -> Seq<StartEvent> {
    seq![
        StartEvent::Port(Ok(bind_port)),
        StartEvent::Port(Ok(ws_port)),
        StartEvent::Svm(Ok(())),
        StartEvent::Runloop(Ok(())),
    ] + undecided + seq![
        StartEvent::Simnet(Ok(SimnetEvent::Ready(transactions))),
        StartEvent::Airdrop(AirdropEvent::Checked(true)),
    ] + even_round(builder.airdrop_addresses.len() + 1, builder.airdrop_lamports)
}

/// A start at which nothing goes wrong hands out the network that was asked for, however many
/// reports come in before readiness.
pub proof fn law_start_succeeds(
    builder: BuilderView,
    payer: Seq<u8>,
    bind_port: u16,
    ws_port: u16,
    undecided: Seq<StartEvent>,
    transactions: u64,
)
    requires
        forall|i: int|
            0 <= i < undecided.len() ==> ((#[trigger] undecided[i]) matches StartEvent::Simnet(
                report,
            ) && readiness(report) is None),
    ensures
        ({
            let events = smooth_start(builder, bind_port, ws_port, undecided, transactions);
            let begun = StartupView::BindPort(builder, payer);
            next_step(course(begun, events.drop_last()), events.last()).1
                == StartActionView::Finish(
                Ok(running(launch_for(builder, payer, bind_port, ws_port))),
            )
        }),
{
    let events = smooth_start(builder, bind_port, ws_port, undecided, transactions);
    let begun = StartupView::BindPort(builder, payer);
    let launch = launch_for(builder, payer, bind_port, ws_port);
    let count = builder.airdrop_addresses.len();
    let set_up = seq![
        StartEvent::Port(Ok(bind_port)),
        StartEvent::Port(Ok(ws_port)),
        StartEvent::Svm(Ok(())),
        StartEvent::Runloop(Ok(())),
    ];
    let ready = seq![
        StartEvent::Simnet(Ok(SimnetEvent::Ready(transactions))),
        StartEvent::Airdrop(AirdropEvent::Checked(true)),
    ];
    let round = even_round(count, builder.airdrop_lamports);
    assert(launch.airdrop_addresses.len() == count + 1);
    assert(events.drop_last() =~= set_up + undecided + ready + round);

    assert(course(begun, set_up) == StartupView::Ready(launch)) by {
        reveal_with_fuel(course, 5);
        assert(set_up.drop_last().drop_last().drop_last().drop_last() =~= Seq::empty());
    }
    lemma_course_of_both(begun, set_up, undecided);
    law_waits_for_readiness(launch, undecided);
    lemma_course_of_both(begun, set_up + undecided, ready);
    assert(course(StartupView::Ready(launch), ready) == StartupView::Airdrops(
        launch,
        partly_seen(launch, 0),
    )) by {
        reveal_with_fuel(course, 3);
        assert(ready.drop_last().drop_last() =~= Seq::empty());
        assert(partly_seen(launch, 0).last_balances =~= Seq::empty());
    }
    lemma_course_of_both(begun, set_up + undecided + ready, round);
    lemma_round(launch, count);
}

/// Whether an action is the one that a start is at.
pub open spec fn in_step(state: StartupView, action: StartActionView) -> bool {
    match state {
        StartupView::BindPort(_, _) => action is AllocatePort,
        StartupView::WsPort(_, _, _) => action is AllocatePort,
        StartupView::Svm(_, _) => action is InitSvm,
        StartupView::Runloop(_) => action is SpawnRunloop,
        StartupView::Ready(_) => action is ReceiveEvent,
        StartupView::Airdrops(_, wait) => action matches StartActionView::Airdrop(inner)
            && airdrop::in_step(wait, inner),
        StartupView::Finished => action is Finish,
    }
}

/// A start is always at the action that it asked for: what comes of that action is an acceptable
/// event.
pub proof fn law_start_stays_in_step(state: StartupView, event: StartEvent)
    requires
        consistent(state),
        answers(state, event),
    ensures
        in_step(next_step(state, event).0, next_step(state, event).1),
{
    if let StartupView::Airdrops(_, wait) = state {
        airdrop::law_wait_stays_in_step(wait, event->Airdrop_0@);
        airdrop::law_consistency_is_kept(wait, event->Airdrop_0@);
    }
}

} // verus!
