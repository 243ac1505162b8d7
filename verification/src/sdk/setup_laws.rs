//! What the settings of a network become when it is started.
//!
//! Each law speaks of whatever a call hands back, from the builder to the running network.

use vstd::prelude::*;

use crate::keys::{is_keypair, keys_bytes, Keypair, Pubkey};
use crate::sdk::airdrop::{AirdropAction, AirdropEvent, AirdropPhase, AirdropWait};
use crate::sdk::builder::{BlockProductionMode, SurfnetBuilder};
use crate::sdk::error::SurfnetError;
use crate::sdk::event::SimnetEvent;
use crate::sdk::startup::{
    funded_addresses, judge_readiness, Launch, StartAction, StartEvent, Startup, SurfpoolConfig,
};
use crate::sdk::surfnet::{Cheatcodes, Surfnet};
use crate::text::decimal_text;

verus! {

/// The settings of a builder.
#[derive(Clone, Copy, PartialEq, Eq, Structural)]
pub enum Setting {
    Offline,
    Remote,
    Mode,
    SlotTime,
    Addresses,
    Lamports,
    Blockhash,
    Payer,
}

/// Whether two modes of block production are the same.
pub open spec fn same_mode(a: BlockProductionMode, b: BlockProductionMode) -> bool {
    match (a, b) {
        (BlockProductionMode::Transaction, BlockProductionMode::Transaction) => true,
        (BlockProductionMode::Named(s), BlockProductionMode::Named(t)) => s@ == t@,
        _ => false,
    }
}

/// Whether two optional texts are the same.
pub open spec fn same_url(a: Option<String>, b: Option<String>) -> bool {
    match (a, b) {
        (Some(s), Some(t)) => s@ == t@,
        (None, None) => true,
        _ => false,
    }
}

/// Whether two lists hold the same addresses in the same order.
pub open spec fn same_keys(a: Seq<Pubkey>, b: Seq<Pubkey>) -> bool {
    a.len() == b.len() && forall|i: int| 0 <= i < a.len() ==> (#[trigger] a[i])@ == b[i]@
}

/// Whether two optional keypairs are the same.
pub open spec fn same_payer(a: Option<Keypair>, b: Option<Keypair>) -> bool {
    match (a, b) {
        (Some(s), Some(t)) => s@ == t@,
        (None, None) => true,
        _ => false,
    }
}

/// Whether two builders agree in every setting but two.
pub open spec fn agree_but_for(
    a: SurfnetBuilder,
    b: SurfnetBuilder,
    one: Setting,
    other: Setting,
) -> bool {
    &&& one == Setting::Offline || other == Setting::Offline || a.offline_mode == b.offline_mode
    &&& one == Setting::Remote || other == Setting::Remote || same_url(
        a.remote_rpc_url,
        b.remote_rpc_url,
    )
    &&& one == Setting::Mode || other == Setting::Mode || same_mode(
        a.block_production_mode,
        b.block_production_mode,
    )
    &&& one == Setting::SlotTime || other == Setting::SlotTime || a.slot_time_ms == b.slot_time_ms
    &&& one == Setting::Addresses || other == Setting::Addresses || same_keys(
        a.airdrop_addresses@,
        b.airdrop_addresses@,
    )
    &&& one == Setting::Lamports || other == Setting::Lamports || a.airdrop_lamports
        == b.airdrop_lamports
    &&& one == Setting::Blockhash || other == Setting::Blockhash || a.skip_blockhash_check
        == b.skip_blockhash_check
    &&& one == Setting::Payer || other == Setting::Payer || same_payer(a.payer, b.payer)
}

proof fn lemma_same_keys(a: Seq<Pubkey>, b: Seq<Pubkey>)
    requires
        keys_bytes(a) == keys_bytes(b),
    ensures
        same_keys(a, b),
{
    assert(keys_bytes(a).len() == a.len());
    assert(keys_bytes(b).len() == b.len());
    assert forall|i: int| 0 <= i < a.len() implies (#[trigger] a[i])@ == b[i]@ by {
        assert(keys_bytes(a)[i] == a[i]@);
        assert(keys_bytes(b)[i] == b[i]@);
    }
}

/// Setting whether to do without a remote, how blocks are produced or how long a slot is sets that
/// and changes nothing else. Setting a remote also ends doing without one.
pub proof fn law_network_settings(
    builder: SurfnetBuilder,
    offline: bool,
    url: String,
    mode: BlockProductionMode,
    ms: u64,
    r_offline: SurfnetBuilder,
    r_url: SurfnetBuilder,
    r_mode: SurfnetBuilder,
    r_ms: SurfnetBuilder,
)
    requires
        call_ensures(SurfnetBuilder::offline, (builder, offline), r_offline),
        call_ensures(SurfnetBuilder::remote_rpc_url, (builder, url), r_url),
        call_ensures(SurfnetBuilder::block_production_mode, (builder, mode), r_mode),
        call_ensures(SurfnetBuilder::slot_time_ms, (builder, ms), r_ms),
    ensures
        r_offline.offline_mode == offline,
        agree_but_for(builder, r_offline, Setting::Offline, Setting::Offline),
        r_url.remote_rpc_url matches Some(set) && set@ == url@,
        !r_url.offline_mode,
        agree_but_for(builder, r_url, Setting::Remote, Setting::Offline),
        same_mode(r_mode.block_production_mode, mode),
        agree_but_for(builder, r_mode, Setting::Mode, Setting::Mode),
        r_ms.slot_time_ms == ms,
        agree_but_for(builder, r_ms, Setting::SlotTime, Setting::SlotTime),
{
    lemma_same_keys(builder.airdrop_addresses@, r_offline.airdrop_addresses@);
    lemma_same_keys(builder.airdrop_addresses@, r_url.airdrop_addresses@);
    lemma_same_keys(builder.airdrop_addresses@, r_mode.airdrop_addresses@);
    lemma_same_keys(builder.airdrop_addresses@, r_ms.airdrop_addresses@);
}

/// Setting who gets an airdrop, of how much, whether blockhashes are checked or who pays sets that
/// and changes nothing else.
pub proof fn law_account_settings(
    builder: SurfnetBuilder,
    addresses: Vec<Pubkey>,
    lamports: u64,
    skip: bool,
    keypair: Keypair,
    r_addresses: SurfnetBuilder,
    r_lamports: SurfnetBuilder,
    r_skip: SurfnetBuilder,
    r_payer: SurfnetBuilder,
)
    requires
        call_ensures(SurfnetBuilder::airdrop_addresses, (builder, addresses), r_addresses),
        call_ensures(SurfnetBuilder::airdrop_sol, (builder, lamports), r_lamports),
        call_ensures(SurfnetBuilder::skip_blockhash_check, (builder, skip), r_skip),
        call_ensures(SurfnetBuilder::payer, (builder, keypair), r_payer),
    ensures
        same_keys(r_addresses.airdrop_addresses@, addresses@),
        agree_but_for(builder, r_addresses, Setting::Addresses, Setting::Addresses),
        r_lamports.airdrop_lamports == lamports,
        agree_but_for(builder, r_lamports, Setting::Lamports, Setting::Lamports),
        r_skip.skip_blockhash_check == skip,
        agree_but_for(builder, r_skip, Setting::Blockhash, Setting::Blockhash),
        r_payer.payer matches Some(set) && set@ == keypair@,
        agree_but_for(builder, r_payer, Setting::Payer, Setting::Payer),
{
    lemma_same_keys(r_addresses.airdrop_addresses@, addresses@);
    lemma_same_keys(builder.airdrop_addresses@, r_lamports.airdrop_addresses@);
    lemma_same_keys(builder.airdrop_addresses@, r_skip.airdrop_addresses@);
    lemma_same_keys(builder.airdrop_addresses@, r_payer.airdrop_addresses@);
}

/// Whether a builder holds the defaults: offline, a block for each transaction, slots of one
/// millisecond, ten SOL for the payer alone, blockhashes checked, no payer.
pub open spec fn has_defaults(builder: SurfnetBuilder) -> bool {
    &&& builder.offline_mode
    &&& builder.remote_rpc_url is None
    &&& builder.block_production_mode is Transaction
    &&& builder.slot_time_ms == 1
    &&& builder.airdrop_addresses@.len() == 0
    &&& builder.airdrop_lamports == 10 * 1_000_000_000
    &&& !builder.skip_blockhash_check
    &&& builder.payer is None
}

/// A network that is started without settings, from the library or from JavaScript, is started with
/// the defaults and a payer of its own.
pub proof fn law_defaults(
    builder: SurfnetBuilder,
    begun: (Startup, StartAction),
    from_node: (Startup, StartAction),
)
    requires
        call_ensures(Surfnet::builder, (), builder),
        call_ensures(Surfnet::start, (), begun),
        call_ensures(crate::node::surfnet::Surfnet::start, (), from_node),
    ensures
        has_defaults(builder),
        begun.0 matches Startup::BindPort(set, payer) && has_defaults(set) && is_keypair(payer@),
        from_node.0 matches Startup::BindPort(set, payer) && has_defaults(set) && is_keypair(
            payer@,
        ),
        begun.1 is AllocatePort,
        from_node.1 is AllocatePort,
{
    assert(keys_bytes(builder.airdrop_addresses@).len()
        == builder.airdrop_addresses@.len());
    let set = begun.0->BindPort_0;
    assert(keys_bytes(set.airdrop_addresses@).len() == set.airdrop_addresses@.len());
    let set = from_node.0->BindPort_0;
    assert(keys_bytes(set.airdrop_addresses@).len() == set.airdrop_addresses@.len());
}

/// Whether addresses are the payer's and after it those of a builder, in order.
pub open spec fn are_funded(
    addresses: Seq<Pubkey>,
    builder: SurfnetBuilder,
    payer: Seq<u8>,
) -> bool {
    &&& addresses.len() == builder.airdrop_addresses@.len() + 1
    &&& addresses[0]@ == payer.subrange(32, 64)
    &&& forall|i: int|
        0 <= i < builder.airdrop_addresses@.len() ==> (#[trigger] builder.airdrop_addresses@[i])@
            == addresses[i + 1]@
}

/// Whether the set-up of a runtime carries each setting of a builder, and listens on two ports of
/// the local host.
pub open spec fn carries_settings(
    config: SurfpoolConfig,
    builder: SurfnetBuilder,
    payer: Seq<u8>,
    bind_port: u16,
    ws_port: u16,
) -> bool {
    &&& config.simnet.offline_mode == builder.offline_mode
    &&& same_url(config.simnet.remote_rpc_url, builder.remote_rpc_url)
    &&& config.simnet.slot_time == builder.slot_time_ms
    &&& same_mode(config.simnet.block_production_mode, builder.block_production_mode)
    &&& are_funded(config.simnet.airdrop_addresses@, builder, payer)
    &&& config.simnet.airdrop_token_amount == builder.airdrop_lamports
    &&& config.simnet.skip_blockhash_check == builder.skip_blockhash_check
    &&& config.rpc.bind_host@ == "127.0.0.1"@
    &&& config.rpc.bind_port == bind_port
    &&& config.rpc.ws_port == ws_port
}

/// Whether a network that is coming up is reached on two ports of the local host, has the payer and
/// funds the addresses of a builder.
pub open spec fn launches(
    launch: Launch,
    builder: SurfnetBuilder,
    payer: Seq<u8>,
    bind_port: u16,
    ws_port: u16,
) -> bool {
    &&& launch.rpc_url@ == "http://"@ + "127.0.0.1"@ + ":"@ + decimal_text(bind_port as nat)
    &&& launch.ws_url@ == "ws://"@ + "127.0.0.1"@ + ":"@ + decimal_text(ws_port as nat)
    &&& launch.payer@ == payer
    &&& are_funded(launch.airdrop_addresses@, builder, payer)
    &&& launch.airdrop_lamports == builder.airdrop_lamports
}

proof fn lemma_are_funded(
    addresses: Seq<Pubkey>,
    kept: SurfnetBuilder,
    builder: SurfnetBuilder,
    payer: Seq<u8>,
)
    requires
        kept@.airdrop_addresses == builder@.airdrop_addresses,
        keys_bytes(addresses) == funded_addresses(kept@, payer),
    ensures
        are_funded(addresses, builder, payer),
{
    let bytes = keys_bytes(addresses);
    let others = keys_bytes(builder.airdrop_addresses@);
    assert(bytes.len() == addresses.len());
    assert(bytes[0] == addresses[0]@);
    assert forall|i: int| 0 <= i < builder.airdrop_addresses@.len() implies (
    #[trigger] builder.airdrop_addresses@[i])@ == addresses[i + 1]@ by {
        assert(bytes[i + 1] == addresses[i + 1]@);
        assert(others[i] == builder.airdrop_addresses@[i]@);
    }
}

/// A start from a builder takes two ports, makes the virtual machine with the builder's slot time
/// and its word on blockhashes, and sets the runtime off with every setting of the builder as it was
/// set, on the two ports that were taken. The payer is the builder's, or a fresh keypair where it
/// has none.
pub proof fn law_runtime_gets_the_settings(
    builder: SurfnetBuilder,
    bind_port: u16,
    ws_port: u16,
    begun: (Startup, StartAction),
    first: (Startup, StartAction),
    second: (Startup, StartAction),
    third: (Startup, StartAction),
)
    requires
        call_ensures(SurfnetBuilder::start, (builder,), begun),
        call_ensures(Startup::step, (begun.0, StartEvent::Port(Ok(bind_port))), first),
        call_ensures(Startup::step, (first.0, StartEvent::Port(Ok(ws_port))), second),
        call_ensures(Startup::step, (second.0, StartEvent::Svm(Ok(()))), third),
    ensures
        begun.1 is AllocatePort,
        first.1 is AllocatePort,
        second.1 == (StartAction::InitSvm {
            slot_time: builder.slot_time_ms,
            skip_blockhash_check: builder.skip_blockhash_check,
        }),
        begun.0 matches Startup::BindPort(_, payer) && {
            &&& builder.payer matches Some(given) ==> payer@ == given@
            &&& builder.payer is None ==> is_keypair(payer@)
            &&& third.1 matches StartAction::SpawnRunloop(config) && carries_settings(
                config,
                builder,
                payer@,
                bind_port,
                ws_port,
            )
            &&& third.0 matches Startup::Runloop(launch) && launches(
                launch,
                builder,
                payer@,
                bind_port,
                ws_port,
            )
        },
{
    let payer = begun.0->BindPort_1;
    let kept = begun.0->BindPort_0;
    let config = third.1->SpawnRunloop_0;
    let launch = third.0->Runloop_0;
    lemma_are_funded(config.simnet.airdrop_addresses@, kept, builder, payer@);
    lemma_are_funded(launch.airdrop_addresses@, kept, builder, payer@);
}

/// Whether two networks that are coming up are the same.
pub open spec fn same_launch(a: Launch, b: Launch) -> bool {
    &&& a.rpc_url@ == b.rpc_url@
    &&& a.ws_url@ == b.ws_url@
    &&& a.payer@ == b.payer@
    &&& same_keys(a.airdrop_addresses@, b.airdrop_addresses@)
    &&& a.airdrop_lamports == b.airdrop_lamports
}

proof fn lemma_same_launch(a: Launch, b: Launch)
    requires
        a@ == b@,
    ensures
        same_launch(a, b),
{
    lemma_same_keys(a.airdrop_addresses@, b.airdrop_addresses@);
}

/// Whether a start is over with this error.
pub open spec fn ends_start(r: (Startup, StartAction), error: SurfnetError) -> bool {
    &&& r.0 is Finished
    &&& r.1 matches StartAction::Finish(Err(e)) && match (e, error) {
        (SurfnetError::PortAllocation(a), SurfnetError::PortAllocation(b)) => a@ == b@,
        (SurfnetError::Startup(a), SurfnetError::Startup(b)) => a@ == b@,
        (SurfnetError::Runtime(a), SurfnetError::Runtime(b)) => a@ == b@,
        (SurfnetError::Aborted(a), SurfnetError::Aborted(b)) => a@ == b@,
        _ => false,
    }
}

/// A start fails with the first thing that goes wrong: a port that cannot be had, a virtual machine
/// that cannot be made, a loop that cannot be set off.
pub proof fn law_start_failures(
    state: Startup,
    e: String,
    no_port: (Startup, StartAction),
    no_svm: (Startup, StartAction),
    no_loop: (Startup, StartAction),
    described: String,
)
    requires
        call_ensures(Startup::step, (state, StartEvent::Port(Err(e))), no_port),
        call_ensures(Startup::step, (state, StartEvent::Svm(Err(e))), no_svm),
        call_ensures(Startup::step, (state, StartEvent::Runloop(Err(e))), no_loop),
        described@ == "failed to initialize Surfnet SVM: "@ + e@,
    ensures
        ends_start(no_port, SurfnetError::PortAllocation(e)),
        ends_start(no_svm, SurfnetError::Runtime(described)),
        ends_start(no_loop, SurfnetError::Runtime(e)),
{
}

/// Once the loop is set off, reports are awaited. Readiness starts the wait for the airdrops: each
/// funded address has to show the lamports of the airdrop. An abort, a shutdown and the end of the
/// reports are failures; any other report decides nothing, and the next one is awaited.
pub proof fn law_readiness(
    launch: Launch,
    report: Result<SimnetEvent, String>,
    looped: (Startup, StartAction),
    r: (Startup, StartAction),
)
    requires
        call_ensures(Startup::step, (Startup::Runloop(launch), StartEvent::Runloop(Ok(()))), looped),
        call_ensures(Startup::step, (Startup::Ready(launch), StartEvent::Simnet(report)), r),
    ensures
        looped.1 is ReceiveEvent,
        looped.0 matches Startup::Ready(same) && same_launch(same, launch),
        match report {
            Ok(SimnetEvent::Ready(_)) => {
                &&& r.1 matches StartAction::Airdrop(AirdropAction::CheckDeadline)
                &&& r.0 matches Startup::Airdrops(same, wait) && {
                    &&& same_launch(same, launch)
                    &&& wait@.phase == AirdropPhase::Checking
                    &&& wait@.addresses.len() == launch.airdrop_addresses@.len()
                    &&& forall|i: int|
                        0 <= i < launch.airdrop_addresses@.len() ==> #[trigger] wait@.addresses[i]
                            == launch.airdrop_addresses@[i]@
                    &&& wait@.expected == launch.airdrop_lamports
                    &&& wait@.last_balances.len() == 0
                    &&& wait@.last_error is None
                }
            },
            Ok(SimnetEvent::Aborted(e)) => ends_start(r, SurfnetError::Aborted(e)),
            Ok(SimnetEvent::Shutdown) => {
                &&& r.0 is Finished
                &&& r.1 matches StartAction::Finish(Err(SurfnetError::Aborted(e))) && e@
                    == "surfnet shut down during startup"@
            },
            Ok(_) => {
                &&& r.1 is ReceiveEvent
                &&& r.0 matches Startup::Ready(same) && same_launch(same, launch)
            },
            Err(e) => {
                &&& r.0 is Finished
                &&& r.1 matches StartAction::Finish(Err(SurfnetError::Startup(described)))
                    && described@ == "events channel closed unexpectedly: "@ + e@
            },
        },
{
    lemma_same_launch(looped.0->Ready_0, launch);
    if let Startup::Airdrops(same, _) = r.0 {
        lemma_same_launch(same, launch);
    }
    if let Startup::Ready(same) = r.0 {
        lemma_same_launch(same, launch);
    }
}

/// A report decides the readiness that is awaited only if it says ready, aborted or shut down, or if
/// there are no more reports.
pub proof fn law_deciding_reports(
    report: Result<SimnetEvent, String>,
    r: Option<Result<(), SurfnetError>>,
)
    requires
        call_ensures(judge_readiness, (report,), r),
    ensures
        (r matches Some(Ok(_))) <==> (report matches Ok(event) && event is Ready),
        (r matches Some(Err(_))) <==> report is Err || (report matches Ok(event) && (
        event is Aborted || event is Shutdown)),
{
}

/// While the airdrops are awaited, the wait is stepped on its own, and its actions are the start's.
/// Once it succeeds, the network is handed out: reached where it was launched, with the payer it was
/// launched with, not shut down. Where the wait fails, the start fails with its error.
pub proof fn law_start_follows_the_wait(
    launch: Launch,
    wait: AirdropWait,
    event: AirdropEvent,
    inner: (AirdropWait, AirdropAction),
    r: (Startup, StartAction),
)
    requires
        call_ensures(AirdropWait::step, (wait, event), inner),
        call_ensures(
            Startup::step,
            (Startup::Airdrops(launch, wait), StartEvent::Airdrop(event)),
            r,
        ),
    ensures
        match inner.1 {
            AirdropAction::Finish(Ok(_)) => {
                &&& r.0 is Finished
                &&& r.1 matches StartAction::Finish(Ok(surfnet)) && {
                    &&& surfnet@.rpc_url == launch.rpc_url@
                    &&& surfnet@.ws_url == launch.ws_url@
                    &&& surfnet@.payer == launch.payer@
                    &&& !surfnet@.stopped
                }
            },
            AirdropAction::Finish(Err(e)) => ends_start(r, e),
            action => {
                &&& r.1 matches StartAction::Airdrop(asked) && asked@ == action@
                &&& r.0 matches Startup::Airdrops(same, after) && same_launch(same, launch) && after@
                    == inner.0@
            },
        },
{
    if let Startup::Airdrops(same, _) = r.0 {
        lemma_same_launch(same, launch);
    }
}

/// A running network tells where it is reached, who pays and what it is called; requests that change
/// its state go to its HTTP endpoint. A command that could not be handed over is an error of the
/// runtime.
pub proof fn law_running_network(
    surfnet: &Surfnet,
    sent: Result<(), String>,
    rpc_url: &str,
    ws_url: &str,
    payer: &Keypair,
    cheatcodes: Cheatcodes,
    r: Result<(), SurfnetError>,
)
    requires
        call_ensures(Surfnet::rpc_url, (surfnet,), rpc_url),
        call_ensures(Surfnet::ws_url, (surfnet,), ws_url),
        call_ensures(Surfnet::payer, (surfnet,), payer),
        call_ensures(Surfnet::cheatcodes, (surfnet,), cheatcodes),
        call_ensures(Surfnet::send_command, (surfnet, sent), r),
    ensures
        rpc_url@ == surfnet@.rpc_url,
        ws_url@ == surfnet@.ws_url,
        payer@ == surfnet@.payer,
        cheatcodes.rpc_url@ == rpc_url@,
        sent is Ok ==> r is Ok,
        sent matches Err(e) ==> (r matches Err(SurfnetError::Runtime(described)) && described@
            == "failed to send command: "@ + e@),
{
}

/// The public key of a keypair is the second half of its sixty-four bytes.
pub proof fn law_public_half(keypair: &Keypair, key: Pubkey, bytes: Vec<u8>)
    requires
        call_ensures(Keypair::pubkey, (keypair,), key),
        call_ensures(Keypair::to_bytes, (keypair,), bytes),
    ensures
        bytes@.len() == 64,
        bytes@ == keypair@,
        forall|i: int| 0 <= i < 32 ==> #[trigger] key.bytes@[i] == bytes@[i + 32],
{
    assert forall|i: int| 0 <= i < 32 implies #[trigger] key.bytes@[i] == bytes@[i + 32] by {
        assert(key@[i] == keypair@.subrange(32, 64)[i]);
    }
}

} // verus!
