//! Starting a local network.
//!
//! Two ports are taken, the virtual machine is made, its loop is set off on a thread of its own,
//! and then two things are waited for: that the runtime reports to be ready, and that the airdrops
//! are visible over RPC. Each step takes what came of the last action and says which action is
//! next.

use vstd::prelude::*;
use vstd::string::*;

use crate::keys::{is_keypair, keys_bytes, random_keypair, Keypair, Pubkey};
use crate::sdk::airdrop::{
    self, AirdropAction, AirdropActionView, AirdropEvent, AirdropView, AirdropWait,
};
use crate::sdk::builder::{BlockProductionMode, BuilderView, ModeView, SurfnetBuilder};
use crate::sdk::error::{SurfnetError, SurfnetErrorView};
use crate::sdk::event::SimnetEvent;
use crate::sdk::surfnet::{has_uuid_shape, Surfnet, SurfnetView};
use crate::text::{cat2, cat3, decimal, decimal_text, option_text};

verus! {

/// The address that a local network listens on.
pub open spec fn bind_host() -> Seq<char> {
    "127.0.0.1"@
}

/// How the simulated network is set up.
#[derive(Debug)]
pub struct SimnetConfig {
    pub offline_mode: bool,
    pub remote_rpc_url: Option<String>,
    pub slot_time: u64,
    pub block_production_mode: BlockProductionMode,
    pub airdrop_addresses: Vec<Pubkey>,
    pub airdrop_token_amount: u64,
    pub skip_blockhash_check: bool,
}

/// Where the RPC servers listen.
#[derive(Debug)]
pub struct RpcConfig {
    pub bind_host: String,
    pub bind_port: u16,
    pub ws_port: u16,
}

/// The set-up of a runtime. What it does not name keeps the runtime's default.
#[derive(Debug)]
pub struct SurfpoolConfig {
    pub simnet: SimnetConfig,
    pub rpc: RpcConfig,
}

/// A network that is coming up.
#[derive(Debug)]
pub struct Launch {
    pub rpc_url: String,
    pub ws_url: String,
    pub payer: Keypair,
    pub airdrop_addresses: Vec<Pubkey>,
    pub airdrop_lamports: u64,
}

/// How far the start of a network has come.
#[derive(Debug)]
pub enum Startup {
    /// The port of the HTTP server is being taken.
    BindPort(SurfnetBuilder, Keypair),
    /// The port of the WebSocket server is being taken.
    WsPort(SurfnetBuilder, Keypair, u16),
    /// The virtual machine is being made.
    Svm(Launch, SurfpoolConfig),
    /// The loop is being set off.
    Runloop(Launch),
    /// The runtime's readiness is awaited.
    Ready(Launch),
    /// The airdrops are awaited.
    Airdrops(Launch, AirdropWait),
    Finished,
}

/// What came of an action.
#[derive(Debug)]
pub enum StartEvent {
    /// A free port, or why there is none.
    Port(Result<u16, String>),
    /// Whether the virtual machine could be made.
    Svm(Result<(), String>),
    /// Whether the loop could be set off.
    Runloop(Result<(), String>),
    /// What the runtime reported, or why it can report nothing more.
    Simnet(Result<SimnetEvent, String>),
    /// What came of an action of the wait for the airdrops.
    Airdrop(AirdropEvent),
}

/// What to do next.
#[derive(Debug)]
pub enum StartAction {
    /// Take a free port on the local host.
    AllocatePort,
    /// Make the virtual machine.
    InitSvm { slot_time: u64, skip_blockhash_check: bool },
    /// Set the loop off on a thread of its own.
    SpawnRunloop(SurfpoolConfig),
    /// Wait for the runtime's next report.
    ReceiveEvent,
    /// Do what the wait for the airdrops asks for. Its deadline starts with the first of these.
    Airdrop(AirdropAction),
    Finish(Result<Surfnet, SurfnetError>),
}

/// How the simulated network is set up.
pub struct SimnetView {
    pub offline_mode: bool,
    pub remote_rpc_url: Option<Seq<char>>,
    pub slot_time: u64,
    pub block_production_mode: ModeView,
    pub airdrop_addresses: Seq<Seq<u8>>,
    pub airdrop_token_amount: u64,
    pub skip_blockhash_check: bool,
}

impl View for SimnetConfig {
    type V = SimnetView;

    open spec fn view(&self) -> SimnetView {
        SimnetView {
            offline_mode: self.offline_mode,
            remote_rpc_url: option_text(self.remote_rpc_url),
            slot_time: self.slot_time,
            block_production_mode: self.block_production_mode@,
            airdrop_addresses: keys_bytes(self.airdrop_addresses@),
            airdrop_token_amount: self.airdrop_token_amount,
            skip_blockhash_check: self.skip_blockhash_check,
        }
    }
}

/// The set-up of a runtime.
pub struct ConfigView {
    pub simnet: SimnetView,
    pub bind_host: Seq<char>,
    pub bind_port: u16,
    pub ws_port: u16,
}

impl View for SurfpoolConfig {
    type V = ConfigView;

    open spec fn view(&self) -> ConfigView {
        ConfigView {
            simnet: self.simnet@,
            bind_host: self.rpc.bind_host@,
            bind_port: self.rpc.bind_port,
            ws_port: self.rpc.ws_port,
        }
    }
}

/// A network that is coming up.
pub struct LaunchView {
    pub rpc_url: Seq<char>,
    pub ws_url: Seq<char>,
    pub payer: Seq<u8>,
    pub airdrop_addresses: Seq<Seq<u8>>,
    pub airdrop_lamports: u64,
}

impl View for Launch {
    type V = LaunchView;

    open spec fn view(&self) -> LaunchView {
        LaunchView {
            rpc_url: self.rpc_url@,
            ws_url: self.ws_url@,
            payer: self.payer@,
            airdrop_addresses: keys_bytes(self.airdrop_addresses@),
            airdrop_lamports: self.airdrop_lamports,
        }
    }
}

/// How far the start of a network has come.
pub enum StartupView {
    BindPort(BuilderView, Seq<u8>),
    WsPort(BuilderView, Seq<u8>, u16),
    Svm(LaunchView, ConfigView),
    Runloop(LaunchView),
    Ready(LaunchView),
    Airdrops(LaunchView, AirdropView),
    Finished,
}

impl View for Startup {
    type V = StartupView;

    open spec fn view(&self) -> StartupView {
        match *self {
            Startup::BindPort(builder, payer) => StartupView::BindPort(builder@, payer@),
            Startup::WsPort(builder, payer, port) => StartupView::WsPort(builder@, payer@, port),
            Startup::Svm(launch, config) => StartupView::Svm(launch@, config@),
            Startup::Runloop(launch) => StartupView::Runloop(launch@),
            Startup::Ready(launch) => StartupView::Ready(launch@),
            Startup::Airdrops(launch, wait) => StartupView::Airdrops(launch@, wait@),
            Startup::Finished => StartupView::Finished,
        }
    }
}

/// What to do next.
pub enum StartActionView {
    AllocatePort,
    InitSvm { slot_time: u64, skip_blockhash_check: bool },
    SpawnRunloop(ConfigView),
    ReceiveEvent,
    Airdrop(AirdropActionView),
    Finish(Result<SurfnetView, SurfnetErrorView>),
}

impl View for StartAction {
    type V = StartActionView;

    open spec fn view(&self) -> StartActionView {
        match *self {
            StartAction::AllocatePort => StartActionView::AllocatePort,
            StartAction::InitSvm { slot_time, skip_blockhash_check } => StartActionView::InitSvm {
                slot_time,
                skip_blockhash_check,
            },
            StartAction::SpawnRunloop(config) => StartActionView::SpawnRunloop(config@),
            StartAction::ReceiveEvent => StartActionView::ReceiveEvent,
            StartAction::Airdrop(action) => StartActionView::Airdrop(action@),
            StartAction::Finish(Ok(surfnet)) => StartActionView::Finish(Ok(surfnet@)),
            StartAction::Finish(Err(e)) => StartActionView::Finish(Err(e@)),
        }
    }
}

/// Whether the parts of the state fit together.
pub open spec fn consistent(state: StartupView) -> bool {
    state matches StartupView::Airdrops(_, wait) ==> airdrop::consistent(wait)
}

/// Whether an event is an answer to the action that the start is at.
pub open spec fn answers(state: StartupView, event: StartEvent) -> bool {
    match state {
        StartupView::BindPort(_, _) => event is Port,
        StartupView::WsPort(_, _, _) => event is Port,
        StartupView::Svm(_, _) => event is Svm,
        StartupView::Runloop(_) => event is Runloop,
        StartupView::Ready(_) => event is Simnet,
        StartupView::Airdrops(_, wait) => event matches StartEvent::Airdrop(inner)
            && airdrop::answers(wait, inner@),
        StartupView::Finished => false,
    }
}

/// An endpoint on the local host.
pub open spec fn endpoint(scheme: Seq<char>, port: u16) -> Seq<char> {
    scheme + bind_host() + ":"@ + decimal_text(port as nat)
}

/// The public key of a keypair in its sixty-four byte form.
pub open spec fn public_half(keypair: Seq<u8>) -> Seq<u8> {
    keypair.subrange(32, 64)
}

/// The addresses that get an airdrop: the payer first, then the others in their order.
pub open spec fn funded_addresses(builder: BuilderView, payer: Seq<u8>) -> Seq<Seq<u8>> {
    seq![public_half(payer)] + builder.airdrop_addresses
}

/// The set-up of the runtime for a configuration, a payer and two ports.
pub open spec fn runtime_config(
    builder: BuilderView,
    payer: Seq<u8>,
    bind_port: u16,
    ws_port: u16,
) -> ConfigView {
    ConfigView {
        simnet: SimnetView {
            offline_mode: builder.offline_mode,
            remote_rpc_url: builder.remote_rpc_url,
            slot_time: builder.slot_time_ms,
            block_production_mode: builder.block_production_mode,
            airdrop_addresses: funded_addresses(builder, payer),
            airdrop_token_amount: builder.airdrop_lamports,
            skip_blockhash_check: builder.skip_blockhash_check,
        },
        bind_host: bind_host(),
        bind_port,
        ws_port,
    }
}

/// The network that comes up for a configuration, a payer and two ports.
pub open spec fn launch_for(
    builder: BuilderView,
    payer: Seq<u8>,
    bind_port: u16,
    ws_port: u16,
) -> LaunchView {
    LaunchView {
        rpc_url: endpoint("http://"@, bind_port),
        ws_url: endpoint("ws://"@, ws_port),
        payer,
        airdrop_addresses: funded_addresses(builder, payer),
        airdrop_lamports: builder.airdrop_lamports,
    }
}

/// What a report of the runtime means while its readiness is awaited: readiness, a failure, or
/// nothing yet.
pub open spec fn readiness(report: Result<SimnetEvent, String>) -> Option<
    Result<(), SurfnetErrorView>,
> {
    match report {
        Ok(SimnetEvent::Ready(_)) => Some(Ok(())),
        Ok(SimnetEvent::Aborted(e)) => Some(Err(SurfnetErrorView::Aborted(e@))),
        Ok(SimnetEvent::Shutdown) => Some(
            Err(SurfnetErrorView::Aborted("surfnet shut down during startup"@)),
        ),
        Ok(_) => None,
        Err(e) => Some(
            Err(SurfnetErrorView::Startup("events channel closed unexpectedly: "@ + e@)),
        ),
    }
}

/// The start of the wait for the airdrops.
pub open spec fn first_wait(launch: LaunchView) -> AirdropView {
    AirdropView {
        addresses: launch.airdrop_addresses,
        expected: launch.airdrop_lamports,
        all_match: false,
        last_balances: Seq::empty(),
        last_error: None,
        phase: airdrop::AirdropPhase::Checking,
    }
}

/// The network that has come up.
pub open spec fn running(launch: LaunchView) -> SurfnetView {
    SurfnetView {
        rpc_url: launch.rpc_url,
        ws_url: launch.ws_url,
        payer: launch.payer,
        stopped: false,
    }
}

/// The end of a start that failed.
pub open spec fn failed(error: SurfnetErrorView) -> (StartupView, StartActionView) {
    (StartupView::Finished, StartActionView::Finish(Err(error)))
}

/// The next state and the next action, for what came of the last action.
pub open spec fn next_step(state: StartupView, event: StartEvent) -> (
    StartupView,
    StartActionView,
) {
    match (state, event) {
        (StartupView::BindPort(builder, payer), StartEvent::Port(Ok(port))) => (
            StartupView::WsPort(builder, payer, port),
            StartActionView::AllocatePort,
        ),
        (StartupView::WsPort(builder, payer, bind_port), StartEvent::Port(Ok(ws_port))) => (
            StartupView::Svm(
                launch_for(builder, payer, bind_port, ws_port),
                runtime_config(builder, payer, bind_port, ws_port),
            ),
            StartActionView::InitSvm {
                slot_time: builder.slot_time_ms,
                skip_blockhash_check: builder.skip_blockhash_check,
            },
        ),
        (_, StartEvent::Port(Err(e))) => failed(SurfnetErrorView::PortAllocation(e@)),
        (StartupView::Svm(launch, config), StartEvent::Svm(Ok(_))) => (
            StartupView::Runloop(launch),
            StartActionView::SpawnRunloop(config),
        ),
        (_, StartEvent::Svm(Err(e))) => failed(
            SurfnetErrorView::Runtime("failed to initialize Surfnet SVM: "@ + e@),
        ),
        (StartupView::Runloop(launch), StartEvent::Runloop(Ok(_))) => (
            StartupView::Ready(launch),
            StartActionView::ReceiveEvent,
        ),
        (_, StartEvent::Runloop(Err(e))) => failed(SurfnetErrorView::Runtime(e@)),
        (StartupView::Ready(launch), StartEvent::Simnet(report)) => match readiness(report) {
            None => (state, StartActionView::ReceiveEvent),
            Some(Err(e)) => failed(e),
            Some(Ok(_)) => (
                StartupView::Airdrops(launch, first_wait(launch)),
                StartActionView::Airdrop(AirdropActionView::CheckDeadline),
            ),
        },
        (StartupView::Airdrops(launch, wait), StartEvent::Airdrop(inner)) => {
            let (after, action) = airdrop::next_step(wait, inner@);
            match action {
                AirdropActionView::Finish(Ok(_)) => (
                    StartupView::Finished,
                    StartActionView::Finish(Ok(running(launch))),
                ),
                AirdropActionView::Finish(Err(e)) => failed(e),
                _ => (StartupView::Airdrops(launch, after), StartActionView::Airdrop(action)),
            }
        },
        _ => (StartupView::Finished, StartActionView::ReceiveEvent),
    }
}

fn endpoint_text(scheme: &str, port: u16) -> (r: String)
    ensures
        r@ == endpoint(scheme@, port),
{
    let digits: String = decimal(port as u64);
    cat3(scheme, "127.0.0.1", ":").concat(digits.as_str())
}

fn copy_keys(keys: &Vec<Pubkey>) -> (r: Vec<Pubkey>)
    ensures
        keys_bytes(r@) == keys_bytes(keys@),
{
    let mut copy: Vec<Pubkey> = Vec::new();
    for i in 0..keys.len()
        invariant
            copy@ == keys@.take(i as int),
    {
        copy.push(keys[i]);
        assert(keys@.take(i + 1) =~= keys@.take(i as int).push(keys@[i as int]));
    }
    assert(keys@.take(keys@.len() as int) =~= keys@);
    copy
}

/// Reads a report of the runtime while its readiness is awaited.
pub fn judge_readiness(report: Result<SimnetEvent, String>) -> (r: Option<
    Result<(), SurfnetError>,
>)
    ensures
        (match r {
            None => None,
            Some(result) => Some(crate::sdk::error::outcome(result)),
        }) == readiness(report),
{
    match report {
        Ok(SimnetEvent::Ready(_)) => Some(Ok(())),
        Ok(SimnetEvent::Aborted(e)) => Some(Err(SurfnetError::Aborted(e))),
        Ok(SimnetEvent::Shutdown) => Some(
            Err(SurfnetError::Aborted("surfnet shut down during startup".to_owned())),
        ),
        Ok(_) => None,
        Err(e) => Some(
            Err(
                SurfnetError::Startup(
                    cat2("events channel closed unexpectedly: ", e.as_str()),
                ),
            ),
        ),
    }
}

impl SurfnetBuilder {
    /// Starts a network with this configuration. Where no payer is set, a random one is made.
    pub fn start(self) -> (r: (Startup, StartAction))
        ensures
            consistent(r.0@),
            r.1@ == StartActionView::AllocatePort,
            r.0@ matches StartupView::BindPort(builder, payer) && {
                &&& builder == (BuilderView { payer: None, ..self@ })
                &&& self@.payer matches Some(given) ==> payer == given
                &&& self@.payer is None ==> is_keypair(payer)
            },
    {
        let SurfnetBuilder {
            offline_mode,
            remote_rpc_url,
            block_production_mode,
            slot_time_ms,
            airdrop_addresses,
            airdrop_lamports,
            skip_blockhash_check,
            payer,
        } = self;
        let payer: Keypair = match payer {
            Some(payer) => payer,
            None => random_keypair(),
        };
        let builder = SurfnetBuilder {
            offline_mode,
            remote_rpc_url,
            block_production_mode,
            slot_time_ms,
            airdrop_addresses,
            airdrop_lamports,
            skip_blockhash_check,
            payer: None,
        };
        (Startup::BindPort(builder, payer), StartAction::AllocatePort)
    }
}

impl Surfnet {
    /// Starts a network with the default configuration.
    pub fn start() -> (r: (Startup, StartAction))
        ensures
            consistent(r.0@),
            r.1@ == StartActionView::AllocatePort,
            r.0@ matches StartupView::BindPort(builder, payer) && {
                &&& builder == crate::sdk::builder::default_settings()
                &&& is_keypair(payer)
            },
    {
        Surfnet::builder().start()
    }
}

impl Startup {
    fn launch(builder: SurfnetBuilder, payer: Keypair, bind_port: u16, ws_port: u16) -> (r: (
        Startup,
        StartAction,
    ))
        ensures
            (r.0@, r.1@) == next_step(
                StartupView::WsPort(builder@, payer@, bind_port),
                StartEvent::Port(Ok(ws_port)),
            ),
    {
        let slot_time: u64 = builder.slot_time_ms;
        let skip_blockhash_check: bool = builder.skip_blockhash_check;
        let mut addresses: Vec<Pubkey> = Vec::new();
        addresses.push(payer.pubkey());
        for i in 0..builder.airdrop_addresses.len()
            invariant
                addresses@.len() == i + 1,
                addresses@[0]@ == public_half(payer@),
                forall|j: int|
                    0 <= j < i ==> #[trigger] addresses@[j + 1] == builder.airdrop_addresses@[j],
        {
            addresses.push(builder.airdrop_addresses[i]);
        }
        proof {
            let all = keys_bytes(addresses@);
            let wanted = funded_addresses(builder@, payer@);
            assert(all.len() == wanted.len());
            assert forall|k: int| 0 <= k < all.len() implies all[k] == wanted[k] by {
                if k > 0 {
                    assert(addresses@[(k - 1) + 1] == builder.airdrop_addresses@[k - 1]);
                }
            }
            assert(all =~= wanted);
        }
        let launch = Launch {
            rpc_url: endpoint_text("http://", bind_port),
            ws_url: endpoint_text("ws://", ws_port),
            payer,
            airdrop_addresses: copy_keys(&addresses),
            airdrop_lamports: builder.airdrop_lamports,
        };
        let config = SurfpoolConfig {
            simnet: SimnetConfig {
                offline_mode: builder.offline_mode,
                remote_rpc_url: builder.remote_rpc_url,
                slot_time,
                block_production_mode: builder.block_production_mode,
                airdrop_addresses: addresses,
                airdrop_token_amount: builder.airdrop_lamports,
                skip_blockhash_check,
            },
            rpc: RpcConfig { bind_host: "127.0.0.1".to_owned(), bind_port, ws_port },
        };
        (Startup::Svm(launch, config), StartAction::InitSvm { slot_time, skip_blockhash_check })
    }

    fn fail(error: SurfnetError) -> (r: (Startup, StartAction))
        ensures
            (r.0@, r.1@) == failed(error@),
    {
        (Startup::Finished, StartAction::Finish(Err(error)))
    }

    fn on_report(launch: Launch, report: Result<SimnetEvent, String>) -> (r: (Startup, StartAction))
        ensures
            consistent(r.0@),
            (r.0@, r.1@) == next_step(StartupView::Ready(launch@), StartEvent::Simnet(report)),
    {
        match judge_readiness(report) {
            None => (Startup::Ready(launch), StartAction::ReceiveEvent),
            Some(Err(e)) => Startup::fail(e),
            Some(Ok(_)) => {
                let (wait, action) = AirdropWait::begin(
                    copy_keys(&launch.airdrop_addresses),
                    launch.airdrop_lamports,
                );
                (Startup::Airdrops(launch, wait), StartAction::Airdrop(action))
            },
        }
    }

    /// Takes what came of the last action and says what to do next. A network that has come up
    /// gets a fresh identifier.
    pub fn step(self, event: StartEvent) -> (r: (Startup, StartAction))
        requires
            consistent(self@),
            answers(self@, event),
        ensures
            consistent(r.0@),
            (r.0@, r.1@) == next_step(self@, event),
            r.1 matches StartAction::Finish(Ok(surfnet)) ==> has_uuid_shape(surfnet.id()),
    {
        match (self, event) {
            (Startup::BindPort(builder, payer), StartEvent::Port(Ok(port))) => (
                Startup::WsPort(builder, payer, port),
                StartAction::AllocatePort,
            ),
            (Startup::WsPort(builder, payer, bind_port), StartEvent::Port(Ok(ws_port))) =>
                Startup::launch(builder, payer, bind_port, ws_port),
            (_, StartEvent::Port(Err(e))) => Startup::fail(SurfnetError::PortAllocation(e)),
            (Startup::Svm(launch, config), StartEvent::Svm(Ok(_))) => (
                Startup::Runloop(launch),
                StartAction::SpawnRunloop(config),
            ),
            (_, StartEvent::Svm(Err(e))) => Startup::fail(
                SurfnetError::Runtime(cat2("failed to initialize Surfnet SVM: ", e.as_str())),
            ),
            (Startup::Runloop(launch), StartEvent::Runloop(Ok(_))) => (
                Startup::Ready(launch),
                StartAction::ReceiveEvent,
            ),
            (_, StartEvent::Runloop(Err(e))) => Startup::fail(SurfnetError::Runtime(e)),
            (Startup::Ready(launch), StartEvent::Simnet(report)) =>
                Startup::on_report(launch, report),
            (Startup::Airdrops(launch, wait), StartEvent::Airdrop(inner)) => {
                let (after, action) = wait.step(inner);
                match action {
                    AirdropAction::Finish(Ok(_)) => {
                        let surfnet = Surfnet::launched(
                            launch.rpc_url,
                            launch.ws_url,
                            launch.payer,
                        );
                        (Startup::Finished, StartAction::Finish(Ok(surfnet)))
                    },
                    AirdropAction::Finish(Err(e)) => Startup::fail(e),
                    _ => (Startup::Airdrops(launch, after), StartAction::Airdrop(action)),
                }
            },
            _ => (Startup::Finished, StartAction::ReceiveEvent),
        }
    }
}

} // verus!
