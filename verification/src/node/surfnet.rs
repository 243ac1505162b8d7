//! A local network, as JavaScript gets it.

use vstd::prelude::*;
use vstd::string::*;

use crate::keys::{encode_pubkey, is_keypair, pubkey_text, random_keypair, reads_as, Pubkey};
use crate::node::args::{sdk_error_to_napi, Error, ErrorView, Status};
use crate::node::cheatcode::{
    self, deploy_request, fund_sol_many_request, fund_sol_request, fund_token_many_request,
    fund_token_request, get_ata_request, requested, reset_account_request, set_account_request,
    set_token_account_request, set_token_balance_request, stream_account_request,
    time_travel_to_epoch_request, time_travel_to_slot_request, time_travel_to_timestamp_request,
    Cheatcode, CheatcodeView, DeployOptions, ResetAccountOptions, SetTokenAccountUpdate,
    SolAccountFunding, StreamAccountOptions,
};
use crate::node::config::{config_complaint, configure, configured, SurfnetConfig};
use crate::node::value::{
    epoch_info_value, event_value, event_values, EpochInfoValue, SimnetEventValue,
};
use crate::number::Number;
use crate::sdk::builder::{default_settings, BuilderView};
use crate::sdk::event::{EpochInfo, SimnetEvent};
use crate::sdk::startup::{self, public_half, StartAction, StartActionView, Startup, StartupView};
use crate::sdk::stop::{self, StopAction, StopEvent, Stopping};
use crate::sdk::surfnet::SurfnetView;
use crate::text::{option_text, texts};

verus! {

/// A running local network with RPC and WebSocket endpoints on dynamic ports.
#[derive(Debug)]
pub struct Surfnet {
    inner: crate::sdk::surfnet::Surfnet,
}

impl View for Surfnet {
    type V = SurfnetView;

    closed spec fn view(&self) -> SurfnetView {
        self.inner@
    }
}

/// A generated keypair.
#[derive(Debug)]
pub struct KeypairInfo {
    /// The address in base58.
    pub public_key: String,
    /// The sixty-four bytes of the keypair.
    pub secret_key: Vec<u8>,
}

/// A request and the endpoint that it is to be sent to.
#[derive(Debug)]
pub struct CheatcodeCall {
    pub rpc_url: String,
    pub code: Cheatcode,
}

/// A request and the endpoint that it is to be sent to.
pub struct CallView {
    pub rpc_url: Seq<char>,
    pub code: CheatcodeView,
}

impl View for CheatcodeCall {
    type V = CallView;

    open spec fn view(&self) -> CallView {
        CallView { rpc_url: self.rpc_url@, code: self.code@ }
    }
}

/// A request that is to be sent, or the complaint about an argument.
pub open spec fn called(r: Result<CheatcodeCall, Error>) -> Result<CallView, ErrorView> {
    match r {
        Ok(call) => Ok(call@),
        Err(e) => Err(e@),
    }
}

/// A request goes to the network's RPC endpoint, if there is no complaint.
pub open spec fn sent_to(
    surfnet: SurfnetView,
    request: Result<CheatcodeView, ErrorView>,
) -> Result<CallView, ErrorView> {
    match request {
        Ok(code) => Ok(CallView { rpc_url: surfnet.rpc_url, code }),
        Err(e) => Err(e),
    }
}

/// The network's own error, as JavaScript gets it.
pub open spec fn failure(reason: Seq<char>) -> ErrorView {
    ErrorView { status: Status::GenericFailure, reason }
}

/// What JavaScript gets for a request that gives nothing back.
pub fn finish(reply: Result<(), String>) -> (r: Result<(), Error>)
    ensures
        (match r {
            Ok(_) => Ok::<(), ErrorView>(()),
            Err(e) => Err(e@),
        }) == (match reply {
            Ok(_) => Ok::<(), ErrorView>(()),
            Err(e) => Err(failure(e@)),
        }),
{
    match reply {
        Ok(_) => Ok(()),
        Err(e) => Err(sdk_error_to_napi(e)),
    }
}

/// What JavaScript gets for a request that gives back where in its epoch the network is.
pub fn finish_with_epoch_info(reply: Result<EpochInfo, String>) -> (r: Result<
    EpochInfoValue,
    Error,
>)
    ensures
        (match r {
            Ok(value) => Ok::<EpochInfoValue, ErrorView>(value),
            Err(e) => Err(e@),
        }) == (match reply {
            Ok(info) => Ok::<EpochInfoValue, ErrorView>(epoch_info_value(info)),
            Err(e) => Err(failure(e@)),
        }),
{
    match reply {
        Ok(info) => Ok(EpochInfoValue::from(info)),
        Err(e) => Err(sdk_error_to_napi(e)),
    }
}

/// What JavaScript gets for a request that gives back an address: its base58 text.
pub fn finish_with_address(reply: Result<Pubkey, String>) -> (r: Result<String, Error>)
    ensures
        (match r {
            Ok(text) => Ok::<Seq<char>, ErrorView>(text@),
            Err(e) => Err(e@),
        }) == (match reply {
            Ok(key) => Ok::<Seq<char>, ErrorView>(pubkey_text(key@)),
            Err(e) => Err(failure(e@)),
        }),
        reply matches Ok(key) ==> r matches Ok(text) && reads_as(text@, key@),
{
    match reply {
        Ok(key) => Ok(encode_pubkey(&key)),
        Err(e) => Err(sdk_error_to_napi(e)),
    }
}

impl Surfnet {
    /// Starts a network with the default settings (offline, a block for each transaction, ten SOL
    /// for the payer).
    pub fn start() -> (r: (Startup, StartAction))
        ensures
            startup::consistent(r.0@),
            r.1@ == StartActionView::AllocatePort,
            r.0@ matches StartupView::BindPort(builder, payer) && {
                &&& builder == default_settings()
                &&& is_keypair(payer)
            },
    {
        crate::sdk::surfnet::Surfnet::start()
    }

    /// Starts a network with a configuration, unless there is a complaint about it. A payer that
    /// is given is the one that is used.
    pub fn start_with_config(config: SurfnetConfig) -> (r: Result<(Startup, StartAction), Error>)
        ensures
            match (config_complaint(config), r) {
                (Some(e), Err(error)) => error@ == e,
                (None, Ok(begun)) => {
                    &&& startup::consistent(begun.0@)
                    &&& begun.1@ == StartActionView::AllocatePort
                    &&& begun.0@ matches StartupView::BindPort(builder, payer) && {
                        &&& builder == (BuilderView { payer: None, ..configured(config) })
                        &&& config.payer_secret_key matches Some(bytes) ==> payer == bytes@
                        &&& config.payer_secret_key is None ==> is_keypair(payer)
                    }
                },
                _ => false,
            },
    {
        match configure(config) {
            Ok(builder) => Ok(builder.start()),
            Err(e) => Err(e),
        }
    }

    /// What JavaScript gets for a start that has ended.
    pub fn started(result: Result<crate::sdk::surfnet::Surfnet, String>) -> (r: Result<
        Surfnet,
        Error,
    >)
        ensures
            match (result, r) {
                (Ok(inner), Ok(surfnet)) => surfnet@ == inner@ && surfnet.id() == inner.id(),
                (Err(e), Err(error)) => error@ == failure(e@),
                _ => false,
            },
    {
        match result {
            Ok(inner) => Ok(Surfnet { inner }),
            Err(e) => Err(sdk_error_to_napi(e)),
        }
    }

    /// The identifier of this network.
    pub closed spec fn id(self) -> Seq<char> {
        self.inner.id()
    }

    /// The HTTP RPC URL (e.g. `http://127.0.0.1:12345`).
    pub fn rpc_url(&self) -> (r: String)
        ensures
            r@ == self@.rpc_url,
    {
        self.inner.rpc_url().to_owned()
    }

    /// The WebSocket URL (e.g. `ws://127.0.0.1:12346`).
    pub fn ws_url(&self) -> (r: String)
        ensures
            r@ == self@.ws_url,
    {
        self.inner.ws_url().to_owned()
    }

    /// The address of the funded payer in base58.
    pub fn payer(&self) -> (r: String)
        ensures
            r@ == pubkey_text(public_half(self@.payer)),
            reads_as(r@, public_half(self@.payer)),
    {
        encode_pubkey(&self.inner.payer().pubkey())
    }

    /// The sixty-four bytes of the funded payer's keypair.
    pub fn payer_secret_key(&self) -> (r: Vec<u8>)
        ensures
            r@ == self@.payer,
            r@.len() == 64,
    {
        self.inner.payer().to_bytes()
    }

    /// The identifier of this network.
    pub fn instance_id(&self) -> (r: String)
        ensures
            r@ == self.id(),
    {
        self.inner.instance_id().to_owned()
    }

    /// What JavaScript gets for the reports that are buffered, in their order.
    pub fn drain_events(&self, buffered: Vec<SimnetEvent>) -> (r: Vec<SimnetEventValue>)
        ensures
            event_values(r@) == buffered@.map_values(|event: SimnetEvent| event_value(event)),
    {
        let mut rest: Vec<SimnetEvent> = buffered;
        let mut reversed: Vec<SimnetEvent> = Vec::new();
        while rest.len() > 0
            invariant
                rest@ + reversed@.reverse() =~= buffered@,
            decreases rest@.len(),
        {
            if let Some(event) = rest.pop() {
                reversed.push(event);
            }
        }
        let ghost mapped = buffered@.map_values(|event: SimnetEvent| event_value(event));
        let mut values: Vec<SimnetEventValue> = Vec::new();
        while reversed.len() > 0
            invariant
                mapped == buffered@.map_values(|event: SimnetEvent| event_value(event)),
                values@.len() <= buffered@.len(),
                reversed@.reverse() =~= buffered@.skip(values@.len() as int),
                event_values(values@) =~= mapped.take(values@.len() as int),
            decreases reversed@.len(),
        {
            let ghost done = values@.len() as int;
            let ghost left = reversed@;
            assert(left.last() == left.reverse()[0]);
            assert(left.reverse() == buffered@.skip(done));
            assert(buffered@.skip(done)[0] == buffered@[done]);
            if let Some(event) = reversed.pop() {
                values.push(SimnetEventValue::from(event));
                proof {
                    assert(event == buffered@[done]);
                    assert(reversed@.reverse() =~= left.reverse().skip(1));
                    assert(reversed@.reverse() =~= buffered@.skip(done + 1));
                    assert(event_values(values@) =~= mapped.take(done + 1));
                }
            }
        }
        assert(mapped.take(values@.len() as int) =~= mapped);
        values
    }

    fn send(&self, request: Result<Cheatcode, Error>) -> (r: Result<CheatcodeCall, Error>)
        ensures
            called(r) == sent_to(self@, requested(request)),
    {
        match request {
            Ok(code) => Ok(CheatcodeCall { rpc_url: self.inner.cheatcodes().rpc_url, code }),
            Err(e) => Err(e),
        }
    }

    /// Funds an account with lamports.
    pub fn fund_sol(&self, address: String, lamports: Number) -> (r: Result<CheatcodeCall, Error>)
        ensures
            called(r) == sent_to(self@, fund_sol_request(address@, lamports)),
    {
        self.send(cheatcode::fund_sol(address.as_str(), lamports))
    }

    /// Funds several accounts, each with its own lamports.
    pub fn fund_sol_many(&self, accounts: Vec<SolAccountFunding>) -> (r: Result<
        CheatcodeCall,
        Error,
    >)
        ensures
            called(r) == sent_to(self@, fund_sol_many_request(accounts@)),
    {
        self.send(cheatcode::fund_sol_many(&accounts))
    }

    /// Funds a token account, which is made if it is not there. The token program is SPL Token
    /// unless another is given, for Token-2022.
    pub fn fund_token(
        &self,
        owner: String,
        mint: String,
        amount: Number,
        token_program: Option<String>,
    ) -> (r: Result<CheatcodeCall, Error>)
        ensures
            called(r) == sent_to(
                self@,
                fund_token_request(owner@, mint@, amount, option_text(token_program)),
            ),
    {
        self.send(
            cheatcode::fund_token(owner.as_str(), mint.as_str(), amount, &token_program),
        )
    }

    /// Sets the token balance of a wallet for a mint.
    pub fn set_token_balance(
        &self,
        owner: String,
        mint: String,
        amount: Number,
        token_program: Option<String>,
    ) -> (r: Result<CheatcodeCall, Error>)
        ensures
            called(r) == sent_to(
                self@,
                set_token_balance_request(owner@, mint@, amount, option_text(token_program)),
            ),
    {
        self.send(
            cheatcode::set_token_balance(owner.as_str(), mint.as_str(), amount, &token_program),
        )
    }

    /// Funds several wallets with the same token and amount.
    pub fn fund_token_many(
        &self,
        owners: Vec<String>,
        mint: String,
        amount: Number,
        token_program: Option<String>,
    ) -> (r: Result<CheatcodeCall, Error>)
        ensures
            called(r) == sent_to(
                self@,
                fund_token_many_request(
                    texts(owners@),
                    mint@,
                    amount,
                    option_text(token_program),
                ),
            ),
    {
        self.send(cheatcode::fund_token_many(&owners, mint.as_str(), amount, &token_program))
    }

    /// Sets or clears the advanced state of a wallet's token account.
    pub fn set_token_account(
        &self,
        owner: String,
        mint: String,
        update: SetTokenAccountUpdate,
        token_program: Option<String>,
    ) -> (r: Result<CheatcodeCall, Error>)
        ensures
            called(r) == sent_to(
                self@,
                set_token_account_request(owner@, mint@, update, option_text(token_program)),
            ),
    {
        self.send(
            cheatcode::set_token_account(owner.as_str(), mint.as_str(), update, &token_program),
        )
    }

    /// Sets an account's lamports, data and owner.
    pub fn set_account(
        &self,
        address: String,
        lamports: Number,
        data: Vec<u8>,
        owner: String,
    ) -> (r: Result<CheatcodeCall, Error>)
        ensures
            called(r) == sent_to(
                self@,
                set_account_request(address@, lamports, data@, owner@),
            ),
    {
        self.send(cheatcode::set_account(address.as_str(), lamports, data, owner.as_str()))
    }

    /// Resets an account to its upstream or absent state.
    pub fn reset_account(&self, address: String, options: Option<ResetAccountOptions>) -> (r:
        Result<CheatcodeCall, Error>)
        ensures
            called(r) == sent_to(self@, reset_account_request(address@, options)),
    {
        self.send(cheatcode::reset_account(address.as_str(), options))
    }

    /// Registers an account for streaming from the remote network.
    pub fn stream_account(&self, address: String, options: Option<StreamAccountOptions>) -> (r:
        Result<CheatcodeCall, Error>)
        ensures
            called(r) == sent_to(self@, stream_account_request(address@, options)),
    {
        self.send(cheatcode::stream_account(address.as_str(), options))
    }

    /// Moves time forward to an epoch.
    pub fn time_travel_to_epoch(&self, epoch: Number) -> (r: Result<CheatcodeCall, Error>)
        ensures
            called(r) == sent_to(self@, time_travel_to_epoch_request(epoch)),
    {
        self.send(cheatcode::time_travel_to_epoch(epoch))
    }

    /// Moves time forward to a slot.
    pub fn time_travel_to_slot(&self, slot: Number) -> (r: Result<CheatcodeCall, Error>)
        ensures
            called(r) == sent_to(self@, time_travel_to_slot_request(slot)),
    {
        self.send(cheatcode::time_travel_to_slot(slot))
    }

    /// Moves time forward to a point in time, in milliseconds since the Unix epoch.
    pub fn time_travel_to_timestamp(&self, timestamp: Number) -> (r: Result<CheatcodeCall, Error>)
        ensures
            called(r) == sent_to(self@, time_travel_to_timestamp_request(timestamp)),
    {
        self.send(cheatcode::time_travel_to_timestamp(timestamp))
    }

    /// Deploys a program whose artifacts are looked for locally.
    pub fn deploy_program(&self, program_name: String) -> (r: CheatcodeCall)
        ensures
            r@ == (CallView {
                rpc_url: self@.rpc_url,
                code: CheatcodeView::DeployProgram { program_name: program_name@ },
            }),
    {
        CheatcodeCall {
            rpc_url: self.inner.cheatcodes().rpc_url,
            code: Cheatcode::DeployProgram { program_name },
        }
    }

    /// Deploys a program from its bytes or from a file.
    pub fn deploy(&self, options: DeployOptions) -> (r: Result<CheatcodeCall, Error>)
        ensures
            called(r) == sent_to(self@, deploy_request(options)),
    {
        self.send(cheatcode::deploy(options))
    }

    /// Asks for the associated token address of a wallet for a mint.
    pub fn get_ata(&self, owner: String, mint: String, token_program: Option<String>) -> (r:
        Result<CheatcodeCall, Error>)
        ensures
            called(r) == sent_to(
                self@,
                get_ata_request(owner@, mint@, option_text(token_program)),
            ),
    {
        self.send(cheatcode::get_ata(owner.as_str(), mint.as_str(), &token_program))
    }

    /// Makes a random keypair.
    pub fn new_keypair() -> (r: KeypairInfo)
        ensures
            is_keypair(r.secret_key@),
            r.secret_key@.len() == 64,
            r.public_key@ == pubkey_text(public_half(r.secret_key@)),
            reads_as(r.public_key@, public_half(r.secret_key@)),
    {
        let keypair = random_keypair();
        KeypairInfo {
            public_key: encode_pubkey(&keypair.pubkey()),
            secret_key: keypair.to_bytes(),
        }
    }

    /// Starts to shut the network down: both servers are closed and their ports freed. A network
    /// that was shut down before is left alone, and that is a success.
    pub fn stop(&self) -> (r: (Stopping, StopAction))
        ensures
            stop::consistent(r.0),
            (r.0, r.1@) == stop::first_step(self@.stopped),
    {
        self.inner.stop()
    }

    /// Takes what came of the last action of a shutdown and says what to do next.
    pub fn stop_step(&mut self, state: Stopping, event: StopEvent) -> (r: (Stopping, StopAction))
        requires
            stop::consistent(state),
            stop::answers(state, event),
        ensures
            stop::consistent(r.0),
            (r.0, r.1@) == stop::next_step(state, event),
            final(self)@ == stop::after_step(old(self)@, r.1@),
            final(self).id() == old(self).id(),
            (r.1 matches StopAction::Finish(Ok(_))) <==> state == Stopping::Acknowledging(1) && (
            event matches StopEvent::Received(report) && report is Shutdown),
            final(self)@.stopped <==> old(self)@.stopped || (r.1 matches StopAction::Finish(Ok(_))),
            final(self)@.rpc_url == old(self)@.rpc_url,
            final(self)@.ws_url == old(self)@.ws_url,
            final(self)@.payer == old(self)@.payer,
    {
        self.inner.stop_step(state, event)
    }

    /// Whether the runtime has to be told to terminate when the network is dropped.
    pub fn terminate_on_drop(&self) -> (r: bool)
        ensures
            r == !self@.stopped,
    {
        self.inner.terminate_on_drop()
    }
}

} // verus!
