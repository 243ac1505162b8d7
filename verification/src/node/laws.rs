//! What holds of the JavaScript interface as a whole.

use vstd::prelude::*;

use crate::keys::{is_keypair, pubkey_from_text, reads_as};
use crate::node::args::{invalid, keypair_arg, number_arg, pubkey_arg, pubkeys_arg, ErrorView};
use crate::node::cheatcode::{
    close_authority_arg, delegate_arg, deploy_request, fund_sol_many_request, fund_sol_request,
    set_token_account_request, CheatcodeView, DeployOptions, SetTokenAccountUpdate,
    SolAccountFunding,
};
use crate::node::config::{config_complaint, configured, SurfnetConfig};
use crate::number::Number;
use crate::sdk::builder::BuilderView;
use crate::sdk::laws::{course, law_started_network, orderly};
use crate::sdk::startup::{answers, next_step, StartActionView, StartEvent, StartupView};
use crate::sdk::surfnet::SurfnetView;

verus! {

/// A network with a remote is never offline, whatever the configuration says of `offline`; without
/// a remote it is offline unless `offline` is set to false.
pub proof fn law_remote_implies_online(config: SurfnetConfig)
    ensures
        config.remote_rpc_url is Some ==> !configured(config).offline_mode,
        config.remote_rpc_url is None && config.offline != Some(false) ==> configured(
            config,
        ).offline_mode,
        config.offline == Some(false) ==> !configured(config).offline_mode,
{
}

/// A network that was started with a payer's secret key and has come up has exactly that payer.
pub proof fn law_payer_is_kept(
    config: SurfnetConfig,
    bytes: Seq<u8>,
    events: Seq<StartEvent>,
    event: StartEvent,
    surfnet: SurfnetView,
)
    requires
        config_complaint(config) is None,
        config.payer_secret_key matches Some(key) && key@ == bytes,
        ({
            let begun = StartupView::BindPort(
                BuilderView { payer: None, ..configured(config) },
                bytes,
            );
            &&& orderly(begun, events)
            &&& answers(course(begun, events), event)
            &&& next_step(course(begun, events), event).1 == StartActionView::Finish(Ok(surfnet))
        }),
    ensures
        surfnet.payer == bytes,
        is_keypair(bytes),
{
    law_started_network(
        BuilderView { payer: None, ..configured(config) },
        bytes,
        events,
        event,
        surfnet,
    );
    assert(keypair_arg(bytes, "payerSecretKey"@) is Ok);
}

/// The bytes of a keypair are acceptable as a payer: a configuration that sets nothing else is
/// taken.
pub proof fn law_keypair_is_accepted(config: SurfnetConfig, bytes: Seq<u8>)
    requires
        is_keypair(bytes),
        config.payer_secret_key matches Some(key) && key@ == bytes,
        config.block_production_mode is None,
        config.slot_time_ms is None,
        config.airdrop_sol is None,
        config.airdrop_addresses is None,
    ensures
        config_complaint(config) is None,
        configured(config).payer == Some(bytes),
{
}

/// An address that was handed out as text is accepted in any argument, and stands for the same
/// account.
pub proof fn law_address_is_read_back(text: Seq<char>, bytes: Seq<u8>, field: Seq<char>)
    requires
        reads_as(text, bytes),
    ensures
        pubkey_arg(pubkey_from_text(text), field) == Ok::<Seq<u8>, ErrorView>(bytes),
{
}

/// A list of addresses is acceptable exactly when each of them is, and then stands for the
/// accounts that they stand for, in order; otherwise the first that is not acceptable is
/// complained of.
pub proof fn law_addresses_one_by_one(values: Seq<Seq<char>>, field: Seq<char>)
    ensures
        match pubkeys_arg(values, field) {
            Ok(keys) => {
                &&& keys.len() == values.len()
                &&& forall|i: int|
                    0 <= i < values.len() ==> #[trigger] pubkey_arg(
                        pubkey_from_text(values[i]),
                        field,
                    ) == Ok::<Seq<u8>, ErrorView>(keys[i])
            },
            Err(e) => exists|i: int|
                {
                    &&& 0 <= i < values.len()
                    &&& #[trigger] pubkey_arg(pubkey_from_text(values[i]), field) == Err::<
                        Seq<u8>,
                        ErrorView,
                    >(e)
                    &&& forall|j: int|
                        0 <= j < i ==> #[trigger] pubkey_arg(
                            pubkey_from_text(values[j]),
                            field,
                        ) is Ok
                },
        },
    decreases values.len(),
{
    if values.len() > 0 {
        let init = values.drop_last();
        law_addresses_one_by_one(init, field);
        assert(forall|i: int| 0 <= i < init.len() ==> #[trigger] values[i] == init[i]);
        match pubkeys_arg(init, field) {
            Ok(keys) => {
                assert forall|i: int| 0 <= i < init.len() implies #[trigger] pubkey_arg(
                    pubkey_from_text(values[i]),
                    field,
                ) == Ok::<Seq<u8>, ErrorView>(keys[i]) by {
                    assert(pubkey_arg(pubkey_from_text(init[i]), field) == Ok::<
                        Seq<u8>,
                        ErrorView,
                    >(keys[i]));
                }
                let last = values.len() - 1;
                assert(pubkey_arg(pubkey_from_text(values[last]), field) is Ok
                    || pubkey_arg(pubkey_from_text(values[last]), field) is Err);
            },
            Err(e) => {
                let i = choose|i: int|
                    {
                        &&& 0 <= i < init.len()
                        &&& #[trigger] pubkey_arg(pubkey_from_text(init[i]), field) == Err::<
                            Seq<u8>,
                            ErrorView,
                        >(e)
                        &&& forall|j: int|
                            0 <= j < i ==> #[trigger] pubkey_arg(
                                pubkey_from_text(init[j]),
                                field,
                            ) is Ok
                    };
                assert(pubkey_arg(pubkey_from_text(values[i]), field) == Err::<Seq<u8>, ErrorView>(
                    e,
                ));
                assert forall|j: int| 0 <= j < i implies #[trigger] pubkey_arg(
                    pubkey_from_text(values[j]),
                    field,
                ) is Ok by {
                    assert(pubkey_arg(pubkey_from_text(init[j]), field) is Ok);
                }
            },
        }
    }
}

/// Whether funding the account on its own is acceptable.
pub open spec fn fundable(account: SolAccountFunding) -> bool {
    fund_sol_request(account.address@, account.lamports) is Ok
}

/// Funding several accounts funds each of them as it would be funded on its own, in order. It is
/// acceptable exactly when funding each of them is.
pub proof fn law_funding_one_by_one(accounts: Seq<SolAccountFunding>)
    ensures
        fund_sol_many_request(accounts) is Ok <==> forall|i: int|
            0 <= i < accounts.len() ==> fundable(#[trigger] accounts[i]),
        fund_sol_many_request(accounts) matches Ok(code) ==> code matches
            CheatcodeView::FundSolMany { addresses, lamports } && {
            &&& addresses.len() == accounts.len()
            &&& lamports.len() == accounts.len()
            &&& forall|i: int|
                0 <= i < accounts.len() ==> fund_sol_request(
                    (#[trigger] accounts[i]).address@,
                    accounts[i].lamports,
                ) == Ok::<CheatcodeView, ErrorView>(
                    CheatcodeView::FundSol { address: addresses[i], lamports: lamports[i] },
                )
        },
    decreases accounts.len(),
{
    if accounts.len() > 0 {
        let init = accounts.drop_last();
        law_funding_one_by_one(init);
        assert(forall|i: int| 0 <= i < init.len() ==> #[trigger] accounts[i] == init[i]);
        assert(accounts.last() == accounts[accounts.len() - 1]);
        if fund_sol_many_request(init) is Err {
            let i = choose|i: int| 0 <= i < init.len() && !fundable(#[trigger] init[i]);
            assert(!fundable(accounts[i]));
        } else {
            assert forall|i: int| 0 <= i < init.len() implies fundable(#[trigger] accounts[i]) by {
                assert(fundable(init[i]));
            }
        }
    }
}

/// A change cannot both set and clear an authority: it is refused, whatever else it says.
pub proof fn law_set_and_clear_exclude_each_other(
    owner: Seq<char>,
    mint: Seq<char>,
    update: SetTokenAccountUpdate,
    token_program: Option<Seq<char>>,
)
    requires
        (update.delegate is Some && update.clear_delegate == Some(true)) || (
        update.close_authority is Some && update.clear_close_authority == Some(true)),
    ensures
        set_token_account_request(owner, mint, update, token_program) is Err,
{
    assert(delegate_arg(update) is Err || close_authority_arg(update) is Err);
}

/// A program cannot be deployed from nothing: without a path and without bytes the request is
/// refused, and with one of them only the program's address can be complained of.
pub proof fn law_deploy_needs_a_source(options: DeployOptions)
    ensures
        options.so_path is None && options.so_bytes is None ==> deploy_request(options) is Err,
        options.so_path is Some || options.so_bytes is Some ==> (deploy_request(options) is Ok
            <==> pubkey_from_text(options.program_id@) is Ok),
{
}

/// A number is refused in the same words wherever it stands, and an acceptable one is never
/// changed but for rounding at the top: what is read is the number itself, or the largest `u64`
/// for the double next above it.
pub proof fn law_number_is_read_exactly(value: Number, field: Seq<char>)
    ensures
        match number_arg(value, field) {
            Ok(n) => {
                &&& value.is_finite()
                &&& value.whole() matches Some(whole) && (n == whole || (n == u64::MAX && whole
                    == u64::MAX + 1))
            },
            Err(e) => e == invalid(field + " must be a non-negative integer"@),
        },
{
}

} // verus!
