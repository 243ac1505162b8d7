//! What a configuration from JavaScript sets.

use vstd::prelude::*;

use crate::keys::{is_keypair, keys_bytes, pubkey_from_text, reads_as};
use crate::node::args::{pubkey_arg, pubkeys_arg, Error, ErrorView};
use crate::node::config::{configure, SurfnetConfig};
use crate::node::laws::law_addresses_one_by_one;
use crate::node::request_laws::{
    is_address, is_optional_amount, is_refused, refuses_address, refuses_number,
};
use crate::node::surfnet::Surfnet;
use crate::sdk::builder::{BlockProductionMode, SurfnetBuilder};
use crate::sdk::startup::{StartAction, Startup};
use crate::text::texts;

verus! {

/// Whether every address of an optional list stands for an account.
pub open spec fn are_optional_addresses(list: Option<Vec<String>>) -> bool {
    list matches Some(given) ==> forall|i: int|
        0 <= i < given@.len() ==> is_address((#[trigger] given@[i])@)
}

/// Whether an optional secret key is the bytes of a keypair.
pub open spec fn is_optional_keypair(key: Option<Vec<u8>>) -> bool {
    key matches Some(bytes) ==> is_keypair(bytes@)
}

proof fn lemma_addresses(list: Seq<String>, field: Seq<char>)
    ensures
        pubkeys_arg(texts(list), field) is Ok <==> forall|i: int|
            0 <= i < list.len() ==> is_address((#[trigger] list[i])@),
        pubkeys_arg(texts(list), field) matches Ok(keys) ==> {
            &&& keys.len() == list.len()
            &&& forall|i: int| 0 <= i < list.len() ==> reads_as((#[trigger] list[i])@, keys[i])
        },
        forall|i: int|
            0 <= i < list.len() && !is_address((#[trigger] list[i])@) && (forall|j: int|
                0 <= j < i ==> is_address((#[trigger] list[j])@)) ==> pubkeys_arg(
                texts(list),
                field,
            ) == Err::<Seq<Seq<u8>>, ErrorView>(
                pubkey_arg(pubkey_from_text(list[i]@), field)->Err_0,
            ),
{
    let all = texts(list);
    law_addresses_one_by_one(all, field);
    assert(all.len() == list.len());
    assert(forall|i: int| 0 <= i < list.len() ==> all[i] == (#[trigger] list[i])@);
    match pubkeys_arg(all, field) {
        Ok(keys) => {
            assert forall|i: int| 0 <= i < list.len() implies is_address((#[trigger] list[i])@)
                && reads_as(list[i]@, keys[i]) by {
                assert(pubkey_arg(pubkey_from_text(all[i]), field) is Ok);
            }
        },
        Err(e) => {
            let first = choose|i: int|
                {
                    &&& 0 <= i < all.len()
                    &&& #[trigger] pubkey_arg(pubkey_from_text(all[i]), field) == Err::<
                        Seq<u8>,
                        ErrorView,
                    >(e)
                    &&& forall|j: int|
                        0 <= j < i ==> #[trigger] pubkey_arg(
                            pubkey_from_text(all[j]),
                            field,
                        ) is Ok
                };
            assert(!is_address(list[first]@));
            assert forall|i: int|
                0 <= i < list.len() && !is_address((#[trigger] list[i])@) && (forall|j: int|
                    0 <= j < i ==> is_address((#[trigger] list[j])@)) implies i == first by {
                if i < first {
                    assert(pubkey_arg(pubkey_from_text(all[i]), field) is Ok);
                } else if first < i {
                    assert(is_address(list[first]@));
                }
            }
        },
    }
}

/// A configuration sets what it names and leaves the rest at its default: offline unless a remote or
/// `offline` says otherwise, a block for each transaction, slots of one millisecond, ten SOL for the
/// payer alone, blockhashes checked, no payer.
pub proof fn law_configuration_is_carried_over(
    config: SurfnetConfig,
    r: Result<SurfnetBuilder, Error>,
)
    requires
        call_ensures(configure, (config,), r),
    ensures
        r is Ok <==> {
            &&& !(config.block_production_mode matches Some(Err(_)))
            &&& is_optional_amount(config.slot_time_ms)
            &&& is_optional_amount(config.airdrop_sol)
            &&& are_optional_addresses(config.airdrop_addresses)
            &&& is_optional_keypair(config.payer_secret_key)
        },
        r matches Ok(builder) ==> {
            &&& builder.offline_mode == (config.remote_rpc_url is None && config.offline != Some(
                false,
            ))
            &&& config.remote_rpc_url matches Some(url) ==> (
            builder.remote_rpc_url matches Some(set) && set@ == url@)
            &&& config.remote_rpc_url is None ==> builder.remote_rpc_url is None
            &&& config.block_production_mode matches Some(Ok(mode)) ==> match mode {
                BlockProductionMode::Transaction => builder.block_production_mode is Transaction,
                BlockProductionMode::Named(name) => builder.block_production_mode matches
                    BlockProductionMode::Named(set) && set@ == name@,
            }
            &&& config.block_production_mode is None ==> builder.block_production_mode is Transaction
            &&& config.slot_time_ms matches Some(ms) ==> ms.unsigned() == Some(
                builder.slot_time_ms,
            )
            &&& config.slot_time_ms is None ==> builder.slot_time_ms == 1
            &&& config.airdrop_sol matches Some(lamports) ==> lamports.unsigned() == Some(
                builder.airdrop_lamports,
            )
            &&& config.airdrop_sol is None ==> builder.airdrop_lamports == 10_000_000_000
            &&& config.airdrop_addresses matches Some(list) ==> {
                &&& builder.airdrop_addresses@.len() == list@.len()
                &&& forall|i: int|
                    0 <= i < list@.len() ==> reads_as(
                        (#[trigger] list@[i])@,
                        builder.airdrop_addresses@[i]@,
                    )
            }
            &&& config.airdrop_addresses is None ==> builder.airdrop_addresses@.len() == 0
            &&& !builder.skip_blockhash_check
            &&& config.payer_secret_key matches Some(key) ==> (
            builder.payer matches Some(payer) && payer@ == key@)
            &&& config.payer_secret_key is None ==> builder.payer is None
        },
{
    if let Some(list) = config.airdrop_addresses {
        lemma_addresses(list@, "airdropAddresses"@);
        if let Ok(builder) = r {
            let keys = pubkeys_arg(texts(list@), "airdropAddresses"@)->Ok_0;
            assert(keys_bytes(builder.airdrop_addresses@) == keys);
            assert forall|i: int| 0 <= i < list@.len() implies reads_as(
                (#[trigger] list@[i])@,
                builder.airdrop_addresses@[i]@,
            ) by {
                assert(keys[i] == builder.airdrop_addresses@[i]@);
            }
        }
    } else if let Ok(builder) = r {
        assert(keys_bytes(builder.airdrop_addresses@).len() == builder.airdrop_addresses@.len());
    }
}

/// A configuration is refused for its first setting that is not acceptable: the mode, the slot time,
/// the airdrop, the first address that stands for no account, the payer's secret key.
pub proof fn law_configuration_refusals(config: SurfnetConfig, r: Result<SurfnetBuilder, Error>)
    requires
        call_ensures(configure, (config,), r),
    ensures
        if let Some(Err(e)) = config.block_production_mode {
            is_refused(r, "Invalid blockProductionMode: "@ + e@)
        } else if !is_optional_amount(config.slot_time_ms) {
            refuses_number(r, "slotTimeMs"@)
        } else if !is_optional_amount(config.airdrop_sol) {
            refuses_number(r, "airdropSol"@)
        } else if !are_optional_addresses(config.airdrop_addresses) {
            let list = config.airdrop_addresses->Some_0@;
            forall|i: int|
                0 <= i < list.len() && !is_address((#[trigger] list[i])@) && (forall|j: int|
                    0 <= j < i ==> is_address((#[trigger] list[j])@)) ==> refuses_address(
                    r,
                    list[i]@,
                    "airdropAddresses"@,
                )
        } else {
            !is_optional_keypair(config.payer_secret_key) ==> is_refused(
                r,
                "Invalid "@ + "payerSecretKey"@ + ": "@ + "signature error"@,
            )
        },
{
    if let Some(list) = config.airdrop_addresses {
        lemma_addresses(list@, "airdropAddresses"@);
    }
}

/// Starting with a configuration starts with exactly the settings that the configuration makes, or
/// is refused as the configuration is.
pub proof fn law_start_with_config(
    config: SurfnetConfig,
    configured: Result<SurfnetBuilder, Error>,
    r: Result<(Startup, StartAction), Error>,
)
    requires
        call_ensures(configure, (config,), configured),
        call_ensures(Surfnet::start_with_config, (config,), r),
    ensures
        match (configured, r) {
            (Ok(builder), Ok(begun)) => {
                &&& begun.1 is AllocatePort
                &&& begun.0 matches Startup::BindPort(set, payer) && {
                    &&& set.offline_mode == builder.offline_mode
                    &&& set@.remote_rpc_url == builder@.remote_rpc_url
                    &&& set.block_production_mode@ == builder.block_production_mode@
                    &&& set.slot_time_ms == builder.slot_time_ms
                    &&& set@.airdrop_addresses == builder@.airdrop_addresses
                    &&& set.airdrop_lamports == builder.airdrop_lamports
                    &&& set.skip_blockhash_check == builder.skip_blockhash_check
                    &&& builder.payer matches Some(given) ==> payer@ == given@
                    &&& is_keypair(payer@)
                }
            },
            (Err(e), Err(error)) => error.status == e.status && error.reason@ == e.reason@,
            _ => false,
        },
{
}

} // verus!
