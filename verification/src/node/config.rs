//! Configuring a network from JavaScript.

use vstd::prelude::*;
use vstd::string::*;

use crate::node::args::{
    f64_to_u64, invalid, keypair_arg, number_arg, parse_keypair, parse_pubkeys, pubkeys_arg, Error,
    ErrorView, Status,
};
use crate::number::Number;
use crate::sdk::builder::{BlockProductionMode, BuilderView, ModeView, SurfnetBuilder};
use crate::sdk::surfnet::Surfnet;
use crate::text::{cat2, option_text, texts};

verus! {

/// The configuration of a network. What is left out keeps its default.
#[derive(Debug)]
pub struct SurfnetConfig {
    pub offline: Option<bool>,
    pub remote_rpc_url: Option<String>,
    /// What the runtime makes of the mode's name: the mode, or its complaint.
    pub block_production_mode: Option<Result<BlockProductionMode, String>>,
    pub slot_time_ms: Option<Number>,
    /// The lamports of the airdrop.
    pub airdrop_sol: Option<Number>,
    pub airdrop_addresses: Option<Vec<String>>,
    pub payer_secret_key: Option<Vec<u8>>,
}

/// The earlier of two complaints.
pub open spec fn earlier(first: Option<ErrorView>, second: Option<ErrorView>) -> Option<ErrorView> {
    if first is Some {
        first
    } else {
        second
    }
}

/// The complaint about a checked argument, if there is one.
pub open spec fn complaint<T>(checked: Result<T, ErrorView>) -> Option<ErrorView> {
    match checked {
        Ok(_) => None,
        Err(e) => Some(e),
    }
}

/// The complaint about an optional number, if there is one.
pub open spec fn number_complaint(value: Option<Number>, field: Seq<char>) -> Option<ErrorView> {
    match value {
        Some(number) => complaint(number_arg(number, field)),
        None => None,
    }
}

/// An optional number, or what it is where it is left out.
pub open spec fn number_or(value: Option<Number>, otherwise: u64) -> u64 {
    match value {
        Some(number) => number.unsigned()->Some_0,
        None => otherwise,
    }
}

/// The complaint about a configuration, if there is one. Its fields are looked at in this order:
/// the mode, the slot time, the airdrop, the addresses, the payer.
pub open spec fn config_complaint(config: SurfnetConfig) -> Option<ErrorView> {
    let mode = match config.block_production_mode {
        Some(Err(e)) => Some(invalid("Invalid blockProductionMode: "@ + e@)),
        _ => None,
    };
    let addresses = match config.airdrop_addresses {
        Some(list) => complaint(pubkeys_arg(texts(list@), "airdropAddresses"@)),
        None => None,
    };
    let payer = match config.payer_secret_key {
        Some(bytes) => complaint(keypair_arg(bytes@, "payerSecretKey"@)),
        None => None,
    };
    earlier(
        mode,
        earlier(
            number_complaint(config.slot_time_ms, "slotTimeMs"@),
            earlier(
                number_complaint(config.airdrop_sol, "airdropSol"@),
                earlier(addresses, payer),
            ),
        ),
    )
}

/// What an acceptable configuration sets. A remote network is never offline, whatever `offline`
/// says.
pub open spec fn configured(config: SurfnetConfig) -> BuilderView {
    BuilderView {
        offline_mode: if config.remote_rpc_url is Some {
            false
        } else {
            config.offline != Some(false)
        },
        remote_rpc_url: option_text(config.remote_rpc_url),
        block_production_mode: match config.block_production_mode {
            Some(Ok(mode)) => mode@,
            _ => ModeView::Transaction,
        },
        slot_time_ms: number_or(config.slot_time_ms, 1),
        airdrop_addresses: match config.airdrop_addresses {
            Some(list) => pubkeys_arg(texts(list@), "airdropAddresses"@)->Ok_0,
            None => Seq::empty(),
        },
        airdrop_lamports: number_or(config.airdrop_sol, 10_000_000_000),
        skip_blockhash_check: false,
        payer: match config.payer_secret_key {
            Some(bytes) => Some(bytes@),
            None => None,
        },
    }
}

/// The settings, or the complaint about them.
pub open spec fn checked_settings(r: Result<SurfnetBuilder, Error>) -> Result<
    BuilderView,
    ErrorView,
> {
    match r {
        Ok(builder) => Ok(builder@),
        Err(e) => Err(e@),
    }
}

/// Reads a configuration.
pub fn configure(config: SurfnetConfig) -> (r: Result<SurfnetBuilder, Error>)
    ensures
        checked_settings(r) == match config_complaint(config) {
            Some(e) => Err::<BuilderView, ErrorView>(e),
            None => Ok(configured(config)),
        },
{
    let mut builder: SurfnetBuilder = Surfnet::builder();
    if let Some(offline) = config.offline {
        builder = builder.offline(offline);
    }
    if let Some(url) = config.remote_rpc_url {
        builder = builder.remote_rpc_url(url);
    }
    match config.block_production_mode {
        None => {},
        Some(Ok(mode)) => {
            builder = builder.block_production_mode(mode);
        },
        Some(Err(e)) => {
            return Err(
                Error {
                    status: Status::InvalidArg,
                    reason: cat2("Invalid blockProductionMode: ", e.as_str()),
                },
            );
        },
    }
    if let Some(ms) = config.slot_time_ms {
        match f64_to_u64(ms, "slotTimeMs") {
            Ok(ms) => {
                builder = builder.slot_time_ms(ms);
            },
            Err(e) => {
                return Err(e);
            },
        }
    }
    if let Some(lamports) = config.airdrop_sol {
        match f64_to_u64(lamports, "airdropSol") {
            Ok(lamports) => {
                builder = builder.airdrop_sol(lamports);
            },
            Err(e) => {
                return Err(e);
            },
        }
    }
    if let Some(addresses) = config.airdrop_addresses {
        match parse_pubkeys(&addresses, "airdropAddresses") {
            Ok(addresses) => {
                builder = builder.airdrop_addresses(addresses);
            },
            Err(e) => {
                return Err(e);
            },
        }
    }
    if let Some(secret_key) = config.payer_secret_key {
        match parse_keypair(secret_key.as_slice(), "payerSecretKey") {
            Ok(payer) => {
                builder = builder.payer(payer);
            },
            Err(e) => {
                return Err(e);
            },
        }
    }
    Ok(builder)
}

} // verus!
