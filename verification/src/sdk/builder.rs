//! Configuring a local network before it is started.

use vstd::prelude::*;

use crate::keys::{keys_bytes, Keypair, Pubkey};
use crate::text::option_text;

verus! {

/// How blocks are produced.
#[derive(Debug)]
pub enum BlockProductionMode {
    /// A block for each transaction.
    Transaction,
    /// Another mode of the runtime, by the runtime's name for it.
    Named(String),
}

/// How blocks are produced.
pub enum ModeView {
    Transaction,
    Named(Seq<char>),
}

impl View for BlockProductionMode {
    type V = ModeView;

    open spec fn view(&self) -> ModeView {
        match *self {
            BlockProductionMode::Transaction => ModeView::Transaction,
            BlockProductionMode::Named(name) => ModeView::Named(name@),
        }
    }
}

/// The configuration of a local network that is to be started.
#[derive(Debug)]
pub struct SurfnetBuilder {
    pub offline_mode: bool,
    pub remote_rpc_url: Option<String>,
    pub block_production_mode: BlockProductionMode,
    pub slot_time_ms: u64,
    pub airdrop_addresses: Vec<Pubkey>,
    pub airdrop_lamports: u64,
    pub skip_blockhash_check: bool,
    pub payer: Option<Keypair>,
}

/// The configuration of a local network that is to be started.
pub struct BuilderView {
    pub offline_mode: bool,
    pub remote_rpc_url: Option<Seq<char>>,
    pub block_production_mode: ModeView,
    pub slot_time_ms: u64,
    pub airdrop_addresses: Seq<Seq<u8>>,
    pub airdrop_lamports: u64,
    pub skip_blockhash_check: bool,
    pub payer: Option<Seq<u8>>,
}

/// The bytes of an optional keypair.
pub open spec fn option_keypair(value: Option<Keypair>) -> Option<Seq<u8>> {
    match value {
        Some(keypair) => Some(keypair@),
        None => None,
    }
}

impl View for SurfnetBuilder {
    type V = BuilderView;

    open spec fn view(&self) -> BuilderView {
        BuilderView {
            offline_mode: self.offline_mode,
            remote_rpc_url: option_text(self.remote_rpc_url),
            block_production_mode: self.block_production_mode@,
            slot_time_ms: self.slot_time_ms,
            airdrop_addresses: keys_bytes(self.airdrop_addresses@),
            airdrop_lamports: self.airdrop_lamports,
            skip_blockhash_check: self.skip_blockhash_check,
            payer: option_keypair(self.payer),
        }
    }
}

/// The configuration before anything is set: offline, a block for each transaction, slots of one
/// millisecond, ten SOL for the payer alone, blockhashes checked, a payer made on starting.
pub open spec fn default_settings() -> BuilderView {
    BuilderView {
        offline_mode: true,
        remote_rpc_url: None,
        block_production_mode: ModeView::Transaction,
        slot_time_ms: 1,
        airdrop_addresses: Seq::empty(),
        airdrop_lamports: 10_000_000_000,
        skip_blockhash_check: false,
        payer: None,
    }
}

impl Default for SurfnetBuilder {
    fn default() -> (r: Self)
        ensures
            r@ == default_settings(),
    {
        let builder = SurfnetBuilder {
            offline_mode: true,
            remote_rpc_url: None,
            block_production_mode: BlockProductionMode::Transaction,
            slot_time_ms: 1,
            airdrop_addresses: Vec::new(),
            airdrop_lamports: 10_000_000_000,
            skip_blockhash_check: false,
            payer: None,
        };
        assert(builder@.airdrop_addresses =~= Seq::empty());
        builder
    }
}

impl SurfnetBuilder {
    /// Whether to do without a remote network. Default: `true`.
    pub fn offline(self, offline: bool) -> (r: Self)
        ensures
            r@ == (BuilderView { offline_mode: offline, ..self@ }),
    {
        SurfnetBuilder { offline_mode: offline, ..self }
    }

    /// Where accounts that are not known locally are looked up (implies `offline(false)`).
    pub fn remote_rpc_url(self, url: String) -> (r: Self)
        ensures
            r@ == (BuilderView { remote_rpc_url: Some(url@), offline_mode: false, ..self@ }),
    {
        SurfnetBuilder { remote_rpc_url: Some(url), offline_mode: false, ..self }
    }

    /// How blocks are produced. Default: one for each transaction.
    pub fn block_production_mode(self, mode: BlockProductionMode) -> (r: Self)
        ensures
            r@ == (BuilderView { block_production_mode: mode@, ..self@ }),
    {
        SurfnetBuilder { block_production_mode: mode, ..self }
    }

    /// The length of a slot in milliseconds. Default: `1`.
    pub fn slot_time_ms(self, ms: u64) -> (r: Self)
        ensures
            r@ == (BuilderView { slot_time_ms: ms, ..self@ }),
    {
        SurfnetBuilder { slot_time_ms: ms, ..self }
    }

    /// The addresses that get an airdrop on starting, besides the payer.
    pub fn airdrop_addresses(self, addresses: Vec<Pubkey>) -> (r: Self)
        ensures
            r@ == (BuilderView { airdrop_addresses: keys_bytes(addresses@), ..self@ }),
    {
        SurfnetBuilder { airdrop_addresses: addresses, ..self }
    }

    /// The lamports that the payer and each of the other addresses get on starting. Default: ten
    /// SOL.
    pub fn airdrop_sol(self, lamports: u64) -> (r: Self)
        ensures
            r@ == (BuilderView { airdrop_lamports: lamports, ..self@ }),
    {
        SurfnetBuilder { airdrop_lamports: lamports, ..self }
    }

    /// Whether to take transactions without checking their blockhash. Default: `false`.
    pub fn skip_blockhash_check(self, skip: bool) -> (r: Self)
        ensures
            r@ == (BuilderView { skip_blockhash_check: skip, ..self@ }),
    {
        SurfnetBuilder { skip_blockhash_check: skip, ..self }
    }

    /// The payer. If it is not set, a random one is made on starting.
    pub fn payer(self, keypair: Keypair) -> (r: Self)
        ensures
            r@ == (BuilderView { payer: Some(keypair@), ..self@ }),
    {
        SurfnetBuilder { payer: Some(keypair), ..self }
    }
}

} // verus!
