//! A running local network.

use vstd::prelude::*;
use vstd::string::*;

use crate::keys::Keypair;
use crate::sdk::builder::{default_settings, SurfnetBuilder};
use crate::sdk::error::{outcome, SurfnetError, SurfnetErrorView};
use crate::text::cat2;

verus! {

/// A running local network: where it is reached, its funded payer, and whether it was shut down.
#[derive(Debug)]
pub struct Surfnet {
    rpc_url: String,
    ws_url: String,
    payer: Keypair,
    instance_id: String,
    stopped: bool,
}

/// A running local network.
pub struct SurfnetView {
    pub rpc_url: Seq<char>,
    pub ws_url: Seq<char>,
    pub payer: Seq<u8>,
    pub stopped: bool,
}

/// Where state is manipulated directly: the network's RPC endpoint.
#[derive(Debug)]
pub struct Cheatcodes {
    pub rpc_url: String,
}

impl View for Surfnet {
    type V = SurfnetView;

    closed spec fn view(&self) -> SurfnetView {
        SurfnetView {
            rpc_url: self.rpc_url@,
            ws_url: self.ws_url@,
            payer: self.payer@,
            stopped: self.stopped,
        }
    }
}

/// Whether a character is a lower-case hexadecimal digit.
pub open spec fn is_hex_digit(c: char) -> bool {
    ('0' <= c && c <= '9') || ('a' <= c && c <= 'f')
}

/// Whether a position of a UUID's text holds a hyphen.
pub open spec fn is_hyphen_place(i: int) -> bool {
    i == 8 || i == 13 || i == 18 || i == 23
}

/// Whether a text has the shape of a random UUID: lower-case hexadecimal digits with hyphens after
/// the eighth, twelfth, sixteenth and twentieth, the version digit four, and a variant digit from
/// eight to eleven.
pub open spec fn has_uuid_shape(text: Seq<char>) -> bool {
    &&& text.len() == 36
    &&& forall|i: int|
        0 <= i < 36 ==> if is_hyphen_place(i) {
            #[trigger] text[i] == '-'
        } else {
            is_hex_digit(text[i])
        }
    &&& text[14] == '4'
    &&& text[19] == '8' || text[19] == '9' || text[19] == 'a' || text[19] == 'b'
}

/// Makes a random identifier with `uuid::Uuid::new_v4` and its `Display`. Whatever comes out, it
/// has the shape of a version 4 UUID.
#[verifier::external_body]
fn random_uuid() -> (r: String)
    ensures
        has_uuid_shape(r@),
{
    uuid::Uuid::new_v4().to_string()
}

impl Surfnet {
    /// The identifier of this network.
    pub closed spec fn id(self) -> Seq<char> {
        self.instance_id@
    }

    /// A network that has come up, with a fresh identifier.
    pub(crate) fn launched(rpc_url: String, ws_url: String, payer: Keypair) -> (r: Surfnet)
        ensures
            r@ == (SurfnetView {
                rpc_url: rpc_url@,
                ws_url: ws_url@,
                payer: payer@,
                stopped: false,
            }),
            has_uuid_shape(r.id()),
    {
        Surfnet { rpc_url, ws_url, payer, instance_id: random_uuid(), stopped: false }
    }

    /// The configuration from which a network is started.
    pub fn builder() -> (r: SurfnetBuilder)
        ensures
            r@ == default_settings(),
    {
        SurfnetBuilder::default()
    }

    /// The HTTP RPC endpoint (e.g. `http://127.0.0.1:12345`).
    pub fn rpc_url(&self) -> (r: &str)
        ensures
            r@ == self@.rpc_url,
    {
        self.rpc_url.as_str()
    }

    /// The WebSocket endpoint (e.g. `ws://127.0.0.1:12346`).
    pub fn ws_url(&self) -> (r: &str)
        ensures
            r@ == self@.ws_url,
    {
        self.ws_url.as_str()
    }

    /// The funded payer.
    pub fn payer(&self) -> (r: &Keypair)
        ensures
            r@ == self@.payer,
    {
        &self.payer
    }

    /// Where this network's state is manipulated directly.
    pub fn cheatcodes(&self) -> (r: Cheatcodes)
        ensures
            r.rpc_url@ == self@.rpc_url,
    {
        Cheatcodes { rpc_url: self.rpc_url.clone() }
    }

    /// The identifier of this network.
    pub fn instance_id(&self) -> (r: &str)
        ensures
            r@ == self.id(),
    {
        self.instance_id.as_str()
    }

    /// Whether the network was shut down.
    pub fn is_stopped(&self) -> (r: bool)
        ensures
            r == self@.stopped,
    {
        self.stopped
    }

    /// Marks the network as shut down.
    pub(crate) fn mark_stopped(&mut self)
        ensures
            final(self)@ == (SurfnetView { stopped: true, ..old(self)@ }),
            final(self).id() == old(self).id(),
    {
        self.stopped = true;
    }

    /// Reports what came of handing a command to the runtime.
    pub fn send_command(&self, sent: Result<(), String>) -> (r: Result<(), SurfnetError>)
        ensures
            outcome(r) == match sent {
                Ok(_) => Ok::<(), SurfnetErrorView>(()),
                Err(e) => Err(SurfnetErrorView::Runtime("failed to send command: "@ + e@)),
            },
    {
        match sent {
            Ok(_) => Ok(()),
            Err(e) => Err(SurfnetError::Runtime(cat2("failed to send command: ", e.as_str()))),
        }
    }
}

} // verus!
