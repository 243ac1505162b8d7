//! Verified core of Surfpool, a local Solana network for tests.
//!
//! The library holds what Surfpool decides and computes; talking to sockets, files, threads and
//! the virtual machine is left to its callers. Work that alternates with such talk is written as
//! a conversation: a state, an event (what came of the last action), the next state and the next
//! action.

pub mod jito;
pub mod keys;
pub mod node;
pub mod number;
pub mod sdk;
pub mod text;
pub mod update;
