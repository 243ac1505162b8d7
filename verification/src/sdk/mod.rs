//! Running a local network from a test.

pub mod airdrop;
pub mod builder;
pub mod error;
pub mod event;
pub mod laws;
pub mod setup_laws;
pub mod startup;
pub mod stop;
pub mod surfnet;
pub mod wait_laws;
