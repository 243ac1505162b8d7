//! The network as Node.js sees it.

pub mod args;
pub mod cheatcode;
pub mod config;
pub mod laws;
pub mod report_laws;
pub mod request_laws;
pub mod settings_laws;
pub mod surfnet;
pub mod value;
