//! Atomic transaction bundles.

pub mod bundle;
pub mod digest;
pub mod encoding;
pub mod id;
pub mod laws;
pub mod step_laws;
