//! Updating the `surfpool` program to a published release.

pub mod archive;
pub mod archive_laws;
pub mod flow;
pub mod flow_laws;
pub mod gzip;
pub mod path;
pub mod path_laws;
pub mod release;
pub mod tarball;
pub mod version;
