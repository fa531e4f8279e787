//! A verified install pipeline for a node.js version manager.
//!
//! The library resolves the local install directory for a version, builds the
//! download URL for its distribution archive, decompresses the fetched bytes,
//! and decides each step of the install as a state machine.  All I/O (the
//! environment, the network, the filesystem) is performed by an unverified
//! driver, which carries out the actions the pipeline requests and reports
//! each outcome back as an event.

pub mod errors;
pub mod gzip;
pub mod paths;
pub mod pipeline;
pub mod url;

pub use errors::InstallError;
pub use url::build_url;
