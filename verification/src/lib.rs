//! A verified provisioning engine for a private, versioned runtime
//! environment.
//!
//! The engine decides, from two on-disk fingerprints (the installed runtime's
//! version probe and the installed dependency list), whether the environment
//! directory is ready, needs a dependency refresh, or must be rebuilt from
//! scratch, and drives an external-tool pipeline accordingly before a sidecar
//! process is launched. All decision logic lives here and is verified; the
//! surrounding process and file handling stays outside the library.

pub mod fingerprint;
pub mod laws;
pub mod layout;
pub mod messages;
pub mod orchestrator;

pub use fingerprint::dependencies_match;
pub use fingerprint::runtime_matches;
