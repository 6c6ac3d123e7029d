//! Verified planning core of a kernel-component installer.
//!
//! The installer fetches a microkernel source tree, builds it for a chosen
//! platform, and installs the resulting artifacts together with a kernel
//! loader. Every decision the installer makes — how raw options resolve to a
//! configuration, when a source tree is re-fetched, how often a failed clone
//! is retried, which arguments each external tool receives, and how exit
//! statuses map to typed failures — lives here as verified, side-effect-free
//! functions. A thin unverified shell parses the command line, walks the plan
//! these functions produce, and spawns the external tools.

pub mod acquire;
pub mod compose;
pub mod config;
pub mod error;
pub mod plan;
pub mod runner;
pub mod stage;
