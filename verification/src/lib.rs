//! Verified core of a desktop updater for a Spotify customization tool.
//!
//! The library holds the decision logic of the updater: version comparison,
//! release-asset selection, the mutual-exclusion guard around version checks,
//! the plan and simulated execution of the self-replacement protocol, and the
//! command dispatcher's routing rules. All process, network and file-system
//! work stays outside, in the unverified shell that drives this crate.

pub mod commands;
pub mod errors;
pub mod guard;
pub mod release;
pub mod replace;
pub mod text;
pub mod update;
pub mod version;
