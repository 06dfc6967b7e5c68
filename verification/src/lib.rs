//! A repository-hygiene library: it decides which local branches of a
//! version-control repository are already merged into the main line and
//! drives a confirm-then-delete interaction.
//!
//! The version-control backend (an external collaborator that reads the
//! repository store and talks to remotes) is driven by an unverified shell
//! around this crate; every decision the shell takes is computed here, on
//! plain values, with a verified contract.

pub mod classify;
pub mod errors;
pub mod model;
pub mod prune;
pub mod resolve;
