//! Verified core of the OrbitChain crowdfunding contracts.
//!
//! - [`common`]: the workspace-wide status and error catalogue.
//! - [`campaign`]: the campaign record and the accepted-asset whitelist guard.

pub mod campaign;
pub mod common;
