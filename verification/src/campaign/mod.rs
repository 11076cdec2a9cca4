//! The campaign contract's record types and its accepted-asset guard.

pub mod asset_auth;
pub mod types;
