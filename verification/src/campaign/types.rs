//! The campaign record, as plain values.
//!
//! Addresses are held in their strkey text form (`G...` for accounts,
//! `C...` for contracts), so two addresses are the same exactly when their
//! texts are equal.

use vstd::prelude::*;

verus! {

/// A Stellar address in strkey text form.
pub type Address = String;

/// The asset a donation or refund is made in.
#[derive(Clone, Debug)]
pub enum AssetInfo {
    /// A Stellar asset, named by its issuer.
    Stellar(Address),
    /// The native XLM asset.
    Native,
}

/// One entry of a campaign's whitelist of accepted assets.
#[derive(Clone, Debug)]
pub struct StellarAsset {
    pub asset_code: String,
    pub issuer: Option<Address>,
}

/// Where a campaign stands in its lifecycle.
#[derive(Copy, Clone, Debug, PartialEq, Eq, Structural)]
pub enum CampaignStatus {
    Active,
    GoalReached,
    Ended,
    Cancelled,
}

/// The stored campaign record.
#[derive(Clone, Debug)]
pub struct CampaignData {
    pub creator: Address,
    pub goal_amount: i128,
    pub raised_amount: i128,
    pub end_time: u64,
    pub status: CampaignStatus,
    pub accepted_assets: Vec<StellarAsset>,
    pub milestone_count: u32,
    pub min_donation_amount: i128,
    pub created_at_ledger: u32,
    pub created_at_time: u64,
    pub concluded_at_ledger: Option<u32>,
    pub max_donations_per_donor: Option<u32>,
    pub min_donation_interval_seconds: Option<u64>,
}

/// Errors raised by the campaign's asset guard.
#[derive(Copy, Clone, Debug, PartialEq, Eq, Structural)]
pub enum Error {
    /// The asset is not on the campaign's whitelist.
    AssetNotAccepted,
}

} // verus!
