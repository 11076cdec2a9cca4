//! Common types shared across the OrbitChain workspace.
//!
//! `CommonError` carries only the generic failure modes that every contract
//! shares (overflow, uninitialised state, authorisation failure, invalid
//! amounts, failed storage writes). Each contract owns its own error enum with
//! stable on-chain codes; this catalogue is the semantic authority for the
//! shared concepts, not a second code space.

use vstd::prelude::*;

verus! {

/// Workspace-wide semantic error catalogue.
///
/// | variant             | campaign error code | legacy core error code |
/// |---------------------|---------------------|------------------------|
/// | `Overflow`          | 17                  | (none)                 |
/// | `NotInitialized`    | 2                   | 7                      |
/// | `Unauthorized`      | 3                   | 5                      |
/// | `InvalidAmount`     | 70                  | (none)                 |
/// | `StorageWriteError` | 26                  | (none)                 |
#[derive(Copy, Clone, Debug, PartialEq, Eq, Structural)]
pub enum CommonError {
    /// A checked arithmetic operation overflowed. Contracts surface this
    /// instead of saturating, since saturation would corrupt the accounting.
    Overflow,
    /// Required state (campaign record, admin address, ...) is absent.
    NotInitialized,
    /// The signer does not hold the role the operation needs.
    Unauthorized,
    /// A numeric argument is outside the accepted range.
    InvalidAmount,
    /// The host rejected a persistent write.
    StorageWriteError,
}

/// Lifecycle of a campaign.
#[derive(Copy, Clone, Debug, PartialEq, Eq, Structural)]
pub enum CampaignStatus {
    /// Still being configured; not yet live.
    Draft,
    /// Live and accepting operations.
    Active,
    /// Successfully completed.
    Completed,
    /// Cancelled by the creator.
    Cancelled,
}

/// Lifecycle of a milestone.
#[derive(Copy, Clone, Debug, PartialEq, Eq, Structural)]
pub enum MilestoneStatus {
    /// Not yet reached.
    Pending,
    /// Reached and released.
    Completed,
    /// Not reached within the timeline.
    Failed,
}

/// An asset identified by numeric code and issuer.
#[derive(Copy, Clone, Debug, PartialEq, Eq, Structural)]
pub struct AssetInfo {
    pub code: u32,
    pub issuer: u32,
}

} // verus!
