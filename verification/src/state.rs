use vstd::prelude::*;
use crate::identity::Identity;

verus! {

/// The most tiers a campaign can offer.
pub const MAX_TIERS: usize = 5;

/// Where a campaign stands in its life.
#[derive(Clone, Copy, Debug, PartialEq, Eq, Structural)]
pub enum ProjectStatus {
    /// Created; the owner is still composing the tiers.
    Draft,
    /// Published and open to contributions until the deadline.
    Live,
    /// The deadline passed with the soft cap met.
    Successful,
    /// The hard cap was met; no further contribution is taken.
    SoldOut,
    /// The deadline passed below the soft cap; nothing has been returned yet.
    Failed,
    /// Below the soft cap, with some contributions returned and others still owed.
    Failing,
    /// Settled: the funds were paid out or returned, and nothing can change any more.
    Final,
}

/// A fixed-price pledge option.
#[derive(Clone, Copy, Debug, PartialEq, Eq)]
pub struct ContributionTier {
    pub tier_id: u64,
    pub amount: u64,
}

/// One accepted pledge.
#[derive(Clone, Copy, Debug, PartialEq, Eq)]
pub struct Contribution {
    pub sender_address: Identity,
    pub contribution_tier_id: u64,
    pub reimbursed: bool,
}

/// An instruction to return `amount` to `recipient`.
#[derive(Clone, Copy, Debug, PartialEq, Eq)]
pub struct Disbursement {
    pub recipient: Identity,
    pub amount: u64,
}

/// How the funds of a successful campaign are divided.
#[derive(Clone, Copy, Debug, PartialEq, Eq, Structural)]
pub struct Payout {
    pub owner_share: u64,
    pub platform_share: u64,
}

/// What finalizing a campaign came to.
#[derive(Clone, Copy, Debug, PartialEq, Eq, Structural)]
pub enum FinalizeOutcome {
    /// The campaign succeeded: these amounts leave its custody.
    Distributed(Payout),
    /// The campaign missed its soft cap: it is marked failed and nothing moves.
    Failed,
}

} // verus!
