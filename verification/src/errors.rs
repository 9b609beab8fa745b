use vstd::prelude::*;

verus! {

/// Why a campaign operation was refused.
///
/// Every refusal leaves the campaign exactly as it was.
#[derive(Clone, Copy, Debug, PartialEq, Eq, Structural)]
pub enum CrowdfundingError {
    /// The caller is neither the owner nor, where it is allowed, the platform.
    Unauthorized,
    /// The campaign's status does not permit the operation.
    InvalidState,
    /// The campaign already has the maximum number of contribution tiers.
    CapacityExceeded,
    /// A contribution arrived at or after the deadline.
    DeadlinePassed,
    /// A settlement was attempted before the deadline.
    DeadlineNotPassed,
    /// No tier of the campaign carries the given id.
    TierNotFound,
    /// The pledge differs from the tier's fixed price.
    AmountMismatch,
    /// The hard cap is reached, or the pledge would exceed it.
    HardCapReached,
    /// The campaign holds less than it owes.
    InsufficientFunds,
    /// A contributor who is owed a refund is not among the resolvable recipients.
    ContributorNotFound,
    /// The caller has no contribution that is still to be reimbursed.
    NoUnreimbursedContributions,
    /// A campaign cannot be published without a contribution tier.
    NoContributionTiers,
    /// A tier with the same id exists already.
    DuplicateTier,
    /// A tier's price must be positive.
    InvalidAmount,
    /// The soft cap exceeds the hard cap, or the owner's share exceeds 100 percent.
    InvalidConfiguration,
}

impl CrowdfundingError {
    /// The text that `message` returns for each error.
    pub open spec fn message_text(self) -> &'static str {
        match self {
            CrowdfundingError::Unauthorized => "The caller is not authorized for this operation.",
            CrowdfundingError::InvalidState => "The project's status does not permit this operation.",
            CrowdfundingError::CapacityExceeded =>
                "The project already has the maximum number of contribution tiers.",
            CrowdfundingError::DeadlinePassed => "The project's deadline has passed.",
            CrowdfundingError::DeadlineNotPassed => "The project's deadline has not passed.",
            CrowdfundingError::TierNotFound => "The contribution tier was not found.",
            CrowdfundingError::AmountMismatch =>
                "The contribution amount does not match the required tier amount.",
            CrowdfundingError::HardCapReached => "The project has reached the hard cap.",
            CrowdfundingError::InsufficientFunds =>
                "The project account does not have enough funds.",
            CrowdfundingError::ContributorNotFound =>
                "A contributor to be refunded could not be resolved.",
            CrowdfundingError::NoUnreimbursedContributions =>
                "The caller has no contribution left to reimburse.",
            CrowdfundingError::NoContributionTiers =>
                "The project must have at least one contribution tier.",
            CrowdfundingError::DuplicateTier => "A contribution tier with this id already exists.",
            CrowdfundingError::InvalidAmount => "A contribution tier's amount must be positive.",
            CrowdfundingError::InvalidConfiguration =>
                "The soft cap must not exceed the hard cap, nor the owner's share 100 percent.",
        }
    }

    /// A sentence for the person who made the call.
    pub fn message(&self) -> (text: &'static str)
        ensures
            text == self.message_text(),
    {
        match self {
            CrowdfundingError::Unauthorized => "The caller is not authorized for this operation.",
            CrowdfundingError::InvalidState => "The project's status does not permit this operation.",
            CrowdfundingError::CapacityExceeded =>
                "The project already has the maximum number of contribution tiers.",
            CrowdfundingError::DeadlinePassed => "The project's deadline has passed.",
            CrowdfundingError::DeadlineNotPassed => "The project's deadline has not passed.",
            CrowdfundingError::TierNotFound => "The contribution tier was not found.",
            CrowdfundingError::AmountMismatch =>
                "The contribution amount does not match the required tier amount.",
            CrowdfundingError::HardCapReached => "The project has reached the hard cap.",
            CrowdfundingError::InsufficientFunds =>
                "The project account does not have enough funds.",
            CrowdfundingError::ContributorNotFound =>
                "A contributor to be refunded could not be resolved.",
            CrowdfundingError::NoUnreimbursedContributions =>
                "The caller has no contribution left to reimburse.",
            CrowdfundingError::NoContributionTiers =>
                "The project must have at least one contribution tier.",
            CrowdfundingError::DuplicateTier => "A contribution tier with this id already exists.",
            CrowdfundingError::InvalidAmount => "A contribution tier's amount must be positive.",
            CrowdfundingError::InvalidConfiguration =>
                "The soft cap must not exceed the hard cap, nor the owner's share 100 percent.",
        }
    }
}

} // verus!
