use vstd::prelude::*;
use crate::errors::CrowdfundingError;
use crate::identity::Identity;
use crate::journal::all_resolvable;
use crate::journal::all_settled;
use crate::journal::collect_refunds;
use crate::journal::has_claim;
use crate::journal::known_tiers;
use crate::journal::outstanding;
use crate::journal::owed_to;
use crate::journal::owed_to_contributor;
use crate::journal::refund_orders;
use crate::journal::resolvable;
use crate::journal::settle_all;
use crate::journal::settle_for;
use crate::journal::settled_for;
use crate::state::Contribution;
use crate::state::ContributionTier;
use crate::state::Disbursement;
use crate::state::Payout;

verus! {

/// The owner's part of `funding`: `owner_percent` hundredths of it, rounded down.
pub open spec fn owner_share(funding: nat, owner_percent: nat) -> nat {
    funding * owner_percent / 100
}

/// The division of `funding` between the owner and the platform: the platform gets what
/// the owner's share leaves.
pub open spec fn split(funding: nat, owner_percent: nat) -> Payout {
    Payout {
        owner_share: owner_share(funding, owner_percent) as u64,
        platform_share: (funding - owner_share(funding, owner_percent)) as u64,
    }
}

/// The owner's share never exceeds the funding.
pub proof fn lemma_owner_share_bounded(funding: nat, owner_percent: nat)
    requires
        owner_percent <= 100,
    ensures
        owner_share(funding, owner_percent) <= funding,
{
    assert(funding * owner_percent <= funding * 100) by (nonlinear_arith)
        requires
            owner_percent <= 100,
    ;
    assert(funding * 100 / 100 == funding);
}

/// Divides the funds of a successful campaign between the owner and the platform.
pub fn split_payout(funding: u64, owner_percent: u8) -> (payout: Payout)
    requires
        owner_percent <= 100,
    ensures
        payout == split(funding as nat, owner_percent as nat),
        payout.owner_share + payout.platform_share == funding,
{
    proof {
        lemma_owner_share_bounded(funding as nat, owner_percent as nat);
        assert(funding as nat * owner_percent as nat <= u64::MAX * 100) by (nonlinear_arith)
            requires
                funding <= u64::MAX,
                owner_percent <= 100,
        ;
    }
    let product: u128 = funding as u128 * owner_percent as u128;
    let owner_share: u64 = (product / 100) as u64;
    Payout { owner_share, platform_share: funding - owner_share }
}

/// Returns every outstanding contribution in one batch.
///
/// Nothing happens unless every contributor who is owed something is among `recipients`.
/// Then each contribution is marked reimbursed, and the orders say what goes back to whom.
pub fn refund_contributors(
    tiers: &Vec<ContributionTier>,
    journal: &mut Vec<Contribution>,
    recipients: &Vec<Identity>,
) -> (res: Result<Vec<Disbursement>, CrowdfundingError>)
    requires
        known_tiers(tiers@, old(journal)@),
    ensures
        res is Ok <==> all_resolvable(old(journal)@, recipients@),
        res matches Ok(orders) ==> orders@ == refund_orders(tiers@, old(journal)@),
        res is Ok ==> final(journal)@ == all_settled(old(journal)@),
        res matches Err(e) ==> e == CrowdfundingError::ContributorNotFound,
        res is Err ==> *final(journal) == *old(journal),
{
    if !resolvable(journal, recipients) {
        return Err(CrowdfundingError::ContributorNotFound);
    }
    let orders = collect_refunds(tiers, journal);
    settle_all(journal);
    Ok(orders)
}

/// What a claim of `who` on the journal comes to: a refusal where nothing of `who` is left
/// to reimburse, or where `funding` does not cover what `who` is owed, and that sum
/// otherwise.
pub open spec fn reimbursement(
    tiers: Seq<ContributionTier>,
    journal: Seq<Contribution>,
    funding: u64,
    who: Identity,
) -> Result<u64, CrowdfundingError> {
    if !has_claim(journal, who) {
        Err(CrowdfundingError::NoUnreimbursedContributions)
    } else if funding < owed_to(tiers, journal, who) {
        Err(CrowdfundingError::InsufficientFunds)
    } else {
        Ok(owed_to(tiers, journal, who) as u64)
    }
}

/// Returns to `who` what the journal holds for the contributions of `who`, out of
/// `funding`.
///
/// The contributions of `who` are marked reimbursed and the sum of their tiers' prices is
/// returned, unless the claim is refused; then the journal stays as it was.
pub fn reimburse_contributor(
    tiers: &Vec<ContributionTier>,
    journal: &mut Vec<Contribution>,
    funding: u64,
    who: &Identity,
) -> (res: Result<u64, CrowdfundingError>)
    requires
        known_tiers(tiers@, old(journal)@),
        outstanding(tiers@, old(journal)@) <= u64::MAX,
    ensures
        res == reimbursement(tiers@, old(journal)@, funding, *who),
        res is Ok ==> final(journal)@ == settled_for(old(journal)@, *who),
        res is Err ==> *final(journal) == *old(journal),
{
    let owed: u64 = match owed_to_contributor(tiers, journal, who) {
        Some(owed) => owed,
        None => {
            return Err(CrowdfundingError::NoUnreimbursedContributions);
        },
    };
    if funding < owed {
        return Err(CrowdfundingError::InsufficientFunds);
    }
    settle_for(journal, who);
    Ok(owed)
}

} // verus!
