use vstd::prelude::*;
use crate::errors::CrowdfundingError;
use crate::identity::Identity;
use crate::machine::next_status;
use crate::project::ProjectState;
use crate::state::Contribution;
use crate::state::ProjectStatus;
use crate::tiers::find_tier;

verus! {

/// Records a pledge of `amount` against the tier `tier_id`.
///
/// The pledge is refused unless the campaign is live, the deadline lies ahead, the hard cap
/// is not reached, the tier exists, `amount` is the tier's price, and the funding with
/// `amount` added stays within the hard cap; the first of these that fails names the error.
/// An accepted pledge is added to the funding and appended to the journal, and the campaign
/// is sold out as soon as the funding meets the hard cap. The caller moves `amount` into the
/// campaign's custody, and drops the new state if that fails.
pub fn contribute(
    project: &mut ProjectState,
    tier_id: u64,
    amount: u64,
    contributor: Identity,
    now: i64,
) -> (res: Result<(), CrowdfundingError>)
    requires
        old(project).wf(),
    ensures
        final(project).wf(),
        res == old(project)@.contribute_check(tier_id, amount, now as int),
        res is Ok ==> final(project)@ == old(project)@.contribute_effect(
            tier_id,
            amount,
            contributor,
            now as int,
        ),
        res is Err ==> *final(project) == *old(project),
{
    if project.status != ProjectStatus::Live {
        return Err(CrowdfundingError::InvalidState);
    }
    if now >= project.deadline {
        return Err(CrowdfundingError::DeadlinePassed);
    }
    if project.current_funding >= project.hard_cap {
        return Err(CrowdfundingError::HardCapReached);
    }
    let price: u64 = match find_tier(&project.contribution_tiers, tier_id) {
        Some(price) => price,
        None => {
            return Err(CrowdfundingError::TierNotFound);
        },
    };
    if price != amount {
        return Err(CrowdfundingError::AmountMismatch);
    }
    if amount > project.hard_cap - project.current_funding {
        return Err(CrowdfundingError::HardCapReached);
    }
    proof {
        project@.lemma_contribute_wf(tier_id, amount, contributor, now as int);
    }
    project.current_funding = project.current_funding + amount;
    project.contributions.push(
        Contribution { sender_address: contributor, contribution_tier_id: tier_id, reimbursed: false },
    );
    project.status =
    next_status(
        ProjectStatus::Live,
        project.current_funding,
        project.soft_cap,
        project.hard_cap,
        now,
        project.deadline,
    );
    Ok(())
}

} // verus!
