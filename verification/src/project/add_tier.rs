use vstd::prelude::*;
use crate::errors::CrowdfundingError;
use crate::identity::Identity;
use crate::project::ProjectState;
use crate::state::ProjectStatus;
use crate::tiers::add_tier;

verus! {

/// Adds a pledge tier to a campaign that is still a draft.
///
/// Only the owner may do so. The catalog takes at most five tiers, each with a positive
/// price and an id of its own. No funds move.
pub fn add_contribution_tier(
    project: &mut ProjectState,
    caller: Identity,
    tier_id: u64,
    amount: u64,
) -> (res: Result<(), CrowdfundingError>)
    requires
        old(project).wf(),
    ensures
        final(project).wf(),
        res == old(project)@.add_tier_check(caller, tier_id, amount),
        res is Ok ==> final(project)@ == old(project)@.add_tier_effect(tier_id, amount),
        res is Err ==> *final(project) == *old(project),
{
    if project.status != ProjectStatus::Draft {
        return Err(CrowdfundingError::InvalidState);
    }
    if !caller.same(&project.owner) {
        return Err(CrowdfundingError::Unauthorized);
    }
    proof {
        if project@.add_tier_check(caller, tier_id, amount) is Ok {
            project@.lemma_add_tier_wf(caller, tier_id, amount);
        }
    }
    add_tier(&mut project.contribution_tiers, tier_id, amount)
}

} // verus!
