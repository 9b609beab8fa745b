use vstd::prelude::*;
use crate::errors::CrowdfundingError;
use crate::identity::Identity;
use crate::project::ProjectState;
use crate::state::ProjectStatus;

verus! {

/// Publishes a draft: the campaign goes live and its tiers are frozen.
///
/// Only the owner may publish, and only a campaign with at least one tier.
pub fn set_publish(project: &mut ProjectState, caller: Identity) -> (res: Result<
    (),
    CrowdfundingError,
>)
    requires
        old(project).wf(),
    ensures
        final(project).wf(),
        res == old(project)@.publish_check(caller),
        res is Ok ==> final(project)@ == old(project)@.publish_effect(),
        res is Err ==> *final(project) == *old(project),
{
    if project.status != ProjectStatus::Draft {
        return Err(CrowdfundingError::InvalidState);
    }
    if !caller.same(&project.owner) {
        return Err(CrowdfundingError::Unauthorized);
    }
    if project.contribution_tiers.len() == 0 {
        return Err(CrowdfundingError::NoContributionTiers);
    }
    project.status = ProjectStatus::Live;
    Ok(())
}

} // verus!
