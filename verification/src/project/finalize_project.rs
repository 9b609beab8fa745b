use vstd::prelude::*;
use crate::errors::CrowdfundingError;
use crate::identity::Identity;
use crate::machine::next_status;
use crate::project::ProjectState;
use crate::settlement::split_payout;
use crate::state::FinalizeOutcome;
use crate::state::ProjectStatus;

verus! {

/// Settles a campaign whose deadline is reached.
///
/// The owner or the platform may finalize a campaign that is live, successful or sold out.
/// A live campaign is first given the status that the transition rule finds for it. If that
/// is failed, the campaign is marked so and keeps its funds for its contributors. Otherwise
/// the funding is divided: the owner's share is the owner's percentage of it, rounded down,
/// and the platform gets the rest; the funding drops to zero and the campaign is final. The
/// caller moves the two shares out of the campaign's custody.
pub fn finalize_project(project: &mut ProjectState, caller: Identity, now: i64) -> (res: Result<
    FinalizeOutcome,
    CrowdfundingError,
>)
    requires
        old(project).wf(),
    ensures
        final(project).wf(),
        res is Ok <==> old(project)@.finalize_check(caller, now as int) is Ok,
        res matches Err(e) ==> old(project)@.finalize_check(caller, now as int) == Err::<
            (),
            CrowdfundingError,
        >(e),
        res matches Ok(outcome) ==> outcome == old(project)@.finalize_outcome(now as int),
        res is Ok ==> final(project)@ == old(project)@.finalize_effect(now as int),
        res is Err ==> *final(project) == *old(project),
{
    if project.status != ProjectStatus::Live && project.status != ProjectStatus::Successful
        && project.status != ProjectStatus::SoldOut {
        return Err(CrowdfundingError::InvalidState);
    }
    if !caller.same(&project.owner) && !caller.same(&project.platform) {
        return Err(CrowdfundingError::Unauthorized);
    }
    if now < project.deadline {
        return Err(CrowdfundingError::DeadlineNotPassed);
    }
    proof {
        project@.lemma_finalize_wf(caller, now as int);
    }
    let status = next_status(
        project.status,
        project.current_funding,
        project.soft_cap,
        project.hard_cap,
        now,
        project.deadline,
    );
    if status == ProjectStatus::Failed {
        project.status = ProjectStatus::Failed;
        return Ok(FinalizeOutcome::Failed);
    }
    let payout = split_payout(project.current_funding, project.owner_percent);
    project.current_funding = 0;
    project.status = ProjectStatus::Final;
    Ok(FinalizeOutcome::Distributed(payout))
}

} // verus!
