use vstd::prelude::*;
use crate::errors::CrowdfundingError;
use crate::identity::Identity;
use crate::journal::refund_orders;
use crate::project::ProjectState;
use crate::settlement::refund_contributors;
use crate::state::Disbursement;
use crate::state::ProjectStatus;

verus! {

/// Returns the funds of a failed campaign to its contributors in one batch.
///
/// The owner or the platform may do so once the deadline is reached. `recipients` are the
/// parties that the caller can pay: the refund is refused unless every contributor who is
/// still owed something is among them. Each contribution that was not reimbursed gives one
/// order, its tier's price to its contributor, and is marked reimbursed; the funding drops
/// to zero and the campaign is final. The caller carries the orders out.
pub fn refund(
    project: &mut ProjectState,
    caller: Identity,
    recipients: &Vec<Identity>,
    now: i64,
) -> (res: Result<Vec<Disbursement>, CrowdfundingError>)
    requires
        old(project).wf(),
    ensures
        final(project).wf(),
        res is Ok <==> old(project)@.refund_check(caller, recipients@, now as int) is Ok,
        res matches Err(e) ==> old(project)@.refund_check(caller, recipients@, now as int) == Err::<
            (),
            CrowdfundingError,
        >(e),
        res matches Ok(orders) ==> orders@ == refund_orders(
            old(project)@.tiers,
            old(project)@.contributions,
        ),
        res is Ok ==> final(project)@ == old(project)@.refund_effect(),
        res is Err ==> *final(project) == *old(project),
{
    if project.status != ProjectStatus::Failed && project.status != ProjectStatus::Failing {
        return Err(CrowdfundingError::InvalidState);
    }
    if !caller.same(&project.owner) && !caller.same(&project.platform) {
        return Err(CrowdfundingError::Unauthorized);
    }
    if now < project.deadline {
        return Err(CrowdfundingError::DeadlineNotPassed);
    }
    proof {
        if project@.refund_check(caller, recipients@, now as int) is Ok {
            project@.lemma_refund_wf(caller, recipients@, now as int);
        }
    }
    let orders = refund_contributors(
        &project.contribution_tiers,
        &mut project.contributions,
        recipients,
    )?;
    project.current_funding = 0;
    project.status = ProjectStatus::Final;
    Ok(orders)
}

} // verus!
