use vstd::prelude::*;
use crate::errors::CrowdfundingError;
use crate::identity::Identity;
use crate::journal::lemma_claim_is_positive;
use crate::project::ProjectState;
use crate::settlement::reimburse_contributor;
use crate::state::ProjectStatus;

verus! {

/// Returns to `who` what the failed campaign holds for the contributions of `who`.
///
/// The claim is refused before the deadline, and where nothing of `who` is left to
/// reimburse. Otherwise the contributions of `who` are marked reimbursed and the sum of
/// their tiers' prices leaves the funding and is returned: the caller pays it to `who`. The
/// campaign is final once the funding is zero, and failing until then.
pub fn reimburse(project: &mut ProjectState, who: Identity, now: i64) -> (res: Result<
    u64,
    CrowdfundingError,
>)
    requires
        old(project).wf(),
    ensures
        final(project).wf(),
        res is Ok <==> old(project)@.reimburse_check(who, now as int) is Ok,
        res matches Err(e) ==> old(project)@.reimburse_check(who, now as int) == Err::<
            (),
            CrowdfundingError,
        >(e),
        res matches Err(e) ==> e != CrowdfundingError::InsufficientFunds,
        res matches Ok(amount) ==> amount == old(project)@.owes(who) && amount > 0,
        res is Ok ==> final(project)@ == old(project)@.reimburse_effect(who),
        res is Err ==> *final(project) == *old(project),
{
    if project.status != ProjectStatus::Failed && project.status != ProjectStatus::Failing {
        return Err(CrowdfundingError::InvalidState);
    }
    if now < project.deadline {
        return Err(CrowdfundingError::DeadlineNotPassed);
    }
    proof {
        project@.lemma_funds_cover_claims(who);
        if project@.reimburse_check(who, now as int) is Ok {
            project@.lemma_reimburse_wf(who, now as int);
            lemma_claim_is_positive(project@.tiers, project@.contributions, who);
        }
    }
    let owed: u64 = reimburse_contributor(
        &project.contribution_tiers,
        &mut project.contributions,
        project.current_funding,
        &who,
    )?;
    project.current_funding = project.current_funding - owed;
    project.status = if project.current_funding == 0 {
        ProjectStatus::Final
    } else {
        ProjectStatus::Failing
    };
    Ok(owed)
}

} // verus!
