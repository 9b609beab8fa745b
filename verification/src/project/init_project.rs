use vstd::prelude::*;
use crate::campaign::Campaign;
use crate::errors::CrowdfundingError;
use crate::identity::Identity;
use crate::project::ProjectState;
use crate::state::ProjectStatus;

verus! {

/// Creates a campaign: a draft without tiers, contributions or funds.
///
/// `owner_percent` is the owner's part of a later payout, in hundredths; the platform gets
/// the rest. A soft cap above the hard cap, or a share above 100, is refused.
pub fn init_project(
    project_id: u64,
    soft_cap: u64,
    hard_cap: u64,
    deadline: i64,
    owner: Identity,
    platform: Identity,
    owner_percent: u8,
) -> (res: Result<ProjectState, CrowdfundingError>)
    ensures
        res is Ok <==> soft_cap <= hard_cap && owner_percent <= 100,
        res matches Err(e) ==> e == CrowdfundingError::InvalidConfiguration,
        res matches Ok(project) ==> project.wf(),
        res matches Ok(project) ==> project@ == Campaign::init(
            project_id,
            soft_cap as nat,
            hard_cap as nat,
            deadline as int,
            owner,
            platform,
            owner_percent as nat,
        ),
{
    if soft_cap > hard_cap || owner_percent > 100 {
        return Err(CrowdfundingError::InvalidConfiguration);
    }
    let project = ProjectState {
        project_id,
        owner,
        platform,
        soft_cap,
        hard_cap,
        deadline,
        owner_percent,
        current_funding: 0,
        status: ProjectStatus::Draft,
        contribution_tiers: Vec::new(),
        contributions: Vec::new(),
    };
    proof {
        assert(project@.tiers =~= Seq::empty());
        assert(project@.contributions =~= Seq::empty());
        Campaign::lemma_init_wf(
            project_id,
            soft_cap as nat,
            hard_cap as nat,
            deadline as int,
            owner,
            platform,
            owner_percent as nat,
        );
    }
    Ok(project)
}

} // verus!
