use vstd::prelude::*;
use crate::campaign::Campaign;
use crate::identity::Identity;
use crate::journal::check_known_tiers;
use crate::journal::check_none_reimbursed;
use crate::journal::sum_outstanding;
use crate::project::ProjectState;
use crate::state::Contribution;
use crate::state::ContributionTier;
use crate::state::ProjectStatus;
use crate::tiers::check_catalog;

verus! {

/// The parts of a campaign as a store keeps them, with nothing said of how they fit.
#[derive(Clone, Debug, PartialEq, Eq)]
pub struct StoredProject {
    pub project_id: u64,
    pub owner: Identity,
    pub platform: Identity,
    pub soft_cap: u64,
    pub hard_cap: u64,
    pub deadline: i64,
    pub owner_percent: u8,
    pub current_funding: u64,
    pub status: ProjectStatus,
    pub contribution_tiers: Vec<ContributionTier>,
    pub contributions: Vec<Contribution>,
}

impl View for StoredProject {
    type V = Campaign;

    open spec fn view(&self) -> Campaign {
        Campaign {
            id: self.project_id,
            owner: self.owner,
            platform: self.platform,
            soft_cap: self.soft_cap as nat,
            hard_cap: self.hard_cap as nat,
            deadline: self.deadline as int,
            owner_percent: self.owner_percent as nat,
            funding: self.current_funding as nat,
            status: self.status,
            tiers: self.contribution_tiers@,
            contributions: self.contributions@,
        }
    }
}

/// Whether the funding is the sum of what is due for the contributions.
fn is_balanced(stored: &StoredProject) -> (ok: bool)
    requires
        crate::journal::known_tiers(stored.contribution_tiers@, stored.contributions@),
    ensures
        ok == stored@.balanced(),
{
    match sum_outstanding(&stored.contribution_tiers, &stored.contributions, stored.current_funding) {
        Some(sum) => sum == stored.current_funding,
        None => false,
    }
}

/// Whether the stored parts make a well-formed campaign.
pub fn is_well_formed(stored: &StoredProject) -> (ok: bool)
    ensures
        ok == stored@.wf(),
{
    if stored.soft_cap > stored.hard_cap || stored.owner_percent > 100 {
        return false;
    }
    if !check_catalog(&stored.contribution_tiers) {
        return false;
    }
    if !check_known_tiers(&stored.contribution_tiers, &stored.contributions) {
        return false;
    }
    let funding: u64 = stored.current_funding;
    match stored.status {
        ProjectStatus::Draft => stored.contributions.len() == 0 && funding == 0,
        ProjectStatus::Live => {
            stored.contribution_tiers.len() > 0 && funding <= stored.hard_cap
                && check_none_reimbursed(&stored.contributions) && is_balanced(stored)
        },
        ProjectStatus::Successful => {
            stored.contribution_tiers.len() > 0 && stored.soft_cap <= funding && funding
                < stored.hard_cap && check_none_reimbursed(&stored.contributions) && is_balanced(
                stored,
            )
        },
        ProjectStatus::SoldOut => {
            stored.contribution_tiers.len() > 0 && funding == stored.hard_cap
                && check_none_reimbursed(&stored.contributions) && is_balanced(stored)
        },
        ProjectStatus::Failed => {
            stored.contribution_tiers.len() > 0 && funding < stored.soft_cap
                && check_none_reimbursed(&stored.contributions) && is_balanced(stored)
        },
        ProjectStatus::Failing => {
            stored.contribution_tiers.len() > 0 && 0 < funding && funding < stored.soft_cap
                && is_balanced(stored)
        },
        ProjectStatus::Final => stored.contribution_tiers.len() > 0 && funding == 0,
    }
}

impl ProjectState {
    /// Takes a campaign out of storage, if its parts make a well-formed campaign.
    pub fn restore(stored: StoredProject) -> (res: Option<ProjectState>)
        ensures
            res is Some <==> stored@.wf(),
            res matches Some(project) ==> project@ == stored@,
    {
        if !is_well_formed(&stored) {
            return None;
        }
        Some(
            ProjectState {
                project_id: stored.project_id,
                owner: stored.owner,
                platform: stored.platform,
                soft_cap: stored.soft_cap,
                hard_cap: stored.hard_cap,
                deadline: stored.deadline,
                owner_percent: stored.owner_percent,
                current_funding: stored.current_funding,
                status: stored.status,
                contribution_tiers: stored.contribution_tiers,
                contributions: stored.contributions,
            },
        )
    }

    /// Hands the campaign's parts over for storage.
    pub fn into_stored(self) -> (stored: StoredProject)
        ensures
            stored@ == self@,
    {
        StoredProject {
            project_id: self.project_id,
            owner: self.owner,
            platform: self.platform,
            soft_cap: self.soft_cap,
            hard_cap: self.hard_cap,
            deadline: self.deadline,
            owner_percent: self.owner_percent,
            current_funding: self.current_funding,
            status: self.status,
            contribution_tiers: self.contribution_tiers,
            contributions: self.contributions,
        }
    }
}

} // verus!
