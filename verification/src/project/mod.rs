use vstd::prelude::*;
use crate::campaign::Campaign;
use crate::identity::Identity;
use crate::state::Contribution;
use crate::state::ContributionTier;
use crate::state::ProjectStatus;

pub mod add_tier;
pub mod contribute;
pub mod finalize_project;
pub mod init_project;
pub mod publish;
pub mod refund;
pub mod reimburse;
pub mod restore;

pub use self::add_tier::add_contribution_tier;
pub use self::contribute::contribute;
pub use self::finalize_project::finalize_project;
pub use self::init_project::init_project;
pub use self::publish::set_publish;
pub use self::refund::refund;
pub use self::reimburse::reimburse;
pub use self::restore::StoredProject;

verus! {

/// A campaign as it is stored.
///
/// Its fields change only through the operations of this module, each of which keeps the
/// campaign well formed and leaves it untouched when it refuses.
#[derive(Clone, Debug, PartialEq, Eq)]
pub struct ProjectState {
    project_id: u64,
    owner: Identity,
    platform: Identity,
    soft_cap: u64,
    hard_cap: u64,
    deadline: i64,
    owner_percent: u8,
    current_funding: u64,
    status: ProjectStatus,
    contribution_tiers: Vec<ContributionTier>,
    contributions: Vec<Contribution>,
}

impl View for ProjectState {
    type V = Campaign;

    closed spec fn view(&self) -> Campaign {
        Campaign {
            id: self.project_id,
            owner: self.owner,
            platform: self.platform,
            soft_cap: self.soft_cap as nat,
            hard_cap: self.hard_cap as nat,
            deadline: self.deadline as int,
            owner_percent: self.owner_percent as nat,
            funding: self.current_funding as nat,
            status: self.status,
            tiers: self.contribution_tiers@,
            contributions: self.contributions@,
        }
    }
}

impl ProjectState {
    /// The stored campaign is well formed.
    pub open spec fn wf(&self) -> bool {
        self@.wf()
    }

    pub fn project_id(&self) -> (id: u64)
        ensures
            id == self@.id,
    {
        self.project_id
    }

    pub fn owner(&self) -> (owner: Identity)
        ensures
            owner == self@.owner,
    {
        self.owner
    }

    pub fn platform(&self) -> (platform: Identity)
        ensures
            platform == self@.platform,
    {
        self.platform
    }

    pub fn soft_cap(&self) -> (cap: u64)
        ensures
            cap == self@.soft_cap,
    {
        self.soft_cap
    }

    pub fn hard_cap(&self) -> (cap: u64)
        ensures
            cap == self@.hard_cap,
    {
        self.hard_cap
    }

    pub fn deadline(&self) -> (deadline: i64)
        ensures
            deadline == self@.deadline,
    {
        self.deadline
    }

    pub fn owner_percent(&self) -> (percent: u8)
        ensures
            percent == self@.owner_percent,
    {
        self.owner_percent
    }

    pub fn current_funding(&self) -> (funding: u64)
        ensures
            funding == self@.funding,
    {
        self.current_funding
    }

    pub fn status(&self) -> (status: ProjectStatus)
        ensures
            status == self@.status,
    {
        self.status
    }

    pub fn contribution_tiers(&self) -> (tiers: &Vec<ContributionTier>)
        ensures
            tiers@ == self@.tiers,
    {
        &self.contribution_tiers
    }

    pub fn contributions(&self) -> (journal: &Vec<Contribution>)
        ensures
            journal@ == self@.contributions,
    {
        &self.contributions
    }
}

} // verus!
