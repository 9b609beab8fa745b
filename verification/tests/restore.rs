use project_crowd_funding::identity::Identity;
use project_crowd_funding::project::add_tier::add_contribution_tier;
use project_crowd_funding::project::contribute::contribute;
use project_crowd_funding::project::init_project::init_project;
use project_crowd_funding::project::publish::set_publish;
use project_crowd_funding::project::reimburse::reimburse;
use project_crowd_funding::project::restore::is_well_formed;
use project_crowd_funding::project::restore::StoredProject;
use project_crowd_funding::project::ProjectState;
use project_crowd_funding::state::Contribution;
use project_crowd_funding::state::ContributionTier;
use project_crowd_funding::state::ProjectStatus;

fn holder(n: u8) -> Identity {
    Identity::new([n; 32])
}

fn gift(who: u8, tier_id: u64, reimbursed: bool) -> Contribution {
    Contribution { sender_address: holder(who), contribution_tier_id: tier_id, reimbursed }
}

/// A live campaign with 10 + 40 = 50 in two contributions.
fn stored_live() -> StoredProject {
    StoredProject {
        project_id: 3,
        owner: holder(1),
        platform: holder(2),
        soft_cap: 100,
        hard_cap: 200,
        deadline: 1_000,
        owner_percent: 85,
        current_funding: 50,
        status: ProjectStatus::Live,
        contribution_tiers: vec![
            ContributionTier { tier_id: 1, amount: 10 },
            ContributionTier { tier_id: 2, amount: 40 },
        ],
        contributions: vec![gift(10, 1, false), gift(11, 2, false)],
    }
}

fn with(change: impl FnOnce(&mut StoredProject)) -> StoredProject {
    let mut stored = stored_live();
    change(&mut stored);
    stored
}

#[test]
fn stored_campaign_comes_back_as_it_was_kept() {
    let stored = stored_live();
    assert!(is_well_formed(&stored));
    let project = ProjectState::restore(stored.clone()).unwrap();
    assert_eq!(project.project_id(), 3);
    assert_eq!(project.owner(), holder(1));
    assert_eq!(project.platform(), holder(2));
    assert_eq!(project.soft_cap(), 100);
    assert_eq!(project.hard_cap(), 200);
    assert_eq!(project.deadline(), 1_000);
    assert_eq!(project.owner_percent(), 85);
    assert_eq!(project.current_funding(), 50);
    assert_eq!(project.status(), ProjectStatus::Live);
    assert_eq!(project.contribution_tiers(), &stored.contribution_tiers);
    assert_eq!(project.contributions(), &stored.contributions);
    assert_eq!(project.into_stored(), stored);
}

#[test]
fn campaign_built_by_operations_survives_storage() {
    let mut project = init_project(3, 100, 200, 1_000, holder(1), holder(2), 85).unwrap();
    add_contribution_tier(&mut project, holder(1), 1, 10).unwrap();
    add_contribution_tier(&mut project, holder(1), 2, 40).unwrap();
    set_publish(&mut project, holder(1)).unwrap();
    contribute(&mut project, 1, 10, holder(10), 5).unwrap();
    contribute(&mut project, 2, 40, holder(11), 6).unwrap();
    let stored = project.clone().into_stored();
    assert_eq!(stored, stored_live());
    assert_eq!(ProjectState::restore(stored), Some(project));
}

#[test]
fn funding_must_match_the_journal() {
    assert!(!is_well_formed(&with(|s| s.current_funding = 49)));
    assert!(!is_well_formed(&with(|s| s.current_funding = 51)));
    assert!(!is_well_formed(&with(|s| s.contributions.push(gift(12, 1, false)))));
    assert!(ProjectState::restore(with(|s| s.current_funding = 60)).is_none());
}

#[test]
fn caps_and_share_must_be_in_order() {
    assert!(!is_well_formed(&with(|s| s.soft_cap = 201)));
    assert!(!is_well_formed(&with(|s| s.hard_cap = 49)));
    assert!(!is_well_formed(&with(|s| s.owner_percent = 101)));
    assert!(is_well_formed(&with(|s| s.hard_cap = 100)));
}

#[test]
fn catalog_must_be_well_formed() {
    assert!(!is_well_formed(&with(|s| s.contribution_tiers[1].tier_id = 1)));
    assert!(!is_well_formed(&with(|s| {
        s.contribution_tiers.push(ContributionTier { tier_id: 3, amount: 0 })
    })));
    assert!(!is_well_formed(&with(|s| {
        for n in 3..=6 {
            s.contribution_tiers.push(ContributionTier { tier_id: n, amount: 1 });
        }
    })));
    assert!(is_well_formed(&with(|s| {
        for n in 3..=5 {
            s.contribution_tiers.push(ContributionTier { tier_id: n, amount: 1 });
        }
    })));
}

#[test]
fn contributions_must_name_known_tiers() {
    assert!(!is_well_formed(&with(|s| s.contributions[0].contribution_tier_id = 9)));
    assert!(!is_well_formed(&with(|s| s.contributions.push(gift(12, 9, true)))));
}

#[test]
fn status_must_fit_the_funding_and_the_journal() {
    assert!(!is_well_formed(&with(|s| s.status = ProjectStatus::Draft)));
    assert!(!is_well_formed(&with(|s| s.status = ProjectStatus::Successful)));
    assert!(!is_well_formed(&with(|s| s.status = ProjectStatus::SoldOut)));
    assert!(!is_well_formed(&with(|s| s.status = ProjectStatus::Final)));
    assert!(is_well_formed(&with(|s| s.status = ProjectStatus::Failed)));
    assert!(is_well_formed(&with(|s| s.status = ProjectStatus::Failing)));
    assert!(is_well_formed(&with(|s| {
        s.status = ProjectStatus::Successful;
        s.soft_cap = 50;
    })));
    assert!(is_well_formed(&with(|s| {
        s.status = ProjectStatus::SoldOut;
        s.soft_cap = 50;
        s.hard_cap = 50;
    })));
    assert!(is_well_formed(&with(|s| {
        s.status = ProjectStatus::Final;
        s.current_funding = 0;
    })));
    assert!(is_well_formed(&with(|s| {
        s.status = ProjectStatus::Draft;
        s.current_funding = 0;
        s.contributions.clear();
    })));
    assert!(is_well_formed(&with(|s| {
        s.status = ProjectStatus::Draft;
        s.current_funding = 0;
        s.contributions.clear();
        s.contribution_tiers.clear();
    })));
    assert!(!is_well_formed(&with(|s| {
        s.status = ProjectStatus::Live;
        s.current_funding = 0;
        s.contributions.clear();
        s.contribution_tiers.clear();
    })));
}

#[test]
fn reimbursed_contributions_belong_to_failing_and_final_campaigns() {
    let partly = |status: ProjectStatus| {
        with(|s| {
            s.status = status;
            s.contributions[0].reimbursed = true;
            s.current_funding = 40;
        })
    };
    assert!(is_well_formed(&partly(ProjectStatus::Failing)));
    assert!(!is_well_formed(&partly(ProjectStatus::Failed)));
    assert!(!is_well_formed(&partly(ProjectStatus::Live)));
    assert!(!is_well_formed(&with(|s| {
        s.status = ProjectStatus::Failing;
        s.contributions[0].reimbursed = true;
        s.contributions[1].reimbursed = true;
        s.current_funding = 0;
    })));
    assert!(is_well_formed(&with(|s| {
        s.status = ProjectStatus::Final;
        s.contributions[0].reimbursed = true;
        s.contributions[1].reimbursed = true;
        s.current_funding = 0;
    })));
}

#[test]
fn restored_campaign_takes_operations() {
    let mut project = ProjectState::restore(with(|s| s.status = ProjectStatus::Failed)).unwrap();
    assert_eq!(reimburse(&mut project, holder(11), 1_000), Ok(40));
    assert_eq!(project.status(), ProjectStatus::Failing);
    assert_eq!(project.current_funding(), 10);
    let stored = project.into_stored();
    assert!(is_well_formed(&stored));
    assert_eq!(stored.contributions, vec![gift(10, 1, false), gift(11, 2, true)]);
}
