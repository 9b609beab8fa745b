use project_crowd_funding::errors::CrowdfundingError;
use project_crowd_funding::identity::Identity;
use project_crowd_funding::project::add_tier::add_contribution_tier;
use project_crowd_funding::project::contribute::contribute;
use project_crowd_funding::project::finalize_project::finalize_project;
use project_crowd_funding::project::init_project::init_project;
use project_crowd_funding::project::publish::set_publish;
use project_crowd_funding::project::ProjectState;
use project_crowd_funding::state::Contribution;
use project_crowd_funding::state::ProjectStatus;

const CLOSES: i64 = 500;

fn who(n: u8) -> Identity {
    Identity::new([n; 32])
}

fn draft(soft_cap: u64, hard_cap: u64) -> ProjectState {
    init_project(1, soft_cap, hard_cap, CLOSES, who(1), who(2), 85).unwrap()
}

fn open_campaign(soft_cap: u64, hard_cap: u64) -> ProjectState {
    let mut project = draft(soft_cap, hard_cap);
    add_contribution_tier(&mut project, who(1), 1, 50).unwrap();
    add_contribution_tier(&mut project, who(1), 2, 75).unwrap();
    set_publish(&mut project, who(1)).unwrap();
    project
}

#[test]
fn accepted_pledge_is_recorded_and_counted() {
    let mut project = open_campaign(100, 1_000);
    assert_eq!(contribute(&mut project, 2, 75, who(9), 0), Ok(()));
    assert_eq!(contribute(&mut project, 1, 50, who(8), CLOSES - 1), Ok(()));
    assert_eq!(project.current_funding(), 125);
    assert_eq!(project.status(), ProjectStatus::Live);
    assert_eq!(
        project.contributions(),
        &vec![
            Contribution { sender_address: who(9), contribution_tier_id: 2, reimbursed: false },
            Contribution { sender_address: who(8), contribution_tier_id: 1, reimbursed: false },
        ]
    );
}

#[test]
fn pledge_to_a_draft_is_refused() {
    let mut project = draft(100, 200);
    add_contribution_tier(&mut project, who(1), 1, 50).unwrap();
    let before = project.clone();
    assert_eq!(contribute(&mut project, 1, 50, who(9), 0), Err(CrowdfundingError::InvalidState));
    assert_eq!(project, before);
}

#[test]
fn pledge_at_the_deadline_is_refused() {
    let mut project = open_campaign(100, 200);
    let before = project.clone();
    assert_eq!(
        contribute(&mut project, 1, 50, who(9), CLOSES),
        Err(CrowdfundingError::DeadlinePassed)
    );
    assert_eq!(
        contribute(&mut project, 1, 50, who(9), CLOSES + 1),
        Err(CrowdfundingError::DeadlinePassed)
    );
    assert_eq!(project, before);
}

#[test]
fn pledge_to_a_campaign_at_its_hard_cap_is_refused() {
    let mut project = open_campaign(0, 0);
    let before = project.clone();
    assert_eq!(contribute(&mut project, 1, 50, who(9), 0), Err(CrowdfundingError::HardCapReached));
    assert_eq!(contribute(&mut project, 3, 50, who(9), 0), Err(CrowdfundingError::HardCapReached));
    assert_eq!(project, before);
}

#[test]
fn pledge_to_an_unknown_tier_changes_nothing() {
    let mut project = open_campaign(100, 200);
    contribute(&mut project, 1, 50, who(9), 0).unwrap();
    let before = project.clone();
    assert_eq!(contribute(&mut project, 3, 50, who(9), 0), Err(CrowdfundingError::TierNotFound));
    assert_eq!(project, before);
    assert_eq!(project.clone().into_stored(), before.into_stored());
}

#[test]
fn pledge_of_the_wrong_amount_changes_nothing() {
    let mut project = open_campaign(100, 200);
    contribute(&mut project, 1, 50, who(9), 0).unwrap();
    let before = project.clone();
    assert_eq!(contribute(&mut project, 1, 49, who(9), 0), Err(CrowdfundingError::AmountMismatch));
    assert_eq!(contribute(&mut project, 1, 75, who(9), 0), Err(CrowdfundingError::AmountMismatch));
    assert_eq!(contribute(&mut project, 2, 50, who(9), 0), Err(CrowdfundingError::AmountMismatch));
    assert_eq!(contribute(&mut project, 1, 0, who(9), 0), Err(CrowdfundingError::AmountMismatch));
    assert_eq!(project, before);
    assert_eq!(project.clone().into_stored(), before.into_stored());
}

#[test]
fn refusals_come_in_a_fixed_order() {
    let mut project = draft(100, 200);
    assert_eq!(
        contribute(&mut project, 9, 1, who(9), CLOSES),
        Err(CrowdfundingError::InvalidState)
    );
    let mut project = open_campaign(0, 0);
    assert_eq!(
        contribute(&mut project, 9, 1, who(9), CLOSES),
        Err(CrowdfundingError::DeadlinePassed)
    );
    assert_eq!(contribute(&mut project, 9, 1, who(9), 0), Err(CrowdfundingError::HardCapReached));
    let mut project = open_campaign(10, 60);
    assert_eq!(contribute(&mut project, 9, 1, who(9), 0), Err(CrowdfundingError::TierNotFound));
    assert_eq!(contribute(&mut project, 2, 1, who(9), 0), Err(CrowdfundingError::AmountMismatch));
    assert_eq!(contribute(&mut project, 2, 75, who(9), 0), Err(CrowdfundingError::HardCapReached));
    assert_eq!(contribute(&mut project, 1, 50, who(9), 0), Ok(()));
}

#[test]
fn funding_is_the_sum_of_the_accepted_pledges() {
    let mut project = open_campaign(100, 1_000);
    let pledges: [(u64, u64); 8] =
        [(1, 50), (2, 75), (3, 10), (1, 51), (2, 75), (1, 50), (2, 50), (1, 50)];
    let mut expected = 0;
    let mut accepted = 0;
    for (n, (tier_id, amount)) in pledges.iter().enumerate() {
        if contribute(&mut project, *tier_id, *amount, who(n as u8), 1).is_ok() {
            expected += amount;
            accepted += 1;
        }
        assert_eq!(project.current_funding(), expected);
        assert_eq!(project.contributions().len(), accepted);
        assert!(project.current_funding() <= project.hard_cap());
    }
    assert_eq!(expected, 50 + 75 + 75 + 50 + 50);
    assert_eq!(accepted, 5);
}

#[test]
fn funding_never_passes_the_hard_cap() {
    let mut project = open_campaign(100, 300);
    let mut refused = 0;
    for n in 0..10u8 {
        let tier = if n % 2 == 0 { (2, 75) } else { (1, 50) };
        if contribute(&mut project, tier.0, tier.1, who(n), 1).is_err() {
            refused += 1;
        }
        assert!(project.current_funding() <= 300);
    }
    assert_eq!(project.current_funding(), 300);
    assert_eq!(project.status(), ProjectStatus::SoldOut);
    assert_eq!(refused, 5);
}

#[test]
fn sold_out_campaign_is_paid_out_at_the_deadline() {
    let mut project = open_campaign(100, 150);
    contribute(&mut project, 2, 75, who(9), 0).unwrap();
    contribute(&mut project, 2, 75, who(9), 0).unwrap();
    assert_eq!(project.status(), ProjectStatus::SoldOut);
    assert_eq!(
        finalize_project(&mut project, who(1), CLOSES - 1),
        Err(CrowdfundingError::DeadlineNotPassed)
    );
    assert!(finalize_project(&mut project, who(1), CLOSES).is_ok());
    assert_eq!(project.status(), ProjectStatus::Final);
}
