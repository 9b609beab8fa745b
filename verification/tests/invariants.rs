use project_crowd_funding::errors::CrowdfundingError;
use project_crowd_funding::identity::Identity;
use project_crowd_funding::journal::sum_outstanding;
use project_crowd_funding::project::add_contribution_tier;
use project_crowd_funding::project::contribute;
use project_crowd_funding::project::finalize_project;
use project_crowd_funding::project::init_project;
use project_crowd_funding::project::refund;
use project_crowd_funding::project::reimburse;
use project_crowd_funding::project::restore::is_well_formed;
use project_crowd_funding::project::set_publish;
use project_crowd_funding::project::ProjectState;
use project_crowd_funding::state::FinalizeOutcome;
use project_crowd_funding::state::ProjectStatus;

const CLOSING: i64 = 50;

fn actor(n: u64) -> Identity {
    Identity::new([n as u8; 32])
}

/// A small generator of repeatable numbers.
struct Dice(u64);

impl Dice {
    fn roll(&mut self, sides: u64) -> u64 {
        self.0 = self.0.wrapping_mul(6364136223846793005).wrapping_add(1442695040888963407);
        (self.0 >> 33) % sides
    }
}

fn rank(status: ProjectStatus) -> u8 {
    match status {
        ProjectStatus::Draft => 0,
        ProjectStatus::Live => 1,
        ProjectStatus::Successful | ProjectStatus::SoldOut | ProjectStatus::Failed => 2,
        ProjectStatus::Failing => 3,
        ProjectStatus::Final => 4,
    }
}

/// Asks one more or less sensible thing of the campaign and says whether it was accepted,
/// with the funds that it moved out of the campaign.
fn step(project: &mut ProjectState, dice: &mut Dice) -> (bool, u64) {
    let caller = actor(1 + dice.roll(6));
    let now = dice.roll(2 * CLOSING as u64) as i64;
    match dice.roll(6) {
        0 => (add_contribution_tier(project, caller, 1 + dice.roll(6), dice.roll(4) * 10).is_ok(), 0),
        1 => (set_publish(project, caller).is_ok(), 0),
        2 => {
            let tier_id = 1 + dice.roll(6);
            let amount = match project.contribution_tiers().iter().find(|t| t.tier_id == tier_id) {
                Some(tier) if dice.roll(5) != 0 => tier.amount,
                _ => dice.roll(40),
            };
            (contribute(project, tier_id, amount, caller, now).is_ok(), 0)
        }
        3 => match finalize_project(project, caller, now) {
            Ok(FinalizeOutcome::Distributed(payout)) => {
                (true, payout.owner_share + payout.platform_share)
            }
            Ok(FinalizeOutcome::Failed) => (true, 0),
            Err(_) => (false, 0),
        },
        4 => {
            let known: Vec<Identity> = (1..=6).filter(|_| dice.roll(8) != 0).map(actor).collect();
            match refund(project, caller, &known, now) {
                Ok(orders) => (true, orders.iter().map(|o| o.amount).sum()),
                Err(_) => (false, 0),
            }
        }
        _ => match reimburse(project, caller, now) {
            Ok(amount) => (true, amount),
            Err(_) => (false, 0),
        },
    }
}

#[test]
fn every_walk_keeps_the_books() {
    let mut dice = Dice(20240229);
    let mut reached = [false; 5];
    for walk in 0..400u64 {
        let hard_cap = 40 + dice.roll(200);
        let soft_cap = dice.roll(hard_cap + 1);
        let percent = dice.roll(101) as u8;
        let mut project =
            init_project(walk, soft_cap, hard_cap, CLOSING, actor(1), actor(2), percent).unwrap();
        for _ in 0..120 {
            let before = project.clone();
            let (accepted, paid) = step(&mut project, &mut dice);
            if !accepted {
                assert_eq!(project, before);
                continue;
            }
            let stored = project.clone().into_stored();
            assert!(is_well_formed(&stored));
            assert!(project.current_funding() <= project.hard_cap());
            assert!(rank(project.status()) >= rank(before.status()));
            assert!(project.contributions().len() >= before.contributions().len());
            if before.status() != ProjectStatus::Draft {
                assert_eq!(project.contribution_tiers(), before.contribution_tiers());
            }
            let open = sum_outstanding(
                project.contribution_tiers(),
                project.contributions(),
                u64::MAX,
            );
            if project.status() == ProjectStatus::Final {
                assert_eq!(project.current_funding(), 0);
            } else {
                assert_eq!(open, Some(project.current_funding()));
            }
            if paid > 0 || project.current_funding() < before.current_funding() {
                assert_eq!(before.current_funding() - project.current_funding(), paid);
            }
            reached[rank(project.status()) as usize] = true;
        }
    }
    assert_eq!(reached, [true; 5]);
}

#[test]
fn a_settled_campaign_withstands_every_walk() {
    let mut project = init_project(1, 10, 20, CLOSING, actor(1), actor(2), 50).unwrap();
    add_contribution_tier(&mut project, actor(1), 1, 10).unwrap();
    set_publish(&mut project, actor(1)).unwrap();
    contribute(&mut project, 1, 10, actor(3), 0).unwrap();
    finalize_project(&mut project, actor(2), CLOSING).unwrap();
    assert_eq!(project.status(), ProjectStatus::Final);
    let settled = project.clone();
    let mut dice = Dice(7);
    for _ in 0..2_000 {
        assert_eq!(step(&mut project, &mut dice), (false, 0));
    }
    assert_eq!(project, settled);
    assert_eq!(
        contribute(&mut project, 1, 10, actor(3), 0),
        Err(CrowdfundingError::InvalidState)
    );
}
