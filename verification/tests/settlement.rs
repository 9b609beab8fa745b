use project_crowd_funding::errors::CrowdfundingError;
use project_crowd_funding::identity::Identity;
use project_crowd_funding::settlement::refund_contributors;
use project_crowd_funding::settlement::reimburse_contributor;
use project_crowd_funding::settlement::split_payout;
use project_crowd_funding::state::Contribution;
use project_crowd_funding::state::ContributionTier;
use project_crowd_funding::state::Disbursement;
use project_crowd_funding::state::Payout;

fn person(n: u8) -> Identity {
    Identity::new([n; 32])
}

fn price_list() -> Vec<ContributionTier> {
    vec![
        ContributionTier { tier_id: 1, amount: 10 },
        ContributionTier { tier_id: 2, amount: 30 },
    ]
}

fn pledge(who: u8, tier_id: u64, reimbursed: bool) -> Contribution {
    Contribution { sender_address: person(who), contribution_tier_id: tier_id, reimbursed }
}

#[test]
fn payout_gives_the_owner_the_percentage_rounded_down() {
    assert_eq!(split_payout(1000, 90), Payout { owner_share: 900, platform_share: 100 });
    assert_eq!(split_payout(1000, 85), Payout { owner_share: 850, platform_share: 150 });
    assert_eq!(split_payout(1000, 80), Payout { owner_share: 800, platform_share: 200 });
    assert_eq!(split_payout(999, 90), Payout { owner_share: 899, platform_share: 100 });
    assert_eq!(split_payout(1, 99), Payout { owner_share: 0, platform_share: 1 });
    assert_eq!(split_payout(7, 50), Payout { owner_share: 3, platform_share: 4 });
}

#[test]
fn payout_at_the_ends_of_the_scale() {
    assert_eq!(split_payout(1000, 0), Payout { owner_share: 0, platform_share: 1000 });
    assert_eq!(split_payout(1000, 100), Payout { owner_share: 1000, platform_share: 0 });
    assert_eq!(split_payout(0, 90), Payout { owner_share: 0, platform_share: 0 });
}

#[test]
fn payout_of_the_largest_funding_does_not_overflow() {
    let payout = split_payout(u64::MAX, 100);
    assert_eq!(payout, Payout { owner_share: u64::MAX, platform_share: 0 });
    let payout = split_payout(u64::MAX, 90);
    assert_eq!(payout.owner_share, 16602069666338596453);
    assert_eq!(payout.platform_share, u64::MAX - 16602069666338596453);
}

#[test]
fn batch_refund_settles_the_whole_journal() {
    let mut journal = vec![pledge(1, 1, false), pledge(2, 2, false), pledge(1, 1, true)];
    let orders = refund_contributors(&price_list(), &mut journal, &vec![person(2), person(1)]);
    assert_eq!(
        orders,
        Ok(vec![
            Disbursement { recipient: person(1), amount: 10 },
            Disbursement { recipient: person(2), amount: 30 },
        ])
    );
    assert_eq!(journal, vec![pledge(1, 1, true), pledge(2, 2, true), pledge(1, 1, true)]);
}

#[test]
fn batch_refund_needs_every_recipient() {
    let mut journal = vec![pledge(1, 1, false), pledge(2, 2, false)];
    let before = journal.clone();
    let res = refund_contributors(&price_list(), &mut journal, &vec![person(1)]);
    assert_eq!(res, Err(CrowdfundingError::ContributorNotFound));
    assert_eq!(journal, before);
}

#[test]
fn batch_refund_of_a_settled_journal_orders_nothing() {
    let mut journal = vec![pledge(1, 1, true)];
    assert_eq!(refund_contributors(&price_list(), &mut journal, &Vec::new()), Ok(Vec::new()));
    assert_eq!(journal, vec![pledge(1, 1, true)]);
}

#[test]
fn claim_returns_what_one_contributor_is_owed() {
    let mut journal = vec![pledge(1, 1, false), pledge(2, 2, false), pledge(1, 2, false)];
    assert_eq!(reimburse_contributor(&price_list(), &mut journal, 70, &person(1)), Ok(40));
    assert_eq!(journal, vec![pledge(1, 1, true), pledge(2, 2, false), pledge(1, 2, true)]);
}

#[test]
fn claim_is_refused_where_nothing_is_left_to_reimburse() {
    let mut journal = vec![pledge(1, 1, true), pledge(2, 2, false)];
    let before = journal.clone();
    assert_eq!(
        reimburse_contributor(&price_list(), &mut journal, 30, &person(1)),
        Err(CrowdfundingError::NoUnreimbursedContributions)
    );
    assert_eq!(
        reimburse_contributor(&price_list(), &mut journal, 30, &person(3)),
        Err(CrowdfundingError::NoUnreimbursedContributions)
    );
    assert_eq!(journal, before);
}

#[test]
fn claim_is_refused_where_the_funding_does_not_cover_it() {
    let mut journal = vec![pledge(1, 1, false), pledge(1, 2, false)];
    let before = journal.clone();
    assert_eq!(
        reimburse_contributor(&price_list(), &mut journal, 39, &person(1)),
        Err(CrowdfundingError::InsufficientFunds)
    );
    assert_eq!(journal, before);
    assert_eq!(reimburse_contributor(&price_list(), &mut journal, 40, &person(1)), Ok(40));
}
