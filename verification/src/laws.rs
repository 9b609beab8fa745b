use vstd::prelude::*;
use crate::campaign::Campaign;
use crate::errors::CrowdfundingError;
use crate::identity::Identity;
use crate::journal::has_claim;
use crate::journal::lemma_claim_is_positive;
use crate::journal::lemma_outstanding_zero;
use crate::journal::lemma_refund_total;
use crate::journal::lemma_settle_all;
use crate::journal::lemma_settle_for;
use crate::journal::lemma_settle_for_others;
use crate::journal::none_reimbursed;
use crate::journal::outstanding;
use crate::journal::refund_orders;
use crate::journal::total;
use crate::state::FinalizeOutcome;
use crate::state::ProjectStatus;
use crate::tiers::has_tier;
use crate::tiers::price_of;

verus! {

/// A request that some party makes of a campaign.
pub enum Operation {
    AddTier { caller: Identity, tier_id: u64, amount: u64 },
    Publish { caller: Identity },
    Contribute { tier_id: u64, amount: u64, contributor: Identity, now: int },
    Finalize { caller: Identity, now: int },
    Refund { caller: Identity, recipients: Seq<Identity>, now: int },
    Reimburse { who: Identity, now: int },
}

impl Operation {
    pub open spec fn is_contribution(self) -> bool {
        self is Contribute
    }
}

impl Campaign {
    /// Whether the campaign accepts the request, and the refusal if not.
    pub open spec fn check(self, op: Operation) -> Result<(), CrowdfundingError> {
        match op {
            Operation::AddTier { caller, tier_id, amount } => self.add_tier_check(
                caller,
                tier_id,
                amount,
            ),
            Operation::Publish { caller } => self.publish_check(caller),
            Operation::Contribute { tier_id, amount, contributor, now } => self.contribute_check(
                tier_id,
                amount,
                now,
            ),
            Operation::Finalize { caller, now } => self.finalize_check(caller, now),
            Operation::Refund { caller, recipients, now } => self.refund_check(
                caller,
                recipients,
                now,
            ),
            Operation::Reimburse { who, now } => self.reimburse_check(who, now),
        }
    }

    /// The campaign after the request: changed as the operation says where it is accepted,
    /// and as it was where it is refused.
    pub open spec fn apply(self, op: Operation) -> Campaign {
        if self.check(op) is Err {
            self
        } else {
            match op {
                Operation::AddTier { caller, tier_id, amount } => self.add_tier_effect(
                    tier_id,
                    amount,
                ),
                Operation::Publish { caller } => self.publish_effect(),
                Operation::Contribute {
                    tier_id,
                    amount,
                    contributor,
                    now,
                } => self.contribute_effect(tier_id, amount, contributor, now),
                Operation::Finalize { caller, now } => self.finalize_effect(now),
                Operation::Refund { caller, recipients, now } => self.refund_effect(),
                Operation::Reimburse { who, now } => self.reimburse_effect(who),
            }
        }
    }

    /// The campaign after the requests, one after the other.
    pub open spec fn run(self, ops: Seq<Operation>) -> Campaign
        decreases ops.len(),
    {
        if ops.len() == 0 {
            self
        } else {
            self.run(ops.drop_last()).apply(ops.last())
        }
    }
}

/// Whether a campaign in status `from` can get to status `to` in one operation: a draft
/// goes live; a live campaign sells out, fails or is settled; a successful or sold-out
/// campaign is settled; a failed campaign is returned to its contributors bit by bit, which
/// makes it failing, and then final.
pub open spec fn may_follow(from: ProjectStatus, to: ProjectStatus) -> bool {
    from == to || match from {
        ProjectStatus::Draft => to == ProjectStatus::Live,
        ProjectStatus::Live => to == ProjectStatus::SoldOut || to == ProjectStatus::Failed || to
            == ProjectStatus::Final,
        ProjectStatus::Successful => to == ProjectStatus::Final,
        ProjectStatus::SoldOut => to == ProjectStatus::Final,
        ProjectStatus::Failed => to == ProjectStatus::Failing || to == ProjectStatus::Final,
        ProjectStatus::Failing => to == ProjectStatus::Final,
        ProjectStatus::Final => false,
    }
}

/// No operation moves a campaign backwards or past a step.
pub proof fn law_status_moves_forward(c: Campaign, op: Operation)
    ensures
        may_follow(c.status, c.apply(op).status),
{
}

/// Whatever is asked of a well-formed campaign, it stays well formed.
pub proof fn law_operation_keeps_wf(c: Campaign, op: Operation)
    requires
        c.wf(),
    ensures
        c.apply(op).wf(),
{
    if c.check(op) is Ok {
        match op {
            Operation::AddTier { caller, tier_id, amount } => {
                c.lemma_add_tier_wf(caller, tier_id, amount);
            },
            Operation::Publish { caller } => {
                c.lemma_publish_wf(caller);
            },
            Operation::Contribute { tier_id, amount, contributor, now } => {
                c.lemma_contribute_wf(tier_id, amount, contributor, now);
            },
            Operation::Finalize { caller, now } => {
                c.lemma_finalize_wf(caller, now);
            },
            Operation::Refund { caller, recipients, now } => {
                c.lemma_refund_wf(caller, recipients, now);
            },
            Operation::Reimburse { who, now } => {
                c.lemma_reimburse_wf(who, now);
            },
        }
    }
}

/// After any sequence of requests the funding is within the hard cap, and until the
/// campaign is final it is the sum of the prices of the contributions that are not
/// reimbursed.
pub proof fn law_funding_accounts_for_journal(c: Campaign, ops: Seq<Operation>)
    requires
        c.wf(),
    ensures
        c.run(ops).wf(),
        c.run(ops).funding <= c.run(ops).hard_cap,
        c.run(ops).status != ProjectStatus::Final ==> c.run(ops).funding == outstanding(
            c.run(ops).tiers,
            c.run(ops).contributions,
        ),
    decreases ops.len(),
{
    if ops.len() > 0 {
        law_funding_accounts_for_journal(c, ops.drop_last());
        law_operation_keeps_wf(c.run(ops.drop_last()), ops.last());
    }
}

/// After any sequence of contributions to a live campaign, accepted or refused, the funding
/// is the sum of the prices of the recorded contributions, none of which is reimbursed.
pub proof fn law_contributions_add_up(c: Campaign, pledges: Seq<Operation>)
    requires
        c.wf(),
        c.status == ProjectStatus::Live,
        forall|i: int| 0 <= i < pledges.len() ==> (#[trigger] pledges[i]).is_contribution(),
    ensures
        c.run(pledges).status == ProjectStatus::Live || c.run(pledges).status
            == ProjectStatus::SoldOut,
        c.run(pledges).funding == outstanding(c.run(pledges).tiers, c.run(pledges).contributions),
        none_reimbursed(c.run(pledges).contributions),
    decreases pledges.len(),
{
    if pledges.len() > 0 {
        let before = c.run(pledges.drop_last());
        law_contributions_add_up(c, pledges.drop_last());
        law_funding_accounts_for_journal(c, pledges.drop_last());
        assert(pledges.last().is_contribution());
        law_operation_keeps_wf(before, pledges.last());
        if before.check(pledges.last()) is Ok {
            match pledges.last() {
                Operation::Contribute { tier_id, amount, contributor, now } => {
                    before.lemma_contribute_wf(tier_id, amount, contributor, now);
                },
                _ => {},
            }
        }
    }
}

/// A contribution that names no tier of the campaign, or an amount that is not the tier's
/// price, is refused and changes nothing. Where the campaign is live, before its deadline
/// and below its hard cap, the refusal names the fault.
pub proof fn law_faulty_contribution_is_refused(
    c: Campaign,
    tier_id: u64,
    amount: u64,
    contributor: Identity,
    now: int,
)
    requires
        !has_tier(c.tiers, tier_id) || price_of(c.tiers, tier_id) != amount,
    ensures
        c.contribute_check(tier_id, amount, now) is Err,
        c.apply((Operation::Contribute { tier_id, amount, contributor, now })) == c,
        c.status == ProjectStatus::Live && now < c.deadline && c.funding < c.hard_cap && !has_tier(
            c.tiers,
            tier_id,
        ) ==> c.contribute_check(tier_id, amount, now) == Err::<(), CrowdfundingError>(
            CrowdfundingError::TierNotFound,
        ),
        c.status == ProjectStatus::Live && now < c.deadline && c.funding < c.hard_cap && has_tier(
            c.tiers,
            tier_id,
        ) ==> c.contribute_check(tier_id, amount, now) == Err::<(), CrowdfundingError>(
            CrowdfundingError::AmountMismatch,
        ),
{
}

/// A final campaign refuses every request with `InvalidState` and never changes again.
pub proof fn law_final_is_terminal(c: Campaign, op: Operation)
    requires
        c.status == ProjectStatus::Final,
    ensures
        c.check(op) == Err::<(), CrowdfundingError>(CrowdfundingError::InvalidState),
        c.apply(op) == c,
{
}

/// No sequence of requests moves a final campaign.
pub proof fn law_final_stays_final(c: Campaign, ops: Seq<Operation>)
    requires
        c.status == ProjectStatus::Final,
    ensures
        c.run(ops) == c,
    decreases ops.len(),
{
    if ops.len() > 0 {
        law_final_stays_final(c, ops.drop_last());
        law_final_is_terminal(c, ops.last());
    }
}

/// The journal only grows, its entries keep their contributor and tier, and a reimbursed
/// flag, once set, stays set.
pub proof fn law_journal_is_append_only(c: Campaign, op: Operation, i: int)
    requires
        0 <= i < c.contributions.len(),
    ensures
        i < c.apply(op).contributions.len(),
        c.apply(op).contributions[i].sender_address == c.contributions[i].sender_address,
        c.apply(op).contributions[i].contribution_tier_id
            == c.contributions[i].contribution_tier_id,
        c.contributions[i].reimbursed ==> c.apply(op).contributions[i].reimbursed,
{
}

/// Once a campaign has left the draft status, its tiers never change.
pub proof fn law_tiers_are_frozen(c: Campaign, op: Operation)
    requires
        c.status != ProjectStatus::Draft,
    ensures
        c.apply(op).tiers == c.tiers,
        c.apply(op).status != ProjectStatus::Draft,
{
}

/// After a reimbursement every contribution of the claimant is marked, nothing is owed to
/// the claimant any more, and a second claim is refused whenever it is made.
pub proof fn law_no_second_reimbursement(c: Campaign, who: Identity, now: int, later: int)
    requires
        c.wf(),
        c.reimburse_check(who, now) is Ok,
    ensures
        forall|i: int|
            0 <= i < c.contributions.len() && (#[trigger] c.contributions[i]).sender_address == who
                ==> c.reimburse_effect(who).contributions[i].reimbursed,
        !has_claim(c.reimburse_effect(who).contributions, who),
        c.reimburse_effect(who).owes(who) == 0,
        c.reimburse_effect(who).reimburse_check(who, later) is Err,
        c.reimburse_effect(who).status != ProjectStatus::Final && later < c.deadline
            ==> c.reimburse_effect(who).reimburse_check(who, later) == Err::<(), CrowdfundingError>(
            CrowdfundingError::DeadlineNotPassed,
        ),
        c.reimburse_effect(who).status != ProjectStatus::Final && later >= c.deadline
            ==> c.reimburse_effect(who).reimburse_check(who, later) == Err::<(), CrowdfundingError>(
            CrowdfundingError::NoUnreimbursedContributions,
        ),
        c.reimburse_effect(who).status == ProjectStatus::Final ==> c.reimburse_effect(
            who,
        ).reimburse_check(who, later) == Err::<(), CrowdfundingError>(
            CrowdfundingError::InvalidState,
        ),
{
    lemma_settle_for(c.tiers, c.contributions, who);
}

/// After the batch refund every contribution is marked and nobody has a claim: whoever
/// asks again, by either path, is refused.
pub proof fn law_refund_settles_everyone(
    c: Campaign,
    caller: Identity,
    recipients: Seq<Identity>,
    now: int,
    who: Identity,
    later: int,
)
    requires
        c.wf(),
        c.refund_check(caller, recipients, now) is Ok,
    ensures
        forall|i: int|
            0 <= i < c.contributions.len() ==> (#[trigger] c.refund_effect().contributions[i]).reimbursed,
        !has_claim(c.refund_effect().contributions, who),
        c.refund_effect().reimburse_check(who, later) == Err::<(), CrowdfundingError>(
            CrowdfundingError::InvalidState,
        ),
        c.refund_effect().refund_check(caller, recipients, later) == Err::<(), CrowdfundingError>(
            CrowdfundingError::InvalidState,
        ),
{
    lemma_settle_all(c.tiers, c.contributions);
}

/// Settlement neither makes nor loses funds: a payout divides exactly the funding, the
/// orders of a batch refund add up to it, and a reimbursement takes out of it exactly what
/// the claimant was owed.
pub proof fn law_settlement_conserves_funds(
    c: Campaign,
    caller: Identity,
    recipients: Seq<Identity>,
    who: Identity,
    now: int,
)
    requires
        c.wf(),
    ensures
        c.finalize_check(caller, now) is Ok ==> (c.finalize_outcome(now) matches FinalizeOutcome::Distributed(
            payout,
        ) ==> payout.owner_share + payout.platform_share == c.funding),
        c.finalize_check(caller, now) is Ok && c.finalize_outcome(now) is Failed
            ==> c.finalize_effect(now).funding == c.funding,
        c.refund_check(caller, recipients, now) is Ok ==> total(
            refund_orders(c.tiers, c.contributions),
        ) == c.funding,
        c.reimburse_check(who, now) is Ok ==> c.reimburse_effect(who).funding + c.owes(who)
            == c.funding,
        c.in_failed_family() ==> c.owes(who) <= c.funding,
{
    if c.finalize_check(caller, now) is Ok {
        c.lemma_finalize_wf(caller, now);
    }
    lemma_refund_total(c.tiers, c.contributions);
    if c.status != ProjectStatus::Final {
        c.lemma_funds_cover_claims(who);
    }
}

/// A reimbursement pays a positive sum, and changes neither what any other contributor is
/// owed nor whether that contributor has a claim.
pub proof fn law_reimbursement_touches_one_contributor(
    c: Campaign,
    who: Identity,
    other: Identity,
    now: int,
)
    requires
        c.wf(),
        c.reimburse_check(who, now) is Ok,
        other != who,
    ensures
        c.owes(who) > 0,
        c.reimburse_effect(who).owes(other) == c.owes(other),
        has_claim(c.reimburse_effect(who).contributions, other) == has_claim(
            c.contributions,
            other,
        ),
{
    lemma_claim_is_positive(c.tiers, c.contributions, who);
    lemma_settle_for_others(c.tiers, c.contributions, who, other);
}

/// A campaign that failed holds nothing exactly when every contribution is reimbursed: so
/// reimbursements make it final with the last claim, and not before.
pub proof fn law_failed_campaign_is_empty_when_all_are_reimbursed(c: Campaign)
    requires
        c.wf(),
        c.in_failed_family(),
    ensures
        c.funding == 0 <==> forall|i: int|
            0 <= i < c.contributions.len() ==> (#[trigger] c.contributions[i]).reimbursed,
{
    lemma_outstanding_zero(c.tiers, c.contributions);
}

} // verus!
