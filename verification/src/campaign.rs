use vstd::prelude::*;
use crate::errors::CrowdfundingError;
use crate::identity::Identity;
use crate::journal::all_resolvable;
use crate::journal::all_settled;
use crate::journal::has_claim;
use crate::journal::known_tiers;
use crate::journal::lemma_outstanding_push;
use crate::journal::lemma_owed_within_outstanding;
use crate::journal::lemma_settle_for;
use crate::journal::none_reimbursed;
use crate::journal::outstanding;
use crate::journal::owed_to;
use crate::journal::settled_for;
use crate::machine::spec_next_status;
use crate::settlement::lemma_owner_share_bounded;
use crate::settlement::split;
use crate::state::Contribution;
use crate::state::ContributionTier;
use crate::state::FinalizeOutcome;
use crate::state::ProjectStatus;
use crate::tiers::add_check;
use crate::tiers::catalog_wf;
use crate::tiers::has_tier;
use crate::tiers::price_of;

verus! {

/// A campaign as a mathematical value: what a stored project stands for.
pub struct Campaign {
    pub id: u64,
    /// Who manages the tiers, publishes, and receives the owner's share.
    pub owner: Identity,
    /// Who operates the platform and receives the platform's share.
    pub platform: Identity,
    pub soft_cap: nat,
    pub hard_cap: nat,
    pub deadline: int,
    /// The owner's part of a payout, in hundredths.
    pub owner_percent: nat,
    pub funding: nat,
    pub status: ProjectStatus,
    pub tiers: Seq<ContributionTier>,
    pub contributions: Seq<Contribution>,
}

impl Campaign {
    /// The funding is the sum of what is due for the contributions.
    pub open spec fn balanced(self) -> bool {
        self.funding == outstanding(self.tiers, self.contributions)
    }

    /// What each status says of the funding and the journal.
    pub open spec fn status_fits(self) -> bool {
        match self.status {
            ProjectStatus::Draft => self.contributions.len() == 0 && self.funding == 0,
            ProjectStatus::Live => {
                &&& self.balanced()
                &&& none_reimbursed(self.contributions)
                &&& self.funding <= self.hard_cap
            },
            ProjectStatus::Successful => {
                &&& self.balanced()
                &&& none_reimbursed(self.contributions)
                &&& self.soft_cap <= self.funding < self.hard_cap
            },
            ProjectStatus::SoldOut => {
                &&& self.balanced()
                &&& none_reimbursed(self.contributions)
                &&& self.funding == self.hard_cap
            },
            ProjectStatus::Failed => {
                &&& self.balanced()
                &&& none_reimbursed(self.contributions)
                &&& self.funding < self.soft_cap
            },
            ProjectStatus::Failing => self.balanced() && 0 < self.funding < self.soft_cap,
            ProjectStatus::Final => self.funding == 0,
        }
    }

    /// The invariant of a campaign.
    ///
    /// The caps are ordered, the catalog is well formed and frozen with at least one tier
    /// once the campaign is published, every contribution names a tier, and the funding is
    /// what the status says: the sum of the contributions that are not reimbursed until the
    /// campaign is final, and zero from then on. So the funding never exceeds the hard cap.
    pub open spec fn wf(self) -> bool {
        &&& self.soft_cap <= self.hard_cap <= u64::MAX
        &&& self.owner_percent <= 100
        &&& catalog_wf(self.tiers)
        &&& known_tiers(self.tiers, self.contributions)
        &&& self.status != ProjectStatus::Draft ==> self.tiers.len() > 0
        &&& self.status_fits()
    }

    /// Whether the caller may settle the campaign: the owner and the platform may.
    pub open spec fn is_operator(self, caller: Identity) -> bool {
        caller == self.owner || caller == self.platform
    }

    /// Whether the campaign has missed its soft cap and owes its contributors.
    pub open spec fn in_failed_family(self) -> bool {
        self.status == ProjectStatus::Failed || self.status == ProjectStatus::Failing
    }

    /// Whether the configuration of a new campaign is refused.
    pub open spec fn init_check(soft_cap: nat, hard_cap: nat, owner_percent: nat) -> Result<
        (),
        CrowdfundingError,
    > {
        if soft_cap > hard_cap || owner_percent > 100 {
            Err(CrowdfundingError::InvalidConfiguration)
        } else {
            Ok(())
        }
    }

    /// A new campaign: a draft without tiers, contributions or funds.
    pub open spec fn init(
        id: u64,
        soft_cap: nat,
        hard_cap: nat,
        deadline: int,
        owner: Identity,
        platform: Identity,
        owner_percent: nat,
    ) -> Campaign {
        Campaign {
            id,
            owner,
            platform,
            soft_cap,
            hard_cap,
            deadline,
            owner_percent,
            funding: 0,
            status: ProjectStatus::Draft,
            tiers: Seq::empty(),
            contributions: Seq::empty(),
        }
    }

    /// Whether a tier may be added, and the refusal if not: the campaign must be a draft,
    /// the caller its owner, and the catalog must take the tier, tested in this order.
    pub open spec fn add_tier_check(self, caller: Identity, tier_id: u64, amount: u64) -> Result<
        (),
        CrowdfundingError,
    > {
        if self.status != ProjectStatus::Draft {
            Err(CrowdfundingError::InvalidState)
        } else if caller != self.owner {
            Err(CrowdfundingError::Unauthorized)
        } else {
            add_check(self.tiers, tier_id, amount)
        }
    }

    /// The campaign with one more tier at the end of its catalog.
    pub open spec fn add_tier_effect(self, tier_id: u64, amount: u64) -> Campaign {
        Campaign { tiers: self.tiers.push(ContributionTier { tier_id, amount }), ..self }
    }

    /// Whether the campaign may be published, and the refusal if not: it must be a draft,
    /// the caller its owner, and the catalog must not be empty, tested in this order.
    pub open spec fn publish_check(self, caller: Identity) -> Result<(), CrowdfundingError> {
        if self.status != ProjectStatus::Draft {
            Err(CrowdfundingError::InvalidState)
        } else if caller != self.owner {
            Err(CrowdfundingError::Unauthorized)
        } else if self.tiers.len() == 0 {
            Err(CrowdfundingError::NoContributionTiers)
        } else {
            Ok(())
        }
    }

    /// The campaign, live.
    pub open spec fn publish_effect(self) -> Campaign {
        Campaign { status: ProjectStatus::Live, ..self }
    }

    /// Whether a contribution is accepted, and the refusal if not.
    ///
    /// Tested in this order: the campaign is live; the deadline lies ahead; the hard cap is
    /// not reached; the tier exists; the amount is the tier's price; the hard cap still holds
    /// with the amount added.
    pub open spec fn contribute_check(self, tier_id: u64, amount: u64, now: int) -> Result<
        (),
        CrowdfundingError,
    > {
        if self.status != ProjectStatus::Live {
            Err(CrowdfundingError::InvalidState)
        } else if now >= self.deadline {
            Err(CrowdfundingError::DeadlinePassed)
        } else if self.funding >= self.hard_cap {
            Err(CrowdfundingError::HardCapReached)
        } else if !has_tier(self.tiers, tier_id) {
            Err(CrowdfundingError::TierNotFound)
        } else if price_of(self.tiers, tier_id) != amount {
            Err(CrowdfundingError::AmountMismatch)
        } else if self.funding + amount > self.hard_cap {
            Err(CrowdfundingError::HardCapReached)
        } else {
            Ok(())
        }
    }

    /// The campaign after an accepted contribution: the amount is added to the funding, the
    /// contribution is appended to the journal, and the transition rule has been applied.
    pub open spec fn contribute_effect(
        self,
        tier_id: u64,
        amount: u64,
        contributor: Identity,
        now: int,
    ) -> Campaign {
        let funding: nat = self.funding + amount as nat;
        Campaign {
            funding,
            contributions: self.contributions.push(
                Contribution {
                    sender_address: contributor,
                    contribution_tier_id: tier_id,
                    reimbursed: false,
                },
            ),
            status: spec_next_status(
                self.status,
                funding,
                self.soft_cap,
                self.hard_cap,
                now,
                self.deadline,
            ),
            ..self
        }
    }

    /// Whether the campaign can be finalized, and the refusal if not: it must be live,
    /// successful or sold out, the caller its owner or the platform, and the deadline
    /// reached, tested in this order.
    pub open spec fn finalize_check(self, caller: Identity, now: int) -> Result<
        (),
        CrowdfundingError,
    > {
        if self.status != ProjectStatus::Live && self.status != ProjectStatus::Successful
            && self.status != ProjectStatus::SoldOut {
            Err(CrowdfundingError::InvalidState)
        } else if !self.is_operator(caller) {
            Err(CrowdfundingError::Unauthorized)
        } else if now < self.deadline {
            Err(CrowdfundingError::DeadlineNotPassed)
        } else {
            Ok(())
        }
    }

    /// The status that the transition rule gives the campaign at `now`.
    pub open spec fn status_at(self, now: int) -> ProjectStatus {
        spec_next_status(
            self.status,
            self.funding,
            self.soft_cap,
            self.hard_cap,
            now,
            self.deadline,
        )
    }

    /// What finalizing comes to: a campaign that the rule finds failed is only marked so;
    /// any other is paid out.
    pub open spec fn finalize_outcome(self, now: int) -> FinalizeOutcome {
        if self.status_at(now) == ProjectStatus::Failed {
            FinalizeOutcome::Failed
        } else {
            FinalizeOutcome::Distributed(split(self.funding, self.owner_percent))
        }
    }

    /// The campaign after it was finalized: failed with its funds untouched, or final with
    /// its funds gone.
    pub open spec fn finalize_effect(self, now: int) -> Campaign {
        if self.status_at(now) == ProjectStatus::Failed {
            Campaign { status: ProjectStatus::Failed, ..self }
        } else {
            Campaign { status: ProjectStatus::Final, funding: 0, ..self }
        }
    }

    /// Whether the batch refund can run, and the refusal if not: the campaign must have
    /// failed, the caller be its owner or the platform, the deadline be reached, and every
    /// contributor who is owed something be resolvable, tested in this order.
    pub open spec fn refund_check(
        self,
        caller: Identity,
        recipients: Seq<Identity>,
        now: int,
    ) -> Result<(), CrowdfundingError> {
        if !self.in_failed_family() {
            Err(CrowdfundingError::InvalidState)
        } else if !self.is_operator(caller) {
            Err(CrowdfundingError::Unauthorized)
        } else if now < self.deadline {
            Err(CrowdfundingError::DeadlineNotPassed)
        } else if !all_resolvable(self.contributions, recipients) {
            Err(CrowdfundingError::ContributorNotFound)
        } else {
            Ok(())
        }
    }

    /// The campaign after the batch refund: every contribution reimbursed, no funds, final.
    pub open spec fn refund_effect(self) -> Campaign {
        Campaign {
            contributions: all_settled(self.contributions),
            funding: 0,
            status: ProjectStatus::Final,
            ..self
        }
    }

    /// What the campaign owes `who`.
    pub open spec fn owes(self, who: Identity) -> nat {
        owed_to(self.tiers, self.contributions, who)
    }

    /// Whether `who` can be reimbursed, and the refusal if not: the campaign must have
    /// failed, the deadline be reached, `who` have a contribution that is not reimbursed,
    /// and the funding cover what `who` is owed, tested in this order.
    pub open spec fn reimburse_check(self, who: Identity, now: int) -> Result<
        (),
        CrowdfundingError,
    > {
        if !self.in_failed_family() {
            Err(CrowdfundingError::InvalidState)
        } else if now < self.deadline {
            Err(CrowdfundingError::DeadlineNotPassed)
        } else if !has_claim(self.contributions, who) {
            Err(CrowdfundingError::NoUnreimbursedContributions)
        } else if self.funding < self.owes(who) {
            Err(CrowdfundingError::InsufficientFunds)
        } else {
            Ok(())
        }
    }

    /// The campaign after `who` was reimbursed: the contributions of `who` are marked, what
    /// was owed has left the funding, and the campaign is final if nothing is left and
    /// failing otherwise.
    pub open spec fn reimburse_effect(self, who: Identity) -> Campaign {
        let funding: nat = (self.funding - self.owes(who)) as nat;
        Campaign {
            contributions: settled_for(self.contributions, who),
            funding,
            status: if funding == 0 {
                ProjectStatus::Final
            } else {
                ProjectStatus::Failing
            },
            ..self
        }
    }
}

impl Campaign {
    /// A new campaign with an accepted configuration is well formed.
    pub proof fn lemma_init_wf(
        id: u64,
        soft_cap: nat,
        hard_cap: nat,
        deadline: int,
        owner: Identity,
        platform: Identity,
        owner_percent: nat,
    )
        requires
            hard_cap <= u64::MAX,
            Campaign::init_check(soft_cap, hard_cap, owner_percent) is Ok,
        ensures
            Campaign::init(id, soft_cap, hard_cap, deadline, owner, platform, owner_percent).wf(),
    {
    }

    /// Adding a tier keeps the campaign well formed.
    pub proof fn lemma_add_tier_wf(self, caller: Identity, tier_id: u64, amount: u64)
        requires
            self.wf(),
            self.add_tier_check(caller, tier_id, amount) is Ok,
        ensures
            self.add_tier_effect(tier_id, amount).wf(),
    {
        let after = self.add_tier_effect(tier_id, amount);
        assert forall|i: int, j: int| 0 <= i < j < after.tiers.len() implies (
        #[trigger] after.tiers[i]).tier_id != (#[trigger] after.tiers[j]).tier_id by {
            assert(after.tiers[i] == self.tiers[i]);
            if j < self.tiers.len() {
                assert(after.tiers[j] == self.tiers[j]);
            }
        }
    }

    /// Publishing keeps the campaign well formed.
    pub proof fn lemma_publish_wf(self, caller: Identity)
        requires
            self.wf(),
            self.publish_check(caller) is Ok,
        ensures
            self.publish_effect().wf(),
    {
    }

    /// An accepted contribution keeps the campaign well formed, and leaves it live or sold
    /// out.
    pub proof fn lemma_contribute_wf(
        self,
        tier_id: u64,
        amount: u64,
        contributor: Identity,
        now: int,
    )
        requires
            self.wf(),
            self.contribute_check(tier_id, amount, now) is Ok,
        ensures
            self.contribute_effect(tier_id, amount, contributor, now).wf(),
            self.funding + amount == self.hard_cap ==> self.contribute_effect(
                tier_id,
                amount,
                contributor,
                now,
            ).status == ProjectStatus::SoldOut,
            self.funding + amount < self.hard_cap ==> self.contribute_effect(
                tier_id,
                amount,
                contributor,
                now,
            ).status == ProjectStatus::Live,
    {
        let c = Contribution {
            sender_address: contributor,
            contribution_tier_id: tier_id,
            reimbursed: false,
        };
        lemma_outstanding_push(self.tiers, self.contributions, c);
    }

    /// Finalizing keeps the campaign well formed, and what it pays out is the funding.
    pub proof fn lemma_finalize_wf(self, caller: Identity, now: int)
        requires
            self.wf(),
            self.finalize_check(caller, now) is Ok,
        ensures
            self.finalize_effect(now).wf(),
            self.finalize_outcome(now) matches FinalizeOutcome::Distributed(payout)
                ==> payout.owner_share + payout.platform_share == self.funding,
    {
        lemma_owner_share_bounded(self.funding, self.owner_percent);
    }

    /// The batch refund keeps the campaign well formed.
    pub proof fn lemma_refund_wf(self, caller: Identity, recipients: Seq<Identity>, now: int)
        requires
            self.wf(),
            self.refund_check(caller, recipients, now) is Ok,
        ensures
            self.refund_effect().wf(),
    {
        let after = self.refund_effect();
        assert forall|i: int| 0 <= i < after.contributions.len() implies has_tier(
            after.tiers,
            (#[trigger] after.contributions[i]).contribution_tier_id,
        ) by {
            assert(after.contributions[i].contribution_tier_id
                == self.contributions[i].contribution_tier_id);
        }
    }

    /// A well-formed campaign holds what it owes to any one contributor.
    pub proof fn lemma_funds_cover_claims(self, who: Identity)
        requires
            self.wf(),
            self.status != ProjectStatus::Final,
        ensures
            self.owes(who) <= self.funding,
    {
        lemma_owed_within_outstanding(self.tiers, self.contributions, who);
    }

    /// A reimbursement keeps the campaign well formed.
    pub proof fn lemma_reimburse_wf(self, who: Identity, now: int)
        requires
            self.wf(),
            self.reimburse_check(who, now) is Ok,
        ensures
            self.reimburse_effect(who).wf(),
    {
        let after = self.reimburse_effect(who);
        lemma_settle_for(self.tiers, self.contributions, who);
        assert forall|i: int| 0 <= i < after.contributions.len() implies has_tier(
            after.tiers,
            (#[trigger] after.contributions[i]).contribution_tier_id,
        ) by {
            assert(after.contributions[i].contribution_tier_id
                == self.contributions[i].contribution_tier_id);
        }
    }
}

} // verus!
