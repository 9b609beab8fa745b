use vstd::prelude::*;
use crate::identity::Identity;
use crate::state::Contribution;
use crate::state::ContributionTier;
use crate::state::Disbursement;
use crate::tiers::catalog_wf;
use crate::tiers::find_tier;
use crate::tiers::has_tier;
use crate::tiers::lemma_price_positive;
use crate::tiers::price_of;

verus! {

/// What the campaign still holds for one contribution: its tier's price until it is
/// reimbursed, nothing afterwards.
pub open spec fn due(tiers: Seq<ContributionTier>, c: Contribution) -> nat {
    if c.reimbursed {
        0
    } else {
        price_of(tiers, c.contribution_tier_id) as nat
    }
}

/// The sum of what is due for every contribution of the journal.
pub open spec fn outstanding(tiers: Seq<ContributionTier>, journal: Seq<Contribution>) -> nat
    decreases journal.len(),
{
    if journal.len() == 0 {
        0
    } else {
        outstanding(tiers, journal.drop_last()) + due(tiers, journal.last())
    }
}

/// What is due for `c` if `who` made it, and nothing otherwise.
pub open spec fn claim(tiers: Seq<ContributionTier>, c: Contribution, who: Identity) -> nat {
    if c.sender_address == who {
        due(tiers, c)
    } else {
        0
    }
}

/// The sum of what is due to `who` over the journal.
pub open spec fn owed_to(
    tiers: Seq<ContributionTier>,
    journal: Seq<Contribution>,
    who: Identity,
) -> nat
    decreases journal.len(),
{
    if journal.len() == 0 {
        0
    } else {
        owed_to(tiers, journal.drop_last(), who) + claim(tiers, journal.last(), who)
    }
}

/// Whether `who` made a contribution that has not been reimbursed.
pub open spec fn has_claim(journal: Seq<Contribution>, who: Identity) -> bool {
    exists|i: int|
        0 <= i < journal.len() && (#[trigger] journal[i]).sender_address == who
            && !journal[i].reimbursed
}

/// Every contribution names a tier of the catalog.
pub open spec fn known_tiers(tiers: Seq<ContributionTier>, journal: Seq<Contribution>) -> bool {
    forall|i: int|
        0 <= i < journal.len() ==> has_tier(tiers, (#[trigger] journal[i]).contribution_tier_id)
}

/// No contribution has been reimbursed.
pub open spec fn none_reimbursed(journal: Seq<Contribution>) -> bool {
    forall|i: int| 0 <= i < journal.len() ==> !(#[trigger] journal[i]).reimbursed
}

/// The contribution with its flag set.
pub open spec fn settled(c: Contribution) -> Contribution {
    Contribution { reimbursed: true, ..c }
}

/// The journal after every contribution has been reimbursed.
pub open spec fn all_settled(journal: Seq<Contribution>) -> Seq<Contribution> {
    Seq::new(journal.len(), |i: int| settled(journal[i]))
}

/// The journal after the contributions of `who` have been reimbursed.
pub open spec fn settled_for(journal: Seq<Contribution>, who: Identity) -> Seq<Contribution> {
    Seq::new(
        journal.len(),
        |i: int|
            if journal[i].sender_address == who {
                settled(journal[i])
            } else {
                journal[i]
            },
    )
}

/// One order per contribution that is not reimbursed, in the journal's order: the tier's
/// price goes back to the contributor.
pub open spec fn refund_orders(
    tiers: Seq<ContributionTier>,
    journal: Seq<Contribution>,
) -> Seq<Disbursement>
    decreases journal.len(),
{
    if journal.len() == 0 {
        Seq::empty()
    } else {
        let rest = refund_orders(tiers, journal.drop_last());
        let c = journal.last();
        if c.reimbursed {
            rest
        } else {
            rest.push(
                Disbursement {
                    recipient: c.sender_address,
                    amount: price_of(tiers, c.contribution_tier_id),
                },
            )
        }
    }
}

/// The sum of the orders' amounts.
pub open spec fn total(orders: Seq<Disbursement>) -> nat
    decreases orders.len(),
{
    if orders.len() == 0 {
        0
    } else {
        total(orders.drop_last()) + orders.last().amount as nat
    }
}

/// Every contributor who is still owed something is among `recipients`.
pub open spec fn all_resolvable(journal: Seq<Contribution>, recipients: Seq<Identity>) -> bool {
    forall|i: int|
        0 <= i < journal.len() && !(#[trigger] journal[i]).reimbursed ==> recipients.contains(
            journal[i].sender_address,
        )
}

/// Recording a contribution adds what is due for it.
pub proof fn lemma_outstanding_push(
    tiers: Seq<ContributionTier>,
    journal: Seq<Contribution>,
    c: Contribution,
)
    ensures
        outstanding(tiers, journal.push(c)) == outstanding(tiers, journal) + due(tiers, c),
{
    assert(journal.push(c).drop_last() =~= journal);
}

/// What is outstanding over the first `n` contributions is outstanding over all of them.
pub proof fn lemma_outstanding_prefix(
    tiers: Seq<ContributionTier>,
    journal: Seq<Contribution>,
    n: int,
)
    requires
        0 <= n <= journal.len(),
    ensures
        outstanding(tiers, journal.take(n)) <= outstanding(tiers, journal),
    decreases journal.len(),
{
    if n == journal.len() {
        assert(journal.take(n) =~= journal);
    } else {
        assert(journal.drop_last().take(n) =~= journal.take(n));
        lemma_outstanding_prefix(tiers, journal.drop_last(), n);
    }
}

/// Nobody is owed more than the campaign holds for everybody.
pub proof fn lemma_owed_within_outstanding(
    tiers: Seq<ContributionTier>,
    journal: Seq<Contribution>,
    who: Identity,
)
    ensures
        owed_to(tiers, journal, who) <= outstanding(tiers, journal),
    decreases journal.len(),
{
    if journal.len() > 0 {
        lemma_owed_within_outstanding(tiers, journal.drop_last(), who);
    }
}

/// Once every contribution is reimbursed, nothing is outstanding and nobody has a claim.
pub proof fn lemma_settle_all(tiers: Seq<ContributionTier>, journal: Seq<Contribution>)
    ensures
        outstanding(tiers, all_settled(journal)) == 0,
        forall|who: Identity| !has_claim(all_settled(journal), who),
    decreases journal.len(),
{
    if journal.len() > 0 {
        assert(all_settled(journal).drop_last() =~= all_settled(journal.drop_last()));
        lemma_settle_all(tiers, journal.drop_last());
    }
}

/// Reimbursing `who` takes exactly what was owed to `who` out of the outstanding sum, and
/// leaves `who` without a claim.
pub proof fn lemma_settle_for(
    tiers: Seq<ContributionTier>,
    journal: Seq<Contribution>,
    who: Identity,
)
    ensures
        outstanding(tiers, settled_for(journal, who)) + owed_to(tiers, journal, who) == outstanding(
            tiers,
            journal,
        ),
        owed_to(tiers, settled_for(journal, who), who) == 0,
        !has_claim(settled_for(journal, who), who),
    decreases journal.len(),
{
    if journal.len() > 0 {
        assert(settled_for(journal, who).drop_last() =~= settled_for(journal.drop_last(), who));
        lemma_settle_for(tiers, journal.drop_last(), who);
    }
}

/// Reimbursing `who` leaves what is owed to anybody else as it was.
pub proof fn lemma_settle_for_others(
    tiers: Seq<ContributionTier>,
    journal: Seq<Contribution>,
    who: Identity,
    other: Identity,
)
    requires
        other != who,
    ensures
        owed_to(tiers, settled_for(journal, who), other) == owed_to(tiers, journal, other),
        has_claim(settled_for(journal, who), other) == has_claim(journal, other),
    decreases journal.len(),
{
    if journal.len() > 0 {
        assert(settled_for(journal, who).drop_last() =~= settled_for(journal.drop_last(), who));
        lemma_settle_for_others(tiers, journal.drop_last(), who, other);
    }
    if has_claim(journal, other) {
        let i = choose|i: int|
            0 <= i < journal.len() && (#[trigger] journal[i]).sender_address == other
                && !journal[i].reimbursed;
        assert(settled_for(journal, who)[i] == journal[i]);
    }
    if has_claim(settled_for(journal, who), other) {
        let s = settled_for(journal, who);
        let i = choose|i: int|
            0 <= i < s.len() && (#[trigger] s[i]).sender_address == other && !s[i].reimbursed;
        assert(journal[i] == s[i]);
    }
}

/// The refund orders add up to what is outstanding.
pub proof fn lemma_refund_total(tiers: Seq<ContributionTier>, journal: Seq<Contribution>)
    ensures
        total(refund_orders(tiers, journal)) == outstanding(tiers, journal),
    decreases journal.len(),
{
    if journal.len() > 0 {
        lemma_refund_total(tiers, journal.drop_last());
        let rest = refund_orders(tiers, journal.drop_last());
        let c = journal.last();
        if !c.reimbursed {
            let order = Disbursement {
                recipient: c.sender_address,
                amount: price_of(tiers, c.contribution_tier_id),
            };
            assert(rest.push(order).drop_last() =~= rest);
        }
    }
}

/// With a well-formed catalog, nothing is outstanding exactly when every contribution is
/// reimbursed.
pub proof fn lemma_outstanding_zero(tiers: Seq<ContributionTier>, journal: Seq<Contribution>)
    requires
        catalog_wf(tiers),
        known_tiers(tiers, journal),
    ensures
        outstanding(tiers, journal) == 0 <==> forall|i: int|
            0 <= i < journal.len() ==> (#[trigger] journal[i]).reimbursed,
    decreases journal.len(),
{
    if journal.len() > 0 {
        let rest = journal.drop_last();
        let last = journal.last();
        assert forall|i: int| 0 <= i < rest.len() implies has_tier(
            tiers,
            (#[trigger] rest[i]).contribution_tier_id,
        ) by {
            assert(rest[i] == journal[i]);
        }
        lemma_outstanding_zero(tiers, rest);
        assert(has_tier(tiers, journal[journal.len() - 1].contribution_tier_id));
        lemma_price_positive(tiers, last.contribution_tier_id);
        if outstanding(tiers, journal) == 0 {
            assert forall|i: int| 0 <= i < journal.len() implies (#[trigger] journal[i]).reimbursed by {
                if i < rest.len() {
                    assert(rest[i] == journal[i]);
                }
            }
        }
        if forall|i: int| 0 <= i < journal.len() ==> (#[trigger] journal[i]).reimbursed {
            assert forall|i: int| 0 <= i < rest.len() implies (#[trigger] rest[i]).reimbursed by {
                assert(rest[i] == journal[i]);
            }
            assert(journal[journal.len() - 1].reimbursed);
        }
    }
}

/// With a well-formed catalog, whoever has a claim is owed a positive sum.
pub proof fn lemma_claim_is_positive(
    tiers: Seq<ContributionTier>,
    journal: Seq<Contribution>,
    who: Identity,
)
    requires
        catalog_wf(tiers),
        known_tiers(tiers, journal),
        has_claim(journal, who),
    ensures
        owed_to(tiers, journal, who) > 0,
    decreases journal.len(),
{
    let i = choose|i: int|
        0 <= i < journal.len() && (#[trigger] journal[i]).sender_address == who
            && !journal[i].reimbursed;
    let rest = journal.drop_last();
    if i == journal.len() - 1 {
        assert(has_tier(tiers, journal[i].contribution_tier_id));
        lemma_price_positive(tiers, journal[i].contribution_tier_id);
    } else {
        assert(rest[i] == journal[i]);
        assert forall|k: int| 0 <= k < rest.len() implies has_tier(
            tiers,
            (#[trigger] rest[k]).contribution_tier_id,
        ) by {
            assert(rest[k] == journal[k]);
        }
        lemma_claim_is_positive(tiers, rest, who);
    }
}

/// Whether `who` has a claim on a journal grows with the journal, one contribution at a time.
pub proof fn lemma_has_claim_push(journal: Seq<Contribution>, c: Contribution, who: Identity)
    ensures
        has_claim(journal.push(c), who) <==> has_claim(journal, who) || (c.sender_address == who
            && !c.reimbursed),
{
    let longer = journal.push(c);
    if has_claim(journal, who) {
        let i = choose|i: int|
            0 <= i < journal.len() && (#[trigger] journal[i]).sender_address == who
                && !journal[i].reimbursed;
        assert(longer[i] == journal[i]);
    }
    if c.sender_address == who && !c.reimbursed {
        assert(longer[journal.len() as int] == c);
    }
    if has_claim(longer, who) {
        let i = choose|i: int|
            0 <= i < longer.len() && (#[trigger] longer[i]).sender_address == who
                && !longer[i].reimbursed;
        if i < journal.len() {
            assert(journal[i] == longer[i]);
        }
    }
}

/// What the journal owes `who`, or `None` where `who` has no contribution left to reimburse.
pub fn owed_to_contributor(
    tiers: &Vec<ContributionTier>,
    journal: &Vec<Contribution>,
    who: &Identity,
) -> (owed: Option<u64>)
    requires
        known_tiers(tiers@, journal@),
        outstanding(tiers@, journal@) <= u64::MAX,
    ensures
        owed is Some <==> has_claim(journal@, *who),
        owed matches Some(sum) ==> sum == owed_to(tiers@, journal@, *who),
{
    let mut sum: u64 = 0;
    let mut found = false;
    let mut i: usize = 0;
    while i < journal.len()
        invariant
            i <= journal.len(),
            known_tiers(tiers@, journal@),
            outstanding(tiers@, journal@) <= u64::MAX,
            sum == owed_to(tiers@, journal@.take(i as int), *who),
            found == has_claim(journal@.take(i as int), *who),
        decreases journal.len() - i,
    {
        let c = journal[i];
        proof {
            let next = journal@.take(i + 1);
            assert(next =~= journal@.take(i as int).push(c));
            assert(next.drop_last() =~= journal@.take(i as int));
            lemma_has_claim_push(journal@.take(i as int), c, *who);
            lemma_owed_within_outstanding(tiers@, next, *who);
            lemma_outstanding_prefix(tiers@, journal@, i + 1);
        }
        if !c.reimbursed && c.sender_address.same(who) {
            let price: u64 = find_tier(tiers, c.contribution_tier_id).unwrap();
            sum = sum + price;
            found = true;
        }
        i += 1;
    }
    assert(journal@.take(i as int) =~= journal@);
    if found {
        Some(sum)
    } else {
        None
    }
}

/// Marks every contribution of `who` as reimbursed.
pub fn settle_for(journal: &mut Vec<Contribution>, who: &Identity)
    ensures
        final(journal)@ == settled_for(old(journal)@, *who),
{
    let mut i: usize = 0;
    while i < journal.len()
        invariant
            i <= journal.len(),
            journal@.len() == old(journal)@.len(),
            forall|j: int| 0 <= j < i ==> journal@[j] == settled_for(old(journal)@, *who)[j],
            forall|j: int| i <= j < journal@.len() ==> journal@[j] == old(journal)@[j],
        decreases journal.len() - i,
    {
        let c = journal[i];
        if c.sender_address.same(who) {
            journal.set(
                i,
                Contribution {
                    sender_address: c.sender_address,
                    contribution_tier_id: c.contribution_tier_id,
                    reimbursed: true,
                },
            );
        }
        i += 1;
    }
    assert(journal@ =~= settled_for(old(journal)@, *who));
}

/// Marks every contribution as reimbursed.
pub fn settle_all(journal: &mut Vec<Contribution>)
    ensures
        final(journal)@ == all_settled(old(journal)@),
{
    let mut i: usize = 0;
    while i < journal.len()
        invariant
            i <= journal.len(),
            journal@.len() == old(journal)@.len(),
            forall|j: int| 0 <= j < i ==> journal@[j] == settled(old(journal)@[j]),
            forall|j: int| i <= j < journal@.len() ==> journal@[j] == old(journal)@[j],
        decreases journal.len() - i,
    {
        let c = journal[i];
        journal.set(
            i,
            Contribution {
                sender_address: c.sender_address,
                contribution_tier_id: c.contribution_tier_id,
                reimbursed: true,
            },
        );
        i += 1;
    }
    assert(journal@ =~= all_settled(old(journal)@));
}

/// Lists what goes back to whom for the contributions that are not reimbursed.
pub fn collect_refunds(tiers: &Vec<ContributionTier>, journal: &Vec<Contribution>) -> (orders:
    Vec<Disbursement>)
    requires
        known_tiers(tiers@, journal@),
    ensures
        orders@ == refund_orders(tiers@, journal@),
{
    let mut orders: Vec<Disbursement> = Vec::new();
    let mut i: usize = 0;
    while i < journal.len()
        invariant
            i <= journal.len(),
            known_tiers(tiers@, journal@),
            orders@ == refund_orders(tiers@, journal@.take(i as int)),
        decreases journal.len() - i,
    {
        let c = journal[i];
        proof {
            assert(journal@.take(i + 1).drop_last() =~= journal@.take(i as int));
        }
        if !c.reimbursed {
            let price: u64 = find_tier(tiers, c.contribution_tier_id).unwrap();
            orders.push(Disbursement { recipient: c.sender_address, amount: price });
        }
        i += 1;
    }
    assert(journal@.take(i as int) =~= journal@);
    orders
}

/// Whether `who` is among `parties`.
pub fn is_among(parties: &Vec<Identity>, who: &Identity) -> (found: bool)
    ensures
        found == parties@.contains(*who),
{
    let mut i: usize = 0;
    while i < parties.len()
        invariant
            i <= parties.len(),
            forall|j: int| 0 <= j < i ==> parties@[j] != *who,
        decreases parties.len() - i,
    {
        if parties[i].same(who) {
            return true;
        }
        i += 1;
    }
    false
}

/// Whether every contributor who is still owed something is among `recipients`.
pub fn resolvable(journal: &Vec<Contribution>, recipients: &Vec<Identity>) -> (ok: bool)
    ensures
        ok == all_resolvable(journal@, recipients@),
{
    let mut i: usize = 0;
    while i < journal.len()
        invariant
            i <= journal.len(),
            forall|j: int|
                0 <= j < i && !(#[trigger] journal@[j]).reimbursed ==> recipients@.contains(
                    journal@[j].sender_address,
                ),
        decreases journal.len() - i,
    {
        let c = journal[i];
        if !c.reimbursed && !is_among(recipients, &c.sender_address) {
            return false;
        }
        i += 1;
    }
    true
}

/// Whether every contribution names a tier of the catalog.
pub fn check_known_tiers(tiers: &Vec<ContributionTier>, journal: &Vec<Contribution>) -> (ok: bool)
    ensures
        ok == known_tiers(tiers@, journal@),
{
    let mut i: usize = 0;
    while i < journal.len()
        invariant
            i <= journal.len(),
            forall|j: int|
                0 <= j < i ==> has_tier(tiers@, (#[trigger] journal@[j]).contribution_tier_id),
        decreases journal.len() - i,
    {
        if find_tier(tiers, journal[i].contribution_tier_id).is_none() {
            return false;
        }
        i += 1;
    }
    true
}

/// Whether no contribution has been reimbursed.
pub fn check_none_reimbursed(journal: &Vec<Contribution>) -> (ok: bool)
    ensures
        ok == none_reimbursed(journal@),
{
    let mut i: usize = 0;
    while i < journal.len()
        invariant
            i <= journal.len(),
            forall|j: int| 0 <= j < i ==> !(#[trigger] journal@[j]).reimbursed,
        decreases journal.len() - i,
    {
        if journal[i].reimbursed {
            return false;
        }
        i += 1;
    }
    true
}

/// The sum of what is due over the journal, or `None` where it exceeds `limit`.
pub fn sum_outstanding(
    tiers: &Vec<ContributionTier>,
    journal: &Vec<Contribution>,
    limit: u64,
) -> (sum: Option<u64>)
    requires
        known_tiers(tiers@, journal@),
    ensures
        sum is Some <==> outstanding(tiers@, journal@) <= limit,
        sum matches Some(s) ==> s == outstanding(tiers@, journal@),
{
    let mut acc: u64 = 0;
    let mut i: usize = 0;
    while i < journal.len()
        invariant
            i <= journal.len(),
            known_tiers(tiers@, journal@),
            acc <= limit,
            acc == outstanding(tiers@, journal@.take(i as int)),
        decreases journal.len() - i,
    {
        let c = journal[i];
        proof {
            assert(journal@.take(i + 1).drop_last() =~= journal@.take(i as int));
            lemma_outstanding_prefix(tiers@, journal@, i + 1);
        }
        if !c.reimbursed {
            let price: u64 = find_tier(tiers, c.contribution_tier_id).unwrap();
            if price > limit - acc {
                return None;
            }
            acc = acc + price;
        }
        i += 1;
    }
    assert(journal@.take(i as int) =~= journal@);
    Some(acc)
}

} // verus!
