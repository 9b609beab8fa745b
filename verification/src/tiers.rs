use vstd::prelude::*;
use crate::errors::CrowdfundingError;
use crate::state::ContributionTier;
use crate::state::MAX_TIERS;

verus! {

/// Whether some tier of the catalog carries `tier_id`.
pub open spec fn has_tier(tiers: Seq<ContributionTier>, tier_id: u64) -> bool {
    exists|i: int| 0 <= i < tiers.len() && (#[trigger] tiers[i]).tier_id == tier_id
}

/// Whether position `i` holds the first tier that carries `tier_id`.
pub open spec fn is_first_match(tiers: Seq<ContributionTier>, tier_id: u64, i: int) -> bool {
    &&& 0 <= i < tiers.len()
    &&& tiers[i].tier_id == tier_id
    &&& forall|j: int| 0 <= j < i ==> (#[trigger] tiers[j]).tier_id != tier_id
}

/// The fixed price of the first tier that carries `tier_id`.
///
/// It is meaningful where `has_tier` holds.
pub open spec fn price_of(tiers: Seq<ContributionTier>, tier_id: u64) -> u64 {
    tiers[choose|i: int| is_first_match(tiers, tier_id, i)].amount
}

/// No two tiers share an id.
pub open spec fn distinct_ids(tiers: Seq<ContributionTier>) -> bool {
    forall|i: int, j: int|
        0 <= i < j < tiers.len() ==> (#[trigger] tiers[i]).tier_id != (#[trigger] tiers[j]).tier_id
}

/// A catalog holds at most `MAX_TIERS` tiers, each with an id of its own and a positive price.
pub open spec fn catalog_wf(tiers: Seq<ContributionTier>) -> bool {
    &&& tiers.len() <= MAX_TIERS
    &&& distinct_ids(tiers)
    &&& forall|i: int| 0 <= i < tiers.len() ==> (#[trigger] tiers[i]).amount > 0
}

/// What looking `tier_id` up in the catalog gives.
pub open spec fn lookup(tiers: Seq<ContributionTier>, tier_id: u64) -> Option<u64> {
    if has_tier(tiers, tier_id) {
        Some(price_of(tiers, tier_id))
    } else {
        None
    }
}

/// Whether a tier may join the catalog, and the refusal if it may not: the catalog is full,
/// the price is zero, or the id is taken, tested in this order.
pub open spec fn add_check(tiers: Seq<ContributionTier>, tier_id: u64, amount: u64) -> Result<
    (),
    CrowdfundingError,
> {
    if tiers.len() >= MAX_TIERS {
        Err(CrowdfundingError::CapacityExceeded)
    } else if amount == 0 {
        Err(CrowdfundingError::InvalidAmount)
    } else if has_tier(tiers, tier_id) {
        Err(CrowdfundingError::DuplicateTier)
    } else {
        Ok(())
    }
}

/// In a catalog, the tier at position `i` gives the price of its id.
pub proof fn lemma_price_at(tiers: Seq<ContributionTier>, i: int)
    requires
        distinct_ids(tiers),
        0 <= i < tiers.len(),
    ensures
        has_tier(tiers, tiers[i].tier_id),
        price_of(tiers, tiers[i].tier_id) == tiers[i].amount,
{
    let id = tiers[i].tier_id;
    assert(is_first_match(tiers, id, i));
    let k = choose|k: int| is_first_match(tiers, id, k);
    assert(is_first_match(tiers, id, k));
    assert(k == i);
}

/// Every tier that a well-formed catalog knows has a positive price.
pub proof fn lemma_price_positive(tiers: Seq<ContributionTier>, tier_id: u64)
    requires
        catalog_wf(tiers),
        has_tier(tiers, tier_id),
    ensures
        price_of(tiers, tier_id) > 0,
{
    let i = choose|i: int| 0 <= i < tiers.len() && (#[trigger] tiers[i]).tier_id == tier_id;
    lemma_price_at(tiers, i);
}

/// Looks a tier up by its id and returns its price.
pub fn find_tier(tiers: &Vec<ContributionTier>, tier_id: u64) -> (found: Option<u64>)
    ensures
        found == lookup(tiers@, tier_id),
{
    let mut i: usize = 0;
    while i < tiers.len()
        invariant
            i <= tiers.len(),
            forall|j: int| 0 <= j < i ==> (#[trigger] tiers@[j]).tier_id != tier_id,
        decreases tiers.len() - i,
    {
        if tiers[i].tier_id == tier_id {
            proof {
                assert(is_first_match(tiers@, tier_id, i as int));
                let k = choose|k: int| is_first_match(tiers@, tier_id, k);
                assert(is_first_match(tiers@, tier_id, k));
                assert(k == i);
            }
            return Some(tiers[i].amount);
        }
        i += 1;
    }
    None
}

/// Appends a tier to the catalog.
///
/// The catalog takes at most `MAX_TIERS` tiers, no tier without a price, and no id twice.
pub fn add_tier(tiers: &mut Vec<ContributionTier>, tier_id: u64, amount: u64) -> (res: Result<
    (),
    CrowdfundingError,
>)
    ensures
        res == add_check(old(tiers)@, tier_id, amount),
        res is Ok ==> final(tiers)@ == old(tiers)@.push((ContributionTier { tier_id, amount })),
        res is Err ==> *final(tiers) == *old(tiers),
        catalog_wf(old(tiers)@) ==> catalog_wf(final(tiers)@),
{
    if tiers.len() >= MAX_TIERS {
        return Err(CrowdfundingError::CapacityExceeded);
    }
    if amount == 0 {
        return Err(CrowdfundingError::InvalidAmount);
    }
    if find_tier(tiers, tier_id).is_some() {
        return Err(CrowdfundingError::DuplicateTier);
    }
    tiers.push(ContributionTier { tier_id, amount });
    Ok(())
}

/// Whether the tiers make a well-formed catalog.
pub fn check_catalog(tiers: &Vec<ContributionTier>) -> (ok: bool)
    ensures
        ok == catalog_wf(tiers@),
{
    if tiers.len() > MAX_TIERS {
        return false;
    }
    let mut i: usize = 0;
    while i < tiers.len()
        invariant
            i <= tiers.len(),
            forall|k: int| 0 <= k < i ==> (#[trigger] tiers@[k]).amount > 0,
            forall|k: int, l: int|
                0 <= k < l < i ==> (#[trigger] tiers@[k]).tier_id != (#[trigger] tiers@[l]).tier_id,
        decreases tiers.len() - i,
    {
        if tiers[i].amount == 0 {
            return false;
        }
        let mut j: usize = 0;
        while j < i
            invariant
                j <= i,
                i < tiers.len(),
                forall|k: int| 0 <= k < j ==> (#[trigger] tiers@[k]).tier_id != tiers@[i as int].tier_id,
            decreases i - j,
        {
            if tiers[j].tier_id == tiers[i].tier_id {
                return false;
            }
            j += 1;
        }
        i += 1;
    }
    true
}

} // verus!
