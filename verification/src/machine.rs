use vstd::prelude::*;
use crate::state::ProjectStatus;

verus! {

/// The status that follows `status` once the funding and the clock are taken into account.
///
/// Only a live campaign moves: it is sold out as soon as the funding meets the hard cap;
/// otherwise it stays live until the deadline, and at the deadline it is successful if the
/// funding meets the soft cap and failed if it does not.
pub open spec fn spec_next_status(
    status: ProjectStatus,
    funding: nat,
    soft_cap: nat,
    hard_cap: nat,
    now: int,
    deadline: int,
) -> ProjectStatus {
    if status != ProjectStatus::Live {
        status
    } else if funding >= hard_cap {
        ProjectStatus::SoldOut
    } else if now < deadline {
        ProjectStatus::Live
    } else if funding >= soft_cap {
        ProjectStatus::Successful
    } else {
        ProjectStatus::Failed
    }
}

/// Evaluates the transition rule of a campaign.
pub fn next_status(
    status: ProjectStatus,
    funding: u64,
    soft_cap: u64,
    hard_cap: u64,
    now: i64,
    deadline: i64,
) -> (next: ProjectStatus)
    ensures
        next == spec_next_status(
            status,
            funding as nat,
            soft_cap as nat,
            hard_cap as nat,
            now as int,
            deadline as int,
        ),
{
    if status != ProjectStatus::Live {
        status
    } else if funding >= hard_cap {
        ProjectStatus::SoldOut
    } else if now < deadline {
        ProjectStatus::Live
    } else if funding >= soft_cap {
        ProjectStatus::Successful
    } else {
        ProjectStatus::Failed
    }
}

} // verus!
