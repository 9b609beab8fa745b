//! The life of a crowdfunding campaign, and the accounting of its funds.
//!
//! An owner creates a campaign as a draft, composes its pledge tiers and publishes it.
//! Contributors pledge the fixed price of a tier until the deadline or until the hard cap
//! is met. After the deadline the campaign is settled: a campaign that met its soft cap is
//! paid out to its owner and the platform; one that did not returns every pledge, in one
//! batch or claim by claim.
//!
//! The operations work on a [`project::ProjectState`] and decide; they move no funds. Each
//! returns what its caller has to move, and the caller commits the new state only if that
//! succeeds. What a stored campaign stands for is a [`campaign::Campaign`], over which the
//! operations are specified and the laws of [`laws`] are proved.

pub mod campaign;
pub mod errors;
pub mod identity;
pub mod journal;
pub mod laws;
pub mod machine;
pub mod project;
pub mod settlement;
pub mod state;
pub mod tiers;
