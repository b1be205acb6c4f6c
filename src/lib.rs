//! Escrow-style crowdfunding ledger: pledges toward a funding goal with a
//! deadline, paid out to the organizer on success or back to each
//! contributor on failure.

pub mod contract;
pub mod error;
pub mod lifecycle;
pub mod ledger;
pub mod msg;
pub mod state;
