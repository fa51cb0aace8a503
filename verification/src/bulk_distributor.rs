//! The bulk distributor: an admin-fed schedule of fixed-rate, time-bounded
//! reward bulks, settled lazily and forwarded to a single staking contract.

pub mod msg;
pub mod state;
pub mod contract;
