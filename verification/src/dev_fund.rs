//! The dev fund: a passive reward sink that accumulates settled rewards
//! from the master aggregator and lets a designated beneficiary redeem
//! them, settling first through the self-callback pattern.

pub mod contract;
