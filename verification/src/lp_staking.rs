//! The staking contract's reward aggregation: its configuration and the
//! fan-out query that sums pending rewards across the registered sources.

pub mod state;
pub mod querier;
