//! A family of cooperating ledger contracts: a fungible-token ledger with
//! delegated spending, an append-only transaction history, and a reward
//! protocol that disburses time-weighted rewards across independently owned
//! contracts through an explicit outbound-message queue.
//!
//! Every contract is modelled as a state machine over plain values: a handler
//! takes the contract state, the calling environment and a decoded request,
//! mutates the state, and returns the answer together with the outbound
//! messages the host must dispatch.  Transport, persistence and address
//! canonicalisation belong to the host and stay outside this crate.

pub mod types;
pub mod kvlist;
pub mod cashback;
pub mod bulk_distributor;
pub mod dev_fund;
pub mod lp_staking;
