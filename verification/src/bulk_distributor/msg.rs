//! The bulk distributor's request and answer shapes.

use vstd::prelude::*;
use crate::types::{ResponseStatus, SecretContract};

verus! {

pub struct InitMsg {
    pub reward_token: SecretContract,
    pub spy_to_reward: SecretContract,
}

pub enum HandleMsg {
    UpdateAllocation { spy_addr: String, spy_hash: String, hook: Option<Vec<u8>> },
    Receive { sender: String, from: String, amount: u128, msg: ReceiveMsg },
    ChangeAdmin { address: String },
}

pub enum HandleAnswer {
    UpdateAllocation { status: ResponseStatus },
    ChangeAdmin { status: ResponseStatus },
}

/// What a token Receive callback can carry here.
pub enum ReceiveMsg {
    NewBulkReward { distribute_over: u64 },
}

pub enum QueryMsg {
    Admin {},
    RewardToken {},
    Spy {},
    Pending { block: u64 },
}

pub enum QueryAnswer {
    Admin { address: String },
    RewardToken { contract: SecretContract },
    Spy { contract: SecretContract },
    Pending { amount: u128 },
}

} // verus!
