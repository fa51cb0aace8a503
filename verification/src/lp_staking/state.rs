//! The staking contract's configuration, including the registry of
//! upstream reward sources consulted when aggregating pending rewards.

use vstd::prelude::*;
use crate::types::SecretContract;

verus! {

pub struct Config {
    pub admin: String,
    pub reward_token: SecretContract,
    pub inc_token: SecretContract,
    pub reward_sources: Vec<SecretContract>,
    pub viewing_key: String,
    pub prng_seed: Vec<u8>,
    pub is_stopped: bool,
    pub own_addr: String,
}

} // verus!
