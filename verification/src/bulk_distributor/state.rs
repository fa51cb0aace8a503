//! The bulk distributor's persisted state: its configuration and watermark,
//! and the list of active reward bulks.

use vstd::prelude::*;
use crate::types::SecretContract;

verus! {

pub struct State {
    pub admin: String,
    pub reward_token: SecretContract,
    pub spy_to_reward: SecretContract,
    pub last_awarded_block: u64,
}

/// A fixed-rate reward schedule, active until `end_block`.  The rate is
/// fixed at creation as an integer quotient; the division's residue is
/// deliberately forfeited.
#[derive(PartialEq, Eq, Structural, Clone, Copy, Debug)]
pub struct RewardBulk {
    pub end_block: u64,
    pub amount_per_block: u128,
}

/// The bulks not yet fully consumed at watermark `last_awarded_block`,
/// order kept.
pub open spec fn active_bulks(bulks: Seq<RewardBulk>, last_awarded_block: u64) -> Seq<RewardBulk>
    decreases bulks.len(),
{
    if bulks.len() == 0 {
        Seq::empty()
    } else {
        let rest = active_bulks(bulks.drop_last(), last_awarded_block);
        if bulks.last().end_block > last_awarded_block {
            rest.push(bulks.last())
        } else {
            rest
        }
    }
}

/// Prunes the bulks already fully consumed at the current watermark; the
/// pruning the next settlement performs lazily.
pub fn updated_reward_bulks(bulks: &mut Vec<RewardBulk>, state: &State)
    ensures
        final(bulks)@ == active_bulks(old(bulks)@, state.last_awarded_block),
{
    let mut kept: Vec<RewardBulk> = Vec::new();
    let n = bulks.len();
    #[verifier::loop_isolation(false)]
    for i in 0..n
        invariant
            kept@ == active_bulks(bulks@.take(i as int), state.last_awarded_block),
    {
        proof {
            assert(bulks@.take(i + 1).drop_last() =~= bulks@.take(i as int));
            assert(bulks@.take(i + 1).last() == bulks@[i as int]);
        }
        if bulks[i].end_block > state.last_awarded_block {
            kept.push(bulks[i]);
        }
    }
    proof {
        assert(bulks@.take(n as int) =~= bulks@);
    }
    *bulks = kept;
}

} // verus!
