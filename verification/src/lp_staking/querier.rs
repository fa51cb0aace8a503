//! Aggregation of pending rewards across the registered reward sources.
//!
//! The host performs one Pending query per registered source and hands the
//! decoded answers in, in registry order; summing them, and rejecting any
//! answer that is not of the expected shape, is this module's logic.

use vstd::prelude::*;
use crate::types::Error;
use crate::lp_staking::state::Config;

verus! {

/// What one upstream source answered: the expected Pending shape, or
/// anything else.
#[derive(PartialEq, Eq, Structural, Clone, Copy, Debug)]
pub enum MasterQueryAnswer {
    Pending { amount: u128 },
    Unexpected,
}

/// The sum of the amounts of the well-shaped answers.
pub open spec fn pending_sum(rs: Seq<MasterQueryAnswer>) -> int
    decreases rs.len(),
{
    if rs.len() == 0 {
        0
    } else {
        pending_sum(rs.drop_last()) + (match rs.last() {
            MasterQueryAnswer::Pending { amount } => amount as int,
            MasterQueryAnswer::Unexpected => 0,
        })
    }
}

pub proof fn lemma_pending_sum_nonneg(rs: Seq<MasterQueryAnswer>)
    ensures
        pending_sum(rs) >= 0,
    decreases rs.len(),
{
    if rs.len() > 0 {
        lemma_pending_sum_nonneg(rs.drop_last());
    }
}

/// A prefix sums to no more than the whole.
pub proof fn lemma_pending_sum_prefix(rs: Seq<MasterQueryAnswer>, i: int)
    requires
        0 <= i <= rs.len(),
    ensures
        pending_sum(rs.take(i)) <= pending_sum(rs),
    decreases rs.len(),
{
    if i < rs.len() {
        assert(rs.take(i) =~= rs.drop_last().take(i));
        lemma_pending_sum_prefix(rs.drop_last(), i);
    } else {
        assert(rs.take(i) =~= rs);
    }
}

/// Sums the pending rewards the registered sources answered with.  Any
/// answer not of the expected shape marks a misconfigured reward source,
/// not a transient fault: the whole query fails, with no partial result.
pub fn query_pending(config: &Config, responses: &Vec<MasterQueryAnswer>) -> (r: Result<
    u128,
    Error,
>)
    requires
        responses@.len() == config.reward_sources@.len(),
        pending_sum(responses@) <= u128::MAX,
    ensures
        (forall|i: int| 0 <= i < responses@.len() ==> responses@[i] is Pending) ==> r == Ok::<
            u128,
            Error,
        >(pending_sum(responses@) as u128),
        (exists|i: int| 0 <= i < responses@.len() && responses@[i] is Unexpected) ==> r == Err::<
            u128,
            Error,
        >(Error::UpstreamContractError),
        r is Ok <==> (forall|i: int| 0 <= i < responses@.len() ==> responses@[i] is Pending),
{
    let mut total_amount: u128 = 0;
    let n = responses.len();
    #[verifier::loop_isolation(false)]
    for i in 0..n
        invariant
            total_amount as int == pending_sum(responses@.take(i as int)),
            forall|j: int| 0 <= j < i ==> responses@[j] is Pending,
    {
        proof {
            assert(responses@.take(i + 1).drop_last() =~= responses@.take(i as int));
            assert(responses@.take(i + 1).last() == responses@[i as int]);
            lemma_pending_sum_prefix(responses@, i + 1);
            lemma_pending_sum_nonneg(responses@.take(i as int));
        }
        match responses[i] {
            MasterQueryAnswer::Pending { amount } => {
                total_amount = total_amount + amount;
            },
            MasterQueryAnswer::Unexpected => {
                return Err(Error::UpstreamContractError);
            },
        }
    }
    proof {
        assert(responses@.take(n as int) =~= responses@);
    }
    Ok(total_amount)
}

} // verus!
