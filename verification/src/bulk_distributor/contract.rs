//! The bulk distributor's handlers: settlement of the active bulks up to
//! the current block, admin-gated creation of new bulks, and the pending
//! computation the queries expose.

use vstd::prelude::*;
use crate::types::{Env, Error, OutMsg, Response, ResponseStatus, SecretContract};
use crate::bulk_distributor::msg::{HandleAnswer, HandleMsg, InitMsg, QueryAnswer, QueryMsg, ReceiveMsg};
use crate::bulk_distributor::state::{active_bulks, updated_reward_bulks, RewardBulk, State};

verus! {

/// One bulk's contribution to the window `(last_awarded_block,
/// current_block]`: its full elapsed span while it still runs, only the
/// span up to its end when it finished mid-window, and nothing when it was
/// already consumed before the window started.
pub open spec fn bulk_pending(b: RewardBulk, last_awarded_block: u64, current_block: u64) -> int {
    if current_block < b.end_block {
        (current_block - last_awarded_block) * b.amount_per_block
    } else if last_awarded_block < b.end_block {
        (b.end_block - last_awarded_block) * b.amount_per_block
    } else {
        0
    }
}

/// The total pending reward of a window: simultaneously active bulks are
/// additive and independent.
pub open spec fn pending_rewards(
    bulks: Seq<RewardBulk>,
    last_awarded_block: u64,
    current_block: u64,
) -> int
    decreases bulks.len(),
{
    if bulks.len() == 0 {
        0
    } else {
        pending_rewards(bulks.drop_last(), last_awarded_block, current_block) + bulk_pending(
            bulks.last(),
            last_awarded_block,
            current_block,
        )
    }
}

pub proof fn lemma_pending_nonneg(bulks: Seq<RewardBulk>, law: u64, cur: u64)
    requires
        law <= cur,
    ensures
        pending_rewards(bulks, law, cur) >= 0,
    decreases bulks.len(),
{
    if bulks.len() > 0 {
        lemma_pending_nonneg(bulks.drop_last(), law, cur);
        assert(bulk_pending(bulks.last(), law, cur) >= 0) by (nonlinear_arith)
            requires
                law <= cur,
        ;
    }
}

/// A prefix of the bulk list owes no more than the whole list.
pub proof fn lemma_pending_prefix(bulks: Seq<RewardBulk>, law: u64, cur: u64, i: int)
    requires
        law <= cur,
        0 <= i <= bulks.len(),
    ensures
        pending_rewards(bulks.take(i), law, cur) <= pending_rewards(bulks, law, cur),
    decreases bulks.len(),
{
    if i < bulks.len() {
        assert(bulks.take(i) =~= bulks.drop_last().take(i));
        lemma_pending_prefix(bulks.drop_last(), law, cur, i);
        assert(bulk_pending(bulks.last(), law, cur) >= 0) by (nonlinear_arith)
            requires
                law <= cur,
        ;
    } else {
        assert(bulks.take(i) =~= bulks);
    }
}

/// Bulks are additive: the pending reward of two bulk lists taken together
/// is the sum of their pending rewards.
pub proof fn lemma_pending_additive(b1: Seq<RewardBulk>, b2: Seq<RewardBulk>, law: u64, cur: u64)
    ensures
        pending_rewards(b1 + b2, law, cur) == pending_rewards(b1, law, cur) + pending_rewards(
            b2,
            law,
            cur,
        ),
    decreases b2.len(),
{
    if b2.len() == 0 {
        assert(b1 + b2 =~= b1);
    } else {
        assert((b1 + b2).drop_last() =~= b1 + b2.drop_last());
        assert((b1 + b2).last() == b2.last());
        lemma_pending_additive(b1, b2.drop_last(), law, cur);
    }
}

/// Once every bulk has ended at or before the watermark, nothing is
/// pending, whatever the current block.
pub proof fn lemma_expired_bulks_pending_zero(bulks: Seq<RewardBulk>, law: u64, cur: u64)
    requires
        forall|i: int| 0 <= i < bulks.len() ==> bulks[i].end_block <= law,
        law <= cur,
    ensures
        pending_rewards(bulks, law, cur) == 0,
    decreases bulks.len(),
{
    if bulks.len() > 0 {
        lemma_expired_bulks_pending_zero(bulks.drop_last(), law, cur);
    }
}

/// Pruning loses nothing: the active bulks owe exactly what the whole list
/// owes, for any window starting at the pruning watermark.
pub proof fn lemma_pruning_preserves_pending(bulks: Seq<RewardBulk>, law: u64, cur: u64)
    requires
        law <= cur,
    ensures
        pending_rewards(active_bulks(bulks, law), law, cur) == pending_rewards(bulks, law, cur),
    decreases bulks.len(),
{
    if bulks.len() > 0 {
        lemma_pruning_preserves_pending(bulks.drop_last(), law, cur);
        if bulks.last().end_block > law {
            assert(active_bulks(bulks, law).drop_last() =~= active_bulks(bulks.drop_last(), law));
        }
    }
}

/// The total pending reward for the window `(last_awarded_block,
/// current_block]` across all bulks, in exact integer arithmetic.
pub fn get_spy_rewards(
    bulks: Vec<RewardBulk>,
    last_awarded_block: u64,
    current_block: u64,
) -> (r: u128)
    requires
        last_awarded_block <= current_block,
        pending_rewards(bulks@, last_awarded_block, current_block) <= u128::MAX,
    ensures
        r as int == pending_rewards(bulks@, last_awarded_block, current_block),
{
    let mut amount: u128 = 0;
    let n = bulks.len();
    #[verifier::loop_isolation(false)]
    for i in 0..n
        invariant
            amount as int == pending_rewards(
                bulks@.take(i as int),
                last_awarded_block,
                current_block,
            ),
    {
        proof {
            assert(bulks@.take(i + 1).drop_last() =~= bulks@.take(i as int));
            assert(bulks@.take(i + 1).last() == bulks@[i as int]);
            lemma_pending_prefix(bulks@, last_awarded_block, current_block, i + 1);
            lemma_pending_nonneg(bulks@.take(i as int), last_awarded_block, current_block);
        }
        let bulk = bulks[i];
        if current_block < bulk.end_block {
            amount = amount + (current_block - last_awarded_block) as u128 * bulk.amount_per_block;
        } else if last_awarded_block < bulk.end_block {
            amount = amount + (bulk.end_block - last_awarded_block) as u128 * bulk.amount_per_block;
        }
    }
    proof {
        assert(bulks@.take(n as int) =~= bulks@);
    }
    amount
}

/// Whether a settlement at `height` advances the watermark.
pub open spec fn settles(state: State, height: u64) -> bool {
    state.last_awarded_block < height
}

/// What a settlement at `height` pays out: the pending reward of the
/// pruned list over the window from the old watermark.
pub open spec fn settled_rewards(state: State, bulks: Seq<RewardBulk>, height: u64) -> int {
    if settles(state, height) {
        pending_rewards(active_bulks(bulks, state.last_awarded_block), state.last_awarded_block, height)
    } else {
        0
    }
}

/// Settles the active bulks up to the current block: prunes consumed
/// bulks, queues the transfer of what the window owes, advances the
/// watermark, and — even when nothing was settled — notifies the staking
/// contract of the (possibly zero) newly settled amount, so its own
/// accounting stays synchronised.
pub fn update_allocation(state: &mut State, bulks: &mut Vec<RewardBulk>, env: &Env) -> (r: Result<
    Response<(), HandleAnswer>,
    Error,
>)
    requires
        settles(*old(state), env.block_height) ==> settled_rewards(
            *old(state),
            old(bulks)@,
            env.block_height,
        ) <= u128::MAX,
    ensures
        *final(state) == (State {
            last_awarded_block: if settles(*old(state), env.block_height) {
                env.block_height
            } else {
                old(state).last_awarded_block
            },
            ..*old(state)
        }),
        final(bulks)@ == if settles(*old(state), env.block_height) {
            active_bulks(old(bulks)@, old(state).last_awarded_block)
        } else {
            old(bulks)@
        },
        (r matches Ok(resp) && {
            let rewards = settled_rewards(*old(state), old(bulks)@, env.block_height);
            &&& resp.messages@ == (if rewards > 0 {
                seq![
                    OutMsg::<()>::Snip20Transfer {
                        token: old(state).reward_token,
                        recipient: old(state).spy_to_reward.address,
                        amount: rewards as u128,
                    },
                ]
            } else {
                Seq::<OutMsg<()>>::empty()
            }) + seq![
                OutMsg::<()>::NotifyAllocation {
                    spy: old(state).spy_to_reward,
                    amount: rewards as u128,
                },
            ]
            &&& resp.data == Some(
                HandleAnswer::UpdateAllocation { status: ResponseStatus::Success },
            )
        }),
{
    let mut rewards: u128 = 0;
    let mut messages: Vec<OutMsg<()>> = Vec::new();
    if state.last_awarded_block < env.block_height {
        updated_reward_bulks(bulks, state);
        proof {
            lemma_pruning_preserves_pending(
                old(bulks)@,
                state.last_awarded_block,
                env.block_height,
            );
        }
        let pruned = clone_bulks(bulks);
        rewards = get_spy_rewards(pruned, state.last_awarded_block, env.block_height);
        if rewards > 0 {
            messages.push(
                OutMsg::Snip20Transfer {
                    token: state.reward_token.clone_ref(),
                    recipient: state.spy_to_reward.address.clone(),
                    amount: rewards,
                },
            );
        }
        state.last_awarded_block = env.block_height;
    }
    messages.push(
        OutMsg::NotifyAllocation { spy: state.spy_to_reward.clone_ref(), amount: rewards },
    );
    proof {
        let rw = settled_rewards(*old(state), old(bulks)@, env.block_height);
        assert(messages@ =~= (if rw > 0 {
            seq![
                OutMsg::<()>::Snip20Transfer {
                    token: old(state).reward_token,
                    recipient: old(state).spy_to_reward.address,
                    amount: rw as u128,
                },
            ]
        } else {
            Seq::<OutMsg<()>>::empty()
        }) + seq![OutMsg::<()>::NotifyAllocation { spy: old(state).spy_to_reward, amount: rw as u128 }]);
    }
    Ok(
        Response {
            messages,
            data: Some(HandleAnswer::UpdateAllocation { status: ResponseStatus::Success }),
        },
    )
}

fn clone_bulks(v: &Vec<RewardBulk>) -> (r: Vec<RewardBulk>)
    ensures
        r@ == v@,
{
    let mut out: Vec<RewardBulk> = Vec::new();
    let n = v.len();
    #[verifier::loop_isolation(false)]
    for i in 0..n
        invariant
            out@ == v@.take(i as int),
    {
        out.push(v[i]);
        proof {
            assert(v@.take(i + 1) =~= v@.take(i as int).push(v@[i as int]));
        }
    }
    proof {
        assert(v@.take(n as int) =~= v@);
    }
    out
}

/// The admin gate; any other caller is turned away.
pub fn enforce_admin(state: &State, env: &Env) -> (r: Result<(), Error>)
    ensures
        r == if state.admin@ == env.message_sender@ {
            Ok::<(), Error>(())
        } else {
            Err::<(), Error>(Error::Unauthorized)
        },
{
    if state.admin.eq(&env.message_sender) {
        Ok(())
    } else {
        Err(Error::Unauthorized)
    }
}

/// Creates a bulk distributing `amount` evenly over the next
/// `distribute_over` blocks.  Admin-only, to keep the bulk list small.
/// The old schedule is settled and notified first, so the new bulk cannot
/// distort the reward of blocks already elapsed; its rate is the integer
/// quotient, the residue deliberately forfeited.
pub fn new_bulk_reward(
    state: &mut State,
    bulks: &mut Vec<RewardBulk>,
    env: &Env,
    from: String,
    distribute_over: u64,
    amount: u128,
) -> (r: Result<Response<(), HandleAnswer>, Error>)
    requires
        from@ == old(state).admin@ ==> {
            &&& distribute_over > 0
            &&& env.block_height + distribute_over <= u64::MAX
            &&& (settles(*old(state), env.block_height) ==> settled_rewards(
                *old(state),
                old(bulks)@,
                env.block_height,
            ) <= u128::MAX)
        },
    ensures
        r is Ok <==> from@ == old(state).admin@,
        from@ != old(state).admin@ ==> (r matches Err(e) && e == Error::Unauthorized)
            && *final(state) == *old(state) && final(bulks)@ == old(bulks)@,
        from@ == old(state).admin@ ==> {
            &&& *final(state) == (State {
                last_awarded_block: if settles(*old(state), env.block_height) {
                    env.block_height
                } else {
                    old(state).last_awarded_block
                },
                ..*old(state)
            })
            &&& final(bulks)@ == (if settles(*old(state), env.block_height) {
                active_bulks(old(bulks)@, old(state).last_awarded_block)
            } else {
                old(bulks)@
            }).push(
                (RewardBulk {
                    end_block: (env.block_height + distribute_over) as u64,
                    amount_per_block: (amount as int / distribute_over as int) as u128,
                }),
            )
            &&& (r matches Ok(resp) && {
                let rewards = settled_rewards(*old(state), old(bulks)@, env.block_height);
                &&& resp.messages@ == (if rewards > 0 {
                    seq![
                        OutMsg::<()>::Snip20Transfer {
                            token: old(state).reward_token,
                            recipient: old(state).spy_to_reward.address,
                            amount: rewards as u128,
                        },
                    ]
                } else {
                    Seq::<OutMsg<()>>::empty()
                }) + seq![
                    OutMsg::<()>::NotifyAllocation {
                        spy: old(state).spy_to_reward,
                        amount: rewards as u128,
                    },
                ]
                &&& resp.data == Some(
                    HandleAnswer::UpdateAllocation { status: ResponseStatus::Success },
                )
            })
        },
{
    if !from.eq(&state.admin) {
        return Err(Error::Unauthorized);
    }
    let resp = update_allocation(state, bulks, env);
    let new_bulk = RewardBulk {
        end_block: env.block_height + distribute_over,
        amount_per_block: amount / (distribute_over as u128),
    };
    bulks.push(new_bulk);
    resp
}

/// The token's Receive callback: the only payload it can carry here asks
/// for a new bulk funded by the received amount.
pub fn receive(
    state: &mut State,
    bulks: &mut Vec<RewardBulk>,
    env: &Env,
    from: String,
    amount: u128,
    msg: ReceiveMsg,
) -> (r: Result<Response<(), HandleAnswer>, Error>)
    requires
        (match msg {
            ReceiveMsg::NewBulkReward { distribute_over } => from@ == old(state).admin@ ==> {
                &&& distribute_over > 0
                &&& env.block_height + distribute_over <= u64::MAX
                &&& (settles(*old(state), env.block_height) ==> settled_rewards(
                    *old(state),
                    old(bulks)@,
                    env.block_height,
                ) <= u128::MAX)
            },
        }),
    ensures
        r is Ok <==> from@ == old(state).admin@,
        (match msg {
            ReceiveMsg::NewBulkReward { distribute_over } => {
                &&& from@ != old(state).admin@ ==> (r matches Err(e) && e == Error::Unauthorized)
                    && *final(state) == *old(state) && final(bulks)@ == old(bulks)@
                &&& from@ == old(state).admin@ ==> {
                    &&& *final(state) == (State {
                        last_awarded_block: if settles(*old(state), env.block_height) {
                            env.block_height
                        } else {
                            old(state).last_awarded_block
                        },
                        ..*old(state)
                    })
                    &&& final(bulks)@ == (if settles(*old(state), env.block_height) {
                        active_bulks(old(bulks)@, old(state).last_awarded_block)
                    } else {
                        old(bulks)@
                    }).push(
                        (RewardBulk {
                            end_block: (env.block_height + distribute_over) as u64,
                            amount_per_block: (amount as int / distribute_over as int) as u128,
                        }),
                    )
                    &&& (r matches Ok(resp) && {
                        let rewards = settled_rewards(*old(state), old(bulks)@, env.block_height);
                        &&& resp.messages@ == (if rewards > 0 {
                            seq![
                                OutMsg::<()>::Snip20Transfer {
                                    token: old(state).reward_token,
                                    recipient: old(state).spy_to_reward.address,
                                    amount: rewards as u128,
                                },
                            ]
                        } else {
                            Seq::<OutMsg<()>>::empty()
                        }) + seq![
                            OutMsg::<()>::NotifyAllocation {
                                spy: old(state).spy_to_reward,
                                amount: rewards as u128,
                            },
                        ]
                        &&& resp.data == Some(
                            HandleAnswer::UpdateAllocation { status: ResponseStatus::Success },
                        )
                    })
                }
            },
        }),
{
    match msg {
        ReceiveMsg::NewBulkReward { distribute_over } => new_bulk_reward(
            state,
            bulks,
            env,
            from,
            distribute_over,
            amount,
        ),
    }
}

/// ChangeAdmin: hands the admin role to `admin_addr`.
pub fn change_admin(state: &mut State, env: &Env, admin_addr: String) -> (r: Result<
    Response<(), HandleAnswer>,
    Error,
>)
    ensures
        env.message_sender@ != old(state).admin@ ==> (r matches Err(e) && e == Error::Unauthorized)
            && *final(state) == *old(state),
        env.message_sender@ == old(state).admin@ ==> {
            &&& *final(state) == (State { admin: admin_addr, ..*old(state) })
            &&& r matches Ok(resp) && resp.messages@.len() == 0 && resp.data == Some(
                HandleAnswer::ChangeAdmin { status: ResponseStatus::Success },
            )
        },
{
    match enforce_admin(state, env) {
        Ok(()) => {},
        Err(e) => {
            return Err(e);
        },
    }
    state.admin = admin_addr;
    Ok(
        Response {
            messages: Vec::new(),
            data: Some(HandleAnswer::ChangeAdmin { status: ResponseStatus::Success }),
        },
    )
}

/// The side conditions a call must meet, by request kind.
pub open spec fn handle_call_limits(
    state: State,
    bulks: Seq<RewardBulk>,
    env: Env,
    msg: HandleMsg,
) -> bool {
    match msg {
        HandleMsg::UpdateAllocation { .. } => settles(state, env.block_height) ==> settled_rewards(
            state,
            bulks,
            env.block_height,
        ) <= u128::MAX,
        HandleMsg::Receive { from, msg: rmsg, .. } => (match rmsg {
            ReceiveMsg::NewBulkReward { distribute_over } => from@ == state.admin@ ==> {
                &&& distribute_over > 0
                &&& env.block_height + distribute_over <= u64::MAX
                &&& (settles(state, env.block_height) ==> settled_rewards(
                    state,
                    bulks,
                    env.block_height,
                ) <= u128::MAX)
            },
        }),
        HandleMsg::ChangeAdmin { .. } => true,
    }
}

/// The mutating entry point: routes each request to its handler, whose own
/// contract states exactly what it does.
pub fn handle(
    state: &mut State,
    bulks: &mut Vec<RewardBulk>,
    env: &Env,
    msg: HandleMsg,
) -> (r: Result<Response<(), HandleAnswer>, Error>)
    requires
        handle_call_limits(*old(state), old(bulks)@, *env, msg),
    ensures
        msg is ChangeAdmin ==> final(bulks)@ == old(bulks)@,
        r is Err ==> *final(state) == *old(state) && final(bulks)@ == old(bulks)@,
        (match msg {
            HandleMsg::UpdateAllocation { .. } => {
                &&& *final(state) == (State {
                    last_awarded_block: if settles(*old(state), env.block_height) {
                        env.block_height
                    } else {
                        old(state).last_awarded_block
                    },
                    ..*old(state)
                })
                &&& final(bulks)@ == if settles(*old(state), env.block_height) {
                    active_bulks(old(bulks)@, old(state).last_awarded_block)
                } else {
                    old(bulks)@
                }
                &&& (r matches Ok(resp) && {
                    let rewards = settled_rewards(*old(state), old(bulks)@, env.block_height);
                    &&& resp.messages@ == (if rewards > 0 {
                        seq![
                            OutMsg::<()>::Snip20Transfer {
                                token: old(state).reward_token,
                                recipient: old(state).spy_to_reward.address,
                                amount: rewards as u128,
                            },
                        ]
                    } else {
                        Seq::<OutMsg<()>>::empty()
                    }) + seq![
                        OutMsg::<()>::NotifyAllocation {
                            spy: old(state).spy_to_reward,
                            amount: rewards as u128,
                        },
                    ]
                    &&& resp.data == Some(
                        HandleAnswer::UpdateAllocation { status: ResponseStatus::Success },
                    )
                })
            },
            HandleMsg::Receive { from, amount, msg: rmsg, .. } => {
                &&& (r is Ok <==> from@ == old(state).admin@)
                &&& (match rmsg {
                    ReceiveMsg::NewBulkReward { distribute_over } => from@ == old(state).admin@
                        ==> {
                        &&& *final(state) == (State {
                            last_awarded_block: if settles(*old(state), env.block_height) {
                                env.block_height
                            } else {
                                old(state).last_awarded_block
                            },
                            ..*old(state)
                        })
                        &&& final(bulks)@ == (if settles(*old(state), env.block_height) {
                            active_bulks(old(bulks)@, old(state).last_awarded_block)
                        } else {
                            old(bulks)@
                        }).push(
                            (RewardBulk {
                                end_block: (env.block_height + distribute_over) as u64,
                                amount_per_block: (amount as int / distribute_over as int) as u128,
                            }),
                        )
                        &&& (r matches Ok(resp) && {
                            let rewards = settled_rewards(
                                *old(state),
                                old(bulks)@,
                                env.block_height,
                            );
                            &&& resp.messages@ == (if rewards > 0 {
                                seq![
                                    OutMsg::<()>::Snip20Transfer {
                                        token: old(state).reward_token,
                                        recipient: old(state).spy_to_reward.address,
                                        amount: rewards as u128,
                                    },
                                ]
                            } else {
                                Seq::<OutMsg<()>>::empty()
                            }) + seq![
                                OutMsg::<()>::NotifyAllocation {
                                    spy: old(state).spy_to_reward,
                                    amount: rewards as u128,
                                },
                            ]
                            &&& resp.data == Some(
                                HandleAnswer::UpdateAllocation { status: ResponseStatus::Success },
                            )
                        })
                    },
                })
            },
            HandleMsg::ChangeAdmin { address } => {
                &&& env.message_sender@ != old(state).admin@ ==> (r matches Err(e) && e
                    == Error::Unauthorized)
                &&& env.message_sender@ == old(state).admin@ ==> *final(state) == (State {
                    admin: address,
                    ..*old(state)
                }) && (r matches Ok(resp) && resp.messages@.len() == 0 && resp.data == Some(
                    HandleAnswer::ChangeAdmin { status: ResponseStatus::Success },
                ))
            },
        }),
{
    match msg {
        HandleMsg::UpdateAllocation { .. } => update_allocation(state, bulks, env),
        HandleMsg::Receive { from, amount, msg, .. } => receive(state, bulks, env, from, amount, msg),
        HandleMsg::ChangeAdmin { address } => change_admin(state, env, address),
    }
}

/// Instantiates a distributor: the caller becomes admin, the watermark
/// starts at zero with no bulks, and the contract registers its Receive
/// hook with the reward token.
pub fn init(env: &Env, msg: InitMsg) -> (r: (State, Vec<RewardBulk>, Vec<OutMsg<()>>))
    ensures
        r.0 == (State {
            admin: env.message_sender,
            reward_token: msg.reward_token,
            spy_to_reward: msg.spy_to_reward,
            last_awarded_block: 0,
        }),
        r.1@ == Seq::<RewardBulk>::empty(),
        r.2@ == seq![
            OutMsg::<()>::RegisterReceive {
                token: msg.reward_token,
                code_hash: env.contract_code_hash,
            },
        ],
{
    let state = State {
        admin: env.message_sender.clone(),
        reward_token: msg.reward_token.clone_ref(),
        spy_to_reward: msg.spy_to_reward,
        last_awarded_block: 0,
    };
    let mut messages: Vec<OutMsg<()>> = Vec::new();
    messages.push(
        OutMsg::RegisterReceive {
            token: msg.reward_token,
            code_hash: env.contract_code_hash.clone(),
        },
    );
    proof {
        assert(messages@ =~= seq![
            OutMsg::<()>::RegisterReceive {
                token: msg.reward_token,
                code_hash: env.contract_code_hash,
            },
        ]);
    }
    let bulks: Vec<RewardBulk> = Vec::new();
    proof {
        assert(bulks@ =~= Seq::<RewardBulk>::empty());
    }
    (state, bulks, messages)
}

/// Admin: the stored admin address.
pub fn query_admin(state: &State) -> (r: QueryAnswer)
    ensures
        r == (QueryAnswer::Admin { address: state.admin }),
{
    QueryAnswer::Admin { address: state.admin.clone() }
}

/// RewardToken: the token the bulks pay out in.
pub fn query_reward_token(state: &State) -> (r: QueryAnswer)
    ensures
        r == (QueryAnswer::RewardToken { contract: state.reward_token }),
{
    QueryAnswer::RewardToken { contract: state.reward_token.clone_ref() }
}

/// Spy: the staking contract the settled rewards go to.
pub fn query_spy(state: &State) -> (r: QueryAnswer)
    ensures
        r == (QueryAnswer::Spy { contract: state.spy_to_reward }),
{
    QueryAnswer::Spy { contract: state.spy_to_reward.clone_ref() }
}

/// Pending: the reward owed for the window from the watermark up to
/// `block`, across all stored bulks.
pub fn query_pending_rewards(state: &State, bulks: &Vec<RewardBulk>, block: u64) -> (r: QueryAnswer)
    requires
        state.last_awarded_block <= block,
        pending_rewards(bulks@, state.last_awarded_block, block) <= u128::MAX,
    ensures
        (r matches QueryAnswer::Pending { amount } && amount as int == pending_rewards(
            bulks@,
            state.last_awarded_block,
            block,
        )),
{
    let copy = clone_bulks(bulks);
    let amount = get_spy_rewards(copy, state.last_awarded_block, block);
    QueryAnswer::Pending { amount }
}

/// The side conditions a query must meet, by request kind.
pub open spec fn query_call_limits(
    state: State,
    bulks: Seq<RewardBulk>,
    msg: QueryMsg,
) -> bool {
    match msg {
        QueryMsg::Pending { block } => state.last_awarded_block <= block && pending_rewards(
            bulks,
            state.last_awarded_block,
            block,
        ) <= u128::MAX,
        _ => true,
    }
}

/// The read-only entry point.
pub fn query(state: &State, bulks: &Vec<RewardBulk>, msg: QueryMsg) -> (r: QueryAnswer)
    requires
        query_call_limits(*state, bulks@, msg),
    ensures
        msg is Admin ==> r == (QueryAnswer::Admin { address: state.admin }),
        msg is RewardToken ==> r == (QueryAnswer::RewardToken { contract: state.reward_token }),
        msg is Spy ==> r == (QueryAnswer::Spy { contract: state.spy_to_reward }),
        (match msg {
            QueryMsg::Pending { block } => (r matches QueryAnswer::Pending { amount }
                && amount as int == pending_rewards(bulks@, state.last_awarded_block, block)),
            _ => true,
        }),
{
    match msg {
        QueryMsg::Admin {  } => query_admin(state),
        QueryMsg::RewardToken {  } => query_reward_token(state),
        QueryMsg::Spy {  } => query_spy(state),
        QueryMsg::Pending { block } => query_pending_rewards(state, bulks, block),
    }
}

} // verus!
