//! The dev fund's handlers: reward accumulation fed by the master,
//! beneficiary-only redemption sequenced through the self-callback
//! pattern, and admin-gated configuration changes.

use vstd::prelude::*;
use crate::types::{Env, Error, OutMsg, Response, ResponseStatus, SecretContract};

verus! {

/// The dev fund's configuration.
pub struct Config {
    pub admin: String,
    pub beneficiary: String,
    pub sefi: SecretContract,
    pub master: SecretContract,
    pub viewing_key: String,
    pub own_addr: String,
}

/// The dev fund's whole persisted state.
pub struct DevFundState {
    pub config: Config,
    /// Settled rewards not yet redeemed; an unset store reads zero.
    pub accumulated_rewards: u128,
}

pub struct InitMsg {
    pub beneficiary: Option<String>,
    pub sefi: SecretContract,
    pub master: SecretContract,
    pub viewing_key: String,
}

/// The deferred action a self-callback carries.
pub enum HookMsg {
    Redeem { to: String, amount: Option<u128> },
}

pub enum HandleMsg {
    Redeem { amount: Option<u128>, to: Option<String> },
    ChangeAdmin { address: String },
    ChangeBeneficiary { address: String },
    NotifyAllocation { amount: u128 },
    RefreshBalance {},
    SelfCallback { message: HookMsg },
    SetMaster { contract: SecretContract },
}

pub enum HandleAnswer {
    Redeem { status: ResponseStatus },
    ChangeAdmin { status: ResponseStatus },
    ChangeBeneficiary { status: ResponseStatus },
    NotifyAllocation { status: ResponseStatus },
    RefreshBalance { status: ResponseStatus },
    SetMaster { status: ResponseStatus },
}

pub enum QueryMsg {
    Sefi {},
    Balance { block: u64 },
    Admin {},
    Beneficiary {},
}

pub enum QueryAnswer {
    Sefi { sefi: SecretContract },
    Balance { amount: u128 },
    Admin { address: String },
    Beneficiary { address: String },
}

/// Instantiates a dev fund: the caller becomes admin, the beneficiary
/// defaults to the caller, and the contract sets its viewing key with the
/// reward token so it can later audit its own balance.
pub fn init(env: &Env, msg: InitMsg) -> (r: (DevFundState, Vec<OutMsg<HookMsg>>))
    ensures
        r.0.config.admin == env.message_sender,
        r.0.config.beneficiary == (match msg.beneficiary {
            Some(b) => b,
            None => env.message_sender,
        }),
        r.0.config.sefi == msg.sefi,
        r.0.config.master == msg.master,
        r.0.config.viewing_key == msg.viewing_key,
        r.0.config.own_addr == env.contract_address,
        r.0.accumulated_rewards == 0,
        r.1@ == seq![
            OutMsg::<HookMsg>::SetViewingKey { token: msg.sefi, key: msg.viewing_key },
        ],
{
    let beneficiary = match msg.beneficiary {
        Some(b) => b,
        None => env.message_sender.clone(),
    };
    let state = DevFundState {
        config: Config {
            admin: env.message_sender.clone(),
            beneficiary,
            sefi: msg.sefi.clone_ref(),
            master: msg.master,
            viewing_key: msg.viewing_key.clone(),
            own_addr: env.contract_address.clone(),
        },
        accumulated_rewards: 0,
    };
    let mut messages: Vec<OutMsg<HookMsg>> = Vec::new();
    messages.push(OutMsg::SetViewingKey { token: msg.sefi, key: msg.viewing_key });
    proof {
        assert(messages@ =~= seq![
            OutMsg::<HookMsg>::SetViewingKey { token: msg.sefi, key: msg.viewing_key },
        ]);
    }
    (state, messages)
}

/// The admin gate.
pub fn enforce_admin(config: &Config, env: &Env) -> (r: Result<(), Error>)
    ensures
        r == if config.admin@ == env.message_sender@ {
            Ok::<(), Error>(())
        } else {
            Err::<(), Error>(Error::Unauthorized)
        },
{
    if config.admin.eq(&env.message_sender) {
        Ok(())
    } else {
        Err(Error::Unauthorized)
    }
}

/// Whether a NotifyAllocation caller may credit the fund: only the
/// registered master or the admin.
pub open spec fn may_notify(state: DevFundState, sender: Seq<char>) -> bool {
    sender == state.config.master.address@ || sender == state.config.admin@
}

/// NotifyAllocation: credits the fund with a newly settled amount.
pub fn notify_allocation(state: &mut DevFundState, env: &Env, amount: u128) -> (r: Result<
    Response<HookMsg, HandleAnswer>,
    Error,
>)
    requires
        may_notify(*old(state), env.message_sender@) ==> old(state).accumulated_rewards + amount
            <= u128::MAX,
    ensures
        !may_notify(*old(state), env.message_sender@) ==> (r matches Err(e) && e
            == Error::Unauthorized) && *final(state) == *old(state),
        may_notify(*old(state), env.message_sender@) ==> {
            &&& *final(state) == (DevFundState {
                accumulated_rewards: (old(state).accumulated_rewards + amount) as u128,
                ..*old(state)
            })
            &&& r matches Ok(resp) && resp.messages@.len() == 0 && resp.data == Some(
                HandleAnswer::NotifyAllocation { status: ResponseStatus::Success },
            )
        },
{
    if !env.message_sender.eq(&state.config.master.address) && !env.message_sender.eq(
        &state.config.admin,
    ) {
        return Err(Error::Unauthorized);
    }
    state.accumulated_rewards = state.accumulated_rewards + amount;
    Ok(
        Response {
            messages: Vec::new(),
            data: Some(HandleAnswer::NotifyAllocation { status: ResponseStatus::Success }),
        },
    )
}

/// SelfCallback: admits the deferred redemption only when the call
/// originates from the contract's own address, then pays out of the
/// now-settled balance.  An unspecified amount redeems everything.
pub fn self_callback(state: &mut DevFundState, env: &Env, message: HookMsg) -> (r: Result<
    Response<HookMsg, HandleAnswer>,
    Error,
>)
    ensures
        env.message_sender@ != env.contract_address@ ==> (r matches Err(e) && e
            == Error::Unauthorized) && *final(state) == *old(state),
        env.message_sender@ == env.contract_address@ ==> (match message {
            HookMsg::Redeem { to, amount } => {
                let amt = match amount {
                    Some(a) => a,
                    None => old(state).accumulated_rewards,
                };
                &&& r is Ok <==> amt <= old(state).accumulated_rewards
                &&& amt > old(state).accumulated_rewards ==> (r matches Err(e) && e == (
                Error::InsufficientRewards {
                    balance: old(state).accumulated_rewards,
                    required: amt,
                })) && *final(state) == *old(state)
                &&& r is Ok ==> {
                    &&& *final(state) == (DevFundState {
                        accumulated_rewards: (old(state).accumulated_rewards - amt) as u128,
                        ..*old(state)
                    })
                    &&& (r->Ok_0).messages@ == seq![
                        OutMsg::<HookMsg>::Snip20Transfer {
                            token: old(state).config.sefi,
                            recipient: to,
                            amount: amt,
                        },
                    ]
                    &&& (r->Ok_0).data == Some(
                        HandleAnswer::Redeem { status: ResponseStatus::Success },
                    )
                }
            },
        }),
{
    if !env.message_sender.eq(&env.contract_address) {
        return Err(Error::Unauthorized);
    }
    match message {
        HookMsg::Redeem { to, amount } => {
            let balance = state.accumulated_rewards;
            let amt = match amount {
                Some(a) => a,
                None => balance,
            };
            if amt > balance {
                return Err(Error::InsufficientRewards { balance, required: amt });
            }
            // When no amount was asked for, everything is redeemed, because
            // then the debit equals the balance.
            state.accumulated_rewards = balance - amt;
            let mut messages: Vec<OutMsg<HookMsg>> = Vec::new();
            messages.push(
                OutMsg::Snip20Transfer {
                    token: state.config.sefi.clone_ref(),
                    recipient: to,
                    amount: amt,
                },
            );
            proof {
                assert(messages@ =~= seq![
                    OutMsg::<HookMsg>::Snip20Transfer {
                        token: old(state).config.sefi,
                        recipient: to,
                        amount: amt,
                    },
                ]);
            }
            Ok(
                Response {
                    messages,
                    data: Some(HandleAnswer::Redeem { status: ResponseStatus::Success }),
                },
            )
        },
    }
}

/// The messages a redemption queues: the settlement owed to the master,
/// then the self-callback that pays out strictly after it.
pub open spec fn update_allocation_msgs(
    env: Env,
    master: SecretContract,
    hook: Option<HookMsg>,
) -> Seq<OutMsg<HookMsg>> {
    let base = seq![
        OutMsg::<HookMsg>::UpdateAllocation {
            master,
            spy_addr: env.contract_address,
            spy_hash: env.contract_code_hash,
        },
    ];
    match hook {
        Some(cb) => base.push(
            OutMsg::SelfCallback {
                contract_addr: env.contract_address,
                code_hash: env.contract_code_hash,
                msg: cb,
            },
        ),
        None => base,
    }
}

/// Queues the allocation update owed to the master and, when given, the
/// self-callback that sequences a deferred action after the settlement.
pub fn update_allocation(env: &Env, master: SecretContract, self_callback_msg: Option<HookMsg>) -> (r:
    Response<HookMsg, HandleAnswer>)
    ensures
        r.messages@ == update_allocation_msgs(*env, master, self_callback_msg),
        r.data is None,
{
    let mut messages: Vec<OutMsg<HookMsg>> = Vec::new();
    messages.push(
        OutMsg::UpdateAllocation {
            master,
            spy_addr: env.contract_address.clone(),
            spy_hash: env.contract_code_hash.clone(),
        },
    );
    match self_callback_msg {
        Some(cb) => {
            messages.push(
                OutMsg::SelfCallback {
                    contract_addr: env.contract_address.clone(),
                    code_hash: env.contract_code_hash.clone(),
                    msg: cb,
                },
            );
        },
        None => {},
    }
    Response { messages, data: None }
}

/// Redeem: beneficiary-only; settles through the master first, then pays
/// `amount` (or everything) to `to` (or the caller) in the self-callback.
pub fn redeem(
    state: &DevFundState,
    env: &Env,
    amount: Option<u128>,
    to: Option<String>,
) -> (r: Result<Response<HookMsg, HandleAnswer>, Error>)
    ensures
        env.message_sender@ != state.config.beneficiary@ ==> (r matches Err(e) && e
            == Error::Unauthorized),
        env.message_sender@ == state.config.beneficiary@ ==> (r matches Ok(resp)
            && resp.messages@ == update_allocation_msgs(
            *env,
            state.config.master,
            Some(
                HookMsg::Redeem {
                    to: (match to {
                        Some(t) => t,
                        None => env.message_sender,
                    }),
                    amount,
                },
            ),
        ) && resp.data is None),
{
    if !env.message_sender.eq(&state.config.beneficiary) {
        return Err(Error::Unauthorized);
    }
    let target = match to {
        Some(t) => t,
        None => env.message_sender.clone(),
    };
    Ok(
        update_allocation(
            env,
            state.config.master.clone_ref(),
            Some(HookMsg::Redeem { to: target, amount }),
        ),
    )
}

/// ChangeAdmin: hands the admin role to `address`.
pub fn change_admin(state: &mut DevFundState, env: &Env, address: String) -> (r: Result<
    Response<HookMsg, HandleAnswer>,
    Error,
>)
    ensures
        env.message_sender@ != old(state).config.admin@ ==> (r matches Err(e) && e
            == Error::Unauthorized) && *final(state) == *old(state),
        env.message_sender@ == old(state).config.admin@ ==> {
            &&& *final(state) == (DevFundState {
                config: (Config { admin: address, ..old(state).config }),
                ..*old(state)
            })
            &&& r matches Ok(resp) && resp.messages@.len() == 0 && resp.data == Some(
                HandleAnswer::ChangeAdmin { status: ResponseStatus::Success },
            )
        },
{
    match enforce_admin(&state.config, env) {
        Ok(()) => {},
        Err(e) => {
            return Err(e);
        },
    }
    state.config.admin = address;
    Ok(
        Response {
            messages: Vec::new(),
            data: Some(HandleAnswer::ChangeAdmin { status: ResponseStatus::Success }),
        },
    )
}

/// ChangeBeneficiary: points redemptions at another account.
pub fn change_beneficiary(state: &mut DevFundState, env: &Env, address: String) -> (r: Result<
    Response<HookMsg, HandleAnswer>,
    Error,
>)
    ensures
        env.message_sender@ != old(state).config.admin@ ==> (r matches Err(e) && e
            == Error::Unauthorized) && *final(state) == *old(state),
        env.message_sender@ == old(state).config.admin@ ==> {
            &&& *final(state) == (DevFundState {
                config: (Config { beneficiary: address, ..old(state).config }),
                ..*old(state)
            })
            &&& r matches Ok(resp) && resp.messages@.len() == 0 && resp.data == Some(
                HandleAnswer::ChangeBeneficiary { status: ResponseStatus::Success },
            )
        },
{
    match enforce_admin(&state.config, env) {
        Ok(()) => {},
        Err(e) => {
            return Err(e);
        },
    }
    state.config.beneficiary = address;
    Ok(
        Response {
            messages: Vec::new(),
            data: Some(HandleAnswer::ChangeBeneficiary { status: ResponseStatus::Success }),
        },
    )
}

/// SetMaster: points the fund at another master aggregator.
pub fn set_master(state: &mut DevFundState, env: &Env, new_master: SecretContract) -> (r: Result<
    Response<HookMsg, HandleAnswer>,
    Error,
>)
    ensures
        env.message_sender@ != old(state).config.admin@ ==> (r matches Err(e) && e
            == Error::Unauthorized) && *final(state) == *old(state),
        env.message_sender@ == old(state).config.admin@ ==> {
            &&& *final(state) == (DevFundState {
                config: (Config { master: new_master, ..old(state).config }),
                ..*old(state)
            })
            &&& r matches Ok(resp) && resp.messages@.len() == 0 && resp.data == Some(
                HandleAnswer::SetMaster { status: ResponseStatus::Success },
            )
        },
{
    match enforce_admin(&state.config, env) {
        Ok(()) => {},
        Err(e) => {
            return Err(e);
        },
    }
    state.config.master = new_master;
    Ok(
        Response {
            messages: Vec::new(),
            data: Some(HandleAnswer::SetMaster { status: ResponseStatus::Success }),
        },
    )
}

/// RefreshBalance: admin-only correction for the unlikely case the stored
/// balance drifted from the token's books; the host queries the reward
/// token for this contract's true balance and hands it in.
pub fn refresh_balance(state: &mut DevFundState, env: &Env, queried_balance: u128) -> (r: Result<
    Response<HookMsg, HandleAnswer>,
    Error,
>)
    ensures
        env.message_sender@ != old(state).config.admin@ ==> (r matches Err(e) && e
            == Error::Unauthorized) && *final(state) == *old(state),
        env.message_sender@ == old(state).config.admin@ ==> {
            &&& *final(state) == (DevFundState {
                accumulated_rewards: queried_balance,
                ..*old(state)
            })
            &&& r matches Ok(resp) && resp.messages@.len() == 0 && resp.data == Some(
                HandleAnswer::RefreshBalance { status: ResponseStatus::Success },
            )
        },
{
    match enforce_admin(&state.config, env) {
        Ok(()) => {},
        Err(e) => {
            return Err(e);
        },
    }
    state.accumulated_rewards = queried_balance;
    Ok(
        Response {
            messages: Vec::new(),
            data: Some(HandleAnswer::RefreshBalance { status: ResponseStatus::Success }),
        },
    )
}

/// The side conditions a call must meet, by request kind.  `RefreshBalance`
/// additionally needs the host-queried token balance, handed to `handle`.
pub open spec fn handle_call_limits(state: DevFundState, env: Env, msg: HandleMsg) -> bool {
    match msg {
        HandleMsg::NotifyAllocation { amount } => may_notify(state, env.message_sender@)
            ==> state.accumulated_rewards + amount <= u128::MAX,
        _ => true,
    }
}

/// The mutating entry point: routes each request to its handler, whose own
/// contract states exactly what it does.  The host passes the reward
/// token's queried balance as `queried_balance`; only RefreshBalance reads
/// it.
pub fn handle(
    state: &mut DevFundState,
    env: &Env,
    msg: HandleMsg,
    queried_balance: u128,
) -> (r: Result<Response<HookMsg, HandleAnswer>, Error>)
    requires
        handle_call_limits(*old(state), *env, msg),
    ensures
        r is Err ==> *final(state) == *old(state),
        (match msg {
            HandleMsg::Redeem { amount, to } => {
                &&& env.message_sender@ != old(state).config.beneficiary@ ==> (r matches Err(e)
                    && e == Error::Unauthorized)
                &&& env.message_sender@ == old(state).config.beneficiary@ ==> *final(state)
                    == *old(state) && (r matches Ok(resp) && resp.messages@
                    == update_allocation_msgs(
                    *env,
                    old(state).config.master,
                    Some(
                        HookMsg::Redeem {
                            to: (match to {
                                Some(t) => t
                                ,
                                None => env.message_sender,
                            }),
                            amount,
                        },
                    ),
                ) && resp.data is None)
            },
            HandleMsg::SelfCallback { message } => {
                &&& env.message_sender@ != env.contract_address@ ==> (r matches Err(e) && e
                    == Error::Unauthorized)
                &&& env.message_sender@ == env.contract_address@ ==> (match message {
                    HookMsg::Redeem { to, amount } => {
                        let amt = match amount {
                            Some(a) => a
                            ,
                            None => old(state).accumulated_rewards,
                        };
                        &&& (r is Ok <==> amt <= old(state).accumulated_rewards)
                        &&& amt > old(state).accumulated_rewards ==> (r matches Err(e) && e == (
                        Error::InsufficientRewards {
                            balance: old(state).accumulated_rewards,
                            required: amt,
                        }))
                        &&& r is Ok ==> *final(state) == (DevFundState {
                            accumulated_rewards: (old(state).accumulated_rewards - amt) as u128,
                            ..*old(state)
                        }) && (r->Ok_0).messages@ == seq![
                            OutMsg::<HookMsg>::Snip20Transfer {
                                token: old(state).config.sefi,
                                recipient: to,
                                amount: amt,
                            },
                        ] && (r->Ok_0).data == Some(
                            HandleAnswer::Redeem { status: ResponseStatus::Success },
                        )
                    },
                })
            },
            HandleMsg::NotifyAllocation { amount } => {
                &&& !may_notify(*old(state), env.message_sender@) ==> (r matches Err(e) && e
                    == Error::Unauthorized)
                &&& may_notify(*old(state), env.message_sender@) ==> *final(state) == (
                DevFundState {
                    accumulated_rewards: (old(state).accumulated_rewards + amount) as u128,
                    ..*old(state)
                }) && (r matches Ok(resp) && resp.messages@.len() == 0 && resp.data == Some(
                    HandleAnswer::NotifyAllocation { status: ResponseStatus::Success },
                ))
            },
            HandleMsg::ChangeAdmin { address } => {
                &&& env.message_sender@ != old(state).config.admin@ ==> (r matches Err(e) && e
                    == Error::Unauthorized)
                &&& env.message_sender@ == old(state).config.admin@ ==> *final(state) == (
                DevFundState {
                    config: (Config { admin: address, ..old(state).config }),
                    ..*old(state)
                }) && (r matches Ok(resp) && resp.messages@.len() == 0 && resp.data == Some(
                    HandleAnswer::ChangeAdmin { status: ResponseStatus::Success },
                ))
            },
            HandleMsg::ChangeBeneficiary { address } => {
                &&& env.message_sender@ != old(state).config.admin@ ==> (r matches Err(e) && e
                    == Error::Unauthorized)
                &&& env.message_sender@ == old(state).config.admin@ ==> *final(state) == (
                DevFundState {
                    config: (Config { beneficiary: address, ..old(state).config }),
                    ..*old(state)
                }) && (r matches Ok(resp) && resp.messages@.len() == 0 && resp.data == Some(
                    HandleAnswer::ChangeBeneficiary { status: ResponseStatus::Success },
                ))
            },
            HandleMsg::SetMaster { contract } => {
                &&& env.message_sender@ != old(state).config.admin@ ==> (r matches Err(e) && e
                    == Error::Unauthorized)
                &&& env.message_sender@ == old(state).config.admin@ ==> *final(state) == (
                DevFundState {
                    config: (Config { master: contract, ..old(state).config }),
                    ..*old(state)
                }) && (r matches Ok(resp) && resp.messages@.len() == 0 && resp.data == Some(
                    HandleAnswer::SetMaster { status: ResponseStatus::Success },
                ))
            },
            HandleMsg::RefreshBalance { .. } => {
                &&& env.message_sender@ != old(state).config.admin@ ==> (r matches Err(e) && e
                    == Error::Unauthorized)
                &&& env.message_sender@ == old(state).config.admin@ ==> *final(state) == (
                DevFundState { accumulated_rewards: queried_balance, ..*old(state) }) && (r
                    matches Ok(resp) && resp.messages@.len() == 0 && resp.data == Some(
                    HandleAnswer::RefreshBalance { status: ResponseStatus::Success },
                ))
            },
        }),
{
    match msg {
        HandleMsg::Redeem { amount, to } => redeem(state, env, amount, to),
        HandleMsg::ChangeAdmin { address } => change_admin(state, env, address),
        HandleMsg::ChangeBeneficiary { address } => change_beneficiary(state, env, address),
        HandleMsg::NotifyAllocation { amount } => notify_allocation(state, env, amount),
        HandleMsg::RefreshBalance {  } => refresh_balance(state, env, queried_balance),
        HandleMsg::SelfCallback { message } => self_callback(state, env, message),
        HandleMsg::SetMaster { contract } => set_master(state, env, contract),
    }
}

/// Sefi: the reward token redeemed in.
pub fn query_sefi(state: &DevFundState) -> (r: QueryAnswer)
    ensures
        r == (QueryAnswer::Sefi { sefi: state.config.sefi }),
{
    QueryAnswer::Sefi { sefi: state.config.sefi.clone_ref() }
}

/// Admin: the stored admin address.
pub fn query_admin(state: &DevFundState) -> (r: QueryAnswer)
    ensures
        r == (QueryAnswer::Admin { address: state.config.admin }),
{
    QueryAnswer::Admin { address: state.config.admin.clone() }
}

/// Beneficiary: the account redemptions go to.
pub fn query_beneficiary(state: &DevFundState) -> (r: QueryAnswer)
    ensures
        r == (QueryAnswer::Beneficiary { address: state.config.beneficiary }),
{
    QueryAnswer::Beneficiary { address: state.config.beneficiary.clone() }
}

/// Balance: what the fund holds plus what its sources still owe it at the
/// queried block; the host aggregates the upstream answers into
/// `pending_rewards` first.
pub fn query_balance(state: &DevFundState, pending_rewards: u128) -> (r: QueryAnswer)
    requires
        pending_rewards + state.accumulated_rewards <= u128::MAX,
    ensures
        r == (QueryAnswer::Balance {
            amount: (pending_rewards + state.accumulated_rewards) as u128,
        }),
{
    QueryAnswer::Balance { amount: pending_rewards + state.accumulated_rewards }
}

/// The read-only entry point.  The host resolves the upstream fan-out for
/// Balance queries and hands the aggregated pending amount in.
pub fn query(state: &DevFundState, msg: QueryMsg, pending_rewards: u128) -> (r: QueryAnswer)
    requires
        msg is Balance ==> pending_rewards + state.accumulated_rewards <= u128::MAX,
    ensures
        msg is Sefi ==> r == (QueryAnswer::Sefi { sefi: state.config.sefi }),
        msg is Admin ==> r == (QueryAnswer::Admin { address: state.config.admin }),
        msg is Beneficiary ==> r == (QueryAnswer::Beneficiary {
            address: state.config.beneficiary,
        }),
        msg is Balance ==> r == (QueryAnswer::Balance {
            amount: (pending_rewards + state.accumulated_rewards) as u128,
        }),
{
    match msg {
        QueryMsg::Sefi {  } => query_sefi(state),
        QueryMsg::Balance { .. } => query_balance(state, pending_rewards),
        QueryMsg::Admin {  } => query_admin(state),
        QueryMsg::Beneficiary {  } => query_beneficiary(state),
    }
}

} // verus!
