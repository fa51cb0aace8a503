//! The cashback token's handlers.
//!
//! Every handler takes the whole contract state, the calling environment and
//! a decoded request, and either mutates the state and reports its answer
//! and outbound messages, or fails with a documented error and leaves the
//! state exactly as the contract documents — a failed call commits nothing,
//! with one deliberate exception: the lazy zeroing of an expired allowance.

use vstd::prelude::*;
use crate::types::{Env, Error, OutMsg, Response, ResponseStatus, SecretContract};
use crate::cashback::msg::{
    ContractStatusLevel,
    HandleAnswer,
    HandleMsg,
    HookMsg,
    InitMsg,
    InitialBalance,
    QueryAnswer,
    QueryMsg,
    space_pad,
    validation_addresses,
    validation_key,
};
use crate::cashback::state::{
    Allowance,
    AllowanceTable,
    Constants,
    State,
    lemma_lookup_le_sum,
    name_in,
    names_removed,
    sum_amounts,
};
use crate::cashback::transaction_history::{RichTx, TxAction, TxLog};
use crate::cashback::viewing_key::{dummy_key, ViewingKey};
use crate::kvlist::KvList;

verus! {

/// Handler answers are padded to a multiple of this many bytes before they
/// leave the host, so that an answer's length leaks nothing.
pub const RESPONSE_BLOCK_SIZE: usize = 256;

/// Pads an encoded answer, if there is one, to a multiple of
/// `RESPONSE_BLOCK_SIZE` bytes.
pub fn pad_response(data: Option<Vec<u8>>) -> (r: Option<Vec<u8>>)
    requires
        match data {
            Some(d) => d@.len() + RESPONSE_BLOCK_SIZE <= usize::MAX,
            None => true,
        },
    ensures
        match data {
            Some(d) => match r {
                Some(p) => {
                    &&& p@.len() as int % (RESPONSE_BLOCK_SIZE as int) == 0
                    &&& d@.len() <= p@.len() < d@.len() + RESPONSE_BLOCK_SIZE
                    &&& p@.subrange(0, d@.len() as int) == d@
                    &&& forall|i: int| d@.len() <= i < p@.len() ==> p@[i] == 32u8
                },
                None => false,
            },
            None => r is None,
        },
{
    match data {
        Some(mut d) => {
            space_pad(RESPONSE_BLOCK_SIZE, &mut d);
            Some(d)
        },
        None => None,
    }
}

/// Whether `account` is the stored admin.
pub fn is_admin(state: &State, account: &String) -> (r: bool)
    ensures
        r == state.spec_is_admin(account@),
{
    state.constants.admin.eq(account)
}

/// The admin gate: every admin-only handler runs this first.
pub fn check_if_admin(state: &State, account: &String) -> (r: Result<(), Error>)
    ensures
        r == if state.spec_is_admin(account@) {
            Ok::<(), Error>(())
        } else {
            Err::<(), Error>(Error::Unauthorized)
        },
{
    if is_admin(state, account) {
        Ok(())
    } else {
        Err(Error::Unauthorized)
    }
}

/// Moves `amount` from `from` to `to`.  Fails with `InsufficientFunds` when
/// `from` holds less than `amount`, and with `BalanceOverflow` when the
/// credit would leave the 128-bit range; the overflow cannot arise while the
/// balances sum to the total supply, but it is checked, never assumed.  On
/// failure nothing changes.
pub fn perform_transfer(state: &mut State, from: &String, to: &String, amount: u128) -> (r: Result<
    (),
    Error,
>)
    requires
        old(state).balances.wf(),
    ensures
        *final(state) == (State { balances: final(state).balances, ..*old(state) }),
        final(state).balances.wf(),
        r is Ok <==> old(state).balance_of(from@) >= amount && (from@ == to@ || old(
            state,
        ).balance_of(to@) + amount <= u128::MAX),
        old(state).balance_of(from@) < amount ==> r == Err::<(), Error>(
            Error::InsufficientFunds { balance: old(state).balance_of(from@), required: amount },
        ),
        old(state).balance_of(from@) >= amount && !(from@ == to@ || old(state).balance_of(to@)
            + amount <= u128::MAX) ==> r == Err::<(), Error>(Error::BalanceOverflow),
        r is Err ==> *final(state) == *old(state),
        r is Ok ==> {
            &&& final(state).balance_of(from@) == if from@ == to@ {
                old(state).balance_of(from@)
            } else {
                (old(state).balance_of(from@) - amount) as u128
            }
            &&& final(state).balance_of(to@) == if from@ == to@ {
                old(state).balance_of(to@)
            } else {
                (old(state).balance_of(to@) + amount) as u128
            }
            &&& forall|a: Seq<char>|
                a != from@ && a != to@ ==> final(state).balance_of(a) == old(state).balance_of(a)
            &&& sum_amounts(final(state).balances.entries@) == sum_amounts(
                old(state).balances.entries@,
            )
        },
{
    let from_balance = state.balance(from);
    if from_balance < amount {
        return Err(Error::InsufficientFunds { balance: from_balance, required: amount });
    }
    let debited = from_balance - amount;
    let to_pre = if from.eq(to) {
        debited
    } else {
        state.balance(to)
    };
    if amount > u128::MAX - to_pre {
        return Err(Error::BalanceOverflow);
    }
    state.set_account_balance(from, debited);
    state.set_account_balance(to, to_pre + amount);
    Ok(())
}

/// The history record a successful transfer appends.
pub open spec fn transfer_record(
    state: State,
    from: String,
    sender: String,
    recipient: String,
    amount: u128,
    memo: Option<String>,
    env: Env,
) -> RichTx {
    RichTx {
        id: state.history.txs@.len() as u64,
        action: TxAction::Transfer { from, sender, recipient },
        amount,
        symbol: state.constants.symbol,
        memo,
        block_time: env.block_time,
        block_height: env.block_height,
    }
}

/// Moves `amount` from the caller to `recipient` and logs the transfer.
pub fn try_transfer_impl(
    state: &mut State,
    env: &Env,
    recipient: &String,
    amount: u128,
    memo: Option<String>,
) -> (r: Result<(), Error>)
    requires
        old(state).balances.wf(),
        old(state).history.txs@.len() < u64::MAX,
    ensures
        final(state).balances.wf(),
        *final(state) == (State {
            balances: final(state).balances,
            history: final(state).history,
            ..*old(state)
        }),
        r is Ok <==> old(state).balance_of(env.message_sender@) >= amount && (env.message_sender@
            == recipient@ || old(state).balance_of(recipient@) + amount <= u128::MAX),
        old(state).balance_of(env.message_sender@) < amount ==> r == Err::<(), Error>(
            Error::InsufficientFunds {
                balance: old(state).balance_of(env.message_sender@),
                required: amount,
            },
        ),
        r is Err && old(state).balance_of(env.message_sender@) >= amount ==> r == Err::<(), Error>(
            Error::BalanceOverflow,
        ),
        r is Err ==> *final(state) == *old(state),
        r is Ok ==> {
            &&& final(state).balance_of(env.message_sender@) == if env.message_sender@
                == recipient@ {
                old(state).balance_of(env.message_sender@)
            } else {
                (old(state).balance_of(env.message_sender@) - amount) as u128
            }
            &&& final(state).balance_of(recipient@) == if env.message_sender@ == recipient@ {
                old(state).balance_of(recipient@)
            } else {
                (old(state).balance_of(recipient@) + amount) as u128
            }
            &&& forall|a: Seq<char>|
                a != env.message_sender@ && a != recipient@ ==> final(state).balance_of(a) == old(
                    state,
                ).balance_of(a)
            &&& sum_amounts(final(state).balances.entries@) == sum_amounts(
                old(state).balances.entries@,
            )
            &&& final(state).history.txs@ == old(state).history.txs@.push(
                transfer_record(
                    *old(state),
                    env.message_sender,
                    env.message_sender,
                    *recipient,
                    amount,
                    memo,
                    *env,
                ),
            )
        },
{
    let sender = &env.message_sender;
    match perform_transfer(state, sender, recipient, amount) {
        Ok(()) => {},
        Err(e) => {
            return Err(e);
        },
    }
    let symbol = state.constants.symbol.clone();
    state.history.store_transfer(
        sender.clone(),
        sender.clone(),
        recipient.clone(),
        amount,
        symbol,
        memo,
        env.block_height,
        env.block_time,
    );
    Ok(())
}

/// Transfer: moves `amount` from the caller to `recipient`.
pub fn try_transfer(
    state: &mut State,
    env: &Env,
    recipient: &String,
    amount: u128,
    memo: Option<String>,
) -> (r: Result<Response<HookMsg, HandleAnswer>, Error>)
    requires
        old(state).wf(),
        old(state).history.txs@.len() < u64::MAX,
    ensures
        final(state).wf(),
        *final(state) == (State {
            balances: final(state).balances,
            history: final(state).history,
            ..*old(state)
        }),
        r is Ok <==> old(state).balance_of(env.message_sender@) >= amount && (env.message_sender@
            == recipient@ || old(state).balance_of(recipient@) + amount <= u128::MAX),
        old(state).balance_of(env.message_sender@) < amount ==> (r matches Err(e) && e == (
        Error::InsufficientFunds {
            balance: old(state).balance_of(env.message_sender@),
            required: amount,
        })),
        r is Err ==> *final(state) == *old(state),
        r is Ok ==> {
            &&& final(state).balance_of(env.message_sender@) == if env.message_sender@
                == recipient@ {
                old(state).balance_of(env.message_sender@)
            } else {
                (old(state).balance_of(env.message_sender@) - amount) as u128
            }
            &&& final(state).balance_of(recipient@) == if env.message_sender@ == recipient@ {
                old(state).balance_of(recipient@)
            } else {
                (old(state).balance_of(recipient@) + amount) as u128
            }
            &&& forall|a: Seq<char>|
                a != env.message_sender@ && a != recipient@ ==> final(state).balance_of(a) == old(
                    state,
                ).balance_of(a)
            &&& final(state).total_supply == old(state).total_supply
            &&& final(state).history.txs@ == old(state).history.txs@.push(
                transfer_record(
                    *old(state),
                    env.message_sender,
                    env.message_sender,
                    *recipient,
                    amount,
                    memo,
                    *env,
                ),
            )
            &&& (r->Ok_0).messages@.len() == 0
            &&& (r->Ok_0).data == Some(
                HandleAnswer::Transfer { status: ResponseStatus::Success },
            )
        },
{
    match try_transfer_impl(state, env, recipient, amount, memo) {
        Ok(()) => {},
        Err(e) => {
            return Err(e);
        },
    }
    Ok(
        Response {
            messages: Vec::new(),
            data: Some(HandleAnswer::Transfer { status: ResponseStatus::Success }),
        },
    )
}

/// The receive-hook message owed to `recipient`, if it registered one.
pub open spec fn receiver_callback_msgs(
    state: State,
    recipient: String,
    msg: Option<Vec<u8>>,
    sender: String,
    from: String,
    amount: u128,
    memo: Option<String>,
) -> Seq<OutMsg<HookMsg>> {
    match state.receiver_hashes.spec_lookup(recipient@) {
        Some(hash) => seq![
            OutMsg::ReceiverCallback {
                receiver: recipient,
                receiver_hash: hash,
                sender,
                from,
                amount,
                memo,
                msg,
            },
        ],
        None => Seq::empty(),
    }
}

/// Queues the receive hook of `recipient`, when it registered one.
pub fn try_add_receiver_api_callback(
    messages: &mut Vec<OutMsg<HookMsg>>,
    state: &State,
    recipient: &String,
    msg: Option<Vec<u8>>,
    sender: String,
    from: String,
    amount: u128,
    memo: Option<String>,
)
    requires
        state.receiver_hashes.wf(),
    ensures
        final(messages)@ == old(messages)@ + receiver_callback_msgs(
            *state,
            *recipient,
            msg,
            sender,
            from,
            amount,
            memo,
        ),
{
    let ghost pre = messages@;
    match state.receiver_hashes.index_of(recipient) {
        Some(i) => {
            let receiver_hash = state.receiver_hashes.entries[i].value.clone();
            messages.push(
                OutMsg::ReceiverCallback {
                    receiver: recipient.clone(),
                    receiver_hash,
                    sender,
                    from,
                    amount,
                    memo,
                    msg,
                },
            );
            proof {
                assert(messages@ =~= pre + receiver_callback_msgs(
                    *state,
                    *recipient,
                    msg,
                    sender,
                    from,
                    amount,
                    memo,
                ));
            }
        },
        None => {
            proof {
                assert(messages@ =~= pre + Seq::<OutMsg<HookMsg>>::empty());
            }
        },
    }
}

/// Send: a transfer followed by the recipient's receive hook, when the
/// recipient registered one.
pub fn try_send(
    state: &mut State,
    env: &Env,
    recipient: &String,
    amount: u128,
    memo: Option<String>,
    msg: Option<Vec<u8>>,
) -> (r: Result<Response<HookMsg, HandleAnswer>, Error>)
    requires
        old(state).wf(),
        old(state).history.txs@.len() < u64::MAX,
    ensures
        final(state).wf(),
        *final(state) == (State {
            balances: final(state).balances,
            history: final(state).history,
            ..*old(state)
        }),
        r is Ok <==> old(state).balance_of(env.message_sender@) >= amount && (env.message_sender@
            == recipient@ || old(state).balance_of(recipient@) + amount <= u128::MAX),
        old(state).balance_of(env.message_sender@) < amount ==> (r matches Err(e) && e == (
        Error::InsufficientFunds {
            balance: old(state).balance_of(env.message_sender@),
            required: amount,
        })),
        r is Err ==> *final(state) == *old(state),
        r is Ok ==> {
            &&& final(state).balance_of(env.message_sender@) == if env.message_sender@
                == recipient@ {
                old(state).balance_of(env.message_sender@)
            } else {
                (old(state).balance_of(env.message_sender@) - amount) as u128
            }
            &&& final(state).balance_of(recipient@) == if env.message_sender@ == recipient@ {
                old(state).balance_of(recipient@)
            } else {
                (old(state).balance_of(recipient@) + amount) as u128
            }
            &&& forall|a: Seq<char>|
                a != env.message_sender@ && a != recipient@ ==> final(state).balance_of(a) == old(
                    state,
                ).balance_of(a)
            &&& final(state).history.txs@ == old(state).history.txs@.push(
                transfer_record(
                    *old(state),
                    env.message_sender,
                    env.message_sender,
                    *recipient,
                    amount,
                    memo,
                    *env,
                ),
            )
            &&& (r->Ok_0).messages@ == receiver_callback_msgs(
                *old(state),
                *recipient,
                msg,
                env.message_sender,
                env.message_sender,
                amount,
                memo,
            )
            &&& (r->Ok_0).data == Some(HandleAnswer::Send { status: ResponseStatus::Success })
        },
{
    let sender = env.message_sender.clone();
    let memo_for_log = match &memo {
        Some(m) => Some(m.clone()),
        None => None,
    };
    match try_transfer_impl(state, env, recipient, amount, memo_for_log) {
        Ok(()) => {},
        Err(e) => {
            return Err(e);
        },
    }
    let mut messages: Vec<OutMsg<HookMsg>> = Vec::new();
    try_add_receiver_api_callback(
        &mut messages,
        state,
        recipient,
        msg,
        sender.clone(),
        sender,
        amount,
        memo,
    );
    Ok(
        Response {
            messages,
            data: Some(HandleAnswer::Send { status: ResponseStatus::Success }),
        },
    )
}

/// RegisterReceive: records the caller's code hash so later sends can call
/// its receive hook.
pub fn try_register_receive(state: &mut State, env: &Env, code_hash: String) -> (r: Result<
    Response<HookMsg, HandleAnswer>,
    Error,
>)
    requires
        old(state).receiver_hashes.wf(),
    ensures
        *final(state) == (State { receiver_hashes: final(state).receiver_hashes, ..*old(state) }),
        final(state).receiver_hashes.wf(),
        final(state).receiver_hashes.spec_lookup(env.message_sender@) == Some(code_hash),
        forall|a: Seq<char>|
            a != env.message_sender@ ==> final(state).receiver_hashes.spec_lookup(a) == old(
                state,
            ).receiver_hashes.spec_lookup(a),
        r matches Ok(resp) && resp.messages@.len() == 0 && resp.data == Some(
            HandleAnswer::RegisterReceive { status: ResponseStatus::Success },
        ),
{
    let _ = state.receiver_hashes.insert(env.message_sender.clone(), code_hash);
    Ok(
        Response {
            messages: Vec::new(),
            data: Some(HandleAnswer::RegisterReceive { status: ResponseStatus::Success }),
        },
    )
}

/// SetViewingKey: stores the caller-supplied key literally.
pub fn try_set_key(state: &mut State, env: &Env, key: String) -> (r: Result<
    Response<HookMsg, HandleAnswer>,
    Error,
>)
    requires
        old(state).viewing_keys.wf(),
    ensures
        *final(state) == (State { viewing_keys: final(state).viewing_keys, ..*old(state) }),
        final(state).viewing_keys.wf(),
        final(state).viewing_keys.spec_lookup(env.message_sender@) == Some(key),
        forall|a: Seq<char>|
            a != env.message_sender@ ==> final(state).viewing_keys.spec_lookup(a) == old(
                state,
            ).viewing_keys.spec_lookup(a),
        r matches Ok(resp) && resp.messages@.len() == 0 && resp.data == Some(
            HandleAnswer::SetViewingKey { status: ResponseStatus::Success },
        ),
{
    let _ = state.viewing_keys.insert(env.message_sender.clone(), key);
    Ok(
        Response {
            messages: Vec::new(),
            data: Some(HandleAnswer::SetViewingKey { status: ResponseStatus::Success }),
        },
    )
}

/// CreateViewingKey: stores a key freshly derived by the host's entropy
/// collaborator — from the stored seed, the caller's entropy and block
/// entropy — and answers with that key.
pub fn try_create_key(state: &mut State, env: &Env, derived_key: ViewingKey) -> (r: Result<
    Response<HookMsg, HandleAnswer>,
    Error,
>)
    requires
        old(state).viewing_keys.wf(),
    ensures
        *final(state) == (State { viewing_keys: final(state).viewing_keys, ..*old(state) }),
        final(state).viewing_keys.wf(),
        final(state).viewing_keys.spec_lookup(env.message_sender@) == Some(derived_key.0),
        forall|a: Seq<char>|
            a != env.message_sender@ ==> final(state).viewing_keys.spec_lookup(a) == old(
                state,
            ).viewing_keys.spec_lookup(a),
        r matches Ok(resp) && resp.messages@.len() == 0 && resp.data == Some(
            HandleAnswer::CreateViewingKey { key: derived_key },
        ),
{
    let _ = state.viewing_keys.insert(env.message_sender.clone(), derived_key.0.clone());
    Ok(
        Response {
            messages: Vec::new(),
            data: Some(HandleAnswer::CreateViewingKey { key: derived_key }),
        },
    )
}

/// The error a delegated spend raises when the grant is too small.
pub fn insufficient_allowance(allowance: u128, required: u128) -> (r: Error)
    ensures
        r == (Error::InsufficientAllowance { allowance, required }),
{
    Error::InsufficientAllowance { allowance, required }
}

/// `a + b`, clamped at the top of the 128-bit range.
pub open spec fn saturating_add(a: u128, b: u128) -> u128 {
    if a + b <= u128::MAX {
        (a + b) as u128
    } else {
        u128::MAX
    }
}

/// `a - b`, clamped at zero.
pub open spec fn saturating_sub(a: u128, b: u128) -> u128 {
    if a >= b {
        (a - b) as u128
    } else {
        0
    }
}

/// IncreaseAllowance: raises the caller's grant to `spender`, clamping at
/// the top of the range, and replaces the expiration when a new one is
/// given.
pub fn try_increase_allowance(
    state: &mut State,
    env: &Env,
    spender: String,
    amount: u128,
    expiration: Option<u64>,
) -> (r: Result<Response<HookMsg, HandleAnswer>, Error>)
    requires
        old(state).allowances.wf(),
    ensures
        *final(state) == (State { allowances: final(state).allowances, ..*old(state) }),
        final(state).allowances.wf(),
        final(state).allowance(env.message_sender@, spender@) == (Allowance {
            amount: saturating_add(
                old(state).allowance(env.message_sender@, spender@).amount,
                amount,
            ),
            expiration: if expiration is Some {
                expiration
            } else {
                old(state).allowance(env.message_sender@, spender@).expiration
            },
        }),
        forall|o: Seq<char>, p: Seq<char>|
            !(o == env.message_sender@ && p == spender@) ==> final(state).allowance(o, p) == old(
                state,
            ).allowance(o, p),
        r matches Ok(resp) && resp.messages@.len() == 0 && resp.data == Some(
            HandleAnswer::IncreaseAllowance {
                owner: env.message_sender,
                spender,
                allowance: saturating_add(
                    old(state).allowance(env.message_sender@, spender@).amount,
                    amount,
                ),
            },
        ),
{
    let owner = &env.message_sender;
    let mut allowance = state.allowances.read_allowance(owner, &spender);
    allowance.amount = if amount <= u128::MAX - allowance.amount {
        allowance.amount + amount
    } else {
        u128::MAX
    };
    if expiration.is_some() {
        allowance.expiration = expiration;
    }
    let new_amount = allowance.amount;
    state.allowances.write_allowance(owner, &spender, allowance);
    Ok(
        Response {
            messages: Vec::new(),
            data: Some(
                HandleAnswer::IncreaseAllowance {
                    owner: owner.clone(),
                    spender,
                    allowance: new_amount,
                },
            ),
        },
    )
}

/// DecreaseAllowance: lowers the caller's grant to `spender`, clamping at
/// zero, and replaces the expiration when a new one is given.
pub fn try_decrease_allowance(
    state: &mut State,
    env: &Env,
    spender: String,
    amount: u128,
    expiration: Option<u64>,
) -> (r: Result<Response<HookMsg, HandleAnswer>, Error>)
    requires
        old(state).allowances.wf(),
    ensures
        *final(state) == (State { allowances: final(state).allowances, ..*old(state) }),
        final(state).allowances.wf(),
        final(state).allowance(env.message_sender@, spender@) == (Allowance {
            amount: saturating_sub(
                old(state).allowance(env.message_sender@, spender@).amount,
                amount,
            ),
            expiration: if expiration is Some {
                expiration
            } else {
                old(state).allowance(env.message_sender@, spender@).expiration
            },
        }),
        forall|o: Seq<char>, p: Seq<char>|
            !(o == env.message_sender@ && p == spender@) ==> final(state).allowance(o, p) == old(
                state,
            ).allowance(o, p),
        r matches Ok(resp) && resp.messages@.len() == 0 && resp.data == Some(
            HandleAnswer::DecreaseAllowance {
                owner: env.message_sender,
                spender,
                allowance: saturating_sub(
                    old(state).allowance(env.message_sender@, spender@).amount,
                    amount,
                ),
            },
        ),
{
    let owner = &env.message_sender;
    let mut allowance = state.allowances.read_allowance(owner, &spender);
    allowance.amount = if allowance.amount >= amount {
        allowance.amount - amount
    } else {
        0
    };
    if expiration.is_some() {
        allowance.expiration = expiration;
    }
    let new_amount = allowance.amount;
    state.allowances.write_allowance(owner, &spender, allowance);
    Ok(
        Response {
            messages: Vec::new(),
            data: Some(
                HandleAnswer::DecreaseAllowance {
                    owner: owner.clone(),
                    spender,
                    allowance: new_amount,
                },
            ),
        },
    )
}

/// Spends `amount` of the grant `(owner, caller)`, then moves `amount` from
/// `owner` to `recipient` and logs the transfer.
///
/// The grant's expiration is evaluated first: a spend attempt after expiry
/// resets the grant's amount to zero and fails, whatever the grant held.
/// Every other failure leaves the state unchanged.
pub fn try_transfer_from_impl(
    state: &mut State,
    env: &Env,
    owner: &String,
    recipient: &String,
    amount: u128,
    memo: Option<String>,
) -> (r: Result<(), Error>)
    requires
        old(state).balances.wf(),
        old(state).allowances.wf(),
        old(state).history.txs@.len() < u64::MAX,
    ensures
        final(state).balances.wf(),
        final(state).allowances.wf(),
        *final(state) == (State {
            balances: final(state).balances,
            allowances: final(state).allowances,
            history: final(state).history,
            ..*old(state)
        }),
        ({
            let al = old(state).allowance(owner@, env.message_sender@);
            let expired = al.is_expired_at(env.block_time);
            &&& r is Ok <==> !expired && al.amount >= amount && old(state).balance_of(owner@)
                >= amount && (owner@ == recipient@ || old(state).balance_of(recipient@) + amount
                <= u128::MAX)
            &&& expired ==> {
                &&& r == Err::<(), Error>(
                    Error::InsufficientAllowance { allowance: 0, required: amount },
                )
                &&& final(state).allowance(owner@, env.message_sender@) == (Allowance {
                    amount: 0,
                    expiration: al.expiration,
                })
                &&& forall|o: Seq<char>, p: Seq<char>|
                    !(o == owner@ && p == env.message_sender@) ==> final(state).allowance(o, p)
                        == old(state).allowance(o, p)
                &&& final(state).balances == old(state).balances
                &&& final(state).history == old(state).history
            }
            &&& !expired && al.amount < amount ==> r == Err::<(), Error>(
                Error::InsufficientAllowance { allowance: al.amount, required: amount },
            ) && *final(state) == *old(state)
            &&& !expired && al.amount >= amount && old(state).balance_of(owner@) < amount ==> r
                == Err::<(), Error>(
                Error::InsufficientFunds { balance: old(state).balance_of(owner@), required: amount },
            ) && *final(state) == *old(state)
            &&& !expired && al.amount >= amount && old(state).balance_of(owner@) >= amount && !(
            owner@ == recipient@ || old(state).balance_of(recipient@) + amount <= u128::MAX) ==> r
                == Err::<(), Error>(Error::BalanceOverflow)
            &&& r == Err::<(), Error>(Error::BalanceOverflow) ==> *final(state) == *old(state)
            &&& r is Ok ==> {
                &&& final(state).allowance(owner@, env.message_sender@) == (Allowance {
                    amount: (al.amount - amount) as u128,
                    expiration: al.expiration,
                })
                &&& forall|o: Seq<char>, p: Seq<char>|
                    !(o == owner@ && p == env.message_sender@) ==> final(state).allowance(o, p)
                        == old(state).allowance(o, p)
                &&& final(state).balance_of(owner@) == if owner@ == recipient@ {
                    old(state).balance_of(owner@)
                } else {
                    (old(state).balance_of(owner@) - amount) as u128
                }
                &&& final(state).balance_of(recipient@) == if owner@ == recipient@ {
                    old(state).balance_of(recipient@)
                } else {
                    (old(state).balance_of(recipient@) + amount) as u128
                }
                &&& forall|a: Seq<char>|
                    a != owner@ && a != recipient@ ==> final(state).balance_of(a) == old(
                        state,
                    ).balance_of(a)
                &&& sum_amounts(final(state).balances.entries@) == sum_amounts(
                    old(state).balances.entries@,
                )
                &&& final(state).history.txs@ == old(state).history.txs@.push(
                    transfer_record(
                        *old(state),
                        *owner,
                        env.message_sender,
                        *recipient,
                        amount,
                        memo,
                        *env,
                    ),
                )
            }
        }),
{
    let spender = &env.message_sender;
    let mut allowance = state.allowances.read_allowance(owner, spender);
    let expired = match allowance.expiration {
        Some(ex) => ex < env.block_time,
        None => false,
    };
    if expired {
        allowance.amount = 0;
        state.allowances.write_allowance(owner, spender, allowance);
        return Err(insufficient_allowance(0, amount));
    }
    if allowance.amount < amount {
        return Err(insufficient_allowance(allowance.amount, amount));
    }
    allowance.amount = allowance.amount - amount;
    match perform_transfer(state, owner, recipient, amount) {
        Ok(()) => {},
        Err(e) => {
            return Err(e);
        },
    }
    state.allowances.write_allowance(owner, spender, allowance);
    let symbol = state.constants.symbol.clone();
    state.history.store_transfer(
        owner.clone(),
        spender.clone(),
        recipient.clone(),
        amount,
        symbol,
        memo,
        env.block_height,
        env.block_time,
    );
    Ok(())
}

/// TransferFrom: a delegated transfer spending the grant `(owner, caller)`.
pub fn try_transfer_from(
    state: &mut State,
    env: &Env,
    owner: &String,
    recipient: &String,
    amount: u128,
    memo: Option<String>,
) -> (r: Result<Response<HookMsg, HandleAnswer>, Error>)
    requires
        old(state).wf(),
        old(state).history.txs@.len() < u64::MAX,
    ensures
        final(state).wf(),
        *final(state) == (State {
            balances: final(state).balances,
            allowances: final(state).allowances,
            history: final(state).history,
            ..*old(state)
        }),
        ({
            let al = old(state).allowance(owner@, env.message_sender@);
            let expired = al.is_expired_at(env.block_time);
            &&& r is Ok <==> !expired && al.amount >= amount && old(state).balance_of(owner@)
                >= amount && (owner@ == recipient@ || old(state).balance_of(recipient@) + amount
                <= u128::MAX)
            &&& expired ==> (r matches Err(e) && e == (Error::InsufficientAllowance {
                allowance: 0,
                required: amount,
            })) && final(state).allowance(owner@, env.message_sender@) == (Allowance {
                amount: 0,
                expiration: al.expiration,
            }) && final(state).balances == old(state).balances && final(state).history == old(
                state,
            ).history
            &&& !expired && al.amount < amount ==> (r matches Err(e) && e == (
            Error::InsufficientAllowance { allowance: al.amount, required: amount }))
                && *final(state) == *old(state)
            &&& r is Ok ==> {
                &&& final(state).allowance(owner@, env.message_sender@) == (Allowance {
                    amount: (al.amount - amount) as u128,
                    expiration: al.expiration,
                })
                &&& final(state).balance_of(owner@) == if owner@ == recipient@ {
                    old(state).balance_of(owner@)
                } else {
                    (old(state).balance_of(owner@) - amount) as u128
                }
                &&& final(state).balance_of(recipient@) == if owner@ == recipient@ {
                    old(state).balance_of(recipient@)
                } else {
                    (old(state).balance_of(recipient@) + amount) as u128
                }
                &&& forall|a: Seq<char>|
                    a != owner@ && a != recipient@ ==> final(state).balance_of(a) == old(
                        state,
                    ).balance_of(a)
                &&& final(state).total_supply == old(state).total_supply
                &&& final(state).history.txs@ == old(state).history.txs@.push(
                    transfer_record(
                        *old(state),
                        *owner,
                        env.message_sender,
                        *recipient,
                        amount,
                        memo,
                        *env,
                    ),
                )
                &&& (r->Ok_0).messages@.len() == 0
                &&& (r->Ok_0).data == Some(
                    HandleAnswer::TransferFrom { status: ResponseStatus::Success },
                )
            }
        }),
{
    match try_transfer_from_impl(state, env, owner, recipient, amount, memo) {
        Ok(()) => {},
        Err(e) => {
            return Err(e);
        },
    }
    Ok(
        Response {
            messages: Vec::new(),
            data: Some(HandleAnswer::TransferFrom { status: ResponseStatus::Success }),
        },
    )
}

/// SendFrom: a delegated transfer followed by the recipient's receive hook,
/// when the recipient registered one.
pub fn try_send_from(
    state: &mut State,
    env: &Env,
    owner: &String,
    recipient: &String,
    amount: u128,
    memo: Option<String>,
    msg: Option<Vec<u8>>,
) -> (r: Result<Response<HookMsg, HandleAnswer>, Error>)
    requires
        old(state).wf(),
        old(state).history.txs@.len() < u64::MAX,
    ensures
        final(state).wf(),
        *final(state) == (State {
            balances: final(state).balances,
            allowances: final(state).allowances,
            history: final(state).history,
            ..*old(state)
        }),
        ({
            let al = old(state).allowance(owner@, env.message_sender@);
            let expired = al.is_expired_at(env.block_time);
            &&& r is Ok <==> !expired && al.amount >= amount && old(state).balance_of(owner@)
                >= amount && (owner@ == recipient@ || old(state).balance_of(recipient@) + amount
                <= u128::MAX)
            &&& r is Err && !expired ==> final(state).allowances == old(state).allowances
            &&& expired ==> (r matches Err(e) && e == (Error::InsufficientAllowance {
                allowance: 0,
                required: amount,
            })) && final(state).allowance(owner@, env.message_sender@) == (Allowance {
                amount: 0,
                expiration: al.expiration,
            }) && final(state).balances == old(state).balances && final(state).history == old(
                state,
            ).history
            &&& r is Ok ==> {
                &&& final(state).allowance(owner@, env.message_sender@) == (Allowance {
                    amount: (al.amount - amount) as u128,
                    expiration: al.expiration,
                })
                &&& final(state).balance_of(owner@) == if owner@ == recipient@ {
                    old(state).balance_of(owner@)
                } else {
                    (old(state).balance_of(owner@) - amount) as u128
                }
                &&& final(state).balance_of(recipient@) == if owner@ == recipient@ {
                    old(state).balance_of(recipient@)
                } else {
                    (old(state).balance_of(recipient@) + amount) as u128
                }
                &&& forall|a: Seq<char>|
                    a != owner@ && a != recipient@ ==> final(state).balance_of(a) == old(
                        state,
                    ).balance_of(a)
                &&& final(state).history.txs@ == old(state).history.txs@.push(
                    transfer_record(
                        *old(state),
                        *owner,
                        env.message_sender,
                        *recipient,
                        amount,
                        memo,
                        *env,
                    ),
                )
                &&& (r->Ok_0).messages@ == receiver_callback_msgs(
                    *old(state),
                    *recipient,
                    msg,
                    env.message_sender,
                    *owner,
                    amount,
                    memo,
                )
                &&& (r->Ok_0).data == Some(
                    HandleAnswer::SendFrom { status: ResponseStatus::Success },
                )
            }
        }),
{
    let sender = env.message_sender.clone();
    let from = owner.clone();
    let memo_for_log = match &memo {
        Some(m) => Some(m.clone()),
        None => None,
    };
    match try_transfer_from_impl(state, env, owner, recipient, amount, memo_for_log) {
        Ok(()) => {},
        Err(e) => {
            return Err(e);
        },
    }
    let mut messages: Vec<OutMsg<HookMsg>> = Vec::new();
    try_add_receiver_api_callback(&mut messages, state, recipient, msg, sender, from, amount, memo);
    Ok(
        Response {
            messages,
            data: Some(HandleAnswer::SendFrom { status: ResponseStatus::Success }),
        },
    )
}

/// The messages a settlement emits: the allocation update owed to the
/// master, then, when a deferred action must run strictly after it, the
/// self-addressed callback carrying that action.
pub open spec fn update_allocation_msgs(
    env: Env,
    master: SecretContract,
    hook: Option<HookMsg>,
) -> Seq<OutMsg<HookMsg>> {
    let base = seq![
        OutMsg::<HookMsg>::UpdateAllocation {
            master,
            spy_addr: env.contract_address,
            spy_hash: env.contract_code_hash,
        },
    ];
    match hook {
        Some(cb) => base.push(
            OutMsg::SelfCallback {
                contract_addr: env.contract_address,
                code_hash: env.contract_code_hash,
                msg: cb,
            },
        ),
        None => base,
    }
}

/// Queues the allocation update owed to `master` and, when given, the
/// self-callback that sequences a deferred action after the settlement.
pub fn update_allocation(env: &Env, master: SecretContract, self_callback: Option<HookMsg>) -> (r:
    Response<HookMsg, HandleAnswer>)
    ensures
        r.messages@ == update_allocation_msgs(*env, master, self_callback),
        r.data is None,
{
    let mut messages: Vec<OutMsg<HookMsg>> = Vec::new();
    messages.push(
        OutMsg::UpdateAllocation {
            master,
            spy_addr: env.contract_address.clone(),
            spy_hash: env.contract_code_hash.clone(),
        },
    );
    match self_callback {
        Some(cb) => {
            messages.push(
                OutMsg::SelfCallback {
                    contract_addr: env.contract_address.clone(),
                    code_hash: env.contract_code_hash.clone(),
                    msg: cb,
                },
            );
        },
        None => {},
    }
    Response { messages, data: None }
}

/// Burn: queues the settlement and the self-callback that performs the burn
/// strictly after it; the ledger itself is untouched until the callback.
pub fn try_burn(state: &State, env: &Env, amount: u128, memo: Option<String>) -> (r: Result<
    Response<HookMsg, HandleAnswer>,
    Error,
>)
    ensures
        r matches Ok(resp) && resp.messages@ == update_allocation_msgs(
            *env,
            state.master,
            Some(HookMsg::Burn { owner: env.message_sender, amount, memo }),
        ) && resp.data is None,
{
    let master = state.master.clone_ref();
    let sender = env.message_sender.clone();
    Ok(update_allocation(env, master, Some(HookMsg::Burn { owner: sender, amount, memo })))
}

/// BurnFrom: spends the grant `(owner, caller)` now, then queues the
/// settlement and the self-callback that burns `owner`'s tokens after it.
pub fn try_burn_from(
    state: &mut State,
    env: &Env,
    owner: &String,
    amount: u128,
    memo: Option<String>,
) -> (r: Result<Response<HookMsg, HandleAnswer>, Error>)
    requires
        old(state).allowances.wf(),
    ensures
        final(state).allowances.wf(),
        *final(state) == (State { allowances: final(state).allowances, ..*old(state) }),
        ({
            let al = old(state).allowance(owner@, env.message_sender@);
            let expired = al.is_expired_at(env.block_time);
            &&& r is Ok <==> !expired && al.amount >= amount
            &&& expired ==> (r matches Err(e) && e == (Error::InsufficientAllowance {
                allowance: 0,
                required: amount,
            })) && final(state).allowance(owner@, env.message_sender@) == (Allowance {
                amount: 0,
                expiration: al.expiration,
            })
            &&& !expired && al.amount < amount ==> (r matches Err(e) && e == (
            Error::InsufficientAllowance { allowance: al.amount, required: amount }))
                && *final(state) == *old(state)
            &&& forall|o: Seq<char>, p: Seq<char>|
                !(o == owner@ && p == env.message_sender@) ==> final(state).allowance(o, p) == old(
                    state,
                ).allowance(o, p)
            &&& r is Ok ==> {
                &&& final(state).allowance(owner@, env.message_sender@) == (Allowance {
                    amount: (al.amount - amount) as u128,
                    expiration: al.expiration,
                })
                &&& (r->Ok_0).messages@ == update_allocation_msgs(
                    *env,
                    old(state).master,
                    Some(HookMsg::Burn { owner: *owner, amount, memo }),
                )
                &&& (r->Ok_0).data is None
            }
        }),
{
    let spender = &env.message_sender;
    let mut allowance = state.allowances.read_allowance(owner, spender);
    let expired = match allowance.expiration {
        Some(ex) => ex < env.block_time,
        None => false,
    };
    if expired {
        allowance.amount = 0;
        state.allowances.write_allowance(owner, spender, allowance);
        return Err(insufficient_allowance(0, amount));
    }
    if allowance.amount < amount {
        return Err(insufficient_allowance(allowance.amount, amount));
    }
    allowance.amount = allowance.amount - amount;
    state.allowances.write_allowance(owner, spender, allowance);
    let master = state.master.clone_ref();
    Ok(
        update_allocation(
            env,
            master,
            Some(HookMsg::Burn { owner: owner.clone(), amount, memo }),
        ),
    )
}

/// The reward owed to an account burning `burn_amount` out of a supply of
/// `total_supply`: its proportional share of the accumulated reward pool,
/// rounded down.
pub open spec fn reward_share(burn_amount: u128, reward_balance: u128, total_supply: u128) -> int {
    (burn_amount as int * reward_balance as int) / (total_supply as int)
}

/// Pays a burner its proportional share of the accumulated reward pool,
/// computed against the pre-burn total supply.
pub fn transfer_reward(
    state: &mut State,
    burner: String,
    burn_amount: u128,
    total_supply: u128,
) -> (r: Vec<OutMsg<HookMsg>>)
    requires
        total_supply > 0,
        burn_amount <= total_supply,
        burn_amount as int * old(state).reward_balance as int <= u128::MAX as int,
    ensures
        *final(state) == (State { reward_balance: final(state).reward_balance, ..*old(state) }),
        ({
            let reward = reward_share(burn_amount, old(state).reward_balance, total_supply);
            &&& 0 <= reward <= old(state).reward_balance
            &&& final(state).reward_balance == old(state).reward_balance - reward
            &&& r@ == if reward > 0 {
                seq![
                    OutMsg::<HookMsg>::Snip20Transfer {
                        token: old(state).sefi,
                        recipient: burner,
                        amount: reward as u128,
                    },
                ]
            } else {
                Seq::<OutMsg<HookMsg>>::empty()
            }
        }),
{
    let reward_balance = state.reward_balance;
    let prod = burn_amount * reward_balance;
    let reward = prod / total_supply;
    proof {
        vstd::arithmetic::div_mod::lemma_div_pos_is_pos(prod as int, total_supply as int);
        assert(burn_amount as int * reward_balance as int <= total_supply as int
            * reward_balance as int) by (nonlinear_arith)
            requires
                burn_amount <= total_supply,
                reward_balance >= 0,
        ;
        vstd::arithmetic::div_mod::lemma_div_is_ordered(
            burn_amount as int * reward_balance as int,
            total_supply as int * reward_balance as int,
            total_supply as int,
        );
        vstd::arithmetic::div_mod::lemma_div_multiples_vanish(
            reward_balance as int,
            total_supply as int,
        );
    }
    if reward > 0 {
        let new_balance = reward_balance - reward;
        state.reward_balance = new_balance;
        let sefi = state.sefi.clone_ref();
        let mut msgs: Vec<OutMsg<HookMsg>> = Vec::new();
        msgs.push(OutMsg::Snip20Transfer { token: sefi, recipient: burner, amount: reward });
        msgs
    } else {
        Vec::new()
    }
}

/// The history record a finalised burn appends.
pub open spec fn burn_record(
    state: State,
    burner: String,
    amount: u128,
    memo: Option<String>,
    env: Env,
) -> RichTx {
    RichTx {
        id: state.history.txs@.len() as u64,
        action: TxAction::Burn { burner, owner: burner },
        amount,
        symbol: state.constants.symbol,
        memo,
        block_time: env.block_time,
        block_height: env.block_height,
    }
}

/// The deferred half of a burn, reached only through the self-callback, so
/// the reward pool is settled when it runs: debits the burner, pays the
/// burner its reward share against the pre-burn supply, lowers the supply,
/// and logs the burn.
pub fn burn_hook(
    state: &mut State,
    env: &Env,
    burner: String,
    amount: u128,
    memo: Option<String>,
) -> (r: Result<Response<HookMsg, HandleAnswer>, Error>)
    requires
        old(state).wf(),
        old(state).history.txs@.len() < u64::MAX,
        old(state).balance_of(burner@) >= amount ==> amount as int * old(
            state,
        ).reward_balance as int <= u128::MAX as int,
        amount > 0 || old(state).total_supply > 0,
    ensures
        final(state).wf(),
        *final(state) == (State {
            balances: final(state).balances,
            total_supply: final(state).total_supply,
            reward_balance: final(state).reward_balance,
            history: final(state).history,
            ..*old(state)
        }),
        r is Ok <==> old(state).balance_of(burner@) >= amount,
        old(state).balance_of(burner@) < amount ==> (r matches Err(e) && e == (
        Error::InsufficientFunds { balance: old(state).balance_of(burner@), required: amount }))
            && *final(state) == *old(state),
        r is Ok ==> ({
            let reward = reward_share(amount, old(state).reward_balance, old(state).total_supply);
            &&& final(state).balance_of(burner@) == (old(state).balance_of(burner@)
                - amount) as u128
            &&& forall|a: Seq<char>|
                a != burner@ ==> final(state).balance_of(a) == old(state).balance_of(a)
            &&& final(state).total_supply == (old(state).total_supply - amount) as u128
            &&& final(state).reward_balance == old(state).reward_balance - reward
            &&& (r->Ok_0).messages@ == (if reward > 0 {
                seq![
                    OutMsg::<HookMsg>::Snip20Transfer {
                        token: old(state).sefi,
                        recipient: burner,
                        amount: reward as u128,
                    },
                ]
            } else {
                Seq::<OutMsg<HookMsg>>::empty()
            })
            &&& (r->Ok_0).data == Some(HandleAnswer::Burn { status: ResponseStatus::Success })
            &&& final(state).history.txs@ == old(state).history.txs@.push(
                burn_record(*old(state), burner, amount, memo, *env),
            )
        }),
{
    let balance = state.balance(&burner);
    if balance < amount {
        return Err(Error::InsufficientFunds { balance, required: amount });
    }
    proof {
        lemma_lookup_le_sum(state.balances.entries@, burner@);
    }
    state.set_account_balance(&burner, balance - amount);
    let total_supply = state.total_supply;
    let messages = transfer_reward(state, burner.clone(), amount, total_supply);
    state.total_supply = total_supply - amount;
    let symbol = state.constants.symbol.clone();
    state.history.store_burn(
        burner.clone(),
        burner,
        amount,
        symbol,
        memo,
        env.block_height,
        env.block_time,
    );
    Ok(
        Response {
            messages,
            data: Some(HandleAnswer::Burn { status: ResponseStatus::Success }),
        },
    )
}

/// Whether a NotifyAllocation caller may credit the reward pool: only the
/// registered master or the admin.
pub open spec fn may_notify(state: State, sender: Seq<char>) -> bool {
    sender == state.master.address@ || state.spec_is_admin(sender)
}

/// NotifyAllocation: credits the reward pool with a newly settled amount.
pub fn notify_allocation(state: &mut State, env: &Env, amount: u128) -> (r: Result<
    Response<HookMsg, HandleAnswer>,
    Error,
>)
    requires
        may_notify(*old(state), env.message_sender@) ==> old(state).reward_balance + amount
            <= u128::MAX,
    ensures
        *final(state) == (State { reward_balance: final(state).reward_balance, ..*old(state) }),
        !may_notify(*old(state), env.message_sender@) ==> (r matches Err(e) && e
            == Error::Unauthorized) && *final(state) == *old(state),
        may_notify(*old(state), env.message_sender@) ==> {
            &&& final(state).reward_balance == old(state).reward_balance + amount
            &&& r matches Ok(resp) && resp.messages@.len() == 0 && resp.data is None
        },
{
    if !env.message_sender.eq(&state.master.address) && !is_admin(state, &env.message_sender) {
        return Err(Error::Unauthorized);
    }
    state.reward_balance = state.reward_balance + amount;
    Ok(Response { messages: Vec::new(), data: None })
}

/// SelfCallback: admits a deferred action only when the call originates
/// from the contract's own address — only the contract can author such a
/// message, which is the sole admission check the pattern needs — and then
/// runs the action against reward-settled state.
pub fn self_callback(state: &mut State, env: &Env, message: HookMsg) -> (r: Result<
    Response<HookMsg, HandleAnswer>,
    Error,
>)
    requires
        old(state).wf(),
        old(state).history.txs@.len() < u64::MAX,
        env.message_sender@ == env.contract_address@ ==> (match message {
            HookMsg::Burn { owner, amount, .. } => (old(state).balance_of(owner@) >= amount
                ==> amount as int * old(state).reward_balance as int <= u128::MAX as int) && (amount
                > 0 || old(state).total_supply > 0),
        }),
    ensures
        final(state).wf(),
        env.message_sender@ != env.contract_address@ ==> (r matches Err(e) && e
            == Error::Unauthorized) && *final(state) == *old(state),
        env.message_sender@ == env.contract_address@ ==> (match message {
            HookMsg::Burn { owner, amount, memo } => {
                &&& r is Ok <==> old(state).balance_of(owner@) >= amount
                &&& old(state).balance_of(owner@) < amount ==> (r matches Err(e) && e == (
                Error::InsufficientFunds {
                    balance: old(state).balance_of(owner@),
                    required: amount,
                }))
                &&& r is Err ==> *final(state) == *old(state)
                &&& r is Ok ==> ({
                    let reward = reward_share(
                        amount,
                        old(state).reward_balance,
                        old(state).total_supply,
                    );
                    &&& final(state).balance_of(owner@) == (old(state).balance_of(owner@)
                        - amount) as u128
                    &&& forall|a: Seq<char>|
                        a != owner@ ==> final(state).balance_of(a) == old(state).balance_of(a)
                    &&& final(state).total_supply == (old(state).total_supply - amount) as u128
                    &&& final(state).reward_balance == old(state).reward_balance - reward
                    &&& (r->Ok_0).messages@ == (if reward > 0 {
                        seq![
                            OutMsg::<HookMsg>::Snip20Transfer {
                                token: old(state).sefi,
                                recipient: owner,
                                amount: reward as u128,
                            },
                        ]
                    } else {
                        Seq::<OutMsg<HookMsg>>::empty()
                    })
                    &&& (r->Ok_0).data == Some(
                        HandleAnswer::Burn { status: ResponseStatus::Success },
                    )
                    &&& final(state).history.txs@ == old(state).history.txs@.push(
                        burn_record(*old(state), owner, amount, memo, *env),
                    )
                })
            },
        }),
{
    if !env.message_sender.eq(&env.contract_address) {
        return Err(Error::Unauthorized);
    }
    match message {
        HookMsg::Burn { owner, amount, memo } => burn_hook(state, env, owner, amount, memo),
    }
}

/// The history record a mint appends.
pub open spec fn mint_record(
    state: State,
    minter: String,
    recipient: String,
    amount: u128,
    memo: Option<String>,
    env: Env,
) -> RichTx {
    RichTx {
        id: state.history.txs@.len() as u64,
        action: TxAction::Mint { minter, recipient },
        amount,
        symbol: state.constants.symbol,
        memo,
        block_time: env.block_time,
        block_height: env.block_height,
    }
}

/// Mint: creates `amount` new tokens for `address`.  Only minters may mint;
/// a mint that would push the supply past the 128-bit range fails, and the
/// recipient's balance cannot overflow while the balances sum to the
/// supply, though it is checked, never assumed.
pub fn try_mint(
    state: &mut State,
    env: &Env,
    address: String,
    amount: u128,
    memo: Option<String>,
) -> (r: Result<Response<HookMsg, HandleAnswer>, Error>)
    requires
        old(state).wf(),
        old(state).history.txs@.len() < u64::MAX,
    ensures
        final(state).wf(),
        *final(state) == (State {
            total_supply: final(state).total_supply,
            balances: final(state).balances,
            history: final(state).history,
            ..*old(state)
        }),
        r is Ok <==> old(state).spec_is_minter(env.message_sender@) && old(state).total_supply
            + amount <= u128::MAX,
        !old(state).spec_is_minter(env.message_sender@) ==> (r matches Err(e) && e
            == Error::Unauthorized) && *final(state) == *old(state),
        old(state).spec_is_minter(env.message_sender@) && old(state).total_supply + amount
            > u128::MAX ==> (r matches Err(e) && e == Error::SupplyOverflow) && *final(state)
            == *old(state),
        r is Ok ==> {
            &&& final(state).total_supply == old(state).total_supply + amount
            &&& final(state).balance_of(address@) == old(state).balance_of(address@) + amount
            &&& forall|a: Seq<char>|
                a != address@ ==> final(state).balance_of(a) == old(state).balance_of(a)
            &&& final(state).history.txs@ == old(state).history.txs@.push(
                mint_record(*old(state), env.message_sender, address, amount, memo, *env),
            )
            &&& (r->Ok_0).messages@.len() == 0
            &&& (r->Ok_0).data == Some(HandleAnswer::Mint { status: ResponseStatus::Success })
        },
{
    if !state.is_minter(&env.message_sender) {
        return Err(Error::Unauthorized);
    }
    let total_supply = state.total_supply;
    if amount > u128::MAX - total_supply {
        return Err(Error::SupplyOverflow);
    }
    let account_balance = state.balance(&address);
    proof {
        lemma_lookup_le_sum(state.balances.entries@, address@);
    }
    if amount > u128::MAX - account_balance {
        // Unreachable while the balances sum to the supply; kept as a check
        // because the ledger never assumes it.
        return Err(Error::BalanceOverflow);
    }
    state.total_supply = total_supply + amount;
    let ghost pre_set = *state;
    state.set_account_balance(&address, account_balance + amount);
    let ghost post_set = *state;
    proof {
        assert(pre_set.balances == old(state).balances);
        assert forall|a: Seq<char>| a != address@ implies post_set.balance_of(a) == old(
            state,
        ).balance_of(a) by {
            assert(post_set.balance_of(a) == pre_set.balance_of(a));
        }
    }
    let symbol = state.constants.symbol.clone();
    state.history.store_mint(
        env.message_sender.clone(),
        address,
        amount,
        symbol,
        memo,
        env.block_height,
        env.block_time,
    );
    proof {
        assert(state.balances == post_set.balances);
        assert forall|a: Seq<char>| a != address@ implies state.balance_of(a) == old(
            state,
        ).balance_of(a) by {
            assert(state.balance_of(a) == post_set.balance_of(a));
        }
    }
    Ok(
        Response {
            messages: Vec::new(),
            data: Some(HandleAnswer::Mint { status: ResponseStatus::Success }),
        },
    )
}

/// ChangeAdmin: hands the admin role to `address`.
pub fn change_admin(state: &mut State, env: &Env, address: String) -> (r: Result<
    Response<HookMsg, HandleAnswer>,
    Error,
>)
    ensures
        !old(state).spec_is_admin(env.message_sender@) ==> (r matches Err(e) && e
            == Error::Unauthorized) && *final(state) == *old(state),
        old(state).spec_is_admin(env.message_sender@) ==> {
            &&& *final(state) == (State {
                constants: (Constants { admin: address, ..old(state).constants }),
                ..*old(state)
            })
            &&& r matches Ok(resp) && resp.messages@.len() == 0 && resp.data == Some(
                HandleAnswer::ChangeAdmin { status: ResponseStatus::Success },
            )
        },
{
    match check_if_admin(state, &env.message_sender) {
        Ok(()) => {},
        Err(e) => {
            return Err(e);
        },
    }
    state.constants.admin = address;
    Ok(
        Response {
            messages: Vec::new(),
            data: Some(HandleAnswer::ChangeAdmin { status: ResponseStatus::Success }),
        },
    )
}

/// SetContractStatus: the admin-only kill switch; this is the one handler
/// that still runs while the contract is stopped.
pub fn set_contract_status(state: &mut State, env: &Env, status_level: ContractStatusLevel) -> (r:
    Result<Response<HookMsg, HandleAnswer>, Error>)
    ensures
        !old(state).spec_is_admin(env.message_sender@) ==> (r matches Err(e) && e
            == Error::Unauthorized) && *final(state) == *old(state),
        old(state).spec_is_admin(env.message_sender@) ==> {
            &&& *final(state) == (State { contract_status: status_level, ..*old(state) })
            &&& r matches Ok(resp) && resp.messages@.len() == 0 && resp.data == Some(
                HandleAnswer::SetContractStatus { status: ResponseStatus::Success },
            )
        },
{
    match check_if_admin(state, &env.message_sender) {
        Ok(()) => {},
        Err(e) => {
            return Err(e);
        },
    }
    state.contract_status = status_level;
    Ok(
        Response {
            messages: Vec::new(),
            data: Some(HandleAnswer::SetContractStatus { status: ResponseStatus::Success }),
        },
    )
}

/// AddMinters: appends to the minter set.
pub fn add_minters(state: &mut State, env: &Env, minters_to_add: Vec<String>) -> (r: Result<
    Response<HookMsg, HandleAnswer>,
    Error,
>)
    ensures
        !old(state).spec_is_admin(env.message_sender@) ==> (r matches Err(e) && e
            == Error::Unauthorized) && *final(state) == *old(state),
        old(state).spec_is_admin(env.message_sender@) ==> {
            &&& *final(state) == (State { minters: final(state).minters, ..*old(state) })
            &&& final(state).minters@ == old(state).minters@ + minters_to_add@
            &&& r matches Ok(resp) && resp.messages@.len() == 0 && resp.data == Some(
                HandleAnswer::AddMinters { status: ResponseStatus::Success },
            )
        },
{
    match check_if_admin(state, &env.message_sender) {
        Ok(()) => {},
        Err(e) => {
            return Err(e);
        },
    }
    let ghost pre = state.minters@;
    let n = minters_to_add.len();
    for i in 0..n
        invariant
            n == minters_to_add@.len(),
            state.minters@ == pre + minters_to_add@.take(i as int),
            *state == (State { minters: state.minters, ..*old(state) }),
    {
        state.minters.push(minters_to_add[i].clone());
        proof {
            assert(pre + minters_to_add@.take(i + 1) =~= (pre + minters_to_add@.take(i as int)).push(
                minters_to_add@[i as int],
            ));
        }
    }
    proof {
        assert(minters_to_add@.take(n as int) =~= minters_to_add@);
    }
    Ok(
        Response {
            messages: Vec::new(),
            data: Some(HandleAnswer::AddMinters { status: ResponseStatus::Success }),
        },
    )
}

/// RemoveMinters: strikes every listed name from the minter set.
pub fn remove_minters(state: &mut State, env: &Env, minters_to_remove: Vec<String>) -> (r: Result<
    Response<HookMsg, HandleAnswer>,
    Error,
>)
    ensures
        !old(state).spec_is_admin(env.message_sender@) ==> (r matches Err(e) && e
            == Error::Unauthorized) && *final(state) == *old(state),
        old(state).spec_is_admin(env.message_sender@) ==> {
            &&& *final(state) == (State { minters: final(state).minters, ..*old(state) })
            &&& final(state).minters@ == names_removed(old(state).minters@, minters_to_remove@)
            &&& r matches Ok(resp) && resp.messages@.len() == 0 && resp.data == Some(
                HandleAnswer::RemoveMinters { status: ResponseStatus::Success },
            )
        },
{
    match check_if_admin(state, &env.message_sender) {
        Ok(()) => {},
        Err(e) => {
            return Err(e);
        },
    }
    let mut kept: Vec<String> = Vec::new();
    let n = state.minters.len();
    for i in 0..n
        invariant
            n == state.minters@.len(),
            kept@ == names_removed(state.minters@.take(i as int), minters_to_remove@),
            *state == *old(state),
    {
        proof {
            assert(state.minters@.take(i + 1).drop_last() =~= state.minters@.take(i as int));
            assert(state.minters@.take(i + 1).last() == state.minters@[i as int]);
        }
        if !name_in(&minters_to_remove, &state.minters[i]) {
            kept.push(state.minters[i].clone());
        }
    }
    proof {
        assert(state.minters@.take(n as int) =~= state.minters@);
    }
    state.minters = kept;
    Ok(
        Response {
            messages: Vec::new(),
            data: Some(HandleAnswer::RemoveMinters { status: ResponseStatus::Success }),
        },
    )
}

/// SetMinters: replaces the whole minter set atomically.
pub fn set_minters(state: &mut State, env: &Env, minters_to_set: Vec<String>) -> (r: Result<
    Response<HookMsg, HandleAnswer>,
    Error,
>)
    ensures
        !old(state).spec_is_admin(env.message_sender@) ==> (r matches Err(e) && e
            == Error::Unauthorized) && *final(state) == *old(state),
        old(state).spec_is_admin(env.message_sender@) ==> {
            &&& *final(state) == (State { minters: final(state).minters, ..*old(state) })
            &&& final(state).minters@ == minters_to_set@
            &&& r matches Ok(resp) && resp.messages@.len() == 0 && resp.data == Some(
                HandleAnswer::SetMinters { status: ResponseStatus::Success },
            )
        },
{
    match check_if_admin(state, &env.message_sender) {
        Ok(()) => {},
        Err(e) => {
            return Err(e);
        },
    }
    state.minters = minters_to_set;
    Ok(
        Response {
            messages: Vec::new(),
            data: Some(HandleAnswer::SetMinters { status: ResponseStatus::Success }),
        },
    )
}

/// SetSefi: points the contract at another reward-token contract.
pub fn set_sefi(state: &mut State, env: &Env, address: String, hash: String) -> (r: Result<
    Response<HookMsg, HandleAnswer>,
    Error,
>)
    ensures
        !old(state).spec_is_admin(env.message_sender@) ==> (r matches Err(e) && e
            == Error::Unauthorized) && *final(state) == *old(state),
        old(state).spec_is_admin(env.message_sender@) ==> {
            &&& *final(state) == (State {
                sefi: (SecretContract { address, contract_hash: hash }),
                ..*old(state)
            })
            &&& r matches Ok(resp) && resp.messages@.len() == 0 && resp.data == Some(
                HandleAnswer::SetSefi { status: ResponseStatus::Success },
            )
        },
{
    match check_if_admin(state, &env.message_sender) {
        Ok(()) => {},
        Err(e) => {
            return Err(e);
        },
    }
    state.sefi = SecretContract { address, contract_hash: hash };
    Ok(
        Response {
            messages: Vec::new(),
            data: Some(HandleAnswer::SetSefi { status: ResponseStatus::Success }),
        },
    )
}

/// SetMaster: points the contract at another master aggregator.
pub fn set_master(state: &mut State, env: &Env, address: String, hash: String) -> (r: Result<
    Response<HookMsg, HandleAnswer>,
    Error,
>)
    ensures
        !old(state).spec_is_admin(env.message_sender@) ==> (r matches Err(e) && e
            == Error::Unauthorized) && *final(state) == *old(state),
        old(state).spec_is_admin(env.message_sender@) ==> {
            &&& *final(state) == (State {
                master: (SecretContract { address, contract_hash: hash }),
                ..*old(state)
            })
            &&& r matches Ok(resp) && resp.messages@.len() == 0 && resp.data == Some(
                HandleAnswer::SetMaster { status: ResponseStatus::Success },
            )
        },
{
    match check_if_admin(state, &env.message_sender) {
        Ok(()) => {},
        Err(e) => {
            return Err(e);
        },
    }
    state.master = SecretContract { address, contract_hash: hash };
    Ok(
        Response {
            messages: Vec::new(),
            data: Some(HandleAnswer::SetMaster { status: ResponseStatus::Success }),
        },
    )
}

/// The sum of the configured initial balances.
pub open spec fn initial_supply(s: Seq<InitialBalance>) -> int
    decreases s.len(),
{
    if s.len() == 0 {
        0
    } else {
        initial_supply(s.drop_last()) + s.last().amount
    }
}

/// The balance the configured list leaves `a` with; a later entry for the
/// same address overwrites an earlier one, as the store does.
pub open spec fn initial_balance_of(s: Seq<InitialBalance>, a: Seq<char>) -> u128
    decreases s.len(),
{
    if s.len() == 0 {
        0
    } else if s.last().address@ == a {
        s.last().amount
    } else {
        initial_balance_of(s.drop_last(), a)
    }
}

pub open spec fn distinct_addresses(s: Seq<InitialBalance>) -> bool {
    forall|i: int, j: int| 0 <= i < j < s.len() ==> s[i].address@ != s[j].address@
}

pub proof fn lemma_initial_supply_nonneg(s: Seq<InitialBalance>)
    ensures
        initial_supply(s) >= 0,
    decreases s.len(),
{
    if s.len() > 0 {
        lemma_initial_supply_nonneg(s.drop_last());
    }
}

/// A prefix of the list sums to no more than the whole list.
pub proof fn lemma_initial_supply_prefix(s: Seq<InitialBalance>, i: int)
    requires
        0 <= i <= s.len(),
    ensures
        initial_supply(s.take(i)) <= initial_supply(s),
    decreases s.len(),
{
    if i < s.len() {
        assert(s.take(i) =~= s.drop_last().take(i));
        lemma_initial_supply_prefix(s.drop_last(), i);
    } else {
        assert(s.take(i) =~= s);
    }
}

pub proof fn lemma_initial_balance_absent(s: Seq<InitialBalance>, a: Seq<char>)
    requires
        forall|i: int| 0 <= i < s.len() ==> s[i].address@ != a,
    ensures
        initial_balance_of(s, a) == 0,
    decreases s.len(),
{
    if s.len() > 0 {
        lemma_initial_balance_absent(s.drop_last(), a);
    }
}

/// What one record of the initial-balance mint log holds.
pub open spec fn is_init_mint_record(
    t: RichTx,
    admin: String,
    b: InitialBalance,
    id: int,
    env: Env,
) -> bool {
    &&& t.id == id
    &&& t.action == (TxAction::Mint { minter: admin, recipient: b.address })
    &&& t.amount == b.amount
    &&& t.symbol@ == "CSHBK"@
    &&& (t.memo matches Some(m) && m@ == "Initial Balance"@)
    &&& t.block_time == env.block_time
    &&& t.block_height == env.block_height
}

/// Instantiates a token: the caller becomes admin and sole minter, the
/// configured initial balances are credited and logged as mints, and the
/// supply is their sum.  Fails only when that sum leaves the 128-bit range.
pub fn init(env: &Env, msg: InitMsg) -> (r: Result<State, Error>)
    ensures
        ({
            let list = match msg.initial_balances {
                Some(l) => l@,
                None => Seq::<InitialBalance>::empty(),
            };
            &&& r is Ok <==> initial_supply(list) <= u128::MAX
            &&& r is Err ==> r == Err::<State, Error>(Error::SupplyOverflow)
            &&& (r matches Ok(st) ==> {
                &&& st.constants.name@ == "Cashback Token"@
                &&& st.constants.symbol@ == "CSHBK"@
                &&& st.constants.decimals == 6
                &&& st.constants.admin == env.message_sender
                &&& st.constants.prng_seed == msg.prng_seed
                &&& st.constants.total_supply_is_public == true
                &&& st.contract_status == ContractStatusLevel::NormalRun
                &&& st.minters@ == seq![env.message_sender]
                &&& st.total_supply as int == initial_supply(list)
                &&& forall|a: Seq<char>| st.balance_of(a) == initial_balance_of(list, a)
                &&& forall|o: Seq<char>, p: Seq<char>| st.allowance(o, p) == Allowance::zero()
                &&& forall|a: Seq<char>| st.viewing_keys.spec_lookup(a) is None
                &&& forall|a: Seq<char>| st.receiver_hashes.spec_lookup(a) is None
                &&& st.reward_balance == 0
                &&& st.master == msg.master
                &&& st.sefi == msg.sefi
                &&& st.history.txs@.len() == list.len()
                &&& forall|j: int|
                    0 <= j < list.len() ==> is_init_mint_record(
                        st.history.txs@[j],
                        env.message_sender,
                        list[j],
                        j,
                        *env,
                    )
                &&& st.balances.wf()
                &&& st.allowances.wf()
                &&& st.viewing_keys.wf()
                &&& st.receiver_hashes.wf()
                &&& sum_amounts(st.balances.entries@) <= st.total_supply as int
                &&& (distinct_addresses(list) ==> st.wf())
            })
        }),
{
    let ghost target = match &msg.initial_balances {
        Some(l) => l@,
        None => Seq::<InitialBalance>::empty(),
    };
    let InitMsg { initial_balances, prng_seed, master, sefi } = msg;
    let admin = env.message_sender.clone();
    let mut minters: Vec<String> = Vec::new();
    minters.push(admin.clone());
    proof {
        assert(minters@ =~= seq![env.message_sender]);
    }
    let mut st = State {
        constants: Constants {
            name: String::from_str("Cashback Token"),
            symbol: String::from_str("CSHBK"),
            decimals: 6,
            admin: admin.clone(),
            prng_seed,
            total_supply_is_public: true,
        },
        total_supply: 0,
        contract_status: ContractStatusLevel::NormalRun,
        minters,
        balances: KvList::new(),
        allowances: AllowanceTable::new(),
        viewing_keys: KvList::new(),
        receiver_hashes: KvList::new(),
        reward_balance: 0,
        master,
        sefi,
        history: TxLog::new(),
    };
    let list = match initial_balances {
        Some(l) => l,
        None => Vec::new(),
    };
    proof {
        assert(list@ =~= target);
    }
    let ghost lseq = list@;
    let ghost st0 = st;
    let mut total_supply: u128 = 0;
    let n = list.len();
    #[verifier::loop_isolation(false)]
    for i in 0..n
        invariant
            n == lseq.len(),
            st == (State {
                balances: st.balances,
                history: st.history,
                ..st0
            }),
            st.balances.wf(),
            forall|a: Seq<char>| st.balance_of(a) == initial_balance_of(lseq.take(i as int), a),
            total_supply as int == initial_supply(lseq.take(i as int)),
            sum_amounts(st.balances.entries@) <= total_supply as int,
            distinct_addresses(lseq.take(i as int)) ==> sum_amounts(st.balances.entries@)
                == total_supply as int,
            st.history.txs@.len() == i,
            forall|j: int|
                0 <= j < i ==> is_init_mint_record(
                    st.history.txs@[j],
                    env.message_sender,
                    lseq[j],
                    j,
                    *env,
                ),
    {
        proof {
            assert(lseq.take(i + 1).drop_last() =~= lseq.take(i as int));
            assert(lseq.take(i + 1).last() == lseq[i as int]);
        }
        let b = &list[i];
        let amount = b.amount;
        if amount > u128::MAX - total_supply {
            proof {
                lemma_initial_supply_prefix(lseq, i + 1);
            }
            return Err(Error::SupplyOverflow);
        }
        let ghost pre = st;
        let ghost old_here = st.balance_of(b.address@);
        st.set_account_balance(&b.address, amount);
        proof {
            if distinct_addresses(lseq.take(i + 1)) {
                assert forall|j: int| 0 <= j < i implies lseq[j].address@ != lseq[i as int].address@ by {
                    assert(lseq.take(i + 1)[j] == lseq[j]);
                }
                assert forall|j: int| 0 <= j < lseq.take(i as int).len() implies lseq.take(
                    i as int,
                )[j].address@ != lseq[i as int].address@ by {}
                lemma_initial_balance_absent(lseq.take(i as int), lseq[i as int].address@);
                assert(old_here == 0);
            }
        }
        total_supply = total_supply + amount;
        let ghost post_set = st;
        st.history.store_mint(
            admin.clone(),
            b.address.clone(),
            amount,
            String::from_str("CSHBK"),
            Some(String::from_str("Initial Balance")),
            env.block_height,
            env.block_time,
        );
        proof {
            assert(st.balances == post_set.balances);
            assert forall|a: Seq<char>| st.balance_of(a) == initial_balance_of(
                lseq.take(i + 1),
                a,
            ) by {
                assert(st.balance_of(a) == post_set.balance_of(a));
                if a != lseq[i as int].address@ {
                    assert(post_set.balance_of(a) == pre.balance_of(a));
                }
            }
            assert forall|j: int| 0 <= j < i + 1 implies is_init_mint_record(
                st.history.txs@[j],
                env.message_sender,
                lseq[j],
                j,
                *env,
            ) by {
                if j < i {
                    assert(st.history.txs@[j] == post_set.history.txs@[j]);
                    assert(is_init_mint_record(
                        post_set.history.txs@[j],
                        env.message_sender,
                        lseq[j],
                        j,
                        *env,
                    ));
                }
            }
        }
    }
    proof {
        assert(lseq.take(n as int) =~= lseq);
    }
    let ghost before_supply = st;
    st.total_supply = total_supply;
    proof {
        assert(st.balances == before_supply.balances);
        assert forall|a: Seq<char>| st.balance_of(a) == initial_balance_of(lseq, a) by {
            assert(st.balance_of(a) == before_supply.balance_of(a));
        }
    }
    Ok(st)
}

/// The TokenInfo answer: fixed token metadata, and the supply only when the
/// instance makes it public.
pub open spec fn token_info_answer(state: State) -> QueryAnswer {
    QueryAnswer::TokenInfo {
        name: state.constants.name,
        symbol: state.constants.symbol,
        decimals: state.constants.decimals,
        total_supply: if state.constants.total_supply_is_public {
            Some(state.total_supply)
        } else {
            None
        },
    }
}

fn clone_names(v: &Vec<String>) -> (r: Vec<String>)
    ensures
        r@ == v@,
{
    let mut out: Vec<String> = Vec::new();
    let n = v.len();
    for i in 0..n
        invariant
            n == v@.len(),
            out@ == v@.take(i as int),
    {
        out.push(v[i].clone());
        proof {
            assert(v@.take(i + 1) =~= v@.take(i as int).push(v@[i as int]));
        }
    }
    proof {
        assert(v@.take(n as int) =~= v@);
    }
    out
}

/// TokenInfo: the token's name, symbol and decimals, and the total supply
/// when public.
pub fn query_token_info(state: &State) -> (r: QueryAnswer)
    ensures
        r == token_info_answer(*state),
{
    let total_supply = if state.constants.total_supply_is_public {
        Some(state.total_supply)
    } else {
        None
    };
    QueryAnswer::TokenInfo {
        name: state.constants.name.clone(),
        symbol: state.constants.symbol.clone(),
        decimals: state.constants.decimals,
        total_supply,
    }
}

/// Minters: the current minter set.
pub fn query_minters(state: &State) -> (r: QueryAnswer)
    ensures
        (r matches QueryAnswer::Minters { minters } && minters@ == state.minters@),
{
    QueryAnswer::Minters { minters: clone_names(&state.minters) }
}

/// RewardBalance: the accumulated reward pool; an unset pool reads zero.
pub fn query_reward_balance(state: &State) -> (r: QueryAnswer)
    ensures
        r == (QueryAnswer::RewardBalance { balance: state.reward_balance }),
{
    QueryAnswer::RewardBalance { balance: state.reward_balance }
}

/// Balance: the queried account's balance; an absent account reads zero.
pub fn query_balance(state: &State, account: &String) -> (r: QueryAnswer)
    requires
        state.balances.wf(),
    ensures
        r == (QueryAnswer::Balance { amount: state.balance_of(account@) }),
{
    QueryAnswer::Balance { amount: state.balance(account) }
}

/// TransferHistory: one page of the account's transfers, most recent first,
/// with the total count.
pub fn query_transfers(state: &State, account: &String, page: u32, page_size: u32) -> (r:
    QueryAnswer)
    requires
        state.history.txs@.len() <= u64::MAX,
    ensures
        (r matches QueryAnswer::TransferHistory { txs, total } && {
            &&& txs@ == crate::cashback::transaction_history::page_of(
                crate::cashback::transaction_history::transfers_of(state.history.txs@, account@),
                page as int,
                page_size as int,
            ).map_values(
                |t: RichTx| crate::cashback::transaction_history::as_transfer_tx(t),
            )
            &&& total == Some(
                crate::cashback::transaction_history::transfers_of(
                    state.history.txs@,
                    account@,
                ).len() as u64,
            )
        }),
{
    let (txs, total) = state.history.get_transfers(account, page, page_size);
    QueryAnswer::TransferHistory { txs, total: Some(total) }
}

/// TransactionHistory: one page of all the account's records, most recent
/// first, with the total count.
pub fn query_transactions(state: &State, account: &String, page: u32, page_size: u32) -> (r:
    QueryAnswer)
    requires
        state.history.txs@.len() <= u64::MAX,
    ensures
        (r matches QueryAnswer::TransactionHistory { txs, total } && {
            &&& txs@ == crate::cashback::transaction_history::page_of(
                crate::cashback::transaction_history::txs_of(state.history.txs@, account@),
                page as int,
                page_size as int,
            )
            &&& total == Some(
                crate::cashback::transaction_history::txs_of(
                    state.history.txs@,
                    account@,
                ).len() as u64,
            )
        }),
{
    let (txs, total) = state.history.get_txs(account, page, page_size);
    QueryAnswer::TransactionHistory { txs, total: Some(total) }
}

/// Allowance: the grant `(owner, spender)` with its expiration.
pub fn try_check_allowance(state: &State, owner: String, spender: String) -> (r: QueryAnswer)
    requires
        state.allowances.wf(),
    ensures
        r == (QueryAnswer::Allowance {
            owner,
            spender,
            allowance: state.allowance(owner@, spender@).amount,
            expiration: state.allowance(owner@, spender@).expiration,
        }),
{
    let allowance = state.allowances.read_allowance(&owner, &spender);
    QueryAnswer::Allowance {
        owner,
        spender,
        allowance: allowance.amount,
        expiration: allowance.expiration,
    }
}

/// Whether the key stored for `addr` reads `key`.
pub open spec fn key_matches(state: State, addr: Seq<char>, key: Seq<char>) -> bool {
    match state.viewing_keys.spec_lookup(addr) {
        Some(k) => k@ == key,
        None => false,
    }
}

/// Whether the key a query offers authenticates one of the addresses it
/// names.
pub open spec fn query_authorized(state: State, msg: QueryMsg) -> bool {
    exists|i: int|
        0 <= i < validation_addresses(msg).len() && key_matches(
            state,
            validation_addresses(msg)[i]@,
            validation_key(msg),
        )
}

/// The one generic failure answer: it does not say whether the key was
/// wrong or never set.
pub open spec fn is_viewing_key_error(r: QueryAnswer) -> bool {
    r matches QueryAnswer::ViewingKeyError { msg } && msg@
        == "Wrong viewing key for this address or viewing key not set"@
}

/// Failed authentications are indistinguishable: whatever made two queries
/// fail — an account with no stored key, or a stored key the query did not
/// match — the two answers read the same, so a caller cannot tell the
/// cases apart.
pub proof fn lemma_viewing_key_failures_indistinguishable(a: QueryAnswer, b: QueryAnswer)
    requires
        is_viewing_key_error(a),
        is_viewing_key_error(b),
    ensures
        a matches QueryAnswer::ViewingKeyError { msg: m1 } && (b matches
            QueryAnswer::ViewingKeyError { msg: m2 } && m1@ == m2@),
{
}

fn authorized_answer(state: &State, msg: &QueryMsg) -> (r: QueryAnswer)
    requires
        msg.requires_auth(),
        state.balances.wf(),
        state.allowances.wf(),
        state.history.txs@.len() <= u64::MAX,
    ensures
        (match *msg {
            QueryMsg::Balance { address, .. } => r == (QueryAnswer::Balance {
                amount: state.balance_of(address@),
            }),
            QueryMsg::Allowance { owner, spender, .. } => r == (QueryAnswer::Allowance {
                owner,
                spender,
                allowance: state.allowance(owner@, spender@).amount,
                expiration: state.allowance(owner@, spender@).expiration,
            }),
            QueryMsg::TransferHistory { address, page, page_size, .. } => (r matches
                QueryAnswer::TransferHistory { txs, total } && {
                    &&& txs@ == crate::cashback::transaction_history::page_of(
                        crate::cashback::transaction_history::transfers_of(
                            state.history.txs@,
                            address@,
                        ),
                        (match page {
                            Some(p) => p
                            ,
                            None => 0,
                        }) as int,
                        page_size as int,
                    ).map_values(
                        |t: RichTx| crate::cashback::transaction_history::as_transfer_tx(t),
                    )
                    &&& total == Some(
                        crate::cashback::transaction_history::transfers_of(
                            state.history.txs@,
                            address@,
                        ).len() as u64,
                    )
                }),
            QueryMsg::TransactionHistory { address, page, page_size, .. } => (r matches
                QueryAnswer::TransactionHistory { txs, total } && {
                    &&& txs@ == crate::cashback::transaction_history::page_of(
                        crate::cashback::transaction_history::txs_of(state.history.txs@, address@),
                        (match page {
                            Some(p) => p
                            ,
                            None => 0,
                        }) as int,
                        page_size as int,
                    )
                    &&& total == Some(
                        crate::cashback::transaction_history::txs_of(
                            state.history.txs@,
                            address@,
                        ).len() as u64,
                    )
                }),
            _ => true,
        }),
{
    match msg {
        QueryMsg::Balance { address, .. } => query_balance(state, address),
        QueryMsg::TransferHistory { address, page, page_size, .. } => {
            let p = match page {
                Some(p) => *p,
                None => 0,
            };
            query_transfers(state, address, p, *page_size)
        },
        QueryMsg::TransactionHistory { address, page, page_size, .. } => {
            let p = match page {
                Some(p) => *p,
                None => 0,
            };
            query_transactions(state, address, p, *page_size)
        },
        QueryMsg::Allowance { owner, spender, .. } => try_check_allowance(
            state,
            owner.clone(),
            spender.clone(),
        ),
        _ => vstd::pervasive::unreached(),
    }
}

/// Answers a query that needs viewing-key authentication.
///
/// The offered key is checked against every address the query names; when
/// an address has no stored key the check still runs, against a fixed-size
/// dummy key, so that the two failure cases take similar time.  Both
/// failures get the same generic answer: a caller cannot tell a wrong key
/// from an unset one.
pub fn authenticated_queries(state: &State, msg: QueryMsg) -> (r: QueryAnswer)
    requires
        msg.requires_auth(),
        state.balances.wf(),
        state.allowances.wf(),
        state.viewing_keys.wf(),
        state.history.txs@.len() <= u64::MAX,
    ensures
        !query_authorized(*state, msg) ==> is_viewing_key_error(r),
        query_authorized(*state, msg) ==> (match msg {
            QueryMsg::Balance { address, .. } => r == (QueryAnswer::Balance {
                amount: state.balance_of(address@),
            }),
            QueryMsg::Allowance { owner, spender, .. } => r == (QueryAnswer::Allowance {
                owner,
                spender,
                allowance: state.allowance(owner@, spender@).amount,
                expiration: state.allowance(owner@, spender@).expiration,
            }),
            QueryMsg::TransferHistory { address, page, page_size, .. } => (r matches
                QueryAnswer::TransferHistory { txs, total } && {
                    &&& txs@ == crate::cashback::transaction_history::page_of(
                        crate::cashback::transaction_history::transfers_of(
                            state.history.txs@,
                            address@,
                        ),
                        (match page {
                            Some(p) => p
                            ,
                            None => 0,
                        }) as int,
                        page_size as int,
                    ).map_values(
                        |t: RichTx| crate::cashback::transaction_history::as_transfer_tx(t),
                    )
                    &&& total == Some(
                        crate::cashback::transaction_history::transfers_of(
                            state.history.txs@,
                            address@,
                        ).len() as u64,
                    )
                }),
            QueryMsg::TransactionHistory { address, page, page_size, .. } => (r matches
                QueryAnswer::TransactionHistory { txs, total } && {
                    &&& txs@ == crate::cashback::transaction_history::page_of(
                        crate::cashback::transaction_history::txs_of(state.history.txs@, address@),
                        (match page {
                            Some(p) => p
                            ,
                            None => 0,
                        }) as int,
                        page_size as int,
                    )
                    &&& total == Some(
                        crate::cashback::transaction_history::txs_of(
                            state.history.txs@,
                            address@,
                        ).len() as u64,
                    )
                }),
            _ => true,
        }),
{
    let (addresses, key) = msg.get_validation_params();
    let n = addresses.len();
    #[verifier::loop_isolation(false)]
    for i in 0..n
        invariant
            forall|j: int| 0 <= j < i ==> !key_matches(*state, addresses@[j]@, key.0@),
    {
        match state.viewing_keys.index_of(&addresses[i]) {
            Some(idx) => {
                if key.check_viewing_key(&state.viewing_keys.entries[idx].value) {
                    proof {
                        assert(key_matches(
                            *state,
                            validation_addresses(msg)[i as int]@,
                            validation_key(msg),
                        ));
                    }
                    return authorized_answer(state, &msg);
                }
            },
            None => {
                // An account with no stored key still pays for a comparison,
                // so that an unset key cannot be told apart by timing.
                let dummy = dummy_key();
                let _ = key.check_viewing_key(&dummy);
            },
        }
    }
    proof {
        assert forall|i: int|
            0 <= i < validation_addresses(msg).len() implies !key_matches(
            *state,
            validation_addresses(msg)[i]@,
            validation_key(msg),
        ) by {
            assert(!key_matches(*state, addresses@[i]@, key.0@));
        }
    }
    QueryAnswer::ViewingKeyError {
        msg: String::from_str("Wrong viewing key for this address or viewing key not set"),
    }
}

/// The read-only entry point: public queries are answered directly, the
/// rest go through viewing-key authentication.
pub fn query(state: &State, msg: QueryMsg) -> (r: QueryAnswer)
    requires
        state.balances.wf(),
        state.allowances.wf(),
        state.viewing_keys.wf(),
        state.history.txs@.len() <= u64::MAX,
    ensures
        msg is TokenInfo ==> r == token_info_answer(*state),
        msg is Minters ==> (r matches QueryAnswer::Minters { minters } && minters@
            == state.minters@),
        msg is RewardBalance ==> r == (QueryAnswer::RewardBalance {
            balance: state.reward_balance,
        }),
        msg.requires_auth() && !query_authorized(*state, msg) ==> is_viewing_key_error(r),
        msg.requires_auth() && query_authorized(*state, msg) ==> (match msg {
            QueryMsg::Balance { address, .. } => r == (QueryAnswer::Balance {
                amount: state.balance_of(address@),
            }),
            QueryMsg::Allowance { owner, spender, .. } => r == (QueryAnswer::Allowance {
                owner,
                spender,
                allowance: state.allowance(owner@, spender@).amount,
                expiration: state.allowance(owner@, spender@).expiration,
            }),
            QueryMsg::TransferHistory { address, page, page_size, .. } => (r matches
                QueryAnswer::TransferHistory { txs, total } && {
                    &&& txs@ == crate::cashback::transaction_history::page_of(
                        crate::cashback::transaction_history::transfers_of(
                            state.history.txs@,
                            address@,
                        ),
                        (match page {
                            Some(p) => p
                            ,
                            None => 0,
                        }) as int,
                        page_size as int,
                    ).map_values(
                        |t: RichTx| crate::cashback::transaction_history::as_transfer_tx(t),
                    )
                    &&& total == Some(
                        crate::cashback::transaction_history::transfers_of(
                            state.history.txs@,
                            address@,
                        ).len() as u64,
                    )
                }),
            QueryMsg::TransactionHistory { address, page, page_size, .. } => (r matches
                QueryAnswer::TransactionHistory { txs, total } && {
                    &&& txs@ == crate::cashback::transaction_history::page_of(
                        crate::cashback::transaction_history::txs_of(state.history.txs@, address@),
                        (match page {
                            Some(p) => p
                            ,
                            None => 0,
                        }) as int,
                        page_size as int,
                    )
                    &&& total == Some(
                        crate::cashback::transaction_history::txs_of(
                            state.history.txs@,
                            address@,
                        ).len() as u64,
                    )
                }),
            _ => true,
        }),
{
    match &msg {
        QueryMsg::TokenInfo {  } => query_token_info(state),
        QueryMsg::Minters {  } => query_minters(state),
        QueryMsg::RewardBalance {  } => query_reward_balance(state),
        _ => authenticated_queries(state, msg),
    }
}

/// The machine-limit side conditions a call must meet, by request kind;
/// each mirrors the called handler's own requirements.
pub open spec fn handle_call_limits(state: State, env: Env, msg: HandleMsg) -> bool {
    match msg {
        HandleMsg::Transfer { .. } => state.history.txs@.len() < u64::MAX,
        HandleMsg::Send { .. } => state.history.txs@.len() < u64::MAX,
        HandleMsg::TransferFrom { .. } => state.history.txs@.len() < u64::MAX,
        HandleMsg::SendFrom { .. } => state.history.txs@.len() < u64::MAX,
        HandleMsg::Mint { .. } => state.history.txs@.len() < u64::MAX,
        HandleMsg::NotifyAllocation { amount } => may_notify(state, env.message_sender@)
            ==> state.reward_balance + amount <= u128::MAX,
        HandleMsg::SelfCallback { message } => state.history.txs@.len() < u64::MAX && (
        env.message_sender@ == env.contract_address@ ==> (match message {
            HookMsg::Burn { owner, amount, .. } => (state.balance_of(owner@) >= amount
                ==> amount as int * state.reward_balance as int <= u128::MAX as int) && (amount > 0
                || state.total_supply > 0),
        })),
        _ => true,
    }
}

/// The mutating entry point.  The contract-status gate runs first: while
/// the contract is stopped, every request but the admin-only status change
/// fails with `ContractStopped` and changes nothing.  In normal run each
/// request is routed to its handler, whose own contract states exactly what
/// it does; every route preserves the ledger's well-formedness.  The host
/// derives `fresh_key` from the stored seed, caller entropy and block
/// entropy; only CreateViewingKey reads it.
pub fn handle(state: &mut State, env: &Env, msg: HandleMsg, fresh_key: ViewingKey) -> (r: Result<
    Response<HookMsg, HandleAnswer>,
    Error,
>)
    requires
        old(state).wf(),
        handle_call_limits(*old(state), *env, msg),
    ensures
        final(state).wf(),
        old(state).contract_status != ContractStatusLevel::NormalRun && !(msg
            is SetContractStatus) ==> (r matches Err(e) && e == Error::ContractStopped)
            && *final(state) == *old(state),
        old(state).contract_status != ContractStatusLevel::NormalRun ==> (match msg {
            HandleMsg::SetContractStatus { level, .. } => {
                &&& !old(state).spec_is_admin(env.message_sender@) ==> (r matches Err(e) && e
                    == Error::Unauthorized) && *final(state) == *old(state)
                &&& old(state).spec_is_admin(env.message_sender@) ==> *final(state) == (State {
                    contract_status: level,
                    ..*old(state)
                }) && (r matches Ok(resp) && resp.messages@.len() == 0 && resp.data == Some(
                    HandleAnswer::SetContractStatus { status: ResponseStatus::Success },
                ))
            },
            _ => true,
        }),
        old(state).contract_status == ContractStatusLevel::NormalRun ==> (match msg {
            HandleMsg::Transfer { recipient, amount, memo, .. } => {
                &&& final(state).total_supply == old(state).total_supply
                &&& (r is Ok <==> old(state).balance_of(env.message_sender@) >= amount && (
                env.message_sender@ == recipient@ || old(state).balance_of(recipient@) + amount
                    <= u128::MAX))
                &&& r is Err ==> *final(state) == *old(state)
                &&& r is Ok ==> {
                    &&& final(state).balance_of(env.message_sender@) == if env.message_sender@
                        == recipient@ {
                        old(state).balance_of(env.message_sender@)
                    } else {
                        (old(state).balance_of(env.message_sender@) - amount) as u128
                    }
                    &&& final(state).balance_of(recipient@) == if env.message_sender@
                        == recipient@ {
                        old(state).balance_of(recipient@)
                    } else {
                        (old(state).balance_of(recipient@) + amount) as u128
                    }
                    &&& forall|a: Seq<char>|
                        a != env.message_sender@ && a != recipient@ ==> final(state).balance_of(a)
                            == old(state).balance_of(a)
                    &&& final(state).history.txs@ == old(state).history.txs@.push(
                        transfer_record(
                            *old(state),
                            env.message_sender,
                            env.message_sender,
                            recipient,
                            amount,
                            memo,
                            *env,
                        ),
                    )
                    &&& (r->Ok_0).messages@.len() == 0
                    &&& (r->Ok_0).data == Some(
                        HandleAnswer::Transfer { status: ResponseStatus::Success },
                    )
                }
            },
            HandleMsg::Send { recipient, amount, msg: hook_msg, memo, .. } => {
                &&& final(state).total_supply == old(state).total_supply
                &&& (r is Ok <==> old(state).balance_of(env.message_sender@) >= amount && (
                env.message_sender@ == recipient@ || old(state).balance_of(recipient@) + amount
                    <= u128::MAX))
                &&& r is Err ==> *final(state) == *old(state)
                &&& r is Ok ==> {
                    &&& final(state).balance_of(env.message_sender@) == if env.message_sender@
                        == recipient@ {
                        old(state).balance_of(env.message_sender@)
                    } else {
                        (old(state).balance_of(env.message_sender@) - amount) as u128
                    }
                    &&& final(state).balance_of(recipient@) == if env.message_sender@
                        == recipient@ {
                        old(state).balance_of(recipient@)
                    } else {
                        (old(state).balance_of(recipient@) + amount) as u128
                    }
                    &&& forall|a: Seq<char>|
                        a != env.message_sender@ && a != recipient@ ==> final(state).balance_of(a)
                            == old(state).balance_of(a)
                    &&& final(state).history.txs@ == old(state).history.txs@.push(
                        transfer_record(
                            *old(state),
                            env.message_sender,
                            env.message_sender,
                            recipient,
                            amount,
                            memo,
                            *env,
                        ),
                    )
                    &&& (r->Ok_0).messages@ == receiver_callback_msgs(
                        *old(state),
                        recipient,
                        hook_msg,
                        env.message_sender,
                        env.message_sender,
                        amount,
                        memo,
                    )
                    &&& (r->Ok_0).data == Some(
                        HandleAnswer::Send { status: ResponseStatus::Success },
                    )
                }
            },
            HandleMsg::Burn { amount, memo, .. } => {
                &&& *final(state) == *old(state)
                &&& (r matches Ok(resp) && resp.messages@ == update_allocation_msgs(
                    *env,
                    old(state).master,
                    Some(HookMsg::Burn { owner: env.message_sender, amount, memo }),
                ) && resp.data is None)
            },
            HandleMsg::RegisterReceive { code_hash, .. } => r is Ok && final(state).receiver_hashes.spec_lookup(env.message_sender@) == Some(code_hash),
            HandleMsg::CreateViewingKey { .. } => r is Ok && final(state).viewing_keys.spec_lookup(
                env.message_sender@,
            ) == Some(fresh_key.0),
            HandleMsg::SetViewingKey { key, .. } => r is Ok && final(state).viewing_keys.spec_lookup(
                env.message_sender@,
            ) == Some(key),
            HandleMsg::IncreaseAllowance { spender, amount, expiration, .. } => r is Ok && final(state).allowance(env.message_sender@, spender@) == (Allowance {
                amount: saturating_add(
                    old(state).allowance(env.message_sender@, spender@).amount,
                    amount,
                ),
                expiration: if expiration is Some {
                    expiration
                } else {
                    old(state).allowance(env.message_sender@, spender@).expiration
                },
            }),
            HandleMsg::DecreaseAllowance { spender, amount, expiration, .. } => r is Ok && final(state).allowance(env.message_sender@, spender@) == (Allowance {
                amount: saturating_sub(
                    old(state).allowance(env.message_sender@, spender@).amount,
                    amount,
                ),
                expiration: if expiration is Some {
                    expiration
                } else {
                    old(state).allowance(env.message_sender@, spender@).expiration
                },
            }),
            HandleMsg::TransferFrom { owner, recipient, amount, memo, .. } => {
                let al = old(state).allowance(owner@, env.message_sender@);
                let expired = al.is_expired_at(env.block_time);
                &&& final(state).total_supply == old(state).total_supply
                &&& (r is Ok <==> !expired && al.amount >= amount && old(state).balance_of(owner@)
                    >= amount && (owner@ == recipient@ || old(state).balance_of(recipient@) + amount
                    <= u128::MAX))
                &&& expired ==> (r matches Err(e) && e == (Error::InsufficientAllowance {
                    allowance: 0,
                    required: amount,
                })) && final(state).allowance(owner@, env.message_sender@) == (Allowance {
                    amount: 0,
                    expiration: al.expiration,
                })
                &&& r is Ok ==> {
                    &&& final(state).allowance(owner@, env.message_sender@) == (Allowance {
                        amount: (al.amount - amount) as u128,
                        expiration: al.expiration,
                    })
                    &&& final(state).balance_of(owner@) == if owner@ == recipient@ {
                        old(state).balance_of(owner@)
                    } else {
                        (old(state).balance_of(owner@) - amount) as u128
                    }
                    &&& final(state).balance_of(recipient@) == if owner@ == recipient@ {
                        old(state).balance_of(recipient@)
                    } else {
                        (old(state).balance_of(recipient@) + amount) as u128
                    }
                    &&& forall|a: Seq<char>|
                        a != owner@ && a != recipient@ ==> final(state).balance_of(a) == old(
                            state,
                        ).balance_of(a)
                    &&& final(state).history.txs@ == old(state).history.txs@.push(
                        transfer_record(
                            *old(state),
                            owner,
                            env.message_sender,
                            recipient,
                            amount,
                            memo,
                            *env,
                        ),
                    )
                    &&& (r->Ok_0).messages@.len() == 0
                    &&& (r->Ok_0).data == Some(
                        HandleAnswer::TransferFrom { status: ResponseStatus::Success },
                    )
                }
            },
            HandleMsg::SendFrom { owner, recipient, amount, msg: hook_msg, memo, .. } => {
                let al = old(state).allowance(owner@, env.message_sender@);
                let expired = al.is_expired_at(env.block_time);
                &&& final(state).total_supply == old(state).total_supply
                &&& (r is Ok <==> !expired && al.amount >= amount && old(state).balance_of(owner@)
                    >= amount && (owner@ == recipient@ || old(state).balance_of(recipient@) + amount
                    <= u128::MAX))
                &&& expired ==> (r matches Err(e) && e == (Error::InsufficientAllowance {
                    allowance: 0,
                    required: amount,
                })) && final(state).allowance(owner@, env.message_sender@) == (Allowance {
                    amount: 0,
                    expiration: al.expiration,
                })
                &&& r is Ok ==> {
                    &&& final(state).allowance(owner@, env.message_sender@) == (Allowance {
                        amount: (al.amount - amount) as u128,
                        expiration: al.expiration,
                    })
                    &&& final(state).balance_of(owner@) == if owner@ == recipient@ {
                        old(state).balance_of(owner@)
                    } else {
                        (old(state).balance_of(owner@) - amount) as u128
                    }
                    &&& final(state).balance_of(recipient@) == if owner@ == recipient@ {
                        old(state).balance_of(recipient@)
                    } else {
                        (old(state).balance_of(recipient@) + amount) as u128
                    }
                    &&& forall|a: Seq<char>|
                        a != owner@ && a != recipient@ ==> final(state).balance_of(a) == old(
                            state,
                        ).balance_of(a)
                    &&& final(state).history.txs@ == old(state).history.txs@.push(
                        transfer_record(
                            *old(state),
                            owner,
                            env.message_sender,
                            recipient,
                            amount,
                            memo,
                            *env,
                        ),
                    )
                    &&& (r->Ok_0).messages@ == receiver_callback_msgs(
                        *old(state),
                        recipient,
                        hook_msg,
                        env.message_sender,
                        owner,
                        amount,
                        memo,
                    )
                    &&& (r->Ok_0).data == Some(
                        HandleAnswer::SendFrom { status: ResponseStatus::Success },
                    )
                }
            },
            HandleMsg::BurnFrom { owner, amount, memo, .. } => {
                let al = old(state).allowance(owner@, env.message_sender@);
                let expired = al.is_expired_at(env.block_time);
                &&& final(state).balances == old(state).balances
                &&& final(state).total_supply == old(state).total_supply
                &&& (r is Ok <==> !expired && al.amount >= amount)
                &&& r is Ok ==> final(state).allowance(owner@, env.message_sender@) == (Allowance {
                    amount: (al.amount - amount) as u128,
                    expiration: al.expiration,
                }) && (r->Ok_0).messages@ == update_allocation_msgs(
                    *env,
                    old(state).master,
                    Some(HookMsg::Burn { owner, amount, memo }),
                )
            },
            HandleMsg::Mint { recipient, amount, memo, .. } => {
                &&& (r is Ok <==> old(state).spec_is_minter(env.message_sender@) && old(
                    state,
                ).total_supply + amount <= u128::MAX)
                &&& r is Err ==> *final(state) == *old(state)
                &&& r is Ok ==> {
                    &&& final(state).total_supply == old(state).total_supply + amount
                    &&& final(state).balance_of(recipient@) == old(state).balance_of(recipient@)
                        + amount
                    &&& forall|a: Seq<char>|
                        a != recipient@ ==> final(state).balance_of(a) == old(state).balance_of(a)
                    &&& final(state).history.txs@ == old(state).history.txs@.push(
                        mint_record(*old(state), env.message_sender, recipient, amount, memo, *env),
                    )
                    &&& (r->Ok_0).messages@.len() == 0
                    &&& (r->Ok_0).data == Some(
                        HandleAnswer::Mint { status: ResponseStatus::Success },
                    )
                }
            },
            HandleMsg::AddMinters { minters, .. } => {
                &&& !old(state).spec_is_admin(env.message_sender@) ==> (r matches Err(e) && e
                    == Error::Unauthorized) && *final(state) == *old(state)
                &&& old(state).spec_is_admin(env.message_sender@) ==> final(state).minters@ == old(
                    state,
                ).minters@ + minters@
            },
            HandleMsg::RemoveMinters { minters, .. } => {
                &&& !old(state).spec_is_admin(env.message_sender@) ==> (r matches Err(e) && e
                    == Error::Unauthorized) && *final(state) == *old(state)
                &&& old(state).spec_is_admin(env.message_sender@) ==> final(state).minters@
                    == names_removed(old(state).minters@, minters@)
            },
            HandleMsg::SetMinters { minters, .. } => {
                &&& !old(state).spec_is_admin(env.message_sender@) ==> (r matches Err(e) && e
                    == Error::Unauthorized) && *final(state) == *old(state)
                &&& old(state).spec_is_admin(env.message_sender@) ==> final(state).minters@
                    == minters@
            },
            HandleMsg::ChangeAdmin { address, .. } => {
                &&& !old(state).spec_is_admin(env.message_sender@) ==> (r matches Err(e) && e
                    == Error::Unauthorized) && *final(state) == *old(state)
                &&& old(state).spec_is_admin(env.message_sender@) ==> final(state).constants.admin
                    == address
            },
            HandleMsg::SetContractStatus { level, .. } => {
                &&& !old(state).spec_is_admin(env.message_sender@) ==> (r matches Err(e) && e
                    == Error::Unauthorized) && *final(state) == *old(state)
                &&& old(state).spec_is_admin(env.message_sender@) ==> *final(state) == (State {
                    contract_status: level,
                    ..*old(state)
                })
            },
            HandleMsg::SetSefi { address, hash } => {
                &&& !old(state).spec_is_admin(env.message_sender@) ==> (r matches Err(e) && e
                    == Error::Unauthorized) && *final(state) == *old(state)
                &&& old(state).spec_is_admin(env.message_sender@) ==> final(state).sefi == (
                SecretContract { address, contract_hash: hash })
            },
            HandleMsg::SetMaster { address, hash } => {
                &&& !old(state).spec_is_admin(env.message_sender@) ==> (r matches Err(e) && e
                    == Error::Unauthorized) && *final(state) == *old(state)
                &&& old(state).spec_is_admin(env.message_sender@) ==> final(state).master == (
                SecretContract { address, contract_hash: hash })
            },
            HandleMsg::NotifyAllocation { amount } => {
                &&& !may_notify(*old(state), env.message_sender@) ==> (r matches Err(e) && e
                    == Error::Unauthorized) && *final(state) == *old(state)
                &&& may_notify(*old(state), env.message_sender@) ==> *final(state) == (State {
                    reward_balance: (old(state).reward_balance + amount) as u128,
                    ..*old(state)
                }) && (r matches Ok(resp) && resp.messages@.len() == 0 && resp.data is None)
            },
            HandleMsg::SelfCallback { message } => {
                &&& env.message_sender@ != env.contract_address@ ==> (r matches Err(e) && e
                    == Error::Unauthorized) && *final(state) == *old(state)
                &&& env.message_sender@ == env.contract_address@ ==> (match message {
                    HookMsg::Burn { owner, amount, memo } => {
                        &&& r is Ok <==> old(state).balance_of(owner@) >= amount
                        &&& old(state).balance_of(owner@) < amount ==> (r matches Err(e) && e == (
                        Error::InsufficientFunds {
                            balance: old(state).balance_of(owner@),
                            required: amount,
                        }))
                        &&& r is Err ==> *final(state) == *old(state)
                        &&& r is Ok ==> ({
                            let reward = reward_share(
                                amount,
                                old(state).reward_balance,
                                old(state).total_supply,
                            );
                            &&& final(state).balance_of(owner@) == (old(state).balance_of(owner@)
                                - amount) as u128
                            &&& forall|a: Seq<char>|
                                a != owner@ ==> final(state).balance_of(a) == old(
                                    state,
                                ).balance_of(a)
                            &&& final(state).total_supply == (old(state).total_supply
                                - amount) as u128
                            &&& final(state).reward_balance == old(state).reward_balance - reward
                            &&& (r->Ok_0).messages@ == (if reward > 0 {
                                seq![
                                    OutMsg::<HookMsg>::Snip20Transfer {
                                        token: old(state).sefi,
                                        recipient: owner,
                                        amount: reward as u128,
                                    },
                                ]
                            } else {
                                Seq::<OutMsg<HookMsg>>::empty()
                            })
                            &&& (r->Ok_0).data == Some(
                                HandleAnswer::Burn { status: ResponseStatus::Success },
                            )
                            &&& final(state).history.txs@ == old(state).history.txs@.push(
                                burn_record(*old(state), owner, amount, memo, *env),
                            )
                        })
                    },
                })
            },
        }),
{
    let stopped = match state.contract_status {
        ContractStatusLevel::NormalRun => false,
        _ => true,
    };
    if stopped {
        let r = match msg {
            HandleMsg::SetContractStatus { level, .. } => set_contract_status(state, env, level),
            _ => Err(Error::ContractStopped),
        };
        return r;
    }
    match msg {
        HandleMsg::Transfer { recipient, amount, memo, .. } => try_transfer(
            state,
            env,
            &recipient,
            amount,
            memo,
        ),
        HandleMsg::Send { recipient, amount, msg, memo, .. } => try_send(
            state,
            env,
            &recipient,
            amount,
            memo,
            msg,
        ),
        HandleMsg::Burn { amount, memo, .. } => try_burn(state, env, amount, memo),
        HandleMsg::RegisterReceive { code_hash, .. } => try_register_receive(state, env, code_hash),
        HandleMsg::CreateViewingKey { .. } => try_create_key(state, env, fresh_key),
        HandleMsg::SetViewingKey { key, .. } => try_set_key(state, env, key),
        HandleMsg::IncreaseAllowance { spender, amount, expiration, .. } => try_increase_allowance(
            state,
            env,
            spender,
            amount,
            expiration,
        ),
        HandleMsg::DecreaseAllowance { spender, amount, expiration, .. } => try_decrease_allowance(
            state,
            env,
            spender,
            amount,
            expiration,
        ),
        HandleMsg::TransferFrom { owner, recipient, amount, memo, .. } => try_transfer_from(
            state,
            env,
            &owner,
            &recipient,
            amount,
            memo,
        ),
        HandleMsg::SendFrom { owner, recipient, amount, msg, memo, .. } => try_send_from(
            state,
            env,
            &owner,
            &recipient,
            amount,
            memo,
            msg,
        ),
        HandleMsg::BurnFrom { owner, amount, memo, .. } => try_burn_from(
            state,
            env,
            &owner,
            amount,
            memo,
        ),
        HandleMsg::Mint { recipient, amount, memo, .. } => try_mint(
            state,
            env,
            recipient,
            amount,
            memo,
        ),
        HandleMsg::AddMinters { minters, .. } => add_minters(state, env, minters),
        HandleMsg::RemoveMinters { minters, .. } => remove_minters(state, env, minters),
        HandleMsg::SetMinters { minters, .. } => set_minters(state, env, minters),
        HandleMsg::NotifyAllocation { amount } => notify_allocation(state, env, amount),
        HandleMsg::ChangeAdmin { address, .. } => change_admin(state, env, address),
        HandleMsg::SetContractStatus { level, .. } => set_contract_status(state, env, level),
        HandleMsg::SetSefi { address, hash } => set_sefi(state, env, address, hash),
        HandleMsg::SetMaster { address, hash } => set_master(state, env, address, hash),
        HandleMsg::SelfCallback { message } => self_callback(state, env, message),
    }
}

} // verus!
