use spy_contracts::cashback::contract::{
    authenticated_queries, burn_hook, change_admin, handle, init, pad_response, query,
    query_token_info, self_callback, set_contract_status, try_burn, try_check_allowance,
    try_create_key, try_decrease_allowance, try_increase_allowance, try_mint, try_register_receive,
    try_send, try_set_key, try_transfer, try_transfer_from, RESPONSE_BLOCK_SIZE,
};
use spy_contracts::cashback::contract::{add_minters, remove_minters, set_minters};
use spy_contracts::cashback::msg::{
    space_pad, status_level_to_u8, u8_to_status_level, ContractStatusLevel, HandleAnswer,
    HandleMsg, HookMsg, InitConfig, InitMsg, InitialBalance, QueryAnswer, QueryMsg,
};
use spy_contracts::cashback::state::State;
use spy_contracts::cashback::contract::perform_transfer;
use spy_contracts::kvlist::{Entry, KvList};
use spy_contracts::cashback::viewing_key::ViewingKey;
use spy_contracts::types::{Env, Error, OutMsg, ResponseStatus, SecretContract};

fn sc(address: &str, hash: &str) -> SecretContract {
    SecretContract { address: address.to_string(), contract_hash: hash.to_string() }
}

fn env_at(sender: &str, height: u64, time: u64) -> Env {
    Env {
        message_sender: sender.to_string(),
        block_height: height,
        block_time: time,
        contract_address: "cashback".to_string(),
        contract_code_hash: "cbhash".to_string(),
    }
}

fn fresh_state() -> State {
    let env = env_at("admin", 1, 1);
    let msg = InitMsg {
        initial_balances: None,
        prng_seed: vec![7u8; 32],
        master: sc("master", "mh"),
        sefi: sc("sefi", "sh"),
    };
    init(&env, msg).unwrap()
}

fn sum_of_balances(state: &State) -> u128 {
    let mut total: u128 = 0;
    for e in state.balances.entries.iter() {
        total += e.value;
    }
    total
}

#[test]
fn init_sets_up_token() {
    let state = fresh_state();
    assert_eq!(state.constants.name, "Cashback Token");
    assert_eq!(state.constants.symbol, "CSHBK");
    assert_eq!(state.constants.decimals, 6);
    assert_eq!(state.constants.admin, "admin");
    assert_eq!(state.total_supply, 0);
    assert_eq!(state.minters, vec!["admin".to_string()]);
    assert_eq!(state.contract_status, ContractStatusLevel::NormalRun);
    match query_token_info(&state) {
        QueryAnswer::TokenInfo { name, symbol, decimals, total_supply } => {
            assert_eq!(name, "Cashback Token");
            assert_eq!(symbol, "CSHBK");
            assert_eq!(decimals, 6);
            assert_eq!(total_supply, Some(0));
        },
        _ => panic!("wrong answer"),
    }
}

#[test]
fn init_credits_initial_balances() {
    let env = env_at("admin", 1, 1);
    let msg = InitMsg {
        initial_balances: Some(vec![
            InitialBalance { address: "a".to_string(), amount: 300 },
            InitialBalance { address: "b".to_string(), amount: 700 },
        ]),
        prng_seed: vec![7u8; 32],
        master: sc("master", "mh"),
        sefi: sc("sefi", "sh"),
    };
    let state = init(&env, msg).unwrap();
    assert_eq!(state.total_supply, 1000);
    assert_eq!(state.balance(&"a".to_string()), 300);
    assert_eq!(state.balance(&"b".to_string()), 700);
    assert_eq!(sum_of_balances(&state), state.total_supply);
    assert_eq!(state.history.txs.len(), 2);
}

#[test]
fn init_rejects_overflowing_supply() {
    let env = env_at("admin", 1, 1);
    let msg = InitMsg {
        initial_balances: Some(vec![
            InitialBalance { address: "a".to_string(), amount: u128::MAX },
            InitialBalance { address: "b".to_string(), amount: 1 },
        ]),
        prng_seed: vec![7u8; 32],
        master: sc("master", "mh"),
        sefi: sc("sefi", "sh"),
    };
    assert_eq!(init(&env, msg).err(), Some(Error::SupplyOverflow));
}

#[test]
fn mint_transfer_burn_scenario() {
    // Mint 1000 to A, A transfers 400 to B, A fails to burn 700, burns 600.
    let mut state = fresh_state();
    let admin = env_at("admin", 2, 2);
    try_mint(&mut state, &admin, "a".to_string(), 1000, None).unwrap();
    assert_eq!(state.total_supply, 1000);
    assert_eq!(state.balance(&"a".to_string()), 1000);

    let env_a = env_at("a", 3, 3);
    try_transfer(&mut state, &env_a, &"b".to_string(), 400, None).unwrap();
    assert_eq!(state.balance(&"a".to_string()), 600);
    assert_eq!(state.balance(&"b".to_string()), 400);
    assert_eq!(state.total_supply, 1000);
    assert_eq!(sum_of_balances(&state), 1000);

    // The burn itself happens in the self-callback, with the contract's own
    // address as the caller.
    let own = env_at("cashback", 4, 4);
    let too_much = self_callback(
        &mut state,
        &own,
        HookMsg::Burn { owner: "a".to_string(), amount: 700, memo: None },
    );
    assert_eq!(too_much.err(), Some(Error::InsufficientFunds { balance: 600, required: 700 }));
    assert_eq!(state.balance(&"a".to_string()), 600);
    assert_eq!(state.total_supply, 1000);

    self_callback(&mut state, &own, HookMsg::Burn { owner: "a".to_string(), amount: 600, memo: None })
        .unwrap();
    assert_eq!(state.balance(&"a".to_string()), 0);
    assert_eq!(state.total_supply, 400);
    assert_eq!(sum_of_balances(&state), 400);
}

#[test]
fn transfer_with_insufficient_funds_changes_nothing() {
    let mut state = fresh_state();
    let admin = env_at("admin", 2, 2);
    try_mint(&mut state, &admin, "a".to_string(), 50, None).unwrap();
    let env_a = env_at("a", 3, 3);
    let r = try_transfer(&mut state, &env_a, &"b".to_string(), 51, None);
    assert_eq!(r.err(), Some(Error::InsufficientFunds { balance: 50, required: 51 }));
    assert_eq!(state.balance(&"a".to_string()), 50);
    assert_eq!(state.balance(&"b".to_string()), 0);
    assert_eq!(sum_of_balances(&state), state.total_supply);
}

#[test]
fn mint_requires_minter() {
    let mut state = fresh_state();
    let env_a = env_at("a", 2, 2);
    let r = try_mint(&mut state, &env_a, "a".to_string(), 10, None);
    assert_eq!(r.err(), Some(Error::Unauthorized));
    assert_eq!(state.total_supply, 0);
}

#[test]
fn mint_rejects_supply_overflow() {
    let mut state = fresh_state();
    let admin = env_at("admin", 2, 2);
    try_mint(&mut state, &admin, "a".to_string(), u128::MAX, None).unwrap();
    let r = try_mint(&mut state, &admin, "b".to_string(), 1, None);
    assert_eq!(r.err(), Some(Error::SupplyOverflow));
    assert_eq!(state.total_supply, u128::MAX);
}

#[test]
fn burn_via_handle_defers_to_self_callback() {
    let mut state = fresh_state();
    let admin = env_at("admin", 2, 2);
    try_mint(&mut state, &admin, "a".to_string(), 100, None).unwrap();
    let env_a = env_at("a", 3, 3);
    let resp = try_burn(&state, &env_a, 40, None).unwrap();
    // The ledger is untouched until the callback runs.
    assert_eq!(state.balance(&"a".to_string()), 100);
    assert_eq!(resp.messages.len(), 2);
    match &resp.messages[0] {
        OutMsg::UpdateAllocation { master, spy_addr, spy_hash } => {
            assert_eq!(master.address, "master");
            assert_eq!(spy_addr, "cashback");
            assert_eq!(spy_hash, "cbhash");
        },
        _ => panic!("expected the allocation update first"),
    }
    match &resp.messages[1] {
        OutMsg::SelfCallback { contract_addr, msg, .. } => {
            assert_eq!(contract_addr, "cashback");
            match msg {
                HookMsg::Burn { owner, amount, .. } => {
                    assert_eq!(owner, "a");
                    assert_eq!(*amount, 40);
                },
            }
        },
        _ => panic!("expected the self-callback second"),
    }
}

#[test]
fn self_callback_rejects_other_senders() {
    let mut state = fresh_state();
    let admin = env_at("admin", 2, 2);
    try_mint(&mut state, &admin, "a".to_string(), 100, None).unwrap();
    let intruder = env_at("mallory", 3, 3);
    let r = self_callback(
        &mut state,
        &intruder,
        HookMsg::Burn { owner: "a".to_string(), amount: 10, memo: None },
    );
    assert_eq!(r.err(), Some(Error::Unauthorized));
    assert_eq!(state.balance(&"a".to_string()), 100);
    assert_eq!(state.total_supply, 100);
}

#[test]
fn burn_pays_reward_share_from_pre_burn_supply() {
    let mut state = fresh_state();
    let admin = env_at("admin", 2, 2);
    try_mint(&mut state, &admin, "a".to_string(), 1000, None).unwrap();
    // The master credits the reward pool.
    let master_env = env_at("master", 3, 3);
    spy_contracts::cashback::contract::notify_allocation(&mut state, &master_env, 100).unwrap();
    assert_eq!(state.reward_balance, 100);

    // Burning 250 of a supply of 1000 earns a quarter of the pool.
    let own = env_at("cashback", 4, 4);
    let resp = self_callback(
        &mut state,
        &own,
        HookMsg::Burn { owner: "a".to_string(), amount: 250, memo: None },
    )
    .unwrap();
    assert_eq!(state.reward_balance, 75);
    assert_eq!(state.total_supply, 750);
    assert_eq!(resp.messages.len(), 1);
    match &resp.messages[0] {
        OutMsg::Snip20Transfer { token, recipient, amount } => {
            assert_eq!(token.address, "sefi");
            assert_eq!(recipient, "a");
            assert_eq!(*amount, 25);
        },
        _ => panic!("expected the reward transfer"),
    }
}

#[test]
fn notify_allocation_rejects_strangers() {
    let mut state = fresh_state();
    let env = env_at("mallory", 2, 2);
    let r = spy_contracts::cashback::contract::notify_allocation(&mut state, &env, 5);
    assert_eq!(r.err(), Some(Error::Unauthorized));
    assert_eq!(state.reward_balance, 0);
}

#[test]
fn expired_allowance_is_reset_and_spend_fails() {
    let mut state = fresh_state();
    let admin = env_at("admin", 2, 2);
    try_mint(&mut state, &admin, "owner".to_string(), 1000, None).unwrap();
    let owner_env = env_at("owner", 3, 100);
    try_increase_allowance(&mut state, &owner_env, "spender".to_string(), 500, Some(150)).unwrap();
    assert_eq!(state.allowances.read_allowance(&"owner".to_string(), &"spender".to_string()).amount, 500);

    // Past the expiration, the next spend attempt resets the grant to zero
    // and fails, even though 500 was granted.
    let spender_env = env_at("spender", 4, 200);
    let r = try_transfer_from(&mut state, &spender_env, &"owner".to_string(), &"b".to_string(), 10, None);
    assert_eq!(r.err(), Some(Error::InsufficientAllowance { allowance: 0, required: 10 }));
    let a = state.allowances.read_allowance(&"owner".to_string(), &"spender".to_string());
    assert_eq!(a.amount, 0);
    assert_eq!(a.expiration, Some(150));
    assert_eq!(state.balance(&"owner".to_string()), 1000);
}

#[test]
fn transfer_from_spends_allowance() {
    let mut state = fresh_state();
    let admin = env_at("admin", 2, 2);
    try_mint(&mut state, &admin, "owner".to_string(), 1000, None).unwrap();
    let owner_env = env_at("owner", 3, 100);
    try_increase_allowance(&mut state, &owner_env, "spender".to_string(), 500, None).unwrap();

    let spender_env = env_at("spender", 4, 101);
    try_transfer_from(&mut state, &spender_env, &"owner".to_string(), &"b".to_string(), 300, None)
        .unwrap();
    assert_eq!(state.balance(&"owner".to_string()), 700);
    assert_eq!(state.balance(&"b".to_string()), 300);
    assert_eq!(
        state.allowances.read_allowance(&"owner".to_string(), &"spender".to_string()).amount,
        200
    );

    let r = try_transfer_from(&mut state, &spender_env, &"owner".to_string(), &"b".to_string(), 201, None);
    assert_eq!(r.err(), Some(Error::InsufficientAllowance { allowance: 200, required: 201 }));
    assert_eq!(state.balance(&"b".to_string()), 300);
}

#[test]
fn allowance_saturates_at_both_ends() {
    let mut state = fresh_state();
    let owner_env = env_at("owner", 2, 2);
    try_increase_allowance(&mut state, &owner_env, "s".to_string(), u128::MAX, None).unwrap();
    try_increase_allowance(&mut state, &owner_env, "s".to_string(), 5, None).unwrap();
    assert_eq!(
        state.allowances.read_allowance(&"owner".to_string(), &"s".to_string()).amount,
        u128::MAX
    );
    try_decrease_allowance(&mut state, &owner_env, "s".to_string(), u128::MAX, None).unwrap();
    try_decrease_allowance(&mut state, &owner_env, "s".to_string(), 5, None).unwrap();
    assert_eq!(state.allowances.read_allowance(&"owner".to_string(), &"s".to_string()).amount, 0);
}

#[test]
fn send_calls_registered_receiver() {
    let mut state = fresh_state();
    let admin = env_at("admin", 2, 2);
    try_mint(&mut state, &admin, "a".to_string(), 100, None).unwrap();
    let receiver_env = env_at("shop", 3, 3);
    try_register_receive(&mut state, &receiver_env, "shophash".to_string()).unwrap();

    let env_a = env_at("a", 4, 4);
    let resp = try_send(&mut state, &env_a, &"shop".to_string(), 30, None, Some(vec![1, 2])).unwrap();
    assert_eq!(resp.messages.len(), 1);
    match &resp.messages[0] {
        OutMsg::ReceiverCallback { receiver, receiver_hash, sender, from, amount, msg, .. } => {
            assert_eq!(receiver, "shop");
            assert_eq!(receiver_hash, "shophash");
            assert_eq!(sender, "a");
            assert_eq!(from, "a");
            assert_eq!(*amount, 30);
            assert_eq!(msg.as_deref(), Some(&[1u8, 2u8][..]));
        },
        _ => panic!("expected the receiver callback"),
    }

    // Sending to an unregistered recipient queues nothing.
    let resp2 = try_send(&mut state, &env_a, &"b".to_string(), 10, None, None).unwrap();
    assert!(resp2.messages.is_empty());
}

#[test]
fn contract_status_gates_handlers() {
    let mut state = fresh_state();
    let admin = env_at("admin", 2, 2);
    set_contract_status(&mut state, &admin, ContractStatusLevel::StopAll).unwrap();

    let env_a = env_at("a", 3, 3);
    let dummy = ViewingKey("k".to_string());
    let r = handle(
        &mut state,
        &env_a,
        HandleMsg::Transfer { recipient: "b".to_string(), amount: 1, memo: None, padding: None },
        dummy,
    );
    assert_eq!(r.err(), Some(Error::ContractStopped));

    // Only the admin can lift the stop, through the one exempt handler.
    let dummy2 = ViewingKey("k".to_string());
    let r2 = handle(
        &mut state,
        &env_a,
        HandleMsg::SetContractStatus { level: ContractStatusLevel::NormalRun, padding: None },
        dummy2,
    );
    assert_eq!(r2.err(), Some(Error::Unauthorized));

    let dummy3 = ViewingKey("k".to_string());
    handle(
        &mut state,
        &admin,
        HandleMsg::SetContractStatus { level: ContractStatusLevel::NormalRun, padding: None },
        dummy3,
    )
    .unwrap();
    assert_eq!(state.contract_status, ContractStatusLevel::NormalRun);
}

#[test]
fn minter_set_is_admin_managed() {
    let mut state = fresh_state();
    let admin = env_at("admin", 2, 2);
    add_minters(&mut state, &admin, vec!["m1".to_string(), "m2".to_string()]).unwrap();
    assert_eq!(state.minters, vec!["admin".to_string(), "m1".to_string(), "m2".to_string()]);
    remove_minters(&mut state, &admin, vec!["m1".to_string()]).unwrap();
    assert_eq!(state.minters, vec!["admin".to_string(), "m2".to_string()]);
    set_minters(&mut state, &admin, vec!["only".to_string()]).unwrap();
    assert_eq!(state.minters, vec!["only".to_string()]);

    let stranger = env_at("mallory", 3, 3);
    assert_eq!(
        add_minters(&mut state, &stranger, vec!["mallory".to_string()]).err(),
        Some(Error::Unauthorized)
    );
}

#[test]
fn change_admin_hands_over_the_role() {
    let mut state = fresh_state();
    let admin = env_at("admin", 2, 2);
    change_admin(&mut state, &admin, "admin2".to_string()).unwrap();
    assert_eq!(state.constants.admin, "admin2");
    let old_admin = env_at("admin", 3, 3);
    assert_eq!(
        change_admin(&mut state, &old_admin, "admin".to_string()).err(),
        Some(Error::Unauthorized)
    );
}

#[test]
fn viewing_key_failures_are_uniform() {
    let mut state = fresh_state();
    let env_b = env_at("b", 2, 2);
    try_set_key(&mut state, &env_b, "right key".to_string()).unwrap();

    // "a" has no key at all; "b" has one, but the query offers another.
    let no_key = authenticated_queries(
        &state,
        QueryMsg::Balance { address: "a".to_string(), key: "guess".to_string() },
    );
    let wrong_key = authenticated_queries(
        &state,
        QueryMsg::Balance { address: "b".to_string(), key: "guess".to_string() },
    );
    let m1 = match no_key {
        QueryAnswer::ViewingKeyError { msg } => msg,
        _ => panic!("expected the generic failure"),
    };
    let m2 = match wrong_key {
        QueryAnswer::ViewingKeyError { msg } => msg,
        _ => panic!("expected the generic failure"),
    };
    assert_eq!(m1, m2);
    assert_eq!(m1, "Wrong viewing key for this address or viewing key not set");
}

#[test]
fn authorized_queries_answer() {
    let mut state = fresh_state();
    let admin = env_at("admin", 2, 2);
    try_mint(&mut state, &admin, "a".to_string(), 77, None).unwrap();
    let env_a = env_at("a", 3, 3);
    try_set_key(&mut state, &env_a, "open sesame".to_string()).unwrap();

    let r = query(
        &state,
        QueryMsg::Balance { address: "a".to_string(), key: "open sesame".to_string() },
    );
    match r {
        QueryAnswer::Balance { amount } => assert_eq!(amount, 77),
        _ => panic!("expected the balance"),
    }
}

#[test]
fn create_key_stores_and_returns_the_derived_key() {
    let mut state = fresh_state();
    let env_a = env_at("a", 2, 2);
    let resp = try_create_key(&mut state, &env_a, ViewingKey("derived".to_string())).unwrap();
    match resp.data {
        Some(HandleAnswer::CreateViewingKey { key }) => assert_eq!(key.0, "derived"),
        _ => panic!("expected the key back"),
    }
    let r = query(&state, QueryMsg::Balance { address: "a".to_string(), key: "derived".to_string() });
    assert!(matches!(r, QueryAnswer::Balance { amount: 0 }));
}

#[test]
fn transfer_history_pages_most_recent_first() {
    let mut state = fresh_state();
    let admin = env_at("admin", 2, 2);
    try_mint(&mut state, &admin, "a".to_string(), 100, None).unwrap();
    let env_a = env_at("a", 3, 3);
    for amount in 1..=5u128 {
        try_transfer(&mut state, &env_a, &"b".to_string(), amount, None).unwrap();
    }
    let env_b = env_at("b", 4, 4);
    try_set_key(&mut state, &env_b, "k".to_string()).unwrap();

    let r = query(
        &state,
        QueryMsg::TransferHistory {
            address: "b".to_string(),
            key: "k".to_string(),
            page: Some(0),
            page_size: 2,
        },
    );
    match r {
        QueryAnswer::TransferHistory { txs, total } => {
            assert_eq!(total, Some(5));
            assert_eq!(txs.len(), 2);
            assert_eq!(txs[0].amount, 5);
            assert_eq!(txs[1].amount, 4);
            assert_eq!(txs[0].from, "a");
            assert_eq!(txs[0].receiver, "b");
        },
        _ => panic!("expected the transfer page"),
    }

    // The mint shows up only in the full transaction history of "a".
    let env_a2 = env_at("a", 5, 5);
    try_set_key(&mut state, &env_a2, "ka".to_string()).unwrap();
    let r2 = query(
        &state,
        QueryMsg::TransactionHistory {
            address: "a".to_string(),
            key: "ka".to_string(),
            page: None,
            page_size: 10,
        },
    );
    match r2 {
        QueryAnswer::TransactionHistory { txs, total } => {
            assert_eq!(total, Some(6));
            assert_eq!(txs.len(), 6);
            assert_eq!(txs[5].amount, 100);
        },
        _ => panic!("expected the transaction page"),
    }
}

#[test]
fn allowance_query_reports_grant() {
    let mut state = fresh_state();
    let owner_env = env_at("owner", 2, 2);
    try_increase_allowance(&mut state, &owner_env, "s".to_string(), 42, Some(99)).unwrap();
    let r = try_check_allowance(&state, "owner".to_string(), "s".to_string());
    match r {
        QueryAnswer::Allowance { owner, spender, allowance, expiration } => {
            assert_eq!(owner, "owner");
            assert_eq!(spender, "s");
            assert_eq!(allowance, 42);
            assert_eq!(expiration, Some(99));
        },
        _ => panic!("expected the allowance"),
    }
}

#[test]
fn space_pad_pads_to_block_size() {
    let mut m = vec![1u8, 2, 3];
    space_pad(8, &mut m);
    assert_eq!(m.len(), 8);
    assert_eq!(&m[..3], &[1, 2, 3]);
    assert!(m[3..].iter().all(|b| *b == b' '));

    let mut exact = vec![9u8; 16];
    space_pad(8, &mut exact);
    assert_eq!(exact.len(), 16);
}

#[test]
fn pad_response_pads_the_payload() {
    let r = pad_response(Some(vec![5u8; 10])).unwrap();
    assert_eq!(r.len(), RESPONSE_BLOCK_SIZE);
    assert_eq!(&r[..10], &[5u8; 10][..]);
    assert!(pad_response(None).is_none());
}

#[test]
fn status_levels_round_trip() {
    assert_eq!(status_level_to_u8(ContractStatusLevel::NormalRun), 0);
    assert_eq!(status_level_to_u8(ContractStatusLevel::StopAllButRedeems), 1);
    assert_eq!(status_level_to_u8(ContractStatusLevel::StopAll), 2);
    assert_eq!(u8_to_status_level(0), Ok(ContractStatusLevel::NormalRun));
    assert_eq!(u8_to_status_level(1), Ok(ContractStatusLevel::StopAllButRedeems));
    assert_eq!(u8_to_status_level(2), Ok(ContractStatusLevel::StopAll));
    assert_eq!(u8_to_status_level(3), Err(Error::InvalidStatusLevel));
}

#[test]
fn init_config_defaults_to_private_supply() {
    assert!(!InitConfig::new(None).public_total_supply());
    assert!(!InitConfig::new(Some(false)).public_total_supply());
    assert!(InitConfig::new(Some(true)).public_total_supply());
}

#[test]
fn validation_params_name_the_right_addresses() {
    let q = QueryMsg::Allowance {
        owner: "o".to_string(),
        spender: "s".to_string(),
        key: "k".to_string(),
    };
    let (addrs, key) = q.get_validation_params();
    assert_eq!(addrs, vec!["o".to_string(), "s".to_string()]);
    assert_eq!(key.0, "k");

    let q2 = QueryMsg::Balance { address: "a".to_string(), key: "k2".to_string() };
    let (addrs2, key2) = q2.get_validation_params();
    assert_eq!(addrs2, vec!["a".to_string()]);
    assert_eq!(key2.0, "k2");
}

#[test]
fn burn_from_spends_allowance_and_defers_burn() {
    let mut state = fresh_state();
    let admin = env_at("admin", 2, 2);
    try_mint(&mut state, &admin, "owner".to_string(), 500, None).unwrap();
    let owner_env = env_at("owner", 3, 10);
    try_increase_allowance(&mut state, &owner_env, "spender".to_string(), 200, None).unwrap();

    let spender_env = env_at("spender", 4, 11);
    let resp = spy_contracts::cashback::contract::try_burn_from(
        &mut state,
        &spender_env,
        &"owner".to_string(),
        150,
        None,
    )
    .unwrap();
    assert_eq!(
        state.allowances.read_allowance(&"owner".to_string(), &"spender".to_string()).amount,
        50
    );
    // The balance is only debited by the deferred self-callback.
    assert_eq!(state.balance(&"owner".to_string()), 500);
    assert_eq!(resp.messages.len(), 2);

    let own = env_at("cashback", 5, 12);
    self_callback(
        &mut state,
        &own,
        HookMsg::Burn { owner: "owner".to_string(), amount: 150, memo: None },
    )
    .unwrap();
    assert_eq!(state.balance(&"owner".to_string()), 350);
    assert_eq!(state.total_supply, 350);
}

#[test]
fn burn_hook_directly_respects_conservation() {
    let mut state = fresh_state();
    let admin = env_at("admin", 2, 2);
    try_mint(&mut state, &admin, "a".to_string(), 10, None).unwrap();
    let own = env_at("cashback", 3, 3);
    burn_hook(&mut state, &own, "a".to_string(), 10, None).unwrap();
    assert_eq!(state.total_supply, 0);
    assert_eq!(sum_of_balances(&state), 0);
}

#[test]
fn transfer_checks_recipient_overflow_even_off_the_books() {
    // A recipient overflow cannot arise while the balances sum to the
    // supply, but the check is made, never assumed: on a hand-built state
    // whose books do not balance, the transfer fails cleanly.
    let mut state = fresh_state();
    state.balances = KvList {
        entries: vec![
            Entry { key: "a".to_string(), value: 5 },
            Entry { key: "b".to_string(), value: u128::MAX },
        ],
    };
    let r = perform_transfer(&mut state, &"a".to_string(), &"b".to_string(), 1);
    assert_eq!(r.err(), Some(Error::BalanceOverflow));
    assert_eq!(state.balance(&"a".to_string()), 5);
    assert_eq!(state.balance(&"b".to_string()), u128::MAX);
}

#[test]
fn conservation_holds_across_a_mixed_sequence() {
    let mut state = fresh_state();
    let admin = env_at("admin", 2, 2);
    try_mint(&mut state, &admin, "a".to_string(), 1_000, None).unwrap();
    try_mint(&mut state, &admin, "b".to_string(), 2_500, None).unwrap();
    assert_eq!(sum_of_balances(&state), state.total_supply);

    let env_a = env_at("a", 3, 3);
    try_transfer(&mut state, &env_a, &"c".to_string(), 400, None).unwrap();
    assert_eq!(sum_of_balances(&state), state.total_supply);

    let env_b = env_at("b", 4, 4);
    try_increase_allowance(&mut state, &env_b, "a".to_string(), 1_000, None).unwrap();
    let env_a2 = env_at("a", 5, 5);
    try_transfer_from(&mut state, &env_a2, &"b".to_string(), &"c".to_string(), 900, None).unwrap();
    assert_eq!(sum_of_balances(&state), state.total_supply);

    let own = env_at("cashback", 6, 6);
    self_callback(&mut state, &own, HookMsg::Burn { owner: "c".to_string(), amount: 1_300, memo: None })
        .unwrap();
    assert_eq!(sum_of_balances(&state), state.total_supply);
    assert_eq!(state.total_supply, 2_200);
}
