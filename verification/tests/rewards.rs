use spy_contracts::bulk_distributor::contract::{
    change_admin, get_spy_rewards, init, new_bulk_reward, query, query_pending_rewards, receive,
    update_allocation,
};
use spy_contracts::bulk_distributor::msg::{InitMsg, QueryAnswer, QueryMsg, ReceiveMsg};
use spy_contracts::bulk_distributor::state::{updated_reward_bulks, RewardBulk, State};
use spy_contracts::dev_fund::contract as dev_fund;
use spy_contracts::lp_staking::querier::{query_pending, MasterQueryAnswer};
use spy_contracts::lp_staking::state::Config as LpConfig;
use spy_contracts::types::{Env, Error, OutMsg, SecretContract};

fn sc(address: &str, hash: &str) -> SecretContract {
    SecretContract { address: address.to_string(), contract_hash: hash.to_string() }
}

fn env_at(sender: &str, height: u64) -> Env {
    Env {
        message_sender: sender.to_string(),
        block_height: height,
        block_time: height,
        contract_address: "distributor".to_string(),
        contract_code_hash: "dhash".to_string(),
    }
}

fn fresh_distributor() -> (State, Vec<RewardBulk>) {
    let env = env_at("admin", 0);
    let msg = InitMsg { reward_token: sc("token", "th"), spy_to_reward: sc("spy", "sh") };
    let (state, bulks, messages) = init(&env, msg);
    assert_eq!(messages.len(), 1);
    (state, bulks)
}

#[test]
fn overlapping_bulks_are_additive() {
    // B1 ends at 100 paying 5 per block, B2 at 150 paying 3; from watermark
    // 90 to block 120 that is 10*5 + 30*3 = 140.
    let bulks = vec![
        RewardBulk { end_block: 100, amount_per_block: 5 },
        RewardBulk { end_block: 150, amount_per_block: 3 },
    ];
    assert_eq!(get_spy_rewards(bulks, 90, 120), 140);
}

#[test]
fn bulk_schedule_caps_at_its_end() {
    // 1000 over 100 blocks from block 0 pays 10 per block: 500 at block 50,
    // the full 1000 past the end, nothing rounded up.
    let (mut state, mut bulks) = fresh_distributor();
    let env = env_at("admin", 0);
    new_bulk_reward(&mut state, &mut bulks, &env, "admin".to_string(), 100, 1000).unwrap();
    assert_eq!(bulks.len(), 1);
    assert_eq!(bulks[0].end_block, 100);
    assert_eq!(bulks[0].amount_per_block, 10);

    match query_pending_rewards(&state, &bulks, 50) {
        QueryAnswer::Pending { amount } => assert_eq!(amount, 500),
        _ => panic!("expected a pending amount"),
    }
    match query_pending_rewards(&state, &bulks, 150) {
        QueryAnswer::Pending { amount } => assert_eq!(amount, 1000),
        _ => panic!("expected a pending amount"),
    }
}

#[test]
fn integer_rate_forfeits_the_residue() {
    let (mut state, mut bulks) = fresh_distributor();
    let env = env_at("admin", 0);
    // 1005 over 100 blocks: the rate is 10; the 5 left over is never paid.
    new_bulk_reward(&mut state, &mut bulks, &env, "admin".to_string(), 100, 1005).unwrap();
    assert_eq!(bulks[0].amount_per_block, 10);
    match query_pending_rewards(&state, &bulks, 500) {
        QueryAnswer::Pending { amount } => assert_eq!(amount, 1000),
        _ => panic!("expected a pending amount"),
    }
}

#[test]
fn settlement_prunes_consumed_bulks() {
    let (mut state, mut bulks) = fresh_distributor();
    let env0 = env_at("admin", 0);
    new_bulk_reward(&mut state, &mut bulks, &env0, "admin".to_string(), 10, 100).unwrap();
    assert_eq!(bulks.len(), 1);

    // Settle past the bulk's end: it pays out in full.
    let env20 = env_at("anyone", 20);
    let resp = update_allocation(&mut state, &mut bulks, &env20).unwrap();
    assert_eq!(state.last_awarded_block, 20);
    assert_eq!(bulks.len(), 1);
    match &resp.messages[0] {
        OutMsg::Snip20Transfer { recipient, amount, .. } => {
            assert_eq!(recipient, "spy");
            assert_eq!(*amount, 100);
        },
        _ => panic!("expected the payout"),
    }

    // The next settlement observes the bulk consumed and prunes it; from
    // then on every settlement pays zero until a new bulk is created.
    let env30 = env_at("anyone", 30);
    let resp2 = update_allocation(&mut state, &mut bulks, &env30).unwrap();
    assert!(bulks.is_empty());
    assert_eq!(resp2.messages.len(), 1);
    match &resp2.messages[0] {
        OutMsg::NotifyAllocation { spy, amount } => {
            assert_eq!(spy.address, "spy");
            assert_eq!(*amount, 0);
        },
        _ => panic!("expected only the notification"),
    }

    let env40 = env_at("anyone", 40);
    let resp3 = update_allocation(&mut state, &mut bulks, &env40).unwrap();
    assert!(bulks.is_empty());
    match &resp3.messages[0] {
        OutMsg::NotifyAllocation { amount, .. } => assert_eq!(*amount, 0),
        _ => panic!("expected only the notification"),
    }
}

#[test]
fn settlement_notifies_even_without_rewards() {
    let (mut state, mut bulks) = fresh_distributor();
    // No bulks at all: settling still notifies the spy of zero.
    let env5 = env_at("anyone", 5);
    let resp = update_allocation(&mut state, &mut bulks, &env5).unwrap();
    assert_eq!(state.last_awarded_block, 5);
    assert_eq!(resp.messages.len(), 1);
    match &resp.messages[0] {
        OutMsg::NotifyAllocation { amount, .. } => assert_eq!(*amount, 0),
        _ => panic!("expected the notification"),
    }
}

#[test]
fn pruning_keeps_running_bulks() {
    let state = State {
        admin: "admin".to_string(),
        reward_token: sc("token", "th"),
        spy_to_reward: sc("spy", "sh"),
        last_awarded_block: 100,
    };
    let mut bulks = vec![
        RewardBulk { end_block: 50, amount_per_block: 1 },
        RewardBulk { end_block: 100, amount_per_block: 2 },
        RewardBulk { end_block: 101, amount_per_block: 3 },
    ];
    updated_reward_bulks(&mut bulks, &state);
    assert_eq!(bulks, vec![RewardBulk { end_block: 101, amount_per_block: 3 }]);
}

#[test]
fn new_bulk_requires_admin() {
    let (mut state, mut bulks) = fresh_distributor();
    let env = env_at("distributor", 0);
    let r = receive(
        &mut state,
        &mut bulks,
        &env,
        "mallory".to_string(),
        1000,
        ReceiveMsg::NewBulkReward { distribute_over: 100 },
    );
    assert_eq!(r.err(), Some(Error::Unauthorized));
    assert!(bulks.is_empty());
}

#[test]
fn new_bulk_settles_the_old_schedule_first() {
    let (mut state, mut bulks) = fresh_distributor();
    let env0 = env_at("admin", 0);
    new_bulk_reward(&mut state, &mut bulks, &env0, "admin".to_string(), 10, 100).unwrap();

    // Creating a second bulk at block 5 settles blocks 0..5 of the first
    // one before the new rate exists, so the old window is paid at the old
    // rate only.
    let env5 = env_at("admin", 5);
    let resp = new_bulk_reward(&mut state, &mut bulks, &env5, "admin".to_string(), 10, 200).unwrap();
    assert_eq!(state.last_awarded_block, 5);
    assert_eq!(bulks.len(), 2);
    assert_eq!(bulks[1].end_block, 15);
    assert_eq!(bulks[1].amount_per_block, 20);
    match &resp.messages[0] {
        OutMsg::Snip20Transfer { amount, .. } => assert_eq!(*amount, 50),
        _ => panic!("expected the payout of the old schedule"),
    }
}

#[test]
fn distributor_admin_can_be_changed() {
    let (mut state, _bulks) = fresh_distributor();
    let env = env_at("admin", 1);
    change_admin(&mut state, &env, "admin2".to_string()).unwrap();
    assert_eq!(state.admin, "admin2");
    let env2 = env_at("admin", 2);
    assert_eq!(
        change_admin(&mut state, &env2, "admin".to_string()).err(),
        Some(Error::Unauthorized)
    );
}

#[test]
fn distributor_queries_report_configuration() {
    let (state, bulks) = fresh_distributor();
    match query(&state, &bulks, QueryMsg::Admin {}) {
        QueryAnswer::Admin { address } => assert_eq!(address, "admin"),
        _ => panic!("expected the admin"),
    }
    match query(&state, &bulks, QueryMsg::RewardToken {}) {
        QueryAnswer::RewardToken { contract } => assert_eq!(contract.address, "token"),
        _ => panic!("expected the token"),
    }
    match query(&state, &bulks, QueryMsg::Spy {}) {
        QueryAnswer::Spy { contract } => assert_eq!(contract.address, "spy"),
        _ => panic!("expected the spy"),
    }
    match query(&state, &bulks, QueryMsg::Pending { block: 7 }) {
        QueryAnswer::Pending { amount } => assert_eq!(amount, 0),
        _ => panic!("expected a pending amount"),
    }
}

fn dev_env(sender: &str) -> Env {
    Env {
        message_sender: sender.to_string(),
        block_height: 1,
        block_time: 1,
        contract_address: "devfund".to_string(),
        contract_code_hash: "dfhash".to_string(),
    }
}

fn fresh_dev_fund() -> dev_fund::DevFundState {
    let env = dev_env("admin");
    let msg = dev_fund::InitMsg {
        beneficiary: Some("bene".to_string()),
        sefi: sc("sefi", "sh"),
        master: sc("master", "mh"),
        viewing_key: "vk".to_string(),
    };
    let (state, messages) = dev_fund::init(&env, msg);
    assert_eq!(messages.len(), 1);
    state
}

#[test]
fn dev_fund_accumulates_and_redeems() {
    let mut state = fresh_dev_fund();
    let master_env = dev_env("master");
    dev_fund::notify_allocation(&mut state, &master_env, 300).unwrap();
    assert_eq!(state.accumulated_rewards, 300);

    // Only the beneficiary may redeem; the redemption is deferred behind
    // the settlement.
    let mallory = dev_env("mallory");
    assert_eq!(
        dev_fund::redeem(&state, &mallory, None, None).err(),
        Some(Error::Unauthorized)
    );

    let bene = dev_env("bene");
    let resp = dev_fund::redeem(&state, &bene, Some(120), None).unwrap();
    assert_eq!(resp.messages.len(), 2);
    assert_eq!(state.accumulated_rewards, 300);

    // The self-callback performs the payout against the settled balance.
    let own = dev_env("devfund");
    let resp2 = dev_fund::self_callback(
        &mut state,
        &own,
        dev_fund::HookMsg::Redeem { to: "bene".to_string(), amount: Some(120) },
    )
    .unwrap();
    assert_eq!(state.accumulated_rewards, 180);
    match &resp2.messages[0] {
        OutMsg::Snip20Transfer { recipient, amount, .. } => {
            assert_eq!(recipient, "bene");
            assert_eq!(*amount, 120);
        },
        _ => panic!("expected the payout"),
    }

    // An unspecified amount redeems everything that is left.
    let resp3 = dev_fund::self_callback(
        &mut state,
        &own,
        dev_fund::HookMsg::Redeem { to: "bene".to_string(), amount: None },
    )
    .unwrap();
    assert_eq!(state.accumulated_rewards, 0);
    match &resp3.messages[0] {
        OutMsg::Snip20Transfer { amount, .. } => assert_eq!(*amount, 180),
        _ => panic!("expected the payout"),
    }
}

#[test]
fn dev_fund_self_callback_rejects_other_senders() {
    let mut state = fresh_dev_fund();
    let master_env = dev_env("master");
    dev_fund::notify_allocation(&mut state, &master_env, 50).unwrap();
    let mallory = dev_env("mallory");
    let r = dev_fund::self_callback(
        &mut state,
        &mallory,
        dev_fund::HookMsg::Redeem { to: "mallory".to_string(), amount: None },
    );
    assert_eq!(r.err(), Some(Error::Unauthorized));
    assert_eq!(state.accumulated_rewards, 50);
}

#[test]
fn dev_fund_rejects_overdrawn_redeem() {
    let mut state = fresh_dev_fund();
    let master_env = dev_env("master");
    dev_fund::notify_allocation(&mut state, &master_env, 10).unwrap();
    let own = dev_env("devfund");
    let r = dev_fund::self_callback(
        &mut state,
        &own,
        dev_fund::HookMsg::Redeem { to: "bene".to_string(), amount: Some(11) },
    );
    assert_eq!(r.err(), Some(Error::InsufficientRewards { balance: 10, required: 11 }));
    assert_eq!(state.accumulated_rewards, 10);
}

#[test]
fn dev_fund_notify_rejects_strangers() {
    let mut state = fresh_dev_fund();
    let mallory = dev_env("mallory");
    assert_eq!(
        dev_fund::notify_allocation(&mut state, &mallory, 5).err(),
        Some(Error::Unauthorized)
    );
    assert_eq!(state.accumulated_rewards, 0);
}

#[test]
fn dev_fund_balance_adds_pending_to_stored() {
    let mut state = fresh_dev_fund();
    let master_env = dev_env("master");
    dev_fund::notify_allocation(&mut state, &master_env, 40).unwrap();
    match dev_fund::query(&state, dev_fund::QueryMsg::Balance { block: 9 }, 60) {
        dev_fund::QueryAnswer::Balance { amount } => assert_eq!(amount, 100),
        _ => panic!("expected the balance"),
    }
    match dev_fund::query(&state, dev_fund::QueryMsg::Beneficiary {}, 0) {
        dev_fund::QueryAnswer::Beneficiary { address } => assert_eq!(address, "bene"),
        _ => panic!("expected the beneficiary"),
    }
}

fn lp_config(sources: Vec<SecretContract>) -> LpConfig {
    LpConfig {
        admin: "admin".to_string(),
        reward_token: sc("token", "th"),
        inc_token: sc("inc", "ih"),
        reward_sources: sources,
        viewing_key: "vk".to_string(),
        prng_seed: vec![1u8],
        is_stopped: false,
        own_addr: "staking".to_string(),
    }
}

#[test]
fn aggregator_sums_upstream_answers() {
    let config = lp_config(vec![sc("s1", "h1"), sc("s2", "h2"), sc("s3", "h3")]);
    let responses = vec![
        MasterQueryAnswer::Pending { amount: 10 },
        MasterQueryAnswer::Pending { amount: 0 },
        MasterQueryAnswer::Pending { amount: 32 },
    ];
    assert_eq!(query_pending(&config, &responses), Ok(42));
}

#[test]
fn aggregator_rejects_malformed_upstream_answers() {
    let config = lp_config(vec![sc("s1", "h1"), sc("s2", "h2")]);
    let responses = vec![MasterQueryAnswer::Pending { amount: 10 }, MasterQueryAnswer::Unexpected];
    assert_eq!(query_pending(&config, &responses), Err(Error::UpstreamContractError));
}
