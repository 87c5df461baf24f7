use nexus_staking::addr_map::AddrMap;
use nexus_staking::decimal::Decimal;
use nexus_staking::host::{AttrValue, Coin, Delegation, Env, MessageInfo, Msg, StdError, WasmCall};
use nexus_staking::hub::{BondType, ExecuteMsg, InstantiateMsg};
use nexus_staking::staking::contract::{instantiate, HubAnswers};
use nexus_staking::staking::restaking::execute_restake_bond_test;
use nexus_staking::staking::state::{BalanceAction, HubStore, StakerInfo};
use nexus_staking::validator_registry::ValidatorResponse;

const UNIT: u128 = 1_000_000_000_000_000_000;

fn env() -> Env {
    Env { block_time: 1_000, block_height: 7, contract_address: "hub".to_string() }
}

fn info(sender: &str, funds: Vec<Coin>) -> MessageInfo {
    MessageInfo { sender: sender.to_string(), funds }
}

fn coin(amount: u128, denom: &str) -> Coin {
    Coin { denom: denom.to_string(), amount }
}

fn validators() -> Vec<ValidatorResponse> {
    vec![
        ValidatorResponse { total_delegated: 0, address: "val1".to_string() },
        ValidatorResponse { total_delegated: 0, address: "val2".to_string() },
    ]
}

fn delegation(validator: &str, amount: u128) -> Delegation {
    Delegation { delegator: "hub".to_string(), validator: validator.to_string(), amount: coin(amount, "unibi") }
}

fn hub() -> HubStore {
    let msg = InstantiateMsg { epoch_period: 30, underlying_coin_denom: "unibi".to_string(), unbonding_period: 100 };
    let (mut store, _) = instantiate(&env(), &info("creator", vec![]), msg);
    store
        .execute_update_config(
            &info("creator", vec![]),
            None,
            Some("dispatcher".to_string()),
            Some("token".to_string()),
            Some("registry".to_string()),
            None,
            Ok(()),
            Ok(()),
            Ok(()),
            Ok(()),
        )
        .unwrap();
    store
}

fn bond(store: &mut HubStore, sender: &str, amount: u128, bond_type: BondType) -> nexus_staking::host::Response {
    store
        .execute_bond(&env(), &info(sender, vec![coin(amount, "unibi")]), bond_type, Ok(vec![]), Ok(validators()))
        .unwrap()
}

#[test]
fn instantiate_starts_at_rate_one() {
    let msg = InstantiateMsg { epoch_period: 30, underlying_coin_denom: "unibi".to_string(), unbonding_period: 100 };
    let (store, res) = instantiate(&env(), &info("creator", vec![]), msg);
    assert_eq!(store.state.stnibi_exchange_rate, Decimal::one());
    assert_eq!(store.state.last_unbonded_time, 1_000);
    assert_eq!(store.current_batch.id, 1);
    assert_eq!(store.params.paused, Some(false));
    assert_eq!(store.config.creator, "creator");
    assert!(res.messages.is_empty() && res.attributes.is_empty());
}

#[test]
fn a_bond_mints_at_the_exchange_rate_and_delegates_evenly() {
    let mut store = hub();
    let res = bond(&mut store, "alice", 1000, BondType::stnibi);
    assert_eq!(store.state.total_bond_stnibi_amount, 1000);
    assert_eq!(store.state.total_stnibi_issued, 1000);
    assert_eq!(store.token_supply, Some(1000));
    assert_eq!(res.messages.len(), 3);
    match &res.messages[0] {
        Msg::Delegate { validator, amount } => {
            assert_eq!(validator, "val1");
            assert_eq!(amount.amount, 500);
        }
        _ => panic!("expected a delegation"),
    }
    match &res.messages[1] {
        Msg::Delegate { validator, amount } => {
            assert_eq!(validator, "val2");
            assert_eq!(amount.amount, 500);
        }
        _ => panic!("expected a delegation"),
    }
    match &res.messages[2] {
        Msg::Execute { contract_addr, call: WasmCall::Mint { recipient, amount }, funds } => {
            assert_eq!(contract_addr, "token");
            assert_eq!(recipient, "alice");
            assert_eq!(*amount, 1000);
            assert!(funds.is_empty());
        }
        _ => panic!("expected a mint"),
    }
    assert_eq!(res.attributes.len(), 4);
    assert_eq!(res.attributes[0].key, "action");
    assert!(matches!(res.attributes[0].value, AttrValue::Static("mint")));
    assert!(matches!(res.attributes[3].value, AttrValue::Uint(1000)));
    let info = store.query_staker_info(&"alice".to_string());
    assert_eq!(info.amount_staked_unibi, 1000);
    assert_eq!(info.amount_stnibi_balance, 1000);
}

#[test]
fn rewards_raise_the_exchange_rate() {
    let mut store = hub();
    bond(&mut store, "alice", 1000, BondType::stnibi);
    let res = bond(&mut store, "dispatcher", 100, BondType::BondRewards);
    assert_eq!(res.messages.len(), 2);
    assert_eq!(store.state.total_bond_stnibi_amount, 1100);
    assert_eq!(store.state.total_stnibi_issued, 1000);
    assert_eq!(store.state.stnibi_exchange_rate.atomics, 1_100_000_000_000_000_000);
    let res = bond(&mut store, "bob", 110, BondType::stnibi);
    assert!(matches!(res.attributes[3].value, AttrValue::Uint(100)));
}

#[test]
fn only_the_dispatcher_bonds_rewards() {
    let mut store = hub();
    let err = store
        .execute_bond(&env(), &info("bob", vec![coin(5, "unibi")]), BondType::BondRewards, Ok(vec![]), Ok(validators()))
        .unwrap_err();
    assert_eq!(err, StdError::Generic { msg: "unauthorized" });
}

#[test]
fn a_bond_needs_exactly_one_coin_of_the_denomination() {
    let mut store = hub();
    let two = info("alice", vec![coin(5, "unibi"), coin(5, "uatom")]);
    let err = store.execute_bond(&env(), &two, BondType::stnibi, Ok(vec![]), Ok(validators())).unwrap_err();
    assert_eq!(err, StdError::Generic { msg: "More than one coin is sent; only one asset is supported" });
    let wrong = info("alice", vec![coin(5, "uatom")]);
    let err = store.execute_bond(&env(), &wrong, BondType::stnibi, Ok(vec![]), Ok(validators())).unwrap_err();
    assert_eq!(err, StdError::NoAssetsProvided { denom: "unibi".to_string() });
    assert_eq!(store.state.total_bond_stnibi_amount, 0);
}

#[test]
fn a_bond_needs_validators() {
    let mut store = hub();
    let err = store
        .execute_bond(&env(), &info("alice", vec![coin(5, "unibi")]), BondType::stnibi, Ok(vec![]), Ok(vec![]))
        .unwrap_err();
    assert_eq!(err, StdError::Generic { msg: "Validators registry is empty" });
}

#[test]
fn a_paused_hub_refuses_bonds() {
    let mut store = hub();
    store.execute_pause_contracts(&info("creator", vec![])).unwrap();
    let err = store
        .execute_bond(&env(), &info("alice", vec![coin(5, "unibi")]), BondType::stnibi, Ok(vec![]), Ok(validators()))
        .unwrap_err();
    assert_eq!(err, StdError::Generic { msg: "the contract is temporarily paused" });
    store.execute_unpause_contracts(&info("creator", vec![])).unwrap();
    bond(&mut store, "alice", 5, BondType::stnibi);
}

#[test]
fn guardians_may_pause_but_not_unpause() {
    let mut store = hub();
    store.execute_add_guardians(&info("creator", vec![]), vec!["guard".to_string()]).unwrap();
    store.execute_pause_contracts(&info("guard", vec![])).unwrap();
    assert_eq!(store.params.paused, Some(true));
    let err = store.execute_unpause_contracts(&info("guard", vec![])).unwrap_err();
    assert_eq!(err, StdError::Generic { msg: "unauthorized" });
    store.execute_remove_guardians(&info("creator", vec![]), vec!["guard".to_string()]).unwrap();
    let err = store.execute_pause_contracts(&info("guard", vec![])).unwrap_err();
    assert_eq!(err, StdError::Generic { msg: "unauthorized" });
}

fn slashed_hub() -> HubStore {
    let mut store = hub();
    bond(&mut store, "alice", 1000, BondType::stnibi);
    bond(&mut store, "dispatcher", 100, BondType::BondRewards);
    let record = store.query_staker_info(&"alice".to_string());
    let mut old = AddrMap::new();
    old.insert(
        "alice".to_string(),
        StakerInfo {
            amount_staked_unibi: record.amount_staked_unibi,
            amount_stnibi_balance: record.amount_stnibi_balance,
            bonding_time: record.bonding_time,
            unbonding_period: None,
            validator_list: None,
            last_update_time: record.last_update_time,
        },
    );
    store.staker_info = old;
    store
}

#[test]
fn check_slashing_slashes_every_staker_by_the_fall_of_the_rate() {
    let mut store = slashed_hub();
    let ds = Ok(vec![delegation("val1", 495), delegation("val2", 495)]);
    let res = store.execute_slashing(&env(), &ds).unwrap();
    assert_eq!(store.state.total_bond_stnibi_amount, 990);
    assert_eq!(store.state.stnibi_exchange_rate.atomics, 990_000_000_000_000_000);
    assert_eq!(res.attributes.len(), 4);
    match &res.attributes[2].value {
        AttrValue::Dec(d) => assert_eq!(d.atomics, UNIT / 10),
        _ => panic!("expected the slash percentage"),
    }
    match &res.attributes[3].value {
        AttrValue::Joined(v) => assert_eq!(v, &vec!["val1".to_string(), "val2".to_string()]),
        _ => panic!("expected the validators"),
    }
    let alice = store.query_staker(&"alice".to_string());
    assert_eq!(alice.amount_staked_unibi, 900);
    assert_eq!(alice.amount_stnibi_balance, 900);
    let updates = store.query_balance_updates(&"alice".to_string(), None, None);
    assert_eq!(updates.last_update_id, 3);
    match &updates.updates[1].action {
        BalanceAction::Slash { nibi_slashed, stnibi_adjusted, validator } => {
            assert_eq!(*nibi_slashed, 100);
            assert_eq!(*stnibi_adjusted, 100);
            assert_eq!(validator, "val1");
        }
        _ => panic!("expected a slash"),
    }
    assert_eq!(updates.updates[2].exchange_rate, Decimal::one());
}

#[test]
fn check_slashing_without_a_fall_slashes_nobody() {
    let mut store = slashed_hub();
    let ds = Ok(vec![delegation("val1", 600), delegation("val2", 600)]);
    let res = store.execute_slashing(&env(), &ds).unwrap();
    assert_eq!(res.attributes.len(), 2);
    assert_eq!(store.state.total_bond_stnibi_amount, 1100);
    assert_eq!(store.query_staker(&"alice".to_string()).amount_staked_unibi, 1000);
    assert_eq!(store.query_balance_updates(&"alice".to_string(), None, None).last_update_id, 1);
}

#[test]
fn checking_twice_is_checking_once() {
    let mut store = slashed_hub();
    let ds = Ok(vec![delegation("val1", 700), delegation("val2", 300)]);
    store.execute_slashing(&env(), &ds).unwrap();
    let once = store.state;
    let res = store.execute_slashing(&env(), &ds).unwrap();
    assert_eq!(res.attributes.len(), 2);
    assert_eq!(store.state.total_bond_stnibi_amount, once.total_bond_stnibi_amount);
    assert_eq!(store.state.stnibi_exchange_rate, once.stnibi_exchange_rate);
}

#[test]
fn a_failed_delegation_query_changes_nothing() {
    let mut store = slashed_hub();
    let err = StdError::Host { msg: "query failed".to_string() };
    assert_eq!(store.execute_slashing(&env(), &Err(err.clone())).unwrap_err(), err);
    assert_eq!(store.state.total_bond_stnibi_amount, 1100);
}

#[test]
fn update_params_is_for_the_creator() {
    let mut store = hub();
    store.execute_update_params(&info("creator", vec![]), Some(60), None).unwrap();
    assert_eq!(store.params.epoch_period, 60);
    assert_eq!(store.params.unbonding_period, 100);
    let err = store.execute_update_params(&info("bob", vec![]), None, Some(1)).unwrap_err();
    assert_eq!(err, StdError::Generic { msg: "unauthorized" });
}

#[test]
fn the_stnibi_denomination_is_set_once() {
    let mut store = hub();
    let creator = info("creator", vec![]);
    store
        .execute_update_config(&creator, None, None, None, None, Some("ustnibi".to_string()), Ok(()), Ok(()), Ok(()), Ok(()))
        .unwrap();
    assert_eq!(store.config.stnibi_denom, Some("ustnibi".to_string()));
    let err = store
        .execute_update_config(&creator, None, None, None, None, Some("other".to_string()), Ok(()), Ok(()), Ok(()), Ok(()))
        .unwrap_err();
    assert_eq!(err, StdError::Generic { msg: "updating stnibi token address is forbidden" });
}

#[test]
fn a_new_dispatcher_receives_the_rewards() {
    let mut store = hub();
    let res = store
        .execute_update_config(
            &info("creator", vec![]),
            None,
            Some("d2".to_string()),
            None,
            None,
            None,
            Ok(()),
            Ok(()),
            Ok(()),
            Ok(()),
        )
        .unwrap();
    assert_eq!(res.messages.len(), 1);
    assert!(matches!(&res.messages[0], Msg::SetWithdrawAddress { address } if address == "d2"));
    assert_eq!(store.config.reward_dispatcher_contract, Some("d2".to_string()));
}

#[test]
fn restaking_delegates_stnibi() {
    let store = hub();
    let res = store.execute_restake_bond(&info("alice", vec![coin(10, "stNIBI")]), Ok(validators())).unwrap();
    assert_eq!(res.messages.len(), 2);
    match &res.messages[0] {
        Msg::Delegate { amount, .. } => {
            assert_eq!(amount.amount, 5);
            assert_eq!(amount.denom, "stNIBI");
        }
        _ => panic!("expected a delegation"),
    }
    let err = store.execute_restake_bond(&info("alice", vec![coin(10, "unibi")]), Ok(validators())).unwrap_err();
    assert_eq!(err, StdError::NoAssetsProvided { denom: "stNIBI".to_string() });
}

#[test]
fn the_test_restake_delegates_one_unit() {
    let res = execute_restake_bond_test(&info("alice", vec![])).unwrap();
    assert_eq!(res.messages.len(), 1);
    assert!(matches!(res.attributes[1].value, AttrValue::Static("1")));
}

#[test]
fn the_state_query_reports_the_actual_state() {
    let mut store = hub();
    bond(&mut store, "alice", 1000, BondType::stnibi);
    let st = store.query_state(&Ok(vec![delegation("val1", 400), delegation("val2", 400)])).unwrap();
    assert_eq!(st.total_bond_stnibi_amount, 800);
    assert_eq!(st.stnibi_exchange_rate.atomics, 800_000_000_000_000_000);
}

fn batch(id: u64, time: u64, rate: Decimal) -> nexus_staking::hub::UnbondHistory {
    nexus_staking::hub::UnbondHistory {
        batch_id: id,
        time,
        stnibi_amount: 0,
        stnibi_applied_exchange_rate: Decimal::one(),
        stnibi_withdraw_rate: rate,
        released: false,
    }
}

#[test]
fn unbonding_takes_at_least_the_chains_period() {
    let mut store = hub();
    store.store_unbond_history(2, batch(2, 500, Decimal::one()));
    store.store_unbond_history(1, batch(1, 100, Decimal::one()));
    store.store_unbond_wait_list(1, "alice".to_string(), 50);
    store.store_unbond_wait_list(3, "alice".to_string(), 70);
    store.store_unbond_wait_list(1, "alice".to_string(), 5);
    let info = store.query_unbonding_info(&"alice".to_string(), Ok(()), Ok(vec![])).unwrap();
    assert_eq!(info.effective_unbonding_period, 1_814_400);
    assert_eq!(info.unbonding_requests.len(), 1);
    assert_eq!(info.unbonding_requests[0].amount, 55);
    assert_eq!(info.unbonding_requests[0].final_release_time, 100 + 1_814_400);
    assert_eq!(info.total_unbonding, 55);
    assert!(!info.is_unbonding_protocol_locked);
}

#[test]
fn the_history_stays_in_id_order() {
    let mut store = hub();
    store.store_unbond_history(5, batch(5, 1, Decimal::one()));
    store.store_unbond_history(2, batch(2, 1, Decimal::one()));
    store.store_unbond_history(9, batch(9, 1, Decimal::one()));
    assert!(store.history_is_sorted());
    let page = store.query_unbond_requests_limitation(Some(2), Some(10));
    let ids: Vec<u64> = page.history.iter().map(|h| h.batch_id).collect();
    assert_eq!(ids, vec![5, 9]);
}

#[test]
fn only_batches_processed_an_unbonding_period_ago_are_withdrawable() {
    let mut store = hub();
    store.store_unbond_history(1, batch(1, 100, Decimal::from_ratio(1, 2)));
    store.store_unbond_history(2, batch(2, 900, Decimal::one()));
    store.store_unbond_wait_list(1, "alice".to_string(), 40);
    store.store_unbond_wait_list(2, "alice".to_string(), 40);
    let at = Env { block_time: 1_000, block_height: 1, contract_address: "hub".to_string() };
    assert!(store.withdrawable_fits(&"alice".to_string(), &at));
    assert_eq!(store.query_withdrawable_unbonded(&"alice".to_string(), &at).withdrawable, 20);
}

#[test]
fn the_router_hands_each_message_to_its_handler() {
    let answers = |delegations: Vec<Delegation>| HubAnswers {
        delegations: Ok(delegations),
        validators: Ok(validators()),
        owner_check: Ok(()),
        reward_check: Ok(()),
        token_check: Ok(()),
        registry_check: Ok(()),
    };
    let mut store = hub();
    let res = store
        .execute(&env(), &info("alice", vec![coin(1000, "unibi")]), ExecuteMsg::BondForstnibi, answers(vec![]))
        .unwrap();
    assert_eq!(store.state.total_bond_stnibi_amount, 1000);
    assert_eq!(res.messages.len(), 3);
    let refused = store.execute(&env(), &info("mallory", vec![]), ExecuteMsg::PauseContracts, answers(vec![]));
    assert!(refused.is_err());
    assert_eq!(store.params.paused, Some(false));
    store.execute(&env(), &info("creator", vec![]), ExecuteMsg::PauseContracts, answers(vec![])).unwrap();
    assert_eq!(store.params.paused, Some(true));
    let paused = store.execute(
        &env(),
        &info("alice", vec![coin(10, "unibi")]),
        ExecuteMsg::BondForstnibi,
        answers(vec![delegation("val1", 500), delegation("val2", 500)]),
    );
    assert!(paused.is_err());
    assert_eq!(store.state.total_bond_stnibi_amount, 1000);
}

#[test]
fn the_token_contract_can_be_updated() {
    let mut store = hub();
    assert_eq!(store.config.stnibi_token_contract, Some("token".to_string()));
    let creator = info("creator", vec![]);
    let res = store
        .execute_update_config(&creator, None, None, Some("token2".to_string()), None, None, Ok(()), Ok(()), Ok(()), Ok(()))
        .unwrap();
    assert!(res.messages.is_empty());
    assert_eq!(store.config.stnibi_token_contract, Some("token2".to_string()));
    let bad = StdError::Host { msg: "invalid address".to_string() };
    let err = store
        .execute_update_config(&creator, None, None, Some("x".to_string()), None, None, Ok(()), Ok(()), Err(bad.clone()), Ok(()))
        .unwrap_err();
    assert_eq!(err, bad);
    assert_eq!(store.config.stnibi_token_contract, Some("token2".to_string()));
    store
        .execute_update_config(&creator, None, None, None, None, None, Ok(()), Ok(()), Err(bad), Ok(()))
        .unwrap();
    assert_eq!(store.config.stnibi_token_contract, Some("token2".to_string()));
}

#[test]
fn the_router_updates_the_token_contract() {
    let mut store = hub();
    let msg = ExecuteMsg::UpdateConfig {
        owner: None,
        rewards_dispatcher_contract: None,
        validators_registry_contract: None,
        stnibi_token_contract: Some("token3".to_string()),
        stnibi_denom: None,
    };
    let answers = HubAnswers {
        delegations: Ok(vec![]),
        validators: Ok(vec![]),
        owner_check: Ok(()),
        reward_check: Ok(()),
        token_check: Ok(()),
        registry_check: Ok(()),
    };
    store.execute(&env(), &info("creator", vec![]), msg, answers).unwrap();
    assert_eq!(store.config.stnibi_token_contract, Some("token3".to_string()));
}

#[test]
fn only_the_token_contract_sends_stnibi_to_unbond() {
    let mut store = hub();
    let token = "token".to_string();
    let (amount, staker) = store.receive_cw20(&token, Ok(()), "alice".to_string(), 40).unwrap();
    assert_eq!((amount, staker.as_str()), (40, "alice"));
    let err = store.receive_cw20(&"mallory".to_string(), Ok(()), "alice".to_string(), 40).unwrap_err();
    assert_eq!(err, StdError::Generic { msg: "unauthorized" });
    let bad = StdError::Host { msg: "invalid address".to_string() };
    assert_eq!(store.receive_cw20(&token, Err(bad.clone()), "alice".to_string(), 40).unwrap_err(), bad);
    store.config.stnibi_token_contract = None;
    let err = store.receive_cw20(&token, Ok(()), "alice".to_string(), 40).unwrap_err();
    assert_eq!(err, StdError::Generic { msg: "the stnibi token contract must have been registered" });
    store.execute_pause_contracts(&info("creator", vec![])).unwrap();
    let err = store.receive_cw20(&token, Ok(()), "alice".to_string(), 40).unwrap_err();
    assert_eq!(err, StdError::Generic { msg: "the contract is temporarily paused" });
}
