use nexus_staking::decimal::{mul_div_fits, Decimal};
use nexus_staking::host::{Coin, Delegation, Env, MessageInfo};
use nexus_staking::hub::{BondType, InstantiateMsg};
use nexus_staking::point_system::{self, ExecuteMsg, InstantiateMsg as PointsInit};
use nexus_staking::reward_dispatcher::nexus_fee_fits;
use nexus_staking::staking::contract::instantiate;
use nexus_staking::staking::error::BalanceError;
use nexus_staking::staking::state::{HubStore, StakerInfo};
use nexus_staking::validator_registry::{delegations_fit, ValidatorResponse};
use nexus_staking::vault;

fn env() -> Env {
    Env { block_time: 50, block_height: 1, contract_address: "hub".to_string() }
}

fn info(sender: &str, funds: Vec<Coin>) -> MessageInfo {
    MessageInfo { sender: sender.to_string(), funds }
}

fn unibi(amount: u128) -> Coin {
    Coin { denom: "unibi".to_string(), amount }
}

fn hub() -> HubStore {
    let msg = InstantiateMsg { epoch_period: 1, underlying_coin_denom: "unibi".to_string(), unbonding_period: 10 };
    let (mut store, _) = instantiate(&env(), &info("creator", vec![]), msg);
    store.config.reward_dispatcher_contract = Some("dispatcher".to_string());
    store.config.validators_registry_contract = Some("registry".to_string());
    store.config.stnibi_token_contract = Some("token".to_string());
    store
}

fn validators() -> Vec<ValidatorResponse> {
    vec![ValidatorResponse { total_delegated: 0, address: "val".to_string() }]
}

#[test]
fn mul_div_fits_exactly_when_the_quotient_fits() {
    assert!(mul_div_fits(u128::MAX, 1, 1));
    assert!(!mul_div_fits(u128::MAX, 2, 1));
    assert!(mul_div_fits(u128::MAX, 2, 2));
    assert!(!mul_div_fits(1, 1, 0));
}

#[test]
fn an_ordinary_bond_does_not_panic() {
    let store = hub();
    let i = info("alice", vec![unibi(100)]);
    assert!(!store.bond_panics(&env(), &i, BondType::stnibi, &Ok(vec![]), &Ok(validators())));
}

#[test]
fn a_bond_at_a_zero_rate_panics() {
    let mut store = hub();
    store.state.stnibi_exchange_rate = Decimal::zero();
    let i = info("alice", vec![unibi(100)]);
    assert!(store.bond_panics(&env(), &i, BondType::stnibi, &Ok(vec![]), &Ok(validators())));
}

#[test]
fn a_bond_overflowing_the_delegated_total_panics() {
    let store = hub();
    let full = vec![ValidatorResponse { total_delegated: u128::MAX, address: "val".to_string() }];
    let i = info("alice", vec![unibi(1)]);
    assert!(store.bond_panics(&env(), &i, BondType::stnibi, &Ok(vec![]), &Ok(full)));
}

#[test]
fn delegations_fit_up_to_the_maximum() {
    let vs = vec![ValidatorResponse { total_delegated: u128::MAX - 5, address: "a".to_string() }];
    assert!(delegations_fit(&vs, 5));
    assert!(!delegations_fit(&vs, 6));
}

#[test]
fn slashing_overflows_only_past_the_maximum() {
    let mut store = hub();
    store.state.total_bond_stnibi_amount = 10;
    let overflowing = vec![
        Delegation { delegator: "hub".to_string(), validator: "a".to_string(), amount: unibi(u128::MAX) },
        Delegation { delegator: "hub".to_string(), validator: "b".to_string(), amount: unibi(1) },
    ];
    assert!(store.slashing_panics(&Ok(overflowing)));
    let fine = vec![Delegation { delegator: "hub".to_string(), validator: "a".to_string(), amount: unibi(5) }];
    assert!(!store.slashing_panics(&Ok(fine)));
}

#[test]
fn a_slash_needs_a_current_record_and_a_fraction_of_at_most_one() {
    let mut store = hub();
    let err = store
        .update_balances_for_slash(&"nobody".to_string(), Decimal::from_ratio(1, 2), "val".to_string(), 1, 1)
        .unwrap_err();
    assert_eq!(err, BalanceError::StakerNotFound);
    store.staker_info_new.insert(
        "alice".to_string(),
        StakerInfo {
            amount_staked_unibi: 10,
            amount_stnibi_balance: 10,
            bonding_time: 0,
            unbonding_period: None,
            validator_list: None,
            last_update_time: 0,
        },
    );
    let err = store
        .update_balances_for_slash(&"alice".to_string(), Decimal::from_ratio(3, 2), "val".to_string(), 1, 1)
        .unwrap_err();
    assert_eq!(err, BalanceError::NegativeBalance);
    store.update_balances_for_slash(&"alice".to_string(), Decimal::from_ratio(1, 5), "val".to_string(), 1, 1).unwrap();
    assert_eq!(store.query_staker(&"alice".to_string()).amount_staked_unibi, 8);
}

#[test]
fn the_history_is_sorted_while_ids_ascend() {
    let store = hub();
    assert!(store.history_is_sorted());
}

#[test]
fn the_fee_fits_unless_the_product_is_too_large() {
    assert!(nexus_fee_fits(u128::MAX, Decimal::one()));
    assert!(!nexus_fee_fits(u128::MAX, Decimal::from_ratio(2, 1)));
}

#[test]
fn a_lock_fits_unless_the_locked_amount_overflows() {
    let (mut v, _) = vault::instantiate(vault::InstantiateMsg { stnibi_denom: "st".to_string() });
    let coin = |a: u128| Coin { denom: "st".to_string(), amount: a };
    v.execute_lock(&info("alice", vec![coin(u128::MAX)])).unwrap();
    assert!(!v.lock_fits(&info("alice", vec![coin(1)])));
    assert!(v.lock_fits(&info("bob", vec![coin(1)])));
    assert!(v.lock_fits(&info("alice", vec![])));
}

#[test]
fn points_fit_unless_a_credit_overflows() {
    let (mut store, _) = point_system::instantiate(
        PointsInit { admin: "admin".to_string(), st_nibi_token: "t".to_string() },
        Ok(()),
        Ok(()),
    )
    .unwrap();
    let admin = info("admin", vec![]);
    store.execute(&admin, ExecuteMsg::AddToWhitelist { address: "a".to_string() }, Ok(()), Ok(())).unwrap();
    store.execute(&admin, ExecuteMsg::AddToWhitelist { address: "b".to_string() }, Ok(()), Ok(())).unwrap();
    store.execute(&admin, ExecuteMsg::AddPoints { address: "a".to_string(), points: u64::MAX }, Ok(()), Ok(())).unwrap();
    assert!(!store.execute_fits(&ExecuteMsg::AddPoints { address: "a".to_string(), points: 1 }));
    assert!(store.execute_fits(&ExecuteMsg::AddPoints { address: "b".to_string(), points: 1 }));
    store.execute(&admin, ExecuteMsg::AddPoints { address: "b".to_string(), points: 1 }, Ok(()), Ok(())).unwrap();
    assert!(!store.total_points_fit());
    let to_a = ExecuteMsg::TransferPoints { from: "b".to_string(), to: "a".to_string(), points: 1 };
    assert!(!store.execute_fits(&to_a));
}
