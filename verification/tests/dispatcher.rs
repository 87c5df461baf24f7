use nexus_staking::decimal::Decimal;
use nexus_staking::host::{AttrValue, MessageInfo, Msg, StdError, WasmCall};
use nexus_staking::hub::Parameters;
use nexus_staking::reward_dispatcher::{compute_nexus_fee, instantiate, Config, InstantiateMsg};
use nexus_staking::rewards_dispatcher;

fn info(sender: &str) -> MessageInfo {
    MessageInfo { sender: sender.to_string(), funds: vec![] }
}

fn params(paused: Option<bool>) -> Parameters {
    Parameters { epoch_period: 1, underlying_coin_denom: "unibi".to_string(), unbonding_period: 1, paused }
}

fn dispatcher(rate: Decimal) -> Config {
    let msg = InstantiateMsg {
        staking_nibi_contract: "hub".to_string(),
        stnibi_reward_denom: "unibi".to_string(),
        nexusfi_fee_address: "fees".to_string(),
        nexusfi_fee_rate: rate,
    };
    instantiate(&info("owner"), msg, Ok(()), Ok(())).unwrap().0
}

#[test]
fn the_fee_is_the_rate_of_the_amount() {
    assert_eq!(compute_nexus_fee(1000, Decimal::from_ratio(1, 10)), 100);
    assert_eq!(compute_nexus_fee(999, Decimal::from_ratio(1, 10)), 99);
    assert_eq!(rewards_dispatcher::compute_nexus_fee(50, Decimal::zero()), 0);
}

#[test]
fn a_dispatch_splits_the_whole_balance() {
    let c = dispatcher(Decimal::from_ratio(5, 100));
    let res = c.execute_dispatch_rewards(&info("hub"), Ok(params(Some(false))), Ok(1000)).unwrap();
    assert_eq!(res.messages.len(), 2);
    match &res.messages[0] {
        Msg::Execute { contract_addr, call: WasmCall::BondRewards, funds } => {
            assert_eq!(contract_addr, "hub");
            assert_eq!(funds[0].amount, 950);
        }
        _ => panic!("expected the rewards"),
    }
    match &res.messages[1] {
        Msg::BankSend { to_address, amount } => {
            assert_eq!(to_address, "fees");
            assert_eq!(amount[0].amount, 50);
        }
        _ => panic!("expected the fee"),
    }
    assert_eq!(res.attributes.len(), 3);
    assert_eq!(res.attributes[2].key, "lido_statom_fee");
    assert!(matches!(&res.attributes[1].value, AttrValue::Coin(c) if c.amount == 950));
}

#[test]
fn without_a_fee_everything_goes_to_the_hub() {
    let c = dispatcher(Decimal::zero());
    let res = c.execute_dispatch_rewards(&info("hub"), Ok(params(None)), Ok(70)).unwrap();
    assert_eq!(res.messages.len(), 1);
    assert_eq!(res.attributes.len(), 2);
}

#[test]
fn a_dispatch_is_for_the_hub_and_not_while_paused() {
    let c = dispatcher(Decimal::zero());
    let err = c.execute_dispatch_rewards(&info("bob"), Ok(params(None)), Ok(70)).unwrap_err();
    assert_eq!(err, StdError::Generic { msg: "unauthorized" });
    let err = c.execute_dispatch_rewards(&info("hub"), Ok(params(Some(true))), Ok(70)).unwrap_err();
    assert_eq!(err, StdError::Generic { msg: "the contract is temporarily paused" });
}

#[test]
fn a_fee_above_the_balance_underflows() {
    let c = dispatcher(Decimal::from_ratio(3, 2));
    let err = c.execute_dispatch_rewards(&info("hub"), Ok(params(None)), Ok(10)).unwrap_err();
    assert_eq!(err, StdError::Overflow);
}

#[test]
fn the_reward_denomination_cannot_change() {
    let mut c = dispatcher(Decimal::zero());
    let err = c
        .execute_update_config(
            &info("owner"),
            None,
            None,
            Some("x".to_string()),
            None,
            None,
            Ok(()),
            Ok(()),
            Ok(()),
            Ok(()),
        )
        .unwrap_err();
    assert_eq!(err, StdError::Generic { msg: "updating statom reward denom is forbidden" });
    c.execute_update_config(&info("owner"), None, None, None, None, Some(Decimal::one()), Ok(()), Ok(()), Ok(()), Ok(()))
        .unwrap();
    assert_eq!(c.query_config().nexusfi_fee_rate, Decimal::one());
}

#[test]
fn the_staking_dispatcher_logs_its_own_keys() {
    let msg = rewards_dispatcher::InstantiateMsg {
        hub_contract: "hub".to_string(),
        stnibi_reward_denom: "unibi".to_string(),
        nexus_fee_address: "fees".to_string(),
        nexus_fee_rate: Decimal::from_ratio(1, 2),
    };
    let (c, _) = rewards_dispatcher::instantiate(&info("owner"), msg, Ok(()), Ok(())).unwrap();
    let res = c.execute_dispatch_rewards(&info("hub"), Ok(params(None)), Ok(9)).unwrap();
    assert_eq!(res.attributes[1].key, "stnibi_rewards");
    assert_eq!(res.attributes[2].key, "nexus_stnibi_fee");
    assert!(matches!(&res.attributes[2].value, AttrValue::Coin(c) if c.amount == 4));
}
