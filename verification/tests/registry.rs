use nexus_staking::host::{Coin, Delegation, FullDelegation, MessageInfo, Msg, StdError, WasmCall};
use nexus_staking::validator_registry::{
    calculate_delegations, instantiate, sort_by_delegation, InstantiateMsg, RegistryStore, Validator, ValidatorResponse,
};

fn info(sender: &str) -> MessageInfo {
    MessageInfo { sender: sender.to_string(), funds: vec![] }
}

fn v(total: u128, address: &str) -> ValidatorResponse {
    ValidatorResponse { total_delegated: total, address: address.to_string() }
}

fn coin(amount: u128) -> Coin {
    Coin { denom: "unibi".to_string(), amount }
}

fn delegation(validator: &str, amount: u128) -> Delegation {
    Delegation { delegator: "hub".to_string(), validator: validator.to_string(), amount: coin(amount) }
}

fn registry() -> RegistryStore {
    let msg = InstantiateMsg {
        registry: vec![Validator { address: "val1".to_string() }, Validator { address: "val2".to_string() }],
        staking_nibi_contract: "hub".to_string(),
    };
    instantiate(&info("owner"), msg, Ok(())).unwrap().0
}

#[test]
fn delegations_fill_the_emptiest_validators_first() {
    let vs = vec![v(0, "a"), v(10, "b")];
    assert_eq!(calculate_delegations(10, &vs).unwrap(), vec![10, 0]);
    let vs = vec![v(0, "a"), v(0, "b"), v(0, "c")];
    assert_eq!(calculate_delegations(10, &vs).unwrap(), vec![4, 3, 3]);
}

#[test]
fn delegations_add_up_to_the_amount() {
    let vs = vec![v(7, "a"), v(100, "b"), v(3, "c"), v(0, "d")];
    let d = calculate_delegations(1_000, &vs).unwrap();
    assert_eq!(d.iter().sum::<u128>(), 1_000);
}

#[test]
fn no_validator_no_delegation() {
    let err = calculate_delegations(10, &vec![]).unwrap_err();
    assert_eq!(err, StdError::Generic { msg: "Empty validators set" });
}

#[test]
fn sorting_keeps_the_order_of_equal_amounts() {
    let sorted = sort_by_delegation(vec![v(5, "a"), v(1, "b"), v(5, "c"), v(0, "d"), v(1, "e")]);
    let names: Vec<&str> = sorted.iter().map(|x| x.address.as_str()).collect();
    assert_eq!(names, vec!["d", "b", "e", "a", "c"]);
}

#[test]
fn instantiate_stores_every_validator() {
    let store = registry();
    assert_eq!(store.registry.len(), 2);
    assert_eq!(store.config.owner, "owner");
    assert_eq!(store.config.staking_nibi_contract, "hub");
}

#[test]
fn the_hub_and_the_owner_add_validators() {
    let mut store = registry();
    store.add_validator(&info("hub"), Validator { address: "val3".to_string() }).unwrap();
    store.add_validator(&info("owner"), Validator { address: "val3".to_string() }).unwrap();
    assert_eq!(store.registry.len(), 3);
    let err = store.add_validator(&info("bob"), Validator { address: "val4".to_string() }).unwrap_err();
    assert_eq!(err, StdError::Generic { msg: "unauthorized" });
}

#[test]
fn the_last_validator_stays() {
    let mut store = registry();
    store.remove_validator(&info("owner"), "val1".to_string(), Ok(vec![]), Ok(None)).unwrap();
    assert_eq!(store.registry.len(), 1);
    let err = store.remove_validator(&info("owner"), "val2".to_string(), Ok(vec![]), Ok(None)).unwrap_err();
    assert_eq!(err, StdError::Generic { msg: "Cannot remove the last validator in the registry" });
    assert_eq!(store.registry.len(), 1);
    assert_eq!(store.registry.keys(), vec!["val2".to_string()]);
}

#[test]
fn removing_an_unknown_validator_keeps_the_rest() {
    let mut store = registry();
    let res = store.remove_validator(&info("owner"), "val9".to_string(), Ok(vec![]), Ok(None)).unwrap();
    assert!(res.messages.is_empty());
    assert_eq!(store.registry.len(), 2);
}

#[test]
fn a_failed_delegation_query_stops_the_removal() {
    let mut store = registry();
    let e = StdError::Host { msg: "query failed".to_string() };
    let err = store.remove_validator(&info("owner"), "val1".to_string(), Err(e.clone()), Ok(None)).unwrap_err();
    assert_eq!(err, e);
    assert_eq!(store.registry.len(), 2);
    let err = store.remove_validator(&info("bob"), "val1".to_string(), Ok(vec![]), Ok(None)).unwrap_err();
    assert_eq!(err, StdError::Generic { msg: "unauthorized" });
}

#[test]
fn a_removal_redelegates_over_the_rest() {
    let mut store = registry();
    store.add_validator(&info("owner"), Validator { address: "val3".to_string() }).unwrap();
    let ds = vec![delegation("val1", 200), delegation("val2", 300), delegation("val3", 100)];
    let d = FullDelegation {
        delegator: "hub".to_string(),
        validator: "val1".to_string(),
        amount: coin(200),
        can_redelegate: coin(200),
    };
    let res = store.remove_validator(&info("owner"), "val1".to_string(), Ok(ds), Ok(Some(d))).unwrap();
    assert_eq!(store.registry.len(), 2);
    assert_eq!(res.messages.len(), 2);
    match &res.messages[0] {
        Msg::Execute { contract_addr, call: WasmCall::RedelegateProxy { src_validator, redelegations }, .. } => {
            assert_eq!(contract_addr, "hub");
            assert_eq!(src_validator, "val1");
            assert_eq!(redelegations.len(), 1);
            assert_eq!(redelegations[0].0, "val3");
            assert_eq!(redelegations[0].1.amount, 200);
        }
        _ => panic!("expected a redelegation"),
    }
    assert!(matches!(&res.messages[1], Msg::Execute { call: WasmCall::DispatchRewards, .. }));
}

#[test]
fn a_locked_delegation_stays_where_it_is() {
    let mut store = registry();
    let d = FullDelegation {
        delegator: "hub".to_string(),
        validator: "val1".to_string(),
        amount: coin(200),
        can_redelegate: coin(0),
    };
    let res = store.remove_validator(&info("owner"), "val1".to_string(), Ok(vec![]), Ok(Some(d))).unwrap();
    assert!(res.messages.is_empty());
    assert_eq!(store.registry.len(), 1);
}

#[test]
fn validators_report_the_last_delegation_to_them() {
    let store = registry();
    let ds = vec![
        Delegation { delegator: "hub".to_string(), validator: "val2".to_string(), amount: coin(9) },
        Delegation { delegator: "hub".to_string(), validator: "val2".to_string(), amount: coin(4) },
    ];
    let vs = store.query_validators(&Ok(ds.clone())).unwrap();
    assert_eq!(vs[0].total_delegated, 0);
    assert_eq!(vs[1].total_delegated, 4);
    let sorted = store.query_validators_for_delegation(&Ok(ds)).unwrap();
    assert_eq!(sorted[0].address, "val1");
}

#[test]
fn only_the_owner_updates_the_registry_config() {
    let mut store = registry();
    let err = store.execute_update_config(&info("bob"), Some("bob".to_string()), None, Ok(()), Ok(())).unwrap_err();
    assert_eq!(err, StdError::Generic { msg: "unauthorized" });
    store.execute_update_config(&info("owner"), None, Some("hub2".to_string()), Ok(()), Ok(())).unwrap();
    assert_eq!(store.query_config().staking_nibi_contract, "hub2");
}
