use nexus_staking::avs;
use nexus_staking::host::{Coin, MessageInfo, Msg, StdError, WasmCall};
use nexus_staking::hub::{Cw20HookMsg, Parameters};
use nexus_staking::token::{check_not_paused, TokenStore};
use nexus_staking::vault::{instantiate, ExecuteMsg, InstantiateMsg, VaultStore};

fn info(sender: &str, funds: Vec<Coin>) -> MessageInfo {
    MessageInfo { sender: sender.to_string(), funds }
}

fn stnibi(amount: u128) -> Coin {
    Coin { denom: "stnibi".to_string(), amount }
}

fn vault() -> VaultStore {
    instantiate(InstantiateMsg { stnibi_denom: "stnibi".to_string() }).0
}

#[test]
fn lock_then_unlock_restores_the_locked_amount() {
    let mut v = vault();
    v.execute(&info("alice", vec![stnibi(30)]), ExecuteMsg::Lock).unwrap();
    v.execute(&info("alice", vec![stnibi(12)]), ExecuteMsg::Lock).unwrap();
    assert_eq!(v.query_locked_amount(&"alice".to_string()), 42);
    let res = v.execute(&info("alice", vec![]), ExecuteMsg::Unlock { amount: 12 }).unwrap();
    assert_eq!(v.query_locked_amount(&"alice".to_string()), 30);
    match &res.messages[0] {
        Msg::BankSend { to_address, amount } => {
            assert_eq!(to_address, "alice");
            assert_eq!(amount[0].amount, 12);
            assert_eq!(amount[0].denom, "stnibi");
        }
        _ => panic!("expected a send"),
    }
}

#[test]
fn a_lock_needs_stnibi() {
    let mut v = vault();
    let err = v.execute_lock(&info("alice", vec![Coin { denom: "unibi".to_string(), amount: 5 }])).unwrap_err();
    assert_eq!(err, StdError::Generic { msg: "No stNIBI token sent" });
}

#[test]
fn unlocking_more_than_locked_fails() {
    let mut v = vault();
    let err = v.execute_unlock(&info("alice", vec![]), 1).unwrap_err();
    assert_eq!(err, StdError::NotFound { kind: "UserInfo" });
    v.execute_lock(&info("alice", vec![stnibi(3)])).unwrap();
    let err = v.execute_unlock(&info("alice", vec![]), 4).unwrap_err();
    assert_eq!(err, StdError::Generic { msg: "Insufficient locked balance" });
    assert_eq!(v.query_locked_amount(&"bob".to_string()), 0);
}

#[test]
fn the_token_forwards_unbonds_and_restakes_to_the_hub() {
    let t = TokenStore { hub_contract: "hub".to_string() };
    let res = t.transfer_stnibi_token(&info("alice", vec![]), 9).unwrap();
    assert!(matches!(
        &res.messages[0],
        Msg::Execute { contract_addr, call: WasmCall::Receive { sender, amount: 9, hook: Cw20HookMsg::Unbond }, .. }
            if contract_addr == "hub" && sender == "alice"
    ));
    let res = t.restake_stnibi_token(&info("alice", vec![]), 4).unwrap();
    assert!(matches!(&res.messages[0], Msg::Execute { call: WasmCall::Restake { amount: 4, .. }, .. }));
}

#[test]
fn the_token_stops_while_the_hub_is_paused() {
    let p = Parameters { epoch_period: 1, underlying_coin_denom: "unibi".to_string(), unbonding_period: 1, paused: Some(true) };
    assert_eq!(check_not_paused(Ok(p)).unwrap_err(), StdError::Generic { msg: "The contract is temporarily paused" });
}

#[test]
fn operators_register_themselves() {
    let (mut store, res) = avs::instantiate(&info("creator", vec![]), avs::InstantiateMsg { initial_owner: "o".to_string() });
    assert_eq!(res.attributes.len(), 2);
    assert_eq!(store.operator_details.metadata_uri, "none");
    let details = avs::OperatorDetails {
        earnings_receiver: "op".to_string(),
        delegation_approver: None,
        metadata_uri: "uri".to_string(),
    };
    store.register_as_operator(&info("op", vec![]), details, "uri".to_string());
    assert_eq!(store.operators.len(), 1);
}
