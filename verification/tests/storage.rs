use nexus_staking::decimal::Decimal;
use nexus_staking::host::{Env, MessageInfo, StdError};
use nexus_staking::hub::{InstantiateMsg, UnbondHistory};
use nexus_staking::staking::contract::{document_unbonding_process, instantiate};
use nexus_staking::staking::state::{convert, remove_and_accumulate_lock_info, HubStore};

fn store() -> HubStore {
    let env = Env { block_time: 1_000, block_height: 1, contract_address: "hub".to_string() };
    let info = MessageInfo { sender: "creator".to_string(), funds: vec![] };
    let msg = InstantiateMsg { epoch_period: 30, underlying_coin_denom: "unibi".to_string(), unbonding_period: 100 };
    instantiate(&env, &info, msg).0
}

fn batch(id: u64, time: u64, withdraw_rate: u128, released: bool) -> UnbondHistory {
    UnbondHistory {
        batch_id: id,
        time,
        stnibi_amount: 0,
        stnibi_applied_exchange_rate: Decimal::one(),
        stnibi_withdraw_rate: Decimal { atomics: withdraw_rate },
        released,
    }
}

#[test]
fn convert_gives_the_key_after_the_big_endian_id() {
    assert_eq!(convert(None), None);
    assert_eq!(convert(Some(0x0102_0304_0506_0708)), Some(vec![1, 2, 3, 4, 5, 6, 7, 8, 1]));
    assert_eq!(convert(Some(0)), Some(vec![0, 0, 0, 0, 0, 0, 0, 0, 1]));
}

#[test]
fn due_locks_are_taken_and_summed() {
    let mut locks = vec![(10u64, 5u128), (20, 7), (30, 11)];
    assert_eq!(remove_and_accumulate_lock_info(&mut locks, 20), 12);
    assert_eq!(locks, vec![(30, 11)]);
    assert_eq!(remove_and_accumulate_lock_info(&mut locks, 29), 0);
    assert_eq!(locks, vec![(30, 11)]);
    assert_eq!(remove_and_accumulate_lock_info(&mut locks, 30), 11);
    assert!(locks.is_empty());
}

#[test]
fn wait_list_entries_add_up_and_can_be_removed() {
    let mut s = store();
    let alice = "alice".to_string();
    s.store_unbond_wait_list(1, alice.clone(), 40);
    s.store_unbond_wait_list(1, alice.clone(), 2);
    s.store_unbond_wait_list(4, alice.clone(), 9);
    assert_eq!(s.read_unbond_wait_list(1, &alice).unwrap().stnibi_amount, 42);
    assert_eq!(s.get_unbond_requests(&alice), vec![(1, 42), (4, 9)]);
    match s.read_unbond_wait_list(2, &alice) {
        Err(StdError::NotFound { kind }) => assert_eq!(kind, "nexus_staking::hub::UnbondWaitEntity"),
        _ => panic!("an absent batch is not found"),
    }
    s.remove_unbond_wait_list(vec![1, 7], alice.clone());
    assert_eq!(s.get_unbond_requests(&alice), vec![(4, 9)]);
    s.remove_unbond_wait_list(vec![1], "bob".to_string());
    assert!(s.get_unbond_requests(&"bob".to_string()).is_empty());
}

#[test]
fn only_released_batches_are_finished() {
    let mut s = store();
    let alice = "alice".to_string();
    s.store_unbond_history(1, batch(1, 10, 500_000_000_000_000_000, true));
    s.store_unbond_history(2, batch(2, 20, 1_000_000_000_000_000_000, false));
    s.store_unbond_wait_list(1, alice.clone(), 100);
    s.store_unbond_wait_list(2, alice.clone(), 60);
    s.store_unbond_wait_list(3, alice.clone(), 80);
    let (amount, batches) = s.get_finished_amount(&alice);
    assert_eq!(amount, 50);
    assert_eq!(batches, vec![1]);
    assert_eq!(s.query_get_finished_amount(&alice, 21), 110);
    assert_eq!(s.query_get_finished_amount(&alice, 20), 50);
}

#[test]
fn the_issued_supply_is_read_from_the_state() {
    let mut s = store();
    assert_eq!(s.query_total_stnibi_issued(), 0);
    s.state.total_stnibi_issued = 77;
    assert_eq!(s.query_total_stnibi_issued(), 77);
}

#[test]
fn the_unbonding_process_is_documented() {
    assert_eq!(document_unbonding_process(), "See function documentation for unbonding process details");
}
