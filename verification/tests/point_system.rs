use nexus_staking::host::{MessageInfo, StdError};
use nexus_staking::point_system::{
    instantiate, ContractError, ExecuteMsg, InstantiateMsg, PointSystem, QueryMsg, QueryResponse,
};

fn info(sender: &str) -> MessageInfo {
    MessageInfo { sender: sender.to_string(), funds: vec![] }
}

fn setup() -> PointSystem {
    let msg = InstantiateMsg { admin: "admin".to_string(), st_nibi_token: "st_nibi_token".to_string() };
    let (store, _) = instantiate(msg, Ok(()), Ok(())).unwrap();
    store
}

fn run(store: &mut PointSystem, sender: &str, msg: ExecuteMsg) -> Result<nexus_staking::host::Response, ContractError> {
    store.execute(&info(sender), msg, Ok(()), Ok(()))
}

fn ask(store: &PointSystem, msg: QueryMsg) -> QueryResponse {
    store.query(msg, Ok(()), Ok(0)).unwrap()
}

#[test]
fn proper_initialization() {
    let msg = InstantiateMsg { admin: "admin".to_string(), st_nibi_token: "st_nibi_token".to_string() };
    let (_, res) = instantiate(msg, Ok(()), Ok(())).unwrap();
    assert_eq!(2, res.attributes.len());
}

#[test]
fn add_to_whitelist() {
    let mut store = setup();
    let res = run(&mut store, "admin", ExecuteMsg::AddToWhitelist { address: "user".to_string() }).unwrap();
    assert_eq!(2, res.attributes.len());
    match ask(&store, QueryMsg::IsWhitelisted { address: "user".to_string() }) {
        QueryResponse::Whitelist(w) => assert!(w.is_whitelisted),
        _ => panic!("wrong answer"),
    }
}

#[test]
fn add_and_transfer_points() {
    let mut store = setup();
    run(&mut store, "admin", ExecuteMsg::AddToWhitelist { address: "user1".to_string() }).unwrap();
    run(&mut store, "admin", ExecuteMsg::AddToWhitelist { address: "user2".to_string() }).unwrap();
    run(&mut store, "admin", ExecuteMsg::AddPoints { address: "user1".to_string(), points: 100 }).unwrap();
    let msg = ExecuteMsg::TransferPoints { from: "user1".to_string(), to: "user2".to_string(), points: 50 };
    let res = run(&mut store, "user1", msg).unwrap();
    assert_eq!(4, res.attributes.len());
    match ask(&store, QueryMsg::GetPoints { address: "user1".to_string() }) {
        QueryResponse::Points(p) => assert_eq!(50, p.points),
        _ => panic!("wrong answer"),
    }
    match ask(&store, QueryMsg::GetPoints { address: "user2".to_string() }) {
        QueryResponse::Points(p) => assert_eq!(50, p.points),
        _ => panic!("wrong answer"),
    }
}

#[test]
fn update_admin() {
    let mut store = setup();
    let res = run(&mut store, "admin", ExecuteMsg::UpdateAdmin { new_admin: "new_admin".to_string() }).unwrap();
    assert_eq!(2, res.attributes.len());
    match ask(&store, QueryMsg::GetAdmin) {
        QueryResponse::Admin(a) => assert_eq!("new_admin", a.admin),
        _ => panic!("wrong answer"),
    }
}

#[test]
fn query_total_points_and_whitelisted_addresses() {
    let mut store = setup();
    run(&mut store, "admin", ExecuteMsg::AddToWhitelist { address: "user1".to_string() }).unwrap();
    run(&mut store, "admin", ExecuteMsg::AddToWhitelist { address: "user2".to_string() }).unwrap();
    run(&mut store, "admin", ExecuteMsg::AddPoints { address: "user1".to_string(), points: 100 }).unwrap();
    run(&mut store, "admin", ExecuteMsg::AddPoints { address: "user2".to_string(), points: 150 }).unwrap();
    match ask(&store, QueryMsg::GetTotalPoints) {
        QueryResponse::TotalPoints(t) => assert_eq!(250, t.total),
        _ => panic!("wrong answer"),
    }
    match ask(&store, QueryMsg::GetWhitelistedAddresses) {
        QueryResponse::WhitelistedAddresses(w) => {
            assert_eq!(2, w.addresses.len());
            assert!(w.addresses.contains(&"user1".to_string()));
            assert!(w.addresses.contains(&"user2".to_string()));
        }
        _ => panic!("wrong answer"),
    }
}

#[test]
fn only_the_admin_changes_the_whitelist() {
    let mut store = setup();
    let err = run(&mut store, "mallory", ExecuteMsg::AddToWhitelist { address: "user".to_string() }).unwrap_err();
    assert_eq!(err, ContractError::Unauthorized);
}

#[test]
fn a_failed_address_check_is_reported() {
    let mut store = setup();
    let bad = StdError::Host { msg: "invalid address".to_string() };
    let err = store
        .execute(&info("admin"), ExecuteMsg::AddToWhitelist { address: "??".to_string() }, Err(bad.clone()), Ok(()))
        .unwrap_err();
    assert_eq!(err, ContractError::Std(bad));
}

#[test]
fn points_go_only_to_whitelisted_addresses() {
    let mut store = setup();
    let err = run(&mut store, "admin", ExecuteMsg::AddPoints { address: "user".to_string(), points: 5 }).unwrap_err();
    assert_eq!(err, ContractError::NotWhitelisted);
}

#[test]
fn subtracting_more_than_held_fails() {
    let mut store = setup();
    run(&mut store, "admin", ExecuteMsg::AddToWhitelist { address: "user".to_string() }).unwrap();
    run(&mut store, "admin", ExecuteMsg::AddPoints { address: "user".to_string(), points: 5 }).unwrap();
    let err = run(&mut store, "admin", ExecuteMsg::SubtractPoints { address: "user".to_string(), points: 6 }).unwrap_err();
    assert_eq!(err, ContractError::Std(StdError::Generic { msg: "Not enough points" }));
}

#[test]
fn a_transfer_keeps_the_total() {
    let mut store = setup();
    run(&mut store, "admin", ExecuteMsg::AddToWhitelist { address: "a".to_string() }).unwrap();
    run(&mut store, "admin", ExecuteMsg::AddToWhitelist { address: "b".to_string() }).unwrap();
    run(&mut store, "admin", ExecuteMsg::AddPoints { address: "a".to_string(), points: 70 }).unwrap();
    run(&mut store, "admin", ExecuteMsg::AddPoints { address: "b".to_string(), points: 30 }).unwrap();
    run(&mut store, "a", ExecuteMsg::TransferPoints { from: "a".to_string(), to: "b".to_string(), points: 25 }).unwrap();
    match ask(&store, QueryMsg::GetTotalPoints) {
        QueryResponse::TotalPoints(t) => assert_eq!(100, t.total),
        _ => panic!("wrong answer"),
    }
}

#[test]
fn adding_then_subtracting_restores_the_points() {
    let mut store = setup();
    run(&mut store, "admin", ExecuteMsg::AddToWhitelist { address: "a".to_string() }).unwrap();
    run(&mut store, "admin", ExecuteMsg::AddPoints { address: "a".to_string(), points: 12 }).unwrap();
    run(&mut store, "admin", ExecuteMsg::AddPoints { address: "a".to_string(), points: 30 }).unwrap();
    run(&mut store, "admin", ExecuteMsg::SubtractPoints { address: "a".to_string(), points: 30 }).unwrap();
    match ask(&store, QueryMsg::GetPoints { address: "a".to_string() }) {
        QueryResponse::Points(p) => assert_eq!(12, p.points),
        _ => panic!("wrong answer"),
    }
}
