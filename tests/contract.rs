use admin_donations::contract::{admins_list, greet};
use admin_donations::decimal::decimal_string;
use admin_donations::msg::{
    AdminListResp, Coin, ContractError, ExecuteMsg, GreetResp, InstantiateMsg, MessageInfo,
    PaymentError, QueryMsg, QueryResp, Response,
};
use admin_donations::state::State;
use admin_donations::{execute, instantiate, query};

fn accepted_all(ids: &[&str]) -> Vec<Option<String>> {
    ids.iter().map(|i| Some(i.to_string())).collect()
}

fn setup(admins: &[&str], denom: &str) -> State {
    instantiate(
        InstantiateMsg {
            admins: admins.iter().map(|a| a.to_string()).collect(),
            donation_denom: denom.to_owned(),
        },
        accepted_all(admins),
    )
    .unwrap()
}

fn info(sender: &str, funds: &[(u128, &str)]) -> MessageInfo {
    MessageInfo {
        sender: sender.to_owned(),
        funds: funds
            .iter()
            .map(|(amount, denom)| Coin { denom: denom.to_string(), amount: *amount })
            .collect(),
    }
}

fn add(state: &mut State, sender: &str, admins: &[&str]) -> Result<Response, ContractError> {
    execute(
        state,
        &info(sender, &[]),
        ExecuteMsg::AddMembers { admins: admins.iter().map(|a| a.to_string()).collect() },
        accepted_all(admins),
    )
}

fn donate_now(state: &mut State, sender: &str, funds: &[(u128, &str)]) -> Result<Response, ContractError> {
    execute(state, &info(sender, funds), ExecuteMsg::Donate {}, vec![])
}

fn received(resp: &Response, who: &str, denom: &str) -> u128 {
    resp.messages
        .iter()
        .filter(|m| m.to_address == who && m.denom == denom)
        .map(|m| m.amount)
        .sum()
}

fn attr<'a>(attrs: &'a [admin_donations::msg::Attribute], key: &str) -> &'a str {
    &attrs.iter().find(|a| a.key == key).unwrap().value
}

fn listed(state: &State) -> Vec<String> {
    match query(state, QueryMsg::AdminsList {}) {
        QueryResp::AdminsList(l) => l.admins,
        other => panic!("unexpected reply {:?}", other),
    }
}

#[test]
fn greet_query_module() {
    let resp = greet();
    assert_eq!(resp, GreetResp { message: "Hello World".to_owned() });
}

#[test]
fn greet_query() {
    let state = setup(&[], "eth");
    let resp = query(&state, QueryMsg::Greet {});
    assert_eq!(resp, QueryResp::Greet(GreetResp { message: "Hello World".to_owned() }));
}

#[test]
fn greet_query_multitest() {
    let state = setup(&[], "eth");
    match query(&state, QueryMsg::Greet {}) {
        QueryResp::Greet(resp) => {
            assert_eq!(resp, GreetResp { message: "Hello World".to_owned() })
        }
        other => panic!("unexpected reply {:?}", other),
    }
}

#[test]
fn admins_list_query_multitest() {
    let state = setup(&[], "eth");
    assert_eq!(admins_list(&state), AdminListResp { admins: vec![] });

    let state = setup(&["admin1", "admin2"], "eth");
    assert_eq!(
        admins_list(&state),
        AdminListResp { admins: vec!["admin1".to_owned(), "admin2".to_owned()] }
    );
}

#[test]
fn unauthorized() {
    let mut state = setup(&[], "eth");
    let err = add(&mut state, "user", &["user"]).unwrap_err();
    assert_eq!(ContractError::Unauthorized { sender: "user".to_owned() }, err);
}

#[test]
fn add_members() {
    let mut state = setup(&["owner"], "eth");
    let resp = add(&mut state, "owner", &["user"]).unwrap();

    assert_eq!(attr(&resp.attributes, "action"), "add_members");
    assert_eq!(attr(&resp.attributes, "added_count"), "1");

    let admin_added: Vec<_> = resp.events.iter().filter(|ev| ev.ty == "admin_added").collect();
    assert_eq!(admin_added.len(), 1);
    assert_eq!(attr(&admin_added[0].attributes, "addr"), "user");
}

#[test]
fn donate() {
    let mut state = setup(&["admins1", "admins2"], "eth");
    let resp = donate_now(&mut state, "user", &[(5, "eth")]).unwrap();

    let paid: u128 = resp.messages.iter().map(|m| m.amount).sum();
    assert_eq!(5 - paid, 1);
    assert_eq!(received(&resp, "admins1", "eth"), 2);
    assert_eq!(received(&resp, "admins2", "eth"), 2);
    assert_eq!(received(&resp, "user", "eth"), 0);
}

#[test]
fn greedy_admin() {
    let mut state = setup(&["owner1", "owner2"], "eth");
    add(&mut state, "owner1", &["owner1"]).unwrap();
    assert_eq!(listed(&state), vec!["owner1", "owner2", "owner1"]);

    let resp = donate_now(&mut state, "user", &[(4, "eth")]).unwrap();
    let paid: u128 = resp.messages.iter().map(|m| m.amount).sum();
    assert_eq!(resp.messages.len(), 3);
    assert_eq!(4 - paid, 1);
    assert_eq!(received(&resp, "owner1", "eth"), 2);
    assert_eq!(received(&resp, "owner2", "eth"), 1);
    assert_eq!(attr(&resp.attributes, "per_admin"), "1");
}

#[test]
fn donate_attributes_report_amount_and_share() {
    let mut state = setup(&["admin1", "admin2"], "eth");
    let resp = donate_now(&mut state, "user", &[(5, "eth")]).unwrap();
    assert_eq!(attr(&resp.attributes, "action"), "donate");
    assert_eq!(attr(&resp.attributes, "amount"), "5");
    assert_eq!(attr(&resp.attributes, "per_admin"), "2");
    assert!(resp.messages.iter().all(|m| m.denom == "eth" && m.amount == 2));
    assert_eq!(resp.messages[0].to_address, "admin1");
    assert_eq!(resp.messages[1].to_address, "admin2");
    assert!(resp.events.is_empty());
}

#[test]
fn donate_split_keeps_remainder() {
    let mut state = setup(&["a", "b", "c"], "eth");
    let resp = donate_now(&mut state, "user", &[(1000, "eth")]).unwrap();
    let paid: u128 = resp.messages.iter().map(|m| m.amount).sum();
    assert_eq!(paid, 999);
    assert_eq!(attr(&resp.attributes, "per_admin"), "333");
}

#[test]
fn donate_wrong_denom_fails() {
    let mut state = setup(&["admin1"], "eth");
    let before = state.clone();
    let err = donate_now(&mut state, "user", &[(5, "btc")]).unwrap_err();
    assert_eq!(err, ContractError::Payment(PaymentError::MissingDenom("eth".to_owned())));
    assert_eq!(state, before);
}

#[test]
fn donate_without_funds_fails() {
    let mut state = setup(&["admin1"], "eth");
    let err = donate_now(&mut state, "user", &[]).unwrap_err();
    assert_eq!(err, ContractError::Payment(PaymentError::NoFunds {}));
}

#[test]
fn donate_zero_amount_fails() {
    let mut state = setup(&["admin1"], "eth");
    let err = donate_now(&mut state, "user", &[(0, "eth")]).unwrap_err();
    assert_eq!(err, ContractError::Payment(PaymentError::NoFunds {}));
}

#[test]
fn donate_two_denoms_fails() {
    let mut state = setup(&["admin1"], "eth");
    let err = donate_now(&mut state, "user", &[(5, "eth"), (1, "btc")]).unwrap_err();
    assert_eq!(err, ContractError::Payment(PaymentError::MultipleDenoms {}));
}

#[test]
fn donate_without_admins_fails() {
    let mut state = setup(&[], "eth");
    let err = donate_now(&mut state, "user", &[(5, "eth")]).unwrap_err();
    assert_eq!(err, ContractError::NoRecipients {});
}

#[test]
fn instantiate_empty_lists_nothing() {
    let state = setup(&[], "eth");
    assert!(listed(&state).is_empty());
}

#[test]
fn instantiate_keeps_order() {
    let state = setup(&["c", "a", "b"], "eth");
    assert_eq!(listed(&state), vec!["c", "a", "b"]);
    assert_eq!(state.donation_denom, "eth");
}

#[test]
fn instantiate_refused_identity_fails() {
    let err = instantiate(
        InstantiateMsg {
            admins: vec!["good".to_owned(), "BAD".to_owned(), "worse".to_owned()],
            donation_denom: "eth".to_owned(),
        },
        vec![Some("good".to_owned()), None, None],
    )
    .unwrap_err();
    assert_eq!(err, ContractError::IdentityValidationFailed { identity: "BAD".to_owned() });
}

#[test]
fn add_members_refused_identity_changes_nothing() {
    let mut state = setup(&["owner"], "eth");
    let before = state.clone();
    let err = execute(
        &mut state,
        &info("owner", &[]),
        ExecuteMsg::AddMembers { admins: vec!["ok".to_owned(), "BAD".to_owned()] },
        vec![Some("ok".to_owned()), None],
    )
    .unwrap_err();
    assert_eq!(err, ContractError::IdentityValidationFailed { identity: "BAD".to_owned() });
    assert_eq!(state, before);
}

#[test]
fn unauthorized_changes_nothing() {
    let mut state = setup(&["owner"], "eth");
    let before = state.clone();
    assert!(add(&mut state, "stranger", &["x", "y"]).is_err());
    assert_eq!(state, before);
}

#[test]
fn add_members_appends_in_order_with_events() {
    let mut state = setup(&["owner"], "eth");
    let resp = add(&mut state, "owner", &["x", "y", "owner"]).unwrap();
    assert_eq!(listed(&state), vec!["owner", "x", "y", "owner"]);
    assert_eq!(attr(&resp.attributes, "added_count"), "3");
    let tagged: Vec<&str> = resp.events.iter().map(|e| attr(&e.attributes, "addr")).collect();
    assert_eq!(tagged, vec!["x", "y", "owner"]);
    assert!(resp.events.iter().all(|e| e.ty == "admin_added"));
    assert!(resp.messages.is_empty());
}

#[test]
fn leave_removes_every_occurrence() {
    let mut state = setup(&["a", "b", "a", "c"], "eth");
    let resp = execute(&mut state, &info("a", &[]), ExecuteMsg::Leave {}, vec![]).unwrap();
    assert_eq!(listed(&state), vec!["b", "c"]);
    assert!(resp.messages.is_empty() && resp.attributes.is_empty() && resp.events.is_empty());
}

#[test]
fn leave_when_absent_is_noop() {
    let mut state = setup(&["a", "b"], "eth");
    let before = state.clone();
    execute(&mut state, &info("z", &[]), ExecuteMsg::Leave {}, vec![]).unwrap();
    assert_eq!(state, before);
}

#[test]
fn greet_ignores_state() {
    let mut state = setup(&["a"], "eth");
    add(&mut state, "a", &["b"]).unwrap();
    assert_eq!(
        query(&state, QueryMsg::Greet {}),
        QueryResp::Greet(GreetResp { message: "Hello World".to_owned() })
    );
}

#[test]
fn decimal_string_values() {
    assert_eq!(decimal_string(0), "0");
    assert_eq!(decimal_string(7), "7");
    assert_eq!(decimal_string(10), "10");
    assert_eq!(decimal_string(1234567890), "1234567890");
    assert_eq!(decimal_string(u128::MAX), u128::MAX.to_string());
}
