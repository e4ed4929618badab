use rome_contract::coin_helpers::assert_sent_exact_coin;
use rome_contract::constants::{admin, deleted_tag, deletion_notice, gateway_prefix, payout_address};
use rome_contract::contract::{
    execute, execute_create_post, execute_delete_post, execute_edit_post, execute_withdraw,
    instantiate, migrate, query, query_all_posts, query_post,
};
use rome_contract::error::ContractError;
use rome_contract::msg::{ExecuteMsg, InstantiateMsg, MigrateMsg, QueryMsg, QueryResponse};
use rome_contract::numeral::u64_to_decimal;
use rome_contract::state::{Coin, ContractState, Env, MessageInfo};
use rome_contract::validation::validate;

fn juno(amount: u128) -> Coin {
    Coin { amount, denom: "ujunox".to_string() }
}

fn info(sender: &str, funds: Vec<Coin>) -> MessageInfo {
    MessageInfo { sender: sender.to_string(), funds }
}

fn fresh_state() -> ContractState {
    let msg = InstantiateMsg { admin: None };
    let (state, _resp) = instantiate(&info(admin(), vec![]), msg).unwrap();
    state
}

fn valid_external_id() -> String {
    format!("{}abc123", gateway_prefix())
}

fn create(state: &mut ContractState, time: u64, sender: &str, title: &str) -> u64 {
    let resp = execute_create_post(
        state,
        &Env { time },
        &info(sender, vec![juno(1_000_000)]),
        title.to_string(),
        valid_external_id(),
        "some text".to_string(),
        vec!["tag".to_string()],
    )
    .unwrap();
    resp.attributes[1].value.parse().unwrap()
}

#[test]
fn instantiate_by_admin_succeeds() {
    let msg = InstantiateMsg { admin: None };
    let (state, resp) = instantiate(&info(admin(), vec![]), msg).unwrap();
    assert_eq!(state.last_post_id, 0);
    assert!(state.posts.is_empty());
    assert_eq!(state.config.admin, admin());
    assert_eq!(resp.attributes.len(), 2);
    assert_eq!(resp.attributes[0].key, "action");
    assert_eq!(resp.attributes[0].value, "instantiate");
    assert_eq!(resp.attributes[1].key, "admin");
    assert_eq!(resp.attributes[1].value, admin());
    assert!(resp.messages.is_empty());
}

#[test]
fn instantiate_by_other_unauthorized() {
    let msg = InstantiateMsg { admin: None };
    let r = instantiate(&info("juno1somebodyelse", vec![]), msg);
    assert_eq!(r.unwrap_err(), ContractError::Unauthorized);
}

#[test]
fn create_post_assigns_sequential_ids() {
    let mut state = fresh_state();
    for expected in 1..=5u64 {
        let id = create(&mut state, 7, "juno1author", "a title");
        assert_eq!(id, expected);
    }
    assert_eq!(state.last_post_id, 5);
    let ids: Vec<u64> = state.posts.iter().map(|p| p.post_id).collect();
    assert_eq!(ids, vec![1, 2, 3, 4, 5]);
}

#[test]
fn create_post_fields_are_recorded() {
    let mut state = fresh_state();
    let resp = execute_create_post(
        &mut state,
        &Env { time: 42 },
        &info("juno1author", vec![juno(1_000_000)]),
        "hello".to_string(),
        valid_external_id(),
        "body".to_string(),
        vec!["x".to_string(), "y".to_string()],
    )
    .unwrap();
    let p = &state.posts[0];
    assert_eq!(p.post_id, 1);
    assert_eq!(p.post_title, "hello");
    assert_eq!(p.external_id, valid_external_id());
    assert_eq!(p.text, "body");
    assert_eq!(p.tags, vec!["x".to_string(), "y".to_string()]);
    assert_eq!(p.author, "juno1author");
    assert_eq!(p.creation_date, 42);
    assert_eq!(p.last_edit_date, None);
    assert_eq!(p.editor, None);
    assert_eq!(p.deleter, None);
    assert_eq!(p.deletion_date, None);
    assert_eq!(resp.attributes[0].value, "create_post");
    assert_eq!(resp.attributes[1].value, "1");
    assert_eq!(resp.attributes[2].value, "juno1author");
    assert!(resp.messages.is_empty());
}

#[test]
fn create_post_wrong_payment_fails() {
    let mut state = fresh_state();
    let cases: Vec<Vec<Coin>> = vec![
        vec![],
        vec![juno(999_999)],
        vec![juno(1_000_001)],
        vec![juno(500_000), juno(500_000)],
        vec![Coin { amount: 1_000_000, denom: "uatom".to_string() }],
    ];
    for funds in cases {
        let r = execute_create_post(
            &mut state,
            &Env { time: 1 },
            &info("juno1author", funds),
            "t".to_string(),
            valid_external_id(),
            "text".to_string(),
            vec![],
        );
        assert_eq!(r.unwrap_err(), ContractError::WrongPaymentAmount);
        assert_eq!(state.last_post_id, 0);
        assert!(state.posts.is_empty());
    }
}

#[test]
fn create_post_needs_gateway_prefix() {
    let mut state = fresh_state();
    let r = execute_create_post(
        &mut state,
        &Env { time: 1 },
        &info("juno1author", vec![juno(1_000_000)]),
        "t".to_string(),
        "https://example.com/abc".to_string(),
        "text".to_string(),
        vec![],
    );
    assert_eq!(r.unwrap_err(), ContractError::MustUseApprovedGateway);
    assert!(state.posts.is_empty());
}

#[test]
fn create_post_too_much_text() {
    let mut state = fresh_state();
    let r = execute_create_post(
        &mut state,
        &Env { time: 1 },
        &info("juno1author", vec![juno(1_000_000)]),
        "t".to_string(),
        valid_external_id(),
        "x".repeat(500),
        vec![],
    );
    assert_eq!(r.unwrap_err(), ContractError::TooMuchText);
}

#[test]
fn create_post_link_too_long() {
    let mut state = fresh_state();
    let long_id = format!("{}{}", gateway_prefix(), "a".repeat(129 - gateway_prefix().len()));
    let r = execute_create_post(
        &mut state,
        &Env { time: 1 },
        &info("juno1author", vec![juno(1_000_000)]),
        "t".to_string(),
        long_id,
        "text".to_string(),
        vec![],
    );
    assert_eq!(r.unwrap_err(), ContractError::OnlyOneLink);
}

#[test]
fn validate_accepts_boundary_lengths() {
    let text = "x".repeat(499);
    let ext = format!("{}{}", gateway_prefix(), "a".repeat(128 - gateway_prefix().len()));
    assert!(validate(&text, &ext).is_ok());
    assert_eq!(validate(&"x".repeat(500), &ext).unwrap_err(), ContractError::TooMuchText);
}

#[test]
fn edit_post_preserves_provenance_and_rewards_author() {
    let mut state = fresh_state();
    create(&mut state, 42, "juno1author", "the title");
    let resp = execute_edit_post(
        &mut state,
        &Env { time: 99 },
        &info("juno1editor", vec![juno(2_000_000)]),
        1,
        format!("{}new", gateway_prefix()),
        "new text".to_string(),
        vec!["new".to_string()],
    )
    .unwrap();
    let p = &state.posts[0];
    assert_eq!(p.post_id, 1);
    assert_eq!(p.post_title, "the title");
    assert_eq!(p.author, "juno1author");
    assert_eq!(p.creation_date, 42);
    assert_eq!(p.text, "new text");
    assert_eq!(p.external_id, format!("{}new", gateway_prefix()));
    assert_eq!(p.tags, vec!["new".to_string()]);
    assert_eq!(p.editor, Some("juno1editor".to_string()));
    assert_eq!(p.last_edit_date, Some(99));
    assert_eq!(p.deleter, None);
    assert_eq!(p.deletion_date, None);
    assert_eq!(resp.messages.len(), 1);
    assert_eq!(resp.messages[0].to_address, "juno1author");
    assert_eq!(resp.messages[0].amount.len(), 1);
    assert_eq!(resp.messages[0].amount[0].amount, 500_000);
    assert_eq!(resp.messages[0].amount[0].denom, "ujunox");
    assert_eq!(resp.attributes[0].value, "edit_post");
    assert_eq!(resp.attributes[1].value, "1");
    assert_eq!(resp.attributes[2].value, "juno1editor");
}

#[test]
fn edit_post_not_found() {
    let mut state = fresh_state();
    let r = execute_edit_post(
        &mut state,
        &Env { time: 1 },
        &info("juno1editor", vec![juno(2_000_000)]),
        7,
        valid_external_id(),
        "text".to_string(),
        vec![],
    );
    assert_eq!(r.unwrap_err(), ContractError::PostNotFound);
}

#[test]
fn edit_post_wrong_payment() {
    let mut state = fresh_state();
    create(&mut state, 1, "juno1author", "t");
    let r = execute_edit_post(
        &mut state,
        &Env { time: 2 },
        &info("juno1editor", vec![juno(1_000_000)]),
        1,
        valid_external_id(),
        "text".to_string(),
        vec![],
    );
    assert_eq!(r.unwrap_err(), ContractError::WrongPaymentAmount);
    assert_eq!(state.posts[0].editor, None);
}

#[test]
fn delete_post_redacts_and_preserves() {
    let mut state = fresh_state();
    create(&mut state, 42, "juno1author", "the title");
    let resp = execute_delete_post(
        &mut state,
        &Env { time: 777 },
        &info("juno1remover", vec![juno(10_000_000)]),
        1,
    )
    .unwrap();
    let p = &state.posts[0];
    assert_eq!(p.post_id, 1);
    assert_eq!(p.author, "juno1author");
    assert_eq!(p.creation_date, 42);
    assert_eq!(p.text, deletion_notice());
    assert_eq!(p.tags, vec![deleted_tag().to_string()]);
    assert_eq!(p.external_id, "");
    assert_eq!(p.deleter, Some("juno1remover".to_string()));
    assert_eq!(p.deletion_date, Some(777));
    assert_eq!(resp.attributes[0].value, "delete_post");
    assert_eq!(resp.attributes[1].value, "1");
    assert_eq!(resp.attributes[2].key, "deleter");
    assert_eq!(resp.attributes[2].value, "juno1remover");
    assert!(resp.messages.is_empty());
}

#[test]
fn delete_post_wrong_payment() {
    let mut state = fresh_state();
    create(&mut state, 1, "juno1author", "t");
    let r = execute_delete_post(
        &mut state,
        &Env { time: 2 },
        &info("juno1remover", vec![juno(1_000_000)]),
        1,
    );
    assert_eq!(r.unwrap_err(), ContractError::WrongPaymentAmount);
    assert_eq!(state.posts[0].text, "some text");
}

#[test]
fn withdraw_unauthorized_moves_nothing() {
    let mut state = fresh_state();
    let balance = vec![juno(13_000_000)];
    let r = execute_withdraw(&mut state, &info("juno1stranger", vec![]), &balance);
    assert_eq!(r.unwrap_err(), ContractError::Unauthorized);
}

#[test]
fn withdraw_by_admin_transfers_whole_balance() {
    let mut state = fresh_state();
    let balance = vec![juno(13_000_000), Coin { amount: 5, denom: "uatom".to_string() }];
    let resp = execute_withdraw(&mut state, &info(admin(), vec![]), &balance).unwrap();
    assert_eq!(resp.messages.len(), 1);
    assert_eq!(resp.messages[0].to_address, payout_address());
    assert_eq!(resp.messages[0].amount, balance);
    assert_eq!(resp.attributes.len(), 1);
    assert_eq!(resp.attributes[0].key, "action");
    assert_eq!(resp.attributes[0].value, "withdraw");
}

#[test]
fn execute_dispatches_messages() {
    let mut state = fresh_state();
    let r = execute(
        &mut state,
        &Env { time: 5 },
        &info("juno1author", vec![juno(1_000_000)]),
        &vec![],
        ExecuteMsg::CreatePost {
            post_title: "t".to_string(),
            external_id: valid_external_id(),
            text: "text".to_string(),
            tags: vec![],
        },
    );
    assert!(r.is_ok());
    assert_eq!(state.last_post_id, 1);
    let r = execute(
        &mut state,
        &Env { time: 6 },
        &info("juno1stranger", vec![]),
        &vec![],
        ExecuteMsg::Withdraw {},
    );
    assert_eq!(r.unwrap_err(), ContractError::Unauthorized);
}

#[test]
fn list_posts_pagination_window() {
    let mut state = fresh_state();
    for _ in 0..4 {
        create(&mut state, 1, "juno1author", "t");
    }
    let page = query_all_posts(&state, Some(2), Some(1));
    let ids: Vec<u64> = page.posts.iter().map(|p| p.post_id).collect();
    assert_eq!(ids, vec![2, 3]);
}

#[test]
fn list_posts_default_and_cap() {
    let mut state = fresh_state();
    for _ in 0..31 {
        create(&mut state, 1, "juno1author", "t");
    }
    let page = query_all_posts(&state, None, None);
    assert_eq!(page.posts.len(), 10);
    assert_eq!(page.posts[0].post_id, 1);
    let page = query_all_posts(&state, Some(50), None);
    assert_eq!(page.posts.len(), 30);
    let page = query_all_posts(&state, Some(2), Some(30));
    let ids: Vec<u64> = page.posts.iter().map(|p| p.post_id).collect();
    assert_eq!(ids, vec![31]);
}

#[test]
fn list_posts_empty_result_is_ok() {
    let state = fresh_state();
    let page = query_all_posts(&state, None, None);
    assert!(page.posts.is_empty());
    let mut state = fresh_state();
    create(&mut state, 1, "juno1author", "t");
    let page = query_all_posts(&state, None, Some(9));
    assert!(page.posts.is_empty());
}

#[test]
fn get_post_unknown_is_empty_not_failure() {
    let state = fresh_state();
    let r = query_post(&state, 12345);
    assert!(r.post.is_none());
}

#[test]
fn get_post_repeatable_without_mutation() {
    let mut state = fresh_state();
    create(&mut state, 42, "juno1author", "the title");
    let first = query_post(&state, 1).post.unwrap();
    let second = query_post(&state, 1).post.unwrap();
    assert_eq!(first, second);
}

#[test]
fn query_dispatches_messages() {
    let mut state = fresh_state();
    create(&mut state, 1, "juno1author", "t");
    match query(&state, QueryMsg::Post { post_id: 1 }) {
        QueryResponse::Post(p) => assert_eq!(p.post.unwrap().post_id, 1),
        _ => panic!("wrong variant"),
    }
    match query(&state, QueryMsg::AllPosts { limit: None, start_after: None }) {
        QueryResponse::AllPosts(a) => assert_eq!(a.posts.len(), 1),
        _ => panic!("wrong variant"),
    }
}

#[test]
fn payment_validator_exact_only() {
    assert!(assert_sent_exact_coin(&vec![juno(1_000_000)], Some(juno(1_000_000))).is_ok());
    assert!(assert_sent_exact_coin(&vec![], None).is_ok());
    assert!(assert_sent_exact_coin(&vec![juno(0)], None).is_ok());
    assert_eq!(
        assert_sent_exact_coin(&vec![juno(1)], None).unwrap_err(),
        ContractError::WrongPaymentAmount
    );
    assert_eq!(
        assert_sent_exact_coin(&vec![], Some(juno(1_000_000))).unwrap_err(),
        ContractError::WrongPaymentAmount
    );
}

#[test]
fn decimal_rendering_is_exact() {
    assert_eq!(u64_to_decimal(0), "0");
    assert_eq!(u64_to_decimal(7), "7");
    assert_eq!(u64_to_decimal(10), "10");
    assert_eq!(u64_to_decimal(1234567890), "1234567890");
    assert_eq!(u64_to_decimal(u64::MAX), "18446744073709551615");
}

#[test]
fn migrate_checks_contract_name() {
    let r = migrate(&"rome_contract".to_string(), MigrateMsg::Noop {}).unwrap();
    assert_eq!(r.attributes[0].value, "migration");
    assert_eq!(r.attributes[1].key, "version");
    assert_eq!(r.attributes[2].value, "rome_contract");
    let e = migrate(&"another_contract".to_string(), MigrateMsg::Noop {}).unwrap_err();
    assert_eq!(e, ContractError::Std { msg: "Can only upgrade from same type".to_string() });
}
