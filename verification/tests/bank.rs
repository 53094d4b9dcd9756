use cw20_bank::contract::{execute, execute_receive, execute_withdraw, instantiate, query};
use cw20_bank::decimal::u128_to_dec;
use cw20_bank::error::ContractError;
use cw20_bank::msg::{BalanceResponse, ExecuteMsg, InstantiateMsg, QueryMsg, ReceiveMsg};
use cw20_bank::response::Response;
use cw20_bank::state::BankState;

fn setup(token: &str) -> BankState {
    let msg = InstantiateMsg {
        cw20_token_address: token.to_string(),
    };
    let (state, _) = instantiate(&"creator".to_string(), &msg, true).expect("instantiate");
    state
}

fn deposit(state: &mut BankState, token: &str, sender: &str, amount: u128) -> Response {
    let msg = ReceiveMsg {
        sender: sender.to_string(),
        amount,
    };
    execute_receive(state, &token.to_string(), &msg, true).expect("deposit")
}

fn balance(state: &BankState, addr: &str) -> u128 {
    let msg = QueryMsg::Balance {
        address: addr.to_string(),
    };
    let BalanceResponse { balance } = query(state, &msg, true).expect("query");
    balance
}

#[test]
fn instantiate_records_config_and_metadata() {
    let msg = InstantiateMsg {
        cw20_token_address: "token".to_string(),
    };
    let (state, resp) = instantiate(&"creator".to_string(), &msg, true).expect("instantiate");
    assert_eq!(state.config.owner, "creator");
    assert_eq!(state.config.cw20_token_address, "token");
    assert!(resp.instruction.is_none());
    assert_eq!(resp.attributes.len(), 3);
    assert_eq!(resp.attributes[0].key, "method");
    assert_eq!(resp.attributes[0].value, "instantiate");
    assert_eq!(resp.attributes[1].key, "owner");
    assert_eq!(resp.attributes[1].value, "creator");
    assert_eq!(resp.attributes[2].key, "cw20_token_address");
    assert_eq!(resp.attributes[2].value, "token");
}

#[test]
fn instantiate_rejects_malformed_token_address() {
    let msg = InstantiateMsg {
        cw20_token_address: "NOT AN ADDRESS".to_string(),
    };
    let r = instantiate(&"creator".to_string(), &msg, false);
    assert!(matches!(r, Err(ContractError::InvalidAddress)));
}

#[test]
fn deposit_then_partial_withdraw_scenario() {
    // initialize with token = T; notification from caller T: alice deposits 100
    let mut state = setup("T");
    deposit(&mut state, "T", "alice", 100);
    assert_eq!(balance(&state, "alice"), 100);

    // withdraw 40: balance drops to 60 and the follow-up instruction says
    // transfer(40, to = alice, via = T)
    let resp = execute_withdraw(&mut state, &"alice".to_string(), 40).expect("withdraw");
    assert_eq!(balance(&state, "alice"), 60);
    let instr = resp.instruction.expect("follow-up instruction");
    assert_eq!(instr.contract_addr, "T");
    assert_eq!(instr.recipient, "alice");
    assert_eq!(instr.amount, 40);

    // withdraw 1000: fails, balance still 60
    let r = execute_withdraw(&mut state, &"alice".to_string(), 1000);
    assert!(matches!(r, Err(ContractError::InsufficientFunds)));
    assert_eq!(balance(&state, "alice"), 60);
}

#[test]
fn unauthorized_notification_changes_nothing() {
    // notification from a caller other than T: fails, bob's balance stays 0
    let mut state = setup("T");
    let msg = ReceiveMsg {
        sender: "bob".to_string(),
        amount: 50,
    };
    let r = execute_receive(&mut state, &"mallory".to_string(), &msg, true);
    assert!(matches!(r, Err(ContractError::Unauthorized)));
    assert_eq!(balance(&state, "bob"), 0);
}

#[test]
fn unauthorized_notification_keeps_existing_balance() {
    let mut state = setup("T");
    deposit(&mut state, "T", "alice", 100);
    let msg = ReceiveMsg {
        sender: "alice".to_string(),
        amount: 5,
    };
    let r = execute_receive(&mut state, &"alice".to_string(), &msg, true);
    assert!(matches!(r, Err(ContractError::Unauthorized)));
    assert_eq!(balance(&state, "alice"), 100);
}

#[test]
fn deposit_rejects_malformed_sender() {
    let mut state = setup("T");
    let msg = ReceiveMsg {
        sender: "NOT AN ADDRESS".to_string(),
        amount: 50,
    };
    let r = execute_receive(&mut state, &"T".to_string(), &msg, false);
    assert!(matches!(r, Err(ContractError::InvalidAddress)));
    assert_eq!(balance(&state, "NOT AN ADDRESS"), 0);
}

#[test]
fn deposit_overflow_fails_and_changes_nothing() {
    let mut state = setup("T");
    deposit(&mut state, "T", "alice", u128::MAX);
    let msg = ReceiveMsg {
        sender: "alice".to_string(),
        amount: 1,
    };
    let r = execute_receive(&mut state, &"T".to_string(), &msg, true);
    assert!(matches!(r, Err(ContractError::ArithmeticOverflow)));
    assert_eq!(balance(&state, "alice"), u128::MAX);
}

#[test]
fn deposit_metadata_names_sender_and_amount() {
    let mut state = setup("T");
    let resp = deposit(&mut state, "T", "alice", 100);
    assert!(resp.instruction.is_none());
    assert_eq!(resp.attributes.len(), 3);
    assert_eq!(resp.attributes[0].key, "method");
    assert_eq!(resp.attributes[0].value, "receive");
    assert_eq!(resp.attributes[1].key, "sender");
    assert_eq!(resp.attributes[1].value, "alice");
    assert_eq!(resp.attributes[2].key, "amount");
    assert_eq!(resp.attributes[2].value, "100");
}

#[test]
fn withdraw_metadata_names_recipient_and_amount() {
    let mut state = setup("T");
    deposit(&mut state, "T", "alice", 100);
    let resp = execute_withdraw(&mut state, &"alice".to_string(), 40).expect("withdraw");
    assert_eq!(resp.attributes.len(), 3);
    assert_eq!(resp.attributes[0].key, "method");
    assert_eq!(resp.attributes[0].value, "withdraw");
    assert_eq!(resp.attributes[1].key, "recipient");
    assert_eq!(resp.attributes[1].value, "alice");
    assert_eq!(resp.attributes[2].key, "amount");
    assert_eq!(resp.attributes[2].value, "40");
}

#[test]
fn withdraw_to_zero_keeps_a_zero_entry() {
    let mut state = setup("T");
    deposit(&mut state, "T", "alice", 100);
    let resp = execute_withdraw(&mut state, &"alice".to_string(), 100).expect("withdraw all");
    assert_eq!(resp.instruction.expect("instruction").amount, 100);
    assert_eq!(balance(&state, "alice"), 0);
    // the zero balance behaves like any other: a further withdrawal of 0 is fine
    let resp = execute_withdraw(&mut state, &"alice".to_string(), 0).expect("withdraw zero");
    assert_eq!(resp.instruction.expect("instruction").amount, 0);
    assert_eq!(balance(&state, "alice"), 0);
}

#[test]
fn withdraw_without_any_deposit_fails() {
    let mut state = setup("T");
    let r = execute_withdraw(&mut state, &"nobody".to_string(), 1);
    assert!(matches!(r, Err(ContractError::InsufficientFunds)));
}

#[test]
fn query_of_unknown_address_is_zero() {
    let state = setup("T");
    assert_eq!(balance(&state, "stranger"), 0);
}

#[test]
fn query_rejects_malformed_address() {
    let state = setup("T");
    let msg = QueryMsg::Balance {
        address: "NOT AN ADDRESS".to_string(),
    };
    let r = query(&state, &msg, false);
    assert!(matches!(r, Err(ContractError::InvalidAddress)));
}

#[test]
fn query_is_idempotent() {
    let mut state = setup("T");
    deposit(&mut state, "T", "alice", 77);
    let first = balance(&state, "alice");
    let second = balance(&state, "alice");
    assert_eq!(first, second);
    assert_eq!(first, 77);
}

#[test]
fn balances_are_kept_per_address() {
    let mut state = setup("T");
    deposit(&mut state, "T", "alice", 100);
    deposit(&mut state, "T", "bob", 25);
    deposit(&mut state, "T", "alice", 11);
    assert_eq!(balance(&state, "alice"), 111);
    assert_eq!(balance(&state, "bob"), 25);
    execute_withdraw(&mut state, &"bob".to_string(), 20).expect("withdraw");
    assert_eq!(balance(&state, "alice"), 111);
    assert_eq!(balance(&state, "bob"), 5);
}

#[test]
fn balance_is_net_of_deposits_and_withdrawals() {
    // balance(A) tracks sum(deposits) - sum(withdrawals) at every point
    let mut state = setup("T");
    deposit(&mut state, "T", "a", 100);
    assert_eq!(balance(&state, "a"), 100);
    execute_withdraw(&mut state, &"a".to_string(), 30).expect("withdraw");
    assert_eq!(balance(&state, "a"), 70);
    deposit(&mut state, "T", "a", 5);
    assert_eq!(balance(&state, "a"), 75);
    execute_withdraw(&mut state, &"a".to_string(), 75).expect("withdraw");
    assert_eq!(balance(&state, "a"), 0);
}

#[test]
fn execute_dispatches_receive_and_withdraw() {
    let mut state = setup("T");
    let r = execute(
        &mut state,
        &"T".to_string(),
        ExecuteMsg::Receive(ReceiveMsg {
            sender: "alice".to_string(),
            amount: 9,
        }),
        true,
    );
    assert!(r.is_ok());
    assert_eq!(balance(&state, "alice"), 9);
    let r = execute(
        &mut state,
        &"alice".to_string(),
        ExecuteMsg::Withdraw { amount: 4 },
        true,
    );
    assert_eq!(r.expect("withdraw").instruction.expect("instruction").amount, 4);
    assert_eq!(balance(&state, "alice"), 5);
}

#[test]
fn decimal_rendering_is_exact() {
    assert_eq!(u128_to_dec(0), "0");
    assert_eq!(u128_to_dec(7), "7");
    assert_eq!(u128_to_dec(10), "10");
    assert_eq!(u128_to_dec(40), "40");
    assert_eq!(u128_to_dec(100), "100");
    assert_eq!(u128_to_dec(1234567890), "1234567890");
    assert_eq!(
        u128_to_dec(u128::MAX),
        "340282366920938463463374607431768211455"
    );
}
