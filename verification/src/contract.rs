use vstd::prelude::*;

use crate::decimal::{dec_seq, u128_to_dec};
use crate::error::ContractError;
use crate::msg::{BalanceResponse, ExecuteMsg, InstantiateMsg, QueryMsg, ReceiveMsg};
use crate::response::{attr, is_attr, Attribute, Response, TransferInstruction};
use crate::state::{BankState, Config};

verus! {

/// What initialization returns.
///
/// With a malformed token address the call fails; otherwise the new state
/// records the caller as owner and the validated address as the accepted
/// token, every balance is zero, and the response carries the informational
/// metadata and no follow-up instruction.
pub open spec fn instantiate_outcome(
    caller: Seq<char>,
    token_address: Seq<char>,
    token_addr_valid: bool,
    r: Result<(BankState, Response), ContractError>,
) -> bool {
    if !token_addr_valid {
        r is Err && r->Err_0 == ContractError::InvalidAddress
    } else {
        &&& r is Ok
        &&& ({
            let state = r->Ok_0.0;
            let resp = r->Ok_0.1;
            &&& state.wf()
            &&& state.config.owner@ == caller
            &&& state.config.cw20_token_address@ == token_address
            &&& forall|a: Seq<char>| state.spec_balance(a) == 0
            &&& resp.instruction is None
            &&& resp.attributes@.len() == 3
            &&& is_attr(resp.attributes@[0], "method"@, "instantiate"@)
            &&& is_attr(resp.attributes@[1], "owner"@, caller)
            &&& is_attr(resp.attributes@[2], "cw20_token_address"@, token_address)
        })
    }
}

/// What a deposit notification returns and how it changes the state.
///
/// Only the accepted token contract itself may notify; any other caller is
/// turned away unpaid and unrecorded. A well-formed sender address is then
/// credited with the transferred amount, an absent entry counting as zero,
/// and an amount that would overflow the balance fails the call instead of
/// wrapping. Every failure leaves the state exactly as it was.
pub open spec fn receive_outcome(
    pre: BankState,
    post: BankState,
    caller: Seq<char>,
    sender: Seq<char>,
    amount: u128,
    sender_addr_valid: bool,
    r: Result<Response, ContractError>,
) -> bool {
    let authorized = caller == pre.config.cw20_token_address@;
    let fits = pre.spec_balance(sender) + amount <= u128::MAX;
    if !authorized {
        r is Err && r->Err_0 == ContractError::Unauthorized && post == pre
    } else if !sender_addr_valid {
        r is Err && r->Err_0 == ContractError::InvalidAddress && post == pre
    } else if !fits {
        r is Err && r->Err_0 == ContractError::ArithmeticOverflow && post == pre
    } else {
        &&& r is Ok
        &&& post.wf()
        &&& post.config == pre.config
        &&& post.spec_balance(sender) == pre.spec_balance(sender) + amount
        &&& forall|a: Seq<char>| a != sender ==> post.spec_balance(a) == pre.spec_balance(a)
        &&& ({
            let resp = r->Ok_0;
            &&& resp.instruction is None
            &&& resp.attributes@.len() == 3
            &&& is_attr(resp.attributes@[0], "method"@, "receive"@)
            &&& is_attr(resp.attributes@[1], "sender"@, sender)
            &&& is_attr(resp.attributes@[2], "amount"@, dec_seq(amount))
        })
    }
}

/// What a withdrawal returns and how it changes the state.
///
/// A request beyond the caller's recorded balance fails without any state
/// change and without a follow-up instruction. Otherwise the caller's
/// balance drops by the requested amount and the response instructs the
/// accepted token contract to transfer that amount back to the caller.
pub open spec fn withdraw_outcome(
    pre: BankState,
    post: BankState,
    caller: Seq<char>,
    amount: u128,
    r: Result<Response, ContractError>,
) -> bool {
    let bal = pre.spec_balance(caller);
    if bal < amount {
        r is Err && r->Err_0 == ContractError::InsufficientFunds && post == pre
    } else {
        &&& r is Ok
        &&& post.wf()
        &&& post.config == pre.config
        &&& post.spec_balance(caller) == bal - amount
        &&& forall|a: Seq<char>| a != caller ==> post.spec_balance(a) == pre.spec_balance(a)
        &&& ({
            let resp = r->Ok_0;
            &&& resp.instruction matches Some(ti) && ti.contract_addr@
                == pre.config.cw20_token_address@ && ti.recipient@ == caller && ti.amount
                == amount
            &&& resp.attributes@.len() == 3
            &&& is_attr(resp.attributes@[0], "method"@, "withdraw"@)
            &&& is_attr(resp.attributes@[1], "recipient"@, caller)
            &&& is_attr(resp.attributes@[2], "amount"@, dec_seq(amount))
        })
    }
}

/// What a balance query returns: the recorded balance of a well-formed
/// address, zero for an address never deposited to, and `InvalidAddress`
/// for a malformed one. Queries never change state.
pub open spec fn query_outcome(
    state: BankState,
    address: Seq<char>,
    addr_valid: bool,
    r: Result<BalanceResponse, ContractError>,
) -> bool {
    if !addr_valid {
        r is Err && r->Err_0 == ContractError::InvalidAddress
    } else {
        r is Ok && r->Ok_0.balance == state.spec_balance(address)
    }
}

/// Law: a balance query is idempotent. Its contract determines the answer
/// from the state and the request alone, so two queries of the same address
/// against the same state — that is, without an intervening mutation —
/// return identical results.
pub proof fn lemma_query_idempotent(
    state: BankState,
    address: Seq<char>,
    addr_valid: bool,
    r1: Result<BalanceResponse, ContractError>,
    r2: Result<BalanceResponse, ContractError>,
)
    requires
        query_outcome(state, address, addr_valid, r1),
        query_outcome(state, address, addr_valid, r2),
    ensures
        r1 == r2,
{
}

/// Initialize the contract: record the caller as owner and the accepted
/// token address, starting with an empty ledger.
///
/// `token_addr_valid` is the host's verdict on `msg.cw20_token_address`
/// under its address-format rules.
pub fn instantiate(caller: &String, msg: &InstantiateMsg, token_addr_valid: bool) -> (r: Result<
    (BankState, Response),
    ContractError,
>)
    ensures
        instantiate_outcome(caller@, msg.cw20_token_address@, token_addr_valid, r),
{
    if !token_addr_valid {
        return Err(ContractError::InvalidAddress);
    }
    let config = Config {
        owner: caller.clone(),
        cw20_token_address: msg.cw20_token_address.clone(),
    };
    let state = BankState::new(config);
    let mut attributes: Vec<Attribute> = Vec::new();
    attributes.push(attr("method", "instantiate".to_owned()));
    attributes.push(attr("owner", caller.clone()));
    attributes.push(attr("cw20_token_address", msg.cw20_token_address.clone()));
    Ok((state, Response { attributes, instruction: None }))
}

/// Dispatch one state-transition request.
///
/// `addr_valid` is the host's verdict on the address carried inside `msg`
/// (the hook's sender); a withdrawal carries none, and the verdict is
/// ignored for it.
pub fn execute(state: &mut BankState, caller: &String, msg: ExecuteMsg, addr_valid: bool) -> (r:
    Result<Response, ContractError>)
    requires
        old(state).wf(),
    ensures
        match msg {
            ExecuteMsg::Receive(rm) => receive_outcome(
                *old(state),
                *final(state),
                caller@,
                rm.sender@,
                rm.amount,
                addr_valid,
                r,
            ),
            ExecuteMsg::Withdraw { amount } => withdraw_outcome(
                *old(state),
                *final(state),
                caller@,
                amount,
                r,
            ),
        },
{
    match msg {
        ExecuteMsg::Receive(rm) => execute_receive(state, caller, &rm, addr_valid),
        ExecuteMsg::Withdraw { amount } => execute_withdraw(state, caller, amount),
    }
}

/// Credit a completed inbound transfer that the accepted token contract
/// reports through its receive hook.
///
/// `sender_addr_valid` is the host's verdict on `msg.sender` under its
/// address-format rules.
pub fn execute_receive(
    state: &mut BankState,
    caller: &String,
    msg: &ReceiveMsg,
    sender_addr_valid: bool,
) -> (r: Result<Response, ContractError>)
    requires
        old(state).wf(),
    ensures
        receive_outcome(
            *old(state),
            *final(state),
            caller@,
            msg.sender@,
            msg.amount,
            sender_addr_valid,
            r,
        ),
{
    if !(*caller == state.config.cw20_token_address) {
        return Err(ContractError::Unauthorized);
    }
    if !sender_addr_valid {
        return Err(ContractError::InvalidAddress);
    }
    let old_bal = state.get_balance(&msg.sender);
    if msg.amount > u128::MAX - old_bal {
        return Err(ContractError::ArithmeticOverflow);
    }
    state.set_balance(&msg.sender, old_bal + msg.amount);
    let mut attributes: Vec<Attribute> = Vec::new();
    attributes.push(attr("method", "receive".to_owned()));
    attributes.push(attr("sender", msg.sender.clone()));
    attributes.push(attr("amount", u128_to_dec(msg.amount)));
    Ok(Response { attributes, instruction: None })
}

/// Pay part of the caller's recorded balance back out: debit the ledger and
/// instruct the accepted token contract to transfer the amount to the
/// caller. The host executes the instruction atomically with this call.
pub fn execute_withdraw(state: &mut BankState, caller: &String, amount: u128) -> (r: Result<
    Response,
    ContractError,
>)
    requires
        old(state).wf(),
    ensures
        withdraw_outcome(*old(state), *final(state), caller@, amount, r),
{
    let balance = state.get_balance(caller);
    if balance < amount {
        return Err(ContractError::InsufficientFunds);
    }
    state.set_balance(caller, balance - amount);
    let instruction = TransferInstruction {
        contract_addr: state.config.cw20_token_address.clone(),
        recipient: caller.clone(),
        amount,
    };
    let mut attributes: Vec<Attribute> = Vec::new();
    attributes.push(attr("method", "withdraw".to_owned()));
    attributes.push(attr("recipient", caller.clone()));
    attributes.push(attr("amount", u128_to_dec(amount)));
    Ok(Response { attributes, instruction: Some(instruction) })
}

/// Answer a read-only request against the current state.
///
/// `addr_valid` is the host's verdict on the queried address under its
/// address-format rules.
pub fn query(state: &BankState, msg: &QueryMsg, addr_valid: bool) -> (r: Result<
    BalanceResponse,
    ContractError,
>)
    ensures
        match msg {
            QueryMsg::Balance { address } => query_outcome(*state, address@, addr_valid, r),
        },
{
    match msg {
        QueryMsg::Balance { address } => {
            if !addr_valid {
                return Err(ContractError::InvalidAddress);
            }
            let balance = state.get_balance(address);
            Ok(BalanceResponse { balance })
        },
    }
}

} // verus!
