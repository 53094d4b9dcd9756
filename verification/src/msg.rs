use vstd::prelude::*;

verus! {

/// The initialization request: the address of the token contract this
/// ledger will accept, still unvalidated.
#[derive(Debug)]
pub struct InstantiateMsg {
    pub cw20_token_address: String,
}

/// The payload of a receive hook: the token contract reports that `sender`
/// has already transferred `amount` of the token into this contract's
/// custody as part of the same atomic call.
#[derive(Debug)]
pub struct ReceiveMsg {
    pub sender: String,
    pub amount: u128,
}

/// A state-transition request.
#[derive(Debug)]
pub enum ExecuteMsg {
    /// A deposit notification from the accepted token contract.
    Receive(ReceiveMsg),
    /// A request by the caller to withdraw `amount` from its own balance.
    Withdraw { amount: u128 },
}

/// A read-only request.
#[derive(Debug)]
pub enum QueryMsg {
    /// The recorded balance of `address`; zero when no deposit was ever
    /// credited to it.
    Balance { address: String },
}

/// The answer to [`QueryMsg::Balance`].
#[derive(Clone, Copy, Debug, PartialEq, Eq, Structural)]
pub struct BalanceResponse {
    pub balance: u128,
}

} // verus!
