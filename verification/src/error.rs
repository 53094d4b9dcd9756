use vstd::prelude::*;

verus! {

/// The ways a call can fail. Every failure is terminal for the call: the host
/// discards all state changes of a call that returns an error.
#[derive(Clone, Copy, Debug, PartialEq, Eq, Structural)]
pub enum ContractError {
    /// A malformed address string was supplied to an operation.
    InvalidAddress,
    /// A deposit notification came from a caller other than the configured
    /// accepted-token address.
    Unauthorized,
    /// A withdrawal asked for more than the caller's recorded balance.
    InsufficientFunds,
    /// A deposit would overflow the balance's integer range.
    ArithmeticOverflow,
}

} // verus!
