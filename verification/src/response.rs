use vstd::prelude::*;

verus! {

/// One key/value pair of informational metadata attached to a successful
/// call, for observability only.
#[derive(Debug)]
pub struct Attribute {
    pub key: String,
    pub value: String,
}

/// A follow-up instruction the host executes atomically with the current
/// call: it directs the token contract at `contract_addr` to transfer
/// `amount` of the token to `recipient`, with no native funds attached.
#[derive(Debug)]
pub struct TransferInstruction {
    pub contract_addr: String,
    pub recipient: String,
    pub amount: u128,
}

/// The structured result of a successful state transition: metadata plus at
/// most one follow-up instruction.
#[derive(Debug)]
pub struct Response {
    pub attributes: Vec<Attribute>,
    pub instruction: Option<TransferInstruction>,
}

/// `a` is the attribute `key` = `value`.
pub open spec fn is_attr(a: Attribute, key: Seq<char>, value: Seq<char>) -> bool {
    a.key@ == key && a.value@ == value
}

/// Build one attribute.
pub fn attr(key: &str, value: String) -> (a: Attribute)
    ensures
        is_attr(a, key@, value@),
{
    Attribute { key: key.to_owned(), value }
}

} // verus!
