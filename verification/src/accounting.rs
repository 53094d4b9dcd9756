use vstd::prelude::*;

use crate::contract::{receive_outcome, withdraw_outcome};
use crate::error::ContractError;
use crate::response::Response;
use crate::state::BankState;

verus! {

/// One successful operation observed at a single depositor address: a
/// deposit notification credited to it, or a withdrawal it made.
#[derive(Clone, Copy, Debug, PartialEq, Eq, Structural)]
pub enum AccountEvent {
    Deposit { amount: u128 },
    Withdraw { amount: u128 },
}

/// Starting from balance `bal`, every event of `evs` is valid in turn: a
/// deposit fits the integer range and a withdrawal never exceeds the balance
/// of its moment. These are exactly the conditions under which
/// [`crate::contract::receive_outcome`] and
/// [`crate::contract::withdraw_outcome`] report success for this address.
pub open spec fn events_valid(bal: u128, evs: Seq<AccountEvent>) -> bool
    decreases evs.len(),
{
    if evs.len() == 0 {
        true
    } else {
        match evs[0] {
            AccountEvent::Deposit { amount } => bal + amount <= u128::MAX && events_valid(
                (bal + amount) as u128,
                evs.skip(1),
            ),
            AccountEvent::Withdraw { amount } => amount <= bal && events_valid(
                (bal - amount) as u128,
                evs.skip(1),
            ),
        }
    }
}

/// The balance after applying `evs` to `bal`: each deposit credits its
/// amount and each withdrawal debits it, exactly as the two handlers
/// change [`crate::state::BankState::spec_balance`] on success.
pub open spec fn balance_after(bal: u128, evs: Seq<AccountEvent>) -> u128
    recommends
        events_valid(bal, evs),
    decreases evs.len(),
{
    if evs.len() == 0 {
        bal
    } else {
        match evs[0] {
            AccountEvent::Deposit { amount } => balance_after((bal + amount) as u128, evs.skip(1)),
            AccountEvent::Withdraw { amount } => balance_after((bal - amount) as u128, evs.skip(1)),
        }
    }
}

/// The sum of all amounts deposited in `evs`.
pub open spec fn deposit_total(evs: Seq<AccountEvent>) -> int
    decreases evs.len(),
{
    if evs.len() == 0 {
        0
    } else {
        (match evs[0] {
            AccountEvent::Deposit { amount } => amount as int,
            AccountEvent::Withdraw { .. } => 0,
        }) + deposit_total(evs.skip(1))
    }
}

/// The sum of all amounts withdrawn in `evs`.
pub open spec fn withdraw_total(evs: Seq<AccountEvent>) -> int
    decreases evs.len(),
{
    if evs.len() == 0 {
        0
    } else {
        (match evs[0] {
            AccountEvent::Deposit { .. } => 0,
            AccountEvent::Withdraw { amount } => amount as int,
        }) + withdraw_total(evs.skip(1))
    }
}

/// A valid run stays valid when cut short.
proof fn lemma_events_valid_take(bal: u128, evs: Seq<AccountEvent>, i: int)
    requires
        events_valid(bal, evs),
        0 <= i <= evs.len(),
    ensures
        events_valid(bal, evs.take(i)),
    decreases evs.len(),
{
    if i > 0 && evs.len() > 0 {
        assert(evs.take(i)[0] == evs[0]);
        assert(evs.take(i).skip(1) =~= evs.skip(1).take(i - 1));
        match evs[0] {
            AccountEvent::Deposit { amount } => {
                lemma_events_valid_take((bal + amount) as u128, evs.skip(1), i - 1);
            },
            AccountEvent::Withdraw { amount } => {
                lemma_events_valid_take((bal - amount) as u128, evs.skip(1), i - 1);
            },
        }
    }
}

/// Running `evs` from `bal` lands on `bal` plus the net flow.
proof fn lemma_balance_accounting(bal: u128, evs: Seq<AccountEvent>)
    requires
        events_valid(bal, evs),
    ensures
        balance_after(bal, evs) == bal + deposit_total(evs) - withdraw_total(evs),
    decreases evs.len(),
{
    if evs.len() > 0 {
        match evs[0] {
            AccountEvent::Deposit { amount } => {
                lemma_balance_accounting((bal + amount) as u128, evs.skip(1));
            },
            AccountEvent::Withdraw { amount } => {
                lemma_balance_accounting((bal - amount) as u128, evs.skip(1));
            },
        }
    }
}

/// A successful deposit notification is one valid `Deposit` step of the
/// accounting model at the sender's address.
pub proof fn lemma_receive_is_deposit_step(
    pre: BankState,
    post: BankState,
    caller: Seq<char>,
    sender: Seq<char>,
    amount: u128,
    sender_addr_valid: bool,
    r: Result<Response, ContractError>,
)
    requires
        receive_outcome(pre, post, caller, sender, amount, sender_addr_valid, r),
        r is Ok,
    ensures
        events_valid(pre.spec_balance(sender), seq![AccountEvent::Deposit { amount }]),
        post.spec_balance(sender) == balance_after(
            pre.spec_balance(sender),
            seq![AccountEvent::Deposit { amount }],
        ),
{
    reveal_with_fuel(events_valid, 2);
    reveal_with_fuel(balance_after, 2);
    let evs = seq![AccountEvent::Deposit { amount }];
    assert(evs[0] == AccountEvent::Deposit { amount });
    assert(evs.skip(1) =~= Seq::<AccountEvent>::empty());
}

/// A successful withdrawal is one valid `Withdraw` step of the accounting
/// model at the caller's address.
pub proof fn lemma_withdraw_is_withdraw_step(
    pre: BankState,
    post: BankState,
    caller: Seq<char>,
    amount: u128,
    r: Result<Response, ContractError>,
)
    requires
        withdraw_outcome(pre, post, caller, amount, r),
        r is Ok,
    ensures
        events_valid(pre.spec_balance(caller), seq![AccountEvent::Withdraw { amount }]),
        post.spec_balance(caller) == balance_after(
            pre.spec_balance(caller),
            seq![AccountEvent::Withdraw { amount }],
        ),
{
    reveal_with_fuel(events_valid, 2);
    reveal_with_fuel(balance_after, 2);
    let evs = seq![AccountEvent::Withdraw { amount }];
    assert(evs[0] == AccountEvent::Withdraw { amount });
    assert(evs.skip(1) =~= Seq::<AccountEvent>::empty());
}

/// Law: over any sequence of valid deposit notifications and withdrawals at
/// one address, at every point the balance equals the sum of the deposits so
/// far minus the sum of the withdrawals so far, and that net flow is never
/// negative.
pub proof fn lemma_balance_is_net_flow(evs: Seq<AccountEvent>)
    requires
        events_valid(0, evs),
    ensures
        forall|i: int|
            0 <= i <= evs.len() ==> #[trigger] balance_after(0, evs.take(i)) == deposit_total(
                evs.take(i),
            ) - withdraw_total(evs.take(i)),
        forall|i: int|
            0 <= i <= evs.len() ==> #[trigger] deposit_total(evs.take(i)) >= withdraw_total(
                evs.take(i),
            ),
{
    assert forall|i: int| 0 <= i <= evs.len() implies #[trigger] balance_after(0, evs.take(i))
        == deposit_total(evs.take(i)) - withdraw_total(evs.take(i)) by {
        lemma_events_valid_take(0, evs, i);
        lemma_balance_accounting(0, evs.take(i));
    }
    assert forall|i: int| 0 <= i <= evs.len() implies #[trigger] deposit_total(evs.take(i))
        >= withdraw_total(evs.take(i)) by {
        assert(balance_after(0, evs.take(i)) >= 0);
    }
}

} // verus!
