use vstd::prelude::*;

verus! {

/// The singleton configuration record. It is created exactly once, at
/// initialization, and never mutated or deleted afterwards.
#[derive(Debug)]
pub struct Config {
    /// Validated address of the entity that deployed the contract. Recorded
    /// for observability; no operation is gated on it.
    pub owner: String,
    /// Validated address of the one fungible-token contract this ledger
    /// accepts and pays out. Immutable after initialization.
    pub cw20_token_address: String,
}

/// The contract's whole persistent state: the configuration plus the
/// depositor-address to balance ledger.
///
/// The ledger is an association list keyed by address; an absent key means a
/// balance of zero. Entries are never deleted, so a balance may reach zero
/// and remain present.
#[derive(Debug)]
pub struct BankState {
    pub config: Config,
    /// The ledger entries. Mutate them only through [`BankState::set_balance`],
    /// which keeps [`BankState::wf`] intact.
    pub balances: Vec<(String, u128)>,
}

/// The balance recorded for `addr` in the entry list `s`: the amount of the
/// first entry whose key is `addr`, or zero when there is none.
spec fn bal_in(s: Seq<(String, u128)>, addr: Seq<char>) -> u128
    decreases s.len(),
{
    if s.len() == 0 {
        0
    } else if s[0].0@ == addr {
        s[0].1
    } else {
        bal_in(s.skip(1), addr)
    }
}

/// When every key of `s` differs from `addr`, no entry is charged to it.
proof fn lemma_bal_in_absent(s: Seq<(String, u128)>, addr: Seq<char>)
    requires
        forall|j: int| 0 <= j < s.len() ==> s[j].0@ != addr,
    ensures
        bal_in(s, addr) == 0,
    decreases s.len(),
{
    if s.len() > 0 {
        lemma_bal_in_absent(s.skip(1), addr);
    }
}

/// When the entries before index `i` all miss `addr` and entry `i` hits it,
/// the recorded balance is the amount of entry `i`.
proof fn lemma_bal_in_first_match(s: Seq<(String, u128)>, addr: Seq<char>, i: int)
    requires
        0 <= i < s.len(),
        forall|j: int| 0 <= j < i ==> s[j].0@ != addr,
        s[i].0@ == addr,
    ensures
        bal_in(s, addr) == s[i].1,
    decreases i,
{
    if i > 0 {
        lemma_bal_in_first_match(s.skip(1), addr, i - 1);
    }
}

/// Overwriting the amount of entry `i` leaves every other address's balance
/// as it was, provided the key at `i` keeps its spelling.
proof fn lemma_bal_in_update_other(
    s: Seq<(String, u128)>,
    i: int,
    e: (String, u128),
    addr: Seq<char>,
)
    requires
        0 <= i < s.len(),
        e.0@ == s[i].0@,
        addr != e.0@,
    ensures
        bal_in(s.update(i, e), addr) == bal_in(s, addr),
    decreases i,
{
    let t = s.update(i, e);
    if i == 0 {
        assert(t.skip(1) =~= s.skip(1));
    } else {
        assert(t.skip(1) =~= s.skip(1).update(i - 1, e));
        lemma_bal_in_update_other(s.skip(1), i - 1, e, addr);
    }
}

/// Appending an entry whose key is not `addr` leaves `addr`'s balance as it
/// was.
proof fn lemma_bal_in_push_other(s: Seq<(String, u128)>, e: (String, u128), addr: Seq<char>)
    requires
        e.0@ != addr,
    ensures
        bal_in(s.push(e), addr) == bal_in(s, addr),
    decreases s.len(),
{
    let t = s.push(e);
    if s.len() == 0 {
        assert(t[0] == e);
        assert(t.skip(1) =~= Seq::<(String, u128)>::empty());
        assert(bal_in(t.skip(1), addr) == 0);
    } else {
        assert(t[0] == s[0]);
        assert(t.skip(1) =~= s.skip(1).push(e));
        lemma_bal_in_push_other(s.skip(1), e, addr);
    }
}

impl BankState {
    /// The ledger is well formed when no address owns two entries.
    pub closed spec fn wf(&self) -> bool {
        forall|i: int, j: int|
            0 <= i < j < self.balances@.len() ==> self.balances@[i].0@ != self.balances@[j].0@
    }

    /// The balance recorded for `addr`: zero when no deposit was ever
    /// credited to it.
    pub closed spec fn spec_balance(&self, addr: Seq<char>) -> u128 {
        bal_in(self.balances@, addr)
    }

    /// A fresh state: the given configuration and an empty ledger.
    pub fn new(config: Config) -> (s: BankState)
        ensures
            s.wf(),
            s.config == config,
            forall|a: Seq<char>| s.spec_balance(a) == 0,
    {
        BankState { config, balances: Vec::new() }
    }

    /// The index of the entry keyed by `addr`, if one exists.
    fn find_index(&self, addr: &String) -> (r: Option<usize>)
        ensures
            match r {
                Some(i) => {
                    &&& i < self.balances@.len()
                    &&& self.balances@[i as int].0@ == addr@
                    &&& forall|j: int| 0 <= j < i ==> self.balances@[j].0@ != addr@
                },
                None => forall|j: int|
                    0 <= j < self.balances@.len() ==> self.balances@[j].0@ != addr@,
            },
    {
        let n = self.balances.len();
        for i in 0..n
            invariant
                n == self.balances@.len(),
                forall|j: int| 0 <= j < i ==> self.balances@[j].0@ != addr@,
        {
            if self.balances[i].0 == *addr {
                return Some(i);
            }
        }
        None
    }

    /// Read the balance recorded for `addr`; an absent entry reads as zero.
    pub fn get_balance(&self, addr: &String) -> (r: u128)
        ensures
            r == self.spec_balance(addr@),
    {
        match self.find_index(addr) {
            Some(i) => {
                proof {
                    lemma_bal_in_first_match(self.balances@, addr@, i as int);
                }
                self.balances[i].1
            },
            None => {
                proof {
                    lemma_bal_in_absent(self.balances@, addr@);
                }
                0
            },
        }
    }

    /// Record `amount` as the balance of `addr`, overwriting an existing
    /// entry or appending a new one. Every other address keeps its balance.
    pub fn set_balance(&mut self, addr: &String, amount: u128)
        requires
            old(self).wf(),
        ensures
            final(self).wf(),
            final(self).config == old(self).config,
            final(self).spec_balance(addr@) == amount,
            forall|a: Seq<char>|
                a != addr@ ==> final(self).spec_balance(a) == old(self).spec_balance(a),
    {
        let ghost pre = self.balances@;
        match self.find_index(addr) {
            Some(i) => {
                self.balances[i].1 = amount;
                proof {
                    let post = self.balances@;
                    assert(post =~= pre.update(i as int, post[i as int]));
                    assert(forall|j: int|
                        0 <= j < post.len() ==> post[j].0@ == pre[j].0@);
                    lemma_bal_in_first_match(post, addr@, i as int);
                    assert forall|a: Seq<char>| a != addr@ implies bal_in(post, a) == bal_in(
                        pre,
                        a,
                    ) by {
                        lemma_bal_in_update_other(pre, i as int, post[i as int], a);
                    }
                }
            },
            None => {
                self.balances.push((addr.clone(), amount));
                proof {
                    let post = self.balances@;
                    let e = post.last();
                    assert(post =~= pre.push(e));
                    assert(e.0@ == addr@);
                    lemma_bal_in_first_match(post, addr@, pre.len() as int);
                    assert forall|a: Seq<char>| a != addr@ implies bal_in(post, a) == bal_in(
                        pre,
                        a,
                    ) by {
                        lemma_bal_in_push_other(pre, e, a);
                    }
                }
            },
        }
    }
}

} // verus!
