use vstd::prelude::*;
use vstd::pervasive::VecAdditionalExecFns;

use crate::account::{Account, AccountV};
use crate::errors::StoreError;

verus! {

/// One balance entry: an account and its (non-negative) balance in minor units.
pub struct Entry {
    pub account: Account,
    pub balance: u128,
}

/// Mathematical model of an entry.
#[verifier::ext_equal]
pub struct EntryV {
    pub account: AccountV,
    pub balance: u128,
}

impl View for Entry {
    type V = EntryV;

    open spec fn view(&self) -> EntryV {
        EntryV { account: self.account@, balance: self.balance }
    }
}

/// The balance of `a` in the entry sequence: the balance of its entry, or zero
/// when no entry carries it. Absence of an entry and a zero balance are the
/// same thing to every reader.
pub open spec fn lookup(s: Seq<EntryV>, a: AccountV) -> u128
    decreases s.len(),
{
    if s.len() == 0 {
        0
    } else if s.last().account == a {
        s.last().balance
    } else {
        lookup(s.drop_last(), a)
    }
}

/// The sum of every balance in the sequence, as an unbounded integer.
pub open spec fn sum_balances(s: Seq<EntryV>) -> int
    decreases s.len(),
{
    if s.len() == 0 {
        0
    } else {
        sum_balances(s.drop_last()) + s.last().balance
    }
}

/// No two entries carry the same account.
pub open spec fn unique_keys(s: Seq<EntryV>) -> bool {
    forall|i: int, j: int| 0 <= i < j < s.len() ==> s[i].account != s[j].account
}

/// When no entry carries `a`, its balance is zero.
pub proof fn lemma_lookup_absent(s: Seq<EntryV>, a: AccountV)
    requires
        forall|i: int| 0 <= i < s.len() ==> s[i].account != a,
    ensures
        lookup(s, a) == 0,
    decreases s.len(),
{
    if s.len() > 0 {
        lemma_lookup_absent(s.drop_last(), a);
    }
}

/// With unique keys, the balance of the account at index `i` is that entry's
/// balance.
pub proof fn lemma_lookup_at(s: Seq<EntryV>, i: int)
    requires
        unique_keys(s),
        0 <= i < s.len(),
    ensures
        lookup(s, s[i].account) == s[i].balance,
    decreases s.len(),
{
    if i == s.len() - 1 {
    } else {
        assert(s.last().account != s[i].account);
        assert(s.drop_last()[i] == s[i]);
        lemma_lookup_at(s.drop_last(), i);
    }
}

/// The sum of balances is never negative.
pub proof fn lemma_sum_nonneg(s: Seq<EntryV>)
    ensures
        sum_balances(s) >= 0,
    decreases s.len(),
{
    if s.len() > 0 {
        lemma_sum_nonneg(s.drop_last());
    }
}

/// No single balance exceeds the sum of all balances.
pub proof fn lemma_lookup_le_sum(s: Seq<EntryV>, a: AccountV)
    ensures
        lookup(s, a) <= sum_balances(s),
    decreases s.len(),
{
    if s.len() > 0 {
        lemma_lookup_le_sum(s.drop_last(), a);
        lemma_sum_nonneg(s.drop_last());
    }
}

/// Replacing the entry at `i` with one for the same account changes that
/// account's balance and no other, and moves the sum by the difference.
pub proof fn lemma_update(s: Seq<EntryV>, i: int, e: EntryV)
    requires
        unique_keys(s),
        0 <= i < s.len(),
        e.account == s[i].account,
    ensures
        unique_keys(s.update(i, e)),
        forall|b: AccountV|
            lookup(s.update(i, e), b) == if b == e.account {
                e.balance
            } else {
                lookup(s, b)
            },
        sum_balances(s.update(i, e)) == sum_balances(s) - s[i].balance + e.balance,
    decreases s.len(),
{
    let t = s.update(i, e);
    assert forall|p: int, q: int| 0 <= p < q < t.len() implies t[p].account != t[q].account by {
        assert(s[p].account != s[q].account);
    }
    if i == s.len() - 1 {
        assert(t.last() == e);
        assert(t.drop_last() =~= s.drop_last());
        assert forall|b: AccountV|
            lookup(t, b) == if b == e.account {
                e.balance
            } else {
                lookup(s, b)
            } by {
            if b != e.account {
                assert(s.last().account != b);
            }
        }
    } else {
        assert(t.last() == s.last());
        assert(t.drop_last() =~= s.drop_last().update(i, e));
        assert(t.drop_last() == s.drop_last().update(i, e));
        assert(s.drop_last()[i] == s[i]);
        lemma_update(s.drop_last(), i, e);
        assert forall|b: AccountV|
            lookup(t, b) == if b == e.account {
                e.balance
            } else {
                lookup(s, b)
            } by {
            if b == e.account {
                assert(s.last().account != e.account);
                assert(lookup(t, b) == lookup(t.drop_last(), b));
                assert(lookup(t.drop_last(), b) == e.balance);
            } else {
                if s.last().account == b {
                    assert(lookup(t, b) == t.last().balance);
                    assert(lookup(s, b) == s.last().balance);
                } else {
                    assert(lookup(t, b) == lookup(t.drop_last(), b));
                    assert(lookup(s, b) == lookup(s.drop_last(), b));
                    assert(lookup(t.drop_last(), b) == lookup(s.drop_last(), b));
                }
            }
        }
    }
}

/// Appending an entry for an account no entry carries gives that account the
/// new balance, leaves every other balance alone, and adds to the sum.
pub proof fn lemma_push(s: Seq<EntryV>, e: EntryV)
    requires
        unique_keys(s),
        forall|i: int| 0 <= i < s.len() ==> s[i].account != e.account,
    ensures
        unique_keys(s.push(e)),
        forall|b: AccountV|
            lookup(s.push(e), b) == if b == e.account {
                e.balance
            } else {
                lookup(s, b)
            },
        sum_balances(s.push(e)) == sum_balances(s) + e.balance,
{
    let t = s.push(e);
    assert(t.last() == e);
    assert(t.drop_last() =~= s);
    assert forall|p: int, q: int| 0 <= p < q < t.len() implies t[p].account != t[q].account by {
        if q < s.len() {
            assert(s[p].account != s[q].account);
        } else {
            assert(t[p] == s[p]);
        }
    }
}

/// Removing the entry at `i` zeroes that account's balance, leaves every other
/// balance alone, and subtracts the removed balance from the sum.
pub proof fn lemma_remove(s: Seq<EntryV>, i: int)
    requires
        unique_keys(s),
        0 <= i < s.len(),
    ensures
        unique_keys(s.remove(i)),
        forall|b: AccountV|
            lookup(s.remove(i), b) == if b == s[i].account {
                0u128
            } else {
                lookup(s, b)
            },
        sum_balances(s.remove(i)) == sum_balances(s) - s[i].balance,
    decreases s.len(),
{
    let t = s.remove(i);
    assert forall|p: int, q: int| 0 <= p < q < t.len() implies t[p].account != t[q].account by {
        let p0 = if p < i { p } else { p + 1 };
        let q0 = if q < i { q } else { q + 1 };
        assert(t[p] == s[p0]);
        assert(t[q] == s[q0]);
        assert(s[p0].account != s[q0].account);
    }
    if i == s.len() - 1 {
        assert(t =~= s.drop_last());
        assert forall|b: AccountV|
            lookup(t, b) == if b == s[i].account {
                0u128
            } else {
                lookup(s, b)
            } by {
            if b == s[i].account {
                assert forall|k: int| 0 <= k < t.len() implies t[k].account != b by {
                    assert(s[k].account != s[i].account);
                }
                lemma_lookup_absent(t, b);
            }
        }
    } else {
        assert(t.last() == s.last());
        assert(t.drop_last() =~= s.drop_last().remove(i));
        assert(t.drop_last() == s.drop_last().remove(i));
        assert(s.drop_last()[i] == s[i]);
        lemma_remove(s.drop_last(), i);
        assert forall|b: AccountV|
            lookup(t, b) == if b == s[i].account {
                0u128
            } else {
                lookup(s, b)
            } by {
            if b == s[i].account {
                assert(s.last().account != b);
                assert(lookup(t, b) == lookup(t.drop_last(), b));
                assert(lookup(t.drop_last(), b) == 0);
            } else {
                if s.last().account == b {
                    assert(lookup(t, b) == t.last().balance);
                    assert(lookup(s, b) == s.last().balance);
                } else {
                    assert(lookup(t, b) == lookup(t.drop_last(), b));
                    assert(lookup(s, b) == lookup(s.drop_last(), b));
                    assert(lookup(t.drop_last(), b) == lookup(s.drop_last(), b));
                }
            }
        }
    }
}

/// Pure storage for balances: a mapping from account to non-negative balance
/// with arithmetic-safe accessors. An account without an entry has balance
/// zero; entries are pruned when a debit empties them.
pub struct AccountStore {
    entries: Vec<Entry>,
}

impl View for AccountStore {
    type V = Seq<EntryV>;

    closed spec fn view(&self) -> Seq<EntryV> {
        self.entries@.map_values(|e: Entry| e@)
    }
}

impl AccountStore {
    /// No two entries carry the same account.
    pub open spec fn wf(&self) -> bool {
        unique_keys(self@)
    }

    /// An empty store: every account has balance zero.
    pub fn new() -> (r: AccountStore)
        ensures
            r.wf(),
            r@ =~= Seq::<EntryV>::empty(),
    {
        let r = AccountStore { entries: Vec::new() };
        proof {
            assert(r@ =~= Seq::<EntryV>::empty());
        }
        r
    }

    /// The index of the entry carrying `a`, if one does.
    fn find(&self, a: &Account) -> (r: Option<usize>)
        ensures
            match r {
                Some(i) => i < self@.len() && self@[i as int].account == a@,
                None => forall|i: int| 0 <= i < self@.len() ==> self@[i].account != a@,
            },
    {
        let mut i: usize = 0;
        while i < self.entries.len()
            invariant
                i <= self.entries.len(),
                self@.len() == self.entries@.len(),
                forall|j: int| 0 <= j < i ==> self@[j].account != a@,
            decreases self.entries.len() - i,
        {
            if self.entries[i].account.same_account(a) {
                assert(self@[i as int].account == a@);
                return Some(i);
            }
            i += 1;
        }
        None
    }

    /// The balance of `a`: zero for an unknown account, never a failure.
    pub fn get(&self, a: &Account) -> (r: u128)
        requires
            self.wf(),
        ensures
            r == lookup(self@, a@),
    {
        match self.find(a) {
            Some(i) => {
                proof {
                    lemma_lookup_at(self@, i as int);
                }
                self.entries[i].balance
            },
            None => {
                proof {
                    lemma_lookup_absent(self@, a@);
                }
                0
            },
        }
    }

    /// Increase the balance of `a` by `amount`; fails with `Overflow` exactly
    /// when the new balance would not fit the balance type, and then changes
    /// nothing.
    pub fn credit(&mut self, a: &Account, amount: u128) -> (r: Result<(), StoreError>)
        requires
            old(self).wf(),
        ensures
            final(self).wf(),
            match r {
                Ok(()) => {
                    &&& lookup(old(self)@, a@) + amount <= u128::MAX
                    &&& forall|b: AccountV|
                        lookup(final(self)@, b) == if b == a@ {
                            (lookup(old(self)@, a@) + amount) as u128
                        } else {
                            lookup(old(self)@, b)
                        }
                    &&& sum_balances(final(self)@) == sum_balances(old(self)@) + amount
                },
                Err(e) => {
                    &&& e == StoreError::Overflow
                    &&& lookup(old(self)@, a@) + amount > u128::MAX
                    &&& final(self)@ == old(self)@
                },
            },
    {
        match self.find(a) {
            Some(i) => {
                proof {
                    lemma_lookup_at(self@, i as int);
                }
                let bal = self.entries[i].balance;
                if bal > u128::MAX - amount {
                    return Err(StoreError::Overflow);
                }
                let ghost s0 = self@;
                let e = Entry { account: a.duplicate(), balance: bal + amount };
                proof {
                    assert(e@.account == s0[i as int].account);
                    lemma_update(s0, i as int, e@);
                }
                self.entries.set(i, e);
                proof {
                    assert(self@ =~= s0.update(i as int, e@));
                }
                Ok(())
            },
            None => {
                proof {
                    lemma_lookup_absent(self@, a@);
                }
                let ghost s0 = self@;
                let e = Entry { account: a.duplicate(), balance: amount };
                proof {
                    lemma_push(s0, e@);
                }
                self.entries.push(e);
                proof {
                    assert(self@ =~= s0.push(e@));
                }
                Ok(())
            },
        }
    }

    /// Decrease the balance of `a` by `amount`; fails with
    /// `InsufficientFunds { available }` exactly when the balance is below
    /// `amount`, and then changes nothing. An entry emptied to zero is pruned,
    /// which every reader sees as the zero balance it is.
    pub fn debit(&mut self, a: &Account, amount: u128) -> (r: Result<(), StoreError>)
        requires
            old(self).wf(),
        ensures
            final(self).wf(),
            match r {
                Ok(()) => {
                    &&& lookup(old(self)@, a@) >= amount
                    &&& forall|b: AccountV|
                        lookup(final(self)@, b) == if b == a@ {
                            (lookup(old(self)@, a@) - amount) as u128
                        } else {
                            lookup(old(self)@, b)
                        }
                    &&& sum_balances(final(self)@) == sum_balances(old(self)@) - amount
                },
                Err(e) => {
                    &&& e == StoreError::InsufficientFunds { available: lookup(old(self)@, a@) }
                    &&& lookup(old(self)@, a@) < amount
                    &&& final(self)@ == old(self)@
                },
            },
    {
        match self.find(a) {
            Some(i) => {
                proof {
                    lemma_lookup_at(self@, i as int);
                }
                let bal = self.entries[i].balance;
                if bal < amount {
                    return Err(StoreError::InsufficientFunds { available: bal });
                }
                let ghost s0 = self@;
                if bal == amount {
                    proof {
                        lemma_remove(s0, i as int);
                    }
                    self.entries.remove(i);
                    proof {
                        assert(self@ =~= s0.remove(i as int));
                    }
                } else {
                    let e = Entry { account: a.duplicate(), balance: bal - amount };
                    proof {
                        assert(e@.account == s0[i as int].account);
                        lemma_update(s0, i as int, e@);
                    }
                    self.entries.set(i, e);
                    proof {
                        assert(self@ =~= s0.update(i as int, e@));
                    }
                }
                Ok(())
            },
            None => {
                proof {
                    lemma_lookup_absent(self@, a@);
                }
                if amount == 0 {
                    Ok(())
                } else {
                    Err(StoreError::InsufficientFunds { available: 0 })
                }
            },
        }
    }
}

} // verus!
