//! The allowlist of a restricted sale window: how many tokens each account
//! may still mint in it.

use crate::account::AccountId;
use vstd::prelude::*;

verus! {

/// The allowance that a map of allowances gives an account: its entry, or
/// nothing where it has none.
pub open spec fn allowance_of(allowances: Map<AccountId, u64>, account: AccountId) -> u64 {
    if allowances.contains_key(account) {
        allowances[account]
    } else {
        0
    }
}

/// The allowances after `account` has been charged for `quantity` tokens,
/// or `None` where its allowance does not cover them.
pub open spec fn charged(
    allowances: Map<AccountId, u64>,
    account: AccountId,
    quantity: u64,
) -> Option<Map<AccountId, u64>> {
    if allowance_of(allowances, account) < quantity {
        None
    } else {
        Some(allowances.insert(account, (allowance_of(allowances, account) - quantity) as u64))
    }
}

/// The map that a list of entries stands for: each account with the quantity
/// of its last entry.
pub open spec fn allowances_of(entries: Seq<(AccountId, u64)>) -> Map<AccountId, u64>
    decreases entries.len(),
{
    if entries.len() == 0 {
        Map::empty()
    } else {
        allowances_of(entries.drop_last()).insert(entries.last().0, entries.last().1)
    }
}

spec fn distinct(entries: Seq<(AccountId, u64)>) -> bool {
    forall|i: int, j: int|
        0 <= i < entries.len() && 0 <= j < entries.len() && i != j ==> entries[i].0 != entries[j].0
}

proof fn lemma_entry(entries: Seq<(AccountId, u64)>, i: int)
    requires
        distinct(entries),
        0 <= i < entries.len(),
    ensures
        allowances_of(entries).contains_key(entries[i].0),
        allowances_of(entries)[entries[i].0] == entries[i].1,
    decreases entries.len(),
{
    if i < entries.len() - 1 {
        lemma_entry(entries.drop_last(), i);
    }
}

proof fn lemma_not_listed(entries: Seq<(AccountId, u64)>, account: AccountId)
    requires
        forall|i: int| 0 <= i < entries.len() ==> entries[i].0 != account,
    ensures
        !allowances_of(entries).contains_key(account),
    decreases entries.len(),
{
    if entries.len() > 0 {
        lemma_not_listed(entries.drop_last(), account);
    }
}

proof fn lemma_replaced(entries: Seq<(AccountId, u64)>, i: int, quantity: u64)
    requires
        distinct(entries),
        0 <= i < entries.len(),
    ensures
        allowances_of(entries.update(i, (entries[i].0, quantity))) == allowances_of(
            entries,
        ).insert(entries[i].0, quantity),
    decreases entries.len(),
{
    let updated = entries.update(i, (entries[i].0, quantity));
    if i < entries.len() - 1 {
        lemma_replaced(entries.drop_last(), i, quantity);
        assert(updated.drop_last() =~= entries.drop_last().update(i, (entries[i].0, quantity)));
        assert(entries.last().0 != entries[i].0);
        assert(allowances_of(updated) =~= allowances_of(entries).insert(entries[i].0, quantity));
    } else {
        assert(updated.drop_last() =~= entries.drop_last());
        assert(allowances_of(updated) =~= allowances_of(entries).insert(entries[i].0, quantity));
    }
}

/// A list of accounts, each with the number of tokens it may still mint.
pub struct Allowlist {
    entries: Vec<(AccountId, u64)>,
}

impl View for Allowlist {
    type V = Map<AccountId, u64>;

    closed spec fn view(&self) -> Map<AccountId, u64> {
        allowances_of(self.entries@)
    }
}

impl Allowlist {
    /// No account has two entries.
    pub closed spec fn wf(&self) -> bool {
        distinct(self.entries@)
    }

    /// An allowlist without entries.
    pub fn new() -> (list: Allowlist)
        ensures
            list.wf(),
            list@ == Map::<AccountId, u64>::empty(),
    {
        Allowlist { entries: Vec::new() }
    }

    /// The entry of an account, if it has one.
    pub fn get(&self, account: AccountId) -> (quantity: Option<u64>)
        requires
            self.wf(),
        ensures
            quantity == if self@.contains_key(account) {
                Some(self@[account])
            } else {
                None
            },
    {
        let mut i: usize = 0;
        while i < self.entries.len()
            invariant
                i <= self.entries@.len(),
                self.wf(),
                forall|j: int| 0 <= j < i ==> self.entries@[j].0 != account,
            decreases self.entries@.len() - i,
        {
            if self.entries[i].0 == account {
                proof {
                    lemma_entry(self.entries@, i as int);
                }
                return Some(self.entries[i].1);
            }
            i += 1;
        }
        proof {
            lemma_not_listed(self.entries@, account);
        }
        None
    }

    /// The number of tokens that an account may still mint: its entry, or
    /// nothing where it has none.
    pub fn allowance(&self, account: AccountId) -> (quantity: u64)
        requires
            self.wf(),
        ensures
            quantity == allowance_of(self@, account),
    {
        match self.get(account) {
            Some(quantity) => quantity,
            None => 0,
        }
    }

    /// Sets the entry of an account, in place of the one it had.
    pub fn insert(&mut self, account: AccountId, quantity: u64)
        requires
            old(self).wf(),
        ensures
            final(self).wf(),
            final(self)@ == old(self)@.insert(account, quantity),
    {
        let mut i: usize = 0;
        while i < self.entries.len()
            invariant
                i <= self.entries@.len(),
                self.wf(),
                *self == *old(self),
                forall|j: int| 0 <= j < i ==> self.entries@[j].0 != account,
            decreases self.entries@.len() - i,
        {
            if self.entries[i].0 == account {
                proof {
                    lemma_replaced(self.entries@, i as int, quantity);
                }
                self.entries[i] = (account, quantity);
                return ;
            }
            i += 1;
        }
        self.entries.push((account, quantity));
        assert(self.entries@.drop_last() =~= old(self).entries@);
    }

    /// Entries that stand for the list.
    pub fn to_entries(&self) -> (entries: Vec<(AccountId, u64)>)
        requires
            self.wf(),
        ensures
            allowances_of(entries@) == self@,
    {
        let mut entries: Vec<(AccountId, u64)> = Vec::new();
        let mut i: usize = 0;
        while i < self.entries.len()
            invariant
                i <= self.entries@.len(),
                entries@ == self.entries@.take(i as int),
            decreases self.entries@.len() - i,
        {
            entries.push(self.entries[i]);
            assert(entries@ =~= self.entries@.take(i as int + 1));
            i += 1;
        }
        assert(entries@ =~= self.entries@);
        entries
    }

    /// The list that entries stand for; of two entries of one account the
    /// later one counts.
    pub fn from_entries(entries: &Vec<(AccountId, u64)>) -> (list: Allowlist)
        ensures
            list.wf(),
            list@ == allowances_of(entries@),
    {
        let mut list = Allowlist::new();
        let mut i: usize = 0;
        while i < entries.len()
            invariant
                i <= entries@.len(),
                list.wf(),
                list@ == allowances_of(entries@.take(i as int)),
            decreases entries@.len() - i,
        {
            let entry = entries[i];
            list.insert(entry.0, entry.1);
            assert(entries@.take(i as int + 1).drop_last() =~= entries@.take(i as int));
            i += 1;
        }
        assert(entries@.take(entries@.len() as int) =~= entries@);
        list
    }
}

} // verus!
