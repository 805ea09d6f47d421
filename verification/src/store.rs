//! The balance store: account identifier to balance.

use vstd::prelude::*;

verus! {

/// One account with its balance.
pub struct Entry {
    pub account_id: String,
    pub balance: u128,
}

/// The balances held for depositors. An account without an entry holds zero.
pub struct Deposits {
    entries: Vec<Entry>,
}

/// What an account holds in a store: zero where it has no entry.
pub open spec fn balance_in(store: Map<Seq<char>, u128>, account_id: Seq<char>) -> u128 {
    if store.dom().contains(account_id) {
        store[account_id]
    } else {
        0
    }
}

/// The map that a list of entries stands for. Where an account occurs
/// twice, its later entry counts.
pub open spec fn entries_map(entries: Seq<Entry>) -> Map<Seq<char>, u128>
    decreases entries.len(),
{
    if entries.len() == 0 {
        Map::empty()
    } else {
        entries_map(entries.drop_last()).insert(
            entries.last().account_id@,
            entries.last().balance,
        )
    }
}

/// No account occurs twice in the list.
pub open spec fn distinct_accounts(entries: Seq<Entry>) -> bool {
    forall|i: int, j: int|
        0 <= i < j < entries.len() ==> entries[i].account_id@ != entries[j].account_id@
}

/// Whether some entry of the list is for `account_id`.
pub open spec fn names(entries: Seq<Entry>, account_id: Seq<char>) -> bool {
    exists|i: int| 0 <= i < entries.len() && entries[i].account_id@ == account_id
}

/// In the map of a list without repeated accounts, the accounts are those
/// of the list, each with the balance of its entry.
pub proof fn lemma_entries_map(entries: Seq<Entry>)
    requires
        distinct_accounts(entries),
    ensures
        forall|id: Seq<char>| #[trigger]
            entries_map(entries).dom().contains(id) <==> names(entries, id),
        forall|k: int|
            0 <= k < entries.len() ==> entries_map(entries)[#[trigger] entries[k].account_id@]
                == entries[k].balance,
    decreases entries.len(),
{
    if entries.len() > 0 {
        let front = entries.drop_last();
        let last = entries.last();
        lemma_entries_map(front);
        assert forall|id: Seq<char>| #[trigger]
            entries_map(entries).dom().contains(id) <==> names(entries, id) by {
            if names(entries, id) {
                let k = choose|k: int| 0 <= k < entries.len() && entries[k].account_id@ == id;
                if k < entries.len() - 1 {
                    assert(front[k].account_id@ == id);
                    assert(names(front, id));
                }
            }
            if entries_map(entries).dom().contains(id) {
                if id == last.account_id@ {
                    assert(entries[entries.len() - 1].account_id@ == id);
                } else {
                    assert(entries_map(entries) == entries_map(front).insert(
                        last.account_id@,
                        last.balance,
                    ));
                    assert(entries_map(front).dom().contains(id));
                    assert(names(front, id));
                    let k = choose|k: int| 0 <= k < front.len() && front[k].account_id@ == id;
                    assert(entries[k].account_id@ == id);
                }
            }
        }
        assert forall|k: int| 0 <= k < entries.len() implies entries_map(
            entries,
        )[#[trigger] entries[k].account_id@] == entries[k].balance by {
            if k < entries.len() - 1 {
                assert(front[k] == entries[k]);
                assert(entries[k].account_id@ != last.account_id@);
            }
        }
    }
}

impl Deposits {
    /// Whether some entry is for `account_id`.
    pub closed spec fn listed(&self, account_id: Seq<char>) -> bool {
        exists|i: int| 0 <= i < self.entries@.len() && self.entries@[i].account_id@ == account_id
    }

    /// The place of the entry for `account_id`.
    pub closed spec fn place(&self, account_id: Seq<char>) -> int {
        choose|i: int| 0 <= i < self.entries@.len() && self.entries@[i].account_id@ == account_id
    }

    /// No account has two entries.
    pub closed spec fn wf(&self) -> bool {
        forall|i: int, j: int|
            0 <= i < j < self.entries@.len() ==> self.entries@[i].account_id@
                != self.entries@[j].account_id@
    }

    /// The store as a map from account identifier to balance.
    pub closed spec fn view(&self) -> Map<Seq<char>, u128> {
        Map::new(
            |id: Seq<char>| self.listed(id),
            |id: Seq<char>| self.entries@[self.place(id)].balance,
        )
    }

    /// A store without entries.
    pub fn new() -> (store: Self)
        ensures
            store.wf(),
            store@ == Map::<Seq<char>, u128>::empty(),
    {
        let store = Deposits { entries: Vec::new() };
        assert(store@ =~= Map::<Seq<char>, u128>::empty());
        store
    }

    /// The store that a list of entries stands for.
    pub fn from_entries(entries: Vec<Entry>) -> (store: Self)
        ensures
            store.wf(),
            store@ == entries_map(entries@),
    {
        let mut store = Deposits::new();
        let mut i: usize = 0;
        while i < entries.len()
            invariant
                i <= entries@.len(),
                store.wf(),
                store@ == entries_map(entries@.take(i as int)),
            decreases entries@.len() - i,
        {
            proof {
                assert(entries@.take(i + 1).drop_last() =~= entries@.take(i as int));
            }
            store.insert(entries[i].account_id.clone(), entries[i].balance);
            i += 1;
        }
        proof {
            assert(entries@.take(i as int) =~= entries@);
        }
        store
    }

    /// The entries of the store, each account once.
    pub fn to_entries(&self) -> (entries: Vec<Entry>)
        requires
            self.wf(),
        ensures
            distinct_accounts(entries@),
            entries_map(entries@) == self@,
    {
        let mut entries: Vec<Entry> = Vec::new();
        let mut i: usize = 0;
        while i < self.entries.len()
            invariant
                i <= self.entries@.len(),
                entries@.len() == i,
                forall|k: int|
                    0 <= k < i ==> (#[trigger] entries@[k]).account_id@
                        == self.entries@[k].account_id@ && entries@[k].balance
                        == self.entries@[k].balance,
            decreases self.entries@.len() - i,
        {
            entries.push(
                Entry {
                    account_id: self.entries[i].account_id.clone(),
                    balance: self.entries[i].balance,
                },
            );
            i += 1;
        }
        proof {
            assert(distinct_accounts(entries@)) by {
                assert forall|a: int, b: int| 0 <= a < b < entries@.len() implies entries@[a].account_id@
                    != entries@[b].account_id@ by {
                    assert(entries@[a].account_id@ == self.entries@[a].account_id@);
                    assert(entries@[b].account_id@ == self.entries@[b].account_id@);
                }
            }
            lemma_entries_map(entries@);
            assert forall|id: Seq<char>| self.listed(id) <==> names(entries@, id) by {
                if self.listed(id) {
                    let k = self.place(id);
                    assert(entries@[k].account_id@ == id);
                }
                if names(entries@, id) {
                    let k = choose|k: int| 0 <= k < entries@.len() && entries@[k].account_id@ == id;
                    assert(self.entries@[k].account_id@ == id);
                }
            }
            assert forall|id: Seq<char>| self.listed(id) implies self@[id] == entries_map(
                entries@,
            )[id] by {
                let k = self.place(id);
                assert(entries@[k].account_id@ == id);
            }
            assert(entries_map(entries@) =~= self@);
        }
        entries
    }

    /// The place of the entry for `account_id`, if it has one.
    fn find(&self, account_id: &String) -> (found: Option<usize>)
        requires
            self.wf(),
        ensures
            match found {
                Some(i) => i < self.entries@.len() && self.entries@[i as int].account_id@
                    == account_id@ && self.listed(account_id@) && self.place(account_id@) == i,
                None => !self.listed(account_id@),
            },
    {
        let mut i: usize = 0;
        while i < self.entries.len()
            invariant
                self.wf(),
                i <= self.entries@.len(),
                forall|k: int| 0 <= k < i ==> self.entries@[k].account_id@ != account_id@,
            decreases self.entries@.len() - i,
        {
            if self.entries[i].account_id == *account_id {
                proof {
                    assert(self.entries@[i as int].account_id@ == account_id@);
                    let k = self.place(account_id@);
                    assert(k == i) by {
                        if k < i {
                        } else if k > i {
                        }
                    }
                }
                return Some(i);
            }
            i += 1;
        }
        None
    }

    /// Whether the account has an entry.
    pub fn contains_key(&self, account_id: &String) -> (found: bool)
        requires
            self.wf(),
        ensures
            found == self@.dom().contains(account_id@),
    {
        self.find(account_id).is_some()
    }

    /// The balance of the account's entry, if it has one.
    pub fn get(&self, account_id: &String) -> (balance: Option<u128>)
        requires
            self.wf(),
        ensures
            balance == if self@.dom().contains(account_id@) {
                Some(self@[account_id@])
            } else {
                None
            },
    {
        match self.find(account_id) {
            Some(i) => Some(self.entries[i].balance),
            None => None,
        }
    }

    /// Sets the account's balance, creating its entry where it has none.
    pub fn insert(&mut self, account_id: String, balance: u128)
        requires
            old(self).wf(),
        ensures
            final(self).wf(),
            final(self)@ == old(self)@.insert(account_id@, balance),
    {
        let found = self.find(&account_id);
        let ghost before = *self;
        match found {
            Some(i) => {
                self.entries[i].balance = balance;
                proof {
                    assert forall|id: Seq<char>| before.listed(id) implies self.listed(id) by {
                        let k = before.place(id);
                        assert(self.entries@[k].account_id@ == id);
                    }
                    assert forall|id: Seq<char>| self.listed(id) implies before.listed(id) by {
                        let k = self.place(id);
                        assert(before.entries@[k].account_id@ == id);
                    }
                    assert forall|id: Seq<char>| #[trigger]
                        self.listed(id) && id != account_id@ implies self.entries@[self.place(
                        id,
                    )].balance == before.entries@[before.place(id)].balance by {
                        let k = self.place(id);
                        let l = before.place(id);
                        assert(k == l);
                    }
                    assert(self.place(account_id@) == i);
                }
            },
            None => {
                let ghost id0 = account_id@;
                self.entries.push(Entry { account_id, balance });
                proof {
                    let last = before.entries@.len() as int;
                    assert(self.entries@[last].account_id@ == id0);
                    assert forall|id: Seq<char>| before.listed(id) implies self.listed(id) by {
                        let k = before.place(id);
                        assert(self.entries@[k].account_id@ == id);
                    }
                    assert forall|id: Seq<char>| self.listed(id) && id != id0 implies before.listed(
                        id,
                    ) by {
                        let k = self.place(id);
                        assert(before.entries@[k].account_id@ == id);
                    }
                    assert forall|id: Seq<char>| #[trigger]
                        self.listed(id) && id != id0 implies self.entries@[self.place(
                        id,
                    )].balance == before.entries@[before.place(id)].balance by {
                        let k = self.place(id);
                        assert(before.entries@[k].account_id@ == id);
                        let l = before.place(id);
                        assert(k == l);
                    }
                    assert(self.listed(id0));
                    assert(self.place(id0) == last);
                }
            },
        }
        assert(self@ =~= before@.insert(account_id@, balance));
    }
}

} // verus!
