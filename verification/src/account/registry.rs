//! Account registry.
//!
//! The registry is the exclusive owner of every [`Account`] in the system,
//! keyed by [`Client`]. An account is created lazily, exactly once, on the
//! first event that references its client. The registry's mathematical
//! reading is a map from raw client identifier to [`AccountView`].

use vstd::prelude::*;

use crate::assoc::assoc_map;
use crate::assoc::lemma_assoc_map_dom;
use crate::assoc::lemma_assoc_map_index;
use crate::assoc::lemma_assoc_map_push;
use crate::assoc::lemma_assoc_map_update;
use crate::assoc::unique_keys;
use crate::client::Client;
use crate::transaction::account::Account;
use crate::transaction::account::AccountView;

verus! {

/// The key-view pairs read off a registry's entry vector.
pub open spec fn reg_pairs(s: Seq<(Client, Account)>) -> Seq<(u16, AccountView)> {
    s.map_values(|p: (Client, Account)| (p.0@, p.1@))
}

/// One entry per client, every account's representation well formed.
pub open spec fn reg_inv(s: Seq<(Client, Account)>) -> bool {
    unique_keys(reg_pairs(s)) && forall|i: int| 0 <= i < s.len() ==> (#[trigger] s[i].1).inv()
}

/// Every account of the ledger keeps its total equal to available plus held.
pub open spec fn all_balanced(m: Map<u16, AccountView>) -> bool {
    forall|c: u16| m.dom().contains(c) ==> (#[trigger] m[c]).balanced()
}

/// The collection of all accounts, keyed by client.
pub struct AccountRegistry {
    accounts: Vec<(Client, Account)>,
}

impl View for AccountRegistry {
    type V = Map<u16, AccountView>;

    closed spec fn view(&self) -> Map<u16, AccountView> {
        assoc_map(reg_pairs(self.accounts@))
    }
}

impl AccountRegistry {
    /// Representation invariant.
    pub closed spec fn inv(self) -> bool {
        reg_inv(self.accounts@)
    }

    /// Number of accounts ever referenced.
    pub closed spec fn spec_len(self) -> nat {
        self.accounts@.len()
    }

    /// Creates an empty registry.
    pub fn new() -> (r: Self)
        ensures
            r.inv(),
            r@ == Map::<u16, AccountView>::empty(),
    {
        let r = AccountRegistry { accounts: Vec::new() };
        proof {
            assert(reg_pairs(r.accounts@) =~= Seq::<(u16, AccountView)>::empty());
        }
        r
    }

    /// The index of the entry for `client`, if there is one.
    fn find_account(&self, client: &Client) -> (r: Option<usize>)
        ensures
            match r {
                Some(i) => i < self.accounts@.len() && self.accounts@[i as int].0@ == client@,
                None => forall|j: int|
                    0 <= j < self.accounts@.len() ==> self.accounts@[j].0@ != client@,
            },
    {
        let mut i: usize = 0;
        while i < self.accounts.len()
            invariant
                i <= self.accounts@.len(),
                forall|j: int| 0 <= j < i ==> self.accounts@[j].0@ != client@,
            decreases self.accounts@.len() - i,
        {
            if self.accounts[i].0.equals(client) {
                return Some(i);
            }
            i = i + 1;
        }
        None
    }

    /// Returns a mutable reference to the account of `client`, inserting a
    /// fresh zero account first when the client has none yet. Never creates
    /// two accounts for one client; every other entry is untouched.
    pub fn get_mut_or_insert(&mut self, client: Client) -> (acct: &mut Account)
        requires
            old(self).inv(),
        ensures
            (*acct).inv(),
            (*acct)@ == (if old(self)@.dom().contains(client@) {
                old(self)@[client@]
            } else {
                AccountView::initial()
            }),
            final(self)@ == old(self)@.insert(client@, (*final(acct))@),
            (*final(acct)).inv() ==> final(self).inv(),
    {
        proof {
            lemma_assoc_map_dom(reg_pairs(self.accounts@), client@);
        }
        let idx: usize;
        match self.find_account(&client) {
            Some(i) => {
                proof {
                    assert(reg_pairs(self.accounts@)[i as int].0 == client@);
                    lemma_assoc_map_index(reg_pairs(self.accounts@), i as int);
                }
                idx = i;
            },
            None => {
                proof {
                    assert(forall|j: int|
                        0 <= j < reg_pairs(self.accounts@).len() ==> reg_pairs(self.accounts@)[j].0
                            != client@);
                }
                let ghost s0 = self.accounts@;
                self.accounts.push((client, Account::new()));
                proof {
                    assert(reg_pairs(self.accounts@) =~= reg_pairs(s0).push(
                        (client@, AccountView::initial()),
                    ));
                    lemma_assoc_map_push(reg_pairs(s0), (client@, AccountView::initial()));
                }
                idx = self.accounts.len() - 1;
            },
        }
        let ghost pre = self.accounts@;
        proof {
            assert(pre[idx as int].0@ == client@);
            assert(assoc_map(reg_pairs(pre)) == self@.insert(client@, pre[idx as int].1@)) by {
                lemma_assoc_map_index(reg_pairs(pre), idx as int);
                assert(self@.insert(client@, pre[idx as int].1@) =~= assoc_map(reg_pairs(pre)));
            }
            assert forall|a: Account|
                assoc_map(reg_pairs(pre.update(idx as int, (pre[idx as int].0, a)))) == old(
                    self,
                )@.insert(client@, a@) by {
                let t = pre.update(idx as int, (pre[idx as int].0, a));
                assert(reg_pairs(t) =~= reg_pairs(pre).update(idx as int, (client@, a@)));
                lemma_assoc_map_update(reg_pairs(pre), idx as int, a@);
                assert(assoc_map(reg_pairs(pre)).insert(client@, a@) =~= old(self)@.insert(
                    client@,
                    a@,
                ));
            }
            assert forall|a: Account| reg_inv(pre) && a.inv() implies reg_inv(
                pre.update(idx as int, (pre[idx as int].0, a)),
            ) by {
                let t = pre.update(idx as int, (pre[idx as int].0, a));
                assert(reg_pairs(t) =~= reg_pairs(pre).update(idx as int, (client@, a@)));
                lemma_assoc_map_update(reg_pairs(pre), idx as int, a@);
                assert(forall|j: int| 0 <= j < t.len() && j != idx ==> t[j] == pre[j]);
            }
        }
        &mut self.accounts[idx].1
    }

    /// Returns the account of `client`, if one was ever referenced.
    pub fn get(&self, client: &Client) -> (r: Option<&Account>)
        requires
            self.inv(),
        ensures
            match r {
                Some(a) => self@.dom().contains(client@) && a@ == self@[client@] && a.inv(),
                None => !self@.dom().contains(client@),
            },
    {
        proof {
            lemma_assoc_map_dom(reg_pairs(self.accounts@), client@);
        }
        match self.find_account(client) {
            Some(i) => {
                proof {
                    assert(reg_pairs(self.accounts@)[i as int].0 == client@);
                    lemma_assoc_map_index(reg_pairs(self.accounts@), i as int);
                }
                Some(&self.accounts[i].1)
            },
            None => {
                proof {
                    assert(forall|j: int|
                        0 <= j < reg_pairs(self.accounts@).len() ==> reg_pairs(self.accounts@)[j].0
                            != client@);
                }
                None
            },
        }
    }

    /// Number of accounts in the registry.
    pub fn len(&self) -> (r: usize)
        ensures
            r == self.spec_len(),
    {
        self.accounts.len()
    }

    /// The client and account at a position, for iterating the final report;
    /// the order of positions carries no meaning.
    pub fn entry_at(&self, i: usize) -> (r: (&Client, &Account))
        requires
            self.inv(),
            i < self.spec_len(),
        ensures
            self@.dom().contains(r.0@),
            r.1@ == self@[r.0@],
    {
        proof {
            lemma_assoc_map_index(reg_pairs(self.accounts@), i as int);
        }
        (&self.accounts[i].0, &self.accounts[i].1)
    }
}

impl Default for AccountRegistry {
    /// An empty registry.
    fn default() -> (r: Self)
        ensures
            r.inv(),
            r@ == Map::<u16, AccountView>::empty(),
    {
        AccountRegistry::new()
    }
}

} // verus!
