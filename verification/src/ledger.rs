//! A model of the surrounding runtime's account storage: an append-only
//! log of (address, bytes) writes whose view is the map from each address
//! to the bytes most recently written there.
//!
//! The runtime serializes all operations that touch the same address, so
//! one sequential store is the faithful picture of what a single request
//! observes.

use vstd::prelude::*;

use crate::records::key_eq;

verus! {

/// One stored account: an address and its raw record bytes.
pub struct AccountEntry {
    pub address: [u8; 32],
    pub data: Vec<u8>,
}

/// The account store.
pub struct Ledger {
    pub accounts: Vec<AccountEntry>,
}

/// The map described by a write log: a later write to an address wins.
pub open spec fn map_of(s: Seq<AccountEntry>) -> Map<Seq<u8>, Seq<u8>>
    decreases s.len(),
{
    if s.len() == 0 {
        Map::empty()
    } else {
        map_of(s.drop_last()).insert(s.last().address@, s.last().data@)
    }
}

/// An address is in the map exactly when some write mentions it.
pub proof fn lemma_map_of_contains(s: Seq<AccountEntry>, a: Seq<u8>)
    ensures
        map_of(s).contains_key(a) <==> exists|i: int| 0 <= i < s.len() && s[i].address@ == a,
    decreases s.len(),
{
    if s.len() > 0 {
        lemma_map_of_contains(s.drop_last(), a);
        if s.last().address@ == a {
            assert(s[s.len() - 1].address@ == a);
        } else if exists|i: int| 0 <= i < s.len() && s[i].address@ == a {
            let i = choose|i: int| 0 <= i < s.len() && s[i].address@ == a;
            assert(s.drop_last()[i] == s[i]);
        } else {
            if exists|i: int| 0 <= i < s.len() - 1 && s.drop_last()[i].address@ == a {
                let i = choose|i: int| 0 <= i < s.len() - 1 && s.drop_last()[i].address@ == a;
                assert(s[i].address@ == a);
            }
        }
    }
}

/// The value at an address is the data of its last write.
pub proof fn lemma_map_of_get(s: Seq<AccountEntry>, i: int)
    requires
        0 <= i < s.len(),
        forall|j: int| i < j < s.len() ==> s[j].address@ != s[i].address@,
    ensures
        map_of(s).contains_key(s[i].address@),
        map_of(s)[s[i].address@] == s[i].data@,
    decreases s.len(),
{
    if i == s.len() - 1 {
    } else {
        assert(s.drop_last()[i] == s[i]);
        lemma_map_of_get(s.drop_last(), i);
        assert(s[s.len() - 1].address@ != s[i].address@);
    }
}

impl View for Ledger {
    type V = Map<Seq<u8>, Seq<u8>>;

    open spec fn view(&self) -> Map<Seq<u8>, Seq<u8>> {
        map_of(self.accounts@)
    }
}

impl Ledger {
    /// An empty store.
    pub fn new() -> (r: Ledger)
        ensures
            r@ == Map::<Seq<u8>, Seq<u8>>::empty(),
    {
        Ledger { accounts: Vec::new() }
    }

    /// Whether any record is stored at `address`.
    pub fn contains(&self, address: &[u8; 32]) -> (r: bool)
        ensures
            r == self@.contains_key(address@),
    {
        match self.get(address) {
            Some(_) => true,
            None => false,
        }
    }

    /// The bytes most recently written at `address`, if any.
    pub fn get(&self, address: &[u8; 32]) -> (r: Option<&Vec<u8>>)
        ensures
            match r {
                Some(d) => self@.contains_key(address@) && self@[address@] == d@,
                None => !self@.contains_key(address@),
            },
    {
        let n = self.accounts.len();
        let mut i: usize = n;
        while i > 0
            invariant
                i <= n,
                n == self.accounts@.len(),
                forall|j: int| i <= j < n ==> self.accounts@[j].address@ != address@,
            decreases i,
        {
            i = i - 1;
            let e = &self.accounts[i];
            if key_eq(&e.address, address) {
                proof {
                    lemma_map_of_get(self.accounts@, i as int);
                }
                return Some(&e.data);
            }
        }
        proof {
            lemma_map_of_contains(self.accounts@, address@);
        }
        None
    }

    /// Record a write of `data` at `address`.
    pub fn put(&mut self, address: &[u8; 32], data: Vec<u8>)
        ensures
            final(self)@ == old(self)@.insert(address@, data@),
    {
        let ghost entry_view = data@;
        self.accounts.push(AccountEntry { address: *address, data });
        proof {
            assert(self.accounts@.drop_last() =~= old(self).accounts@);
            assert(self.accounts@.last().address@ =~= address@);
            assert(map_of(self.accounts@) =~= old(self)@.insert(address@, entry_view));
        }
    }
}

} // verus!
