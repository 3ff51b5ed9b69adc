//! A wide-counter balance store: the earlier variant of the balance pallet,
//! keyed by address with 128-bit amounts and unchecked arithmetic, so its
//! moves demand room in the counter up front.

use vstd::prelude::*;
use vstd::hash_map::StringHashMap;

verus! {

/// The balance an address holds in a wide balance map: the stored amount, or
/// zero for an address the map does not know.
pub open spec fn spec_wide_balance_in(m: Map<Seq<char>, u128>, address: Seq<char>) -> u128 {
    if m.contains_key(address) {
        m[address]
    } else {
        0
    }
}

/// The wide balance store.
pub struct Pallet {
    pub balance: StringHashMap<u128>,
}

impl Pallet {
    /// The balance of `address` in this store, zero for an unknown address.
    pub open spec fn spec_balance_of(self, address: Seq<char>) -> u128 {
        spec_wide_balance_in(self.balance@, address)
    }

    /// An empty balance store: every address holds zero.
    pub fn new() -> (r: Self)
        ensures
            r.balance@ == Map::<Seq<char>, u128>::empty(),
    {
        Pallet { balance: StringHashMap::new() }
    }

    /// The balance of `address`, zero for an unknown address.
    pub fn get_balance(&self, address: &str) -> (r: u128)
        ensures
            r == self.spec_balance_of(address@),
    {
        match self.balance.get(address) {
            Some(balance) => *balance,
            None => 0,
        }
    }

    /// Credits `address` by `amount`. The sum must fit the counter.
    pub fn add_balance(&mut self, address: &str, amount: u128)
        requires
            old(self).spec_balance_of(address@) + amount <= u128::MAX,
        ensures
            final(self).balance@ == old(self).balance@.insert(
                address@,
                (old(self).spec_balance_of(address@) + amount) as u128,
            ),
    {
        let balance = self.get_balance(address);
        self.balance.insert(address.to_owned(), balance + amount);
    }

    /// Debits `address` by `amount`. The balance must cover the amount.
    pub fn sub_balance(&mut self, address: &str, amount: u128)
        requires
            amount <= old(self).spec_balance_of(address@),
        ensures
            final(self).balance@ == old(self).balance@.insert(
                address@,
                (old(self).spec_balance_of(address@) - amount) as u128,
            ),
    {
        let balance = self.get_balance(address);
        self.balance.insert(address.to_owned(), balance - amount);
    }
}

} // verus!
