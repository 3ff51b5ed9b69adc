//! Account balances: a map from address to unsigned amount, default zero,
//! with checked transfers between accounts.

use vstd::prelude::*;
use vstd::hash_map::StringHashMap;
use crate::errors::ErrorKind;

verus! {

/// The balance an address holds in a balance map: the stored amount, or zero
/// for an address the map does not know.
pub open spec fn spec_balance_in(m: Map<Seq<char>, u64>, address: Seq<char>) -> u64 {
    if m.contains_key(address) {
        m[address]
    } else {
        0
    }
}

/// The outcome of a transfer on a balance map: either the map after both
/// legs, or the error that stops it. The debit happens before the credit, so
/// a transfer from an address to itself leaves the map unchanged.
pub open spec fn spec_transfer(
    m: Map<Seq<char>, u64>,
    sender: Seq<char>,
    to: Seq<char>,
    amount: u64,
) -> Result<Map<Seq<char>, u64>, ErrorKind> {
    if amount == 0 {
        Err(ErrorKind::InvalidAmount)
    } else if spec_balance_in(m, sender) < amount {
        Err(ErrorKind::InsufficientBalance)
    } else {
        let debited = m.insert(sender, (spec_balance_in(m, sender) - amount) as u64);
        if spec_balance_in(debited, to) + amount > u64::MAX {
            Err(ErrorKind::BalanceOverflow)
        } else {
            Ok(debited.insert(to, (spec_balance_in(debited, to) + amount) as u64))
        }
    }
}

/// The balance store.
pub struct Pallet {
    pub balance: StringHashMap<u64>,
}

impl Pallet {
    /// The balance of `address` in this store, zero for an unknown address.
    pub open spec fn spec_balance_of(self, address: Seq<char>) -> u64 {
        spec_balance_in(self.balance@, address)
    }

    /// An empty balance store: every address holds zero.
    pub fn new() -> (r: Self)
        ensures
            r.balance@ == Map::<Seq<char>, u64>::empty(),
    {
        Pallet { balance: StringHashMap::new() }
    }

    /// The balance of `address`, zero for an unknown address.
    pub fn balance(&self, address: &str) -> (r: u64)
        ensures
            r == self.spec_balance_of(address@),
    {
        match self.balance.get(address) {
            Some(balance) => *balance,
            None => 0,
        }
    }

    /// Credits `address` by `amount` with checked addition: on overflow the
    /// store is unchanged and the credit fails.
    pub fn add_balance(&mut self, address: &str, amount: u64) -> (r: Result<(), ErrorKind>)
        ensures
            match r {
                Ok(()) => {
                    &&& old(self).spec_balance_of(address@) + amount <= u64::MAX
                    &&& final(self).balance@ == old(self).balance@.insert(
                        address@,
                        (old(self).spec_balance_of(address@) + amount) as u64,
                    )
                },
                Err(e) => {
                    &&& e == ErrorKind::BalanceOverflow
                    &&& old(self).spec_balance_of(address@) + amount > u64::MAX
                    &&& final(self).balance@ == old(self).balance@
                },
            },
    {
        let balance = self.balance(address);
        if balance > u64::MAX - amount {
            return Err(ErrorKind::BalanceOverflow);
        }
        self.balance.insert(address.to_owned(), balance + amount);
        Ok(())
    }

    /// Debits `address` by `amount` with checked subtraction: on underflow
    /// the store is unchanged and the debit fails.
    pub fn sub_balance(&mut self, address: &str, amount: u64) -> (r: Result<(), ErrorKind>)
        ensures
            match r {
                Ok(()) => {
                    &&& amount <= old(self).spec_balance_of(address@)
                    &&& final(self).balance@ == old(self).balance@.insert(
                        address@,
                        (old(self).spec_balance_of(address@) - amount) as u64,
                    )
                },
                Err(e) => {
                    &&& e == ErrorKind::BalanceUnderflow
                    &&& amount > old(self).spec_balance_of(address@)
                    &&& final(self).balance@ == old(self).balance@
                },
            },
    {
        let balance = self.balance(address);
        if balance < amount {
            return Err(ErrorKind::BalanceUnderflow);
        }
        self.balance.insert(address.to_owned(), balance - amount);
        Ok(())
    }

    /// Moves `amount` from `sender` to `to`. The operation is atomic to the
    /// caller: on any failure, the amount a transfer would have taken is back
    /// where it was, and the map reads as before.
    pub fn transfer(&mut self, sender: &str, to: &str, amount: u64) -> (r: Result<(), ErrorKind>)
        ensures
            match spec_transfer(old(self).balance@, sender@, to@, amount) {
                Ok(m) => r == Ok::<(), ErrorKind>(()) && final(self).balance@ == m,
                Err(e) => r == Err::<(), ErrorKind>(e) && final(self).balance@ == old(self).balance@,
            },
    {
        if amount == 0 {
            return Err(ErrorKind::InvalidAmount);
        }
        if self.balance(sender) < amount {
            return Err(ErrorKind::InsufficientBalance);
        }
        let ghost before = self.balance@;
        let sub_result = self.sub_balance(sender, amount);
        proof {
            assert(sub_result is Ok);
        }
        let add_result = self.add_balance(to, amount);
        if let Err(e) = add_result {
            let refund = self.add_balance(sender, amount);
            proof {
                assert(refund is Ok);
                assert(self.balance@ =~= before);
            }
            return Err(e);
        }
        Ok(())
    }

    /// Overwrites the balance of `address` unconditionally; used for seeding.
    pub fn set_balance(&mut self, address: &str, amount: u64) -> (r: Result<(), ErrorKind>)
        ensures
            r == Ok::<(), ErrorKind>(()),
            final(self).balance@ == old(self).balance@.insert(address@, amount),
    {
        self.balance.insert(address.to_owned(), amount);
        Ok(())
    }
}

} // verus!
