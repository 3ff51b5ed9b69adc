//! Account nonces: a per-address counter of attempted transactions, default
//! zero, moved only by checked increments and decrements.

use vstd::prelude::*;
use vstd::hash_map::StringHashMap;
use crate::errors::ErrorKind;

verus! {

/// The nonce an address holds in a nonce map: the stored counter, or zero for
/// an address the map does not know.
pub open spec fn spec_nonce_in(m: Map<Seq<char>, u64>, address: Seq<char>) -> u64 {
    if m.contains_key(address) {
        m[address]
    } else {
        0
    }
}

/// The nonce store.
pub struct Pallet {
    pub nonce: StringHashMap<u64>,
}

impl Pallet {
    /// The nonce of `address` in this store, zero for an unknown address.
    pub open spec fn spec_nonce_of(self, address: Seq<char>) -> u64 {
        spec_nonce_in(self.nonce@, address)
    }

    /// An empty nonce store: every address is at zero.
    pub fn new() -> (r: Self)
        ensures
            r.nonce@ == Map::<Seq<char>, u64>::empty(),
    {
        Pallet { nonce: StringHashMap::new() }
    }

    /// The nonce of `address`, zero for an unknown address.
    pub fn get_nonce(&self, address: &str) -> (r: u64)
        ensures
            r == self.spec_nonce_of(address@),
    {
        match self.nonce.get(address) {
            Some(nonce) => *nonce,
            None => 0,
        }
    }

    /// Raises the nonce of `address` by one with checked addition: at the top
    /// of the counter's range the store is unchanged and the step fails.
    pub fn increment_nonce(&mut self, address: &str) -> (r: Result<(), ErrorKind>)
        ensures
            match r {
                Ok(()) => {
                    &&& old(self).spec_nonce_of(address@) < u64::MAX
                    &&& final(self).nonce@ == old(self).nonce@.insert(
                        address@,
                        (old(self).spec_nonce_of(address@) + 1) as u64,
                    )
                },
                Err(e) => {
                    &&& e == ErrorKind::NonceOverflow
                    &&& old(self).spec_nonce_of(address@) == u64::MAX
                    &&& final(self).nonce@ == old(self).nonce@
                },
            },
    {
        let nonce = self.get_nonce(address);
        if nonce == u64::MAX {
            return Err(ErrorKind::NonceOverflow);
        }
        self.nonce.insert(address.to_owned(), nonce + 1);
        Ok(())
    }

    /// Lowers the nonce of `address` by one with checked subtraction: at zero
    /// the store is unchanged and the step fails.
    pub fn decrement_nonce(&mut self, address: &str) -> (r: Result<(), ErrorKind>)
        ensures
            match r {
                Ok(()) => {
                    &&& old(self).spec_nonce_of(address@) > 0
                    &&& final(self).nonce@ == old(self).nonce@.insert(
                        address@,
                        (old(self).spec_nonce_of(address@) - 1) as u64,
                    )
                },
                Err(e) => {
                    &&& e == ErrorKind::NonceUnderflow
                    &&& old(self).spec_nonce_of(address@) == 0
                    &&& final(self).nonce@ == old(self).nonce@
                },
            },
    {
        let nonce = self.get_nonce(address);
        if nonce == 0 {
            return Err(ErrorKind::NonceUnderflow);
        }
        self.nonce.insert(address.to_owned(), nonce - 1);
        Ok(())
    }
}

} // verus!
