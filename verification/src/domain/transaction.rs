//! A pending transfer between two accounts.

use vstd::prelude::*;
use vstd::string::StringExecFns;
use crate::clock::now_rfc3339;
use crate::hashing::{sha256_hex, sha256_hex_of};
use crate::numerals::{decimal_of, u64_to_decimal};

verus! {

/// A transfer of `amount` units from `sender` to `to`. The `hash` is the
/// transaction's derived identity; a transaction built with an empty hash is
/// stamped lazily when it is admitted into the pool.
#[derive(Debug)]
pub struct Transaction {
    pub hash: String,
    pub timestamp: Option<String>,
    pub sender: String,
    pub to: String,
    pub amount: u64,
    pub message: String,
}

/// The text whose digest identifies a transaction: sender, receiver, amount,
/// message and timestamp, run together.
pub open spec fn spec_transaction_payload(
    sender: Seq<char>,
    to: Seq<char>,
    amount: u64,
    message: Seq<char>,
    timestamp: Seq<char>,
) -> Seq<char> {
    sender + to + decimal_of(amount as nat) + message + timestamp
}

/// The derived identity of a transaction: the digest of its payload text.
pub open spec fn spec_transaction_hash(
    sender: Seq<char>,
    to: Seq<char>,
    amount: u64,
    message: Seq<char>,
    timestamp: Seq<char>,
) -> Seq<char> {
    sha256_hex_of(spec_transaction_payload(sender, to, amount, message, timestamp))
}

impl Clone for Transaction {
    fn clone(&self) -> (r: Self)
        ensures
            r == *self,
    {
        Transaction {
            hash: self.hash.clone(),
            timestamp: match &self.timestamp {
                Some(t) => Some(t.clone()),
                None => None,
            },
            sender: self.sender.clone(),
            to: self.to.clone(),
            amount: self.amount,
            message: self.message.clone(),
        }
    }
}

impl Transaction {
    /// The derived identity of the given transaction fields. The timestamp
    /// must be present: an unstamped transaction has no identity yet.
    pub fn hash(
        sender: &str,
        to: &str,
        amount: u64,
        message: &str,
        timestamp: Option<String>,
    ) -> (r: String)
        requires
            timestamp is Some,
        ensures
            r@ == spec_transaction_hash(sender@, to@, amount, message@, timestamp.unwrap()@),
            r@.len() == 64,
    {
        let ts = match timestamp {
            Some(t) => t,
            None => String::new(),
        };
        let mut payload = sender.to_owned();
        payload.append(to);
        let amount_text = u64_to_decimal(amount);
        payload.append(amount_text.as_str());
        payload.append(message);
        payload.append(ts.as_str());
        sha256_hex(payload.as_str())
    }

    /// A freshly stamped transaction: timestamped now, with its identity
    /// derived from the fields and that timestamp.
    pub fn new(sender: String, to: String, amount: u64, message: String) -> (r: Transaction)
        ensures
            r.sender == sender,
            r.to == to,
            r.amount == amount,
            r.message == message,
            r.timestamp is Some,
            r.hash@ == spec_transaction_hash(
                sender@,
                to@,
                amount,
                message@,
                r.timestamp.unwrap()@,
            ),
            r.hash@.len() == 64,
    {
        let timestamp = Some(now_rfc3339());
        let ts_clone = match &timestamp {
            Some(t) => Some(t.clone()),
            None => None,
        };
        let hash = Transaction::hash(
            sender.as_str(),
            to.as_str(),
            amount,
            message.as_str(),
            ts_clone,
        );
        Transaction { hash, timestamp, sender, to, amount, message }
    }
}

} // verus!
