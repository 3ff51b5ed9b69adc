//! Error kinds of the ledger engine, with the human-readable messages that
//! callers surface.

use vstd::prelude::*;

verus! {

/// Every failure a ledger operation can report.
#[derive(Clone, Copy, Debug, PartialEq, Eq, Structural)]
pub enum ErrorKind {
    /// A transfer amount was not strictly positive.
    InvalidAmount,
    /// The sender's balance does not cover the requested amount.
    InsufficientBalance,
    /// Crediting an account would overflow its balance counter.
    BalanceOverflow,
    /// Debiting an account would underflow its balance counter.
    BalanceUnderflow,
    /// Incrementing an account's nonce would overflow the counter.
    NonceOverflow,
    /// Decrementing an account's nonce would underflow the counter.
    NonceUnderflow,
    /// A batch execution was requested with no transactions in it.
    EmptyBatch,
    /// The proof-of-work search exhausted the candidate range.
    ProofNotFound,
    /// A peer could not be fetched or its answer could not be read.
    PeerFetchFailure,
}

/// The message text that belongs to each error kind.
pub open spec fn spec_message(e: ErrorKind) -> Seq<char> {
    match e {
        ErrorKind::InvalidAmount => "Amount must be greater than 0"@,
        ErrorKind::InsufficientBalance => "Insufficient balance"@,
        ErrorKind::BalanceOverflow => "Not possible add balance"@,
        ErrorKind::BalanceUnderflow => "Not possible sub balance"@,
        ErrorKind::NonceOverflow => "Not possible increment nonce"@,
        ErrorKind::NonceUnderflow => "Not possible decrement nonce"@,
        ErrorKind::EmptyBatch => "No transactions to execute"@,
        ErrorKind::ProofNotFound => "Proof not found"@,
        ErrorKind::PeerFetchFailure => "Peer fetch failure"@,
    }
}

impl ErrorKind {
    /// The message text of this error kind.
    pub fn message(&self) -> (r: String)
        ensures
            r@ == spec_message(*self),
    {
        match self {
            ErrorKind::InvalidAmount => "Amount must be greater than 0".to_owned(),
            ErrorKind::InsufficientBalance => "Insufficient balance".to_owned(),
            ErrorKind::BalanceOverflow => "Not possible add balance".to_owned(),
            ErrorKind::BalanceUnderflow => "Not possible sub balance".to_owned(),
            ErrorKind::NonceOverflow => "Not possible increment nonce".to_owned(),
            ErrorKind::NonceUnderflow => "Not possible decrement nonce".to_owned(),
            ErrorKind::EmptyBatch => "No transactions to execute".to_owned(),
            ErrorKind::ProofNotFound => "Proof not found".to_owned(),
            ErrorKind::PeerFetchFailure => "Peer fetch failure".to_owned(),
        }
    }
}

} // verus!
