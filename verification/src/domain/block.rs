//! A block of the chain and its derived identity.

use vstd::prelude::*;
use vstd::string::StringExecFns;
use crate::domain::transaction::Transaction;
use crate::hashing::{sha256_hex, sha256_hex_of};
use crate::numerals::{decimal_of, u64_to_decimal, usize_to_decimal};

verus! {

/// One block of the chain. Identity is derived from index, timestamp, proof
/// and previous hash; the carried transactions are deliberately not part of
/// the hashed payload.
#[derive(Debug)]
pub struct Block {
    pub index: usize,
    pub timestamp: String,
    pub proof: u64,
    pub previous_hash: String,
    pub transactions: Vec<Transaction>,
}

/// The text whose digest identifies a block: index, timestamp, proof and
/// previous hash, run together. The transactions are left out on purpose.
pub open spec fn spec_block_payload(b: Block) -> Seq<char> {
    decimal_of(b.index as nat) + b.timestamp@ + decimal_of(b.proof as nat) + b.previous_hash@
}

/// The derived identity of a block: the digest of its payload text.
pub open spec fn spec_block_hash(b: Block) -> Seq<char> {
    sha256_hex_of(spec_block_payload(b))
}

/// Whether two blocks agree on every field, the carried transactions
/// compared by content. A copy of a block matches its source.
pub open spec fn spec_block_matches(a: Block, b: Block) -> bool {
    &&& a.index == b.index
    &&& a.timestamp == b.timestamp
    &&& a.proof == b.proof
    &&& a.previous_hash == b.previous_hash
    &&& a.transactions@ == b.transactions@
}

/// Law: blocks that agree on every hashed field share their derived
/// identity.
pub proof fn lemma_matched_blocks_hash_alike(a: Block, b: Block)
    requires
        spec_block_matches(a, b),
    ensures
        spec_block_hash(a) == spec_block_hash(b),
{
    assert(spec_block_payload(a) =~= spec_block_payload(b));
}

impl Clone for Block {
    fn clone(&self) -> (r: Self)
        ensures
            spec_block_matches(r, *self),
    {
        let mut transactions: Vec<Transaction> = Vec::new();
        let mut i: usize = 0;
        while i < self.transactions.len()
            invariant
                i <= self.transactions.len(),
                transactions@ =~= self.transactions@.subrange(0, i as int),
            decreases self.transactions.len() - i,
        {
            transactions.push(self.transactions[i].clone());
            i = i + 1;
        }
        proof {
            assert(transactions@ =~= self.transactions@);
        }
        let r = Block {
            index: self.index,
            timestamp: self.timestamp.clone(),
            proof: self.proof,
            previous_hash: self.previous_hash.clone(),
            transactions,
        };
        r
    }
}

impl Block {
    /// This block's derived identity, as 64 hexadecimal characters.
    pub fn hash(&self) -> (r: String)
        ensures
            r@ == spec_block_hash(*self),
            r@.len() == 64,
    {
        let mut payload = usize_to_decimal(self.index);
        payload.append(self.timestamp.as_str());
        let proof_text = u64_to_decimal(self.proof);
        payload.append(proof_text.as_str());
        payload.append(self.previous_hash.as_str());
        sha256_hex(payload.as_str())
    }
}

} // verus!
