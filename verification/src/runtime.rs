//! The ledger runtime: the chain of blocks, the pool of pending transfers,
//! the account stores, and the reconciliation rules against peer nodes.

use vstd::prelude::*;
use crate::clock::now_rfc3339;
use crate::core_client::balance::{spec_balance_in, spec_transfer, Pallet};
use crate::core_client::system::{spec_nonce_in, Pallet as SystemPallet};
use crate::domain::block::{
    lemma_matched_blocks_hash_alike, spec_block_hash, spec_block_matches, Block,
};
use crate::domain::transaction::{spec_transaction_hash, Transaction};
use crate::errors::ErrorKind;
use crate::pow::{find_proof, spec_first_valid_proof, spec_proof_valid, verify_proof};

verus! {

/// How many pending transfers sit in the pool when the next admission
/// triggers block production. The admitted transfer joins the batch, so a
/// produced block carries one more transaction than the threshold.
pub const POOL_THRESHOLD: usize = 4;

/// The effect of executing one transaction on the balance and nonce maps:
/// the maps after the attempt, and its outcome. The sender's nonce moves
/// first, and stays moved even when the transfer itself is then refused —
/// nonce consumption counts attempted transactions, not successful ones.
pub open spec fn spec_execute_transaction(
    balances: Map<Seq<char>, u64>,
    nonces: Map<Seq<char>, u64>,
    tx: Transaction,
) -> (Map<Seq<char>, u64>, Map<Seq<char>, u64>, Result<bool, ErrorKind>) {
    let sender = tx.sender@;
    if spec_nonce_in(nonces, sender) == u64::MAX {
        (balances, nonces, Err(ErrorKind::NonceOverflow))
    } else {
        let stepped = nonces.insert(sender, (spec_nonce_in(nonces, sender) + 1) as u64);
        if tx.amount == 0 {
            (balances, stepped, Err(ErrorKind::InvalidAmount))
        } else if spec_balance_in(balances, sender) < tx.amount {
            (balances, stepped, Err(ErrorKind::InsufficientBalance))
        } else {
            match spec_transfer(balances, sender, tx.to@, tx.amount) {
                Ok(m) => (m, stepped, Ok(true)),
                Err(e) => (balances, stepped, Err(e)),
            }
        }
    }
}

/// The balance and nonce maps after executing a batch of transactions in
/// order, each failure skipped rather than aborting the batch.
pub open spec fn spec_execute_batch(
    balances: Map<Seq<char>, u64>,
    nonces: Map<Seq<char>, u64>,
    txs: Seq<Transaction>,
) -> (Map<Seq<char>, u64>, Map<Seq<char>, u64>)
    decreases txs.len(),
{
    if txs.len() == 0 {
        (balances, nonces)
    } else {
        let step = spec_execute_transaction(balances, nonces, txs[0]);
        spec_execute_batch(step.0, step.1, txs.subrange(1, txs.len() as int))
    }
}

/// Whether one block correctly follows another: it records the digest of its
/// predecessor, and its proof answers the puzzle set by the predecessor's.
pub open spec fn spec_link_valid(previous: Block, b: Block) -> bool {
    &&& b.previous_hash@ == spec_block_hash(previous)
    &&& spec_proof_valid(b.proof, previous.proof)
}

/// Chain validity: every block after the first correctly follows its
/// predecessor. An empty or single-block chain is trivially valid.
pub open spec fn spec_chain_valid(c: Seq<Block>) -> bool {
    forall|i: int| 1 <= i < c.len() ==> #[trigger] spec_link_valid(c[i - 1], c[i])
}

/// Law: a chain that holds at most its genesis block is valid.
pub proof fn lemma_genesis_only_chain_valid(c: Seq<Block>)
    requires
        c.len() <= 1,
    ensures
        spec_chain_valid(c),
{
}

/// Law: a block mined by the engine always validates. Appending a block that
/// records the last block's digest and carries a valid proof against the last
/// block's proof keeps a valid chain valid.
pub proof fn lemma_mined_block_keeps_chain_valid(c: Seq<Block>, b: Block)
    requires
        spec_chain_valid(c),
        c.len() > 0,
        b.previous_hash@ == spec_block_hash(c.last()),
        spec_proof_valid(b.proof, c.last().proof),
    ensures
        spec_chain_valid(c.push(b)),
{
    let grown = c.push(b);
    assert forall|i: int| 1 <= i < grown.len() implies #[trigger] spec_link_valid(
        grown[i - 1],
        grown[i],
    ) by {
        if i < c.len() {
            assert(spec_link_valid(c[i - 1], c[i]));
        } else {
            assert(grown[i - 1] == c.last() && grown[i] == b);
        }
    }
}

/// The map a list of address–value pairs describes, the later entry winning
/// where an address repeats.
pub open spec fn spec_map_of_pairs(entries: Seq<(String, u64)>) -> Map<Seq<char>, u64>
    decreases entries.len(),
{
    if entries.len() == 0 {
        Map::empty()
    } else {
        spec_map_of_pairs(entries.drop_last()).insert(entries.last().0@, entries.last().1)
    }
}

/// Whether `s` is the transaction `tx` as the pool admits it: unchanged when
/// it already carries an identity, otherwise stamped with a fresh timestamp
/// and with the identity derived from its fields and its incoming timestamp.
pub open spec fn spec_stamped_from(tx: Transaction, s: Transaction) -> bool {
    if tx.hash@.len() != 0 {
        s == tx
    } else {
        &&& s.sender == tx.sender
        &&& s.to == tx.to
        &&& s.amount == tx.amount
        &&& s.message == tx.message
        &&& s.timestamp is Some
        &&& s.hash@ == spec_transaction_hash(
            tx.sender@,
            tx.to@,
            tx.amount,
            tx.message@,
            tx.timestamp.unwrap()@,
        )
        &&& s.hash@.len() == 64
    }
}

/// An owned copy of a list of transactions.
fn clone_transactions(v: &Vec<Transaction>) -> (r: Vec<Transaction>)
    ensures
        r@ == v@,
{
    let mut r: Vec<Transaction> = Vec::new();
    let mut i: usize = 0;
    while i < v.len()
        invariant
            i <= v.len(),
            r@ =~= v@.subrange(0, i as int),
        decreases v.len() - i,
    {
        r.push(v[i].clone());
        i = i + 1;
    }
    proof {
        assert(r@ =~= v@);
    }
    r
}

/// An owned copy of a list of blocks, each block matching its source.
fn clone_blocks(v: &Vec<Block>) -> (r: Vec<Block>)
    ensures
        r@.len() == v@.len(),
        forall|i: int| 0 <= i < v@.len() ==> spec_block_matches(#[trigger] r@[i], v@[i]),
{
    let mut r: Vec<Block> = Vec::new();
    let mut i: usize = 0;
    while i < v.len()
        invariant
            i <= v.len(),
            r@.len() == i,
            forall|j: int| 0 <= j < i ==> spec_block_matches(#[trigger] r@[j], v@[j]),
        decreases v.len() - i,
    {
        r.push(v[i].clone());
        i = i + 1;
    }
    r
}

/// The ledger: the chain, the pool of pending transfers, the two account
/// stores, and the known peer addresses.
pub struct Blockchain {
    pub chain: Vec<Block>,
    pub transaction_pool: Vec<Transaction>,
    pub balances: Pallet,
    pub system: SystemPallet,
    pub nodes: Vec<String>,
}

impl Blockchain {
    /// A fresh ledger: a genesis block alone on the chain, an empty pool, no
    /// known peers, the seed account holding its opening balance, and every
    /// nonce at zero.
    pub fn new() -> (r: Blockchain)
        ensures
            r.chain@.len() == 1,
            r.chain@[0].index == 0,
            r.chain@[0].proof == 0,
            r.chain@[0].previous_hash@ == "0"@,
            r.chain@[0].transactions@.len() == 0,
            r.chain@[0].timestamp@.len() > 0,
            spec_chain_valid(r.chain@),
            r.transaction_pool@.len() == 0,
            r.balances.balance@ == Map::<Seq<char>, u64>::empty().insert("Alice"@, 100u64),
            r.system.nonce@ == Map::<Seq<char>, u64>::empty(),
            r.nodes@.len() == 0,
    {
        let genesis_block = Block {
            index: 0,
            timestamp: now_rfc3339(),
            proof: 0,
            previous_hash: "0".to_owned(),
            transactions: Vec::new(),
        };
        let mut balances = Pallet::new();
        let _ = balances.set_balance("Alice", 100);
        let mut chain: Vec<Block> = Vec::new();
        chain.push(genesis_block);
        Blockchain {
            chain,
            transaction_pool: Vec::new(),
            balances,
            system: SystemPallet::new(),
            nodes: Vec::new(),
        }
    }

    /// Attempts one transaction: the sender's nonce is raised first and stays
    /// raised even when the transfer is then refused; the transfer itself
    /// moves the amount or fails without touching any balance.
    pub fn execute_transaction(&mut self, transaction: Transaction) -> (r: Result<bool, ErrorKind>)
        ensures
            ({
                let step = spec_execute_transaction(
                    old(self).balances.balance@,
                    old(self).system.nonce@,
                    transaction,
                );
                &&& final(self).balances.balance@ == step.0
                &&& final(self).system.nonce@ == step.1
                &&& r == step.2
            }),
            final(self).chain == old(self).chain,
            final(self).transaction_pool == old(self).transaction_pool,
            final(self).nodes == old(self).nodes,
    {
        let inc_nonce_result = self.system.increment_nonce(transaction.sender.as_str());
        if let Err(e) = inc_nonce_result {
            return Err(e);
        }
        if transaction.amount == 0 {
            return Err(ErrorKind::InvalidAmount);
        }
        if self.balances.balance(transaction.sender.as_str()) < transaction.amount {
            return Err(ErrorKind::InsufficientBalance);
        }
        let transfer_result = self.balances.transfer(
            transaction.sender.as_str(),
            transaction.to.as_str(),
            transaction.amount,
        );
        if let Err(e) = transfer_result {
            return Err(e);
        }
        Ok(true)
    }

    /// Attempts a batch of transactions in order. An empty batch is refused;
    /// otherwise each transaction is attempted, any single failure is skipped
    /// rather than aborting the batch, and the batch as a whole succeeds.
    pub fn execute_transactions(&mut self, transactions: Vec<Transaction>) -> (r: Result<
        bool,
        ErrorKind,
    >)
        ensures
            ({
                let batch = spec_execute_batch(
                    old(self).balances.balance@,
                    old(self).system.nonce@,
                    transactions@,
                );
                if transactions@.len() == 0 {
                    &&& r == Err::<bool, ErrorKind>(ErrorKind::EmptyBatch)
                    &&& final(self).balances.balance@ == old(self).balances.balance@
                    &&& final(self).system.nonce@ == old(self).system.nonce@
                } else {
                    &&& r == Ok::<bool, ErrorKind>(true)
                    &&& final(self).balances.balance@ == batch.0
                    &&& final(self).system.nonce@ == batch.1
                }
            }),
            final(self).chain == old(self).chain,
            final(self).transaction_pool == old(self).transaction_pool,
            final(self).nodes == old(self).nodes,
    {
        if transactions.len() == 0 {
            return Err(ErrorKind::EmptyBatch);
        }
        let ghost orig_balances = self.balances.balance@;
        let ghost orig_nonces = self.system.nonce@;
        let ghost orig_chain = self.chain;
        let ghost orig_pool = self.transaction_pool;
        let ghost orig_nodes = self.nodes;
        let mut i: usize = 0;
        proof {
            assert(transactions@.subrange(0, transactions@.len() as int) =~= transactions@);
        }
        while i < transactions.len()
            invariant
                i <= transactions.len(),
                spec_execute_batch(
                    self.balances.balance@,
                    self.system.nonce@,
                    transactions@.subrange(i as int, transactions@.len() as int),
                ) == spec_execute_batch(orig_balances, orig_nonces, transactions@),
                self.chain == orig_chain,
                self.transaction_pool == orig_pool,
                self.nodes == orig_nodes,
            decreases transactions.len() - i,
        {
            proof {
                assert(transactions@.subrange(i as int, transactions@.len() as int)[0]
                    == transactions@[i as int]);
            }
            let tx = transactions[i].clone();
            let _ = self.execute_transaction(tx);
            proof {
                assert(transactions@.subrange(i as int, transactions@.len() as int).subrange(
                    1,
                    transactions@.len() - i,
                ) =~= transactions@.subrange(i + 1, transactions@.len() as int));
            }
            i = i + 1;
        }
        proof {
            assert(transactions@.subrange(
                transactions@.len() as int,
                transactions@.len() as int,
            ) =~= Seq::<Transaction>::empty());
        }
        Ok(true)
    }

    /// Drains the pool into a new block and appends it: the pool's
    /// transactions are executed in order (failures inside swallowed), the
    /// block is built from the supplied proof and previous hash with the next
    /// index, and the pool is left empty. The block's shape never depends on
    /// whether its transactions succeeded economically.
    pub fn create_block(&mut self, proof: u64, previous_hash: String) -> (r: Block)
        requires
            old(self).chain@.len() < usize::MAX,
        ensures
            final(self).chain@.len() == old(self).chain@.len() + 1,
            forall|i: int|
                0 <= i < old(self).chain@.len() ==> final(self).chain@[i] == old(self).chain@[i],
            spec_block_matches(final(self).chain@.last(), r),
            r.index == old(self).chain@.len() + 1,
            r.proof == proof,
            r.previous_hash == previous_hash,
            r.transactions@ == old(self).transaction_pool@,
            r.timestamp@.len() > 0,
            final(self).transaction_pool@.len() == 0,
            final(self).balances.balance@ == spec_execute_batch(
                old(self).balances.balance@,
                old(self).system.nonce@,
                old(self).transaction_pool@,
            ).0,
            final(self).system.nonce@ == spec_execute_batch(
                old(self).balances.balance@,
                old(self).system.nonce@,
                old(self).transaction_pool@,
            ).1,
            final(self).nodes == old(self).nodes,
    {
        let transactions = clone_transactions(&self.transaction_pool);
        let batch = clone_transactions(&transactions);
        let _ = self.execute_transactions(batch);
        let block = Block {
            index: self.chain.len() + 1,
            timestamp: now_rfc3339(),
            proof,
            previous_hash,
            transactions,
        };
        self.chain.push(block.clone());
        self.transaction_pool = Vec::new();
        block
    }

    /// The last block of the chain, which the next block must follow.
    pub fn get_previous_block(&self) -> (r: Block)
        requires
            self.chain@.len() > 0,
        ensures
            spec_block_matches(r, self.chain@.last()),
    {
        let last = self.chain.len() - 1;
        self.chain[last].clone()
    }

    /// Searches for the first valid proof after `previous_proof`; the search
    /// is capped at the top of the counter's range and reports
    /// `ProofNotFound` where no candidate in that range answers the puzzle.
    pub fn proof_of_work(&self, previous_proof: u64) -> (r: Result<u64, ErrorKind>)
        ensures
            match r {
                Ok(p) => spec_first_valid_proof(p, previous_proof),
                Err(e) => {
                    &&& e == ErrorKind::ProofNotFound
                    &&& forall|q: u64|
                        previous_proof < q ==> !spec_proof_valid(q, previous_proof)
                },
            },
    {
        find_proof(previous_proof)
    }

    /// Walks the chain from its second block and checks that every block
    /// correctly follows its predecessor: recorded digest and proof-of-work
    /// both. An empty or genesis-only chain is trivially valid.
    pub fn is_chain_valid(&self) -> (r: bool)
        ensures
            r == spec_chain_valid(self.chain@),
    {
        if self.chain.len() == 0 {
            return true;
        }
        let mut block_index: usize = 1;
        while block_index < self.chain.len()
            invariant
                1 <= block_index <= self.chain@.len(),
                forall|j: int|
                    1 <= j < block_index ==> #[trigger] spec_link_valid(
                        self.chain@[j - 1],
                        self.chain@[j],
                    ),
            decreases self.chain@.len() - block_index,
        {
            let previous = &self.chain[block_index - 1];
            let block = &self.chain[block_index];
            let previous_hash = previous.hash();
            if !(block.previous_hash == previous_hash) {
                proof {
                    assert(!spec_link_valid(
                        self.chain@[block_index - 1],
                        self.chain@[block_index as int],
                    ));
                }
                return false;
            }
            if !verify_proof(block.proof, previous.proof) {
                proof {
                    assert(!spec_link_valid(
                        self.chain@[block_index - 1],
                        self.chain@[block_index as int],
                    ));
                }
                return false;
            }
            block_index = block_index + 1;
        }
        true
    }

    /// Admits a transaction into the pool. A transaction arriving without an
    /// identity is stamped first. When the pool already sits at the
    /// threshold, the admitted transaction joins the batch, a proof is mined
    /// against the last block, and the enlarged pool is drained into a new
    /// block; otherwise the transaction is simply appended.
    pub fn add_transaction(&mut self, transaction: Transaction) -> (r: Result<(), ErrorKind>)
        requires
            transaction.hash@.len() == 0 ==> transaction.timestamp is Some,
            old(self).transaction_pool@.len() == POOL_THRESHOLD ==> 0 < old(self).chain@.len()
                < usize::MAX,
        ensures
            old(self).transaction_pool@.len() != POOL_THRESHOLD ==> {
                &&& r == Ok::<(), ErrorKind>(())
                &&& final(self).transaction_pool@.len() == old(self).transaction_pool@.len() + 1
                &&& final(self).transaction_pool@.drop_last() == old(self).transaction_pool@
                &&& spec_stamped_from(transaction, final(self).transaction_pool@.last())
                &&& final(self).chain == old(self).chain
                &&& final(self).balances.balance@ == old(self).balances.balance@
                &&& final(self).system.nonce@ == old(self).system.nonce@
                &&& final(self).nodes == old(self).nodes
            },
            old(self).transaction_pool@.len() == POOL_THRESHOLD ==> match r {
                Ok(()) => {
                    &&& final(self).chain@.len() == old(self).chain@.len() + 1
                    &&& forall|i: int|
                        0 <= i < old(self).chain@.len() ==> final(self).chain@[i] == old(
                            self,
                        ).chain@[i]
                    &&& final(self).chain@.last().index == old(self).chain@.len() + 1
                    &&& final(self).chain@.last().previous_hash@ == spec_block_hash(
                        old(self).chain@.last(),
                    )
                    &&& spec_first_valid_proof(
                        final(self).chain@.last().proof,
                        old(self).chain@.last().proof,
                    )
                    &&& final(self).chain@.last().transactions@.len() == POOL_THRESHOLD + 1
                    &&& final(self).chain@.last().transactions@.drop_last() == old(
                        self,
                    ).transaction_pool@
                    &&& spec_stamped_from(
                        transaction,
                        final(self).chain@.last().transactions@.last(),
                    )
                    &&& final(self).transaction_pool@.len() == 0
                    &&& final(self).balances.balance@ == spec_execute_batch(
                        old(self).balances.balance@,
                        old(self).system.nonce@,
                        final(self).chain@.last().transactions@,
                    ).0
                    &&& final(self).system.nonce@ == spec_execute_batch(
                        old(self).balances.balance@,
                        old(self).system.nonce@,
                        final(self).chain@.last().transactions@,
                    ).1
                    &&& final(self).nodes == old(self).nodes
                },
                Err(e) => {
                    &&& e == ErrorKind::ProofNotFound
                    &&& forall|q: u64|
                        old(self).chain@.last().proof < q ==> !spec_proof_valid(
                            q,
                            old(self).chain@.last().proof,
                        )
                    &&& *final(self) == *old(self)
                },
            },
    {
        let stamped: Transaction;
        if transaction.hash.as_str().is_empty() {
            let ts = match &transaction.timestamp {
                Some(t) => Some(t.clone()),
                None => None,
            };
            let hash = Transaction::hash(
                transaction.sender.as_str(),
                transaction.to.as_str(),
                transaction.amount,
                transaction.message.as_str(),
                ts,
            );
            stamped = Transaction {
                hash,
                timestamp: Some(now_rfc3339()),
                sender: transaction.sender,
                to: transaction.to,
                amount: transaction.amount,
                message: transaction.message,
            };
        } else {
            stamped = transaction;
        }
        if self.transaction_pool.len() == POOL_THRESHOLD {
            let previous_block = self.get_previous_block();
            let proof = match find_proof(previous_block.proof) {
                Ok(p) => p,
                Err(e) => {
                    return Err(e);
                },
            };
            let previous_hash = previous_block.hash();
            proof {
                lemma_matched_blocks_hash_alike(previous_block, self.chain@.last());
            }
            self.transaction_pool.push(stamped);
            let _block = self.create_block(proof, previous_hash);
            Ok(())
        } else {
            self.transaction_pool.push(stamped);
            Ok(())
        }
    }

    /// The chain as a list of blocks, each a copy of the chain's.
    pub fn get_chain(&self) -> (r: Vec<Block>)
        ensures
            r@.len() == self.chain@.len(),
            forall|i: int|
                0 <= i < self.chain@.len() ==> spec_block_matches(
                    #[trigger] r@[i],
                    self.chain@[i],
                ),
    {
        clone_blocks(&self.chain)
    }

    /// A copy of the block at `index`, or nothing where the chain is shorter.
    pub fn get_block(&self, index: usize) -> (r: Option<Block>)
        ensures
            match r {
                Some(b) => index < self.chain@.len() && spec_block_matches(
                    b,
                    self.chain@[index as int],
                ),
                None => index >= self.chain@.len(),
            },
    {
        if index < self.chain.len() {
            Some(self.chain[index].clone())
        } else {
            None
        }
    }

    /// Records a peer node's address.
    pub fn add_node(&mut self, address: String)
        ensures
            final(self).nodes@ == old(self).nodes@.push(address),
            final(self).chain == old(self).chain,
            final(self).transaction_pool == old(self).transaction_pool,
            final(self).balances.balance@ == old(self).balances.balance@,
            final(self).system.nonce@ == old(self).system.nonce@,
    {
        self.nodes.push(address);
    }

    /// The recorded peer addresses, in insertion order.
    pub fn get_nodes(&self) -> (r: Vec<String>)
        ensures
            r@ == self.nodes@,
    {
        let mut r: Vec<String> = Vec::new();
        let mut i: usize = 0;
        while i < self.nodes.len()
            invariant
                i <= self.nodes.len(),
                r@ =~= self.nodes@.subrange(0, i as int),
            decreases self.nodes.len() - i,
        {
            r.push(self.nodes[i].clone());
            i = i + 1;
        }
        proof {
            assert(r@ =~= self.nodes@);
        }
        r
    }

    /// Adopts a peer's chain under the longest-chain rule: the local chain is
    /// replaced exactly when the peer reports a greater length than the local
    /// chain's and the local chain still passes validation. The reported
    /// length is what is compared; the fetched chain itself is adopted
    /// unvalidated — that is the literal reconciliation contract.
    pub fn replace_chain(&mut self, candidate: Vec<Block>, reported_length: usize) -> (r: bool)
        ensures
            r == (reported_length > old(self).chain@.len() && spec_chain_valid(old(self).chain@)),
            r ==> final(self).chain == candidate,
            !r ==> final(self).chain == old(self).chain,
            final(self).transaction_pool == old(self).transaction_pool,
            final(self).balances.balance@ == old(self).balances.balance@,
            final(self).system.nonce@ == old(self).system.nonce@,
            final(self).nodes == old(self).nodes,
    {
        let max_length = self.chain.len();
        if reported_length > max_length && self.is_chain_valid() {
            self.chain = candidate;
            true
        } else {
            false
        }
    }

    /// Overwrites the local nonce store wholesale with a peer's reported
    /// entries, the later entry winning where an address repeats.
    pub fn replace_nonce(&mut self, entries: &Vec<(String, u64)>)
        ensures
            final(self).system.nonce@ == spec_map_of_pairs(entries@),
            final(self).chain == old(self).chain,
            final(self).transaction_pool == old(self).transaction_pool,
            final(self).balances.balance@ == old(self).balances.balance@,
            final(self).nodes == old(self).nodes,
    {
        let mut fresh = SystemPallet::new();
        let mut i: usize = 0;
        while i < entries.len()
            invariant
                i <= entries.len(),
                fresh.nonce@ == spec_map_of_pairs(entries@.subrange(0, i as int)),
            decreases entries.len() - i,
        {
            proof {
                assert(entries@.subrange(0, i + 1).drop_last() =~= entries@.subrange(0, i as int));
                assert(entries@.subrange(0, i + 1).last() == entries@[i as int]);
            }
            fresh.nonce.insert(entries[i].0.clone(), entries[i].1);
            i = i + 1;
        }
        proof {
            assert(entries@.subrange(0, entries@.len() as int) =~= entries@);
        }
        self.system = fresh;
    }

    /// Overwrites the local balance store wholesale with a peer's reported
    /// entries, the later entry winning where an address repeats.
    pub fn replace_balance(&mut self, entries: &Vec<(String, u64)>)
        ensures
            final(self).balances.balance@ == spec_map_of_pairs(entries@),
            final(self).chain == old(self).chain,
            final(self).transaction_pool == old(self).transaction_pool,
            final(self).system.nonce@ == old(self).system.nonce@,
            final(self).nodes == old(self).nodes,
    {
        let mut fresh = Pallet::new();
        let mut i: usize = 0;
        while i < entries.len()
            invariant
                i <= entries.len(),
                fresh.balance@ == spec_map_of_pairs(entries@.subrange(0, i as int)),
            decreases entries.len() - i,
        {
            proof {
                assert(entries@.subrange(0, i + 1).drop_last() =~= entries@.subrange(0, i as int));
                assert(entries@.subrange(0, i + 1).last() == entries@[i as int]);
            }
            fresh.balance.insert(entries[i].0.clone(), entries[i].1);
            i = i + 1;
        }
        proof {
            assert(entries@.subrange(0, entries@.len() as int) =~= entries@);
        }
        self.balances = fresh;
    }

    /// The balance of `address`, zero for an unknown address.
    pub fn balance(&self, address: &str) -> (r: u64)
        ensures
            r == self.balances.spec_balance_of(address@),
    {
        self.balances.balance(address)
    }

    /// The nonce of `address`, zero for an unknown address.
    pub fn get_nonce(&self, address: &str) -> (r: u64)
        ensures
            r == self.system.spec_nonce_of(address@),
    {
        self.system.get_nonce(address)
    }

    /// The whole nonce map.
    pub fn get_all_nonce(&self) -> (r: &vstd::hash_map::StringHashMap<u64>)
        ensures
            r@ == self.system.nonce@,
    {
        &self.system.nonce
    }

    /// The whole balance map.
    pub fn get_all_balance(&self) -> (r: &vstd::hash_map::StringHashMap<u64>)
        ensures
            r@ == self.balances.balance@,
    {
        &self.balances.balance
    }

    /// Overwrites the balance of `address` unconditionally; used for seeding.
    pub fn set_balance(&mut self, address: &str, amount: u64) -> (r: Result<(), ErrorKind>)
        ensures
            r == Ok::<(), ErrorKind>(()),
            final(self).balances.balance@ == old(self).balances.balance@.insert(address@, amount),
            final(self).chain == old(self).chain,
            final(self).transaction_pool == old(self).transaction_pool,
            final(self).system.nonce@ == old(self).system.nonce@,
            final(self).nodes == old(self).nodes,
    {
        self.balances.set_balance(address, amount)
    }
}

} // verus!
