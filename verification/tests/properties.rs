use chrono::Utc;
use ledger_chain::core_client::balance::Pallet;
use ledger_chain::core_client::system::Pallet as SystemPallet;
use ledger_chain::domain::transaction::Transaction;
use ledger_chain::errors::ErrorKind;
use ledger_chain::pow::{find_proof, verify_proof};
use ledger_chain::runtime::Blockchain;

fn simple_transaction(sender: &str, to: &str, amount: u64) -> Transaction {
    Transaction {
        hash: "".to_string(),
        timestamp: Some(Utc::now().to_rfc3339()),
        sender: sender.to_string(),
        to: to.to_string(),
        amount,
        message: "".to_string(),
    }
}

#[test]
fn genesis_only_chain_is_valid() {
    let blockchain = Blockchain::new();
    assert_eq!(blockchain.chain.len(), 1);
    assert_eq!(blockchain.is_chain_valid(), true);
}

#[test]
fn empty_chain_is_valid() {
    let mut blockchain = Blockchain::new();
    blockchain.chain = vec![];
    assert_eq!(blockchain.is_chain_valid(), true);
}

#[test]
fn find_proof_is_deterministic_and_verifies() {
    let first = find_proof(0).unwrap();
    let second = find_proof(0).unwrap();
    assert_eq!(first, second);
    assert_eq!(first, 115558);
    assert_eq!(verify_proof(first, 0), true);
}

#[test]
fn verify_proof_rejects_near_misses() {
    assert_eq!(verify_proof(115558, 0), true);
    assert_eq!(verify_proof(115557, 0), false);
    assert_eq!(verify_proof(115559, 0), false);
    // A candidate below the previous proof never validates.
    assert_eq!(verify_proof(0, 115558), false);
}

#[test]
fn transfer_zero_amount_changes_nothing() {
    let mut pallet = Pallet::new();
    let _ = pallet.set_balance("A", 100);
    let _ = pallet.set_balance("B", 100);
    let result = pallet.transfer("A", "B", 0);
    assert_eq!(result.unwrap_err(), ErrorKind::InvalidAmount);
    assert_eq!(pallet.balance("A"), 100);
    assert_eq!(pallet.balance("B"), 100);
}

#[test]
fn execute_transaction_insufficient_consumes_nonce() {
    let mut blockchain = Blockchain::new();
    let _ = blockchain.set_balance("A", 100);
    assert_eq!(blockchain.get_nonce("A"), 0);
    let result = blockchain.execute_transaction(simple_transaction("A", "B", 150));
    assert_eq!(result.unwrap_err(), ErrorKind::InsufficientBalance);
    assert_eq!(blockchain.balance("A"), 100);
    assert_eq!(blockchain.balance("B"), 0);
    assert_eq!(blockchain.get_nonce("A"), 1);
}

#[test]
fn execute_transaction_moves_amount_and_nonce() {
    let mut blockchain = Blockchain::new();
    let _ = blockchain.set_balance("A", 100);
    let _ = blockchain.set_balance("B", 100);
    let result = blockchain.execute_transaction(simple_transaction("A", "B", 50));
    assert_eq!(result.is_ok(), true);
    assert_eq!(blockchain.balance("A"), 50);
    assert_eq!(blockchain.balance("B"), 150);
    assert_eq!(blockchain.get_nonce("A"), 1);
}

#[test]
fn pool_threshold_produces_block_of_five() {
    let mut blockchain = Blockchain::new();
    for _ in 0..4 {
        let _ = blockchain.add_transaction(simple_transaction("Alice", "Bob", 1));
    }
    assert_eq!(blockchain.transaction_pool.len(), 4);
    assert_eq!(blockchain.chain.len(), 1);
    let _ = blockchain.add_transaction(simple_transaction("Alice", "Bob", 1));
    assert_eq!(blockchain.chain.len(), 2);
    assert_eq!(blockchain.chain[1].transactions.len(), 5);
    assert_eq!(blockchain.transaction_pool.len(), 0);
}

#[test]
fn reconciliation_takes_longer_reported_chain() {
    let mut blockchain = Blockchain::new();
    assert_eq!(blockchain.chain.len(), 1);
    let peer_chain = blockchain.get_chain();
    let longer: Vec<_> = vec![
        peer_chain[0].clone(),
        peer_chain[0].clone(),
        peer_chain[0].clone(),
    ];
    let replaced = blockchain.replace_chain(longer, 3);
    assert_eq!(replaced, true);
    assert_eq!(blockchain.chain.len(), 3);
}

#[test]
fn reconciliation_ignores_shorter_report() {
    let mut blockchain = Blockchain::new();
    let peer_chain = blockchain.get_chain();
    let replaced = blockchain.replace_chain(peer_chain, 1);
    assert_eq!(replaced, false);
    assert_eq!(blockchain.chain.len(), 1);
}

#[test]
fn transfer_overflow_refunds_sender() {
    let mut pallet = Pallet::new();
    let _ = pallet.set_balance("A", 100);
    let _ = pallet.set_balance("B", u64::MAX);
    let result = pallet.transfer("A", "B", 50);
    assert_eq!(result.unwrap_err(), ErrorKind::BalanceOverflow);
    assert_eq!(pallet.balance("A"), 100);
    assert_eq!(pallet.balance("B"), u64::MAX);
}

#[test]
fn transfer_to_self_keeps_balance() {
    let mut pallet = Pallet::new();
    let _ = pallet.set_balance("A", 100);
    let result = pallet.transfer("A", "A", 60);
    assert_eq!(result.is_ok(), true);
    assert_eq!(pallet.balance("A"), 100);
}

#[test]
fn nonce_overflow_is_reported() {
    let mut pallet = SystemPallet::new();
    pallet.nonce.insert("A".to_string(), u64::MAX);
    let result = pallet.increment_nonce("A");
    assert_eq!(result.unwrap_err(), ErrorKind::NonceOverflow);
    assert_eq!(pallet.get_nonce("A"), u64::MAX);
}

#[test]
fn nonce_underflow_is_reported() {
    let mut pallet = SystemPallet::new();
    let result = pallet.decrement_nonce("A");
    assert_eq!(result.unwrap_err(), ErrorKind::NonceUnderflow);
    assert_eq!(pallet.get_nonce("A"), 0);
}

#[test]
fn decrement_nonce_undoes_increment() {
    let mut pallet = SystemPallet::new();
    let _ = pallet.increment_nonce("A");
    let _ = pallet.increment_nonce("A");
    assert_eq!(pallet.get_nonce("A"), 2);
    let result = pallet.decrement_nonce("A");
    assert_eq!(result.is_ok(), true);
    assert_eq!(pallet.get_nonce("A"), 1);
}

#[test]
fn empty_batch_is_refused() {
    let mut blockchain = Blockchain::new();
    let result = blockchain.execute_transactions(vec![]);
    assert_eq!(result.unwrap_err(), ErrorKind::EmptyBatch);
}

#[test]
fn batch_skips_failures_and_succeeds() {
    let mut blockchain = Blockchain::new();
    let _ = blockchain.set_balance("A", 10);
    let transactions = vec![
        simple_transaction("A", "B", 100),
        simple_transaction("A", "B", 10),
    ];
    let result = blockchain.execute_transactions(transactions);
    assert_eq!(result.is_ok(), true);
    assert_eq!(blockchain.balance("A"), 0);
    assert_eq!(blockchain.balance("B"), 10);
    assert_eq!(blockchain.get_nonce("A"), 2);
}

#[test]
fn replace_balance_later_entry_wins() {
    let mut blockchain = Blockchain::new();
    let entries = vec![("A".to_string(), 1), ("A".to_string(), 2), ("B".to_string(), 7)];
    blockchain.replace_balance(&entries);
    assert_eq!(blockchain.balance("A"), 2);
    assert_eq!(blockchain.balance("B"), 7);
    // The seeded account is gone: the overwrite is wholesale, not a merge.
    assert_eq!(blockchain.balance("Alice"), 0);
}

#[test]
fn replace_nonce_overwrites_wholesale() {
    let mut blockchain = Blockchain::new();
    let _ = blockchain.system.increment_nonce("A");
    let entries = vec![("B".to_string(), 9)];
    blockchain.replace_nonce(&entries);
    assert_eq!(blockchain.get_nonce("A"), 0);
    assert_eq!(blockchain.get_nonce("B"), 9);
}

#[test]
fn error_messages_match() {
    assert_eq!(ErrorKind::InvalidAmount.message(), "Amount must be greater than 0");
    assert_eq!(ErrorKind::InsufficientBalance.message(), "Insufficient balance");
    assert_eq!(ErrorKind::BalanceOverflow.message(), "Not possible add balance");
    assert_eq!(ErrorKind::BalanceUnderflow.message(), "Not possible sub balance");
    assert_eq!(ErrorKind::NonceOverflow.message(), "Not possible increment nonce");
    assert_eq!(ErrorKind::NonceUnderflow.message(), "Not possible decrement nonce");
    assert_eq!(ErrorKind::EmptyBatch.message(), "No transactions to execute");
}

#[test]
fn stamped_transaction_keeps_existing_hash() {
    let mut blockchain = Blockchain::new();
    let mut transaction = simple_transaction("Alice", "Bob", 1);
    transaction.hash = "already-stamped".to_string();
    let _ = blockchain.add_transaction(transaction);
    assert_eq!(blockchain.transaction_pool[0].hash, "already-stamped");
}

#[test]
fn tampered_chain_is_invalid() {
    let mut blockchain = Blockchain::new();
    for _ in 0..5 {
        let _ = blockchain.add_transaction(simple_transaction("Alice", "Bob", 1));
    }
    assert_eq!(blockchain.chain.len(), 2);
    assert_eq!(blockchain.is_chain_valid(), true);
    blockchain.chain[1].previous_hash = "forged".to_string();
    assert_eq!(blockchain.is_chain_valid(), false);
}

#[test]
fn tampered_proof_is_invalid() {
    let mut blockchain = Blockchain::new();
    for _ in 0..5 {
        let _ = blockchain.add_transaction(simple_transaction("Alice", "Bob", 1));
    }
    assert_eq!(blockchain.is_chain_valid(), true);
    blockchain.chain[1].proof += 1;
    assert_eq!(blockchain.is_chain_valid(), false);
}

#[test]
fn get_block_out_of_range_is_none() {
    let blockchain = Blockchain::new();
    assert_eq!(blockchain.get_block(1).is_none(), true);
}

#[test]
fn produced_block_links_to_previous() {
    let mut blockchain = Blockchain::new();
    let previous = blockchain.get_previous_block();
    let expected_hash = previous.hash();
    for _ in 0..5 {
        let _ = blockchain.add_transaction(simple_transaction("Alice", "Bob", 1));
    }
    assert_eq!(blockchain.chain.len(), 2);
    assert_eq!(blockchain.chain[1].previous_hash, expected_hash);
    assert_eq!(verify_proof(blockchain.chain[1].proof, previous.proof), true);
}
