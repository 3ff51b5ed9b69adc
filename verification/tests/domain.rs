use chrono::Utc;
use ledger_chain::domain::block::Block;
use ledger_chain::domain::transaction::Transaction;

#[test]
fn test_block_hash() {
    let block = Block {
        index: 0,
        timestamp: "2021-08-01T00:00:00".to_string(),
        proof: 0,
        previous_hash: "0".to_string(),
        transactions: vec![],
    };
    let hash = block.hash();
    assert_eq!(hash.len(), 64);
    assert_eq!(hash.is_empty(), false);
}

#[test]
fn test_transaction_hash() {
    let sender = "Alice";
    let to = "Bob";
    let amount = 10;
    let message = "Lohann - Dev Master";
    let timestamp = Some(Utc::now().to_rfc3339());
    let hash = Transaction::hash(sender, to, amount, message, timestamp);
    assert_eq!(hash.len(), 64);
    assert_eq!(hash.is_empty(), false);
}

#[test]
fn test_transaction_new() {
    let sender = "Alice".to_string();
    let to = "Bob".to_string();
    let amount = 10;
    let message = "Lohann - Dev Master".to_string();
    let transaction = Transaction::new(sender.clone(), to.clone(), amount, message.clone());
    assert_eq!(transaction.sender, sender);
    assert_eq!(transaction.to, to);
    assert_eq!(transaction.amount, amount);
    assert_eq!(transaction.message, message);
}
