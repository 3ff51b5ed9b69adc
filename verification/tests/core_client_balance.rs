use ledger_chain::core_client::balance::Pallet;

#[test]
fn balance_test_balance_new() {
    let pallet = Pallet::new();
    assert_eq!(pallet.balance.len(), 0);
}

#[test]
fn balance_test_balance_get() {
    let mut pallet = Pallet::new();
    pallet.balance.insert("Alice".to_string(), 100);
    let balance = pallet.balance("Alice");
    assert_eq!(balance, 100);
}

#[test]
fn balance_test_balance_add() {
    let mut pallet = Pallet::new();
    let _ = pallet.add_balance("Alice", 100);
    let balance = pallet.balance("Alice");
    assert_eq!(balance, 100);
}

#[test]
fn balance_test_balance_sub() {
    let mut pallet = Pallet::new();
    let _ = pallet.add_balance("Alice", 100);
    let _ = pallet.sub_balance("Alice", 50);
    let balance = pallet.balance("Alice");
    assert_eq!(balance, 50);
}

#[test]
fn test_transfer() {
    let mut pallet = Pallet::new();
    let _ = pallet.add_balance("Alice", 100);
    pallet.transfer("Alice", "Bob", 50).unwrap();
    let alice_balance = pallet.balance("Alice");
    let bob_balance = pallet.balance("Bob");
    assert_eq!(alice_balance, 50);
    assert_eq!(bob_balance, 50);
}

#[test]
fn test_transfer_insufficient_balance() {
    let mut pallet = Pallet::new();
    let _ = pallet.set_balance("Alice", 100);
    let result = pallet.transfer("Alice", "Bob", 150);
    assert_eq!(result.is_err(), true);
    assert_eq!(result.unwrap_err().message(), "Insufficient balance");
}

#[test]
fn test_transfer_zero_amount() {
    let mut pallet = Pallet::new();
    let _ = pallet.set_balance("Alice", 100);
    let result = pallet.transfer("Alice", "Bob", 0);
    assert_eq!(result.is_err(), true);
    assert_eq!(result.unwrap_err().message(), "Amount must be greater than 0");
}

#[test]
fn balance_test_set_balance() {
    let mut pallet = Pallet::new();
    let _ = pallet.set_balance("Alice", 100);
    let balance = pallet.balance("Alice");
    assert_eq!(balance, 100);
}
