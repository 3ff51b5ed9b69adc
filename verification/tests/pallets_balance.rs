use ledger_chain::pallets::balance::Pallet;

#[test]
fn test_balance_new() {
    let pallet = Pallet::new();
    assert_eq!(pallet.balance.len(), 0);
}

#[test]
fn test_balance_get() {
    let mut pallet = Pallet::new();
    pallet.balance.insert("Alice".to_string(), 100);
    let balance = pallet.get_balance("Alice");
    assert_eq!(balance, 100);
}

#[test]
fn test_balance_add() {
    let mut pallet = Pallet::new();
    pallet.add_balance("Alice", 100);
    let balance = pallet.get_balance("Alice");
    assert_eq!(balance, 100);
}

#[test]
fn test_balance_sub() {
    let mut pallet = Pallet::new();
    pallet.add_balance("Alice", 100);
    pallet.sub_balance("Alice", 50);
    let balance = pallet.get_balance("Alice");
    assert_eq!(balance, 50);
}
