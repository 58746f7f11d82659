use ft_ledger::errors::FtError;
use ft_ledger::ledger::Ledger;
use ft_ledger::storage::storage_cost_of;

const TOTAL_SUPPLY: u128 = 1_000_000_000_000_000;
const STORAGE_COST: u128 = 12_500_000_000_000_000_000_000;

fn owner() -> String {
    "owner".to_string()
}

fn guest() -> String {
    "guest".to_string()
}

#[test]
fn test_storage_balance_bounds_min_equals_max() {
    let contract = Ledger::new(owner(), TOTAL_SUPPLY, STORAGE_COST);
    let (min, max) = contract.storage_balance_bounds();
    assert_eq!(min, STORAGE_COST);
    assert_eq!(max, STORAGE_COST);
}

#[test]
fn test_storage_cost_of_is_exact() {
    assert_eq!(storage_cost_of(125, 100_000_000_000_000_000_000), Some(STORAGE_COST));
    assert_eq!(storage_cost_of(0, 7), Some(0));
    assert_eq!(storage_cost_of(3, 0), Some(0));
}

#[test]
fn test_storage_cost_of_overflow_is_refused() {
    assert_eq!(storage_cost_of(2, u128::MAX), None);
    assert_eq!(storage_cost_of(u64::MAX, u128::MAX / 2), None);
}

#[test]
fn test_storage_deposit_registers_and_refunds_excess() {
    let mut contract = Ledger::new(owner(), TOTAL_SUPPLY, STORAGE_COST);
    let outcome = contract
        .storage_deposit(&guest(), STORAGE_COST + 17, false)
        .unwrap();
    assert!(outcome.newly_registered);
    assert_eq!(outcome.refund, 17);
    assert_eq!(outcome.balance.total, STORAGE_COST);
    assert_eq!(outcome.balance.available, 0);
    assert!(contract.is_registered(&guest()));
    assert_eq!(contract.balance_of(&guest()), 0);
}

#[test]
fn test_storage_deposit_insufficient_fails() {
    let mut contract = Ledger::new(owner(), TOTAL_SUPPLY, STORAGE_COST);
    let res = contract.storage_deposit(&guest(), STORAGE_COST - 1, false);
    assert_eq!(res.unwrap_err(), FtError::InsufficientDeposit);
    assert!(!contract.is_registered(&guest()));
}

#[test]
fn test_storage_deposit_already_registered_refunds_all() {
    let mut contract = Ledger::new(owner(), TOTAL_SUPPLY, STORAGE_COST);
    let outcome = contract
        .storage_deposit(&owner(), STORAGE_COST + 5, true)
        .unwrap();
    assert!(!outcome.newly_registered);
    assert_eq!(outcome.refund, STORAGE_COST + 5);
    assert_eq!(contract.balance_of(&owner()), TOTAL_SUPPLY);
}

#[test]
fn test_storage_deposit_registration_only_consumes_minimum() {
    let mut contract = Ledger::new(owner(), TOTAL_SUPPLY, STORAGE_COST);
    let outcome = contract
        .storage_deposit(&guest(), STORAGE_COST + 40, true)
        .unwrap();
    assert!(outcome.newly_registered);
    assert_eq!(outcome.refund, 40);
}

#[test]
fn test_storage_withdraw_nothing_to_withdraw() {
    let mut contract = Ledger::new(owner(), TOTAL_SUPPLY, STORAGE_COST);
    let balance = contract.storage_withdraw(&owner(), None).unwrap();
    assert_eq!(balance.total, STORAGE_COST);
    assert_eq!(balance.available, 0);
    let balance = contract.storage_withdraw(&owner(), Some(0)).unwrap();
    assert_eq!(balance.available, 0);
}

#[test]
fn test_storage_withdraw_nonzero_fails() {
    let mut contract = Ledger::new(owner(), TOTAL_SUPPLY, STORAGE_COST);
    let res = contract.storage_withdraw(&owner(), Some(1));
    assert_eq!(res.unwrap_err(), FtError::NoExcessBalance);
}

#[test]
fn test_storage_withdraw_unregistered_fails() {
    let mut contract = Ledger::new(owner(), TOTAL_SUPPLY, STORAGE_COST);
    let res = contract.storage_withdraw(&guest(), None);
    assert_eq!(res.unwrap_err(), FtError::NotRegistered);
}

#[test]
fn test_storage_unregister_refunds_deposit() {
    let mut contract = Ledger::new(owner(), TOTAL_SUPPLY, STORAGE_COST);
    contract.register(&guest()).unwrap();
    let outcome = contract.storage_unregister(&guest(), false).unwrap();
    assert_eq!(outcome.refund, STORAGE_COST);
    assert_eq!(outcome.burned, 0);
    assert!(outcome.burn.is_none());
    assert!(!contract.is_registered(&guest()));
}

#[test]
fn test_storage_unregister_nonzero_balance_fails() {
    let mut contract = Ledger::new(owner(), TOTAL_SUPPLY, STORAGE_COST);
    let res = contract.storage_unregister(&owner(), false);
    assert_eq!(res.unwrap_err(), FtError::NonZeroBalance);
    assert!(contract.is_registered(&owner()));
    assert_eq!(contract.total_supply(), TOTAL_SUPPLY);
}

#[test]
fn test_storage_unregister_force_burns_and_notifies() {
    let mut contract = Ledger::new(owner(), TOTAL_SUPPLY, STORAGE_COST);
    let outcome = contract.storage_unregister(&owner(), true).unwrap();
    assert_eq!(outcome.refund, STORAGE_COST);
    assert_eq!(outcome.burned, TOTAL_SUPPLY);
    let burn = outcome.burn.unwrap();
    assert_eq!(burn.account, owner());
    assert_eq!(burn.amount, TOTAL_SUPPLY);
    assert_eq!(contract.total_supply(), 0);
}

#[test]
fn test_storage_unregister_unknown_fails() {
    let mut contract = Ledger::new(owner(), TOTAL_SUPPLY, STORAGE_COST);
    let res = contract.storage_unregister(&guest(), true);
    assert_eq!(res.unwrap_err(), FtError::NotRegistered);
}
