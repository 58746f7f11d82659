use ft_ledger::errors::FtError;
use ft_ledger::ledger::Ledger;
use ft_ledger::transfer::ReceiverOutcome;

const TOTAL_SUPPLY: u128 = 1_000_000_000_000_000;
const STORAGE_COST: u128 = 12_500_000_000_000_000_000_000;

fn owner() -> String {
    "owner".to_string()
}

fn receiver() -> String {
    "receiver".to_string()
}

fn bystander() -> String {
    "bystander".to_string()
}

#[test]
fn test_transfer_call_full_rejection_restores_state() {
    let mut contract = Ledger::new(owner(), TOTAL_SUPPLY, STORAGE_COST);
    contract.register(&receiver()).unwrap();
    let (intent, ev) = contract
        .transfer_call(&owner(), &receiver(), 1_000, None, "mint-nft".to_string())
        .unwrap();
    assert_eq!(ev.amount, 1_000);
    assert_eq!(intent.msg, "mint-nft".to_string());
    assert_eq!(contract.balance_of(&owner()), TOTAL_SUPPLY - 1_000);
    assert_eq!(contract.balance_of(&receiver()), 1_000);
    // the receiver's handler keeps nothing
    let res = contract.resolve_transfer(&intent, ReceiverOutcome::Unused(1_000));
    assert_eq!(res.used_amount, 0);
    assert!(res.burn.is_none());
    let refund = res.refund.unwrap();
    assert_eq!(refund.sender, receiver());
    assert_eq!(refund.receiver, owner());
    assert_eq!(refund.amount, 1_000);
    assert_eq!(contract.balance_of(&owner()), TOTAL_SUPPLY);
    assert_eq!(contract.balance_of(&receiver()), 0);
    assert_eq!(contract.total_supply(), TOTAL_SUPPLY);
}

#[test]
fn test_transfer_call_failure_refunds_everything() {
    let mut contract = Ledger::new(owner(), TOTAL_SUPPLY, STORAGE_COST);
    contract.register(&receiver()).unwrap();
    let (intent, _ev) = contract
        .transfer_call(&owner(), &receiver(), 777, None, "payload".to_string())
        .unwrap();
    let res = contract.resolve_transfer(&intent, ReceiverOutcome::Failed);
    assert_eq!(res.used_amount, 0);
    assert_eq!(contract.balance_of(&owner()), TOTAL_SUPPLY);
    assert_eq!(contract.balance_of(&receiver()), 0);
}

#[test]
fn test_transfer_call_partial_use() {
    let mut contract = Ledger::new(owner(), TOTAL_SUPPLY, STORAGE_COST);
    contract.register(&receiver()).unwrap();
    let (intent, _ev) = contract
        .transfer_call(&owner(), &receiver(), 1_000, None, "swap".to_string())
        .unwrap();
    let res = contract.resolve_transfer(&intent, ReceiverOutcome::Unused(300));
    assert_eq!(res.used_amount, 700);
    assert_eq!(contract.balance_of(&owner()), TOTAL_SUPPLY - 700);
    assert_eq!(contract.balance_of(&receiver()), 700);
    assert_eq!(contract.total_supply(), TOTAL_SUPPLY);
}

#[test]
fn test_transfer_call_keeps_everything() {
    let mut contract = Ledger::new(owner(), TOTAL_SUPPLY, STORAGE_COST);
    contract.register(&receiver()).unwrap();
    let (intent, _ev) = contract
        .transfer_call(&owner(), &receiver(), 1_000, None, "keep".to_string())
        .unwrap();
    let res = contract.resolve_transfer(&intent, ReceiverOutcome::Unused(0));
    assert_eq!(res.used_amount, 1_000);
    assert!(res.refund.is_none());
    assert!(res.burn.is_none());
    assert_eq!(contract.balance_of(&receiver()), 1_000);
}

#[test]
fn test_transfer_call_overreport_is_clamped() {
    let mut contract = Ledger::new(owner(), TOTAL_SUPPLY, STORAGE_COST);
    contract.register(&receiver()).unwrap();
    let (intent, _ev) = contract
        .transfer_call(&owner(), &receiver(), 1_000, None, "greedy".to_string())
        .unwrap();
    // the receiver reports more unused than was ever sent
    let res = contract.resolve_transfer(&intent, ReceiverOutcome::Unused(5_000));
    assert_eq!(res.used_amount, 0);
    assert_eq!(contract.balance_of(&owner()), TOTAL_SUPPLY);
    assert_eq!(contract.balance_of(&receiver()), 0);
}

#[test]
fn test_transfer_call_burns_when_sender_unregistered() {
    let mut contract = Ledger::new(owner(), TOTAL_SUPPLY, STORAGE_COST);
    contract.register(&receiver()).unwrap();
    let (intent, _ev) = contract
        .transfer_call(&owner(), &receiver(), 1_000, None, "farewell".to_string())
        .unwrap();
    // while the receiver runs, the owner force-unregisters itself,
    // burning its remaining balance
    let gone = contract.storage_unregister(&owner(), true).unwrap();
    assert_eq!(gone.burned, TOTAL_SUPPLY - 1_000);
    assert_eq!(contract.total_supply(), 1_000);
    // the receiver keeps nothing; the refund has nowhere to go and burns
    let res = contract.resolve_transfer(&intent, ReceiverOutcome::Unused(1_000));
    assert_eq!(res.used_amount, 1_000);
    assert!(res.refund.is_none());
    let burn = res.burn.unwrap();
    assert_eq!(burn.account, receiver());
    assert_eq!(burn.amount, 1_000);
    assert_eq!(contract.balance_of(&receiver()), 0);
    assert_eq!(contract.total_supply(), 0);
}

#[test]
fn test_transfer_call_refund_clamped_to_receiver_balance() {
    let mut contract = Ledger::new(owner(), TOTAL_SUPPLY, STORAGE_COST);
    contract.register(&receiver()).unwrap();
    contract.register(&bystander()).unwrap();
    let (intent, _ev) = contract
        .transfer_call(&owner(), &receiver(), 1_000, None, "spend".to_string())
        .unwrap();
    // during its execution the receiver passes most of the tokens on
    contract
        .transfer(&receiver(), &bystander(), 800, None)
        .unwrap();
    // it then declines the full amount, but only 200 are left to refund
    let res = contract.resolve_transfer(&intent, ReceiverOutcome::Unused(1_000));
    assert_eq!(res.used_amount, 800);
    assert_eq!(res.refund.unwrap().amount, 200);
    assert_eq!(contract.balance_of(&owner()), TOTAL_SUPPLY - 800);
    assert_eq!(contract.balance_of(&receiver()), 0);
    assert_eq!(contract.balance_of(&bystander()), 800);
    assert_eq!(contract.total_supply(), TOTAL_SUPPLY);
}

#[test]
fn test_transfer_call_drained_receiver_refunds_nothing() {
    let mut contract = Ledger::new(owner(), TOTAL_SUPPLY, STORAGE_COST);
    contract.register(&receiver()).unwrap();
    contract.register(&bystander()).unwrap();
    let (intent, _ev) = contract
        .transfer_call(&owner(), &receiver(), 1_000, None, "drain".to_string())
        .unwrap();
    contract
        .transfer(&receiver(), &bystander(), 1_000, None)
        .unwrap();
    let res = contract.resolve_transfer(&intent, ReceiverOutcome::Unused(1_000));
    assert_eq!(res.used_amount, 1_000);
    assert!(res.refund.is_none());
    assert!(res.burn.is_none());
    assert_eq!(contract.total_supply(), TOTAL_SUPPLY);
}

#[test]
fn test_transfer_call_precheck_errors() {
    let mut contract = Ledger::new(owner(), TOTAL_SUPPLY, STORAGE_COST);
    let err = contract
        .transfer_call(&owner(), &receiver(), 5, None, "m".to_string())
        .unwrap_err();
    assert_eq!(err, FtError::NotRegistered);
    let err = contract
        .transfer_call(&owner(), &owner(), 5, None, "m".to_string())
        .unwrap_err();
    assert_eq!(err, FtError::SelfTransfer);
    let err = contract
        .transfer_call(&owner(), &receiver(), 0, None, "m".to_string())
        .unwrap_err();
    assert_eq!(err, FtError::ZeroAmount);
}
