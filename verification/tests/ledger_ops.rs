use collateral_vault::error::VaultError;
use collateral_vault::ledger::VaultLedger;
use collateral_vault::state::{initialize_vault_authority, AccountId, VaultAuthority};

fn registry_with(caller: AccountId) -> VaultAuthority {
    initialize_vault_authority(AccountId { id: 500 }, vec![caller], 0).unwrap()
}

fn ledger_with(owner: AccountId, deposit: u64) -> VaultLedger {
    let mut ledger = VaultLedger::new();
    ledger
        .initialize_vault(owner, AccountId { id: 1000 }, 0, 0)
        .unwrap();
    if deposit > 0 {
        ledger.deposit(owner, deposit, 1).unwrap();
    }
    ledger
}

#[test]
fn create_gives_zeroed_record_and_deposit_adds() {
    let owner = AccountId { id: 1 };
    let mut ledger = VaultLedger::new();
    ledger
        .initialize_vault(owner, AccountId { id: 2 }, 7, 3)
        .unwrap();

    let v = ledger.get_balance(owner).unwrap();
    assert_eq!(v.total_balance, 0);
    assert_eq!(v.locked_balance, 0);
    assert_eq!(v.available_balance, 0);
    assert_eq!(v.total_deposited, 0);
    assert_eq!(v.total_withdrawn, 0);
    assert_eq!(v.created_at, 7);
    assert_eq!(v.token_account, AccountId { id: 2 });

    let ev = ledger.deposit(owner, 100, 9).unwrap();
    assert_eq!(ev.new_total_balance, 100);
    assert_eq!(ev.amount, 100);
    assert_eq!(ev.timestamp, 9);

    let v = ledger.get_balance(owner).unwrap();
    assert_eq!(v.total_balance, 100);
    assert_eq!(v.locked_balance, 0);
    assert_eq!(v.available_balance, 100);
    assert_eq!(v.total_deposited, 100);
}

#[test]
fn duplicate_creation_is_rejected() {
    let owner = AccountId { id: 1 };
    let mut ledger = ledger_with(owner, 10);
    let r = ledger.initialize_vault(owner, AccountId { id: 8 }, 2, 0);
    assert_eq!(r, Err(VaultError::AlreadyExists));
    assert_eq!(ledger.get_balance(owner).unwrap().total_balance, 10);
}

#[test]
fn lock_then_unlock_restores_available() {
    let owner = AccountId { id: 1 };
    let caller = AccountId { id: 7 };
    let registry = registry_with(caller);
    let mut ledger = ledger_with(owner, 100);

    let ev = ledger
        .lock_collateral(caller, &registry, owner, 40, 2)
        .unwrap();
    assert_eq!(ev.new_locked_balance, 40);
    let v = ledger.get_balance(owner).unwrap();
    assert_eq!(
        (v.total_balance, v.locked_balance, v.available_balance),
        (100, 40, 60)
    );

    let ev = ledger
        .unlock_collateral(caller, &registry, owner, 40, 3)
        .unwrap();
    assert_eq!(ev.new_locked_balance, 0);
    let v = ledger.get_balance(owner).unwrap();
    assert_eq!(
        (v.total_balance, v.locked_balance, v.available_balance),
        (100, 0, 100)
    );
}

#[test]
fn full_withdrawal_with_no_locks_succeeds() {
    let owner = AccountId { id: 1 };
    let mut ledger = ledger_with(owner, 100);
    let ev = ledger.withdraw(owner, 100, 4).unwrap();
    assert_eq!(ev.new_total_balance, 0);
    let v = ledger.get_balance(owner).unwrap();
    assert_eq!(
        (v.total_balance, v.locked_balance, v.available_balance),
        (0, 0, 0)
    );
    assert_eq!(v.total_withdrawn, 100);
}

#[test]
fn full_withdrawal_with_open_positions_is_rejected() {
    let owner = AccountId { id: 1 };
    let caller = AccountId { id: 7 };
    let registry = registry_with(caller);
    let mut ledger = ledger_with(owner, 100);
    ledger
        .lock_collateral(caller, &registry, owner, 10, 2)
        .unwrap();

    let r = ledger.withdraw(owner, 100, 5);
    assert_eq!(r, Err(VaultError::OpenPositionsExist));
    let v = ledger.get_balance(owner).unwrap();
    assert_eq!(
        (v.total_balance, v.locked_balance, v.available_balance),
        (100, 10, 90)
    );
    assert_eq!(v.total_withdrawn, 0);
}

#[test]
fn transfer_moves_and_conserves_totals() {
    let a = AccountId { id: 1 };
    let b = AccountId { id: 2 };
    let caller = AccountId { id: 7 };
    let registry = registry_with(caller);
    let mut ledger = VaultLedger::new();
    ledger.initialize_vault(a, AccountId { id: 11 }, 0, 0).unwrap();
    ledger.initialize_vault(b, AccountId { id: 12 }, 0, 0).unwrap();
    ledger.deposit(a, 100, 1).unwrap();
    ledger.deposit(b, 50, 1).unwrap();
    let sum_before = ledger.get_balance(a).unwrap().total_balance
        + ledger.get_balance(b).unwrap().total_balance;
    assert_eq!(sum_before, 150);

    let ev = ledger
        .transfer_collateral(caller, &registry, a, b, 30, 2)
        .unwrap();
    assert_eq!(ev.amount, 30);
    assert_eq!(ev.from_vault, a);
    assert_eq!(ev.to_vault, b);

    let va = ledger.get_balance(a).unwrap();
    let vb = ledger.get_balance(b).unwrap();
    assert_eq!(va.total_balance, 70);
    assert_eq!(vb.total_balance, 80);
    assert_eq!(va.total_balance + vb.total_balance, 150);
}

#[test]
fn transfer_to_self_commits_without_net_change() {
    let a = AccountId { id: 1 };
    let caller = AccountId { id: 7 };
    let registry = registry_with(caller);
    let mut ledger = ledger_with(a, 100);
    ledger
        .transfer_collateral(caller, &registry, a, a, 30, 2)
        .unwrap();
    assert_eq!(ledger.get_balance(a).unwrap().total_balance, 100);
}

#[test]
fn unauthorized_privileged_calls_are_rejected_unchanged() {
    let owner = AccountId { id: 1 };
    let other = AccountId { id: 2 };
    let caller = AccountId { id: 7 };
    let intruder = AccountId { id: 8 };
    let registry = registry_with(caller);
    let mut ledger = ledger_with(owner, 100);
    ledger.initialize_vault(other, AccountId { id: 13 }, 0, 0).unwrap();

    let r = ledger.lock_collateral(intruder, &registry, owner, 10, 2);
    assert_eq!(r, Err(VaultError::Unauthorized));
    let r = ledger.unlock_collateral(intruder, &registry, owner, 10, 2);
    assert_eq!(r, Err(VaultError::Unauthorized));
    let r = ledger.transfer_collateral(intruder, &registry, owner, other, 10, 2);
    assert_eq!(r, Err(VaultError::Unauthorized));

    let v = ledger.get_balance(owner).unwrap();
    assert_eq!(
        (v.total_balance, v.locked_balance, v.available_balance),
        (100, 0, 100)
    );
}

#[test]
fn zero_amounts_are_invalid() {
    let owner = AccountId { id: 1 };
    let caller = AccountId { id: 7 };
    let registry = registry_with(caller);
    let mut ledger = ledger_with(owner, 100);

    assert_eq!(ledger.deposit(owner, 0, 1), Err(VaultError::InvalidAmount));
    assert_eq!(ledger.withdraw(owner, 0, 1), Err(VaultError::InvalidAmount));
    assert_eq!(
        ledger.lock_collateral(caller, &registry, owner, 0, 1),
        Err(VaultError::InvalidAmount)
    );
    assert_eq!(
        ledger.unlock_collateral(caller, &registry, owner, 0, 1),
        Err(VaultError::InvalidAmount)
    );
    assert_eq!(
        ledger.transfer_collateral(caller, &registry, owner, owner, 0, 1),
        Err(VaultError::InvalidAmount)
    );
}

#[test]
fn insufficient_balances_are_rejected() {
    let owner = AccountId { id: 1 };
    let other = AccountId { id: 2 };
    let caller = AccountId { id: 7 };
    let registry = registry_with(caller);
    let mut ledger = ledger_with(owner, 100);
    ledger.initialize_vault(other, AccountId { id: 13 }, 0, 0).unwrap();
    ledger
        .lock_collateral(caller, &registry, owner, 60, 1)
        .unwrap();

    // only 40 is available now
    assert_eq!(
        ledger.withdraw(owner, 50, 2),
        Err(VaultError::InsufficientAvailableBalance)
    );
    assert_eq!(
        ledger.lock_collateral(caller, &registry, owner, 50, 2),
        Err(VaultError::InsufficientAvailableBalance)
    );
    // only 60 is locked
    assert_eq!(
        ledger.unlock_collateral(caller, &registry, owner, 70, 2),
        Err(VaultError::InsufficientAvailableBalance)
    );
    // locked collateral is not transferable
    assert_eq!(
        ledger.transfer_collateral(caller, &registry, owner, other, 50, 2),
        Err(VaultError::InsufficientAvailableBalance)
    );
}

#[test]
fn operations_on_missing_records_report_not_found() {
    let ghost_owner = AccountId { id: 404 };
    let caller = AccountId { id: 7 };
    let registry = registry_with(caller);
    let mut ledger = VaultLedger::new();

    assert_eq!(ledger.get_balance(ghost_owner), Err(VaultError::NotFound));
    assert_eq!(ledger.deposit(ghost_owner, 5, 1), Err(VaultError::NotFound));
    assert_eq!(ledger.withdraw(ghost_owner, 5, 1), Err(VaultError::NotFound));
    assert_eq!(
        ledger.lock_collateral(caller, &registry, ghost_owner, 5, 1),
        Err(VaultError::NotFound)
    );
    assert_eq!(
        ledger.unlock_collateral(caller, &registry, ghost_owner, 5, 1),
        Err(VaultError::NotFound)
    );
    assert_eq!(
        ledger.transfer_collateral(caller, &registry, ghost_owner, ghost_owner, 5, 1),
        Err(VaultError::NotFound)
    );
}

#[test]
fn deposit_overflow_is_rejected_whole() {
    let owner = AccountId { id: 1 };
    let mut ledger = ledger_with(owner, u64::MAX);
    let r = ledger.deposit(owner, 1, 2);
    assert_eq!(r, Err(VaultError::MathOverflow));
    let v = ledger.get_balance(owner).unwrap();
    assert_eq!(v.total_balance, u64::MAX);
    assert_eq!(v.total_deposited, u64::MAX);
}

#[test]
fn transfer_overflow_is_rejected_whole() {
    let a = AccountId { id: 1 };
    let b = AccountId { id: 2 };
    let caller = AccountId { id: 7 };
    let registry = registry_with(caller);
    let mut ledger = VaultLedger::new();
    ledger.initialize_vault(a, AccountId { id: 11 }, 0, 0).unwrap();
    ledger.initialize_vault(b, AccountId { id: 12 }, 0, 0).unwrap();
    ledger.deposit(a, 10, 1).unwrap();
    ledger.deposit(b, u64::MAX, 1).unwrap();

    let r = ledger.transfer_collateral(caller, &registry, a, b, 5, 2);
    assert_eq!(r, Err(VaultError::MathOverflow));
    assert_eq!(ledger.get_balance(a).unwrap().total_balance, 10);
    assert_eq!(ledger.get_balance(b).unwrap().total_balance, u64::MAX);
}

#[test]
fn registry_rejects_more_than_sixteen_callers() {
    let mut callers = Vec::new();
    for i in 0..17u64 {
        callers.push(AccountId { id: i });
    }
    let r = initialize_vault_authority(AccountId { id: 500 }, callers, 0);
    assert!(matches!(r, Err(VaultError::InvalidAmount)));

    let mut callers = Vec::new();
    for i in 0..16u64 {
        callers.push(AccountId { id: i });
    }
    let registry = initialize_vault_authority(AccountId { id: 500 }, callers, 1).unwrap();
    assert_eq!(registry.admin, AccountId { id: 500 });
    assert!(registry.is_authorized(AccountId { id: 15 }));
    assert!(!registry.is_authorized(AccountId { id: 16 }));
}

#[test]
fn ledger_well_formedness_is_checkable() {
    let owner = AccountId { id: 1 };
    let ledger = ledger_with(owner, 42);
    assert!(ledger.is_well_formed());

    let mut broken = ledger_with(owner, 42);
    broken.vaults[0].available_balance = 7;
    assert!(!broken.is_well_formed());
}
