use collateral_vault::mirror::MirrorStore;
use collateral_vault::models::{EventKind, VaultTxRow};
use collateral_vault::state::AccountId;

#[test]
fn upsert_inserts_then_overwrites() {
    let owner = AccountId { id: 1 };
    let pda = AccountId { id: 2 };
    let mut mirror = MirrorStore::new();

    assert!(mirror.read_vault(owner).is_none());

    mirror.upsert_vault(owner, pda, 100, 40, 60, 11);
    let row = mirror.read_vault(owner).unwrap();
    assert_eq!(row.total_balance, 100);
    assert_eq!(row.locked_balance, 40);
    assert_eq!(row.available_balance, 60);
    assert_eq!(row.last_updated, 11);

    mirror.upsert_vault(owner, pda, 90, 0, 90, 12);
    let row = mirror.read_vault(owner).unwrap();
    assert_eq!(row.total_balance, 90);
    assert_eq!(row.locked_balance, 0);
    assert_eq!(row.available_balance, 90);
    assert_eq!(row.last_updated, 12);
    assert_eq!(mirror.vaults.len(), 1);
    assert!(mirror.is_well_formed());
}

#[test]
fn transaction_history_filters_by_owner() {
    let a = AccountId { id: 1 };
    let b = AccountId { id: 2 };
    let mut mirror = MirrorStore::new();
    mirror.record_transaction(VaultTxRow {
        owner: a,
        tx_signature: 101,
        event_type: EventKind::Deposit,
        amount: 100,
        timestamp: 1,
    });
    mirror.record_transaction(VaultTxRow {
        owner: b,
        tx_signature: 102,
        event_type: EventKind::Withdraw,
        amount: 5,
        timestamp: 2,
    });
    mirror.record_transaction(VaultTxRow {
        owner: a,
        tx_signature: 103,
        event_type: EventKind::Lock,
        amount: 40,
        timestamp: 3,
    });

    let of_a = mirror.get_transactions(a);
    assert_eq!(of_a.len(), 2);
    assert_eq!(of_a[0].tx_signature, 101);
    assert_eq!(of_a[0].event_type, EventKind::Deposit);
    assert_eq!(of_a[1].tx_signature, 103);
    assert_eq!(of_a[1].event_type, EventKind::Lock);

    let of_b = mirror.get_transactions(b);
    assert_eq!(of_b.len(), 1);
    assert_eq!(of_b[0].amount, 5);

    assert!(mirror.get_transactions(AccountId { id: 404 }).is_empty());
}

#[test]
fn tvl_sums_all_mirrored_totals() {
    let mut mirror = MirrorStore::new();
    assert_eq!(mirror.get_tvl(), 0);

    mirror.upsert_vault(AccountId { id: 1 }, AccountId { id: 11 }, 100, 0, 100, 1);
    mirror.upsert_vault(AccountId { id: 2 }, AccountId { id: 12 }, 50, 0, 50, 1);
    mirror.upsert_vault(AccountId { id: 3 }, AccountId { id: 13 }, u64::MAX, 0, u64::MAX, 1);
    assert_eq!(mirror.get_tvl(), 150u128 + u64::MAX as u128);

    // overwriting does not double-count
    mirror.upsert_vault(AccountId { id: 2 }, AccountId { id: 12 }, 60, 0, 60, 2);
    assert_eq!(mirror.get_tvl(), 160u128 + u64::MAX as u128);
}

#[test]
fn balance_query_upserts_on_the_read_path() {
    let owner = AccountId { id: 1 };
    let pda = AccountId { id: 2 };
    let mut mirror = MirrorStore::new();

    let resp = mirror.get_vault(owner, pda, 100, 40, 60, 21);
    assert_eq!(resp.owner, owner);
    assert_eq!(resp.vault_pda, pda);
    assert_eq!(resp.total_balance, 100);
    assert_eq!(resp.locked_balance, 40);
    assert_eq!(resp.available_balance, 60);

    // the read path refreshed the mirror as a side effect
    let row = mirror.read_vault(owner).unwrap();
    assert_eq!(row.total_balance, 100);
    assert_eq!(row.last_updated, 21);

    let resp = mirror.get_balance(owner, pda, 90, 0, 90, 22);
    assert_eq!(resp.total_balance, 90);
    assert_eq!(mirror.read_vault(owner).unwrap().last_updated, 22);
}
