use collateral_vault::mirror::MirrorStore;
use collateral_vault::reconciler::{AuthoritativeFetch, Reconciler};
use collateral_vault::state::{AccountId, CollateralVault};

fn record(owner: AccountId, total: u64, locked: u64) -> CollateralVault {
    CollateralVault {
        owner,
        token_account: AccountId { id: 1000 },
        total_balance: total,
        locked_balance: locked,
        available_balance: total - locked,
        total_deposited: total,
        total_withdrawn: 0,
        created_at: 0,
        bump: 0,
    }
}

#[test]
fn agreement_writes_a_snapshot() {
    let owner = AccountId { id: 1 };
    let mut mirror = MirrorStore::new();
    mirror.upsert_vault(owner, AccountId { id: 11 }, 100, 40, 60, 1);

    let fetches = vec![AuthoritativeFetch {
        owner,
        vault: Some(record(owner, 100, 40)),
    }];
    let mut reconciler = Reconciler::new();
    reconciler.reconcile_all_vaults(&mirror, &fetches, 60);

    assert_eq!(reconciler.logs.len(), 0);
    assert_eq!(reconciler.snapshots.len(), 1);
    let snap = &reconciler.snapshots[0];
    assert_eq!(snap.owner, owner);
    assert_eq!(snap.total_balance, 100);
    assert_eq!(snap.locked_balance, 40);
    assert_eq!(snap.available_balance, 60);
    assert_eq!(snap.snapshot_at, 60);
}

#[test]
fn drift_writes_a_log_and_leaves_the_mirror_stale() {
    let owner = AccountId { id: 1 };
    let mut mirror = MirrorStore::new();
    mirror.upsert_vault(owner, AccountId { id: 11 }, 90, 0, 90, 1);

    let fetches = vec![AuthoritativeFetch {
        owner,
        vault: Some(record(owner, 100, 40)),
    }];
    let mut reconciler = Reconciler::new();
    reconciler.reconcile_all_vaults(&mirror, &fetches, 60);

    assert_eq!(reconciler.snapshots.len(), 0);
    assert_eq!(reconciler.logs.len(), 1);
    let log = &reconciler.logs[0];
    assert_eq!(log.owner, owner);
    assert_eq!(log.discrepancy.authoritative_total, 100);
    assert_eq!(log.discrepancy.mirrored_total, 90);
    assert_eq!(log.discrepancy.authoritative_locked, 40);
    assert_eq!(log.discrepancy.mirrored_locked, 0);
    assert_eq!(log.logged_at, 60);

    // the pass never heals the mirror; the read path does that later
    assert_eq!(mirror.read_vault(owner).unwrap().total_balance, 90);
}

#[test]
fn failed_fetch_is_isolated_per_owner() {
    let a = AccountId { id: 1 };
    let b = AccountId { id: 2 };
    let mut mirror = MirrorStore::new();
    mirror.upsert_vault(a, AccountId { id: 11 }, 10, 0, 10, 1);
    mirror.upsert_vault(b, AccountId { id: 12 }, 20, 0, 20, 1);

    let fetches = vec![
        AuthoritativeFetch { owner: a, vault: None },
        AuthoritativeFetch {
            owner: b,
            vault: Some(record(b, 20, 0)),
        },
    ];
    let mut reconciler = Reconciler::new();
    reconciler.reconcile_all_vaults(&mirror, &fetches, 60);

    // the scan went on past the failed fetch of `a`
    assert_eq!(reconciler.logs.len(), 0);
    assert_eq!(reconciler.snapshots.len(), 1);
    assert_eq!(reconciler.snapshots[0].owner, b);
}

#[test]
fn owner_without_mirror_row_is_skipped() {
    let a = AccountId { id: 1 };
    let mirror = MirrorStore::new();
    let fetches = vec![AuthoritativeFetch {
        owner: a,
        vault: Some(record(a, 10, 0)),
    }];
    let mut reconciler = Reconciler::new();
    reconciler.reconcile_all_vaults(&mirror, &fetches, 60);
    assert_eq!(reconciler.logs.len(), 0);
    assert_eq!(reconciler.snapshots.len(), 0);
}

#[test]
fn reconciling_a_stable_state_twice_is_drift_free() {
    let a = AccountId { id: 1 };
    let b = AccountId { id: 2 };
    let mut mirror = MirrorStore::new();
    mirror.upsert_vault(a, AccountId { id: 11 }, 100, 40, 60, 1);
    mirror.upsert_vault(b, AccountId { id: 12 }, 50, 0, 50, 1);

    let fetches = vec![
        AuthoritativeFetch {
            owner: a,
            vault: Some(record(a, 100, 40)),
        },
        AuthoritativeFetch {
            owner: b,
            vault: Some(record(b, 50, 0)),
        },
    ];

    let mut reconciler = Reconciler::new();
    reconciler.reconcile_all_vaults(&mirror, &fetches, 60);
    reconciler.reconcile_all_vaults(&mirror, &fetches, 120);

    // two snapshots per owner, no drift entry at all
    assert_eq!(reconciler.logs.len(), 0);
    assert_eq!(reconciler.snapshots.len(), 4);
    assert_eq!(reconciler.snapshots[0].snapshot_at, 60);
    assert_eq!(reconciler.snapshots[2].snapshot_at, 120);
}
