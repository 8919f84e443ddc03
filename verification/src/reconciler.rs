use vstd::prelude::*;

use crate::mirror::{mirror_row_for, MirrorStore};
use crate::models::VaultRow;
use crate::state::{AccountId, CollateralVault};

verus! {

/// Result of one authoritative fetch attempted for `owner`: `None` when
/// the fetch failed after exhausting its retries.  A failed fetch is
/// isolated to its owner and never aborts a reconciliation pass.
#[derive(Clone, Copy, Debug)]
pub struct AuthoritativeFetch {
    pub owner: AccountId,
    pub vault: Option<CollateralVault>,
}

/// The authoritative and mirrored balance fields that disagreed.
#[derive(Clone, Copy, Debug, PartialEq, Eq, Structural)]
pub struct Discrepancy {
    pub authoritative_total: u64,
    pub mirrored_total: u64,
    pub authoritative_locked: u64,
    pub mirrored_locked: u64,
    pub authoritative_available: u64,
    pub mirrored_available: u64,
}

/// Append-only drift entry, written when mirror and ledger disagree.
#[derive(Clone, Copy, Debug, PartialEq, Eq, Structural)]
pub struct ReconciliationLog {
    pub owner: AccountId,
    pub discrepancy: Discrepancy,
    pub logged_at: i64,
}

/// Append-only audit entry, written when mirror and ledger agree: a
/// timestamped confirmation of a consistent state.
#[derive(Clone, Copy, Debug, PartialEq, Eq, Structural)]
pub struct BalanceSnapshot {
    pub owner: AccountId,
    pub total_balance: u64,
    pub locked_balance: u64,
    pub available_balance: u64,
    pub snapshot_at: i64,
}

/// The mirror row agrees with the authoritative record on all three
/// balance fields.
pub open spec fn balances_match(v: CollateralVault, row: VaultRow) -> bool {
    &&& v.total_balance == row.total_balance
    &&& v.locked_balance == row.locked_balance
    &&& v.available_balance == row.available_balance
}

/// The drift entry written for a disagreement.
pub open spec fn drift_entry(owner: AccountId, v: CollateralVault, row: VaultRow, now: i64) -> ReconciliationLog {
    ReconciliationLog {
        owner,
        discrepancy: Discrepancy {
            authoritative_total: v.total_balance,
            mirrored_total: row.total_balance,
            authoritative_locked: v.locked_balance,
            mirrored_locked: row.locked_balance,
            authoritative_available: v.available_balance,
            mirrored_available: row.available_balance,
        },
        logged_at: now,
    }
}

/// The audit entry written for an agreement.
pub open spec fn snapshot_entry(owner: AccountId, v: CollateralVault, now: i64) -> BalanceSnapshot {
    BalanceSnapshot {
        owner,
        total_balance: v.total_balance,
        locked_balance: v.locked_balance,
        available_balance: v.available_balance,
        snapshot_at: now,
    }
}

/// Drift entries contributed by one fetch: none when the fetch failed or
/// the owner has no mirror row, one when the mirror row disagrees.
pub open spec fn fetch_logs(rows: Seq<VaultRow>, f: AuthoritativeFetch, now: i64) -> Seq<
    ReconciliationLog,
> {
    match f.vault {
        None => Seq::empty(),
        Some(v) => match mirror_row_for(rows, f.owner) {
            None => Seq::empty(),
            Some(row) => if balances_match(v, row) {
                Seq::empty()
            } else {
                seq![drift_entry(f.owner, v, row, now)]
            },
        },
    }
}

/// Snapshot entries contributed by one fetch: one exactly when the fetch
/// succeeded and the mirror row agrees.
pub open spec fn fetch_snapshots(rows: Seq<VaultRow>, f: AuthoritativeFetch, now: i64) -> Seq<
    BalanceSnapshot,
> {
    match f.vault {
        None => Seq::empty(),
        Some(v) => match mirror_row_for(rows, f.owner) {
            None => Seq::empty(),
            Some(row) => if balances_match(v, row) {
                seq![snapshot_entry(f.owner, v, now)]
            } else {
                Seq::empty()
            },
        },
    }
}

/// Drift entries of a whole pass, in scan order.
pub open spec fn pass_logs(rows: Seq<VaultRow>, fetches: Seq<AuthoritativeFetch>, now: i64) -> Seq<
    ReconciliationLog,
>
    decreases fetches.len(),
{
    if fetches.len() == 0 {
        Seq::empty()
    } else {
        pass_logs(rows, fetches.drop_last(), now) + fetch_logs(rows, fetches.last(), now)
    }
}

/// Snapshot entries of a whole pass, in scan order.
pub open spec fn pass_snapshots(rows: Seq<VaultRow>, fetches: Seq<AuthoritativeFetch>, now: i64) -> Seq<
    BalanceSnapshot,
>
    decreases fetches.len(),
{
    if fetches.len() == 0 {
        Seq::empty()
    } else {
        pass_snapshots(rows, fetches.drop_last(), now) + fetch_snapshots(rows, fetches.last(), now)
    }
}

/// Whether one fetch reaches the comparison step: it succeeded and its
/// owner has a mirror row.
pub open spec fn fetch_reconciled(rows: Seq<VaultRow>, f: AuthoritativeFetch) -> bool {
    f.vault is Some && mirror_row_for(rows, f.owner) is Some
}

/// How many fetches of a pass reach the comparison step.
pub open spec fn reconciled_count(rows: Seq<VaultRow>, fetches: Seq<AuthoritativeFetch>) -> nat
    decreases fetches.len(),
{
    if fetches.len() == 0 {
        0
    } else {
        reconciled_count(rows, fetches.drop_last()) + if fetch_reconciled(rows, fetches.last()) {
            1nat
        } else {
            0nat
        }
    }
}

/// The reconciler's own append-only output streams.  It reads the mirror
/// and previously fetched authoritative state; it never mutates either.
#[derive(Debug)]
pub struct Reconciler {
    pub logs: Vec<ReconciliationLog>,
    pub snapshots: Vec<BalanceSnapshot>,
}

impl Reconciler {
    /// A reconciler with empty output streams.
    pub fn new() -> (r: Reconciler)
        ensures
            r.logs@.len() == 0,
            r.snapshots@.len() == 0,
    {
        Reconciler { logs: Vec::new(), snapshots: Vec::new() }
    }

    /// Reconcile one owner: compare the fetched authoritative record with
    /// the mirror row and append a drift entry or a snapshot.  A failed
    /// fetch or a missing mirror row contributes nothing, and the mirror
    /// itself is never updated in this pass.
    fn reconcile_fetch(&mut self, mirror: &MirrorStore, fetch: &AuthoritativeFetch, now: i64)
        ensures
            final(self).logs@ == old(self).logs@ + fetch_logs(mirror.vaults@, *fetch, now),
            final(self).snapshots@ == old(self).snapshots@ + fetch_snapshots(
                mirror.vaults@,
                *fetch,
                now,
            ),
    {
        match fetch.vault {
            None => {
                proof {
                    assert(old(self).logs@ + fetch_logs(mirror.vaults@, *fetch, now) =~= old(
                        self,
                    ).logs@);
                    assert(old(self).snapshots@ + fetch_snapshots(mirror.vaults@, *fetch, now)
                        =~= old(self).snapshots@);
                }
            },
            Some(v) => {
                match mirror.read_vault(fetch.owner) {
                    None => {
                        proof {
                            assert(old(self).logs@ + fetch_logs(mirror.vaults@, *fetch, now)
                                =~= old(self).logs@);
                            assert(old(self).snapshots@ + fetch_snapshots(
                                mirror.vaults@,
                                *fetch,
                                now,
                            ) =~= old(self).snapshots@);
                        }
                    },
                    Some(row) => {
                        if v.total_balance != row.total_balance || v.locked_balance
                            != row.locked_balance || v.available_balance
                            != row.available_balance {
                            self.logs.push(
                                ReconciliationLog {
                                    owner: fetch.owner,
                                    discrepancy: Discrepancy {
                                        authoritative_total: v.total_balance,
                                        mirrored_total: row.total_balance,
                                        authoritative_locked: v.locked_balance,
                                        mirrored_locked: row.locked_balance,
                                        authoritative_available: v.available_balance,
                                        mirrored_available: row.available_balance,
                                    },
                                    logged_at: now,
                                },
                            );
                            proof {
                                assert(final(self).logs@ =~= old(self).logs@ + fetch_logs(
                                    mirror.vaults@,
                                    *fetch,
                                    now,
                                ));
                                assert(final(self).snapshots@ =~= old(self).snapshots@
                                    + fetch_snapshots(mirror.vaults@, *fetch, now));
                            }
                        } else {
                            self.snapshots.push(
                                BalanceSnapshot {
                                    owner: fetch.owner,
                                    total_balance: v.total_balance,
                                    locked_balance: v.locked_balance,
                                    available_balance: v.available_balance,
                                    snapshot_at: now,
                                },
                            );
                            proof {
                                assert(final(self).logs@ =~= old(self).logs@ + fetch_logs(
                                    mirror.vaults@,
                                    *fetch,
                                    now,
                                ));
                                assert(final(self).snapshots@ =~= old(self).snapshots@
                                    + fetch_snapshots(mirror.vaults@, *fetch, now));
                            }
                        }
                    },
                }
            },
        }
    }

    /// One full reconciliation pass over previously fetched authoritative
    /// state: for each fetch, in order, compare against the mirror and
    /// append a drift entry or a snapshot.  A failed fetch for one owner
    /// never aborts the scan of the remaining owners.
    pub fn reconcile_all_vaults(
        &mut self,
        mirror: &MirrorStore,
        fetches: &Vec<AuthoritativeFetch>,
        now: i64,
    )
        ensures
            final(self).logs@ == old(self).logs@ + pass_logs(mirror.vaults@, fetches@, now),
            final(self).snapshots@ == old(self).snapshots@ + pass_snapshots(
                mirror.vaults@,
                fetches@,
                now,
            ),
    {
        proof {
            assert(fetches@.take(0).len() == 0);
            assert(old(self).logs@ + pass_logs(mirror.vaults@, fetches@.take(0), now) =~= old(
                self,
            ).logs@);
            assert(old(self).snapshots@ + pass_snapshots(mirror.vaults@, fetches@.take(0), now)
                =~= old(self).snapshots@);
        }
        let mut i: usize = 0;
        while i < fetches.len()
            invariant
                i <= fetches@.len(),
                self.logs@ == old(self).logs@ + pass_logs(
                    mirror.vaults@,
                    fetches@.take(i as int),
                    now,
                ),
                self.snapshots@ == old(self).snapshots@ + pass_snapshots(
                    mirror.vaults@,
                    fetches@.take(i as int),
                    now,
                ),
            decreases fetches@.len() - i,
        {
            self.reconcile_fetch(mirror, &fetches[i], now);
            proof {
                assert(fetches@.take(i as int + 1).drop_last() =~= fetches@.take(i as int));
                assert(fetches@.take(i as int + 1).last() == fetches@[i as int]);
                assert(self.logs@ =~= old(self).logs@ + pass_logs(
                    mirror.vaults@,
                    fetches@.take(i as int + 1),
                    now,
                ));
                assert(self.snapshots@ =~= old(self).snapshots@ + pass_snapshots(
                    mirror.vaults@,
                    fetches@.take(i as int + 1),
                    now,
                ));
            }
            i = i + 1;
        }
        proof {
            assert(fetches@.take(i as int) =~= fetches@);
        }
    }
}

/// Every successful fetch agrees with its mirror row.
pub open spec fn mirror_agrees(rows: Seq<VaultRow>, fetches: Seq<AuthoritativeFetch>) -> bool {
    forall|i: int| 0 <= i < fetches.len() ==> fetch_agrees(rows, #[trigger] fetches[i])
}

/// One fetch agrees with its mirror row: if it succeeded and a row
/// exists, the three balance fields match.
pub open spec fn fetch_agrees(rows: Seq<VaultRow>, f: AuthoritativeFetch) -> bool {
    f.vault matches Some(v) ==> (mirror_row_for(rows, f.owner) matches Some(row)
        ==> balances_match(v, row))
}

/// A reconciliation pass over a stable, agreeing state writes no drift
/// entry and exactly one snapshot per fetch that reaches the comparison
/// step.
pub proof fn lemma_stable_pass_no_drift(
    rows: Seq<VaultRow>,
    fetches: Seq<AuthoritativeFetch>,
    now: i64,
)
    requires
        mirror_agrees(rows, fetches),
    ensures
        pass_logs(rows, fetches, now).len() == 0,
        pass_snapshots(rows, fetches, now).len() == reconciled_count(rows, fetches),
    decreases fetches.len(),
{
    if fetches.len() > 0 {
        assert(mirror_agrees(rows, fetches.drop_last())) by {
            assert forall|i: int|
                0 <= i < fetches.drop_last().len() implies fetch_agrees(
                rows,
                #[trigger] fetches.drop_last()[i],
            ) by {
                assert(fetches.drop_last()[i] == fetches[i]);
            }
        }
        lemma_stable_pass_no_drift(rows, fetches.drop_last(), now);
        assert(fetch_agrees(rows, fetches[fetches.len() - 1]));
        assert(fetches.last() == fetches[fetches.len() - 1]);
    }
}

/// Idempotent reconciliation: with no intervening mutation of the mirror
/// or the authoritative records, and a mirror that already agrees, two
/// consecutive passes write zero drift entries in total and one snapshot
/// per reconciled owner in each pass.
pub proof fn reconciliation_is_idempotent(
    rows: Seq<VaultRow>,
    fetches: Seq<AuthoritativeFetch>,
    first_pass_at: i64,
    second_pass_at: i64,
)
    requires
        mirror_agrees(rows, fetches),
    ensures
        pass_logs(rows, fetches, first_pass_at).len() + pass_logs(
            rows,
            fetches,
            second_pass_at,
        ).len() == 0,
        pass_snapshots(rows, fetches, first_pass_at).len() == reconciled_count(rows, fetches),
        pass_snapshots(rows, fetches, second_pass_at).len() == reconciled_count(rows, fetches),
{
    lemma_stable_pass_no_drift(rows, fetches, first_pass_at);
    lemma_stable_pass_no_drift(rows, fetches, second_pass_at);
}

} // verus!
