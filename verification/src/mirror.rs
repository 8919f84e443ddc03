use vstd::prelude::*;

use crate::models::{VaultResponse, VaultRow, VaultTxRow};
use crate::state::AccountId;

verus! {

/// No two mirror rows share an owner.
pub open spec fn unique_row_owners(s: Seq<VaultRow>) -> bool {
    forall|i: int, j: int|
        0 <= i < j < s.len() ==> (#[trigger] s[i]).owner != (#[trigger] s[j]).owner
}

/// Some mirror row belongs to `owner`.
pub open spec fn contains_row_owner(s: Seq<VaultRow>, owner: AccountId) -> bool {
    exists|i: int| 0 <= i < s.len() && (#[trigger] s[i]).owner == owner
}

/// The first mirror row belonging to `owner`, if any.  With unique owners
/// this is the only one.
pub open spec fn mirror_row_for(s: Seq<VaultRow>, owner: AccountId) -> Option<VaultRow>
    decreases s.len(),
{
    if s.len() == 0 {
        None
    } else if s[0].owner == owner {
        Some(s[0])
    } else {
        mirror_row_for(s.drop_first(), owner)
    }
}

/// The history entries belonging to `owner`, in insertion order.
pub open spec fn transactions_for(s: Seq<VaultTxRow>, owner: AccountId) -> Seq<VaultTxRow>
    decreases s.len(),
{
    if s.len() == 0 {
        Seq::empty()
    } else {
        let rest = transactions_for(s.drop_last(), owner);
        if s.last().owner == owner {
            rest.push(s.last())
        } else {
            rest
        }
    }
}

/// Sum of the `total_balance` fields of all mirror rows.
pub open spec fn sum_totals(s: Seq<VaultRow>) -> int
    decreases s.len(),
{
    if s.len() == 0 {
        0
    } else {
        sum_totals(s.drop_last()) + s.last().total_balance
    }
}

/// The mirror store: a fast-read, denormalized copy of balance records
/// (upsert-by-owner) plus an append-only transaction history.  It is
/// best-effort and may lag the ledger; it never feeds back into it.
#[derive(Debug)]
pub struct MirrorStore {
    pub vaults: Vec<VaultRow>,
    pub transactions: Vec<VaultTxRow>,
}

impl MirrorStore {
    /// Mirror rows are keyed by owner: owners are unique.
    pub open spec fn wf(self) -> bool {
        unique_row_owners(self.vaults@)
    }

    /// An empty mirror store.
    pub fn new() -> (r: MirrorStore)
        ensures
            r.vaults@.len() == 0,
            r.transactions@.len() == 0,
            r.wf(),
    {
        MirrorStore { vaults: Vec::new(), transactions: Vec::new() }
    }

    /// Exec check of `wf`, so unverified callers can test it before calling
    /// an operation that requires it.
    pub fn is_well_formed(&self) -> (r: bool)
        ensures
            r == self.wf(),
    {
        let mut i: usize = 0;
        while i < self.vaults.len()
            invariant
                i <= self.vaults@.len(),
                forall|p: int, q: int|
                    0 <= p < q < self.vaults@.len() && p < i ==> (#[trigger] self.vaults@[p]).owner
                        != (#[trigger] self.vaults@[q]).owner,
            decreases self.vaults@.len() - i,
        {
            let mut j: usize = i + 1;
            while j < self.vaults.len()
                invariant
                    i < j <= self.vaults@.len(),
                    i < self.vaults@.len(),
                    forall|q: int|
                        i < q < j ==> self.vaults@[i as int].owner != (
                        #[trigger] self.vaults@[q]).owner,
                decreases self.vaults@.len() - j,
            {
                if self.vaults[i].owner == self.vaults[j].owner {
                    return false;
                }
                j = j + 1;
            }
            i = i + 1;
        }
        true
    }

    /// Overwrite-or-insert the mirror row for `owner` with the given
    /// balances and timestamp.  No historical retention: an existing row is
    /// replaced in place.
    pub fn upsert_vault(
        &mut self,
        owner: AccountId,
        vault_pda: AccountId,
        total: u64,
        locked: u64,
        available: u64,
        last_updated: i64,
    )
        requires
            old(self).wf(),
        ensures
            final(self).wf(),
            final(self).transactions@ == old(self).transactions@,
            !contains_row_owner(old(self).vaults@, owner) ==> final(self).vaults@ == old(
                self,
            ).vaults@.push(
                VaultRow {
                    owner,
                    vault_pda,
                    total_balance: total,
                    locked_balance: locked,
                    available_balance: available,
                    last_updated,
                },
            ),
            forall|i: int|
                0 <= i < old(self).vaults@.len() && (#[trigger] old(self).vaults@[i]).owner
                    == owner ==> final(self).vaults@ == old(self).vaults@.update(
                    i,
                    VaultRow {
                        owner,
                        vault_pda,
                        total_balance: total,
                        locked_balance: locked,
                        available_balance: available,
                        last_updated,
                    },
                ),
    {
        let mut i: usize = 0;
        while i < self.vaults.len()
            invariant
                i <= self.vaults@.len(),
                self.vaults@ == old(self).vaults@,
                self.transactions@ == old(self).transactions@,
                unique_row_owners(self.vaults@),
                forall|j: int| 0 <= j < i ==> (#[trigger] self.vaults@[j]).owner != owner,
            decreases self.vaults@.len() - i,
        {
            if self.vaults[i].owner == owner {
                proof {
                    assert forall|k: int|
                        0 <= k < old(self).vaults@.len() && (#[trigger] old(self).vaults@[k]).owner
                            == owner implies k == i as int by {
                        if k < i as int {
                            assert(old(self).vaults@[k].owner != old(self).vaults@[i as int].owner);
                        } else if (i as int) < k {
                            assert(old(self).vaults@[i as int].owner != old(self).vaults@[k].owner);
                        }
                    }
                }
                self.vaults.set(
                    i,
                    VaultRow {
                        owner,
                        vault_pda,
                        total_balance: total,
                        locked_balance: locked,
                        available_balance: available,
                        last_updated,
                    },
                );
                proof {
                    assert forall|p: int, q: int|
                        0 <= p < q < self.vaults@.len() implies (#[trigger] self.vaults@[p]).owner
                            != (#[trigger] self.vaults@[q]).owner by {
                        assert(old(self).vaults@[p].owner != old(self).vaults@[q].owner);
                    }
                }
                return ;
            }
            i = i + 1;
        }
        self.vaults.push(
            VaultRow {
                owner,
                vault_pda,
                total_balance: total,
                locked_balance: locked,
                available_balance: available,
                last_updated,
            },
        );
    }

    /// The last known cached row for `owner`, or `None`.
    pub fn read_vault(&self, owner: AccountId) -> (r: Option<VaultRow>)
        ensures
            r == mirror_row_for(self.vaults@, owner),
    {
        let ghost s = self.vaults@;
        proof {
            assert(s.skip(0) =~= s);
        }
        let mut i: usize = 0;
        while i < self.vaults.len()
            invariant
                i <= s.len(),
                s == self.vaults@,
                mirror_row_for(s, owner) == mirror_row_for(s.skip(i as int), owner),
            decreases s.len() - i,
        {
            proof {
                assert(s.skip(i as int)[0] == s[i as int]);
                assert(s.skip(i as int).drop_first() =~= s.skip(i as int + 1));
            }
            if self.vaults[i].owner == owner {
                return Some(self.vaults[i]);
            }
            i = i + 1;
        }
        proof {
            assert(s.skip(i as int).len() == 0);
        }
        None
    }

    /// Append one confirmed transaction to the history.
    pub fn record_transaction(&mut self, tx: VaultTxRow)
        requires
            old(self).wf(),
        ensures
            final(self).wf(),
            final(self).vaults@ == old(self).vaults@,
            final(self).transactions@ == old(self).transactions@.push(tx),
    {
        self.transactions.push(tx);
    }

    /// All history entries of `owner`, in insertion order.
    pub fn get_transactions(&self, owner: AccountId) -> (r: Vec<VaultTxRow>)
        ensures
            r@ == transactions_for(self.transactions@, owner),
    {
        let ghost s = self.transactions@;
        let mut out: Vec<VaultTxRow> = Vec::new();
        let mut i: usize = 0;
        while i < self.transactions.len()
            invariant
                i <= s.len(),
                s == self.transactions@,
                out@ == transactions_for(s.take(i as int), owner),
            decreases s.len() - i,
        {
            proof {
                assert(s.take(i as int + 1).drop_last() =~= s.take(i as int));
                assert(s.take(i as int + 1).last() == s[i as int]);
            }
            if self.transactions[i].owner == owner {
                out.push(self.transactions[i]);
            }
            i = i + 1;
        }
        proof {
            assert(s.take(i as int) =~= s);
        }
        out
    }

    /// Total value locked: the sum of all mirrored total balances.  The
    /// 128-bit result cannot overflow: each row contributes at most a
    /// 64-bit value and there are fewer than 2^64 rows.
    pub fn get_tvl(&self) -> (r: u128)
        ensures
            r == sum_totals(self.vaults@),
    {
        let ghost s = self.vaults@;
        let mut acc: u128 = 0;
        let mut i: usize = 0;
        while i < self.vaults.len()
            invariant
                i <= s.len(),
                s == self.vaults@,
                acc == sum_totals(s.take(i as int)),
                acc <= i * (u64::MAX as int),
            decreases s.len() - i,
        {
            proof {
                assert(s.take(i as int + 1).drop_last() =~= s.take(i as int));
                assert(s.take(i as int + 1).last() == s[i as int]);
            }
            acc = acc + (self.vaults[i].total_balance as u128);
            i = i + 1;
        }
        proof {
            assert(s.take(i as int) =~= s);
        }
        acc
    }

    /// Serve a balance query from freshly fetched authoritative state:
    /// upsert the mirror row as a side effect of the read path, and return
    /// the response payload.
    pub fn get_vault(
        &mut self,
        owner: AccountId,
        vault_pda: AccountId,
        total: u64,
        locked: u64,
        available: u64,
        now: i64,
    ) -> (r: VaultResponse)
        requires
            old(self).wf(),
        ensures
            final(self).wf(),
            r == (VaultResponse {
                owner,
                vault_pda,
                total_balance: total,
                locked_balance: locked,
                available_balance: available,
            }),
            final(self).transactions@ == old(self).transactions@,
            !contains_row_owner(old(self).vaults@, owner) ==> final(self).vaults@ == old(
                self,
            ).vaults@.push(
                VaultRow {
                    owner,
                    vault_pda,
                    total_balance: total,
                    locked_balance: locked,
                    available_balance: available,
                    last_updated: now,
                },
            ),
            forall|i: int|
                0 <= i < old(self).vaults@.len() && (#[trigger] old(self).vaults@[i]).owner
                    == owner ==> final(self).vaults@ == old(self).vaults@.update(
                    i,
                    VaultRow {
                        owner,
                        vault_pda,
                        total_balance: total,
                        locked_balance: locked,
                        available_balance: available,
                        last_updated: now,
                    },
                ),
    {
        self.upsert_vault(owner, vault_pda, total, locked, available, now);
        VaultResponse { owner, vault_pda, total_balance: total, locked_balance: locked, available_balance: available }
    }

    /// Same read path as `get_vault`.
    pub fn get_balance(
        &mut self,
        owner: AccountId,
        vault_pda: AccountId,
        total: u64,
        locked: u64,
        available: u64,
        now: i64,
    ) -> (r: VaultResponse)
        requires
            old(self).wf(),
        ensures
            final(self).wf(),
            r == (VaultResponse {
                owner,
                vault_pda,
                total_balance: total,
                locked_balance: locked,
                available_balance: available,
            }),
            final(self).transactions@ == old(self).transactions@,
            !contains_row_owner(old(self).vaults@, owner) ==> final(self).vaults@ == old(
                self,
            ).vaults@.push(
                VaultRow {
                    owner,
                    vault_pda,
                    total_balance: total,
                    locked_balance: locked,
                    available_balance: available,
                    last_updated: now,
                },
            ),
            forall|i: int|
                0 <= i < old(self).vaults@.len() && (#[trigger] old(self).vaults@[i]).owner
                    == owner ==> final(self).vaults@ == old(self).vaults@.update(
                    i,
                    VaultRow {
                        owner,
                        vault_pda,
                        total_balance: total,
                        locked_balance: locked,
                        available_balance: available,
                        last_updated: now,
                    },
                ),
    {
        self.get_vault(owner, vault_pda, total, locked, available, now)
    }
}

} // verus!
