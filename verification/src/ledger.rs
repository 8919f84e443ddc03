use vstd::prelude::*;

use crate::error::VaultError;
use crate::events::{DepositEvent, LockEvent, TransferEvent, UnlockEvent, WithdrawEvent};
use crate::state::{AccountId, CollateralVault, VaultAuthority};

verus! {

impl CollateralVault {
    /// A deposit of `amount` commits exactly when the amount is positive and
    /// no 64-bit counter would overflow.  (The available balance cannot
    /// overflow on its own: it never exceeds the total balance.)
    pub open spec fn deposit_ok(self, amount: u64) -> bool {
        &&& amount > 0
        &&& self.total_balance + amount <= u64::MAX
        &&& self.total_deposited + amount <= u64::MAX
    }

    /// The record after a committed deposit of `amount`.
    pub open spec fn deposit_result(self, amount: u64) -> CollateralVault {
        CollateralVault {
            total_balance: (self.total_balance + amount) as u64,
            available_balance: (self.available_balance + amount) as u64,
            total_deposited: (self.total_deposited + amount) as u64,
            ..self
        }
    }

    /// Deposit: add `amount` to the total, available and lifetime-deposited
    /// fields, or reject with no effect.
    pub fn apply_deposit(self, amount: u64) -> (r: Result<CollateralVault, VaultError>)
        requires
            self.wf(),
        ensures
            amount == 0 ==> r == Err::<CollateralVault, VaultError>(VaultError::InvalidAmount),
            amount > 0 && !self.deposit_ok(amount) ==> r == Err::<CollateralVault, VaultError>(
                VaultError::MathOverflow,
            ),
            self.deposit_ok(amount) ==> r == Ok::<CollateralVault, VaultError>(
                self.deposit_result(amount),
            ),
            r matches Ok(v) ==> v.wf() && v.owner == self.owner && v.token_account
                == self.token_account,
            r matches Ok(v) ==> (self.lifetime_consistent() ==> v.lifetime_consistent()),
    {
        if amount == 0 {
            return Err(VaultError::InvalidAmount);
        }
        if self.total_balance > u64::MAX - amount {
            return Err(VaultError::MathOverflow);
        }
        if self.total_deposited > u64::MAX - amount {
            return Err(VaultError::MathOverflow);
        }
        Ok(
            CollateralVault {
                total_balance: self.total_balance + amount,
                available_balance: self.available_balance + amount,
                total_deposited: self.total_deposited + amount,
                ..self
            },
        )
    }

    /// A withdrawal of `amount` commits exactly when the amount is positive,
    /// it is not a full withdrawal with collateral still locked, the
    /// available balance covers it, and the lifetime-withdrawn counter does
    /// not overflow.
    pub open spec fn withdraw_ok(self, amount: u64) -> bool {
        &&& amount > 0
        &&& !(amount == self.total_balance && self.locked_balance > 0)
        &&& self.available_balance >= amount
        &&& self.total_withdrawn + amount <= u64::MAX
    }

    /// The record after a committed withdrawal of `amount`.
    pub open spec fn withdraw_result(self, amount: u64) -> CollateralVault {
        CollateralVault {
            total_balance: (self.total_balance - amount) as u64,
            available_balance: (self.available_balance - amount) as u64,
            total_withdrawn: (self.total_withdrawn + amount) as u64,
            ..self
        }
    }

    /// Withdraw: remove `amount` from the total and available fields and add
    /// it to the lifetime-withdrawn counter, or reject with no effect.
    /// Locked funds are never withdrawable, and a full withdrawal while
    /// positions are open is rejected outright with `OpenPositionsExist`.
    pub fn apply_withdraw(self, amount: u64) -> (r: Result<CollateralVault, VaultError>)
        requires
            self.wf(),
        ensures
            amount == 0 ==> r == Err::<CollateralVault, VaultError>(VaultError::InvalidAmount),
            amount > 0 && amount == self.total_balance && self.locked_balance > 0 ==> r == Err::<
                CollateralVault,
                VaultError,
            >(VaultError::OpenPositionsExist),
            amount > 0 && !(amount == self.total_balance && self.locked_balance > 0)
                && self.available_balance < amount ==> r == Err::<CollateralVault, VaultError>(
                VaultError::InsufficientAvailableBalance,
            ),
            amount > 0 && !(amount == self.total_balance && self.locked_balance > 0)
                && self.available_balance >= amount && self.total_withdrawn + amount > u64::MAX
                ==> r == Err::<CollateralVault, VaultError>(VaultError::MathOverflow),
            self.withdraw_ok(amount) ==> r == Ok::<CollateralVault, VaultError>(
                self.withdraw_result(amount),
            ),
            r matches Ok(v) ==> v.wf() && v.owner == self.owner && v.token_account
                == self.token_account,
            r matches Ok(v) ==> (self.lifetime_consistent() ==> v.lifetime_consistent()),
            self.lifetime_consistent() ==> r != Err::<CollateralVault, VaultError>(
                VaultError::MathOverflow,
            ),
    {
        if amount == 0 {
            return Err(VaultError::InvalidAmount);
        }
        if amount == self.total_balance && self.locked_balance > 0 {
            return Err(VaultError::OpenPositionsExist);
        }
        if self.available_balance < amount {
            return Err(VaultError::InsufficientAvailableBalance);
        }
        if self.total_withdrawn > u64::MAX - amount {
            return Err(VaultError::MathOverflow);
        }
        Ok(
            CollateralVault {
                total_balance: self.total_balance - amount,
                available_balance: self.available_balance - amount,
                total_withdrawn: self.total_withdrawn + amount,
                ..self
            },
        )
    }

    /// A lock of `amount` commits exactly when the amount is positive and
    /// the available balance covers it.  (The locked balance cannot
    /// overflow: it never exceeds the total balance.)
    pub open spec fn lock_ok(self, amount: u64) -> bool {
        &&& amount > 0
        &&& self.available_balance >= amount
    }

    /// The record after a committed lock of `amount`.
    pub open spec fn lock_result(self, amount: u64) -> CollateralVault {
        CollateralVault {
            locked_balance: (self.locked_balance + amount) as u64,
            available_balance: (self.available_balance - amount) as u64,
            ..self
        }
    }

    /// Lock: move `amount` from the available part to the locked part, or
    /// reject with no effect.
    pub fn apply_lock(self, amount: u64) -> (r: Result<CollateralVault, VaultError>)
        requires
            self.wf(),
        ensures
            amount == 0 ==> r == Err::<CollateralVault, VaultError>(VaultError::InvalidAmount),
            amount > 0 && self.available_balance < amount ==> r == Err::<
                CollateralVault,
                VaultError,
            >(VaultError::InsufficientAvailableBalance),
            self.lock_ok(amount) ==> r == Ok::<CollateralVault, VaultError>(
                self.lock_result(amount),
            ),
            r matches Ok(v) ==> v.wf() && v.owner == self.owner && v.token_account
                == self.token_account,
            r matches Ok(v) ==> (self.lifetime_consistent() ==> v.lifetime_consistent()),
    {
        if amount == 0 {
            return Err(VaultError::InvalidAmount);
        }
        if self.available_balance < amount {
            return Err(VaultError::InsufficientAvailableBalance);
        }
        Ok(
            CollateralVault {
                locked_balance: self.locked_balance + amount,
                available_balance: self.available_balance - amount,
                ..self
            },
        )
    }

    /// An unlock of `amount` commits exactly when the amount is positive and
    /// the locked balance covers it.
    pub open spec fn unlock_ok(self, amount: u64) -> bool {
        &&& amount > 0
        &&& self.locked_balance >= amount
    }

    /// The record after a committed unlock of `amount`.
    pub open spec fn unlock_result(self, amount: u64) -> CollateralVault {
        CollateralVault {
            locked_balance: (self.locked_balance - amount) as u64,
            available_balance: (self.available_balance + amount) as u64,
            ..self
        }
    }

    /// Unlock: move `amount` from the locked part back to the available
    /// part, or reject with no effect.
    pub fn apply_unlock(self, amount: u64) -> (r: Result<CollateralVault, VaultError>)
        requires
            self.wf(),
        ensures
            amount == 0 ==> r == Err::<CollateralVault, VaultError>(VaultError::InvalidAmount),
            amount > 0 && self.locked_balance < amount ==> r == Err::<CollateralVault, VaultError>(
                VaultError::InsufficientAvailableBalance,
            ),
            self.unlock_ok(amount) ==> r == Ok::<CollateralVault, VaultError>(
                self.unlock_result(amount),
            ),
            r matches Ok(v) ==> v.wf() && v.owner == self.owner && v.token_account
                == self.token_account,
            r matches Ok(v) ==> (self.lifetime_consistent() ==> v.lifetime_consistent()),
    {
        if amount == 0 {
            return Err(VaultError::InvalidAmount);
        }
        if self.locked_balance < amount {
            return Err(VaultError::InsufficientAvailableBalance);
        }
        Ok(
            CollateralVault {
                locked_balance: self.locked_balance - amount,
                available_balance: self.available_balance + amount,
                ..self
            },
        )
    }
}

/// A transfer of `amount` between two distinct records commits exactly when
/// the amount is positive, the sender's available balance covers it (locked
/// collateral is never transferable), and the receiver's counters do not
/// overflow.
pub open spec fn transfer_ok(from: CollateralVault, to: CollateralVault, amount: u64) -> bool {
    &&& amount > 0
    &&& from.available_balance >= amount
    &&& to.total_balance + amount <= u64::MAX
}

/// The sending record after a committed transfer of `amount`.
pub open spec fn transfer_from_result(from: CollateralVault, amount: u64) -> CollateralVault {
    CollateralVault {
        total_balance: (from.total_balance - amount) as u64,
        available_balance: (from.available_balance - amount) as u64,
        ..from
    }
}

/// The receiving record after a committed transfer of `amount`.
pub open spec fn transfer_to_result(to: CollateralVault, amount: u64) -> CollateralVault {
    CollateralVault {
        total_balance: (to.total_balance + amount) as u64,
        available_balance: (to.available_balance + amount) as u64,
        ..to
    }
}

/// Transfer between two distinct records: decrement the sender's total and
/// available balances, increment the receiver's, all four checked, or reject
/// with neither record changed.  The sum of the two total balances is
/// conserved exactly.  The lifetime counters are not touched, so the
/// receiving record's lifetime-counter invariant is not preserved.
pub fn apply_transfer(from: CollateralVault, to: CollateralVault, amount: u64) -> (r: Result<
    (CollateralVault, CollateralVault),
    VaultError,
>)
    requires
        from.wf(),
        to.wf(),
    ensures
        amount == 0 ==> r == Err::<(CollateralVault, CollateralVault), VaultError>(
            VaultError::InvalidAmount,
        ),
        amount > 0 && from.available_balance < amount ==> r == Err::<
            (CollateralVault, CollateralVault),
            VaultError,
        >(VaultError::InsufficientAvailableBalance),
        amount > 0 && from.available_balance >= amount && to.total_balance + amount > u64::MAX
            ==> r == Err::<(CollateralVault, CollateralVault), VaultError>(VaultError::MathOverflow),
        transfer_ok(from, to, amount) ==> r == Ok::<(CollateralVault, CollateralVault), VaultError>(
            (transfer_from_result(from, amount), transfer_to_result(to, amount)),
        ),
        r matches Ok(pair) ==> pair.0.wf() && pair.1.wf(),
        r matches Ok(pair) ==> pair.0.total_balance + pair.1.total_balance == from.total_balance
            + to.total_balance,
        r matches Ok(pair) ==> (from.lifetime_consistent() ==> pair.0.lifetime_consistent()),
        r matches Ok(pair) ==> pair.0.owner == from.owner && pair.1.owner == to.owner
            && pair.0.token_account == from.token_account && pair.1.token_account
            == to.token_account,
{
    if amount == 0 {
        return Err(VaultError::InvalidAmount);
    }
    if from.available_balance < amount {
        return Err(VaultError::InsufficientAvailableBalance);
    }
    if to.total_balance > u64::MAX - amount {
        return Err(VaultError::MathOverflow);
    }
    let new_from = CollateralVault {
        total_balance: from.total_balance - amount,
        available_balance: from.available_balance - amount,
        ..from
    };
    let new_to = CollateralVault {
        total_balance: to.total_balance + amount,
        available_balance: to.available_balance + amount,
        ..to
    };
    Ok((new_from, new_to))
}

/// Every record in the sequence satisfies the balance-shape invariant.
pub open spec fn all_wf(s: Seq<CollateralVault>) -> bool {
    forall|i: int| 0 <= i < s.len() ==> (#[trigger] s[i]).wf()
}

/// Every record in the sequence satisfies the lifetime-counter invariant.
pub open spec fn all_lifetime_consistent(s: Seq<CollateralVault>) -> bool {
    forall|i: int| 0 <= i < s.len() ==> (#[trigger] s[i]).lifetime_consistent()
}

/// No two records share an owner.
pub open spec fn unique_owners(s: Seq<CollateralVault>) -> bool {
    forall|i: int, j: int|
        0 <= i < j < s.len() ==> (#[trigger] s[i]).owner != (#[trigger] s[j]).owner
}

/// Some record in the sequence belongs to `owner`.
pub open spec fn contains_owner(s: Seq<CollateralVault>, owner: AccountId) -> bool {
    exists|i: int| 0 <= i < s.len() && (#[trigger] s[i]).owner == owner
}

/// With unique owners, two indices holding the same owner coincide.
proof fn lemma_owner_index_unique(s: Seq<CollateralVault>, i: int, j: int)
    requires
        unique_owners(s),
        0 <= i < s.len(),
        0 <= j < s.len(),
        s[i].owner == s[j].owner,
    ensures
        i == j,
{
    if i < j {
        assert(s[i].owner != s[j].owner);
    } else if j < i {
        assert(s[j].owner != s[i].owner);
    }
}

/// The vault ledger: the authoritative collection of balance records, one
/// per owner.  Operations commit atomically or reject with no effect.
#[derive(Debug)]
pub struct VaultLedger {
    pub vaults: Vec<CollateralVault>,
}

impl VaultLedger {
    /// Every record is well formed and owners are unique.
    pub open spec fn wf(self) -> bool {
        &&& all_wf(self.vaults@)
        &&& unique_owners(self.vaults@)
    }

    /// An empty ledger.
    pub fn new() -> (r: VaultLedger)
        ensures
            r.vaults@.len() == 0,
            r.wf(),
    {
        VaultLedger { vaults: Vec::new() }
    }

    /// Index of the record belonging to `owner`, if any.
    fn find_owner(&self, owner: AccountId) -> (r: Option<usize>)
        ensures
            match r {
                Some(i) => i < self.vaults@.len() && self.vaults@[i as int].owner == owner,
                None => !contains_owner(self.vaults@, owner),
            },
    {
        let mut i: usize = 0;
        while i < self.vaults.len()
            invariant
                i <= self.vaults@.len(),
                forall|j: int| 0 <= j < i ==> (#[trigger] self.vaults@[j]).owner != owner,
            decreases self.vaults@.len() - i,
        {
            if self.vaults[i].owner == owner {
                return Some(i);
            }
            i = i + 1;
        }
        None
    }

    /// Exec check of `wf`, so unverified callers can test it before calling
    /// an operation that requires it.
    pub fn is_well_formed(&self) -> (r: bool)
        ensures
            r == self.wf(),
    {
        let mut i: usize = 0;
        while i < self.vaults.len()
            invariant
                i <= self.vaults@.len(),
                forall|k: int| 0 <= k < i ==> (#[trigger] self.vaults@[k]).wf(),
                forall|p: int, q: int|
                    0 <= p < q < self.vaults@.len() && p < i ==> (#[trigger] self.vaults@[p]).owner
                        != (#[trigger] self.vaults@[q]).owner,
            decreases self.vaults@.len() - i,
        {
            if !self.vaults[i].is_well_formed() {
                return false;
            }
            let mut j: usize = i + 1;
            while j < self.vaults.len()
                invariant
                    i < j <= self.vaults@.len(),
                    i < self.vaults@.len(),
                    forall|q: int|
                        i < q < j ==> self.vaults@[i as int].owner != (
                        #[trigger] self.vaults@[q]).owner,
                decreases self.vaults@.len() - j,
            {
                if self.vaults[i].owner == self.vaults[j].owner {
                    return false;
                }
                j = j + 1;
            }
            i = i + 1;
        }
        true
    }

    /// Create the balance record for `owner` with every numeric field zero.
    /// Re-creation is rejected with `AlreadyExists`.
    pub fn initialize_vault(
        &mut self,
        owner: AccountId,
        token_account: AccountId,
        created_at: i64,
        bump: u8,
    ) -> (r: Result<(), VaultError>)
        requires
            old(self).wf(),
        ensures
            final(self).wf(),
            contains_owner(old(self).vaults@, owner) ==> r == Err::<(), VaultError>(
                VaultError::AlreadyExists,
            ) && final(self).vaults@ == old(self).vaults@,
            !contains_owner(old(self).vaults@, owner) ==> r == Ok::<(), VaultError>(())
                && final(self).vaults@ == old(self).vaults@.push(
                CollateralVault {
                    owner,
                    token_account,
                    total_balance: 0,
                    locked_balance: 0,
                    available_balance: 0,
                    total_deposited: 0,
                    total_withdrawn: 0,
                    created_at,
                    bump,
                },
            ),
            all_lifetime_consistent(old(self).vaults@) ==> all_lifetime_consistent(
                final(self).vaults@,
            ),
    {
        if self.find_owner(owner).is_some() {
            return Err(VaultError::AlreadyExists);
        }
        let fresh = CollateralVault::new(owner, token_account, created_at, bump);
        self.vaults.push(fresh);
        Ok(())
    }

    /// Deposit `amount` into `owner`'s record: total, available and
    /// lifetime-deposited each grow by `amount`, checked, or the operation
    /// rejects with no effect.  Emits a `DepositEvent` carrying the
    /// resulting total balance.
    pub fn deposit(&mut self, owner: AccountId, amount: u64, now: i64) -> (r: Result<
        DepositEvent,
        VaultError,
    >)
        requires
            old(self).wf(),
        ensures
            final(self).wf(),
            r is Err ==> final(self).vaults@ == old(self).vaults@,
            !contains_owner(old(self).vaults@, owner) ==> r == Err::<DepositEvent, VaultError>(
                VaultError::NotFound,
            ),
            forall|i: int|
                0 <= i < old(self).vaults@.len() && (#[trigger] old(self).vaults@[i]).owner
                    == owner ==> {
                    let v = old(self).vaults@[i];
                    &&& (amount == 0 ==> r == Err::<DepositEvent, VaultError>(
                        VaultError::InvalidAmount,
                    ))
                    &&& (amount > 0 && !v.deposit_ok(amount) ==> r == Err::<
                        DepositEvent,
                        VaultError,
                    >(VaultError::MathOverflow))
                    &&& (v.deposit_ok(amount) ==> r == Ok::<DepositEvent, VaultError>(
                        DepositEvent {
                            owner,
                            amount,
                            new_total_balance: v.deposit_result(amount).total_balance,
                            timestamp: now,
                        },
                    ) && final(self).vaults@ == old(self).vaults@.update(
                        i,
                        v.deposit_result(amount),
                    ))
                },
            all_lifetime_consistent(old(self).vaults@) ==> all_lifetime_consistent(
                final(self).vaults@,
            ),
    {
        let i = match self.find_owner(owner) {
            None => {
                return Err(VaultError::NotFound);
            },
            Some(i) => i,
        };
        proof {
            assert forall|j: int|
                0 <= j < self.vaults@.len() && (#[trigger] self.vaults@[j]).owner
                    == owner implies j == i as int by {
                lemma_owner_index_unique(self.vaults@, j, i as int);
            }
        }
        let v = self.vaults[i];
        match v.apply_deposit(amount) {
            Err(e) => Err(e),
            Ok(v2) => {
                self.vaults.set(i, v2);
                Ok(DepositEvent { owner, amount, new_total_balance: v2.total_balance, timestamp: now })
            },
        }
    }

    /// Withdraw `amount` from `owner`'s record: total and available shrink
    /// by `amount` and lifetime-withdrawn grows by it, checked, or the
    /// operation rejects with no effect.  Locked funds are never
    /// withdrawable; a full withdrawal while positions are open rejects
    /// with `OpenPositionsExist`.  Emits a `WithdrawEvent`.
    pub fn withdraw(&mut self, owner: AccountId, amount: u64, now: i64) -> (r: Result<
        WithdrawEvent,
        VaultError,
    >)
        requires
            old(self).wf(),
        ensures
            final(self).wf(),
            r is Err ==> final(self).vaults@ == old(self).vaults@,
            !contains_owner(old(self).vaults@, owner) ==> r == Err::<WithdrawEvent, VaultError>(
                VaultError::NotFound,
            ),
            forall|i: int|
                0 <= i < old(self).vaults@.len() && (#[trigger] old(self).vaults@[i]).owner
                    == owner ==> {
                    let v = old(self).vaults@[i];
                    &&& (amount == 0 ==> r == Err::<WithdrawEvent, VaultError>(
                        VaultError::InvalidAmount,
                    ))
                    &&& (amount > 0 && amount == v.total_balance && v.locked_balance > 0 ==> r
                        == Err::<WithdrawEvent, VaultError>(VaultError::OpenPositionsExist))
                    &&& (amount > 0 && !(amount == v.total_balance && v.locked_balance > 0)
                        && v.available_balance < amount ==> r == Err::<WithdrawEvent, VaultError>(
                        VaultError::InsufficientAvailableBalance,
                    ))
                    &&& (amount > 0 && !(amount == v.total_balance && v.locked_balance > 0)
                        && v.available_balance >= amount && v.total_withdrawn + amount > u64::MAX
                        ==> r == Err::<WithdrawEvent, VaultError>(VaultError::MathOverflow))
                    &&& (v.withdraw_ok(amount) ==> r == Ok::<WithdrawEvent, VaultError>(
                        WithdrawEvent {
                            owner,
                            amount,
                            new_total_balance: v.withdraw_result(amount).total_balance,
                            timestamp: now,
                        },
                    ) && final(self).vaults@ == old(self).vaults@.update(
                        i,
                        v.withdraw_result(amount),
                    ))
                },
            all_lifetime_consistent(old(self).vaults@) ==> all_lifetime_consistent(
                final(self).vaults@,
            ),
    {
        let i = match self.find_owner(owner) {
            None => {
                return Err(VaultError::NotFound);
            },
            Some(i) => i,
        };
        proof {
            assert forall|j: int|
                0 <= j < self.vaults@.len() && (#[trigger] self.vaults@[j]).owner
                    == owner implies j == i as int by {
                lemma_owner_index_unique(self.vaults@, j, i as int);
            }
        }
        let v = self.vaults[i];
        match v.apply_withdraw(amount) {
            Err(e) => Err(e),
            Ok(v2) => {
                self.vaults.set(i, v2);
                Ok(
                    WithdrawEvent {
                        owner,
                        amount,
                        new_total_balance: v2.total_balance,
                        timestamp: now,
                    },
                )
            },
        }
    }

    /// Lock `amount` of `owner`'s collateral for a position.  Privileged:
    /// the caller must be in the authorization registry, and that check
    /// precedes every balance check, so an unauthorized caller learns
    /// nothing about balance state.  Emits a `LockEvent`.
    pub fn lock_collateral(
        &mut self,
        caller: AccountId,
        registry: &VaultAuthority,
        owner: AccountId,
        amount: u64,
        now: i64,
    ) -> (r: Result<LockEvent, VaultError>)
        requires
            old(self).wf(),
        ensures
            final(self).wf(),
            r is Err ==> final(self).vaults@ == old(self).vaults@,
            !registry.spec_is_authorized(caller) ==> r == Err::<LockEvent, VaultError>(
                VaultError::Unauthorized,
            ),
            registry.spec_is_authorized(caller) && !contains_owner(old(self).vaults@, owner) ==> r
                == Err::<LockEvent, VaultError>(VaultError::NotFound),
            registry.spec_is_authorized(caller) ==> forall|i: int|
                0 <= i < old(self).vaults@.len() && (#[trigger] old(self).vaults@[i]).owner
                    == owner ==> {
                    let v = old(self).vaults@[i];
                    &&& (amount == 0 ==> r == Err::<LockEvent, VaultError>(
                        VaultError::InvalidAmount,
                    ))
                    &&& (amount > 0 && v.available_balance < amount ==> r == Err::<
                        LockEvent,
                        VaultError,
                    >(VaultError::InsufficientAvailableBalance))
                    &&& (v.lock_ok(amount) ==> r == Ok::<LockEvent, VaultError>(
                        LockEvent {
                            owner,
                            caller,
                            amount,
                            new_locked_balance: v.lock_result(amount).locked_balance,
                            timestamp: now,
                        },
                    ) && final(self).vaults@ == old(self).vaults@.update(i, v.lock_result(amount)))
                },
            all_lifetime_consistent(old(self).vaults@) ==> all_lifetime_consistent(
                final(self).vaults@,
            ),
    {
        if !registry.is_authorized(caller) {
            return Err(VaultError::Unauthorized);
        }
        let i = match self.find_owner(owner) {
            None => {
                return Err(VaultError::NotFound);
            },
            Some(i) => i,
        };
        proof {
            assert forall|j: int|
                0 <= j < self.vaults@.len() && (#[trigger] self.vaults@[j]).owner
                    == owner implies j == i as int by {
                lemma_owner_index_unique(self.vaults@, j, i as int);
            }
        }
        let v = self.vaults[i];
        match v.apply_lock(amount) {
            Err(e) => Err(e),
            Ok(v2) => {
                self.vaults.set(i, v2);
                Ok(
                    LockEvent {
                        owner,
                        caller,
                        amount,
                        new_locked_balance: v2.locked_balance,
                        timestamp: now,
                    },
                )
            },
        }
    }

    /// Unlock `amount` of `owner`'s locked collateral.  Privileged, with
    /// the same authorization gate as `lock_collateral`.  Emits an
    /// `UnlockEvent`.
    pub fn unlock_collateral(
        &mut self,
        caller: AccountId,
        registry: &VaultAuthority,
        owner: AccountId,
        amount: u64,
        now: i64,
    ) -> (r: Result<UnlockEvent, VaultError>)
        requires
            old(self).wf(),
        ensures
            final(self).wf(),
            r is Err ==> final(self).vaults@ == old(self).vaults@,
            !registry.spec_is_authorized(caller) ==> r == Err::<UnlockEvent, VaultError>(
                VaultError::Unauthorized,
            ),
            registry.spec_is_authorized(caller) && !contains_owner(old(self).vaults@, owner) ==> r
                == Err::<UnlockEvent, VaultError>(VaultError::NotFound),
            registry.spec_is_authorized(caller) ==> forall|i: int|
                0 <= i < old(self).vaults@.len() && (#[trigger] old(self).vaults@[i]).owner
                    == owner ==> {
                    let v = old(self).vaults@[i];
                    &&& (amount == 0 ==> r == Err::<UnlockEvent, VaultError>(
                        VaultError::InvalidAmount,
                    ))
                    &&& (amount > 0 && v.locked_balance < amount ==> r == Err::<
                        UnlockEvent,
                        VaultError,
                    >(VaultError::InsufficientAvailableBalance))
                    &&& (v.unlock_ok(amount) ==> r == Ok::<UnlockEvent, VaultError>(
                        UnlockEvent {
                            owner,
                            caller,
                            amount,
                            new_locked_balance: v.unlock_result(amount).locked_balance,
                            timestamp: now,
                        },
                    ) && final(self).vaults@ == old(self).vaults@.update(
                        i,
                        v.unlock_result(amount),
                    ))
                },
            all_lifetime_consistent(old(self).vaults@) ==> all_lifetime_consistent(
                final(self).vaults@,
            ),
    {
        if !registry.is_authorized(caller) {
            return Err(VaultError::Unauthorized);
        }
        let i = match self.find_owner(owner) {
            None => {
                return Err(VaultError::NotFound);
            },
            Some(i) => i,
        };
        proof {
            assert forall|j: int|
                0 <= j < self.vaults@.len() && (#[trigger] self.vaults@[j]).owner
                    == owner implies j == i as int by {
                lemma_owner_index_unique(self.vaults@, j, i as int);
            }
        }
        let v = self.vaults[i];
        match v.apply_unlock(amount) {
            Err(e) => Err(e),
            Ok(v2) => {
                self.vaults.set(i, v2);
                Ok(
                    UnlockEvent {
                        owner,
                        caller,
                        amount,
                        new_locked_balance: v2.locked_balance,
                        timestamp: now,
                    },
                )
            },
        }
    }

    /// Transfer `amount` of available collateral from one record to
    /// another.  Privileged, with the same authorization gate as
    /// `lock_collateral`.  The sum of the two records' total balances is
    /// conserved exactly; a transfer between a record and itself commits
    /// without any net change.  The lifetime counters are not touched, so
    /// the receiving record's lifetime-counter invariant may not survive.
    /// Emits a `TransferEvent`.
    pub fn transfer_collateral(
        &mut self,
        caller: AccountId,
        registry: &VaultAuthority,
        from_owner: AccountId,
        to_owner: AccountId,
        amount: u64,
        now: i64,
    ) -> (r: Result<TransferEvent, VaultError>)
        requires
            old(self).wf(),
        ensures
            final(self).wf(),
            r is Err ==> final(self).vaults@ == old(self).vaults@,
            !registry.spec_is_authorized(caller) ==> r == Err::<TransferEvent, VaultError>(
                VaultError::Unauthorized,
            ),
            registry.spec_is_authorized(caller) && !contains_owner(old(self).vaults@, from_owner)
                ==> r == Err::<TransferEvent, VaultError>(VaultError::NotFound),
            registry.spec_is_authorized(caller) && contains_owner(old(self).vaults@, from_owner)
                && !contains_owner(old(self).vaults@, to_owner) ==> r == Err::<
                TransferEvent,
                VaultError,
            >(VaultError::NotFound),
            registry.spec_is_authorized(caller) && from_owner == to_owner ==> forall|i: int|
                0 <= i < old(self).vaults@.len() && (#[trigger] old(self).vaults@[i]).owner
                    == from_owner ==> {
                    let v = old(self).vaults@[i];
                    &&& (amount == 0 ==> r == Err::<TransferEvent, VaultError>(
                        VaultError::InvalidAmount,
                    ))
                    &&& (amount > 0 && v.available_balance < amount ==> r == Err::<
                        TransferEvent,
                        VaultError,
                    >(VaultError::InsufficientAvailableBalance))
                    &&& (amount > 0 && v.available_balance >= amount ==> r == Ok::<
                        TransferEvent,
                        VaultError,
                    >(
                        TransferEvent {
                            from_vault: from_owner,
                            to_vault: to_owner,
                            amount,
                            timestamp: now,
                        },
                    ) && final(self).vaults@ == old(self).vaults@)
                },
            registry.spec_is_authorized(caller) && from_owner != to_owner ==> forall|i: int, j: int|
                0 <= i < old(self).vaults@.len() && (#[trigger] old(self).vaults@[i]).owner
                    == from_owner && 0 <= j < old(self).vaults@.len() && (#[trigger] old(
                    self,
                ).vaults@[j]).owner == to_owner ==> {
                    let f = old(self).vaults@[i];
                    let t = old(self).vaults@[j];
                    &&& (amount == 0 ==> r == Err::<TransferEvent, VaultError>(
                        VaultError::InvalidAmount,
                    ))
                    &&& (amount > 0 && f.available_balance < amount ==> r == Err::<
                        TransferEvent,
                        VaultError,
                    >(VaultError::InsufficientAvailableBalance))
                    &&& (amount > 0 && f.available_balance >= amount && t.total_balance + amount
                        > u64::MAX ==> r == Err::<TransferEvent, VaultError>(
                        VaultError::MathOverflow,
                    ))
                    &&& (transfer_ok(f, t, amount) ==> r == Ok::<TransferEvent, VaultError>(
                        TransferEvent {
                            from_vault: from_owner,
                            to_vault: to_owner,
                            amount,
                            timestamp: now,
                        },
                    ) && final(self).vaults@ == old(self).vaults@.update(
                        i,
                        transfer_from_result(f, amount),
                    ).update(j, transfer_to_result(t, amount)) && final(self).vaults@[i].total_balance
                        + final(self).vaults@[j].total_balance == f.total_balance + t.total_balance)
                },
            all_lifetime_consistent(old(self).vaults@) ==> forall|k: int|
                0 <= k < final(self).vaults@.len() && (#[trigger] final(self).vaults@[k]).owner
                    != to_owner ==> final(self).vaults@[k].lifetime_consistent(),
    {
        if !registry.is_authorized(caller) {
            return Err(VaultError::Unauthorized);
        }
        let i = match self.find_owner(from_owner) {
            None => {
                return Err(VaultError::NotFound);
            },
            Some(i) => i,
        };
        let j = match self.find_owner(to_owner) {
            None => {
                return Err(VaultError::NotFound);
            },
            Some(j) => j,
        };
        proof {
            assert forall|k: int|
                0 <= k < self.vaults@.len() && (#[trigger] self.vaults@[k]).owner
                    == from_owner implies k == i as int by {
                lemma_owner_index_unique(self.vaults@, k, i as int);
            }
            assert forall|k: int|
                0 <= k < self.vaults@.len() && (#[trigger] self.vaults@[k]).owner
                    == to_owner implies k == j as int by {
                lemma_owner_index_unique(self.vaults@, k, j as int);
            }
        }
        if amount == 0 {
            return Err(VaultError::InvalidAmount);
        }
        let f = self.vaults[i];
        if from_owner == to_owner {
            if f.available_balance < amount {
                return Err(VaultError::InsufficientAvailableBalance);
            }
            return Ok(
                TransferEvent { from_vault: from_owner, to_vault: to_owner, amount, timestamp: now },
            );
        }
        let t = self.vaults[j];
        match apply_transfer(f, t, amount) {
            Err(e) => Err(e),
            Ok(pair) => {
                self.vaults.set(i, pair.0);
                self.vaults.set(j, pair.1);
                Ok(
                    TransferEvent {
                        from_vault: from_owner,
                        to_vault: to_owner,
                        amount,
                        timestamp: now,
                    },
                )
            },
        }
    }

    /// The current record of `owner`, or `NotFound`.
    pub fn get_balance(&self, owner: AccountId) -> (r: Result<CollateralVault, VaultError>)
        requires
            self.wf(),
        ensures
            !contains_owner(self.vaults@, owner) ==> r == Err::<CollateralVault, VaultError>(
                VaultError::NotFound,
            ),
            forall|i: int|
                0 <= i < self.vaults@.len() && (#[trigger] self.vaults@[i]).owner == owner ==> r
                    == Ok::<CollateralVault, VaultError>(self.vaults@[i]),
    {
        match self.find_owner(owner) {
            None => Err(VaultError::NotFound),
            Some(i) => {
                proof {
                    assert forall|j: int|
                        0 <= j < self.vaults@.len() && (#[trigger] self.vaults@[j]).owner
                            == owner implies j == i as int by {
                        lemma_owner_index_unique(self.vaults@, j, i as int);
                    }
                }
                Ok(self.vaults[i])
            },
        }
    }
}

} // verus!
