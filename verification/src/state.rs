use vstd::prelude::*;

use crate::error::VaultError;

verus! {

/// Stable identity key for owners, backing token accounts and callers.
#[derive(Clone, Copy, Debug, PartialEq, Eq, Structural, Hash)]
pub struct AccountId {
    pub id: u64,
}

/// Upper bound on the number of callers the authorization registry may hold.
pub const MAX_AUTHORIZED_CALLERS: usize = 16;

/// Per-owner balance record: the authoritative ledger state for one owner.
#[derive(Clone, Copy, Debug, PartialEq, Eq, Structural)]
pub struct CollateralVault {
    /// Owner of the vault; unique per record and immutable after creation.
    pub owner: AccountId,
    /// Backing token account tied to this record; immutable after creation.
    pub token_account: AccountId,
    /// Total collateral in the vault.
    pub total_balance: u64,
    /// Collateral locked for open positions.
    pub locked_balance: u64,
    /// Collateral available for withdrawal.
    pub available_balance: u64,
    /// Lifetime deposited amount (monotonic counter).
    pub total_deposited: u64,
    /// Lifetime withdrawn amount (monotonic counter).
    pub total_withdrawn: u64,
    /// Creation timestamp.
    pub created_at: i64,
    /// Derivation nonce used to re-derive the record's address from `owner`.
    pub bump: u8,
}

impl CollateralVault {
    /// Balance-shape invariant: the locked part never exceeds the total, and
    /// the available part is exactly the unlocked remainder.  Every committed
    /// ledger operation preserves this.
    pub open spec fn wf(self) -> bool {
        &&& self.locked_balance <= self.total_balance
        &&& self.available_balance == self.total_balance - self.locked_balance
    }

    /// Lifetime-counter invariant: the total balance never exceeds the net
    /// lifetime flow.  Deposit, withdraw, lock and unlock preserve this;
    /// a transfer does not touch the lifetime counters of the receiving
    /// record and therefore may break it there.
    pub open spec fn lifetime_consistent(self) -> bool {
        &&& self.total_withdrawn <= self.total_deposited
        &&& self.total_balance <= self.total_deposited - self.total_withdrawn
    }

    /// A fresh record for `owner`, with every numeric field zero.
    pub fn new(owner: AccountId, token_account: AccountId, created_at: i64, bump: u8) -> (v:
        CollateralVault)
        ensures
            v == (CollateralVault {
                owner,
                token_account,
                total_balance: 0,
                locked_balance: 0,
                available_balance: 0,
                total_deposited: 0,
                total_withdrawn: 0,
                created_at,
                bump,
            }),
            v.wf(),
            v.lifetime_consistent(),
    {
        CollateralVault {
            owner,
            token_account,
            total_balance: 0,
            locked_balance: 0,
            available_balance: 0,
            total_deposited: 0,
            total_withdrawn: 0,
            created_at,
            bump,
        }
    }

    /// Exec check of `wf`, so unverified callers can test it before calling
    /// an operation that requires it.
    pub fn is_well_formed(&self) -> (r: bool)
        ensures
            r == self.wf(),
    {
        self.locked_balance <= self.total_balance
            && self.available_balance == self.total_balance - self.locked_balance
    }
}

/// Authorization registry: the allow-list of caller identities permitted to
/// invoke the privileged operations (lock, unlock, transfer).  Created once
/// by an administrative action; mutated only by replacing the full set.
#[derive(Debug)]
pub struct VaultAuthority {
    /// The administrator that created the registry.
    pub admin: AccountId,
    /// Callers permitted to invoke privileged operations; at most
    /// `MAX_AUTHORIZED_CALLERS`.
    pub authorized_programs: Vec<AccountId>,
    /// Derivation nonce of the registry's address.
    pub bump: u8,
}

impl VaultAuthority {
    /// The registry never holds more callers than its bound.
    pub open spec fn wf(self) -> bool {
        self.authorized_programs@.len() <= MAX_AUTHORIZED_CALLERS
    }

    /// Membership of `caller` in the allow-list.
    pub open spec fn spec_is_authorized(self, caller: AccountId) -> bool {
        self.authorized_programs@.contains(caller)
    }

    /// Pure set-membership test used by lock, unlock and transfer.
    pub fn is_authorized(&self, caller: AccountId) -> (r: bool)
        ensures
            r == self.spec_is_authorized(caller),
    {
        let mut i: usize = 0;
        while i < self.authorized_programs.len()
            invariant
                i <= self.authorized_programs@.len(),
                forall|j: int| 0 <= j < i ==> self.authorized_programs@[j] != caller,
            decreases self.authorized_programs@.len() - i,
        {
            if self.authorized_programs[i] == caller {
                return true;
            }
            i = i + 1;
        }
        false
    }
}

/// One-time construction of the authorization registry.  Rejects a caller
/// set larger than `MAX_AUTHORIZED_CALLERS` with `InvalidAmount`; otherwise
/// stores the full set and records the creator.
pub fn initialize_vault_authority(
    admin: AccountId,
    authorized_programs: Vec<AccountId>,
    bump: u8,
) -> (r: Result<VaultAuthority, VaultError>)
    ensures
        authorized_programs@.len() > MAX_AUTHORIZED_CALLERS ==> r == Err::<
            VaultAuthority,
            VaultError,
        >(VaultError::InvalidAmount),
        authorized_programs@.len() <= MAX_AUTHORIZED_CALLERS ==> {
            &&& r is Ok
            &&& r->Ok_0.admin == admin
            &&& r->Ok_0.authorized_programs@ == authorized_programs@
            &&& r->Ok_0.bump == bump
            &&& r->Ok_0.wf()
        },
{
    if authorized_programs.len() > MAX_AUTHORIZED_CALLERS {
        return Err(VaultError::InvalidAmount);
    }
    Ok(VaultAuthority { admin, authorized_programs, bump })
}

} // verus!
