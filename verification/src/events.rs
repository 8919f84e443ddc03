use vstd::prelude::*;

use crate::state::AccountId;

verus! {

/// Emitted by a committed deposit, carrying the resulting total balance.
#[derive(Clone, Copy, Debug, PartialEq, Eq, Structural)]
pub struct DepositEvent {
    pub owner: AccountId,
    pub amount: u64,
    pub new_total_balance: u64,
    pub timestamp: i64,
}

/// Emitted by a committed withdrawal, carrying the resulting total balance.
#[derive(Clone, Copy, Debug, PartialEq, Eq, Structural)]
pub struct WithdrawEvent {
    pub owner: AccountId,
    pub amount: u64,
    pub new_total_balance: u64,
    pub timestamp: i64,
}

/// Emitted by a committed lock, carrying the resulting locked balance.
#[derive(Clone, Copy, Debug, PartialEq, Eq, Structural)]
pub struct LockEvent {
    pub owner: AccountId,
    pub caller: AccountId,
    pub amount: u64,
    pub new_locked_balance: u64,
    pub timestamp: i64,
}

/// Emitted by a committed unlock, carrying the resulting locked balance.
#[derive(Clone, Copy, Debug, PartialEq, Eq, Structural)]
pub struct UnlockEvent {
    pub owner: AccountId,
    pub caller: AccountId,
    pub amount: u64,
    pub new_locked_balance: u64,
    pub timestamp: i64,
}

/// Emitted by a committed transfer between two records.
#[derive(Clone, Copy, Debug, PartialEq, Eq, Structural)]
pub struct TransferEvent {
    pub from_vault: AccountId,
    pub to_vault: AccountId,
    pub amount: u64,
    pub timestamp: i64,
}

} // verus!
