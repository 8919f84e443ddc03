use vstd::prelude::*;

use crate::state::AccountId;

verus! {

/// Response of a balance query: the owner, the record's derived address and
/// the three balance fields.
#[derive(Clone, Copy, Debug, PartialEq, Eq, Structural)]
pub struct VaultResponse {
    pub owner: AccountId,
    pub vault_pda: AccountId,
    pub total_balance: u64,
    pub locked_balance: u64,
    pub available_balance: u64,
}

/// Mirror record: a denormalized, possibly stale copy of a balance
/// record's numeric fields, keyed by `owner`.  Never authoritative.
#[derive(Clone, Copy, Debug, PartialEq, Eq, Structural)]
pub struct VaultRow {
    pub owner: AccountId,
    pub vault_pda: AccountId,
    pub total_balance: u64,
    pub locked_balance: u64,
    pub available_balance: u64,
    pub last_updated: i64,
}

/// Kind of ledger operation recorded in the transaction history.
#[derive(Clone, Copy, Debug, PartialEq, Eq, Structural)]
pub enum EventKind {
    Deposit,
    Withdraw,
    Lock,
    Unlock,
    Transfer,
}

/// One confirmed-transaction entry of the history kept beside the mirror.
#[derive(Clone, Copy, Debug, PartialEq, Eq, Structural)]
pub struct VaultTxRow {
    pub owner: AccountId,
    pub tx_signature: u64,
    pub event_type: EventKind,
    pub amount: u64,
    pub timestamp: i64,
}

/// Request shape of deposit, withdraw, lock and unlock calls.
#[derive(Clone, Copy, Debug, PartialEq, Eq, Structural)]
pub struct AmountRequest {
    pub owner: AccountId,
    pub amount: u64,
}

/// Request shape of a transfer call.
#[derive(Clone, Copy, Debug, PartialEq, Eq, Structural)]
pub struct TransferRequest {
    pub from: AccountId,
    pub to: AccountId,
    pub amount: u64,
}

/// A fully built transaction, encoded for a client to sign and submit.
#[derive(Clone, Debug)]
pub struct TxResponse {
    pub transaction_base64: String,
}

} // verus!
