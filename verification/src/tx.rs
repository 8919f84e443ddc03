use vstd::prelude::*;

use crate::state::AccountId;

verus! {

/// Intent returned by a non-privileged endpoint: a closed, tagged shape
/// per operation kind, which the client turns into a signed instruction.
#[derive(Clone, Copy, Debug, PartialEq, Eq, Structural)]
pub enum IntentResponse {
    Deposit { amount: u64 },
    Withdraw { amount: u64 },
    Lock { amount: u64 },
    Unlock { amount: u64 },
    Transfer { from: AccountId, to: AccountId, amount: u64 },
}

/// Intent to deposit `amount` into the caller's own vault.
pub fn deposit_intent(amount: u64) -> (r: IntentResponse)
    ensures
        r == (IntentResponse::Deposit { amount }),
{
    IntentResponse::Deposit { amount }
}

/// Intent to withdraw `amount` from the caller's own vault.
pub fn withdraw_intent(amount: u64) -> (r: IntentResponse)
    ensures
        r == (IntentResponse::Withdraw { amount }),
{
    IntentResponse::Withdraw { amount }
}

/// Intent to lock `amount` of collateral.
pub fn lock_intent(amount: u64) -> (r: IntentResponse)
    ensures
        r == (IntentResponse::Lock { amount }),
{
    IntentResponse::Lock { amount }
}

/// Intent to unlock `amount` of collateral.
pub fn unlock_intent(amount: u64) -> (r: IntentResponse)
    ensures
        r == (IntentResponse::Unlock { amount }),
{
    IntentResponse::Unlock { amount }
}

/// Intent to transfer `amount` of collateral between two vaults.
pub fn transfer_intent(from: AccountId, to: AccountId, amount: u64) -> (r: IntentResponse)
    ensures
        r == (IntentResponse::Transfer { from, to, amount }),
{
    IntentResponse::Transfer { from, to, amount }
}

} // verus!
