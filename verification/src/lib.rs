//! A collateral vault ledger with strict balance invariants.
//!
//! The crate keeps one balance record per owner and applies five atomic
//! operations to it: deposit, withdraw, lock, unlock and transfer.  Lock,
//! unlock and transfer are privileged and gated by an authorization
//! registry.  A mirror store keeps a denormalized, fast-read copy of the
//! records plus a transaction history, and a reconciler compares the mirror
//! against authoritative state, appending either a drift log entry or a
//! balance snapshot.

pub mod error;
pub mod events;
pub mod ledger;
pub mod mirror;
pub mod models;
pub mod reconciler;
pub mod retry;
pub mod state;
pub mod tx;
