//! A fungible-token ledger for a metered, persistent execution environment.
//!
//! The crate keeps per-account balances under a conserved total supply,
//! accounts for the persistent-storage deposit that every registered account
//! must have paid, and implements both direct transfers and the two-phase
//! transfer-with-callback protocol, in which the ledger is debited before an
//! external receiver runs and reconciled from the receiver's reported outcome
//! afterwards.
//!
//! The host environment (caller identity, attached native currency, the
//! storage metering oracle, the asynchronous call machinery and the event
//! sink) stays outside: every operation takes plain values and a ledger
//! handle, and hands back the notifications it would emit.

pub mod errors;
pub mod events;
pub mod laws;
pub mod ledger;
pub mod storage;
pub mod transfer;
