use vstd::prelude::*;

verus! {

/// A mint notification: `amount` fresh tokens were credited to `owner`.
/// Emission is the host's business and best-effort; the ledger only hands
/// the record out.
#[derive(Clone, Debug)]
pub struct MintEvent {
    pub owner: String,
    pub amount: u128,
    pub memo: Option<String>,
}

/// A transfer notification: `amount` tokens moved from `sender` to
/// `receiver`.
#[derive(Clone, Debug)]
pub struct TransferEvent {
    pub sender: String,
    pub receiver: String,
    pub amount: u128,
    pub memo: Option<String>,
}

/// A burn notification: `amount` tokens left `account` and the total supply.
#[derive(Clone, Debug)]
pub struct BurnEvent {
    pub account: String,
    pub amount: u128,
    pub memo: Option<String>,
}

} // verus!
