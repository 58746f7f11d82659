use vstd::prelude::*;

verus! {

/// The caller-visible failures of the ledger. Every one of them is raised
/// before any write, so a failed operation leaves the ledger unchanged.
#[derive(Clone, Copy, Debug, PartialEq, Eq, Structural)]
pub enum FtError {
    /// The named account has no entry in the registry.
    NotRegistered,
    /// The named account already has an entry in the registry.
    AlreadyRegistered,
    /// Unregistration without `force` was asked of an account whose balance
    /// is not zero.
    NonZeroBalance,
    /// A debit asked for more than the account holds.
    InsufficientBalance,
    /// The attached value does not cover the storage cost of registration.
    InsufficientDeposit,
    /// A storage withdrawal asked for a nonzero amount, but accounts have a
    /// fixed footprint and never hold excess storage balance.
    NoExcessBalance,
    /// A credit would push the total supply past the 128-bit range.
    Overflow,
    /// A transfer of zero tokens.
    ZeroAmount,
    /// A transfer from an account to itself.
    SelfTransfer,
}

} // verus!
