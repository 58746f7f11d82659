use vstd::prelude::*;

verus! {

use crate::errors::FtError;
use crate::events::BurnEvent;
use crate::ledger::Ledger;

/// The storage balance of a registered account, in native-currency units.
/// Accounts here have a fixed, non-growing footprint, so `available` excess
/// is always zero.
#[derive(Clone, Debug)]
pub struct StorageBalance {
    pub total: u128,
    pub available: u128,
}

/// What a successful `storage_deposit` hands back.
#[derive(Clone, Debug)]
pub struct StorageDepositOutcome {
    pub balance: StorageBalance,
    /// The attached value beyond what the call consumed, owed back to the
    /// caller as a native-currency refund.
    pub refund: u128,
    /// Whether this call created the account's entry.
    pub newly_registered: bool,
}

/// What a successful `storage_unregister` hands back.
#[derive(Clone, Debug)]
pub struct UnregisterOutcome {
    /// The account's storage deposit, owed back to the caller.
    pub refund: u128,
    /// The balance burned out of the total supply; zero without `force`.
    pub burned: u128,
    /// The burn notification, where anything was burned.
    pub burn: Option<BurnEvent>,
}

/// Converts a storage footprint into native-currency units at the price per
/// byte the storage metering oracle reported, refusing a product the 128-bit
/// range cannot hold.
pub fn storage_cost_of(bytes: u64, price_per_byte: u128) -> (r: Option<u128>)
    ensures
        ({
            let c = (bytes as int) * (price_per_byte as int);
            if c <= u128::MAX {
                r == Some(c as u128)
            } else {
                r is None
            }
        }),
{
    (bytes as u128).checked_mul(price_per_byte)
}

impl Ledger {
    /// The minimum and maximum storage balance an account can hold: both are
    /// the fixed cost of one account's storage cell, since the footprint
    /// never grows.
    pub fn storage_balance_bounds(&self) -> (r: (u128, u128))
        ensures
            r.0 == self.spec_cost(),
            r.1 == self.spec_cost(),
    {
        (self.account_storage_cost, self.account_storage_cost)
    }

    /// Registers `account_id` against `attached` native-currency value. An
    /// already registered account keeps its state and the whole attached
    /// value is owed back; a fresh account consumes exactly the fixed cell
    /// cost and the rest is owed back; attached value under that cost fails
    /// with `InsufficientDeposit` and changes nothing. With a fixed account
    /// footprint the `registration_only` flag cannot change the outcome.
    #[allow(unused_variables)]
    pub fn storage_deposit(
        &mut self,
        account_id: &String,
        attached: u128,
        registration_only: bool,
    ) -> (r: Result<StorageDepositOutcome, FtError>)
        requires
            old(self).wf(),
        ensures
            final(self).wf(),
            old(self).spec_registered(account_id@) ==> *final(self) == *old(self) && (
            r matches Ok(o) && o.refund == attached && !o.newly_registered && o.balance.total
                == old(self).spec_cost() && o.balance.available == 0),
            !old(self).spec_registered(account_id@) && attached < old(self).spec_cost() ==> r
                == Err::<StorageDepositOutcome, FtError>(FtError::InsufficientDeposit)
                && *final(self) == *old(self),
            !old(self).spec_registered(account_id@) && attached >= old(self).spec_cost() ==> old(
                self,
            ).register_ok(*final(self), account_id@) && (r matches Ok(o) && o.refund == attached
                - old(self).spec_cost() && o.newly_registered && o.balance.total == old(
                self,
            ).spec_cost() && o.balance.available == 0),
    {
        if self.is_registered(account_id) {
            Ok(
                StorageDepositOutcome {
                    balance: StorageBalance { total: self.account_storage_cost, available: 0 },
                    refund: attached,
                    newly_registered: false,
                },
            )
        } else if attached < self.account_storage_cost {
            Err(FtError::InsufficientDeposit)
        } else {
            match self.register(account_id) {
                Err(e) => Err(e),
                Ok(()) => Ok(
                    StorageDepositOutcome {
                        balance: StorageBalance { total: self.account_storage_cost, available: 0 },
                        refund: attached - self.account_storage_cost,
                        newly_registered: true,
                    },
                ),
            }
        }
    }

    /// Accounts have a fixed, non-growing footprint, so there is never an
    /// excess storage balance to pay out: a request for a nonzero amount
    /// fails with `NoExcessBalance`, and any request leaves the ledger as it
    /// was.
    pub fn storage_withdraw(&mut self, account_id: &String, amount: Option<u128>) -> (r: Result<
        StorageBalance,
        FtError,
    >)
        requires
            old(self).wf(),
        ensures
            *final(self) == *old(self),
            !old(self).spec_registered(account_id@) ==> r == Err::<StorageBalance, FtError>(
                FtError::NotRegistered,
            ),
            old(self).spec_registered(account_id@) && (amount matches Some(n) && n > 0) ==> r
                == Err::<StorageBalance, FtError>(FtError::NoExcessBalance),
            old(self).spec_registered(account_id@) && (amount is None || amount == Some(0u128))
                ==> (r matches Ok(b) && b.total == old(self).spec_cost() && b.available == 0),
    {
        if !self.is_registered(account_id) {
            return Err(FtError::NotRegistered);
        }
        match amount {
            Some(n) => {
                if n > 0 {
                    Err(FtError::NoExcessBalance)
                } else {
                    Ok(StorageBalance { total: self.account_storage_cost, available: 0 })
                }
            },
            None => Ok(StorageBalance { total: self.account_storage_cost, available: 0 }),
        }
    }

    /// Unregisters `account_id`, refunding its storage deposit (the fixed
    /// cell cost) to the caller. A nonzero balance blocks the removal with
    /// `NonZeroBalance` unless `force` is set, in which case the balance is
    /// burned out of the total supply and the burn notification is handed
    /// back.
    pub fn storage_unregister(&mut self, account_id: &String, force: bool) -> (r: Result<
        UnregisterOutcome,
        FtError,
    >)
        requires
            old(self).wf(),
        ensures
            final(self).wf(),
            !old(self).spec_registered(account_id@) ==> r == Err::<UnregisterOutcome, FtError>(
                FtError::NotRegistered,
            ) && *final(self) == *old(self),
            old(self).spec_registered(account_id@) && old(self).spec_balance(account_id@) > 0
                && !force ==> r == Err::<UnregisterOutcome, FtError>(FtError::NonZeroBalance)
                && *final(self) == *old(self),
            old(self).spec_registered(account_id@) && (old(self).spec_balance(account_id@) == 0
                || force) ==> old(self).unregister_ok(
                *final(self),
                account_id@,
                old(self).spec_balance(account_id@),
            ) && (r matches Ok(o) && o.refund == old(self).spec_cost() && o.burned == old(
                self,
            ).spec_balance(account_id@) && (o.burned > 0 ==> (o.burn matches Some(b) && b.account@
                == account_id@ && b.amount == o.burned)) && (o.burned == 0 ==> o.burn is None)),
    {
        match self.unregister(account_id, force) {
            Err(e) => Err(e),
            Ok(burned) => {
                let burn = if burned > 0 {
                    Some(BurnEvent { account: account_id.clone(), amount: burned, memo: None })
                } else {
                    None
                };
                Ok(UnregisterOutcome { refund: self.account_storage_cost, burned, burn })
            },
        }
    }
}

} // verus!
