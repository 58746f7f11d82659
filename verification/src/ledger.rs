use vstd::prelude::*;

verus! {

use crate::errors::FtError;
use vstd::pervasive::VecAdditionalExecFns;

/// One registered account: its host-validated identity string and its token
/// balance.
pub struct AccountEntry {
    pub id: String,
    pub balance: u128,
}

/// The balances of a sequence of account entries, summed without bound.
pub open spec fn sum_balances(s: Seq<AccountEntry>) -> int
    decreases s.len(),
{
    if s.len() == 0 {
        0
    } else {
        sum_balances(s.drop_last()) + s.last().balance
    }
}

/// No two entries carry the same identity.
pub open spec fn ids_unique(s: Seq<AccountEntry>) -> bool {
    forall|i: int, j: int| 0 <= i < j < s.len() ==> s[i].id@ != s[j].id@
}

/// Some entry carries the identity `id`.
pub open spec fn has_id(s: Seq<AccountEntry>, id: Seq<char>) -> bool {
    exists|i: int| 0 <= i < s.len() && s[i].id@ == id
}

/// The balance recorded for `id`, and zero where no entry carries it.
pub open spec fn balance_in(s: Seq<AccountEntry>, id: Seq<char>) -> u128 {
    if has_id(s, id) {
        s[choose|i: int| 0 <= i < s.len() && s[i].id@ == id].balance
    } else {
        0u128
    }
}

/// The fungible-token ledger: the account registry and balance map under a
/// conserved total supply, together with the fixed native-currency cost of
/// one account's persistent-storage cell.
pub struct Ledger {
    pub accounts: Vec<AccountEntry>,
    pub total_supply: u128,
    pub account_storage_cost: u128,
}

impl Ledger {
    /// The account `id` is present in the registry.
    pub open spec fn spec_registered(self, id: Seq<char>) -> bool {
        has_id(self.accounts@, id)
    }

    /// The balance of `id`: zero for an unregistered account.
    pub open spec fn spec_balance(self, id: Seq<char>) -> u128 {
        balance_in(self.accounts@, id)
    }

    pub open spec fn spec_supply(self) -> u128 {
        self.total_supply
    }

    /// The native-currency cost of one account's storage cell; fixed at
    /// genesis.
    pub open spec fn spec_cost(self) -> u128 {
        self.account_storage_cost
    }

    /// Well-formedness: identities are distinct and the balances sum exactly
    /// to the total supply. Every operation of the ledger preserves this.
    pub open spec fn wf(self) -> bool {
        ids_unique(self.accounts@) && sum_balances(self.accounts@) == self.total_supply
    }

    /// Every account other than `id` keeps its registration status and its
    /// balance when `self` becomes `post`.
    pub open spec fn same_except(self, post: Ledger, id: Seq<char>) -> bool {
        forall|x: Seq<char>|
            #![trigger post.spec_registered(x)]
            #![trigger post.spec_balance(x)]
            x != id ==> post.spec_registered(x) == self.spec_registered(x)
                && post.spec_balance(x) == self.spec_balance(x)
    }

    /// `post` is `self` after a successful registration of `id`.
    pub open spec fn register_ok(self, post: Ledger, id: Seq<char>) -> bool {
        &&& !self.spec_registered(id)
        &&& post.spec_registered(id)
        &&& post.spec_balance(id) == 0
        &&& post.spec_supply() == self.spec_supply()
        &&& post.spec_cost() == self.spec_cost()
        &&& self.same_except(post, id)
    }

    /// `post` is `self` after a successful unregistration of `id` that burned
    /// `burned` tokens out of the total supply.
    pub open spec fn unregister_ok(self, post: Ledger, id: Seq<char>, burned: u128) -> bool {
        &&& self.spec_registered(id)
        &&& burned == self.spec_balance(id)
        &&& !post.spec_registered(id)
        &&& post.spec_supply() == self.spec_supply() - burned
        &&& post.spec_cost() == self.spec_cost()
        &&& self.same_except(post, id)
    }

    /// `post` is `self` after `amount` tokens were minted to the registered
    /// account `id`.
    pub open spec fn deposit_ok(self, post: Ledger, id: Seq<char>, amount: u128) -> bool {
        &&& self.spec_registered(id)
        &&& post.spec_registered(id)
        &&& post.spec_balance(id) == self.spec_balance(id) + amount
        &&& post.spec_supply() == self.spec_supply() + amount
        &&& post.spec_cost() == self.spec_cost()
        &&& self.same_except(post, id)
    }

    /// `post` is `self` after `amount` tokens were burned from the registered
    /// account `id`.
    pub open spec fn withdraw_ok(self, post: Ledger, id: Seq<char>, amount: u128) -> bool {
        &&& self.spec_registered(id)
        &&& post.spec_registered(id)
        &&& post.spec_balance(id) == self.spec_balance(id) - amount
        &&& post.spec_supply() == self.spec_supply() - amount
        &&& post.spec_cost() == self.spec_cost()
        &&& self.same_except(post, id)
    }
}

proof fn lemma_sum_nonneg(s: Seq<AccountEntry>)
    ensures
        sum_balances(s) >= 0,
    decreases s.len(),
{
    if s.len() > 0 {
        lemma_sum_nonneg(s.drop_last());
    }
}

/// A single balance never exceeds the sum of all of them.
proof fn lemma_entry_le_sum(s: Seq<AccountEntry>, i: int)
    requires
        0 <= i < s.len(),
    ensures
        s[i].balance <= sum_balances(s),
    decreases s.len(),
{
    if i == s.len() - 1 {
        lemma_sum_nonneg(s.drop_last());
    } else {
        lemma_entry_le_sum(s.drop_last(), i);
        lemma_sum_nonneg(s.drop_last());
        assert(s.drop_last()[i] == s[i]);
    }
}

proof fn lemma_sum_update(s: Seq<AccountEntry>, i: int, e: AccountEntry)
    requires
        0 <= i < s.len(),
    ensures
        sum_balances(s.update(i, e)) == sum_balances(s) - s[i].balance + e.balance,
    decreases s.len(),
{
    let t = s.update(i, e);
    if i == s.len() - 1 {
        assert(t.drop_last() =~= s.drop_last());
    } else {
        assert(t.drop_last() =~= s.drop_last().update(i, e));
        lemma_sum_update(s.drop_last(), i, e);
        assert(t.last() == s.last());
    }
}

proof fn lemma_sum_remove(s: Seq<AccountEntry>, i: int)
    requires
        0 <= i < s.len(),
    ensures
        sum_balances(s.remove(i)) == sum_balances(s) - s[i].balance,
    decreases s.len(),
{
    let t = s.remove(i);
    if i == s.len() - 1 {
        assert(t =~= s.drop_last());
    } else {
        assert(t.drop_last() =~= s.drop_last().remove(i));
        lemma_sum_remove(s.drop_last(), i);
        assert(t.last() == s.last());
    }
}

proof fn lemma_sum_push(s: Seq<AccountEntry>, e: AccountEntry)
    ensures
        sum_balances(s.push(e)) == sum_balances(s) + e.balance,
{
    assert(s.push(e).drop_last() =~= s);
}

/// Under distinct identities, the entry at `i` is the one `balance_in` reads
/// for its identity.
proof fn lemma_balance_at(s: Seq<AccountEntry>, i: int)
    requires
        ids_unique(s),
        0 <= i < s.len(),
    ensures
        has_id(s, s[i].id@),
        balance_in(s, s[i].id@) == s[i].balance,
{
    let id = s[i].id@;
    assert(has_id(s, id));
    let k = choose|k: int| 0 <= k < s.len() && s[k].id@ == id;
    if k < i {
        assert(s[k].id@ != s[i].id@);
    } else if i < k {
        assert(s[i].id@ != s[k].id@);
    }
}

/// Replacing the entry at `i` with one of the same identity changes that
/// identity's balance and nothing else.
proof fn lemma_update_frame(s: Seq<AccountEntry>, i: int, e: AccountEntry)
    requires
        ids_unique(s),
        0 <= i < s.len(),
        e.id@ == s[i].id@,
    ensures
        ids_unique(s.update(i, e)),
        has_id(s.update(i, e), e.id@),
        balance_in(s.update(i, e), e.id@) == e.balance,
        forall|x: Seq<char>|
            #![trigger has_id(s.update(i, e), x)]
            #![trigger balance_in(s.update(i, e), x)]
            x != e.id@ ==> has_id(s.update(i, e), x) == has_id(s, x)
                && balance_in(s.update(i, e), x) == balance_in(s, x),
{
    let t = s.update(i, e);
    assert(forall|a: int| 0 <= a < s.len() ==> t[a].id@ == s[a].id@);
    assert(ids_unique(t));
    lemma_balance_at(t, i);
    assert forall|x: Seq<char>|
        x != e.id@ implies has_id(t, x) == has_id(s, x) && balance_in(t, x) == balance_in(s, x) by {
        if has_id(s, x) {
            let j = choose|j: int| 0 <= j < s.len() && s[j].id@ == x;
            assert(j != i);
            assert(t[j].id@ == x);
            assert(has_id(t, x));
            lemma_balance_at(s, j);
            lemma_balance_at(t, j);
        } else {
            if has_id(t, x) {
                let j = choose|j: int| 0 <= j < t.len() && t[j].id@ == x;
                assert(s[j].id@ == x);
            }
        }
    }
}

/// Appending an entry with a fresh identity registers it with its balance and
/// touches nothing else.
proof fn lemma_push_frame(s: Seq<AccountEntry>, e: AccountEntry)
    requires
        ids_unique(s),
        !has_id(s, e.id@),
    ensures
        ids_unique(s.push(e)),
        has_id(s.push(e), e.id@),
        balance_in(s.push(e), e.id@) == e.balance,
        forall|x: Seq<char>|
            #![trigger has_id(s.push(e), x)]
            #![trigger balance_in(s.push(e), x)]
            x != e.id@ ==> has_id(s.push(e), x) == has_id(s, x)
                && balance_in(s.push(e), x) == balance_in(s, x),
{
    let t = s.push(e);
    assert forall|a: int, b: int| 0 <= a < b < t.len() implies t[a].id@ != t[b].id@ by {
        if b == s.len() {
            if t[a].id@ == e.id@ {
                assert(s[a].id@ == e.id@);
                assert(has_id(s, e.id@));
            }
        }
    }
    lemma_balance_at(t, s.len() as int);
    assert forall|x: Seq<char>|
        x != e.id@ implies has_id(t, x) == has_id(s, x) && balance_in(t, x) == balance_in(s, x) by {
        if has_id(s, x) {
            let j = choose|j: int| 0 <= j < s.len() && s[j].id@ == x;
            assert(t[j].id@ == x);
            assert(has_id(t, x));
            lemma_balance_at(s, j);
            lemma_balance_at(t, j);
        } else {
            if has_id(t, x) {
                let j = choose|j: int| 0 <= j < t.len() && t[j].id@ == x;
                assert(j != s.len());
                assert(s[j].id@ == x);
            }
        }
    }
}

/// Removing the entry at `i` unregisters its identity and touches nothing
/// else.
proof fn lemma_remove_frame(s: Seq<AccountEntry>, i: int)
    requires
        ids_unique(s),
        0 <= i < s.len(),
    ensures
        ids_unique(s.remove(i)),
        !has_id(s.remove(i), s[i].id@),
        forall|x: Seq<char>|
            #![trigger has_id(s.remove(i), x)]
            #![trigger balance_in(s.remove(i), x)]
            x != s[i].id@ ==> has_id(s.remove(i), x) == has_id(s, x)
                && balance_in(s.remove(i), x) == balance_in(s, x),
{
    let t = s.remove(i);
    assert(forall|a: int| 0 <= a < i ==> t[a] == s[a]);
    assert(forall|a: int| i <= a < t.len() ==> t[a] == s[a + 1]);
    assert forall|a: int, b: int| 0 <= a < b < t.len() implies t[a].id@ != t[b].id@ by {
        let sa: int = if a < i { a } else { a + 1 };
        let sb: int = if b < i { b } else { b + 1 };
        assert(t[a] == s[sa]);
        assert(t[b] == s[sb]);
        assert(s[sa].id@ != s[sb].id@);
    }
    if has_id(t, s[i].id@) {
        let j = choose|j: int| 0 <= j < t.len() && t[j].id@ == s[i].id@;
        let sj: int = if j < i { j } else { j + 1 };
        assert(t[j] == s[sj]);
        assert(s[sj].id@ != s[i].id@);
    }
    assert forall|x: Seq<char>|
        x != s[i].id@ implies has_id(t, x) == has_id(s, x) && balance_in(t, x) == balance_in(s, x) by {
        if has_id(s, x) {
            let j = choose|j: int| 0 <= j < s.len() && s[j].id@ == x;
            assert(j != i);
            let tj: int = if j < i { j } else { j - 1 };
            assert(t[tj] == s[j]);
            assert(has_id(t, x));
            let k = choose|k: int| 0 <= k < t.len() && t[k].id@ == x;
            let sk: int = if k < i { k } else { k + 1 };
            assert(t[k] == s[sk]);
            lemma_balance_at(s, j);
            lemma_balance_at(t, k);
            if sk < j {
                assert(s[sk].id@ != s[j].id@);
            } else if j < sk {
                assert(s[j].id@ != s[sk].id@);
            }
        } else {
            if has_id(t, x) {
                let j = choose|j: int| 0 <= j < t.len() && t[j].id@ == x;
                let sj: int = if j < i { j } else { j + 1 };
                assert(t[j] == s[sj]);
                assert(has_id(s, x));
            }
        }
    }
}

impl Ledger {
    /// The index of the entry carrying `id`, where there is one.
    fn find_index(&self, id: &String) -> (r: Option<usize>)
        ensures
            match r {
                Some(i) => i < self.accounts@.len() && self.accounts@[i as int].id@ == id@,
                None => !has_id(self.accounts@, id@),
            },
    {
        let n = self.accounts.len();
        let mut i: usize = 0;
        while i < n
            invariant
                n == self.accounts@.len(),
                i <= n,
                forall|j: int| 0 <= j < i ==> self.accounts@[j].id@ != id@,
            decreases n - i,
        {
            if self.accounts[i].id == *id {
                return Some(i);
            }
            i = i + 1;
        }
        None
    }

    /// Creates the ledger at genesis: the owner is registered and the whole
    /// total supply is minted to it. `account_storage_cost` is the fixed
    /// native-currency cost of one account's storage cell, as the host
    /// computed it from the storage metering oracle's price per byte.
    pub fn new(owner_id: String, total_supply: u128, account_storage_cost: u128) -> (r: Ledger)
        ensures
            r.wf(),
            r.spec_registered(owner_id@),
            r.spec_balance(owner_id@) == total_supply,
            r.spec_supply() == total_supply,
            r.spec_cost() == account_storage_cost,
            forall|x: Seq<char>|
                #![trigger r.spec_registered(x)]
                #![trigger r.spec_balance(x)]
                x != owner_id@ ==> !r.spec_registered(x) && r.spec_balance(x) == 0,
    {
        let ghost oid = owner_id@;
        let entry = AccountEntry { id: owner_id, balance: total_supply };
        let ghost ge = entry;
        let mut accounts: Vec<AccountEntry> = Vec::new();
        accounts.push(entry);
        let r = Ledger { accounts, total_supply, account_storage_cost };
        proof {
            assert(r.accounts@ =~= Seq::<AccountEntry>::empty().push(ge));
            lemma_push_frame(Seq::<AccountEntry>::empty(), ge);
            lemma_sum_push(Seq::<AccountEntry>::empty(), ge);
        }
        r
    }

    /// Whether `account_id` is present in the registry. A read-only query.
    pub fn is_registered(&self, account_id: &String) -> (r: bool)
        ensures
            r == self.spec_registered(account_id@),
    {
        match self.find_index(account_id) {
            Some(_) => true,
            None => false,
        }
    }

    /// The balance of `account_id`, and zero where it is not registered.
    /// A read-only query with no registration requirement.
    pub fn balance_of(&self, account_id: &String) -> (r: u128)
        requires
            self.wf(),
        ensures
            r == self.spec_balance(account_id@),
    {
        match self.find_index(account_id) {
            Some(i) => {
                proof {
                    lemma_balance_at(self.accounts@, i as int);
                }
                self.accounts[i].balance
            },
            None => 0,
        }
    }

    /// The conserved total supply: fixed at genesis, reduced only by burns.
    pub fn total_supply(&self) -> (r: u128)
        ensures
            r == self.spec_supply(),
    {
        self.total_supply
    }

    /// Creates an entry for `account_id` with balance zero. The caller must
    /// separately have covered the account's storage cost. Fails with
    /// `AlreadyRegistered` on an account that is already present.
    pub fn register(&mut self, account_id: &String) -> (r: Result<(), FtError>)
        requires
            old(self).wf(),
        ensures
            final(self).wf(),
            old(self).spec_registered(account_id@) ==> r == Err::<(), FtError>(
                FtError::AlreadyRegistered,
            ) && *final(self) == *old(self),
            !old(self).spec_registered(account_id@) ==> r == Ok::<(), FtError>(())
                && old(self).register_ok(*final(self), account_id@),
    {
        match self.find_index(account_id) {
            Some(_) => Err(FtError::AlreadyRegistered),
            None => {
                let entry = AccountEntry { id: account_id.clone(), balance: 0 };
                let ghost ge = entry;
                self.accounts.push(entry);
                proof {
                    lemma_push_frame(old(self).accounts@, ge);
                    lemma_sum_push(old(self).accounts@, ge);
                }
                Ok(())
            },
        }
    }

    /// Removes `account_id` from the registry. A nonzero balance blocks the
    /// removal with `NonZeroBalance` unless `force` is set, in which case the
    /// remaining balance is burned out of the total supply. Returns the
    /// burned amount, which is zero whenever the balance was zero.
    pub fn unregister(&mut self, account_id: &String, force: bool) -> (r: Result<u128, FtError>)
        requires
            old(self).wf(),
        ensures
            final(self).wf(),
            !old(self).spec_registered(account_id@) ==> r == Err::<u128, FtError>(
                FtError::NotRegistered,
            ) && *final(self) == *old(self),
            old(self).spec_registered(account_id@) && old(self).spec_balance(account_id@) > 0
                && !force ==> r == Err::<u128, FtError>(FtError::NonZeroBalance) && *final(self)
                == *old(self),
            old(self).spec_registered(account_id@) && (old(self).spec_balance(account_id@) == 0
                || force) ==> r == Ok::<u128, FtError>(old(self).spec_balance(account_id@))
                && old(self).unregister_ok(
                *final(self),
                account_id@,
                old(self).spec_balance(account_id@),
            ),
    {
        match self.find_index(account_id) {
            None => Err(FtError::NotRegistered),
            Some(i) => {
                proof {
                    lemma_balance_at(self.accounts@, i as int);
                    lemma_entry_le_sum(self.accounts@, i as int);
                }
                let balance = self.accounts[i].balance;
                if balance > 0 && !force {
                    Err(FtError::NonZeroBalance)
                } else {
                    let _removed = self.accounts.remove(i);
                    self.total_supply = self.total_supply - balance;
                    proof {
                        lemma_remove_frame(old(self).accounts@, i as int);
                        lemma_sum_remove(old(self).accounts@, i as int);
                    }
                    Ok(balance)
                }
            },
        }
    }

    /// Credits `amount` to the registered account `account_id`, minting it
    /// into the total supply. Used for genesis minting and, paired with
    /// `withdraw`, for transfer credit. Arithmetic is saturation-free: a
    /// credit the supply cannot absorb fails hard with `Overflow` and changes
    /// nothing.
    pub fn deposit(&mut self, account_id: &String, amount: u128) -> (r: Result<(), FtError>)
        requires
            old(self).wf(),
        ensures
            final(self).wf(),
            !old(self).spec_registered(account_id@) ==> r == Err::<(), FtError>(
                FtError::NotRegistered,
            ) && *final(self) == *old(self),
            old(self).spec_registered(account_id@) && old(self).spec_supply() + amount
                > u128::MAX ==> r == Err::<(), FtError>(FtError::Overflow) && *final(self) == *old(
                self,
            ),
            old(self).spec_registered(account_id@) && old(self).spec_supply() + amount
                <= u128::MAX ==> r == Ok::<(), FtError>(()) && old(self).deposit_ok(
                *final(self),
                account_id@,
                amount,
            ),
    {
        match self.find_index(account_id) {
            None => Err(FtError::NotRegistered),
            Some(i) => {
                if amount > u128::MAX - self.total_supply {
                    Err(FtError::Overflow)
                } else {
                    proof {
                        lemma_balance_at(self.accounts@, i as int);
                        lemma_entry_le_sum(self.accounts@, i as int);
                    }
                    let old_balance = self.accounts[i].balance;
                    let id_copy = self.accounts[i].id.clone();
                    let entry = AccountEntry { id: id_copy, balance: old_balance + amount };
                    let ghost ge = entry;
                    self.accounts.set(i, entry);
                    self.total_supply = self.total_supply + amount;
                    proof {
                        lemma_update_frame(old(self).accounts@, i as int, ge);
                        lemma_sum_update(old(self).accounts@, i as int, ge);
                    }
                    Ok(())
                }
            },
        }
    }

    /// Debits `amount` from the registered account `account_id`, burning it
    /// out of the total supply. Used, paired with `deposit`, for transfer
    /// debit and for burns. Fails hard with `InsufficientBalance` where the
    /// account holds less than `amount`, changing nothing.
    pub fn withdraw(&mut self, account_id: &String, amount: u128) -> (r: Result<(), FtError>)
        requires
            old(self).wf(),
        ensures
            final(self).wf(),
            !old(self).spec_registered(account_id@) ==> r == Err::<(), FtError>(
                FtError::NotRegistered,
            ) && *final(self) == *old(self),
            old(self).spec_registered(account_id@) && amount > old(self).spec_balance(
                account_id@,
            ) ==> r == Err::<(), FtError>(FtError::InsufficientBalance) && *final(self) == *old(
                self,
            ),
            old(self).spec_registered(account_id@) && amount <= old(self).spec_balance(
                account_id@,
            ) ==> r == Ok::<(), FtError>(()) && old(self).withdraw_ok(
                *final(self),
                account_id@,
                amount,
            ),
    {
        match self.find_index(account_id) {
            None => Err(FtError::NotRegistered),
            Some(i) => {
                proof {
                    lemma_balance_at(self.accounts@, i as int);
                    lemma_entry_le_sum(self.accounts@, i as int);
                }
                let old_balance = self.accounts[i].balance;
                if amount > old_balance {
                    Err(FtError::InsufficientBalance)
                } else {
                    let id_copy = self.accounts[i].id.clone();
                    let entry = AccountEntry { id: id_copy, balance: old_balance - amount };
                    let ghost ge = entry;
                    self.accounts.set(i, entry);
                    self.total_supply = self.total_supply - amount;
                    proof {
                        lemma_update_frame(old(self).accounts@, i as int, ge);
                        lemma_sum_update(old(self).accounts@, i as int, ge);
                    }
                    Ok(())
                }
            },
        }
    }
}

} // verus!
