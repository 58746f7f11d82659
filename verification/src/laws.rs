use vstd::prelude::*;

verus! {

use crate::ledger::Ledger;
use crate::ledger::sum_balances;
use crate::transfer::transfer_ok;

/// Conservation of supply: in every well-formed ledger — and every operation
/// of this crate both requires and re-establishes well-formedness — the
/// balances of the registered accounts sum exactly to the total supply.
pub proof fn lemma_supply_is_balance_sum(l: Ledger)
    requires
        l.wf(),
    ensures
        sum_balances(l.accounts@) == l.spec_supply(),
{
}

/// Registration is not repeatable: after a successful registration of `id`
/// the account is registered, so by `register`'s contract a second
/// `register` of `id` must return `AlreadyRegistered` and change nothing.
pub proof fn lemma_register_not_repeatable(pre: Ledger, post: Ledger, id: Seq<char>)
    requires
        pre.register_ok(post, id),
    ensures
        post.spec_registered(id),
{
}

/// Round trip: registering a fresh account leaves it with balance zero, and
/// unregistering it again without force succeeds — its balance is still
/// zero, so nothing is burned — and returns the ledger to a state
/// indistinguishable from the original: the same registry, the same
/// balances, the same supply.
pub proof fn lemma_register_unregister_round_trip(
    pre: Ledger,
    mid: Ledger,
    post: Ledger,
    id: Seq<char>,
)
    requires
        pre.register_ok(mid, id),
        mid.unregister_ok(post, id, 0),
    ensures
        mid.spec_balance(id) == 0,
        forall|x: Seq<char>| #[trigger] post.spec_registered(x) == pre.spec_registered(x),
        forall|x: Seq<char>| #[trigger] post.spec_balance(x) == pre.spec_balance(x),
        post.spec_supply() == pre.spec_supply(),
        post.spec_cost() == pre.spec_cost(),
{
    assert forall|x: Seq<char>| #[trigger]
        post.spec_registered(x) == pre.spec_registered(x) && post.spec_balance(x)
            == pre.spec_balance(x) by {
        if x != id {
            assert(mid.spec_registered(x) == pre.spec_registered(x));
            assert(mid.spec_balance(x) == pre.spec_balance(x));
        }
    }
}

/// A transfer conserves value exactly: the two accounts' joint holding and
/// the total supply are both unchanged, whichever accounts and amount were
/// involved.
pub proof fn lemma_transfer_conserves(
    pre: Ledger,
    post: Ledger,
    sender: Seq<char>,
    receiver: Seq<char>,
    amount: u128,
)
    requires
        transfer_ok(pre, post, sender, receiver, amount),
    ensures
        post.spec_balance(sender) + post.spec_balance(receiver) == pre.spec_balance(sender)
            + pre.spec_balance(receiver),
        post.spec_supply() == pre.spec_supply(),
{
}

} // verus!
