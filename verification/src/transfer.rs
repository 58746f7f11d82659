use vstd::prelude::*;

verus! {

use crate::errors::FtError;
use crate::events::BurnEvent;
use crate::events::TransferEvent;
use crate::ledger::Ledger;

/// The pre-check that guards both transfer variants, with the error it
/// raises, in order of precedence; `None` where the transfer may proceed.
pub open spec fn transfer_check(
    pre: Ledger,
    sender: Seq<char>,
    receiver: Seq<char>,
    amount: u128,
) -> Option<FtError> {
    if amount == 0 {
        Some(FtError::ZeroAmount)
    } else if sender == receiver {
        Some(FtError::SelfTransfer)
    } else if !pre.spec_registered(sender) || !pre.spec_registered(receiver) {
        Some(FtError::NotRegistered)
    } else if pre.spec_balance(sender) < amount {
        Some(FtError::InsufficientBalance)
    } else {
        None
    }
}

/// `post` is `pre` after `amount` tokens moved from `sender` to `receiver`:
/// the debit and the credit happen within one invocation, with no
/// intermediate observable state, and the total supply is conserved.
pub open spec fn transfer_ok(
    pre: Ledger,
    post: Ledger,
    sender: Seq<char>,
    receiver: Seq<char>,
    amount: u128,
) -> bool {
    &&& post.spec_registered(sender)
    &&& post.spec_registered(receiver)
    &&& post.spec_balance(sender) == pre.spec_balance(sender) - amount
    &&& post.spec_balance(receiver) == pre.spec_balance(receiver) + amount
    &&& post.spec_supply() == pre.spec_supply()
    &&& post.spec_cost() == pre.spec_cost()
    &&& forall|x: Seq<char>|
        #![trigger post.spec_registered(x)]
        #![trigger post.spec_balance(x)]
        x != sender && x != receiver ==> post.spec_registered(x) == pre.spec_registered(x)
            && post.spec_balance(x) == pre.spec_balance(x)
}

/// The ephemeral record of one pending transfer-with-callback. It lives only
/// for the duration of the suspended external call: the host carries it from
/// the suspension point to the continuation, and `resolve_transfer` consumes
/// it without trusting anything about the ledger state in between.
#[derive(Clone, Debug)]
pub struct TransferIntent {
    pub sender: String,
    pub receiver: String,
    pub amount: u128,
    /// The message handed to the receiving component's handler.
    pub msg: String,
}

impl TransferIntent {
    /// What every intent that `transfer_call` issues satisfies.
    pub open spec fn wf(self) -> bool {
        self.sender@ != self.receiver@ && self.amount > 0
    }
}

/// What the host reports back from the receiver's external call.
#[derive(Clone, Copy, Debug, PartialEq, Eq, Structural)]
pub enum ReceiverOutcome {
    /// The external call failed entirely; the whole amount counts as unused.
    Failed,
    /// The receiver ran and declined to keep this many of the transferred
    /// tokens.
    Unused(u128),
}

/// The amount the receiver declined to keep, clamped to what was sent.
pub open spec fn spec_unused(amount: u128, outcome: ReceiverOutcome) -> u128 {
    match outcome {
        ReceiverOutcome::Failed => amount,
        ReceiverOutcome::Unused(u) => if u > amount {
            amount
        } else {
            u
        },
    }
}

/// The refund the resolution actually moves out of the receiver: the unused
/// amount, clamped to the receiver's balance at resolution time.
pub open spec fn spec_refund(pre: Ledger, intent: TransferIntent, outcome: ReceiverOutcome) -> u128 {
    let unused = spec_unused(intent.amount, outcome);
    let receiver_balance = pre.spec_balance(intent.receiver@);
    if receiver_balance > unused {
        unused
    } else {
        receiver_balance
    }
}

/// What `resolve_transfer` hands back to the host.
#[derive(Clone, Debug)]
pub struct ResolveOutcome {
    /// The portion of the transferred amount not re-credited to the sender;
    /// reported to the original caller as what the transfer finally moved.
    pub used_amount: u128,
    /// The refund notification, where the unused tokens went back to a still
    /// registered sender.
    pub refund: Option<TransferEvent>,
    /// The burn notification, where the sender was gone and the unused
    /// tokens left the total supply instead.
    pub burn: Option<BurnEvent>,
}

impl Ledger {
    /// Moves `amount` tokens from `sender_id` to `receiver_id` within one
    /// invocation, or fails before any write: with `ZeroAmount` on a zero
    /// amount, `SelfTransfer` where both sides are one account,
    /// `NotRegistered` where either side has no entry, and
    /// `InsufficientBalance` where the sender holds less than `amount`.
    /// Conserves the total supply exactly and returns the transfer
    /// notification.
    pub fn transfer(
        &mut self,
        sender_id: &String,
        receiver_id: &String,
        amount: u128,
        memo: Option<String>,
    ) -> (r: Result<TransferEvent, FtError>)
        requires
            old(self).wf(),
        ensures
            final(self).wf(),
            match transfer_check(*old(self), sender_id@, receiver_id@, amount) {
                Some(e) => r == Err::<TransferEvent, FtError>(e) && *final(self) == *old(self),
                None => {
                    &&& transfer_ok(*old(self), *final(self), sender_id@, receiver_id@, amount)
                    &&& final(self).spec_balance(sender_id@) + final(self).spec_balance(
                        receiver_id@,
                    ) == old(self).spec_balance(sender_id@) + old(self).spec_balance(receiver_id@)
                    &&& r matches Ok(ev) && ev.sender@ == sender_id@ && ev.receiver@ == receiver_id@
                        && ev.amount == amount && ev.memo == memo
                },
            },
    {
        if amount == 0 {
            return Err(FtError::ZeroAmount);
        }
        if *sender_id == *receiver_id {
            return Err(FtError::SelfTransfer);
        }
        if !self.is_registered(sender_id) || !self.is_registered(receiver_id) {
            return Err(FtError::NotRegistered);
        }
        let sender_balance = self.balance_of(sender_id);
        if sender_balance < amount {
            return Err(FtError::InsufficientBalance);
        }
        match self.withdraw(sender_id, amount) {
            Err(e) => Err(e),
            Ok(()) => {
                match self.deposit(receiver_id, amount) {
                    Err(e) => Err(e),
                    Ok(()) => Ok(
                        TransferEvent {
                            sender: sender_id.clone(),
                            receiver: receiver_id.clone(),
                            amount,
                            memo,
                        },
                    ),
                }
            },
        }
    }

    /// The first phase of a transfer-with-callback: the same pre-checks and
    /// the same debit and credit as `transfer`, committed optimistically so
    /// that the receiver observes the transferred balance while it runs.
    /// Returns the intent the host must carry to `resolve_transfer` once the
    /// receiver's outcome is known, together with the transfer notification.
    pub fn transfer_call(
        &mut self,
        sender_id: &String,
        receiver_id: &String,
        amount: u128,
        memo: Option<String>,
        msg: String,
    ) -> (r: Result<(TransferIntent, TransferEvent), FtError>)
        requires
            old(self).wf(),
        ensures
            final(self).wf(),
            match transfer_check(*old(self), sender_id@, receiver_id@, amount) {
                Some(e) => r == Err::<(TransferIntent, TransferEvent), FtError>(e) && *final(self)
                    == *old(self),
                None => {
                    &&& transfer_ok(*old(self), *final(self), sender_id@, receiver_id@, amount)
                    &&& r matches Ok(p) && p.0.wf() && p.0.sender@ == sender_id@ && p.0.receiver@
                        == receiver_id@ && p.0.amount == amount && p.0.msg@ == msg@ && p.1.sender@
                        == sender_id@ && p.1.receiver@ == receiver_id@ && p.1.amount == amount
                        && p.1.memo == memo
                },
            },
    {
        match self.transfer(sender_id, receiver_id, amount, memo) {
            Err(e) => Err(e),
            Ok(ev) => Ok(
                (
                    TransferIntent {
                        sender: sender_id.clone(),
                        receiver: receiver_id.clone(),
                        amount,
                        msg,
                    },
                    ev,
                ),
            ),
        }
    }

    /// The continuation of a transfer-with-callback, run at most once per
    /// intent, after the host learns the receiver's outcome. Registration
    /// and balances are re-checked here rather than assumed unchanged: the
    /// receiver may have driven arbitrary ledger operations while the call
    /// was suspended. The unused amount, clamped to the receiver's current
    /// balance, moves back to the sender where it is still registered and is
    /// burned where it is not; a shortfall against a drained receiver is not
    /// refunded. No path fails: the resolution only decides how much of the
    /// committed transfer stands.
    pub fn resolve_transfer(&mut self, intent: &TransferIntent, outcome: ReceiverOutcome) -> (r:
        ResolveOutcome)
        requires
            old(self).wf(),
            intent.wf(),
        ensures
            final(self).wf(),
            ({
                let refund = spec_refund(*old(self), *intent, outcome);
                &&& final(self).spec_balance(intent.receiver@) == old(self).spec_balance(
                    intent.receiver@,
                ) - refund
                &&& old(self).spec_registered(intent.sender@) ==> {
                    &&& final(self).spec_balance(intent.sender@) == old(self).spec_balance(
                        intent.sender@,
                    ) + refund
                    &&& final(self).spec_supply() == old(self).spec_supply()
                    &&& r.used_amount == intent.amount - refund
                    &&& r.burn is None
                    &&& refund > 0 ==> (r.refund matches Some(ev) && ev.sender@
                        == intent.receiver@ && ev.receiver@ == intent.sender@ && ev.amount
                        == refund)
                    &&& refund == 0 ==> r.refund is None
                }
                &&& !old(self).spec_registered(intent.sender@) ==> {
                    &&& final(self).spec_supply() == old(self).spec_supply() - refund
                    &&& r.used_amount == intent.amount
                    &&& r.refund is None
                    &&& refund > 0 ==> (r.burn matches Some(b) && b.account@ == intent.receiver@
                        && b.amount == refund)
                    &&& refund == 0 ==> r.burn is None
                }
                &&& forall|x: Seq<char>| #![trigger final(self).spec_registered(x)]
                    final(self).spec_registered(x) == old(self).spec_registered(x)
                &&& forall|x: Seq<char>| #![trigger final(self).spec_balance(x)]
                    x != intent.sender@ && x != intent.receiver@ ==> final(self).spec_balance(x)
                        == old(self).spec_balance(x)
                &&& final(self).spec_cost() == old(self).spec_cost()
            }),
    {
        let unused = match outcome {
            ReceiverOutcome::Failed => intent.amount,
            ReceiverOutcome::Unused(u) => if u > intent.amount {
                intent.amount
            } else {
                u
            },
        };
        if unused == 0 {
            return ResolveOutcome { used_amount: intent.amount, refund: None, burn: None };
        }
        let receiver_balance = self.balance_of(&intent.receiver);
        let refund = if receiver_balance > unused {
            unused
        } else {
            receiver_balance
        };
        if refund == 0 {
            return ResolveOutcome { used_amount: intent.amount, refund: None, burn: None };
        }
        match self.withdraw(&intent.receiver, refund) {
            Err(_) => ResolveOutcome { used_amount: intent.amount, refund: None, burn: None },
            Ok(()) => {
                if self.is_registered(&intent.sender) {
                    match self.deposit(&intent.sender, refund) {
                        Err(_) => ResolveOutcome {
                            used_amount: intent.amount,
                            refund: None,
                            burn: None,
                        },
                        Ok(()) => ResolveOutcome {
                            used_amount: intent.amount - refund,
                            refund: Some(
                                TransferEvent {
                                    sender: intent.receiver.clone(),
                                    receiver: intent.sender.clone(),
                                    amount: refund,
                                    memo: None,
                                },
                            ),
                            burn: None,
                        },
                    }
                } else {
                    // the withdrawal above already burned the refund out of
                    // the total supply
                    ResolveOutcome {
                        used_amount: intent.amount,
                        refund: None,
                        burn: Some(
                            BurnEvent { account: intent.receiver.clone(), amount: refund, memo: None },
                        ),
                    }
                }
            },
        }
    }
}

} // verus!
