use vstd::prelude::*;
use vstd::map::*;
use crate::account::AccountId;
use crate::error::LedgerError;
use crate::event::Event;
use crate::ledger::{Ledger, lemma_index_of_unique, lemma_sum_two_entries};

verus! {

/// The continuation token of a transfer-and-notify: the optimistic balance
/// change has been applied, and the resolve step is still owed. It captures
/// the sender, the receiver, the original amount and the payload handed to
/// the receiver.
#[derive(Debug)]
pub struct PendingTransfer {
    pub sender: AccountId,
    pub receiver: AccountId,
    pub amount: u128,
    pub payload: String,
}

impl PendingTransfer {
    /// Every token issued by [`Ledger::transfer_and_notify`] satisfies
    /// this: the two parties differ and the amount is positive.
    pub open spec fn wf(self) -> bool {
        &&& self.sender@ != self.receiver@
        &&& self.amount > 0
    }
}

/// What the notified receiver reported back: how much of the amount it
/// used, or a failure signal. A reply that cannot be decoded is handed in
/// as `Failure`; a success report claiming more than the amount is equally
/// treated as malformed by the resolve step.
#[derive(Debug)]
pub enum ReceiverOutcome {
    Success { used_amount: u128 },
    Failure,
}

/// The result of the resolve step.
#[derive(Debug)]
pub struct Resolution {
    /// What the receiver keeps, for the caller's own accounting.
    pub kept: u128,
    /// What moved back to the sender.
    pub refunded: u128,
    /// The `Transfer` notification of the refund leg, present exactly when
    /// something was refunded.
    pub refund_event: Option<Event>,
    /// `ReceiverFailure` when the receiver signalled failure or made a
    /// malformed over-report; the refund is carried out all the same, so
    /// this is a report, not a refusal.
    pub failure: Option<LedgerError>,
}

/// How much of `amount` the receiver left unused: the unspent remainder on
/// a success within bounds, and everything on a failure — or on a success
/// report claiming more than `amount`, which is a malformed response and is
/// settled like a failure.
pub open spec fn unused_of(amount: u128, outcome: ReceiverOutcome) -> u128 {
    match outcome {
        ReceiverOutcome::Success { used_amount } => if used_amount <= amount {
            (amount - used_amount) as u128
        } else {
            amount
        },
        ReceiverOutcome::Failure => amount,
    }
}

/// The failure the resolve step reports: the receiver's failure signal, and
/// equally a success report of more than `amount` — a malformed response.
pub open spec fn failure_of(amount: u128, outcome: ReceiverOutcome) -> Option<LedgerError> {
    match outcome {
        ReceiverOutcome::Success { used_amount } => if used_amount <= amount {
            None
        } else {
            Some(LedgerError::ReceiverFailure)
        },
        ReceiverOutcome::Failure => Some(LedgerError::ReceiverFailure),
    }
}

/// The refund the resolve step owes under ledger `l`: the unused part,
/// capped by what the receiver still holds (the rest is forfeited), and
/// nothing at all when either party has left the ledger.
pub open spec fn refund_of(l: Ledger, p: PendingTransfer, outcome: ReceiverOutcome) -> u128 {
    let unused = unused_of(p.amount, outcome);
    if l.registered(p.sender@) && l.registered(p.receiver@) {
        if unused <= l.balance(p.receiver@) {
            unused
        } else {
            l.balance(p.receiver@)
        }
    } else {
        0u128
    }
}

/// A balance map after `amount` moved from `sender` to `receiver`.
pub open spec fn transfer_outcome(
    m: Map<Seq<char>, u128>,
    sender: Seq<char>,
    receiver: Seq<char>,
    amount: u128,
) -> Map<Seq<char>, u128> {
    m.insert(sender, (m[sender] - amount) as u128).insert(
        receiver,
        (m[receiver] + amount) as u128,
    )
}

impl Ledger {
    /// Why a transfer of `amount` from `sender` to `receiver` would be
    /// refused, if it would be: a self-transfer or a zero amount is invalid
    /// whatever else holds, an unregistered party comes next, and last a
    /// sender balance below the amount.
    pub open spec fn transfer_error(
        self,
        sender: Seq<char>,
        receiver: Seq<char>,
        amount: u128,
    ) -> Option<LedgerError> {
        if sender == receiver || amount == 0 {
            Some(LedgerError::InvalidTransfer)
        } else if !self.registered(sender) || !self.registered(receiver) {
            Some(LedgerError::NotRegistered)
        } else if amount > self.balance(sender) {
            Some(LedgerError::InsufficientBalance)
        } else {
            None
        }
    }

    /// Moves `amount` from `sender` to `receiver` as one atomic step: the
    /// withdrawal and the deposit either both happen or neither does, and a
    /// refused transfer leaves the ledger exactly as it was. Succeeds if
    /// and only if [`Self::transfer_error`] names no error; the receiving
    /// side can never overflow, because under the supply invariant two
    /// distinct balances never sum past the total supply. Returns the
    /// `Transfer` notification for the log sink.
    pub fn transfer(
        &mut self,
        sender: &AccountId,
        receiver: &AccountId,
        amount: u128,
        memo: Option<String>,
    ) -> (r: Result<Event, LedgerError>)
        requires
            old(self).inv(),
        ensures
            final(self).inv(),
            final(self).total_supply == old(self).total_supply,
            final(self).bytes_for_longest_account_id == old(self).bytes_for_longest_account_id,
            final(self).metadata == old(self).metadata,
            match old(self).transfer_error(sender@, receiver@, amount) {
                Some(e) => r == Err::<Event, LedgerError>(e) && *final(self) == *old(self),
                None => {
                    &&& r matches Ok(ev) && ev.is_transfer(sender@, receiver@, amount, memo)
                    &&& final(self)@ == transfer_outcome(old(self)@, sender@, receiver@, amount)
                    &&& final(self).balance(sender@) == old(self).balance(sender@) - amount
                    &&& final(self).balance(receiver@) == old(self).balance(receiver@) + amount
                    &&& forall|x: Seq<char>| x != sender@ && x != receiver@
                        ==> final(self).balance(x) == old(self).balance(x)
                    &&& forall|x: Seq<char>|
                        final(self).registered(x) == old(self).registered(x)
                },
            },
    {
        if amount == 0 || *sender == *receiver {
            return Err(LedgerError::InvalidTransfer);
        }
        let si = match self.find_index(sender) {
            Some(i) => i,
            None => { return Err(LedgerError::NotRegistered) },
        };
        let ri = match self.find_index(receiver) {
            Some(i) => i,
            None => { return Err(LedgerError::NotRegistered) },
        };
        proof {
            lemma_index_of_unique(self.accounts@, sender@, si as int);
            lemma_index_of_unique(self.accounts@, receiver@, ri as int);
        }
        let sender_balance = self.accounts[si].balance;
        if amount > sender_balance {
            return Err(LedgerError::InsufficientBalance);
        }
        proof {
            lemma_sum_two_entries(self.accounts@, si as int, ri as int);
        }
        let receiver_balance = self.accounts[ri].balance;
        let ghost s0 = self.accounts@;
        self.accounts[si].balance = sender_balance - amount;
        proof {
            crate::ledger::lemma_update_entry(s0, si as int, self.accounts@[si as int]);
        }
        let ghost s1 = self.accounts@;
        self.accounts[ri].balance = receiver_balance + amount;
        proof {
            crate::ledger::lemma_update_entry(s1, ri as int, self.accounts@[ri as int]);
            assert_maps_equal!(
                self@,
                transfer_outcome(old(self)@, sender@, receiver@, amount),
            );
        }
        Ok(Event::transfer(sender.clone(), receiver.clone(), amount, memo))
    }

    /// The optimistic half of a transfer-and-call: validates and applies
    /// the balance change exactly as [`Self::transfer`] does, emits the
    /// same `Transfer` notification, and hands back the continuation token
    /// that the caller must later pass to [`Self::resolve`] together with
    /// the receiver's outcome. The notify call itself — handing
    /// `(sender, amount, payload)` to the receiver — is the caller's
    /// cross-boundary work.
    pub fn transfer_and_notify(
        &mut self,
        sender: &AccountId,
        receiver: &AccountId,
        amount: u128,
        payload: String,
        memo: Option<String>,
    ) -> (r: Result<(PendingTransfer, Event), LedgerError>)
        requires
            old(self).inv(),
        ensures
            final(self).inv(),
            final(self).total_supply == old(self).total_supply,
            final(self).bytes_for_longest_account_id == old(self).bytes_for_longest_account_id,
            final(self).metadata == old(self).metadata,
            match old(self).transfer_error(sender@, receiver@, amount) {
                Some(e) => r == Err::<(PendingTransfer, Event), LedgerError>(e)
                    && *final(self) == *old(self),
                None => {
                    &&& r matches Ok(p) && p.0.sender@ == sender@ && p.0.receiver@ == receiver@
                        && p.0.amount == amount && p.0.payload@ == payload@ && p.0.wf()
                        && p.1.is_transfer(sender@, receiver@, amount, memo)
                    &&& final(self)@ == transfer_outcome(old(self)@, sender@, receiver@, amount)
                    &&& final(self).balance(sender@) == old(self).balance(sender@) - amount
                    &&& final(self).balance(receiver@) == old(self).balance(receiver@) + amount
                    &&& forall|x: Seq<char>| x != sender@ && x != receiver@
                        ==> final(self).balance(x) == old(self).balance(x)
                    &&& forall|x: Seq<char>|
                        final(self).registered(x) == old(self).registered(x)
                },
            },
    {
        match self.transfer(sender, receiver, amount, memo) {
            Ok(event) => {
                let pending = PendingTransfer {
                    sender: sender.clone(),
                    receiver: receiver.clone(),
                    amount,
                    payload,
                };
                Ok((pending, event))
            },
            Err(e) => Err(e),
        }
    }

    /// The resolve step of a transfer-and-notify. It always runs, reads the
    /// balances as they stand now — not as they stood at the optimistic
    /// transfer — and refunds the unused part of the amount from receiver
    /// to sender: the unspent remainder on success, all of it on failure or
    /// on a malformed over-report.
    /// When the receiver no longer holds enough, only what remains comes
    /// back and the difference is forfeited to the receiver — a defined
    /// outcome, not an error. When either party has left the ledger, no
    /// refund moves at all. Returns what the receiver kept, the refund's
    /// own `Transfer` notification when one was owed, and the receiver's
    /// failure, reported through `failure` without undoing the refund.
    pub fn resolve(&mut self, pending: &PendingTransfer, outcome: &ReceiverOutcome) -> (r:
        Resolution)
        requires
            old(self).inv(),
            pending.wf(),
        ensures
            final(self).inv(),
            final(self).total_supply == old(self).total_supply,
            final(self).bytes_for_longest_account_id == old(self).bytes_for_longest_account_id,
            final(self).metadata == old(self).metadata,
            r.refunded == refund_of(*old(self), *pending, *outcome),
            r.kept == pending.amount - r.refunded,
            r.failure == failure_of(pending.amount, *outcome),
            r.refunded > 0 ==> {
                &&& final(self)@ == transfer_outcome(
                    old(self)@,
                    pending.receiver@,
                    pending.sender@,
                    r.refunded,
                )
                &&& final(self).balance(pending.sender@) == old(self).balance(pending.sender@)
                    + r.refunded
                &&& final(self).balance(pending.receiver@) == old(self).balance(
                    pending.receiver@,
                ) - r.refunded
                &&& r.refund_event matches Some(ev) && ev.is_transfer(
                    pending.receiver@,
                    pending.sender@,
                    r.refunded,
                    None::<String>,
                )
            },
            r.refunded == 0 ==> *final(self) == *old(self) && r.refund_event matches None,
            forall|x: Seq<char>| final(self).registered(x) == old(self).registered(x),
    {
        let unused: u128 = match outcome {
            ReceiverOutcome::Success { used_amount } => {
                if *used_amount <= pending.amount {
                    pending.amount - *used_amount
                } else {
                    pending.amount
                }
            },
            ReceiverOutcome::Failure => pending.amount,
        };
        let failure: Option<LedgerError> = match outcome {
            ReceiverOutcome::Success { used_amount } => {
                if *used_amount <= pending.amount {
                    None
                } else {
                    Some(LedgerError::ReceiverFailure)
                }
            },
            ReceiverOutcome::Failure => Some(LedgerError::ReceiverFailure),
        };
        let mut refund: u128 = 0;
        if self.is_registered(&pending.sender) && self.is_registered(&pending.receiver) {
            let receiver_balance = self.balance_of(&pending.receiver);
            refund = if unused <= receiver_balance {
                unused
            } else {
                receiver_balance
            };
        }
        if refund > 0 {
            match self.transfer(&pending.receiver, &pending.sender, refund, None) {
                Ok(event) => Resolution {
                    kept: pending.amount - refund,
                    refunded: refund,
                    refund_event: Some(event),
                    failure,
                },
                Err(_) => {
                    proof {
                        assert(false);
                    }
                    Resolution { kept: 0, refunded: 0, refund_event: None, failure }
                },
            }
        } else {
            Resolution { kept: pending.amount - refund, refunded: refund, refund_event: None, failure }
        }
    }
}

} // verus!
