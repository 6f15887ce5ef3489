use vstd::prelude::*;
use crate::account::AccountId;

verus! {

/// Which notification an [`Event`] carries.
///
/// `Mint` is raised once, at genesis. `Transfer` is raised for every
/// successful balance movement, refund legs included. `Burn` has no raising
/// site in this ledger; the variant exists as the extension point for one.
#[derive(Clone, Copy, Debug, PartialEq, Eq, Structural)]
pub enum EventKind {
    Mint,
    Transfer,
    Burn,
}

/// A structured notification for an external, append-only log sink.
///
/// `accounts` and `amounts` are parallel lists: `amounts[i]` moved to (or
/// from) `accounts[i]`. The ledger only emits events; it never reads them
/// back.
#[derive(Debug)]
pub struct Event {
    pub kind: EventKind,
    pub accounts: Vec<AccountId>,
    pub amounts: Vec<u128>,
    pub memo: Option<String>,
}

impl Event {
    /// A mint notification naming one owner and the minted amount.
    pub open spec fn is_mint(self, owner: Seq<char>, amount: u128, memo: Option<String>) -> bool {
        &&& self.kind == EventKind::Mint
        &&& self.accounts@.len() == 1
        &&& self.accounts@[0]@ == owner
        &&& self.amounts@ == seq![amount]
        &&& self.memo == memo
    }

    /// A transfer notification naming the two accounts, sender first, and the
    /// single amount that moved between them.
    pub open spec fn is_transfer(
        self,
        sender: Seq<char>,
        receiver: Seq<char>,
        amount: u128,
        memo: Option<String>,
    ) -> bool {
        &&& self.kind == EventKind::Transfer
        &&& self.accounts@.len() == 2
        &&& self.accounts@[0]@ == sender
        &&& self.accounts@[1]@ == receiver
        &&& self.amounts@ == seq![amount]
        &&& self.memo == memo
    }

    /// Builds the mint notification for `owner` over `amount`.
    pub fn mint(owner: AccountId, amount: u128, memo: Option<String>) -> (r: Event)
        ensures
            r.is_mint(owner@, amount, memo),
    {
        let mut accounts: Vec<AccountId> = Vec::new();
        accounts.push(owner);
        let mut amounts: Vec<u128> = Vec::new();
        amounts.push(amount);
        proof {
            assert(amounts@ =~= seq![amount]);
        }
        Event { kind: EventKind::Mint, accounts, amounts, memo }
    }

    /// Builds the transfer notification for `amount` moving from `sender` to
    /// `receiver`.
    pub fn transfer(sender: AccountId, receiver: AccountId, amount: u128, memo: Option<String>) -> (r: Event)
        ensures
            r.is_transfer(sender@, receiver@, amount, memo),
    {
        let mut accounts: Vec<AccountId> = Vec::new();
        accounts.push(sender);
        accounts.push(receiver);
        let mut amounts: Vec<u128> = Vec::new();
        amounts.push(amount);
        proof {
            assert(amounts@ =~= seq![amount]);
        }
        Event { kind: EventKind::Transfer, accounts, amounts, memo }
    }
}

} // verus!
