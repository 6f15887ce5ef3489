use vstd::prelude::*;

verus! {

/// Why a ledger operation was refused.
///
/// A refused operation never changes ledger state: every mutation is
/// all-or-nothing.
#[derive(Clone, Copy, Debug, PartialEq, Eq, Structural)]
pub enum LedgerError {
    /// The account has no entry in the ledger.
    NotRegistered,
    /// The account already has an entry; the registration left it untouched.
    AlreadyRegistered,
    /// A withdrawal asked for more than the account holds.
    InsufficientBalance,
    /// An arithmetic result would not fit its integer range.
    Overflow,
    /// A transfer of a zero amount, or from an account to itself.
    InvalidTransfer,
    /// The notified receiver signalled failure.
    ReceiverFailure,
}

} // verus!
