use vstd::prelude::*;
use crate::account::{AccountId, MAX_ACCOUNT_ID_LEN};
use crate::error::LedgerError;
use crate::ledger::Ledger;

verus! {

/// Prefixes that keep the persisted collections of the ledger apart from
/// one another in a flat key-value store: one namespace for the account
/// entries, one for the metadata record.
#[derive(Clone, Copy, Debug, PartialEq, Eq, Structural)]
pub enum StorageKey {
    Accounts,
    Metadata,
}

impl StorageKey {
    /// The byte each namespace is keyed under.
    pub open spec fn spec_prefix_byte(self) -> u8 {
        match self {
            StorageKey::Accounts => 0u8,
            StorageKey::Metadata => 1u8,
        }
    }

    /// The byte each namespace is keyed under; distinct for distinct keys.
    pub fn prefix_byte(&self) -> (r: u8)
        ensures
            r == self.spec_prefix_byte(),
    {
        match self {
            StorageKey::Accounts => 0,
            StorageKey::Metadata => 1,
        }
    }
}

/// The synthetic account identifier of the worst-case storage footprint: a
/// maximum-length identifier of one repeated character. The storage layer
/// registers a record under it, measures the byte delta, and removes it
/// again; it never enters the live account set, which the ledger guarantees
/// by never inserting it itself.
pub fn worst_case_account_id() -> (r: AccountId)
    ensures
        r@.len() == MAX_ACCOUNT_ID_LEN as int,
        AccountId::spec_valid(r@),
        forall|i: int| 0 <= i < r@.len() ==> r@[i] == 'a',
{
    let s: &str = "aaaaaaaaaaaaaaaaaaaaaaaaaaaaaaaaaaaaaaaaaaaaaaaaaaaaaaaaaaaaaaaa";
    proof {
        reveal_strlit("aaaaaaaaaaaaaaaaaaaaaaaaaaaaaaaaaaaaaaaaaaaaaaaaaaaaaaaaaaaaaaaa");
    }
    AccountId { id: s.to_owned() }
}

/// The one-time genesis calibration: given the storage layer's byte usage
/// before and after the worst-case record was written, the cost of one
/// account entry is their difference. A shrinking usage cannot be a
/// measurement and is refused.
pub fn measure_registration_cost(usage_before: u64, usage_after: u64) -> (r: Result<
    u64,
    LedgerError,
>)
    ensures
        usage_after >= usage_before ==> r == Ok::<u64, LedgerError>(
            (usage_after - usage_before) as u64,
        ),
        usage_after < usage_before ==> r == Err::<u64, LedgerError>(LedgerError::Overflow),
{
    if usage_after >= usage_before {
        Ok(usage_after - usage_before)
    } else {
        Err(LedgerError::Overflow)
    }
}

impl Ledger {
    /// The deposit a caller must attach to register `id`, quoted as the
    /// worst-case entry footprint times the externally supplied price per
    /// byte. For a shorter identifier this over-estimates by design —
    /// simplicity over precision; the external layer refunds any excess —
    /// so the quote does not depend on `id` at all.
    #[allow(unused_variables)]
    pub fn required_deposit_for(&self, id: &AccountId, storage_price_per_byte: u128) -> (r:
        Result<u128, LedgerError>)
        ensures
            self.bytes_for_longest_account_id * storage_price_per_byte <= u128::MAX ==> r
                == Ok::<u128, LedgerError>(
                (self.bytes_for_longest_account_id * storage_price_per_byte) as u128,
            ),
            self.bytes_for_longest_account_id * storage_price_per_byte > u128::MAX ==> r
                == Err::<u128, LedgerError>(LedgerError::Overflow),
    {
        let bytes = self.bytes_for_longest_account_id as u128;
        match bytes.checked_mul(storage_price_per_byte) {
            Some(cost) => Ok(cost),
            None => Err(LedgerError::Overflow),
        }
    }
}

} // verus!
