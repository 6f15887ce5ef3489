use ft_ledger::account::AccountId;
use ft_ledger::error::LedgerError;
use ft_ledger::ledger::Ledger;
use ft_ledger::storage::{measure_registration_cost, worst_case_account_id, StorageKey};
use ft_ledger::event::{Event, EventKind};

fn acct(s: &str) -> AccountId {
    AccountId::new(s.to_string()).unwrap()
}

#[test]
fn worst_case_id_fills_the_maximum_length() {
    let id = worst_case_account_id();
    assert_eq!(id.as_string().len(), 64);
    assert!(id.as_string().chars().all(|c| c == 'a'));
}

#[test]
fn measurement_is_the_usage_delta() {
    assert_eq!(measure_registration_cost(100, 164), Ok(64));
    assert_eq!(measure_registration_cost(5, 5), Ok(0));
    assert_eq!(
        measure_registration_cost(164, 100),
        Err(LedgerError::Overflow)
    );
}

#[test]
fn required_deposit_multiplies_bytes_by_price() {
    let owner = acct("owner");
    let bob = acct("bob");
    let (ledger, _) = Ledger::genesis(owner, 1000, 64, None, None);
    assert_eq!(ledger.required_deposit_for(&bob, 10), Ok(640));
    assert_eq!(ledger.required_deposit_for(&bob, 0), Ok(0));
    // the quote is the worst case whatever the identifier
    let short = acct("b");
    assert_eq!(ledger.required_deposit_for(&short, 10), Ok(640));
}

#[test]
fn required_deposit_overflow_is_refused() {
    let owner = acct("owner");
    let bob = acct("bob");
    let (ledger, _) = Ledger::genesis(owner, 1000, u64::MAX, None, None);
    assert_eq!(
        ledger.required_deposit_for(&bob, u128::MAX),
        Err(LedgerError::Overflow)
    );
}

#[test]
fn storage_namespaces_are_kept_apart() {
    assert_eq!(StorageKey::Accounts.prefix_byte(), 0);
    assert_eq!(StorageKey::Metadata.prefix_byte(), 1);
    assert_ne!(
        StorageKey::Accounts.prefix_byte(),
        StorageKey::Metadata.prefix_byte()
    );
}

#[test]
fn event_builders_shape_the_notifications() {
    let owner = acct("owner");
    let bob = acct("bob");
    let mint = Event::mint(owner.clone(), 7, Some("m".to_string()));
    assert_eq!(mint.kind, EventKind::Mint);
    assert_eq!(mint.accounts.len(), 1);
    assert!(mint.accounts[0] == owner);
    assert_eq!(mint.amounts, vec![7]);
    assert_eq!(mint.memo, Some("m".to_string()));

    let transfer = Event::transfer(owner.clone(), bob.clone(), 9, None);
    assert_eq!(transfer.kind, EventKind::Transfer);
    assert_eq!(transfer.accounts.len(), 2);
    assert!(transfer.accounts[0] == owner);
    assert!(transfer.accounts[1] == bob);
    assert_eq!(transfer.amounts, vec![9]);
    assert_eq!(transfer.memo, None);
}
