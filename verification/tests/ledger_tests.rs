use ft_ledger::account::AccountId;
use ft_ledger::error::LedgerError;
use ft_ledger::event::EventKind;
use ft_ledger::ledger::Ledger;
use ft_ledger::metadata::TokenMetadata;

fn acct(s: &str) -> AccountId {
    AccountId::new(s.to_string()).unwrap()
}

fn balance_sum(l: &Ledger) -> u128 {
    l.accounts.iter().map(|e| e.balance).sum()
}

#[test]
fn genesis_mints_whole_supply() {
    let owner = acct("owner");
    let (ledger, event) = Ledger::genesis(
        owner.clone(),
        1000,
        64,
        None,
        Some("Initial token supply is minted".to_string()),
    );
    assert_eq!(ledger.total_supply, 1000);
    assert_eq!(ledger.balance_of(&owner), 1000);
    assert!(ledger.is_registered(&owner));
    assert_eq!(event.kind, EventKind::Mint);
    assert_eq!(event.accounts.len(), 1);
    assert!(event.accounts[0] == owner);
    assert_eq!(event.amounts, vec![1000]);
    assert_eq!(event.memo, Some("Initial token supply is minted".to_string()));
    assert_eq!(balance_sum(&ledger), 1000);
}

#[test]
fn register_is_idempotent() {
    let owner = acct("owner");
    let bob = acct("bob");
    let (mut ledger, _) = Ledger::genesis(owner, 1000, 64, None, None);
    assert_eq!(ledger.register(&bob), Ok(()));
    assert_eq!(ledger.balance_of(&bob), 0);
    assert_eq!(ledger.register(&bob), Err(LedgerError::AlreadyRegistered));
    assert_eq!(ledger.balance_of(&bob), 0);
    // a second registration never resets an existing balance
    assert_eq!(ledger.deposit(&bob, 5), Ok(()));
    assert_eq!(ledger.register(&bob), Err(LedgerError::AlreadyRegistered));
    assert_eq!(ledger.balance_of(&bob), 5);
}

#[test]
fn unregistered_is_not_zero_balance() {
    let owner = acct("owner");
    let bob = acct("bob");
    let (mut ledger, _) = Ledger::genesis(owner, 1000, 64, None, None);
    assert!(!ledger.is_registered(&bob));
    assert_eq!(ledger.balance_of(&bob), 0);
    assert_eq!(ledger.register(&bob), Ok(()));
    assert!(ledger.is_registered(&bob));
    assert_eq!(ledger.balance_of(&bob), 0);
}

#[test]
fn deposit_and_withdraw_move_one_balance() {
    let owner = acct("owner");
    let bob = acct("bob");
    let (mut ledger, _) = Ledger::genesis(owner.clone(), 1000, 64, None, None);
    assert_eq!(ledger.register(&bob), Ok(()));
    assert_eq!(ledger.deposit(&bob, 40), Ok(()));
    assert_eq!(ledger.balance_of(&bob), 40);
    assert_eq!(ledger.withdraw(&bob, 15), Ok(()));
    assert_eq!(ledger.balance_of(&bob), 25);
    assert_eq!(ledger.balance_of(&owner), 1000);
}

#[test]
fn balance_ops_need_registration() {
    let owner = acct("owner");
    let ghost = acct("nobody");
    let (mut ledger, _) = Ledger::genesis(owner, 1000, 64, None, None);
    assert_eq!(ledger.deposit(&ghost, 5), Err(LedgerError::NotRegistered));
    assert_eq!(ledger.withdraw(&ghost, 5), Err(LedgerError::NotRegistered));
    assert!(!ledger.is_registered(&ghost));
}

#[test]
fn deposit_overflow_is_refused() {
    let owner = acct("owner");
    let (mut ledger, _) = Ledger::genesis(owner.clone(), u128::MAX, 64, None, None);
    assert_eq!(ledger.deposit(&owner, 1), Err(LedgerError::Overflow));
    assert_eq!(ledger.balance_of(&owner), u128::MAX);
}

#[test]
fn withdraw_beyond_balance_fails_and_changes_nothing() {
    let owner = acct("owner");
    let bob = acct("bob");
    let (mut ledger, _) = Ledger::genesis(owner, 1000, 64, None, None);
    assert_eq!(ledger.register(&bob), Ok(()));
    assert_eq!(ledger.deposit(&bob, 50), Ok(()));
    assert_eq!(ledger.withdraw(&bob, 51), Err(LedgerError::InsufficientBalance));
    assert_eq!(ledger.balance_of(&bob), 50);
    assert_eq!(ledger.withdraw(&bob, u128::MAX), Err(LedgerError::InsufficientBalance));
    assert_eq!(ledger.balance_of(&bob), 50);
}

#[test]
fn emptying_an_account_stops_at_zero() {
    let owner = acct("owner");
    let bob = acct("bob");
    let (mut ledger, _) = Ledger::genesis(owner, 1000, 64, None, None);
    assert_eq!(ledger.register(&bob), Ok(()));
    assert_eq!(ledger.deposit(&bob, 10), Ok(()));
    assert_eq!(ledger.withdraw(&bob, 10), Ok(()));
    assert_eq!(ledger.balance_of(&bob), 0);
    assert_eq!(ledger.withdraw(&bob, 1), Err(LedgerError::InsufficientBalance));
    assert_eq!(ledger.balance_of(&bob), 0);
}

#[test]
fn supply_invariant_holds_across_operations() {
    let owner = acct("owner");
    let bob = acct("bob");
    let carol = acct("carol");
    let (mut ledger, _) = Ledger::genesis(owner.clone(), 1000, 64, None, None);
    assert_eq!(balance_sum(&ledger), ledger.total_supply);
    assert_eq!(ledger.register(&bob), Ok(()));
    assert_eq!(balance_sum(&ledger), ledger.total_supply);
    assert_eq!(ledger.register(&carol), Ok(()));
    assert!(ledger.transfer(&owner, &bob, 300, None).is_ok());
    assert_eq!(balance_sum(&ledger), ledger.total_supply);
    assert!(ledger.transfer(&bob, &carol, 100, None).is_ok());
    assert_eq!(balance_sum(&ledger), ledger.total_supply);
    assert_eq!(ledger.total_supply, 1000);
}

#[test]
fn account_id_length_is_validated() {
    assert!(AccountId::new(String::new()).is_none());
    assert!(AccountId::new("a".repeat(65)).is_none());
    assert!(AccountId::new("a".repeat(64)).is_some());
    let a = AccountId::new("alice".to_string()).unwrap();
    assert_eq!(a.as_string().as_str(), "alice");
}

#[test]
fn metadata_is_stored_opaquely() {
    let owner = acct("owner");
    let meta = TokenMetadata {
        spec_version: "ft-1.0.0".to_string(),
        name: "Spudcoin".to_string(),
        symbol: "SPUD".to_string(),
        icon: None,
        decimals: 24,
    };
    let (ledger, _) = Ledger::genesis(owner, 1000, 64, Some(meta), None);
    let stored = ledger.metadata.as_ref().unwrap();
    assert_eq!(stored.spec_version, "ft-1.0.0");
    assert_eq!(stored.name, "Spudcoin");
    assert_eq!(stored.symbol, "SPUD");
    assert_eq!(stored.icon, None);
    assert_eq!(stored.decimals, 24);
}
