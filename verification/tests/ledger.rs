use flipper::{AccountId, Ledger};

fn account(w: u64) -> AccountId {
    AccountId::from_u64(w)
}

#[test]
fn empty_ledger_answers_absent() {
    let ledger = Ledger::new();
    assert_eq!(ledger.get(account(0)), None);
}

#[test]
fn insert_then_get() {
    let mut ledger = Ledger::new();
    ledger.insert(account(1), 100);
    ledger.insert(account(2), 200);
    assert_eq!(ledger.get(account(1)), Some(100));
    assert_eq!(ledger.get(account(2)), Some(200));
    assert_eq!(ledger.get(account(3)), None);
}

#[test]
fn insert_overwrites_only_its_key() {
    let mut ledger = Ledger::new();
    ledger.insert(account(1), 1);
    ledger.insert(account(2), 2);
    ledger.insert(account(1), 10);
    assert_eq!(ledger.get(account(1)), Some(10));
    assert_eq!(ledger.get(account(2)), Some(2));
}

#[test]
fn largest_amount_is_stored_verbatim() {
    let mut ledger = Ledger::new();
    ledger.insert(account(1), u128::MAX);
    assert_eq!(ledger.get(account(1)), Some(u128::MAX));
}
