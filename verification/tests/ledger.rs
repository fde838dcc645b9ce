use whitelist::error::LedgerError;
use whitelist::instructions::account::{Record, Whitelist, WhitelistEntry};
use whitelist::ledger::Ledger;
use whitelist::pubkey::Pubkey;

fn key(fill: u8) -> Pubkey {
    Pubkey::new_from_array([fill; 32])
}

fn root(authority: Pubkey, name: &str) -> Record {
    Record::Whitelist(Whitelist { authority, name: name.to_string() })
}

#[test]
fn new_ledger_is_empty() {
    let ledger = Ledger::new(7);
    assert_eq!(ledger.lamports_per_byte(), 7);
    assert_eq!(ledger.lamports(&key(1)), 0);
    assert_eq!(ledger.record(&key(1)), None);
    assert!(!ledger.is_occupied(&key(1)));
}

#[test]
fn rent_is_rate_times_size() {
    let ledger = Ledger::new(10);
    assert_eq!(ledger.rent(64), Some(640));
    assert_eq!(ledger.rent(0), Some(0));
    assert_eq!(Ledger::new(0).rent(64), Some(0));
    assert_eq!(Ledger::new(u64::MAX).rent(1), Some(u64::MAX));
    assert_eq!(Ledger::new(u64::MAX).rent(2), None);
}

#[test]
fn sizes_are_sixty_four_bytes() {
    assert_eq!(Whitelist::SIZE, 64);
    assert_eq!(WhitelistEntry::SIZE, 64);
}

#[test]
fn deposit_adds_up() {
    let mut ledger = Ledger::new(1);
    assert_eq!(ledger.deposit(&key(1), 5), Ok(()));
    assert_eq!(ledger.deposit(&key(1), 6), Ok(()));
    assert_eq!(ledger.deposit(&key(2), 1), Ok(()));
    assert_eq!(ledger.lamports(&key(1)), 11);
    assert_eq!(ledger.lamports(&key(2)), 1);
    assert_eq!(ledger.lamports(&key(3)), 0);
}

#[test]
fn deposit_refuses_overflow() {
    let mut ledger = Ledger::new(1);
    assert_eq!(ledger.deposit(&key(1), u64::MAX), Ok(()));
    assert_eq!(ledger.deposit(&key(1), 1), Err(LedgerError::BalanceOverflow));
    assert_eq!(ledger.lamports(&key(1)), u64::MAX);
    assert_eq!(ledger.deposit(&key(1), 0), Ok(()));
}

#[test]
fn allocate_moves_the_deposit_and_stores_the_record() {
    let mut ledger = Ledger::new(10);
    ledger.deposit(&key(1), 1000).unwrap();
    ledger.deposit(&key(9), 3).unwrap();
    assert_eq!(ledger.allocate(&key(9), 64, &key(1), root(key(1), "vip")), Ok(()));
    assert_eq!(ledger.lamports(&key(1)), 360);
    assert_eq!(ledger.lamports(&key(9)), 643);
    assert!(ledger.is_occupied(&key(9)));
    assert_eq!(ledger.record(&key(9)), Some(root(key(1), "vip")));
    assert_eq!(
        ledger.whitelist(&key(9)),
        Some(Whitelist { authority: key(1), name: "vip".to_string() })
    );
    assert_eq!(ledger.entry(&key(9)), None);
    assert_eq!(ledger.record(&key(1)), None);
}

#[test]
fn allocate_refuses_an_occupied_address() {
    let mut ledger = Ledger::new(1);
    ledger.deposit(&key(1), 1000).unwrap();
    ledger.allocate(&key(9), 64, &key(1), root(key(1), "a")).unwrap();
    assert_eq!(
        ledger.allocate(&key(9), 64, &key(1), root(key(1), "b")),
        Err(LedgerError::AlreadyOccupied)
    );
    assert_eq!(ledger.record(&key(9)), Some(root(key(1), "a")));
    assert_eq!(ledger.lamports(&key(1)), 936);
}

#[test]
fn allocate_refuses_a_payer_without_funds() {
    let mut ledger = Ledger::new(10);
    ledger.deposit(&key(1), 639).unwrap();
    assert_eq!(
        ledger.allocate(&key(9), 64, &key(1), root(key(1), "a")),
        Err(LedgerError::InsufficientFunds)
    );
    assert_eq!(ledger.lamports(&key(1)), 639);
    assert!(!ledger.is_occupied(&key(9)));
    ledger.deposit(&key(1), 1).unwrap();
    assert_eq!(ledger.allocate(&key(9), 64, &key(1), root(key(1), "a")), Ok(()));
    assert_eq!(ledger.lamports(&key(1)), 0);
}

#[test]
fn allocate_refuses_a_deposit_beyond_any_balance() {
    let mut ledger = Ledger::new(u64::MAX);
    ledger.deposit(&key(1), u64::MAX).unwrap();
    assert_eq!(
        ledger.allocate(&key(9), 64, &key(1), root(key(1), "a")),
        Err(LedgerError::InsufficientFunds)
    );
}

#[test]
fn allocate_refuses_an_account_that_cannot_take_the_deposit() {
    let mut ledger = Ledger::new(1);
    ledger.deposit(&key(1), 64).unwrap();
    ledger.deposit(&key(9), u64::MAX - 63).unwrap();
    assert_eq!(
        ledger.allocate(&key(9), 64, &key(1), root(key(1), "a")),
        Err(LedgerError::BalanceOverflow)
    );
    assert_eq!(ledger.lamports(&key(1)), 64);
    assert_eq!(ledger.lamports(&key(9)), u64::MAX - 63);
    assert!(!ledger.is_occupied(&key(9)));
}

#[test]
fn allocate_at_the_payers_own_address_keeps_the_balance() {
    let mut ledger = Ledger::new(1);
    ledger.deposit(&key(1), 100).unwrap();
    assert_eq!(ledger.allocate(&key(1), 64, &key(1), root(key(1), "a")), Ok(()));
    assert_eq!(ledger.lamports(&key(1)), 100);
    assert!(ledger.is_occupied(&key(1)));
}

#[test]
fn close_refunds_everything_and_removes_the_record() {
    let mut ledger = Ledger::new(10);
    ledger.deposit(&key(1), 1000).unwrap();
    ledger.deposit(&key(9), 5).unwrap();
    let entry = Record::WhitelistEntry(WhitelistEntry { parent: key(3), whitelisted: key(4) });
    ledger.allocate(&key(9), 64, &key(1), entry).unwrap();
    assert_eq!(
        ledger.entry(&key(9)),
        Some(WhitelistEntry { parent: key(3), whitelisted: key(4) })
    );
    assert_eq!(ledger.whitelist(&key(9)), None);
    assert_eq!(ledger.close(&key(9), &key(2)), Ok(()));
    assert_eq!(ledger.lamports(&key(9)), 0);
    assert_eq!(ledger.lamports(&key(2)), 645);
    assert_eq!(ledger.lamports(&key(1)), 360);
    assert_eq!(ledger.record(&key(9)), None);
    assert!(!ledger.is_occupied(&key(9)));
}

#[test]
fn close_refuses_an_empty_address() {
    let mut ledger = Ledger::new(10);
    ledger.deposit(&key(9), 5).unwrap();
    assert_eq!(ledger.close(&key(9), &key(2)), Err(LedgerError::NotFound));
    assert_eq!(ledger.close(&key(8), &key(2)), Err(LedgerError::NotFound));
    assert_eq!(ledger.lamports(&key(9)), 5);
    assert_eq!(ledger.lamports(&key(2)), 0);
}

#[test]
fn close_refuses_a_refund_that_overflows() {
    let mut ledger = Ledger::new(1);
    ledger.deposit(&key(1), 64).unwrap();
    ledger.allocate(&key(9), 64, &key(1), root(key(1), "a")).unwrap();
    ledger.deposit(&key(2), u64::MAX - 63).unwrap();
    assert_eq!(ledger.close(&key(9), &key(2)), Err(LedgerError::BalanceOverflow));
    assert!(ledger.is_occupied(&key(9)));
    assert_eq!(ledger.lamports(&key(9)), 64);
    assert_eq!(ledger.close(&key(9), &key(1)), Ok(()));
    assert_eq!(ledger.lamports(&key(1)), 64);
}

#[test]
fn close_with_refund_to_itself_keeps_the_balance() {
    let mut ledger = Ledger::new(1);
    ledger.deposit(&key(1), 64).unwrap();
    ledger.allocate(&key(9), 64, &key(1), root(key(1), "a")).unwrap();
    assert_eq!(ledger.close(&key(9), &key(9)), Ok(()));
    assert_eq!(ledger.lamports(&key(9)), 64);
    assert!(!ledger.is_occupied(&key(9)));
}

#[test]
fn pubkey_round_trips_its_bytes() {
    let mut bytes = [0u8; 32];
    for (i, byte) in bytes.iter_mut().enumerate() {
        *byte = i as u8;
    }
    let key = Pubkey::new_from_array(bytes);
    assert_eq!(key.to_bytes(), bytes);
    assert_eq!(key.to_vec(), bytes.to_vec());
    assert_eq!(key, Pubkey::new_from_array(bytes));
    bytes[31] = 0;
    assert_ne!(key, Pubkey::new_from_array(bytes));
}
