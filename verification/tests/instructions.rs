use whitelist::error::WhitelistError;
use whitelist::instructions::account::{Record, Whitelist, WhitelistEntry};
use whitelist::instructions::add_to_whitelist::{add_to_whitelist, AddToWhitelist};
use whitelist::instructions::authority::authorize;
use whitelist::instructions::check_whitelist::{check_whitelist, CheckWhitelist};
use whitelist::instructions::check_whitelisted::{check_whitelisted, CheckWhitelisted};
use whitelist::instructions::delete_whitelist::{delete_whitelist, DeleteWhitelist};
use whitelist::instructions::init_whitelist::{init_whitelist, InitWhitelist};
use whitelist::instructions::remove_from_whitelist::{remove_from_whitelist, RemoveFromWhitelist};
use whitelist::ledger::Ledger;
use whitelist::pubkey::Pubkey;

fn key(fill: u8) -> Pubkey {
    Pubkey::new_from_array([fill; 32])
}

/// A ledger at 10 lamports per byte in which key 1 held 2000 lamports and
/// has created the list "vip" at key 20.
fn with_list() -> Ledger {
    let mut ledger = Ledger::new(10);
    ledger.deposit(&key(1), 2000).unwrap();
    let ctx = InitWhitelist { whitelist: key(20), authority: key(1) };
    assert_eq!(init_whitelist(&mut ledger, ctx, "vip".to_string()), Ok(()));
    ledger
}

#[test]
fn init_stores_authority_and_name() {
    let ledger = with_list();
    assert_eq!(
        ledger.whitelist(&key(20)),
        Some(Whitelist { authority: key(1), name: "vip".to_string() })
    );
    assert_eq!(ledger.lamports(&key(1)), 1360);
    assert_eq!(ledger.lamports(&key(20)), 640);
}

#[test]
fn init_twice_fails_with_already_exists() {
    let mut ledger = with_list();
    let ctx = InitWhitelist { whitelist: key(20), authority: key(2) };
    assert_eq!(
        init_whitelist(&mut ledger, ctx, "other".to_string()),
        Err(WhitelistError::AlreadyExists)
    );
    assert_eq!(
        ledger.whitelist(&key(20)),
        Some(Whitelist { authority: key(1), name: "vip".to_string() })
    );
}

#[test]
fn init_without_funds_fails_with_storage_failure() {
    let mut ledger = Ledger::new(10);
    ledger.deposit(&key(1), 639).unwrap();
    let ctx = InitWhitelist { whitelist: key(20), authority: key(1) };
    assert_eq!(
        init_whitelist(&mut ledger, ctx, "vip".to_string()),
        Err(WhitelistError::StorageFailure)
    );
    assert_eq!(ledger.whitelist(&key(20)), None);
    assert_eq!(ledger.lamports(&key(1)), 639);
}

#[test]
fn check_whitelist_tells_owner_from_stranger() {
    let ledger = with_list();
    assert_eq!(check_whitelist(&ledger, CheckWhitelist { whitelist: key(20) }, key(1)), Ok(()));
    assert_eq!(
        check_whitelist(&ledger, CheckWhitelist { whitelist: key(20) }, key(2)),
        Err(WhitelistError::OwnerMismatch)
    );
    assert_eq!(
        check_whitelist(&ledger, CheckWhitelist { whitelist: key(21) }, key(1)),
        Err(WhitelistError::NotFound)
    );
}

#[test]
fn check_whitelist_does_not_take_an_entry_for_a_list() {
    let mut ledger = with_list();
    let ctx = AddToWhitelist { entry: key(30), whitelist: key(20), authority: key(1) };
    add_to_whitelist(&mut ledger, ctx, key(5)).unwrap();
    assert_eq!(
        check_whitelist(&ledger, CheckWhitelist { whitelist: key(30) }, key(1)),
        Err(WhitelistError::NotFound)
    );
}

#[test]
fn authorize_asks_for_the_recorded_authority() {
    let ledger = with_list();
    assert_eq!(authorize(&ledger, &key(20), &key(1)), Ok(()));
    assert_eq!(authorize(&ledger, &key(20), &key(2)), Err(WhitelistError::Unauthorized));
    assert_eq!(authorize(&ledger, &key(21), &key(1)), Err(WhitelistError::Unauthorized));
}

#[test]
fn delete_refunds_the_authority() {
    let mut ledger = with_list();
    let ctx = DeleteWhitelist { whitelist: key(20), authority: key(1) };
    assert_eq!(delete_whitelist(&mut ledger, ctx), Ok(()));
    assert_eq!(ledger.whitelist(&key(20)), None);
    assert_eq!(ledger.lamports(&key(1)), 2000);
    assert_eq!(ledger.lamports(&key(20)), 0);
    assert_eq!(delete_whitelist(&mut ledger, ctx), Err(WhitelistError::NotFound));
}

#[test]
fn delete_by_another_signer_fails_with_unauthorized() {
    let mut ledger = with_list();
    let ctx = DeleteWhitelist { whitelist: key(20), authority: key(2) };
    assert_eq!(delete_whitelist(&mut ledger, ctx), Err(WhitelistError::Unauthorized));
    assert_eq!(
        ledger.whitelist(&key(20)),
        Some(Whitelist { authority: key(1), name: "vip".to_string() })
    );
    assert_eq!(ledger.lamports(&key(20)), 640);
    assert_eq!(ledger.lamports(&key(2)), 0);
}

#[test]
fn delete_fails_with_storage_failure_when_the_refund_overflows() {
    let mut ledger = with_list();
    ledger.deposit(&key(1), u64::MAX - 1360).unwrap();
    let ctx = DeleteWhitelist { whitelist: key(20), authority: key(1) };
    assert_eq!(delete_whitelist(&mut ledger, ctx), Err(WhitelistError::StorageFailure));
    assert!(ledger.is_occupied(&key(20)));
}

#[test]
fn delete_does_not_take_an_entry_for_a_list() {
    let mut ledger = with_list();
    let ctx = AddToWhitelist { entry: key(30), whitelist: key(20), authority: key(1) };
    add_to_whitelist(&mut ledger, ctx, key(5)).unwrap();
    let ctx = DeleteWhitelist { whitelist: key(30), authority: key(1) };
    assert_eq!(delete_whitelist(&mut ledger, ctx), Err(WhitelistError::NotFound));
    assert!(ledger.is_occupied(&key(30)));
}

#[test]
fn add_stores_parent_and_member() {
    let mut ledger = with_list();
    let ctx = AddToWhitelist { entry: key(30), whitelist: key(20), authority: key(1) };
    assert_eq!(add_to_whitelist(&mut ledger, ctx, key(5)), Ok(()));
    assert_eq!(
        ledger.entry(&key(30)),
        Some(WhitelistEntry { parent: key(20), whitelisted: key(5) })
    );
    assert_eq!(
        ledger.record(&key(30)),
        Some(Record::WhitelistEntry(WhitelistEntry { parent: key(20), whitelisted: key(5) }))
    );
    assert_eq!(ledger.lamports(&key(1)), 720);
    assert_eq!(ledger.lamports(&key(30)), 640);
    assert_eq!(
        ledger.whitelist(&key(20)),
        Some(Whitelist { authority: key(1), name: "vip".to_string() })
    );
}

#[test]
fn add_by_another_signer_fails_with_unauthorized() {
    let mut ledger = with_list();
    ledger.deposit(&key(2), 1000).unwrap();
    let ctx = AddToWhitelist { entry: key(30), whitelist: key(20), authority: key(2) };
    assert_eq!(add_to_whitelist(&mut ledger, ctx, key(5)), Err(WhitelistError::Unauthorized));
    assert!(!ledger.is_occupied(&key(30)));
    assert_eq!(ledger.lamports(&key(2)), 1000);
}

#[test]
fn add_to_a_missing_list_fails_with_unauthorized() {
    let mut ledger = with_list();
    let ctx = AddToWhitelist { entry: key(30), whitelist: key(21), authority: key(1) };
    assert_eq!(add_to_whitelist(&mut ledger, ctx, key(5)), Err(WhitelistError::Unauthorized));
    assert!(!ledger.is_occupied(&key(30)));
}

#[test]
fn add_twice_fails_with_already_whitelisted() {
    let mut ledger = with_list();
    let ctx = AddToWhitelist { entry: key(30), whitelist: key(20), authority: key(1) };
    assert_eq!(add_to_whitelist(&mut ledger, ctx, key(5)), Ok(()));
    assert_eq!(
        add_to_whitelist(&mut ledger, ctx, key(5)),
        Err(WhitelistError::AlreadyWhitelisted)
    );
    assert_eq!(ledger.lamports(&key(1)), 720);
}

#[test]
fn add_without_funds_fails_with_storage_failure() {
    let mut ledger = Ledger::new(10);
    ledger.deposit(&key(1), 1279).unwrap();
    let ctx = InitWhitelist { whitelist: key(20), authority: key(1) };
    init_whitelist(&mut ledger, ctx, "vip".to_string()).unwrap();
    let ctx = AddToWhitelist { entry: key(30), whitelist: key(20), authority: key(1) };
    assert_eq!(add_to_whitelist(&mut ledger, ctx, key(5)), Err(WhitelistError::StorageFailure));
    assert!(!ledger.is_occupied(&key(30)));
    assert_eq!(ledger.lamports(&key(1)), 639);
}

#[test]
fn remove_refunds_the_authority() {
    let mut ledger = with_list();
    let ctx = AddToWhitelist { entry: key(30), whitelist: key(20), authority: key(1) };
    add_to_whitelist(&mut ledger, ctx, key(5)).unwrap();
    let ctx = RemoveFromWhitelist { entry: key(30), whitelist: key(20), authority: key(1) };
    assert_eq!(remove_from_whitelist(&mut ledger, ctx), Ok(()));
    assert_eq!(ledger.entry(&key(30)), None);
    assert_eq!(ledger.lamports(&key(1)), 1360);
    assert_eq!(ledger.lamports(&key(30)), 0);
    assert_eq!(remove_from_whitelist(&mut ledger, ctx), Err(WhitelistError::NotFound));
}

#[test]
fn remove_by_another_signer_fails_with_unauthorized() {
    let mut ledger = with_list();
    let ctx = AddToWhitelist { entry: key(30), whitelist: key(20), authority: key(1) };
    add_to_whitelist(&mut ledger, ctx, key(5)).unwrap();
    let ctx = RemoveFromWhitelist { entry: key(30), whitelist: key(20), authority: key(2) };
    assert_eq!(remove_from_whitelist(&mut ledger, ctx), Err(WhitelistError::Unauthorized));
    assert_eq!(
        ledger.entry(&key(30)),
        Some(WhitelistEntry { parent: key(20), whitelisted: key(5) })
    );
}

#[test]
fn remove_does_not_reach_into_another_list() {
    let mut ledger = with_list();
    ledger.deposit(&key(2), 2000).unwrap();
    let ctx = InitWhitelist { whitelist: key(21), authority: key(2) };
    init_whitelist(&mut ledger, ctx, "staff".to_string()).unwrap();
    let ctx = AddToWhitelist { entry: key(30), whitelist: key(20), authority: key(1) };
    add_to_whitelist(&mut ledger, ctx, key(5)).unwrap();
    let ctx = RemoveFromWhitelist { entry: key(30), whitelist: key(21), authority: key(2) };
    assert_eq!(remove_from_whitelist(&mut ledger, ctx), Err(WhitelistError::NotFound));
    assert!(ledger.is_occupied(&key(30)));
    let ctx = RemoveFromWhitelist { entry: key(20), whitelist: key(20), authority: key(1) };
    assert_eq!(remove_from_whitelist(&mut ledger, ctx), Err(WhitelistError::NotFound));
    assert!(ledger.is_occupied(&key(20)));
}

#[test]
fn remove_fails_with_storage_failure_when_the_refund_overflows() {
    let mut ledger = with_list();
    let ctx = AddToWhitelist { entry: key(30), whitelist: key(20), authority: key(1) };
    add_to_whitelist(&mut ledger, ctx, key(5)).unwrap();
    ledger.deposit(&key(1), u64::MAX - 720).unwrap();
    let ctx = RemoveFromWhitelist { entry: key(30), whitelist: key(20), authority: key(1) };
    assert_eq!(remove_from_whitelist(&mut ledger, ctx), Err(WhitelistError::StorageFailure));
    assert!(ledger.is_occupied(&key(30)));
}

#[test]
fn check_whitelisted_tells_parent_from_stranger() {
    let mut ledger = with_list();
    let ctx = AddToWhitelist { entry: key(30), whitelist: key(20), authority: key(1) };
    add_to_whitelist(&mut ledger, ctx, key(5)).unwrap();
    assert_eq!(
        check_whitelisted(&ledger, CheckWhitelisted { entry: key(30), whitelist: key(20) }),
        Ok(())
    );
    assert_eq!(
        check_whitelisted(&ledger, CheckWhitelisted { entry: key(30), whitelist: key(21) }),
        Err(WhitelistError::ParentMismatch)
    );
    assert_eq!(
        check_whitelisted(&ledger, CheckWhitelisted { entry: key(31), whitelist: key(20) }),
        Err(WhitelistError::NotFound)
    );
    assert_eq!(
        check_whitelisted(&ledger, CheckWhitelisted { entry: key(20), whitelist: key(20) }),
        Err(WhitelistError::NotFound)
    );
}
