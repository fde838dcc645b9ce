//! The entry points of the program.
//!
//! Each takes the signer of the transaction, where there must be one, and the
//! arguments of the instruction. It first derives the address of every record
//! that the instruction touches, and then runs the instruction on the accounts
//! at those addresses. A caller never supplies a derived address or a bump
//! seed.

use crate::error::WhitelistError;
use crate::instructions::account::RecordView;
use crate::instructions::add_to_whitelist::AddToWhitelist;
use crate::instructions::check_whitelist::CheckWhitelist;
use crate::instructions::check_whitelisted::CheckWhitelisted;
use crate::instructions::delete_whitelist::DeleteWhitelist;
use crate::instructions::init_whitelist::InitWhitelist;
use crate::instructions::remove_from_whitelist::RemoveFromWhitelist;
use crate::laws::lemma_records_stay_in_place;
use crate::ledger::{ledger_follows, Ledger, LedgerView};
use crate::pda::{
    entry_address, find_entry_address, find_whitelist_address, whitelist_address, MAX_SEED_LEN,
};
use crate::pubkey::Pubkey;
use vstd::prelude::*;
use vstd::utf8::encode_utf8;

verus! {

/// Where the list `name` of `authority` is stored, if an address can be
/// derived for it.
pub open spec fn whitelist_key(authority: Seq<u8>, name: Seq<char>) -> Option<Seq<u8>> {
    match whitelist_address(authority, encode_utf8(name)) {
        Some((address, _)) => Some(address),
        None => None,
    }
}

/// Where the entry of `member` in the list stored at `whitelist` is stored,
/// if an address can be derived for it.
pub open spec fn entry_key(member: Seq<u8>, whitelist: Seq<u8>) -> Option<Seq<u8>> {
    match entry_address(member, whitelist) {
        Some((address, _)) => Some(address),
        None => None,
    }
}

/// Whether the record stored at `address`, if any, is stored where its own
/// fields say: a root record at the address derived from its authority and
/// name, a membership record at the address derived from its member and
/// parent.
pub open spec fn is_in_place(ledger: LedgerView, address: Seq<u8>) -> bool {
    match ledger.record(address) {
        Some(RecordView::Whitelist(root)) => whitelist_key(root.authority, root.name) == Some(
            address,
        ),
        Some(RecordView::WhitelistEntry(entry)) => entry_key(entry.whitelisted, entry.parent)
            == Some(address),
        None => true,
    }
}

/// Whether every record of the ledger is stored at the address derived from
/// its own fields. Then there is at most one list for each authority and name,
/// and at most one entry for each member and list. It holds of a ledger
/// without records, and every entry point of the program keeps it.
pub open spec fn is_canonical(ledger: LedgerView) -> bool {
    forall|address: Seq<u8>| #[trigger] is_in_place(ledger, address)
}

/// What comes of `authority` creating the list `name`.
pub open spec fn init_whitelist_outcome(
    ledger: LedgerView,
    authority: Seq<u8>,
    name: Seq<char>,
) -> Result<LedgerView, WhitelistError> {
    match whitelist_key(authority, name) {
        None => Err(WhitelistError::StorageFailure),
        Some(whitelist) => crate::instructions::init_whitelist::init_whitelist_outcome(
            ledger,
            whitelist,
            authority,
            name,
        ),
    }
}

/// What comes of `authority` deleting its list `name`.
pub open spec fn delete_whitelist_outcome(
    ledger: LedgerView,
    authority: Seq<u8>,
    name: Seq<char>,
) -> Result<LedgerView, WhitelistError> {
    match whitelist_key(authority, name) {
        None => Err(WhitelistError::NotFound),
        Some(whitelist) => crate::instructions::delete_whitelist::delete_whitelist_outcome(
            ledger,
            whitelist,
            authority,
        ),
    }
}

/// Whether the list `name` of `owner` exists.
pub open spec fn check_whitelist_outcome(
    ledger: LedgerView,
    owner: Seq<u8>,
    name: Seq<char>,
) -> Result<(), WhitelistError> {
    match whitelist_key(owner, name) {
        None => Err(WhitelistError::NotFound),
        Some(whitelist) => crate::instructions::check_whitelist::check_whitelist_outcome(
            ledger,
            whitelist,
            owner,
        ),
    }
}

/// What comes of `authority` adding `account_to_add` to the list stored at
/// `whitelist`.
pub open spec fn add_to_whitelist_outcome(
    ledger: LedgerView,
    authority: Seq<u8>,
    whitelist: Seq<u8>,
    account_to_add: Seq<u8>,
) -> Result<LedgerView, WhitelistError> {
    match entry_key(account_to_add, whitelist) {
        None => Err(WhitelistError::StorageFailure),
        Some(entry) => crate::instructions::add_to_whitelist::add_to_whitelist_outcome(
            ledger,
            entry,
            whitelist,
            authority,
            account_to_add,
        ),
    }
}

/// What comes of `authority` removing `account_to_delete` from the list
/// stored at `whitelist`.
pub open spec fn remove_from_whitelist_outcome(
    ledger: LedgerView,
    authority: Seq<u8>,
    whitelist: Seq<u8>,
    account_to_delete: Seq<u8>,
) -> Result<LedgerView, WhitelistError> {
    match entry_key(account_to_delete, whitelist) {
        None => Err(WhitelistError::NotFound),
        Some(entry) => crate::instructions::remove_from_whitelist::remove_from_whitelist_outcome(
            ledger,
            entry,
            whitelist,
            authority,
        ),
    }
}

/// Whether `account_to_check` is a member of the list stored at `whitelist`.
pub open spec fn check_whitelisted_outcome(
    ledger: LedgerView,
    whitelist: Seq<u8>,
    account_to_check: Seq<u8>,
) -> Result<(), WhitelistError> {
    match entry_key(account_to_check, whitelist) {
        None => Err(WhitelistError::NotFound),
        Some(entry) => crate::instructions::check_whitelisted::check_whitelisted_outcome(
            ledger,
            entry,
            whitelist,
        ),
    }
}

/// Creates the list `name` of `authority`, the signer of the transaction,
/// who pays for the root record.
///
/// The record goes to the address derived from `authority` and `name`, and
/// holds both. Fails with `StorageFailure` where no address can be derived,
/// as for every name longer than 32 bytes, with `AlreadyExists` where a record
/// is already stored at the address, and with `StorageFailure` where the
/// authority cannot pay the deposit or the account cannot take it.
pub fn init_whitelist(ledger: &mut Ledger, authority: Pubkey, name: String) -> (result: Result<
    (),
    WhitelistError,
>)
    ensures
        ledger_follows(
            init_whitelist_outcome(old(ledger)@, authority@, name@),
            old(ledger)@,
            result,
            final(ledger)@,
        ),
        encode_utf8(name@).len() > MAX_SEED_LEN ==> result == Err::<(), WhitelistError>(
            WhitelistError::StorageFailure,
        ),
        is_canonical(old(ledger)@) ==> is_canonical(final(ledger)@),
{
    proof {
        if is_canonical(ledger@) {
            lemma_records_stay_in_place(ledger@, authority@, name@, authority@, authority@);
        }
    }
    match find_whitelist_address(&authority, name.as_str()) {
        None => Err(WhitelistError::StorageFailure),
        Some((whitelist, _)) => crate::instructions::init_whitelist::init_whitelist(
            ledger,
            InitWhitelist { whitelist, authority },
            name,
        ),
    }
}

/// Deletes the list `name` of `authority`, the signer of the transaction,
/// who receives all that the record's account holds.
///
/// Fails with `NotFound` where no address can be derived or no root record is
/// stored at the derived address, with `Unauthorized` where the record names
/// another authority, and with `StorageFailure` where the authority's account
/// cannot take the refund.
pub fn delete_whitelist(ledger: &mut Ledger, authority: Pubkey, name: String) -> (result: Result<
    (),
    WhitelistError,
>)
    ensures
        ledger_follows(
            delete_whitelist_outcome(old(ledger)@, authority@, name@),
            old(ledger)@,
            result,
            final(ledger)@,
        ),
        encode_utf8(name@).len() > MAX_SEED_LEN ==> result == Err::<(), WhitelistError>(
            WhitelistError::NotFound,
        ),
        is_canonical(old(ledger)@) ==> is_canonical(final(ledger)@),
{
    proof {
        if is_canonical(ledger@) {
            lemma_records_stay_in_place(ledger@, authority@, name@, authority@, authority@);
        }
    }
    match find_whitelist_address(&authority, name.as_str()) {
        None => Err(WhitelistError::NotFound),
        Some((whitelist, _)) => crate::instructions::delete_whitelist::delete_whitelist(
            ledger,
            DeleteWhitelist { whitelist, authority },
        ),
    }
}

/// Succeeds where the list `name` of `owner` exists.
///
/// Fails with `NotFound` where no address can be derived or no root record is
/// stored at the derived address, and with `OwnerMismatch` where the record
/// names another authority than `owner`.
pub fn check_whitelist(ledger: &Ledger, owner: Pubkey, name: String) -> (result: Result<
    (),
    WhitelistError,
>)
    ensures
        result == check_whitelist_outcome(ledger@, owner@, name@),
        encode_utf8(name@).len() > MAX_SEED_LEN ==> result == Err::<(), WhitelistError>(
            WhitelistError::NotFound,
        ),
{
    match find_whitelist_address(&owner, name.as_str()) {
        None => Err(WhitelistError::NotFound),
        Some((whitelist, _)) => crate::instructions::check_whitelist::check_whitelist(
            ledger,
            CheckWhitelist { whitelist },
            owner,
        ),
    }
}

/// Adds `account_to_add` to the list stored at `whitelist`, for `authority`,
/// the signer of the transaction, who pays for the membership record.
///
/// The record goes to the address derived from `account_to_add` and
/// `whitelist`, and holds both. Fails with `StorageFailure` where no address
/// can be derived, with `Unauthorized` where no root record is stored at
/// `whitelist` or it names another authority, with `AlreadyWhitelisted` where
/// a record is already stored at the derived address, and with
/// `StorageFailure` where the authority cannot pay the deposit or the account
/// cannot take it.
pub fn add_to_whitelist(
    ledger: &mut Ledger,
    authority: Pubkey,
    whitelist: Pubkey,
    account_to_add: Pubkey,
) -> (result: Result<(), WhitelistError>)
    ensures
        ledger_follows(
            add_to_whitelist_outcome(old(ledger)@, authority@, whitelist@, account_to_add@),
            old(ledger)@,
            result,
            final(ledger)@,
        ),
        is_canonical(old(ledger)@) ==> is_canonical(final(ledger)@),
{
    proof {
        if is_canonical(ledger@) {
            lemma_records_stay_in_place(
                ledger@,
                authority@,
                Seq::empty(),
                whitelist@,
                account_to_add@,
            );
        }
    }
    match find_entry_address(&account_to_add, &whitelist) {
        None => Err(WhitelistError::StorageFailure),
        Some((entry, _)) => crate::instructions::add_to_whitelist::add_to_whitelist(
            ledger,
            AddToWhitelist { entry, whitelist, authority },
            account_to_add,
        ),
    }
}

/// Removes `account_to_delete` from the list stored at `whitelist`, for
/// `authority`, the signer of the transaction, who receives all that the
/// record's account holds.
///
/// Fails with `NotFound` where no address can be derived, with `Unauthorized`
/// where no root record is stored at `whitelist` or it names another
/// authority, with `NotFound` where no membership record of this list is
/// stored at the derived address, and with `StorageFailure` where the
/// authority's account cannot take the refund.
pub fn remove_from_whitelist(
    ledger: &mut Ledger,
    authority: Pubkey,
    whitelist: Pubkey,
    account_to_delete: Pubkey,
) -> (result: Result<(), WhitelistError>)
    ensures
        ledger_follows(
            remove_from_whitelist_outcome(
                old(ledger)@,
                authority@,
                whitelist@,
                account_to_delete@,
            ),
            old(ledger)@,
            result,
            final(ledger)@,
        ),
        is_canonical(old(ledger)@) ==> is_canonical(final(ledger)@),
{
    proof {
        if is_canonical(ledger@) {
            lemma_records_stay_in_place(
                ledger@,
                authority@,
                Seq::empty(),
                whitelist@,
                account_to_delete@,
            );
        }
    }
    match find_entry_address(&account_to_delete, &whitelist) {
        None => Err(WhitelistError::NotFound),
        Some((entry, _)) => crate::instructions::remove_from_whitelist::remove_from_whitelist(
            ledger,
            RemoveFromWhitelist { entry, whitelist, authority },
        ),
    }
}

/// Succeeds where `account_to_check` is a member of the list stored at
/// `whitelist`.
///
/// Fails with `NotFound` where no address can be derived or no membership
/// record is stored at the derived address, and with `ParentMismatch` where
/// the record names another list than `whitelist`.
pub fn check_whitelisted(ledger: &Ledger, whitelist: Pubkey, account_to_check: Pubkey) -> (result:
    Result<(), WhitelistError>)
    ensures
        result == check_whitelisted_outcome(ledger@, whitelist@, account_to_check@),
{
    match find_entry_address(&account_to_check, &whitelist) {
        None => Err(WhitelistError::NotFound),
        Some((entry, _)) => crate::instructions::check_whitelisted::check_whitelisted(
            ledger,
            CheckWhitelisted { entry, whitelist },
        ),
    }
}

} // verus!
