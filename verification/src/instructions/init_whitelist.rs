//! Creating a list.

use crate::error::{LedgerError, WhitelistError};
use crate::instructions::account::{Record, RecordView, Whitelist, WhitelistView};
use crate::ledger::{ledger_follows, Ledger, LedgerView};
use crate::pubkey::Pubkey;
use vstd::prelude::*;

verus! {

/// The accounts of the instruction that creates a list.
#[derive(Clone, Copy, Debug)]
pub struct InitWhitelist {
    /// Where the root record is to be stored.
    pub whitelist: Pubkey,
    /// The signer of the transaction, who pays for the record and becomes
    /// the list's authority.
    pub authority: Pubkey,
}

/// What comes of creating the list `name` of `authority` at `whitelist`.
pub open spec fn init_whitelist_outcome(
    ledger: LedgerView,
    whitelist: Seq<u8>,
    authority: Seq<u8>,
    name: Seq<char>,
) -> Result<LedgerView, WhitelistError> {
    if ledger.is_occupied(whitelist) {
        Err(WhitelistError::AlreadyExists)
    } else {
        match ledger.allocate(
            whitelist,
            Whitelist::SIZE as nat,
            authority,
            RecordView::Whitelist(WhitelistView { authority, name }),
        ) {
            Ok(next) => Ok(next),
            Err(_) => Err(WhitelistError::StorageFailure),
        }
    }
}

/// Creates the list `name`: stores its root record, which names
/// `ctx.authority` as the list's authority, at `ctx.whitelist`, in an account
/// of `Whitelist::SIZE` bytes that `ctx.authority` pays for.
///
/// Fails with `AlreadyExists` where a record is already stored at
/// `ctx.whitelist`, and with `StorageFailure` where the authority cannot pay
/// the deposit or the account cannot take it.
pub fn init_whitelist(ledger: &mut Ledger, ctx: InitWhitelist, name: String) -> (result: Result<
    (),
    WhitelistError,
>)
    ensures
        ledger_follows(
            init_whitelist_outcome(old(ledger)@, ctx.whitelist@, ctx.authority@, name@),
            old(ledger)@,
            result,
            final(ledger)@,
        ),
{
    let record = Record::Whitelist(Whitelist { authority: ctx.authority, name });
    match ledger.allocate(&ctx.whitelist, Whitelist::SIZE, &ctx.authority, record) {
        Ok(()) => Ok(()),
        Err(LedgerError::AlreadyOccupied) => Err(WhitelistError::AlreadyExists),
        Err(_) => Err(WhitelistError::StorageFailure),
    }
}

} // verus!
