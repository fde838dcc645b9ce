//! Adding a member to a list.

use crate::error::WhitelistError;
use crate::instructions::account::{Record, RecordView, WhitelistEntry, WhitelistEntryView};
use crate::instructions::authority::{authorize, is_authority};
use crate::ledger::{ledger_follows, Ledger, LedgerView};
use crate::pubkey::Pubkey;
use vstd::prelude::*;

verus! {

/// The accounts of the instruction that adds a member to a list.
#[derive(Clone, Copy, Debug)]
pub struct AddToWhitelist {
    /// Where the membership record is to be stored.
    pub entry: Pubkey,
    /// Where the list's root record is stored.
    pub whitelist: Pubkey,
    /// The signer of the transaction, who pays for the record.
    pub authority: Pubkey,
}

/// What comes of `authority` adding `account_to_add` to the list stored at
/// `whitelist`, with the membership record going to `entry`.
pub open spec fn add_to_whitelist_outcome(
    ledger: LedgerView,
    entry: Seq<u8>,
    whitelist: Seq<u8>,
    authority: Seq<u8>,
    account_to_add: Seq<u8>,
) -> Result<LedgerView, WhitelistError> {
    if !is_authority(ledger, whitelist, authority) {
        Err(WhitelistError::Unauthorized)
    } else if ledger.is_occupied(entry) {
        Err(WhitelistError::AlreadyWhitelisted)
    } else {
        match ledger.allocate(
            entry,
            WhitelistEntry::SIZE as nat,
            authority,
            RecordView::WhitelistEntry(
                WhitelistEntryView { parent: whitelist, whitelisted: account_to_add },
            ),
        ) {
            Ok(next) => Ok(next),
            Err(_) => Err(WhitelistError::StorageFailure),
        }
    }
}

/// Adds `account_to_add` to the list stored at `ctx.whitelist`: stores a
/// membership record, which names the list as its parent, at `ctx.entry`, in
/// an account of `WhitelistEntry::SIZE` bytes that `ctx.authority` pays for.
///
/// Fails with `Unauthorized` where no root record is stored at
/// `ctx.whitelist` or it names another authority than `ctx.authority`, with
/// `AlreadyWhitelisted` where a record is already stored at `ctx.entry`, and
/// with `StorageFailure` where the authority cannot pay the deposit or the
/// account cannot take it.
pub fn add_to_whitelist(ledger: &mut Ledger, ctx: AddToWhitelist, account_to_add: Pubkey) -> (result:
    Result<(), WhitelistError>)
    ensures
        ledger_follows(
            add_to_whitelist_outcome(
                old(ledger)@,
                ctx.entry@,
                ctx.whitelist@,
                ctx.authority@,
                account_to_add@,
            ),
            old(ledger)@,
            result,
            final(ledger)@,
        ),
{
    if authorize(ledger, &ctx.whitelist, &ctx.authority).is_err() {
        return Err(WhitelistError::Unauthorized);
    }
    if ledger.is_occupied(&ctx.entry) {
        return Err(WhitelistError::AlreadyWhitelisted);
    }
    let record = Record::WhitelistEntry(
        WhitelistEntry { parent: ctx.whitelist, whitelisted: account_to_add },
    );
    match ledger.allocate(&ctx.entry, WhitelistEntry::SIZE, &ctx.authority, record) {
        Ok(()) => Ok(()),
        Err(_) => Err(WhitelistError::StorageFailure),
    }
}

} // verus!
