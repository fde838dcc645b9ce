//! Removing a member from a list.

use crate::error::WhitelistError;
use crate::instructions::authority::{authorize, is_authority};
use crate::ledger::{as_entry, ledger_follows, Ledger, LedgerView};
use crate::pubkey::Pubkey;
use vstd::prelude::*;

verus! {

/// The accounts of the instruction that removes a member from a list.
#[derive(Clone, Copy, Debug)]
pub struct RemoveFromWhitelist {
    /// Where the membership record is stored.
    pub entry: Pubkey,
    /// Where the list's root record is stored.
    pub whitelist: Pubkey,
    /// The signer of the transaction, who receives the refund.
    pub authority: Pubkey,
}

/// What comes of `authority` removing from the list stored at `whitelist` the
/// membership record stored at `entry`.
pub open spec fn remove_from_whitelist_outcome(
    ledger: LedgerView,
    entry: Seq<u8>,
    whitelist: Seq<u8>,
    authority: Seq<u8>,
) -> Result<LedgerView, WhitelistError> {
    if !is_authority(ledger, whitelist, authority) {
        Err(WhitelistError::Unauthorized)
    } else {
        match as_entry(ledger.record(entry)) {
            None => Err(WhitelistError::NotFound),
            Some(found) => if found.parent != whitelist {
                Err(WhitelistError::NotFound)
            } else {
                match ledger.close(entry, authority) {
                    Ok(next) => Ok(next),
                    Err(_) => Err(WhitelistError::StorageFailure),
                }
            },
        }
    }
}

/// Removes a member from the list stored at `ctx.whitelist`: removes the
/// membership record stored at `ctx.entry` and moves all that its account
/// holds to `ctx.authority`.
///
/// Fails with `Unauthorized` where no root record is stored at
/// `ctx.whitelist` or it names another authority than `ctx.authority`, with
/// `NotFound` where no membership record of this list is stored at
/// `ctx.entry`, and with `StorageFailure` where the authority's account cannot
/// take the refund.
pub fn remove_from_whitelist(ledger: &mut Ledger, ctx: RemoveFromWhitelist) -> (result: Result<
    (),
    WhitelistError,
>)
    ensures
        ledger_follows(
            remove_from_whitelist_outcome(
                old(ledger)@,
                ctx.entry@,
                ctx.whitelist@,
                ctx.authority@,
            ),
            old(ledger)@,
            result,
            final(ledger)@,
        ),
{
    if authorize(ledger, &ctx.whitelist, &ctx.authority).is_err() {
        return Err(WhitelistError::Unauthorized);
    }
    match ledger.entry(&ctx.entry) {
        None => Err(WhitelistError::NotFound),
        Some(found) => {
            if found.parent != ctx.whitelist {
                Err(WhitelistError::NotFound)
            } else {
                match ledger.close(&ctx.entry, &ctx.authority) {
                    Ok(()) => Ok(()),
                    Err(_) => Err(WhitelistError::StorageFailure),
                }
            }
        },
    }
}

} // verus!
