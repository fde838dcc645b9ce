//! Checking that a key is a member of a list.

use crate::error::WhitelistError;
use crate::ledger::{as_entry, Ledger, LedgerView};
use crate::pubkey::Pubkey;
use vstd::prelude::*;

verus! {

/// The accounts of the instruction that checks a membership.
#[derive(Clone, Copy, Debug)]
pub struct CheckWhitelisted {
    /// Where the membership record should be stored.
    pub entry: Pubkey,
    /// The address of the list.
    pub whitelist: Pubkey,
}

/// Whether the membership record stored at `entry` exists and belongs to the
/// list stored at `whitelist`.
pub open spec fn check_whitelisted_outcome(
    ledger: LedgerView,
    entry: Seq<u8>,
    whitelist: Seq<u8>,
) -> Result<(), WhitelistError> {
    match as_entry(ledger.record(entry)) {
        None => Err(WhitelistError::NotFound),
        Some(found) => if found.parent != whitelist {
            Err(WhitelistError::ParentMismatch)
        } else {
            Ok(())
        },
    }
}

/// Succeeds where a membership record is stored at `ctx.entry` and names
/// `ctx.whitelist` as its parent. The check is all the instruction does.
///
/// Fails with `NotFound` where no membership record is stored there, and with
/// `ParentMismatch` where the record names another list.
pub fn check_whitelisted(ledger: &Ledger, ctx: CheckWhitelisted) -> (result: Result<
    (),
    WhitelistError,
>)
    ensures
        result == check_whitelisted_outcome(ledger@, ctx.entry@, ctx.whitelist@),
{
    match ledger.entry(&ctx.entry) {
        None => Err(WhitelistError::NotFound),
        Some(found) => {
            if found.parent != ctx.whitelist {
                Err(WhitelistError::ParentMismatch)
            } else {
                Ok(())
            }
        },
    }
}

} // verus!
