//! Checking that a list exists.

use crate::error::WhitelistError;
use crate::ledger::{as_whitelist, Ledger, LedgerView};
use crate::pubkey::Pubkey;
use vstd::prelude::*;

verus! {

/// The accounts of the instruction that checks that a list exists.
#[derive(Clone, Copy, Debug)]
pub struct CheckWhitelist {
    /// Where the root record should be stored.
    pub whitelist: Pubkey,
}

/// Whether the list stored at `whitelist` exists and belongs to `owner`.
pub open spec fn check_whitelist_outcome(
    ledger: LedgerView,
    whitelist: Seq<u8>,
    owner: Seq<u8>,
) -> Result<(), WhitelistError> {
    match as_whitelist(ledger.record(whitelist)) {
        None => Err(WhitelistError::NotFound),
        Some(root) => if root.authority != owner {
            Err(WhitelistError::OwnerMismatch)
        } else {
            Ok(())
        },
    }
}

/// Succeeds where a root record is stored at `ctx.whitelist` and names
/// `owner` as its authority. The check is all the instruction does.
///
/// Fails with `NotFound` where no root record is stored there, and with
/// `OwnerMismatch` where the record names another authority.
pub fn check_whitelist(ledger: &Ledger, ctx: CheckWhitelist, owner: Pubkey) -> (result: Result<
    (),
    WhitelistError,
>)
    ensures
        result == check_whitelist_outcome(ledger@, ctx.whitelist@, owner@),
{
    match ledger.whitelist(&ctx.whitelist) {
        None => Err(WhitelistError::NotFound),
        Some(root) => {
            if root.authority != owner {
                Err(WhitelistError::OwnerMismatch)
            } else {
                Ok(())
            }
        },
    }
}

} // verus!
