//! Deleting a list.

use crate::error::WhitelistError;
use crate::ledger::{as_whitelist, ledger_follows, Ledger, LedgerView};
use crate::pubkey::Pubkey;
use vstd::prelude::*;

verus! {

/// The accounts of the instruction that deletes a list.
#[derive(Clone, Copy, Debug)]
pub struct DeleteWhitelist {
    /// Where the root record is stored.
    pub whitelist: Pubkey,
    /// The signer of the transaction, who receives the refund.
    pub authority: Pubkey,
}

/// What comes of `authority` deleting the list stored at `whitelist`.
pub open spec fn delete_whitelist_outcome(
    ledger: LedgerView,
    whitelist: Seq<u8>,
    authority: Seq<u8>,
) -> Result<LedgerView, WhitelistError> {
    match as_whitelist(ledger.record(whitelist)) {
        None => Err(WhitelistError::NotFound),
        Some(root) => if root.authority != authority {
            Err(WhitelistError::Unauthorized)
        } else {
            match ledger.close(whitelist, authority) {
                Ok(next) => Ok(next),
                Err(_) => Err(WhitelistError::StorageFailure),
            }
        },
    }
}

/// Deletes the list stored at `ctx.whitelist`: removes its root record and
/// moves all that its account holds to `ctx.authority`.
///
/// Fails with `NotFound` where no root record is stored at `ctx.whitelist`,
/// with `Unauthorized` where the record names another authority than
/// `ctx.authority`, and with `StorageFailure` where the authority's account
/// cannot take the refund.
pub fn delete_whitelist(ledger: &mut Ledger, ctx: DeleteWhitelist) -> (result: Result<
    (),
    WhitelistError,
>)
    ensures
        ledger_follows(
            delete_whitelist_outcome(old(ledger)@, ctx.whitelist@, ctx.authority@),
            old(ledger)@,
            result,
            final(ledger)@,
        ),
{
    match ledger.whitelist(&ctx.whitelist) {
        None => Err(WhitelistError::NotFound),
        Some(root) => {
            if root.authority != ctx.authority {
                Err(WhitelistError::Unauthorized)
            } else {
                match ledger.close(&ctx.whitelist, &ctx.authority) {
                    Ok(()) => Ok(()),
                    Err(_) => Err(WhitelistError::StorageFailure),
                }
            }
        },
    }
}

} // verus!
