//! The rule that guards every change to a list: the signer of the
//! transaction must be the authority that the list records.

use crate::error::WhitelistError;
use crate::ledger::{as_whitelist, Ledger, LedgerView};
use crate::pubkey::Pubkey;
use vstd::prelude::*;

verus! {

/// Whether a root record is stored at `whitelist` and names `signer` as the
/// list's authority. Every instruction that changes a list asks for this.
pub open spec fn is_authority(ledger: LedgerView, whitelist: Seq<u8>, signer: Seq<u8>) -> bool {
    match as_whitelist(ledger.record(whitelist)) {
        Some(root) => root.authority == signer,
        None => false,
    }
}

/// Whether the signer may change the list stored at `whitelist`.
pub fn authorize(ledger: &Ledger, whitelist: &Pubkey, signer: &Pubkey) -> (result: Result<
    (),
    WhitelistError,
>)
    ensures
        result == if is_authority(ledger@, whitelist@, signer@) {
            Ok::<(), WhitelistError>(())
        } else {
            Err::<(), WhitelistError>(WhitelistError::Unauthorized)
        },
{
    match ledger.whitelist(whitelist) {
        Some(root) => {
            if root.authority == *signer {
                Ok(())
            } else {
                Err(WhitelistError::Unauthorized)
            }
        },
        None => Err(WhitelistError::Unauthorized),
    }
}

} // verus!
