//! Why an operation was refused.

use vstd::prelude::*;

verus! {

/// Why the ledger refused to allocate, close or fund an account.
#[derive(Clone, Copy, Debug, PartialEq, Eq, Structural)]
pub enum LedgerError {
    /// A record is already stored at the address.
    AlreadyOccupied,
    /// No record is stored at the address.
    NotFound,
    /// The payer holds less than the deposit that the record needs.
    InsufficientFunds,
    /// The account that receives lamports would hold more than `u64::MAX`.
    BalanceOverflow,
}

/// Why an instruction of the program failed. A failed instruction leaves the
/// ledger as it was.
#[derive(Clone, Copy, Debug, PartialEq, Eq, Structural)]
pub enum WhitelistError {
    /// A record is already stored at the address derived for the new list.
    AlreadyExists,
    /// No record of the expected kind is stored at the derived address.
    NotFound,
    /// The signer is not the authority recorded in the list.
    Unauthorized,
    /// The list's recorded authority is not the owner that was asked about.
    OwnerMismatch,
    /// A record is already stored at the address derived for the new entry.
    AlreadyWhitelisted,
    /// The entry's recorded parent is not the list that was asked about.
    ParentMismatch,
    /// The ledger could not derive the address, or could not pay for or
    /// refund the record.
    StorageFailure,
}

} // verus!
