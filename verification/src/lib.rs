//! Address-derived access-control lists.
//!
//! A list is a record stored at an address derived from its authority and its
//! name; a member of a list is a record stored at an address derived from the
//! member's key and the list's address. Asking whether a key belongs to a list
//! is therefore a single point lookup.

pub mod error;
pub mod instructions;
pub mod laws;
pub mod ledger;
pub mod pda;
pub mod pubkey;
pub mod whitelist;
