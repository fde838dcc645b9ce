//! The instructions of the program, one module each, and the records they
//! create and read.
//!
//! Each instruction here works on the accounts it is handed, whatever their
//! addresses. The entry points of the program derive the addresses first.

pub mod account;
pub mod add_to_whitelist;
pub mod authority;
pub mod check_whitelist;
pub mod check_whitelisted;
pub mod delete_whitelist;
pub mod init_whitelist;
pub mod remove_from_whitelist;
