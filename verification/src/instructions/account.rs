//! The two records that the program stores.

use crate::pubkey::Pubkey;
use vstd::prelude::*;

verus! {

/// The root record of a list, on which the addresses of all its entries
/// are derived. It never changes once it is created.
#[derive(Debug, PartialEq, Eq)]
pub struct Whitelist {
    /// The key that created the list and administers it.
    pub authority: Pubkey,
    /// The name of the list: at most 32 bytes of UTF-8.
    pub name: String,
}

/// A list's root record as plain values.
pub struct WhitelistView {
    pub authority: Seq<u8>,
    pub name: Seq<char>,
}

impl View for Whitelist {
    type V = WhitelistView;

    open spec fn view(&self) -> WhitelistView {
        WhitelistView { authority: self.authority@, name: self.name@ }
    }
}

impl Whitelist {
    /// Bytes that the ledger reserves for a root record: the authority's key
    /// and the name.
    pub const SIZE: usize = 32 + 32;
}

impl Clone for Whitelist {
    fn clone(&self) -> (copy: Whitelist)
        ensures
            copy == *self,
    {
        Whitelist { authority: self.authority, name: self.name.clone() }
    }
}

/// A membership record. That it is stored at the address derived from
/// `whitelisted` and `parent` is what makes `whitelisted` a member of the
/// list stored at `parent`.
#[derive(Clone, Copy, Debug, PartialEq, Eq)]
pub struct WhitelistEntry {
    /// The address of the list that the entry belongs to.
    pub parent: Pubkey,
    /// The key that the entry whitelists.
    pub whitelisted: Pubkey,
}

/// A membership record as plain values.
pub struct WhitelistEntryView {
    pub parent: Seq<u8>,
    pub whitelisted: Seq<u8>,
}

impl View for WhitelistEntry {
    type V = WhitelistEntryView;

    open spec fn view(&self) -> WhitelistEntryView {
        WhitelistEntryView { parent: self.parent@, whitelisted: self.whitelisted@ }
    }
}

impl WhitelistEntry {
    /// Bytes that the ledger reserves for an entry: the list's address and
    /// the member's key.
    pub const SIZE: usize = 32 + 32;
}

/// What an account of the program holds.
#[derive(Debug, PartialEq, Eq)]
pub enum Record {
    Whitelist(Whitelist),
    WhitelistEntry(WhitelistEntry),
}

/// A record as plain values.
pub enum RecordView {
    Whitelist(WhitelistView),
    WhitelistEntry(WhitelistEntryView),
}

impl View for Record {
    type V = RecordView;

    open spec fn view(&self) -> RecordView {
        match self {
            Record::Whitelist(whitelist) => RecordView::Whitelist(whitelist@),
            Record::WhitelistEntry(entry) => RecordView::WhitelistEntry(entry@),
        }
    }
}

impl Clone for Record {
    fn clone(&self) -> (copy: Record)
        ensures
            copy == *self,
    {
        match self {
            Record::Whitelist(whitelist) => Record::Whitelist(whitelist.clone()),
            Record::WhitelistEntry(entry) => Record::WhitelistEntry(*entry),
        }
    }
}

} // verus!
