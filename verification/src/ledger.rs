//! The ledger: accounts found by their address, each with a balance of
//! lamports and at most one record.
//!
//! Storing a record takes a deposit in proportion to its size, which the payer
//! moves into the record's account; closing the record moves everything the
//! account holds to the account that is to be refunded.

use crate::error::LedgerError;
use crate::instructions::account::{Record, RecordView, Whitelist, WhitelistEntry};
use crate::pubkey::Pubkey;
use vstd::prelude::*;

verus! {

/// What the ledger holds at one address.
pub struct AccountView {
    pub lamports: u64,
    pub record: Option<RecordView>,
}

/// The ledger as a mathematical value: what it holds at every address, and
/// the deposit it asks per byte stored. An address that was never used holds
/// no lamports and no record.
pub struct LedgerView {
    pub accounts: Map<Seq<u8>, AccountView>,
    pub lamports_per_byte: u64,
}

impl LedgerView {
    /// The balance of the account at `key`.
    pub open spec fn lamports(self, key: Seq<u8>) -> u64 {
        self.accounts[key].lamports
    }

    /// The record stored at `key`, if there is one.
    pub open spec fn record(self, key: Seq<u8>) -> Option<RecordView> {
        self.accounts[key].record
    }

    /// Whether a record is stored at `key`.
    pub open spec fn is_occupied(self, key: Seq<u8>) -> bool {
        self.record(key) is Some
    }

    /// The deposit for a record of `size` bytes.
    pub open spec fn rent(self, size: nat) -> nat {
        (self.lamports_per_byte * size) as nat
    }

    /// The ledger with the balance at `key` replaced.
    pub open spec fn with_lamports(self, key: Seq<u8>, lamports: u64) -> LedgerView {
        LedgerView {
            accounts: self.accounts.insert(key, AccountView { lamports, record: self.record(key) }),
            ..self
        }
    }

    /// The ledger with the record at `key` replaced.
    pub open spec fn with_record(self, key: Seq<u8>, record: Option<RecordView>) -> LedgerView {
        LedgerView {
            accounts: self.accounts.insert(
                key,
                AccountView { lamports: self.lamports(key), record },
            ),
            ..self
        }
    }

    /// Whether `amount` lamports can move from `from` to `to`: `from` holds
    /// them, and `to` can take them.
    pub open spec fn can_transfer(self, from: Seq<u8>, to: Seq<u8>, amount: nat) -> bool {
        &&& amount <= self.lamports(from)
        &&& from != to ==> self.lamports(to) + amount <= u64::MAX
    }

    /// The ledger after `amount` lamports moved from `from` to `to`.
    pub open spec fn transfer(self, from: Seq<u8>, to: Seq<u8>, amount: nat) -> LedgerView
        recommends
            self.can_transfer(from, to, amount),
    {
        if from == to {
            self
        } else {
            self.with_lamports(from, (self.lamports(from) - amount) as u64).with_lamports(
                to,
                (self.lamports(to) + amount) as u64,
            )
        }
    }

    /// What comes of adding `lamports` to the account at `key`.
    pub open spec fn deposit(self, key: Seq<u8>, lamports: u64) -> Result<LedgerView, LedgerError> {
        if self.lamports(key) + lamports > u64::MAX {
            Err(LedgerError::BalanceOverflow)
        } else {
            Ok(self.with_lamports(key, (self.lamports(key) + lamports) as u64))
        }
    }

    /// What comes of storing `record`, of `size` bytes, at `address`, with
    /// `payer` paying the deposit.
    pub open spec fn allocate(
        self,
        address: Seq<u8>,
        size: nat,
        payer: Seq<u8>,
        record: RecordView,
    ) -> Result<LedgerView, LedgerError> {
        if self.is_occupied(address) {
            Err(LedgerError::AlreadyOccupied)
        } else if self.lamports(payer) < self.rent(size) {
            Err(LedgerError::InsufficientFunds)
        } else if !self.can_transfer(payer, address, self.rent(size)) {
            Err(LedgerError::BalanceOverflow)
        } else {
            Ok(self.transfer(payer, address, self.rent(size)).with_record(address, Some(record)))
        }
    }

    /// What comes of closing the record at `address`, with `refund_to`
    /// receiving all that the account holds.
    pub open spec fn close(self, address: Seq<u8>, refund_to: Seq<u8>) -> Result<
        LedgerView,
        LedgerError,
    > {
        if !self.is_occupied(address) {
            Err(LedgerError::NotFound)
        } else if !self.can_transfer(address, refund_to, self.lamports(address) as nat) {
            Err(LedgerError::BalanceOverflow)
        } else {
            Ok(
                self.transfer(address, refund_to, self.lamports(address) as nat).with_record(
                    address,
                    None,
                ),
            )
        }
    }
}

/// The root record in `record`, if it is one.
pub open spec fn as_whitelist(record: Option<RecordView>) -> Option<
    crate::instructions::account::WhitelistView,
> {
    match record {
        Some(RecordView::Whitelist(whitelist)) => Some(whitelist),
        _ => None,
    }
}

/// The membership record in `record`, if it is one.
pub open spec fn as_entry(record: Option<RecordView>) -> Option<
    crate::instructions::account::WhitelistEntryView,
> {
    match record {
        Some(RecordView::WhitelistEntry(entry)) => Some(entry),
        _ => None,
    }
}

/// A record that may be there, as plain values.
pub open spec fn record_view(record: Option<Record>) -> Option<RecordView> {
    match record {
        Some(record) => Some(record@),
        None => None,
    }
}

/// The result of an operation on the ledger, against what should come of it:
/// on success the ledger is the new one, on failure it is the old one.
pub open spec fn ledger_follows<E>(
    outcome: Result<LedgerView, E>,
    before: LedgerView,
    result: Result<(), E>,
    after: LedgerView,
) -> bool {
    match outcome {
        Ok(next) => result is Ok && after == next,
        Err(error) => result == Err::<(), E>(error) && after == before,
    }
}

struct Slot {
    key: Pubkey,
    lamports: u64,
    record: Option<Record>,
}

/// An in-memory ledger.
pub struct Ledger {
    slots: Vec<Slot>,
    lamports_per_byte: u64,
}

spec fn is_first(slots: Seq<Slot>, key: Seq<u8>, i: int) -> bool {
    &&& 0 <= i < slots.len()
    &&& slots[i].key@ == key
    &&& forall|j: int| 0 <= j < i ==> (#[trigger] slots[j]).key@ != key
}

spec fn slot_view(slot: Slot) -> AccountView {
    AccountView { lamports: slot.lamports, record: record_view(slot.record) }
}

spec fn account_at(slots: Seq<Slot>, key: Seq<u8>) -> AccountView {
    if exists|i: int| is_first(slots, key, i) {
        slot_view(slots[choose|i: int| is_first(slots, key, i)])
    } else {
        AccountView { lamports: 0, record: None }
    }
}

spec fn same_keys(before: Seq<Slot>, after: Seq<Slot>) -> bool {
    &&& before.len() == after.len()
    &&& forall|i: int| 0 <= i < before.len() ==> (#[trigger] before[i]).key == after[i].key
}

proof fn lemma_account_at_first(slots: Seq<Slot>, key: Seq<u8>, i: int)
    requires
        is_first(slots, key, i),
    ensures
        account_at(slots, key) == slot_view(slots[i]),
{
    let j = choose|j: int| is_first(slots, key, j);
    if i < j {
        assert(slots[i].key@ != key);
    } else if j < i {
        assert(slots[j].key@ != key);
    }
}

proof fn lemma_account_at_absent(slots: Seq<Slot>, key: Seq<u8>)
    requires
        forall|j: int| 0 <= j < slots.len() ==> (#[trigger] slots[j]).key@ != key,
    ensures
        account_at(slots, key) == (AccountView { lamports: 0, record: None }),
{
    assert forall|i: int| !is_first(slots, key, i) by {
        if 0 <= i < slots.len() {
            assert(slots[i].key@ != key);
        }
    }
}

proof fn lemma_replace_slot(before: Seq<Slot>, after: Seq<Slot>, i: int)
    requires
        same_keys(before, after),
        0 <= i < before.len(),
        is_first(before, before[i].key@, i),
        forall|j: int| 0 <= j < before.len() && j != i ==> before[j] == after[j],
    ensures
        forall|key: Seq<u8>|
            #![trigger account_at(after, key)]
            account_at(after, key) == if key == before[i].key@ {
                slot_view(after[i])
            } else {
                account_at(before, key)
            },
{
    assert forall|key: Seq<u8>, j: int| is_first(before, key, j) == is_first(after, key, j) by {
        if is_first(before, key, j) {
            assert(before[j].key == after[j].key);
            assert forall|k: int| 0 <= k < j implies (#[trigger] after[k]).key@ != key by {
                assert(before[k].key == after[k].key);
            }
        }
        if is_first(after, key, j) {
            assert(before[j].key == after[j].key);
            assert forall|k: int| 0 <= k < j implies (#[trigger] before[k]).key@ != key by {
                assert(before[k].key == after[k].key);
                assert(after[k].key@ != key);
            }
        }
    }
    assert forall|key: Seq<u8>|
        #![trigger account_at(after, key)]
        account_at(after, key) == if key == before[i].key@ {
            slot_view(after[i])
        } else {
            account_at(before, key)
        } by {
        if key == before[i].key@ {
            assert(is_first(after, key, i));
            lemma_account_at_first(after, key, i);
        } else if exists|j: int| is_first(before, key, j) {
            let j = choose|j: int| is_first(before, key, j);
            assert(is_first(after, key, j));
            lemma_account_at_first(before, key, j);
            lemma_account_at_first(after, key, j);
            assert(j != i);
        } else {
            assert forall|j: int| !is_first(after, key, j) by {
                assert(is_first(before, key, j) == is_first(after, key, j));
            }
        }
    }
}

proof fn lemma_push_empty_slot(before: Seq<Slot>, slot: Slot)
    requires
        forall|j: int| 0 <= j < before.len() ==> (#[trigger] before[j]).key@ != slot.key@,
        slot.lamports == 0,
        slot.record is None,
    ensures
        is_first(before.push(slot), slot.key@, before.len() as int),
        forall|key: Seq<u8>|
            #![trigger account_at(before.push(slot), key)]
            account_at(before.push(slot), key) == account_at(before, key),
{
    let after = before.push(slot);
    assert(is_first(after, slot.key@, before.len() as int)) by {
        assert forall|j: int| 0 <= j < before.len() implies (#[trigger] after[j]).key@
            != slot.key@ by {
            assert(after[j] == before[j]);
        }
    }
    assert forall|key: Seq<u8>|
        #![trigger account_at(after, key)]
        account_at(after, key) == account_at(before, key) by {
        if key == slot.key@ {
            lemma_account_at_first(after, key, before.len() as int);
            lemma_account_at_absent(before, key);
        } else if exists|j: int| is_first(before, key, j) {
            let j = choose|j: int| is_first(before, key, j);
            assert(is_first(after, key, j)) by {
                assert(after[j] == before[j]);
                assert forall|k: int| 0 <= k < j implies (#[trigger] after[k]).key@ != key by {
                    assert(after[k] == before[k]);
                }
            }
            lemma_account_at_first(before, key, j);
            lemma_account_at_first(after, key, j);
        } else {
            assert forall|j: int| !is_first(after, key, j) by {
                if is_first(after, key, j) {
                    assert(j < before.len());
                    assert(after[j] == before[j]);
                    assert forall|k: int| 0 <= k < j implies (#[trigger] before[k]).key@
                        != key by {
                        assert(after[k] == before[k]);
                    }
                    assert(is_first(before, key, j));
                }
            }
        }
    }
}

impl View for Ledger {
    type V = LedgerView;

    closed spec fn view(&self) -> LedgerView {
        LedgerView {
            accounts: Map::total(|key: Seq<u8>| account_at(self.slots@, key)),
            lamports_per_byte: self.lamports_per_byte,
        }
    }
}

impl Ledger {
    /// A ledger with no lamports and no records anywhere, which asks
    /// `lamports_per_byte` as deposit for each byte stored.
    pub fn new(lamports_per_byte: u64) -> (ledger: Ledger)
        ensures
            ledger@.lamports_per_byte == lamports_per_byte,
            ledger@.accounts == Map::<Seq<u8>, AccountView>::total(
                |key: Seq<u8>| AccountView { lamports: 0, record: None },
            ),
    {
        let ledger = Ledger { slots: Vec::new(), lamports_per_byte };
        proof {
            assert forall|key: Seq<u8>| #[trigger]
                account_at(ledger.slots@, key) == (AccountView { lamports: 0, record: None }) by {
                lemma_account_at_absent(ledger.slots@, key);
            }
            assert(ledger@.accounts =~= Map::<Seq<u8>, AccountView>::total(
                |key: Seq<u8>| AccountView { lamports: 0, record: None },
            ));
        }
        ledger
    }

    /// The deposit asked for each byte stored.
    pub fn lamports_per_byte(&self) -> (rate: u64)
        ensures
            rate == self@.lamports_per_byte,
    {
        self.lamports_per_byte
    }

    /// The deposit for a record of `size` bytes, or `None` where it is more
    /// than any account can hold.
    pub fn rent(&self, size: usize) -> (deposit: Option<u64>)
        ensures
            match deposit {
                Some(lamports) => lamports == self@.rent(size as nat),
                None => self@.rent(size as nat) > u64::MAX,
            },
    {
        let wide: u128 = self.lamports_per_byte as u128;
        let bytes: u128 = size as u128;
        assert(wide * bytes <= u64::MAX * u64::MAX) by (nonlinear_arith)
            requires
                wide <= u64::MAX,
                bytes <= u64::MAX,
        ;
        let product: u128 = wide * bytes;
        if product > u64::MAX as u128 {
            None
        } else {
            Some(product as u64)
        }
    }

    fn find(&self, key: &Pubkey) -> (found: Option<usize>)
        ensures
            match found {
                Some(i) => is_first(self.slots@, key@, i as int),
                None => forall|j: int|
                    0 <= j < self.slots@.len() ==> (#[trigger] self.slots@[j]).key@ != key@,
            },
    {
        let mut i: usize = 0;
        while i < self.slots.len()
            invariant
                i <= self.slots@.len(),
                forall|j: int| 0 <= j < i ==> (#[trigger] self.slots@[j]).key@ != key@,
            decreases self.slots@.len() - i,
        {
            if self.slots[i].key == *key {
                return Some(i);
            }
            i += 1;
        }
        None
    }

    /// The balance of the account at `key`.
    pub fn lamports(&self, key: &Pubkey) -> (lamports: u64)
        ensures
            lamports == self@.lamports(key@),
    {
        match self.find(key) {
            Some(i) => {
                proof {
                    lemma_account_at_first(self.slots@, key@, i as int);
                }
                self.slots[i].lamports
            },
            None => {
                proof {
                    lemma_account_at_absent(self.slots@, key@);
                }
                0
            },
        }
    }

    /// A copy of the record stored at `key`, if there is one.
    pub fn record(&self, key: &Pubkey) -> (record: Option<Record>)
        ensures
            record_view(record) == self@.record(key@),
    {
        match self.find(key) {
            Some(i) => {
                proof {
                    lemma_account_at_first(self.slots@, key@, i as int);
                }
                match &self.slots[i].record {
                    Some(record) => Some(record.clone()),
                    None => None,
                }
            },
            None => {
                proof {
                    lemma_account_at_absent(self.slots@, key@);
                }
                None
            },
        }
    }

    /// Whether a record is stored at `key`.
    pub fn is_occupied(&self, key: &Pubkey) -> (occupied: bool)
        ensures
            occupied == self@.is_occupied(key@),
    {
        match self.find(key) {
            Some(i) => {
                proof {
                    lemma_account_at_first(self.slots@, key@, i as int);
                }
                self.slots[i].record.is_some()
            },
            None => {
                proof {
                    lemma_account_at_absent(self.slots@, key@);
                }
                false
            },
        }
    }

    /// A copy of the root record stored at `key`; `None` where nothing is
    /// stored there, or a record of another kind.
    pub fn whitelist(&self, key: &Pubkey) -> (whitelist: Option<Whitelist>)
        ensures
            match whitelist {
                Some(found) => as_whitelist(self@.record(key@)) == Some(found@),
                None => as_whitelist(self@.record(key@)) is None,
            },
    {
        match self.record(key) {
            Some(Record::Whitelist(whitelist)) => Some(whitelist),
            _ => None,
        }
    }

    /// A copy of the membership record stored at `key`; `None` where nothing
    /// is stored there, or a record of another kind.
    pub fn entry(&self, key: &Pubkey) -> (entry: Option<WhitelistEntry>)
        ensures
            match entry {
                Some(found) => as_entry(self@.record(key@)) == Some(found@),
                None => as_entry(self@.record(key@)) is None,
            },
    {
        match self.record(key) {
            Some(Record::WhitelistEntry(entry)) => Some(entry),
            _ => None,
        }
    }

    /// The index of the slot that stands for `key`, which is added, empty,
    /// where the ledger has none yet. What the ledger holds does not change.
    fn slot_of(&mut self, key: &Pubkey) -> (i: usize)
        ensures
            final(self)@ == old(self)@,
            is_first(final(self).slots@, key@, i as int),
    {
        match self.find(key) {
            Some(i) => i,
            None => {
                let slot = Slot { key: *key, lamports: 0, record: None };
                proof {
                    lemma_push_empty_slot(self.slots@, slot);
                }
                self.slots.push(slot);
                assert(self@.accounts =~= old(self)@.accounts);
                self.slots.len() - 1
            },
        }
    }

    fn set_lamports(&mut self, key: &Pubkey, lamports: u64)
        ensures
            final(self)@ == old(self)@.with_lamports(key@, lamports),
    {
        let i = self.slot_of(key);
        let ghost before = self.slots@;
        proof {
            lemma_account_at_first(before, key@, i as int);
        }
        self.slots[i].lamports = lamports;
        proof {
            lemma_replace_slot(before, self.slots@, i as int);
            assert(self@.accounts =~= old(self)@.with_lamports(key@, lamports).accounts);
        }
    }

    fn set_record(&mut self, key: &Pubkey, record: Option<Record>)
        ensures
            final(self)@ == old(self)@.with_record(key@, record_view(record)),
    {
        let i = self.slot_of(key);
        let ghost before = self.slots@;
        proof {
            lemma_account_at_first(before, key@, i as int);
        }
        self.slots[i].record = record;
        proof {
            lemma_replace_slot(before, self.slots@, i as int);
            assert(self@.accounts =~= old(self)@.with_record(key@, record_view(record)).accounts);
        }
    }

    fn transfer(&mut self, from: &Pubkey, to: &Pubkey, amount: u64)
        requires
            old(self)@.can_transfer(from@, to@, amount as nat),
        ensures
            final(self)@ == old(self)@.transfer(from@, to@, amount as nat),
    {
        if *from != *to {
            let held = self.lamports(from);
            self.set_lamports(from, held - amount);
            let present = self.lamports(to);
            self.set_lamports(to, present + amount);
        }
    }

    /// Adds `lamports` to the account at `key`, unless it would then hold
    /// more than `u64::MAX`.
    pub fn deposit(&mut self, key: &Pubkey, lamports: u64) -> (result: Result<(), LedgerError>)
        ensures
            ledger_follows(old(self)@.deposit(key@, lamports), old(self)@, result, final(self)@),
    {
        let held = self.lamports(key);
        if lamports > u64::MAX - held {
            Err(LedgerError::BalanceOverflow)
        } else {
            self.set_lamports(key, held + lamports);
            Ok(())
        }
    }

    /// Stores `record` at `address` in an account of `size` bytes, for which
    /// `payer` moves the deposit into that account.
    ///
    /// Fails, and changes nothing, where a record is already stored at
    /// `address`, where `payer` holds less than the deposit, or where the
    /// account at `address` cannot hold the deposit on top of its balance.
    pub fn allocate(&mut self, address: &Pubkey, size: usize, payer: &Pubkey, record: Record) -> (result:
        Result<(), LedgerError>)
        ensures
            ledger_follows(
                old(self)@.allocate(address@, size as nat, payer@, record@),
                old(self)@,
                result,
                final(self)@,
            ),
    {
        if self.is_occupied(address) {
            return Err(LedgerError::AlreadyOccupied);
        }
        let deposit = match self.rent(size) {
            Some(deposit) => deposit,
            None => {
                return Err(LedgerError::InsufficientFunds);
            },
        };
        if self.lamports(payer) < deposit {
            return Err(LedgerError::InsufficientFunds);
        }
        if *payer != *address && deposit > u64::MAX - self.lamports(address) {
            return Err(LedgerError::BalanceOverflow);
        }
        self.transfer(payer, address, deposit);
        self.set_record(address, Some(record));
        Ok(())
    }

    /// Closes the record at `address`: the record is removed, and all that
    /// its account holds moves to `refund_to`.
    ///
    /// Fails, and changes nothing, where no record is stored at `address`, or
    /// where `refund_to` cannot hold the refund on top of its balance.
    pub fn close(&mut self, address: &Pubkey, refund_to: &Pubkey) -> (result: Result<
        (),
        LedgerError,
    >)
        ensures
            ledger_follows(
                old(self)@.close(address@, refund_to@),
                old(self)@,
                result,
                final(self)@,
            ),
    {
        if !self.is_occupied(address) {
            return Err(LedgerError::NotFound);
        }
        let held = self.lamports(address);
        if *address != *refund_to && held > u64::MAX - self.lamports(refund_to) {
            return Err(LedgerError::BalanceOverflow);
        }
        self.transfer(address, refund_to, held);
        self.set_record(address, None);
        Ok(())
    }
}

} // verus!
