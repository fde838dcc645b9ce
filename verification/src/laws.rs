//! What holds of the program as a whole, proved from what its entry points
//! are stated to do.

use crate::error::WhitelistError;
use crate::instructions::account::{RecordView, Whitelist};
use crate::ledger::{as_entry, as_whitelist, LedgerView};
use crate::whitelist::{
    add_to_whitelist_outcome, check_whitelist_outcome, check_whitelisted_outcome,
    delete_whitelist_outcome, entry_key, init_whitelist_outcome, is_canonical, is_in_place,
    remove_from_whitelist_outcome, whitelist_key,
};
use vstd::prelude::*;

verus! {

/// Derivation is a function: the same authority and name give the same
/// address, and so do the same member and list, whenever they are asked for.
pub proof fn lemma_same_seeds_same_address(
    authority: Seq<u8>,
    name: Seq<char>,
    same_authority: Seq<u8>,
    same_name: Seq<char>,
    member: Seq<u8>,
    whitelist: Seq<u8>,
    same_member: Seq<u8>,
    same_whitelist: Seq<u8>,
)
    requires
        authority == same_authority,
        name == same_name,
        member == same_member,
        whitelist == same_whitelist,
    ensures
        whitelist_key(authority, name) == whitelist_key(same_authority, same_name),
        entry_key(member, whitelist) == entry_key(same_member, same_whitelist),
{
}

/// A list that was created exists: the check for it, with its authority as
/// owner, succeeds, and the record holds the authority and the name.
pub proof fn lemma_created_list_exists(ledger: LedgerView, authority: Seq<u8>, name: Seq<char>)
    requires
        init_whitelist_outcome(ledger, authority, name) is Ok,
    ensures
        init_whitelist_outcome(ledger, authority, name) matches Ok(created) && whitelist_key(
            authority,
            name,
        ) matches Some(address) && {
            &&& check_whitelist_outcome(created, authority, name) == Ok::<(), WhitelistError>(())
            &&& as_whitelist(created.record(address)) matches Some(root) && root.authority
                == authority && root.name == name
        },
{
}

/// A list that was deleted is gone: the check for it fails with `NotFound`.
pub proof fn lemma_deleted_list_is_gone(ledger: LedgerView, authority: Seq<u8>, name: Seq<char>)
    requires
        delete_whitelist_outcome(ledger, authority, name) is Ok,
    ensures
        delete_whitelist_outcome(ledger, authority, name) matches Ok(deleted)
            && check_whitelist_outcome(deleted, authority, name) == Err::<(), WhitelistError>(
            WhitelistError::NotFound,
        ),
{
}

/// Two lists of one authority whose addresses differ are created
/// independently: where each could be created alone and the authority can pay
/// for both, the second is created after the first, and then both exist.
pub proof fn lemma_lists_at_distinct_addresses_coexist(
    ledger: LedgerView,
    authority: Seq<u8>,
    first: Seq<char>,
    second: Seq<char>,
)
    requires
        whitelist_key(authority, first) != whitelist_key(authority, second),
        init_whitelist_outcome(ledger, authority, first) is Ok,
        init_whitelist_outcome(ledger, authority, second) is Ok,
        ledger.lamports(authority) >= 2 * ledger.rent(Whitelist::SIZE as nat),
    ensures
        init_whitelist_outcome(ledger, authority, first) matches Ok(one) && init_whitelist_outcome(
            one,
            authority,
            second,
        ) matches Ok(both) && {
            &&& check_whitelist_outcome(both, authority, first) == Ok::<(), WhitelistError>(())
            &&& check_whitelist_outcome(both, authority, second) == Ok::<(), WhitelistError>(())
        },
{
}

/// Only its authority deletes a list: where the record at the derived address
/// names another authority than the signer, the deletion fails with
/// `Unauthorized`.
pub proof fn lemma_only_the_authority_deletes(ledger: LedgerView, signer: Seq<u8>, name: Seq<char>)
    requires
        whitelist_key(signer, name) matches Some(address) && as_whitelist(
            ledger.record(address),
        ) matches Some(root) && root.authority != signer,
    ensures
        delete_whitelist_outcome(ledger, signer, name) == Err::<LedgerView, WhitelistError>(
            WhitelistError::Unauthorized,
        ),
{
}

/// A deletion never touches the list of another authority: whatever comes of
/// it, every root record that names another authority than the signer is
/// still stored where it was.
pub proof fn lemma_delete_spares_other_authorities(
    ledger: LedgerView,
    signer: Seq<u8>,
    name: Seq<char>,
    other: Seq<u8>,
)
    requires
        as_whitelist(ledger.record(other)) matches Some(root) && root.authority != signer,
    ensures
        delete_whitelist_outcome(ledger, signer, name) matches Ok(deleted) ==> deleted.record(other)
            == ledger.record(other),
{
}

/// A member that was added is whitelisted: the check for it succeeds.
pub proof fn lemma_added_member_is_whitelisted(
    ledger: LedgerView,
    authority: Seq<u8>,
    whitelist: Seq<u8>,
    member: Seq<u8>,
)
    requires
        add_to_whitelist_outcome(ledger, authority, whitelist, member) is Ok,
    ensures
        add_to_whitelist_outcome(ledger, authority, whitelist, member) matches Ok(added)
            && check_whitelisted_outcome(added, whitelist, member) == Ok::<(), WhitelistError>(()),
{
}

/// A member is added once: adding it again, right after it was added, fails
/// with `AlreadyWhitelisted`.
pub proof fn lemma_member_is_added_once(
    ledger: LedgerView,
    authority: Seq<u8>,
    whitelist: Seq<u8>,
    member: Seq<u8>,
)
    requires
        add_to_whitelist_outcome(ledger, authority, whitelist, member) is Ok,
    ensures
        add_to_whitelist_outcome(ledger, authority, whitelist, member) matches Ok(added)
            && add_to_whitelist_outcome(added, authority, whitelist, member) == Err::<
            LedgerView,
            WhitelistError,
        >(WhitelistError::AlreadyWhitelisted),
{
}

/// A member that was removed is no longer whitelisted: the check for it fails
/// with `NotFound`.
pub proof fn lemma_removed_member_is_not_whitelisted(
    ledger: LedgerView,
    authority: Seq<u8>,
    whitelist: Seq<u8>,
    member: Seq<u8>,
)
    requires
        remove_from_whitelist_outcome(ledger, authority, whitelist, member) is Ok,
    ensures
        remove_from_whitelist_outcome(ledger, authority, whitelist, member) matches Ok(removed)
            && check_whitelisted_outcome(removed, whitelist, member) == Err::<(), WhitelistError>(
            WhitelistError::NotFound,
        ),
{
}

/// A member that was added and then removed can be added again.
pub proof fn lemma_removed_member_can_be_added_again(
    ledger: LedgerView,
    authority: Seq<u8>,
    whitelist: Seq<u8>,
    member: Seq<u8>,
)
    requires
        add_to_whitelist_outcome(ledger, authority, whitelist, member) matches Ok(added)
            && remove_from_whitelist_outcome(added, authority, whitelist, member) is Ok,
    ensures
        add_to_whitelist_outcome(ledger, authority, whitelist, member) matches Ok(added)
            && remove_from_whitelist_outcome(added, authority, whitelist, member) matches Ok(
            removed,
        ) && add_to_whitelist_outcome(removed, authority, whitelist, member) is Ok,
{
}

/// Membership does not cross lists: adding a member to one list never makes
/// it a member of another. Where the check for `member` in `other` failed
/// before `member` was added to `whitelist`, it fails afterwards.
pub proof fn lemma_membership_does_not_cross_lists(
    ledger: LedgerView,
    authority: Seq<u8>,
    whitelist: Seq<u8>,
    other: Seq<u8>,
    member: Seq<u8>,
)
    requires
        whitelist != other,
        check_whitelisted_outcome(ledger, other, member) is Err,
    ensures
        add_to_whitelist_outcome(ledger, authority, whitelist, member) matches Ok(added)
            ==> check_whitelisted_outcome(added, other, member) is Err,
{
}

/// A membership record counts for its own list only: the check for a member
/// in `whitelist` succeeds exactly where the record at the derived address is
/// a membership record whose parent is `whitelist`.
pub proof fn lemma_membership_is_the_entry(ledger: LedgerView, whitelist: Seq<u8>, member: Seq<u8>)
    ensures
        check_whitelisted_outcome(ledger, whitelist, member) is Ok <==> (entry_key(
            member,
            whitelist,
        ) matches Some(address) && as_entry(ledger.record(address)) matches Some(entry)
            && entry.parent == whitelist),
{
}

/// Records stay in place: where every record of the ledger is stored at the
/// address derived from its own fields, the same holds after any instruction
/// of the program, whatever comes of it.
pub proof fn lemma_records_stay_in_place(
    ledger: LedgerView,
    signer: Seq<u8>,
    name: Seq<char>,
    whitelist: Seq<u8>,
    member: Seq<u8>,
)
    requires
        is_canonical(ledger),
    ensures
        init_whitelist_outcome(ledger, signer, name) matches Ok(next) ==> is_canonical(next),
        delete_whitelist_outcome(ledger, signer, name) matches Ok(next) ==> is_canonical(next),
        add_to_whitelist_outcome(ledger, signer, whitelist, member) matches Ok(next)
            ==> is_canonical(next),
        remove_from_whitelist_outcome(ledger, signer, whitelist, member) matches Ok(next)
            ==> is_canonical(next),
{
    match init_whitelist_outcome(ledger, signer, name) {
        Ok(next) => {
            assert forall|address: Seq<u8>| #[trigger] is_in_place(next, address) by {
                assert(is_in_place(ledger, address));
            }
        },
        Err(_) => {},
    }
    match delete_whitelist_outcome(ledger, signer, name) {
        Ok(next) => {
            assert forall|address: Seq<u8>| #[trigger] is_in_place(next, address) by {
                assert(is_in_place(ledger, address));
            }
        },
        Err(_) => {},
    }
    match add_to_whitelist_outcome(ledger, signer, whitelist, member) {
        Ok(next) => {
            assert forall|address: Seq<u8>| #[trigger] is_in_place(next, address) by {
                assert(is_in_place(ledger, address));
            }
        },
        Err(_) => {},
    }
    match remove_from_whitelist_outcome(ledger, signer, whitelist, member) {
        Ok(next) => {
            assert forall|address: Seq<u8>| #[trigger] is_in_place(next, address) by {
                assert(is_in_place(ledger, address));
            }
        },
        Err(_) => {},
    }
}

/// Records never change: whatever an instruction of the program does, a
/// record that is stored before and after it is the same record. An
/// instruction only creates a record where there was none, or removes one.
pub proof fn lemma_records_never_change(
    ledger: LedgerView,
    signer: Seq<u8>,
    name: Seq<char>,
    whitelist: Seq<u8>,
    member: Seq<u8>,
    address: Seq<u8>,
)
    requires
        ledger.record(address) is Some,
    ensures
        init_whitelist_outcome(ledger, signer, name) matches Ok(next) ==> next.record(address)
            == ledger.record(address),
        delete_whitelist_outcome(ledger, signer, name) matches Ok(next) ==> next.record(address)
            == ledger.record(address) || next.record(address) is None,
        add_to_whitelist_outcome(ledger, signer, whitelist, member) matches Ok(next)
            ==> next.record(address) == ledger.record(address),
        remove_from_whitelist_outcome(ledger, signer, whitelist, member) matches Ok(next)
            ==> next.record(address) == ledger.record(address) || next.record(address) is None,
{
}

/// The deposit comes back: the authority that created a list and then
/// deleted it holds what it held before, and what the list's account held
/// before on top; the list's account holds nothing.
pub proof fn lemma_deleting_refunds_the_deposit(
    ledger: LedgerView,
    authority: Seq<u8>,
    name: Seq<char>,
)
    requires
        init_whitelist_outcome(ledger, authority, name) matches Ok(created)
            && delete_whitelist_outcome(created, authority, name) is Ok,
        whitelist_key(authority, name) != Some(authority),
    ensures
        init_whitelist_outcome(ledger, authority, name) matches Ok(created)
            && delete_whitelist_outcome(created, authority, name) matches Ok(deleted)
            && whitelist_key(authority, name) matches Some(address) && {
            &&& deleted.lamports(authority) == ledger.lamports(authority) + ledger.lamports(
                address,
            )
            &&& deleted.lamports(address) == 0
        },
{
}

/// The deposit comes back: the authority that added a member and then
/// removed it holds what it held before, and what the entry's account held
/// before on top; the entry's account holds nothing.
pub proof fn lemma_removing_refunds_the_deposit(
    ledger: LedgerView,
    authority: Seq<u8>,
    whitelist: Seq<u8>,
    member: Seq<u8>,
)
    requires
        add_to_whitelist_outcome(ledger, authority, whitelist, member) matches Ok(added)
            && remove_from_whitelist_outcome(added, authority, whitelist, member) is Ok,
        entry_key(member, whitelist) != Some(authority),
    ensures
        add_to_whitelist_outcome(ledger, authority, whitelist, member) matches Ok(added)
            && remove_from_whitelist_outcome(added, authority, whitelist, member) matches Ok(
            removed,
        ) && entry_key(member, whitelist) matches Some(address) && {
            &&& removed.lamports(authority) == ledger.lamports(authority) + ledger.lamports(
                address,
            )
            &&& removed.lamports(address) == 0
        },
{
}

/// A ledger without records has every record in place, and adding lamports
/// to an account moves no record.
pub proof fn lemma_deposits_move_no_record(ledger: LedgerView, key: Seq<u8>, lamports: u64)
    ensures
        (forall|address: Seq<u8>| ledger.record(address) is None) ==> is_canonical(ledger),
        is_canonical(ledger) ==> (ledger.deposit(key, lamports) matches Ok(next) ==> is_canonical(
            next,
        )),
{
    if forall|address: Seq<u8>| ledger.record(address) is None {
        assert forall|address: Seq<u8>| #[trigger] is_in_place(ledger, address) by {
            assert(ledger.record(address) is None);
        }
    }
    if is_canonical(ledger) {
        match ledger.deposit(key, lamports) {
            Ok(next) => {
                assert forall|address: Seq<u8>| #[trigger] is_in_place(next, address) by {
                    assert(is_in_place(ledger, address));
                }
            },
            Err(_) => {},
        }
    }
}

/// Where every record is in place, there is at most one list for each
/// authority and name, and at most one entry for each member and list.
pub proof fn lemma_one_record_per_seeds(ledger: LedgerView, here: Seq<u8>, there: Seq<u8>)
    requires
        is_canonical(ledger),
    ensures
        (ledger.record(here) matches Some(RecordView::Whitelist(one)) && ledger.record(
            there,
        ) matches Some(RecordView::Whitelist(two)) && one == two) ==> here == there,
        (ledger.record(here) matches Some(RecordView::WhitelistEntry(one)) && ledger.record(
            there,
        ) matches Some(RecordView::WhitelistEntry(two)) && one == two) ==> here == there,
{
    assert(is_in_place(ledger, here));
    assert(is_in_place(ledger, there));
}

} // verus!
