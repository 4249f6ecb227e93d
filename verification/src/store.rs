//! The verified reference model of the document store: five logical
//! collections plus the two optional secondary indexes, with the exact write
//! semantics every flush must follow — compare-and-set upserts on the
//! current-account state, monotonic slot-status transitions, unconditional
//! appends for the immutable kinds, and read-before-write index maintenance.
//! The unverified store adapter mirrors these semantics document for
//! document; tests exercise them through this model.

use vstd::prelude::*;
use vstd::pervasive::VecAdditionalExecFns;
use crate::records::{
    DbAccountInfo, LogTransactionRequest, SlotMetadata, SlotStatus, TokenSecondaryIndexEntry,
    UpdateBlockMetadataRequest, accounts_equiv, bytes_eq, clone_bytes, copy_account, extract_mint,
    is_strictly_newer, mint_of, opt_bytes_eq,
};
use crate::slot_state::{check_slot_transition, valid_transition};

verus! {

/// No two records in a current-state collection share a pubkey.
pub open spec fn accounts_unique(s: Seq<DbAccountInfo>) -> bool {
    forall|i: int, j: int| 0 <= i < j < s.len() ==> s[i].pubkey@ != s[j].pubkey@
}

/// Some record with identity key `k` is stored.
pub open spec fn has_account(s: Seq<DbAccountInfo>, k: Seq<u8>) -> bool {
    exists|i: int| 0 <= i < s.len() && s[i].pubkey@ == k
}

/// The position of the record with identity key `k` (meaningful when unique
/// and present).
pub open spec fn account_index(s: Seq<DbAccountInfo>, k: Seq<u8>) -> int {
    choose|i: int| 0 <= i < s.len() && s[i].pubkey@ == k
}

/// The stored current-state record under identity key `k`, if any.
pub open spec fn stored_account(s: Seq<DbAccountInfo>, k: Seq<u8>) -> Option<DbAccountInfo> {
    if has_account(s, k) {
        Some(s[account_index(s, k)])
    } else {
        None
    }
}

/// The compare-and-set condition: an incoming record wins against the stored
/// state exactly when nothing is stored yet or the stored ordering key is
/// strictly smaller.
pub open spec fn cas_applies(prev: Option<DbAccountInfo>, acc: DbAccountInfo) -> bool {
    match prev {
        None => true,
        Some(p) => p.spec_older_than(&acc),
    }
}

/// The record that is current after one compare-and-set upsert of `acc`
/// against the stored state `prev`.
pub open spec fn cas_winner(prev: Option<DbAccountInfo>, acc: DbAccountInfo) -> DbAccountInfo {
    if cas_applies(prev, acc) {
        acc
    } else {
        prev->Some_0
    }
}

/// In a unique collection, position `i` is exactly where its own pubkey is
/// found.
proof fn lemma_unique_account_index(s: Seq<DbAccountInfo>, i: int)
    requires
        accounts_unique(s),
        0 <= i < s.len(),
    ensures
        has_account(s, s[i].pubkey@),
        account_index(s, s[i].pubkey@) == i,
{
    assert(has_account(s, s[i].pubkey@));
    let j = account_index(s, s[i].pubkey@);
    assert(0 <= j < s.len() && s[j].pubkey@ == s[i].pubkey@);
    if j < i {
        assert(s[j].pubkey@ != s[i].pubkey@);
    } else if i < j {
        assert(s[i].pubkey@ != s[j].pubkey@);
    }
}

/// Locates the current-state record with the given pubkey.
fn find_account_index(accounts: &Vec<DbAccountInfo>, pubkey: &Vec<u8>) -> (r: Option<usize>)
    ensures
        match r {
            Some(i) => i < accounts@.len() && accounts@[i as int].pubkey@ == pubkey@,
            None => !has_account(accounts@, pubkey@),
        },
{
    let mut i: usize = 0;
    while i < accounts.len()
        invariant
            0 <= i <= accounts@.len(),
            forall|j: int| 0 <= j < i ==> accounts@[j].pubkey@ != pubkey@,
        decreases accounts@.len() - i,
    {
        if bytes_eq(&accounts[i].pubkey, pubkey) {
            return Some(i);
        }
        i = i + 1;
    }
    None
}

/// No two entries of a secondary index concern the same account pubkey.
pub open spec fn index_unique_pubkey(s: Seq<TokenSecondaryIndexEntry>) -> bool {
    forall|i: int, j: int| 0 <= i < j < s.len() ==> s[i].pubkey@ != s[j].pubkey@
}

/// The index maps secondary key `sec` to an account set containing `pk`.
pub open spec fn index_has_entry(s: Seq<TokenSecondaryIndexEntry>, sec: Seq<u8>, pk: Seq<u8>) -> bool {
    exists|i: int| 0 <= i < s.len() && s[i].secondary_key@ == sec && s[i].pubkey@ == pk
}

/// Some entry for account `pk` exists in the index, under whatever key.
pub open spec fn index_has_pubkey(s: Seq<TokenSecondaryIndexEntry>, pk: Seq<u8>) -> bool {
    exists|i: int| 0 <= i < s.len() && s[i].pubkey@ == pk
}

/// What one logically atomic index maintenance step leaves behind, given the
/// indexed attribute before (`prev_key`) and after (`new_key`) the winning
/// account write: nothing when the attribute did not change; otherwise the
/// account appears under the new key and under no other, entries for other
/// accounts untouched, and an account whose attribute vanished is absent.
pub open spec fn index_updated(
    old_idx: Seq<TokenSecondaryIndexEntry>,
    new_idx: Seq<TokenSecondaryIndexEntry>,
    pk: Seq<u8>,
    prev_key: Option<Seq<u8>>,
    new_key: Option<Seq<u8>>,
) -> bool {
    if prev_key == new_key {
        new_idx == old_idx
    } else {
        &&& match new_key {
            Some(k) => index_has_entry(new_idx, k, pk) && forall|sec: Seq<u8>|
                index_has_entry(new_idx, sec, pk) ==> sec == k,
            None => !index_has_pubkey(new_idx, pk),
        }
        &&& forall|sec: Seq<u8>, pk2: Seq<u8>|
            pk2 != pk ==> index_has_entry(new_idx, sec, pk2) == index_has_entry(old_idx, sec, pk2)
    }
}

/// Position of the entry for `i`'s own pubkey in a unique index.
proof fn lemma_unique_entry_index(s: Seq<TokenSecondaryIndexEntry>, i: int, j: int)
    requires
        index_unique_pubkey(s),
        0 <= i < s.len(),
        0 <= j < s.len(),
        s[i].pubkey@ == s[j].pubkey@,
    ensures
        i == j,
{
    if i < j {
        assert(s[i].pubkey@ != s[j].pubkey@);
    } else if j < i {
        assert(s[j].pubkey@ != s[i].pubkey@);
    }
}

/// Locates the index entry for an account pubkey.
fn find_index_entry(index: &Vec<TokenSecondaryIndexEntry>, pubkey: &Vec<u8>) -> (r: Option<usize>)
    ensures
        match r {
            Some(i) => i < index@.len() && index@[i as int].pubkey@ == pubkey@,
            None => !index_has_pubkey(index@, pubkey@),
        },
{
    let mut i: usize = 0;
    while i < index.len()
        invariant
            0 <= i <= index@.len(),
            forall|j: int| 0 <= j < i ==> index@[j].pubkey@ != pubkey@,
        decreases index@.len() - i,
    {
        if bytes_eq(&index[i].pubkey, pubkey) {
            return Some(i);
        }
        i = i + 1;
    }
    None
}

/// Moves the account `pubkey` to stand under `new_key` in the index as one
/// logical step: its old entry, if any, is replaced, and no entry of another
/// account is touched.
fn set_index_entry(index: &mut Vec<TokenSecondaryIndexEntry>, pubkey: &Vec<u8>, new_key: Vec<u8>, slot: i64)
    requires
        index_unique_pubkey(old(index)@),
    ensures
        index_unique_pubkey(final(index)@),
        index_has_entry(final(index)@, new_key@, pubkey@),
        forall|sec: Seq<u8>| index_has_entry(final(index)@, sec, pubkey@) ==> sec == new_key@,
        forall|sec: Seq<u8>, pk2: Seq<u8>|
            pk2 != pubkey@ ==> index_has_entry(final(index)@, sec, pk2) == index_has_entry(
                old(index)@,
                sec,
                pk2,
            ),
{
    let entry = TokenSecondaryIndexEntry { secondary_key: new_key, pubkey: clone_bytes(pubkey), slot };
    let found = find_index_entry(index, pubkey);
    match found {
        Some(i) => {
            index.set(i, entry);
            proof {
                let s_old = old(index)@;
                let s_new = index@;
                assert forall|a: int, b: int| 0 <= a < b < s_new.len() implies s_new[a].pubkey@
                    != s_new[b].pubkey@ by {
                    if a != i && b != i {
                        assert(s_new[a] == s_old[a] && s_new[b] == s_old[b]);
                    } else if a == i {
                        assert(s_new[a].pubkey@ == s_old[a].pubkey@ && s_new[b] == s_old[b]);
                    } else {
                        assert(s_new[b].pubkey@ == s_old[b].pubkey@ && s_new[a] == s_old[a]);
                    }
                }
                assert(s_new[i as int].secondary_key@ == new_key@ && s_new[i as int].pubkey@
                    == pubkey@);
                assert forall|sec: Seq<u8>| index_has_entry(s_new, sec, pubkey@) implies sec
                    == new_key@ by {
                    let w = choose|w: int|
                        0 <= w < s_new.len() && s_new[w].secondary_key@ == sec && s_new[w].pubkey@
                            == pubkey@;
                    lemma_unique_entry_index(s_new, w, i as int);
                }
                assert forall|sec: Seq<u8>, pk2: Seq<u8>| pk2 != pubkey@ implies index_has_entry(
                    s_new,
                    sec,
                    pk2,
                ) == index_has_entry(s_old, sec, pk2) by {
                    if index_has_entry(s_new, sec, pk2) {
                        let w = choose|w: int|
                            0 <= w < s_new.len() && s_new[w].secondary_key@ == sec
                                && s_new[w].pubkey@ == pk2;
                        assert(w != i);
                        assert(s_old[w] == s_new[w]);
                        assert(index_has_entry(s_old, sec, pk2));
                    }
                    if index_has_entry(s_old, sec, pk2) {
                        let w = choose|w: int|
                            0 <= w < s_old.len() && s_old[w].secondary_key@ == sec
                                && s_old[w].pubkey@ == pk2;
                        assert(w != i);
                        assert(s_new[w] == s_old[w]);
                        assert(index_has_entry(s_new, sec, pk2));
                    }
                }
            }
        },
        None => {
            index.push(entry);
            proof {
                let s_old = old(index)@;
                let s_new = index@;
                let n = s_old.len() as int;
                assert forall|a: int, b: int| 0 <= a < b < s_new.len() implies s_new[a].pubkey@
                    != s_new[b].pubkey@ by {
                    if b < n {
                        assert(s_new[a] == s_old[a] && s_new[b] == s_old[b]);
                    } else {
                        assert(s_new[a] == s_old[a]);
                        assert(s_new[b].pubkey@ == pubkey@);
                        assert(!index_has_pubkey(s_old, pubkey@));
                        assert(s_old[a].pubkey@ != pubkey@);
                    }
                }
                assert(s_new[n].secondary_key@ == new_key@ && s_new[n].pubkey@ == pubkey@);
                assert forall|sec: Seq<u8>| index_has_entry(s_new, sec, pubkey@) implies sec
                    == new_key@ by {
                    let w = choose|w: int|
                        0 <= w < s_new.len() && s_new[w].secondary_key@ == sec && s_new[w].pubkey@
                            == pubkey@;
                    if w < n {
                        assert(s_old[w].pubkey@ == pubkey@);
                        assert(index_has_pubkey(s_old, pubkey@));
                    }
                }
                assert forall|sec: Seq<u8>, pk2: Seq<u8>| pk2 != pubkey@ implies index_has_entry(
                    s_new,
                    sec,
                    pk2,
                ) == index_has_entry(s_old, sec, pk2) by {
                    if index_has_entry(s_new, sec, pk2) {
                        let w = choose|w: int|
                            0 <= w < s_new.len() && s_new[w].secondary_key@ == sec
                                && s_new[w].pubkey@ == pk2;
                        assert(w != n);
                        assert(index_has_entry(s_old, sec, pk2));
                    }
                    if index_has_entry(s_old, sec, pk2) {
                        let w = choose|w: int|
                            0 <= w < s_old.len() && s_old[w].secondary_key@ == sec
                                && s_old[w].pubkey@ == pk2;
                        assert(s_new[w] == s_old[w]);
                        assert(index_has_entry(s_new, sec, pk2));
                    }
                }
            }
        },
    }
}

/// Removes the entry for account `pubkey` from the index, if one exists,
/// touching nothing else.
fn remove_index_entry(index: &mut Vec<TokenSecondaryIndexEntry>, pubkey: &Vec<u8>)
    requires
        index_unique_pubkey(old(index)@),
    ensures
        index_unique_pubkey(final(index)@),
        !index_has_pubkey(final(index)@, pubkey@),
        forall|sec: Seq<u8>, pk2: Seq<u8>|
            pk2 != pubkey@ ==> index_has_entry(final(index)@, sec, pk2) == index_has_entry(
                old(index)@,
                sec,
                pk2,
            ),
{
    let found = find_index_entry(index, pubkey);
    match found {
        Some(i) => {
            index.remove(i);
            proof {
                let s_old = old(index)@;
                let s_new = index@;
                let n = i as int;
                assert(s_new == s_old.remove(n));
                assert forall|a: int, b: int| 0 <= a < b < s_new.len() implies s_new[a].pubkey@
                    != s_new[b].pubkey@ by {
                    let a0 = if a < n { a } else { a + 1 };
                    let b0 = if b < n { b } else { b + 1 };
                    assert(s_new[a] == s_old[a0] && s_new[b] == s_old[b0]);
                }
                assert forall|w: int| 0 <= w < s_new.len() implies s_new[w].pubkey@ != pubkey@ by {
                    let w0 = if w < n { w } else { w + 1 };
                    assert(s_new[w] == s_old[w0]);
                    if s_old[w0].pubkey@ == pubkey@ {
                        lemma_unique_entry_index(s_old, w0, n);
                        assert(false);
                    }
                }
                assert forall|sec: Seq<u8>, pk2: Seq<u8>| pk2 != pubkey@ implies index_has_entry(
                    s_new,
                    sec,
                    pk2,
                ) == index_has_entry(s_old, sec, pk2) by {
                    if index_has_entry(s_new, sec, pk2) {
                        let w = choose|w: int|
                            0 <= w < s_new.len() && s_new[w].secondary_key@ == sec
                                && s_new[w].pubkey@ == pk2;
                        let w0 = if w < n { w } else { w + 1 };
                        assert(s_new[w] == s_old[w0]);
                        assert(index_has_entry(s_old, sec, pk2));
                    }
                    if index_has_entry(s_old, sec, pk2) {
                        let w0 = choose|w0: int|
                            0 <= w0 < s_old.len() && s_old[w0].secondary_key@ == sec
                                && s_old[w0].pubkey@ == pk2;
                        assert(w0 != n);
                        let w = if w0 < n { w0 } else { w0 - 1 };
                        assert(s_new[w] == s_old[w0]);
                        assert(index_has_entry(s_new, sec, pk2));
                    }
                }
            }
        },
        None => {
        },
    }
}

/// Applying two competing updates for one pubkey in either order leaves the
/// record with the strictly greater ordering key as the current state: the
/// compare-and-set discipline is insensitive to arrival order, so parallel
/// workers need no global sequencer.
pub proof fn lemma_cas_order_independent(a1: DbAccountInfo, a2: DbAccountInfo)
    requires
        a1.pubkey@ == a2.pubkey@,
        a1.spec_older_than(&a2),
    ensures
        cas_winner(Some(cas_winner(None, a1)), a2) == a2,
        cas_winner(Some(cas_winner(None, a2)), a1) == a2,
{
}

/// From any prior stored state, two competing updates to one pubkey land on
/// the same current record whichever worker's flush goes first; and whenever
/// the prior state does not already beat the fresher update, the fresher
/// update is what ends up stored.
pub proof fn lemma_cas_commutes(prev: Option<DbAccountInfo>, a1: DbAccountInfo, a2: DbAccountInfo)
    requires
        a1.pubkey@ == a2.pubkey@,
        a1.spec_older_than(&a2),
    ensures
        cas_winner(Some(cas_winner(prev, a1)), a2) == cas_winner(Some(cas_winner(prev, a2)), a1),
        (match prev {
            None => true,
            Some(p) => p.spec_older_than(&a2),
        }) ==> cas_winner(Some(cas_winner(prev, a1)), a2) == a2,
{
}

/// After a winning account write changed the indexed attribute from `x` to
/// `y`, the account stands in the index exactly once — under `y` — and not
/// at all under `x`.
pub proof fn lemma_owner_change_reindexes(
    old_idx: Seq<TokenSecondaryIndexEntry>,
    new_idx: Seq<TokenSecondaryIndexEntry>,
    pk: Seq<u8>,
    x: Seq<u8>,
    y: Seq<u8>,
)
    requires
        index_updated(old_idx, new_idx, pk, Some(x), Some(y)),
        x != y,
    ensures
        index_has_entry(new_idx, y, pk),
        !index_has_entry(new_idx, x, pk),
{
    if index_has_entry(new_idx, x, pk) {
        assert(x == y);
    }
}

/// A stale update never displaces a fresher stored record, whatever state it
/// finds: after any upsert of `a1`, the stored ordering key is at least
/// `a1`'s if `a1` won, and the stored record is unchanged otherwise.
pub proof fn lemma_cas_never_regresses(prev: Option<DbAccountInfo>, acc: DbAccountInfo)
    ensures
        !cas_applies(prev, acc) ==> cas_winner(prev, acc) == prev->Some_0,
        cas_applies(prev, acc) ==> cas_winner(prev, acc) == acc,
{
}

/// No two stored slot records share a slot number.
pub open spec fn slots_unique(s: Seq<SlotMetadata>) -> bool {
    forall|i: int, j: int| 0 <= i < j < s.len() ==> s[i].slot != s[j].slot
}

/// A record for `slot` is stored.
pub open spec fn has_slot(s: Seq<SlotMetadata>, slot: u64) -> bool {
    exists|i: int| 0 <= i < s.len() && s[i].slot == slot
}

/// Position of the record for `slot` (meaningful when unique and present).
pub open spec fn slot_index(s: Seq<SlotMetadata>, slot: u64) -> int {
    choose|i: int| 0 <= i < s.len() && s[i].slot == slot
}

/// The status currently stored for `slot`; `None` when the slot has not been
/// seen.
pub open spec fn stored_slot_status(s: Seq<SlotMetadata>, slot: u64) -> Option<SlotStatus> {
    if has_slot(s, slot) {
        Some(s[slot_index(s, slot)].status)
    } else {
        None
    }
}

/// In a unique slot collection, position `i` is exactly where its own slot
/// number is found.
proof fn lemma_unique_slot_index(s: Seq<SlotMetadata>, i: int)
    requires
        slots_unique(s),
        0 <= i < s.len(),
    ensures
        has_slot(s, s[i].slot),
        slot_index(s, s[i].slot) == i,
{
    assert(has_slot(s, s[i].slot));
    let j = slot_index(s, s[i].slot);
    if j < i {
        assert(s[j].slot != s[i].slot);
    } else if i < j {
        assert(s[i].slot != s[j].slot);
    }
}

/// Locates the stored record for a slot.
fn find_slot_index(slots: &Vec<SlotMetadata>, slot: u64) -> (r: Option<usize>)
    ensures
        match r {
            Some(i) => i < slots@.len() && slots@[i as int].slot == slot,
            None => !has_slot(slots@, slot),
        },
{
    let mut i: usize = 0;
    while i < slots.len()
        invariant
            0 <= i <= slots@.len(),
            forall|j: int| 0 <= j < i ==> slots@[j].slot != slot,
        decreases slots@.len() - i,
    {
        if slots[i].slot == slot {
            return Some(i);
        }
        i = i + 1;
    }
    None
}

/// The indexed attribute stored for `k` before an update: its owner.
pub open spec fn prev_owner_key(s: Seq<DbAccountInfo>, k: Seq<u8>) -> Option<Seq<u8>> {
    match stored_account(s, k) {
        Some(p) => Some(p.owner@),
        None => None,
    }
}

/// The indexed attribute stored for `k` before an update: its mint.
pub open spec fn prev_mint_key(s: Seq<DbAccountInfo>, k: Seq<u8>) -> Option<Seq<u8>> {
    match stored_account(s, k) {
        Some(p) => mint_of(p.data@),
        None => None,
    }
}

/// The in-memory reference of the document store: the write semantics that
/// one worker's flush applies, collection by collection.
pub struct StoreModel {
    /// Whether the owner index is maintained.
    pub index_token_owner: bool,
    /// Whether the mint index is maintained.
    pub index_token_mint: bool,
    /// Whether every account write also lands in the historical collection.
    pub store_historical: bool,
    /// Current-state account records, at most one per pubkey.
    pub accounts: Vec<DbAccountInfo>,
    /// Append-only historical account writes, keyed by
    /// `(pubkey, slot, write_version)`.
    pub historical_accounts: Vec<DbAccountInfo>,
    /// Slot records, at most one per slot.
    pub slots: Vec<SlotMetadata>,
    /// Append-only transaction log entries.
    pub transaction_logs: Vec<LogTransactionRequest>,
    /// Append-only block metadata, one per slot.
    pub block_metadata: Vec<UpdateBlockMetadataRequest>,
    /// Owner-index entries, at most one per account pubkey.
    pub token_owner_index: Vec<TokenSecondaryIndexEntry>,
    /// Mint-index entries, at most one per account pubkey.
    pub token_mint_index: Vec<TokenSecondaryIndexEntry>,
}

impl StoreModel {
    /// Every keyed collection holds at most one record per identity key.
    pub open spec fn wf(&self) -> bool {
        &&& accounts_unique(self.accounts@)
        &&& slots_unique(self.slots@)
        &&& index_unique_pubkey(self.token_owner_index@)
        &&& index_unique_pubkey(self.token_mint_index@)
    }

    /// The store's configuration flags never change after construction.
    pub open spec fn same_flags(&self, other: &StoreModel) -> bool {
        &&& self.index_token_owner == other.index_token_owner
        &&& self.index_token_mint == other.index_token_mint
        &&& self.store_historical == other.store_historical
    }

    /// An empty store with the given feature flags.
    pub fn new(index_token_owner: bool, index_token_mint: bool, store_historical: bool) -> (r:
        StoreModel)
        ensures
            r.wf(),
            r.index_token_owner == index_token_owner,
            r.index_token_mint == index_token_mint,
            r.store_historical == store_historical,
            r.accounts@.len() == 0,
            r.historical_accounts@.len() == 0,
            r.slots@.len() == 0,
            r.transaction_logs@.len() == 0,
            r.block_metadata@.len() == 0,
            r.token_owner_index@.len() == 0,
            r.token_mint_index@.len() == 0,
    {
        StoreModel {
            index_token_owner,
            index_token_mint,
            store_historical,
            accounts: Vec::new(),
            historical_accounts: Vec::new(),
            slots: Vec::new(),
            transaction_logs: Vec::new(),
            block_metadata: Vec::new(),
            token_owner_index: Vec::new(),
            token_mint_index: Vec::new(),
        }
    }

    /// Applies one account write: an unconditional historical append when
    /// enabled, the compare-and-set upsert on the current state, and — only
    /// when the write wins — read-before-write maintenance of the enabled
    /// secondary indexes. A stale record (`applied == false`) changes
    /// neither the current state nor any index.
    pub fn apply_account_write(&mut self, acc: DbAccountInfo) -> (applied: bool)
        requires
            old(self).wf(),
        ensures
            final(self).wf(),
            final(self).same_flags(old(self)),
            applied == cas_applies(stored_account(old(self).accounts@, acc.pubkey@), acc),
            stored_account(final(self).accounts@, acc.pubkey@) == Some(
                cas_winner(stored_account(old(self).accounts@, acc.pubkey@), acc),
            ),
            forall|k: Seq<u8>|
                k != acc.pubkey@ ==> stored_account(final(self).accounts@, k) == stored_account(
                    old(self).accounts@,
                    k,
                ),
            old(self).store_historical ==> final(self).historical_accounts@.len() == old(
                self,
            ).historical_accounts@.len() + 1 && final(self).historical_accounts@.drop_last() == old(
                self,
            ).historical_accounts@ && accounts_equiv(final(self).historical_accounts@.last(), acc),
            !old(self).store_historical ==> final(self).historical_accounts@ == old(
                self,
            ).historical_accounts@,
            old(self).index_token_owner && applied ==> index_updated(
                old(self).token_owner_index@,
                final(self).token_owner_index@,
                acc.pubkey@,
                prev_owner_key(old(self).accounts@, acc.pubkey@),
                Some(acc.owner@),
            ),
            !(old(self).index_token_owner && applied) ==> final(self).token_owner_index@ == old(
                self,
            ).token_owner_index@,
            old(self).index_token_mint && applied ==> index_updated(
                old(self).token_mint_index@,
                final(self).token_mint_index@,
                acc.pubkey@,
                prev_mint_key(old(self).accounts@, acc.pubkey@),
                mint_of(acc.data@),
            ),
            !(old(self).index_token_mint && applied) ==> final(self).token_mint_index@ == old(
                self,
            ).token_mint_index@,
            final(self).slots@ == old(self).slots@,
            final(self).transaction_logs@ == old(self).transaction_logs@,
            final(self).block_metadata@ == old(self).block_metadata@,
    {
        let pk = clone_bytes(&acc.pubkey);
        if self.store_historical {
            self.historical_accounts.push(copy_account(&acc));
            proof {
                assert(self.historical_accounts@.drop_last() =~= old(self).historical_accounts@);
            }
        }
        let found = find_account_index(&self.accounts, &acc.pubkey);
        match found {
            None => {
                let new_owner = clone_bytes(&acc.owner);
                let new_mint = extract_mint(&acc.data);
                let slot = acc.slot;
                let ghost s_old = self.accounts@;
                self.accounts.push(acc);
                proof {
                    let s_new = self.accounts@;
                    let n = s_old.len() as int;
                    assert forall|a: int, b: int| 0 <= a < b < s_new.len() implies s_new[a].pubkey@
                        != s_new[b].pubkey@ by {
                        if b < n {
                            assert(s_new[a] == s_old[a] && s_new[b] == s_old[b]);
                        } else {
                            assert(s_new[a] == s_old[a]);
                            assert(s_new[b].pubkey@ == pk@);
                            assert(!has_account(s_old, pk@));
                        }
                    }
                    lemma_unique_account_index(s_new, n);
                    assert(stored_account(s_new, pk@) == Some(s_new[n]));
                    assert forall|k: Seq<u8>| k != pk@ implies stored_account(s_new, k)
                        == stored_account(s_old, k) by {
                        lemma_stored_frame_update(s_old, s_new, n, k);
                    }
                }
                if self.index_token_owner {
                    set_index_entry(&mut self.token_owner_index, &pk, new_owner, slot);
                }
                if self.index_token_mint {
                    match new_mint {
                        Some(m) => {
                            set_index_entry(&mut self.token_mint_index, &pk, m, slot);
                        },
                        None => {
                        },
                    }
                }
                true
            },
            Some(i) => {
                proof {
                    lemma_unique_account_index(self.accounts@, i as int);
                }
                let prev_slot = self.accounts[i].slot;
                let prev_wv = self.accounts[i].write_version;
                if is_strictly_newer(prev_slot, prev_wv, acc.slot, acc.write_version) {
                    let prev_owner = clone_bytes(&self.accounts[i].owner);
                    let prev_mint = extract_mint(&self.accounts[i].data);
                    let new_owner = clone_bytes(&acc.owner);
                    let new_mint = extract_mint(&acc.data);
                    let slot = acc.slot;
                    let owner_changed = !bytes_eq(&prev_owner, &new_owner);
                    let mint_changed = !opt_bytes_eq(&prev_mint, &new_mint);
                    let ghost s_old = self.accounts@;
                    self.accounts.set(i, acc);
                    proof {
                        let s_new = self.accounts@;
                        let n = i as int;
                        assert forall|a: int, b: int| 0 <= a < b < s_new.len() implies
                            s_new[a].pubkey@ != s_new[b].pubkey@ by {
                            if a != n && b != n {
                                assert(s_new[a] == s_old[a] && s_new[b] == s_old[b]);
                            } else if a == n {
                                assert(s_new[a].pubkey@ == s_old[a].pubkey@ && s_new[b]
                                    == s_old[b]);
                            } else {
                                assert(s_new[b].pubkey@ == s_old[b].pubkey@ && s_new[a]
                                    == s_old[a]);
                            }
                        }
                        lemma_unique_account_index(s_new, n);
                        assert(stored_account(s_new, pk@) == Some(s_new[n]));
                        assert forall|k: Seq<u8>| k != pk@ implies stored_account(s_new, k)
                            == stored_account(s_old, k) by {
                            lemma_stored_frame_update(s_old, s_new, n, k);
                        }
                    }
                    if self.index_token_owner {
                        if owner_changed {
                            set_index_entry(&mut self.token_owner_index, &pk, new_owner, slot);
                        }
                    }
                    if self.index_token_mint {
                        if mint_changed {
                            match new_mint {
                                Some(m) => {
                                    set_index_entry(&mut self.token_mint_index, &pk, m, slot);
                                },
                                None => {
                                    remove_index_entry(&mut self.token_mint_index, &pk);
                                },
                            }
                        }
                    }
                    true
                } else {
                    false
                }
            },
        }
    }
}

impl StoreModel {
    /// Applies one slot-status write: the upsert keyed by `slot` goes
    /// through only when the stored status (absent, when the slot is new)
    /// may move to the incoming one; an invalid transition is discarded
    /// (`applied == false`), never fatal, and changes nothing.
    pub fn apply_slot_update(&mut self, rec: SlotMetadata) -> (applied: bool)
        requires
            old(self).wf(),
        ensures
            final(self).wf(),
            final(self).same_flags(old(self)),
            applied == valid_transition(
                stored_slot_status(old(self).slots@, rec.slot),
                rec.status,
            ),
            applied ==> has_slot(final(self).slots@, rec.slot) && final(self).slots@[slot_index(
                final(self).slots@,
                rec.slot,
            )] == rec,
            !applied ==> final(self).slots@ == old(self).slots@,
            forall|s2: u64|
                s2 != rec.slot ==> stored_slot_status(final(self).slots@, s2)
                    == stored_slot_status(old(self).slots@, s2),
            final(self).accounts@ == old(self).accounts@,
            final(self).historical_accounts@ == old(self).historical_accounts@,
            final(self).transaction_logs@ == old(self).transaction_logs@,
            final(self).block_metadata@ == old(self).block_metadata@,
            final(self).token_owner_index@ == old(self).token_owner_index@,
            final(self).token_mint_index@ == old(self).token_mint_index@,
    {
        let found = find_slot_index(&self.slots, rec.slot);
        match found {
            None => {
                if check_slot_transition(None, rec.status) {
                    let ghost s_old = self.slots@;
                    let ghost slot = rec.slot;
                    self.slots.push(rec);
                    proof {
                        let s_new = self.slots@;
                        let n = s_old.len() as int;
                        assert forall|a: int, b: int| 0 <= a < b < s_new.len() implies
                            s_new[a].slot != s_new[b].slot by {
                            if b < n {
                                assert(s_new[a] == s_old[a] && s_new[b] == s_old[b]);
                            } else {
                                assert(s_new[a] == s_old[a]);
                                assert(!has_slot(s_old, slot));
                            }
                        }
                        lemma_unique_slot_index(s_new, n);
                        lemma_slot_status_frame(s_old, s_new, n);
                    }
                    true
                } else {
                    false
                }
            },
            Some(i) => {
                proof {
                    lemma_unique_slot_index(self.slots@, i as int);
                }
                let prev = self.slots[i].status;
                if check_slot_transition(Some(prev), rec.status) {
                    let ghost s_old = self.slots@;
                    self.slots.set(i, rec);
                    proof {
                        let s_new = self.slots@;
                        let n = i as int;
                        assert forall|a: int, b: int| 0 <= a < b < s_new.len() implies
                            s_new[a].slot != s_new[b].slot by {
                            if a != n && b != n {
                                assert(s_new[a] == s_old[a] && s_new[b] == s_old[b]);
                            } else if a == n {
                                assert(s_new[a].slot == s_old[a].slot && s_new[b] == s_old[b]);
                            } else {
                                assert(s_new[b].slot == s_old[b].slot && s_new[a] == s_old[a]);
                            }
                        }
                        lemma_unique_slot_index(s_new, n);
                        lemma_slot_status_frame(s_old, s_new, n);
                    }
                    true
                } else {
                    false
                }
            },
        }
    }

    /// Appends one immutable transaction log entry; nothing else changes.
    pub fn apply_transaction_log(&mut self, rec: LogTransactionRequest)
        requires
            old(self).wf(),
        ensures
            final(self).wf(),
            final(self).same_flags(old(self)),
            final(self).transaction_logs@ == old(self).transaction_logs@.push(rec),
            final(self).accounts@ == old(self).accounts@,
            final(self).historical_accounts@ == old(self).historical_accounts@,
            final(self).slots@ == old(self).slots@,
            final(self).block_metadata@ == old(self).block_metadata@,
            final(self).token_owner_index@ == old(self).token_owner_index@,
            final(self).token_mint_index@ == old(self).token_mint_index@,
    {
        self.transaction_logs.push(rec);
    }

    /// Appends one immutable block metadata record; nothing else changes.
    pub fn apply_block_metadata(&mut self, rec: UpdateBlockMetadataRequest)
        requires
            old(self).wf(),
        ensures
            final(self).wf(),
            final(self).same_flags(old(self)),
            final(self).block_metadata@ == old(self).block_metadata@.push(rec),
            final(self).accounts@ == old(self).accounts@,
            final(self).historical_accounts@ == old(self).historical_accounts@,
            final(self).slots@ == old(self).slots@,
            final(self).transaction_logs@ == old(self).transaction_logs@,
            final(self).token_owner_index@ == old(self).token_owner_index@,
            final(self).token_mint_index@ == old(self).token_mint_index@,
    {
        self.block_metadata.push(rec);
    }

    /// Reads the stored current-state record for a pubkey, if any.
    pub fn get_current_account(&self, pubkey: &Vec<u8>) -> (r: Option<&DbAccountInfo>)
        requires
            self.wf(),
        ensures
            match r {
                Some(a) => stored_account(self.accounts@, pubkey@) == Some(*a),
                None => stored_account(self.accounts@, pubkey@) is None,
            },
    {
        let found = find_account_index(&self.accounts, pubkey);
        match found {
            Some(i) => {
                proof {
                    lemma_unique_account_index(self.accounts@, i as int);
                }
                Some(&self.accounts[i])
            },
            None => None,
        }
    }

    /// Reads the status stored for a slot, if the slot has been seen.
    pub fn get_slot_status(&self, slot: u64) -> (r: Option<SlotStatus>)
        requires
            self.wf(),
        ensures
            r == stored_slot_status(self.slots@, slot),
    {
        let found = find_slot_index(&self.slots, slot);
        match found {
            Some(i) => {
                proof {
                    lemma_unique_slot_index(self.slots@, i as int);
                }
                Some(self.slots[i].status)
            },
            None => None,
        }
    }

    /// Reads the secondary key under which an account stands in the owner
    /// index, if any.
    pub fn get_owner_index_key(&self, pubkey: &Vec<u8>) -> (r: Option<&Vec<u8>>)
        requires
            self.wf(),
        ensures
            match r {
                Some(k) => index_has_entry(self.token_owner_index@, k@, pubkey@),
                None => !index_has_pubkey(self.token_owner_index@, pubkey@),
            },
    {
        let found = find_index_entry(&self.token_owner_index, pubkey);
        match found {
            Some(i) => Some(&self.token_owner_index[i].secondary_key),
            None => None,
        }
    }

    /// Reads the secondary key under which an account stands in the mint
    /// index, if any.
    pub fn get_mint_index_key(&self, pubkey: &Vec<u8>) -> (r: Option<&Vec<u8>>)
        requires
            self.wf(),
        ensures
            match r {
                Some(k) => index_has_entry(self.token_mint_index@, k@, pubkey@),
                None => !index_has_pubkey(self.token_mint_index@, pubkey@),
            },
    {
        let found = find_index_entry(&self.token_mint_index, pubkey);
        match found {
            Some(i) => Some(&self.token_mint_index[i].secondary_key),
            None => None,
        }
    }
}

/// When two unique slot collections agree everywhere but at position `n`,
/// and the record at `n` keeps its slot number (or is brand new at the end),
/// every other slot's stored status is unchanged.
proof fn lemma_slot_status_frame(s_old: Seq<SlotMetadata>, s_new: Seq<SlotMetadata>, n: int)
    requires
        slots_unique(s_old),
        slots_unique(s_new),
        0 <= n < s_new.len(),
        s_old.len() == s_new.len() || s_old.len() + 1 == s_new.len(),
        s_old.len() == s_new.len() ==> forall|j: int|
            0 <= j < s_new.len() && j != n ==> s_new[j] == s_old[j],
        s_old.len() + 1 == s_new.len() ==> (n == s_old.len() && forall|j: int|
            0 <= j < s_old.len() ==> s_new[j] == s_old[j]),
        s_old.len() == s_new.len() ==> s_old[n].slot == s_new[n].slot,
    ensures
        forall|s2: u64|
            s2 != s_new[n].slot ==> stored_slot_status(s_new, s2) == stored_slot_status(s_old, s2),
{
    assert forall|s2: u64| s2 != s_new[n].slot implies stored_slot_status(s_new, s2)
        == stored_slot_status(s_old, s2) by {
        if has_slot(s_new, s2) {
            let w = slot_index(s_new, s2);
            assert(0 <= w < s_new.len() && s_new[w].slot == s2);
            assert(w != n);
            assert(s_old[w] == s_new[w]);
            lemma_unique_slot_index(s_old, w);
            lemma_unique_slot_index(s_new, w);
        } else {
            if has_slot(s_old, s2) {
                let w = slot_index(s_old, s2);
                assert(w != n);
                assert(s_new[w] == s_old[w]);
                assert(has_slot(s_new, s2));
            }
        }
    }
}

/// When two unique collections agree everywhere but at position `n`, every
/// key other than the one at `n` is stored identically in both.
proof fn lemma_stored_frame_update(
    s_old: Seq<DbAccountInfo>,
    s_new: Seq<DbAccountInfo>,
    n: int,
    k: Seq<u8>,
)
    requires
        accounts_unique(s_old),
        accounts_unique(s_new),
        0 <= n < s_new.len(),
        s_old.len() == s_new.len() || s_old.len() + 1 == s_new.len(),
        s_old.len() == s_new.len() ==> forall|j: int|
            0 <= j < s_new.len() && j != n ==> s_new[j] == s_old[j],
        s_old.len() + 1 == s_new.len() ==> (n == s_old.len() && forall|j: int|
            0 <= j < s_old.len() ==> s_new[j] == s_old[j]),
        k != s_new[n].pubkey@,
        s_old.len() == s_new.len() ==> s_old[n].pubkey@ == s_new[n].pubkey@,
    ensures
        stored_account(s_new, k) == stored_account(s_old, k),
{
    if has_account(s_new, k) {
        let w = account_index(s_new, k);
        assert(0 <= w < s_new.len() && s_new[w].pubkey@ == k);
        assert(w != n);
        assert(s_old[w] == s_new[w]);
        lemma_unique_account_index(s_old, w);
        lemma_unique_account_index(s_new, w);
        assert(stored_account(s_old, k) == Some(s_old[w]));
        assert(stored_account(s_new, k) == Some(s_new[w]));
    } else {
        if has_account(s_old, k) {
            let w = account_index(s_old, k);
            assert(0 <= w < s_old.len() && s_old[w].pubkey@ == k);
            assert(w != n);
            assert(s_new[w] == s_old[w]);
            assert(has_account(s_new, k));
        }
    }
}

} // verus!
