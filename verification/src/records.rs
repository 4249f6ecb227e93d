//! Typed, immutable representations of the four event kinds flowing through
//! the pipeline, their identity and ordering keys, and the comparisons the
//! compare-and-set upsert discipline rests on.

use vstd::prelude::*;

verus! {

/// An account write as it is stored: identity key `pubkey`, ordering key
/// `(slot, write_version)`.
pub struct DbAccountInfo {
    pub pubkey: Vec<u8>,
    pub lamports: i64,
    pub owner: Vec<u8>,
    pub executable: bool,
    pub rent_epoch: i64,
    pub data: Vec<u8>,
    pub slot: i64,
    pub write_version: i64,
    pub txn_signature: Option<Vec<u8>>,
}

/// True when the ordering key `(slot, write_version)` is strictly greater
/// than `(prev_slot, prev_write_version)` in lexicographic order. Only an
/// update with a strictly greater ordering key may replace the stored
/// current-state record for a pubkey.
pub open spec fn key_newer(prev_slot: i64, prev_write_version: i64, slot: i64, write_version: i64) -> bool {
    prev_slot < slot || (prev_slot == slot && prev_write_version < write_version)
}

/// Decides whether an incoming ordering key wins the compare-and-set upsert
/// against the stored one.
pub fn is_strictly_newer(prev_slot: i64, prev_write_version: i64, slot: i64, write_version: i64) -> (r: bool)
    ensures
        r == key_newer(prev_slot, prev_write_version, slot, write_version),
{
    prev_slot < slot || (prev_slot == slot && prev_write_version < write_version)
}

impl DbAccountInfo {
    /// The incoming record `other` may replace `self` as the current state.
    pub open spec fn spec_older_than(&self, other: &DbAccountInfo) -> bool {
        key_newer(self.slot, self.write_version, other.slot, other.write_version)
    }
}

/// The status of a slot as reported by the upstream host. For a fixed slot,
/// stored statuses move monotonically along Processed < Confirmed < Rooted;
/// Dead is terminal.
#[derive(Clone, Copy, PartialEq, Eq, Structural, Debug)]
pub enum SlotStatus {
    Processed,
    Confirmed,
    Rooted,
    Dead,
}

/// A slot's stored metadata: identity key `slot`. Parent linkage is recorded
/// but not validated against ancestor existence here.
pub struct SlotMetadata {
    pub slot: u64,
    pub parent: Option<u64>,
    pub status: SlotStatus,
    pub blockhash: Option<String>,
    pub leader: Option<Vec<u8>>,
    pub timestamp: Option<i64>,
}

/// An append-only transaction log entry: identity key `(slot, signature)`,
/// never mutated after creation.
pub struct LogTransactionRequest {
    pub slot: u64,
    pub signature: Vec<u8>,
    pub is_vote: bool,
    pub index: u64,
}

/// Block metadata, created once per slot and immutable after creation.
pub struct UpdateBlockMetadataRequest {
    pub slot: u64,
    pub blockhash: Option<String>,
    pub block_time: Option<i64>,
    pub block_height: Option<u64>,
}

/// One secondary-index entry: the account `pubkey` currently exhibits the
/// indexed attribute `secondary_key` (its owner, or its mint). At most one
/// entry per account pubkey may exist in an index at a time.
pub struct TokenSecondaryIndexEntry {
    pub secondary_key: Vec<u8>,
    pub pubkey: Vec<u8>,
    pub slot: i64,
}

/// Read access to the fields of an incoming account write, however the
/// upstream host represents it. Implementors state their field values
/// through the spec methods so that building a [`DbAccountInfo`] from any
/// implementor has an exact contract.
pub trait ReadableAccountInfo: Sized {
    spec fn spec_pubkey(&self) -> Seq<u8>;

    spec fn spec_owner(&self) -> Seq<u8>;

    spec fn spec_lamports(&self) -> i64;

    spec fn spec_executable(&self) -> bool;

    spec fn spec_rent_epoch(&self) -> i64;

    spec fn spec_data(&self) -> Seq<u8>;

    spec fn spec_write_version(&self) -> i64;

    spec fn spec_txn_signature(&self) -> Option<Seq<u8>>;

    fn pubkey(&self) -> (r: &[u8])
        ensures
            r@ == self.spec_pubkey(),
    ;

    fn owner(&self) -> (r: &[u8])
        ensures
            r@ == self.spec_owner(),
    ;

    fn lamports(&self) -> (r: i64)
        ensures
            r == self.spec_lamports(),
    ;

    fn executable(&self) -> (r: bool)
        ensures
            r == self.spec_executable(),
    ;

    fn rent_epoch(&self) -> (r: i64)
        ensures
            r == self.spec_rent_epoch(),
    ;

    fn data(&self) -> (r: &[u8])
        ensures
            r@ == self.spec_data(),
    ;

    fn write_version(&self) -> (r: i64)
        ensures
            r == self.spec_write_version(),
    ;

    fn txn_signature(&self) -> (r: Option<Vec<u8>>)
        ensures
            match r {
                Some(v) => self.spec_txn_signature() == Some(v@),
                None => self.spec_txn_signature() is None,
            },
    ;
}

impl ReadableAccountInfo for DbAccountInfo {
    open spec fn spec_pubkey(&self) -> Seq<u8> {
        self.pubkey@
    }

    open spec fn spec_owner(&self) -> Seq<u8> {
        self.owner@
    }

    open spec fn spec_lamports(&self) -> i64 {
        self.lamports
    }

    open spec fn spec_executable(&self) -> bool {
        self.executable
    }

    open spec fn spec_rent_epoch(&self) -> i64 {
        self.rent_epoch
    }

    open spec fn spec_data(&self) -> Seq<u8> {
        self.data@
    }

    open spec fn spec_write_version(&self) -> i64 {
        self.write_version
    }

    open spec fn spec_txn_signature(&self) -> Option<Seq<u8>> {
        match self.txn_signature {
            Some(v) => Some(v@),
            None => None,
        }
    }

    fn pubkey(&self) -> (r: &[u8]) {
        self.pubkey.as_slice()
    }

    fn owner(&self) -> (r: &[u8]) {
        self.owner.as_slice()
    }

    fn lamports(&self) -> (r: i64) {
        self.lamports
    }

    fn executable(&self) -> (r: bool) {
        self.executable
    }

    fn rent_epoch(&self) -> (r: i64) {
        self.rent_epoch
    }

    fn data(&self) -> (r: &[u8]) {
        self.data.as_slice()
    }

    fn write_version(&self) -> (r: i64) {
        self.write_version
    }

    fn txn_signature(&self) -> (r: Option<Vec<u8>>) {
        match &self.txn_signature {
            Some(v) => Some(clone_bytes(v)),
            None => None,
        }
    }
}

impl DbAccountInfo {
    /// Builds the stored representation of an incoming account write at
    /// `slot`, copying every field from the upstream view.
    pub fn new<T: ReadableAccountInfo>(account: &T, slot: u64) -> (r: DbAccountInfo)
        requires
            slot <= i64::MAX,
        ensures
            r.pubkey@ == account.spec_pubkey(),
            r.lamports == account.spec_lamports(),
            r.owner@ == account.spec_owner(),
            r.executable == account.spec_executable(),
            r.rent_epoch == account.spec_rent_epoch(),
            r.data@ == account.spec_data(),
            r.slot == slot as i64,
            r.write_version == account.spec_write_version(),
            match r.txn_signature {
                Some(v) => account.spec_txn_signature() == Some(v@),
                None => account.spec_txn_signature() is None,
            },
    {
        let data = slice_to_owned(account.data());
        DbAccountInfo {
            pubkey: slice_to_owned(account.pubkey()),
            lamports: account.lamports(),
            owner: slice_to_owned(account.owner()),
            executable: account.executable(),
            rent_epoch: account.rent_epoch(),
            data,
            slot: slot as i64,
            write_version: account.write_version(),
            txn_signature: account.txn_signature(),
        }
    }
}

/// Copies a byte vector.
pub fn clone_bytes(s: &Vec<u8>) -> (v: Vec<u8>)
    ensures
        v@ == s@,
{
    slice_to_owned(s.as_slice())
}

/// The number of leading bytes of token-account data that name the mint.
pub const MINT_KEY_LEN: usize = 32;

/// The mint attribute derived from program-owned account data: the
/// token-account layout stores the mint pubkey in its first 32 bytes, and
/// shorter data carries no mint.
pub open spec fn mint_of(data: Seq<u8>) -> Option<Seq<u8>> {
    if data.len() >= MINT_KEY_LEN {
        Some(data.take(MINT_KEY_LEN as int))
    } else {
        None
    }
}

/// Extracts the mint attribute of an account's data, if it has one.
pub fn extract_mint(data: &Vec<u8>) -> (r: Option<Vec<u8>>)
    ensures
        match r {
            Some(v) => mint_of(data@) == Some(v@),
            None => mint_of(data@) is None,
        },
{
    if data.len() >= MINT_KEY_LEN {
        let mut v: Vec<u8> = Vec::new();
        let mut i: usize = 0;
        while i < MINT_KEY_LEN
            invariant
                data@.len() >= MINT_KEY_LEN,
                0 <= i <= MINT_KEY_LEN,
                v@ == data@.take(i as int),
            decreases MINT_KEY_LEN - i,
        {
            v.push(data[i]);
            i = i + 1;
            proof {
                assert(v@ =~= data@.take(i as int));
            }
        }
        Some(v)
    } else {
        None
    }
}

/// The contents of an optional byte vector.
pub open spec fn opt_bytes_view(o: Option<Vec<u8>>) -> Option<Seq<u8>> {
    match o {
        Some(v) => Some(v@),
        None => None,
    }
}

/// Compares two optional byte vectors by contents.
pub fn opt_bytes_eq(a: &Option<Vec<u8>>, b: &Option<Vec<u8>>) -> (r: bool)
    ensures
        r == (opt_bytes_view(*a) == opt_bytes_view(*b)),
{
    match (a, b) {
        (Some(x), Some(y)) => bytes_eq(x, y),
        (None, None) => true,
        _ => false,
    }
}

/// Two account records carry the same values in every field.
pub open spec fn accounts_equiv(a: DbAccountInfo, b: DbAccountInfo) -> bool {
    &&& a.pubkey@ == b.pubkey@
    &&& a.lamports == b.lamports
    &&& a.owner@ == b.owner@
    &&& a.executable == b.executable
    &&& a.rent_epoch == b.rent_epoch
    &&& a.data@ == b.data@
    &&& a.slot == b.slot
    &&& a.write_version == b.write_version
    &&& opt_bytes_view(a.txn_signature) == opt_bytes_view(b.txn_signature)
}

/// Copies an account record field for field.
pub fn copy_account(a: &DbAccountInfo) -> (r: DbAccountInfo)
    ensures
        accounts_equiv(r, *a),
{
    let txn_signature = match &a.txn_signature {
        Some(v) => Some(clone_bytes(v)),
        None => None,
    };
    DbAccountInfo {
        pubkey: clone_bytes(&a.pubkey),
        lamports: a.lamports,
        owner: clone_bytes(&a.owner),
        executable: a.executable,
        rent_epoch: a.rent_epoch,
        data: clone_bytes(&a.data),
        slot: a.slot,
        write_version: a.write_version,
        txn_signature,
    }
}

/// Copies a byte slice into an owned vector.
pub fn slice_to_owned(s: &[u8]) -> (v: Vec<u8>)
    ensures
        v@ == s@,
{
    let mut v: Vec<u8> = Vec::new();
    let mut i: usize = 0;
    while i < s.len()
        invariant
            0 <= i <= s@.len(),
            v@ == s@.take(i as int),
        decreases s@.len() - i,
    {
        v.push(s[i]);
        i = i + 1;
        proof {
            assert(v@ =~= s@.take(i as int));
        }
    }
    proof {
        assert(v@ =~= s@);
    }
    v
}

/// Compares two byte vectors for equality of contents.
pub fn bytes_eq(a: &Vec<u8>, b: &Vec<u8>) -> (r: bool)
    ensures
        r == (a@ == b@),
{
    if a.len() != b.len() {
        return false;
    }
    let mut i: usize = 0;
    while i < a.len()
        invariant
            a@.len() == b@.len(),
            0 <= i <= a@.len(),
            forall|j: int| 0 <= j < i ==> a@[j] == b@[j],
        decreases a@.len() - i,
    {
        if a[i] != b[i] {
            return false;
        }
        i = i + 1;
    }
    proof {
        assert(a@ =~= b@);
    }
    true
}

} // verus!
