//! The per-worker client state: per-kind batch buffers, the startup
//! deduplication tracker, and the work items the intake queue carries. Each
//! method decides what the worker does with one incoming record — buffer it,
//! drop it as a startup replay, or hand back a full batch ready for one
//! batched store write. The store write itself happens outside; a drained
//! batch is never re-accumulated.

use vstd::prelude::*;
use crate::dedup::StartupDedupTracker;
use crate::records::{
    DbAccountInfo, LogTransactionRequest, SlotMetadata, SlotStatus, UpdateBlockMetadataRequest,
};

verus! {

/// An account write as submitted by the upstream host, with its replay mark.
pub struct UpdateAccountRequest {
    pub account: DbAccountInfo,
    pub is_startup: bool,
}

/// One unit of work flowing through the intake queue to a worker.
pub enum DbWorkItem {
    UpdateAccount(UpdateAccountRequest),
    UpdateSlot(SlotMetadata),
    LogTransaction(LogTransactionRequest),
    UpdateBlockMetadata(UpdateBlockMetadataRequest),
    EndOfStartup,
}

/// One per-kind batch, drained from a worker's buffer and ready to be
/// applied as one batched store write.
pub enum FlushRequest {
    Accounts(Vec<DbAccountInfo>),
    Slots(Vec<SlotMetadata>),
    TransactionLogs(Vec<LogTransactionRequest>),
    BlockMetadata(Vec<UpdateBlockMetadataRequest>),
}

/// Moves a buffer out, leaving it empty.
fn take_vec<T>(v: &mut Vec<T>) -> (r: Vec<T>)
    ensures
        r@ == old(v)@,
        final(v)@.len() == 0,
{
    let mut r: Vec<T> = Vec::new();
    core::mem::swap(v, &mut r);
    r
}

/// One worker's accumulation state. Owned by exactly one worker; records
/// dequeued into it stay here until a batch is handed back for a flush.
pub struct SimpleMongoDbClient {
    /// Records accumulated per kind before one batched write.
    pub batch_size: usize,
    /// The startup deduplication tracker.
    pub dedup: StartupDedupTracker,
    pub pending_account_updates: Vec<DbAccountInfo>,
    pub pending_slot_updates: Vec<SlotMetadata>,
    pub pending_transaction_logs: Vec<LogTransactionRequest>,
    pub pending_block_metadata: Vec<UpdateBlockMetadataRequest>,
}

impl SimpleMongoDbClient {
    /// Buffers never reach the batch size without being drained, so memory
    /// per worker is bounded by the configuration.
    pub open spec fn wf(&self) -> bool {
        &&& self.batch_size >= 1
        &&& self.dedup.wf()
        &&& self.pending_account_updates@.len() < self.batch_size
        &&& self.pending_slot_updates@.len() < self.batch_size
        &&& self.pending_transaction_logs@.len() < self.batch_size
        &&& self.pending_block_metadata@.len() < self.batch_size
    }

    /// A fresh client with empty buffers.
    pub fn new(batch_size: usize, dedup: StartupDedupTracker) -> (r: SimpleMongoDbClient)
        requires
            batch_size >= 1,
            dedup.wf(),
        ensures
            r.wf(),
            r.batch_size == batch_size,
            r.dedup == dedup,
            r.pending_account_updates@.len() == 0,
            r.pending_slot_updates@.len() == 0,
            r.pending_transaction_logs@.len() == 0,
            r.pending_block_metadata@.len() == 0,
    {
        SimpleMongoDbClient {
            batch_size,
            dedup,
            pending_account_updates: Vec::new(),
            pending_slot_updates: Vec::new(),
            pending_transaction_logs: Vec::new(),
            pending_block_metadata: Vec::new(),
        }
    }

    /// Takes one account write. A startup replay at or below the baseline is
    /// dropped without any store write; anything else is buffered, and when
    /// the buffer reaches the batch size the full batch is handed back in
    /// submission order for one flush, leaving the buffer empty. No record
    /// is ever lost: it is dropped by deduplication, returned in the batch,
    /// or still buffered.
    pub fn update_account(&mut self, account: DbAccountInfo, is_startup: bool) -> (batch: Option<
        Vec<DbAccountInfo>,
    >)
        requires
            old(self).wf(),
            0 <= account.slot,
        ensures
            final(self).wf(),
            final(self).batch_size == old(self).batch_size,
            final(self).pending_slot_updates@ == old(self).pending_slot_updates@,
            final(self).pending_transaction_logs@ == old(self).pending_transaction_logs@,
            final(self).pending_block_metadata@ == old(self).pending_block_metadata@,
            !old(self).dedup.spec_should_persist(account.slot as u64, is_startup) ==> {
                &&& batch is None
                &&& final(self).pending_account_updates@ == old(self).pending_account_updates@
                &&& final(self).dedup.replay_set() == old(self).dedup.replay_set().insert(
                    account.slot as u64,
                )
            },
            old(self).dedup.spec_should_persist(account.slot as u64, is_startup) ==> {
                &&& final(self).dedup.replay_set() == old(self).dedup.replay_set()
                &&& if old(self).pending_account_updates@.len() + 1 == old(self).batch_size {
                    batch matches Some(b) && b@ == old(self).pending_account_updates@.push(account)
                        && final(self).pending_account_updates@.len() == 0
                } else {
                    batch is None && final(self).pending_account_updates@ == old(
                        self,
                    ).pending_account_updates@.push(account)
                }
            },
            final(self).dedup.startup_done == old(self).dedup.startup_done,
            final(self).dedup.enabled == old(self).dedup.enabled,
            final(self).dedup.baseline == old(self).dedup.baseline,
    {
        let slot_u64 = account.slot as u64;
        let persist = self.dedup.should_persist_account(slot_u64, is_startup);
        if !persist {
            return None;
        }
        self.pending_account_updates.push(account);
        if self.pending_account_updates.len() == self.batch_size {
            Some(take_vec(&mut self.pending_account_updates))
        } else {
            None
        }
    }

    /// Takes one slot-status notification from the upstream host and buffers
    /// the slot record it describes; hands back the full batch at the
    /// threshold. Whether the transition is applied is decided against the
    /// stored status at flush time, not here.
    pub fn update_slot_status(&mut self, slot: u64, parent: Option<u64>, status: SlotStatus) -> (batch: Option<Vec<SlotMetadata>>)
        requires
            old(self).wf(),
        ensures
            final(self).wf(),
            final(self).batch_size == old(self).batch_size,
            final(self).dedup == old(self).dedup,
            final(self).pending_account_updates@ == old(self).pending_account_updates@,
            final(self).pending_transaction_logs@ == old(self).pending_transaction_logs@,
            final(self).pending_block_metadata@ == old(self).pending_block_metadata@,
            ({
                let rec = SlotMetadata {
                    slot,
                    parent,
                    status,
                    blockhash: None,
                    leader: None,
                    timestamp: None,
                };
                if old(self).pending_slot_updates@.len() + 1 == old(self).batch_size {
                    batch matches Some(b) && b@ == old(self).pending_slot_updates@.push(rec)
                        && final(self).pending_slot_updates@.len() == 0
                } else {
                    batch is None && final(self).pending_slot_updates@ == old(
                        self,
                    ).pending_slot_updates@.push(rec)
                }
            }),
    {
        let rec = SlotMetadata { slot, parent, status, blockhash: None, leader: None, timestamp: None };
        self.pending_slot_updates.push(rec);
        if self.pending_slot_updates.len() == self.batch_size {
            Some(take_vec(&mut self.pending_slot_updates))
        } else {
            None
        }
    }

    /// Buffers one append-only transaction log entry; hands back the full
    /// batch at the threshold.
    pub fn log_transaction(&mut self, transaction_log_info: LogTransactionRequest) -> (batch:
        Option<Vec<LogTransactionRequest>>)
        requires
            old(self).wf(),
        ensures
            final(self).wf(),
            final(self).batch_size == old(self).batch_size,
            final(self).dedup == old(self).dedup,
            final(self).pending_account_updates@ == old(self).pending_account_updates@,
            final(self).pending_slot_updates@ == old(self).pending_slot_updates@,
            final(self).pending_block_metadata@ == old(self).pending_block_metadata@,
            if old(self).pending_transaction_logs@.len() + 1 == old(self).batch_size {
                batch matches Some(b) && b@ == old(self).pending_transaction_logs@.push(
                    transaction_log_info,
                ) && final(self).pending_transaction_logs@.len() == 0
            } else {
                batch is None && final(self).pending_transaction_logs@ == old(
                    self,
                ).pending_transaction_logs@.push(transaction_log_info)
            },
    {
        self.pending_transaction_logs.push(transaction_log_info);
        if self.pending_transaction_logs.len() == self.batch_size {
            Some(take_vec(&mut self.pending_transaction_logs))
        } else {
            None
        }
    }

    /// Buffers one block metadata record; hands back the full batch at the
    /// threshold.
    pub fn update_block_metadata(&mut self, block_info: UpdateBlockMetadataRequest) -> (batch:
        Option<Vec<UpdateBlockMetadataRequest>>)
        requires
            old(self).wf(),
        ensures
            final(self).wf(),
            final(self).batch_size == old(self).batch_size,
            final(self).dedup == old(self).dedup,
            final(self).pending_account_updates@ == old(self).pending_account_updates@,
            final(self).pending_slot_updates@ == old(self).pending_slot_updates@,
            final(self).pending_transaction_logs@ == old(self).pending_transaction_logs@,
            if old(self).pending_block_metadata@.len() + 1 == old(self).batch_size {
                batch matches Some(b) && b@ == old(self).pending_block_metadata@.push(block_info)
                    && final(self).pending_block_metadata@.len() == 0
            } else {
                batch is None && final(self).pending_block_metadata@ == old(
                    self,
                ).pending_block_metadata@.push(block_info)
            },
    {
        self.pending_block_metadata.push(block_info);
        if self.pending_block_metadata.len() == self.batch_size {
            Some(take_vec(&mut self.pending_block_metadata))
        } else {
            None
        }
    }

    /// Handles the end-of-startup marker: retires the deduplication tracker
    /// — from here on no record is ever dropped by it — and drains the
    /// account buffer so the startup replay is fully flushed.
    pub fn notify_end_of_startup(&mut self) -> (batch: Vec<DbAccountInfo>)
        requires
            old(self).wf(),
        ensures
            final(self).wf(),
            final(self).batch_size == old(self).batch_size,
            final(self).dedup.startup_done,
            forall|slot: u64, is_startup: bool| final(self).dedup.spec_should_persist(slot, is_startup),
            batch@ == old(self).pending_account_updates@,
            final(self).pending_account_updates@.len() == 0,
            final(self).pending_slot_updates@ == old(self).pending_slot_updates@,
            final(self).pending_transaction_logs@ == old(self).pending_transaction_logs@,
            final(self).pending_block_metadata@ == old(self).pending_block_metadata@,
    {
        self.dedup.end_of_startup();
        take_vec(&mut self.pending_account_updates)
    }

    /// One worker step: takes the next dequeued work item and decides what,
    /// if anything, must now be written to the store. Exactly the per-kind
    /// decision of the matching method; an account record whose slot cannot
    /// be a fork position is a semantic rejection, dropped and never applied.
    /// The worker loop outside performs the returned write and routes its
    /// outcome through the failure policy.
    pub fn handle_work_item(&mut self, item: DbWorkItem) -> (r: Option<FlushRequest>)
        requires
            old(self).wf(),
        ensures
            final(self).wf(),
            final(self).batch_size == old(self).batch_size,
            match item {
                DbWorkItem::UpdateAccount(req) => ({
                    let persist = old(self).dedup.spec_should_persist(req.account.slot as u64, req.is_startup);
                    let at_threshold = old(self).pending_account_updates@.len() + 1 == old(self).batch_size;
                    &&& final(self).pending_slot_updates@ == old(self).pending_slot_updates@
                    &&& final(self).pending_transaction_logs@ == old(self).pending_transaction_logs@
                    &&& final(self).pending_block_metadata@ == old(self).pending_block_metadata@
                    &&& (req.account.slot < 0 ==> r is None && final(self).pending_account_updates@ == old(self).pending_account_updates@ && final(self).dedup == old(self).dedup)
                    &&& (0 <= req.account.slot && !persist ==> r is None && final(self).pending_account_updates@ == old(self).pending_account_updates@)
                    &&& (0 <= req.account.slot && persist && at_threshold ==> (r matches Some(FlushRequest::Accounts(b)) && b@ == old(self).pending_account_updates@.push(req.account) && final(self).pending_account_updates@.len() == 0))
                    &&& (0 <= req.account.slot && persist && !at_threshold ==> r is None && final(self).pending_account_updates@ == old(self).pending_account_updates@.push(req.account))
                }),
                DbWorkItem::UpdateSlot(rec) => ({
                    let buffered = SlotMetadata { slot: rec.slot, parent: rec.parent, status: rec.status, blockhash: None, leader: None, timestamp: None };
                    let at_threshold = old(self).pending_slot_updates@.len() + 1 == old(self).batch_size;
                    &&& final(self).dedup == old(self).dedup
                    &&& final(self).pending_account_updates@ == old(self).pending_account_updates@
                    &&& final(self).pending_transaction_logs@ == old(self).pending_transaction_logs@
                    &&& final(self).pending_block_metadata@ == old(self).pending_block_metadata@
                    &&& (at_threshold ==> (r matches Some(FlushRequest::Slots(b)) && b@ == old(self).pending_slot_updates@.push(buffered) && final(self).pending_slot_updates@.len() == 0))
                    &&& (!at_threshold ==> r is None && final(self).pending_slot_updates@ == old(self).pending_slot_updates@.push(buffered))
                }),
                DbWorkItem::LogTransaction(rec) => ({
                    let at_threshold = old(self).pending_transaction_logs@.len() + 1 == old(self).batch_size;
                    &&& final(self).dedup == old(self).dedup
                    &&& final(self).pending_account_updates@ == old(self).pending_account_updates@
                    &&& final(self).pending_slot_updates@ == old(self).pending_slot_updates@
                    &&& final(self).pending_block_metadata@ == old(self).pending_block_metadata@
                    &&& (at_threshold ==> (r matches Some(FlushRequest::TransactionLogs(b)) && b@ == old(self).pending_transaction_logs@.push(rec) && final(self).pending_transaction_logs@.len() == 0))
                    &&& (!at_threshold ==> r is None && final(self).pending_transaction_logs@ == old(self).pending_transaction_logs@.push(rec))
                }),
                DbWorkItem::UpdateBlockMetadata(rec) => ({
                    let at_threshold = old(self).pending_block_metadata@.len() + 1 == old(self).batch_size;
                    &&& final(self).dedup == old(self).dedup
                    &&& final(self).pending_account_updates@ == old(self).pending_account_updates@
                    &&& final(self).pending_slot_updates@ == old(self).pending_slot_updates@
                    &&& final(self).pending_transaction_logs@ == old(self).pending_transaction_logs@
                    &&& (at_threshold ==> (r matches Some(FlushRequest::BlockMetadata(b)) && b@ == old(self).pending_block_metadata@.push(rec) && final(self).pending_block_metadata@.len() == 0))
                    &&& (!at_threshold ==> r is None && final(self).pending_block_metadata@ == old(self).pending_block_metadata@.push(rec))
                }),
                DbWorkItem::EndOfStartup => ({
                    &&& final(self).dedup.startup_done
                    &&& forall|slot: u64, is_startup: bool| final(self).dedup.spec_should_persist(slot, is_startup)
                    &&& (r matches Some(FlushRequest::Accounts(b)) && b@ == old(self).pending_account_updates@)
                    &&& final(self).pending_account_updates@.len() == 0
                    &&& final(self).pending_slot_updates@ == old(self).pending_slot_updates@
                    &&& final(self).pending_transaction_logs@ == old(self).pending_transaction_logs@
                    &&& final(self).pending_block_metadata@ == old(self).pending_block_metadata@
                }),
            },
    {
        match item {
            DbWorkItem::UpdateAccount(req) => {
                if req.account.slot < 0 {
                    return None;
                }
                match self.update_account(req.account, req.is_startup) {
                    Some(b) => Some(FlushRequest::Accounts(b)),
                    None => None,
                }
            },
            DbWorkItem::UpdateSlot(rec) => {
                match self.update_slot_status(rec.slot, rec.parent, rec.status) {
                    Some(b) => Some(FlushRequest::Slots(b)),
                    None => None,
                }
            },
            DbWorkItem::LogTransaction(rec) => {
                match self.log_transaction(rec) {
                    Some(b) => Some(FlushRequest::TransactionLogs(b)),
                    None => None,
                }
            },
            DbWorkItem::UpdateBlockMetadata(rec) => {
                match self.update_block_metadata(rec) {
                    Some(b) => Some(FlushRequest::BlockMetadata(b)),
                    None => None,
                }
            },
            DbWorkItem::EndOfStartup => {
                Some(FlushRequest::Accounts(self.notify_end_of_startup()))
            },
        }
    }

    /// Drains every buffer for the guaranteed flush on shutdown: each
    /// accumulated record comes back exactly once, in order, and the buffers
    /// are left empty.
    pub fn take_all_pending(&mut self) -> (r: (
        Vec<DbAccountInfo>,
        Vec<SlotMetadata>,
        Vec<LogTransactionRequest>,
        Vec<UpdateBlockMetadataRequest>,
    ))
        requires
            old(self).wf(),
        ensures
            final(self).wf(),
            final(self).batch_size == old(self).batch_size,
            final(self).dedup == old(self).dedup,
            r.0@ == old(self).pending_account_updates@,
            r.1@ == old(self).pending_slot_updates@,
            r.2@ == old(self).pending_transaction_logs@,
            r.3@ == old(self).pending_block_metadata@,
            final(self).pending_account_updates@.len() == 0,
            final(self).pending_slot_updates@.len() == 0,
            final(self).pending_transaction_logs@.len() == 0,
            final(self).pending_block_metadata@.len() == 0,
    {
        (
            take_vec(&mut self.pending_account_updates),
            take_vec(&mut self.pending_slot_updates),
            take_vec(&mut self.pending_transaction_logs),
            take_vec(&mut self.pending_block_metadata),
        )
    }
}

} // verus!
