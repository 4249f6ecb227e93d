//! The bounded intake queue: a multi-producer/multi-consumer channel that
//! decouples the upstream host from the replication workers and implements
//! backpressure. The channel itself comes from the crossbeam-channel crate;
//! the two trusted wrappers state exactly what its documentation promises,
//! and nothing more. On top of them stand the verified producer entry and
//! the verified worker step — per-key correctness never rests on arrival
//! order, only on the ordering keys the records carry.

use vstd::prelude::*;
use crate::client::{DbWorkItem, FlushRequest, SimpleMongoDbClient};
use crate::errors::GeyserPluginMongoDbError;
use crate::records::{
    DbAccountInfo, LogTransactionRequest, SlotMetadata, UpdateBlockMetadataRequest,
};

verus! {

/// The sending half of a crossbeam channel, declared so it can stand in
/// signatures; its values are opaque here.
#[verifier::external_type_specification]
#[verifier::external_body]
#[verifier::reject_recursive_types(T)]
pub struct ExSender<T>(crossbeam_channel::Sender<T>);

/// The receiving half of a crossbeam channel, declared so it can stand in
/// signatures; its values are opaque here.
#[verifier::external_type_specification]
#[verifier::external_body]
#[verifier::reject_recursive_types(T)]
pub struct ExReceiver<T>(crossbeam_channel::Receiver<T>);

/// What one bounded wait on the queue yields a worker.
enum RecvOutcome {
    /// The next available work item.
    Item(DbWorkItem),
    /// Nothing arrived within the wait.
    TimedOut,
    /// Every producer is gone and the queue is empty.
    Disconnected,
}

/// Relies on crossbeam_channel::Sender::send: blocks while the channel is
/// full rather than dropping or growing, and on disconnection the error
/// hands the original message back — a submitted record is never silently
/// lost.
#[verifier::external_body]
fn channel_send(s: &crossbeam_channel::Sender<DbWorkItem>, item: DbWorkItem) -> (r: Result<
    (),
    DbWorkItem,
>)
    ensures
        r matches Err(m) ==> m == item,
{
    match s.send(item) {
        Ok(()) => Ok(()),
        Err(crossbeam_channel::SendError(m)) => Err(m),
    }
}

/// Relies on crossbeam_channel::Receiver::recv_timeout: waits up to the
/// given number of milliseconds for the next item. Which item arrives, if
/// any, depends on the other threads, so nothing is promised of the outcome;
/// the worker step handles every case.
#[verifier::external_body]
fn channel_recv_timeout(r: &crossbeam_channel::Receiver<DbWorkItem>, timeout_ms: u64) -> (out:
    RecvOutcome)
{
    match r.recv_timeout(core::time::Duration::from_millis(timeout_ms)) {
        Ok(item) => RecvOutcome::Item(item),
        Err(crossbeam_channel::RecvTimeoutError::Timeout) => RecvOutcome::TimedOut,
        Err(crossbeam_channel::RecvTimeoutError::Disconnected) => RecvOutcome::Disconnected,
    }
}

/// Sends one work item into the intake queue, blocking under backpressure
/// when the queue is at capacity — bounded memory, never a dropped record.
/// Failure means every worker is gone, which ends the pipeline: it surfaces
/// as the fatal store-connection error, exactly then.
pub fn submit_work(sender: &crossbeam_channel::Sender<DbWorkItem>, item: DbWorkItem) -> (r: Result<
    (),
    GeyserPluginMongoDbError,
>)
    ensures
        r matches Err(e) ==> e matches GeyserPluginMongoDbError::DataStoreConnectionError { .. }
            && e.spec_is_fatal(),
{
    match channel_send(sender, item) {
        Ok(()) => Ok(()),
        Err(_) => Err(
            GeyserPluginMongoDbError::DataStoreConnectionError {
                msg: "the intake queue is disconnected: every worker is gone".to_string(),
            },
        ),
    }
}

/// Every buffer of one worker, drained for a flush.
pub struct DrainedBatches {
    pub accounts: Vec<DbAccountInfo>,
    pub slots: Vec<SlotMetadata>,
    pub transaction_logs: Vec<LogTransactionRequest>,
    pub block_metadata: Vec<UpdateBlockMetadataRequest>,
}

/// What one verified worker step tells the loop around it to do.
pub enum WorkerStep {
    /// One work item was taken and handled; when a buffer filled, here is
    /// the batch to write now.
    Handled(Option<FlushRequest>),
    /// Nothing arrived within the idle timeout: write these partial batches,
    /// so latency stays bounded under light load.
    Idle(DrainedBatches),
    /// Every producer is gone: write these remaining batches, then release
    /// the connection — the guaranteed flush on shutdown.
    Shutdown(DrainedBatches),
}

/// One iteration of a worker's loop: waits up to `timeout_ms` for the next
/// work item and decides what must be written. What arrives depends on the
/// producers, so in the `Handled` case only well-formedness is promised
/// here; the exact per-item semantics is the contract of
/// [`SimpleMongoDbClient::handle_work_item`], which this step applies to
/// whatever came out of the queue. In the `Idle` and `Shutdown` cases every
/// buffered record comes back exactly once, in order, and the buffers are
/// left empty.
pub fn worker_poll_step(
    receiver: &crossbeam_channel::Receiver<DbWorkItem>,
    client: &mut SimpleMongoDbClient,
    timeout_ms: u64,
) -> (step: WorkerStep)
    requires
        old(client).wf(),
    ensures
        final(client).wf(),
        final(client).batch_size == old(client).batch_size,
        match step {
            WorkerStep::Handled(flush) => true,
            WorkerStep::Idle(b) => ({
                &&& b.accounts@ == old(client).pending_account_updates@
                &&& b.slots@ == old(client).pending_slot_updates@
                &&& b.transaction_logs@ == old(client).pending_transaction_logs@
                &&& b.block_metadata@ == old(client).pending_block_metadata@
                &&& final(client).pending_account_updates@.len() == 0
                &&& final(client).pending_slot_updates@.len() == 0
                &&& final(client).pending_transaction_logs@.len() == 0
                &&& final(client).pending_block_metadata@.len() == 0
                &&& final(client).dedup == old(client).dedup
            }),
            WorkerStep::Shutdown(b) => ({
                &&& b.accounts@ == old(client).pending_account_updates@
                &&& b.slots@ == old(client).pending_slot_updates@
                &&& b.transaction_logs@ == old(client).pending_transaction_logs@
                &&& b.block_metadata@ == old(client).pending_block_metadata@
                &&& final(client).pending_account_updates@.len() == 0
                &&& final(client).pending_slot_updates@.len() == 0
                &&& final(client).pending_transaction_logs@.len() == 0
                &&& final(client).pending_block_metadata@.len() == 0
                &&& final(client).dedup == old(client).dedup
            }),
        },
{
    match channel_recv_timeout(receiver, timeout_ms) {
        RecvOutcome::Item(item) => WorkerStep::Handled(client.handle_work_item(item)),
        RecvOutcome::TimedOut => {
            let (accounts, slots, transaction_logs, block_metadata) = client.take_all_pending();
            WorkerStep::Idle(DrainedBatches { accounts, slots, transaction_logs, block_metadata })
        },
        RecvOutcome::Disconnected => {
            let (accounts, slots, transaction_logs, block_metadata) = client.take_all_pending();
            WorkerStep::Shutdown(
                DrainedBatches { accounts, slots, transaction_logs, block_metadata },
            )
        },
    }
}

} // verus!
