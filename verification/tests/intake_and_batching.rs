use crossbeam_channel::{bounded, TrySendError};
use custom_geyser_plugin::client::{
    DbWorkItem, FlushRequest, SimpleMongoDbClient, UpdateAccountRequest,
};
use custom_geyser_plugin::config::GeyserPluginMongoDBConfig;
use custom_geyser_plugin::dedup::StartupDedupTracker;
use custom_geyser_plugin::errors::GeyserPluginMongoDbError;
use custom_geyser_plugin::intake::{submit_work, worker_poll_step, WorkerStep};
use custom_geyser_plugin::records::{DbAccountInfo, SlotStatus};

fn make_account(pk: u8, slot: i64) -> DbAccountInfo {
    DbAccountInfo {
        pubkey: vec![pk; 32],
        lamports: 5,
        owner: vec![1; 32],
        executable: false,
        rent_epoch: 0,
        data: Vec::new(),
        slot,
        write_version: 0,
        txn_signature: None,
    }
}

fn slot_item(slot: u64) -> DbWorkItem {
    DbWorkItem::UpdateSlot(custom_geyser_plugin::records::SlotMetadata {
        slot,
        parent: None,
        status: SlotStatus::Processed,
        blockhash: None,
        leader: None,
        timestamp: None,
    })
}

fn fresh_client(batch_size: usize) -> SimpleMongoDbClient {
    SimpleMongoDbClient::new(batch_size, StartupDedupTracker::new(false, None))
}

#[test]
fn intake_queue_bounded_no_loss() {
    // A bounded queue at capacity refuses further records but never loses
    // one: the rejected record comes back to the caller, and after the queue
    // drains every submitted record is observed, in order for one consumer.
    let (tx, rx) = bounded(3);
    assert!(submit_work(&tx, slot_item(1)).is_ok());
    assert!(submit_work(&tx, slot_item(2)).is_ok());
    assert!(submit_work(&tx, slot_item(3)).is_ok());
    assert_eq!(rx.len(), 3);

    match tx.try_send(slot_item(4)) {
        Err(TrySendError::Full(DbWorkItem::UpdateSlot(rec))) => assert_eq!(rec.slot, 4),
        _ => panic!("a full queue must hand the record back"),
    }

    let mut client = fresh_client(100);
    for _ in 0..3 {
        assert!(matches!(worker_poll_step(&rx, &mut client, 1000), WorkerStep::Handled(None)));
    }
    let seen: Vec<u64> = client.pending_slot_updates.iter().map(|r| r.slot).collect();
    assert_eq!(seen, vec![1, 2, 3]);
    assert_eq!(rx.len(), 0);

    // Once drained, the queue accepts records again; an idle wait then hands
    // every buffered record back for a partial flush.
    assert!(tx.try_send(slot_item(5)).is_ok());
    assert!(matches!(worker_poll_step(&rx, &mut client, 1000), WorkerStep::Handled(None)));
    match worker_poll_step(&rx, &mut client, 10) {
        WorkerStep::Idle(batches) => {
            assert_eq!(batches.slots.len(), 4);
            assert!(batches.accounts.is_empty());
        }
        _ => panic!("a quiet queue must time out into a partial flush"),
    }
    assert_eq!(client.pending_slot_updates.len(), 0);
}

#[test]
fn intake_queue_multiple_producers() {
    let (tx, rx) = bounded(8);
    let tx2 = tx.clone();
    assert!(submit_work(&tx, slot_item(1)).is_ok());
    assert!(submit_work(&tx2, slot_item(2)).is_ok());
    assert_eq!(rx.len(), 2);
    let mut client = fresh_client(100);
    assert!(matches!(worker_poll_step(&rx, &mut client, 1000), WorkerStep::Handled(None)));
    assert!(matches!(worker_poll_step(&rx, &mut client, 1000), WorkerStep::Handled(None)));
    assert_eq!(client.pending_slot_updates.len(), 2);
}

#[test]
fn intake_queue_disconnect_is_fatal_not_silent() {
    let (tx, rx) = bounded(2);
    drop(rx);
    match submit_work(&tx, slot_item(7)) {
        Err(e) => {
            assert!(e.is_fatal());
            assert!(matches!(e, GeyserPluginMongoDbError::DataStoreConnectionError { .. }));
        }
        Ok(()) => panic!("a disconnected queue must surface a fatal error"),
    }
}

#[test]
fn intake_queue_shutdown_flushes_buffers() {
    let (tx, rx) = bounded(4);
    assert!(submit_work(&tx, slot_item(1)).is_ok());
    assert!(
        submit_work(
            &tx,
            DbWorkItem::UpdateAccount(UpdateAccountRequest {
                account: make_account(2, 9),
                is_startup: false,
            }),
        )
        .is_ok()
    );
    drop(tx);
    let mut client = fresh_client(100);
    assert!(matches!(worker_poll_step(&rx, &mut client, 1000), WorkerStep::Handled(None)));
    assert!(matches!(worker_poll_step(&rx, &mut client, 1000), WorkerStep::Handled(None)));
    // Producers are gone: the step drains everything still buffered so the
    // worker can flush before releasing its connection.
    match worker_poll_step(&rx, &mut client, 1000) {
        WorkerStep::Shutdown(batches) => {
            assert_eq!(batches.slots.len(), 1);
            assert_eq!(batches.accounts.len(), 1);
            assert_eq!(batches.accounts[0].slot, 9);
        }
        _ => panic!("a disconnected queue must end in a shutdown flush"),
    }
    assert_eq!(client.pending_account_updates.len(), 0);
}

#[test]
fn worker_step_rejects_out_of_range_slot() {
    let mut client = fresh_client(10);
    let rejected = client.handle_work_item(DbWorkItem::UpdateAccount(UpdateAccountRequest {
        account: make_account(1, -3),
        is_startup: false,
    }));
    assert!(rejected.is_none());
    assert_eq!(client.pending_account_updates.len(), 0);
}

#[test]
fn work_items_carry_account_requests() {
    let item = DbWorkItem::UpdateAccount(UpdateAccountRequest {
        account: make_account(3, 12),
        is_startup: true,
    });
    match item {
        DbWorkItem::UpdateAccount(req) => {
            assert!(req.is_startup);
            assert_eq!(req.account.slot, 12);
        },
        _ => panic!("wrong variant"),
    }
}

#[test]
fn batching_threshold() {
    let dedup = StartupDedupTracker::new(false, None);
    let mut client = SimpleMongoDbClient::new(3, dedup);
    assert!(client.update_account(make_account(1, 1), false).is_none());
    assert!(client.update_account(make_account(2, 2), false).is_none());
    let batch = client.update_account(make_account(3, 3), false).unwrap();
    assert_eq!(batch.len(), 3);
    assert_eq!(batch[0].pubkey, vec![1u8; 32]);
    assert_eq!(batch[1].pubkey, vec![2u8; 32]);
    assert_eq!(batch[2].pubkey, vec![3u8; 32]);
    assert_eq!(client.pending_account_updates.len(), 0);
    // The next record starts a fresh batch.
    assert!(client.update_account(make_account(4, 4), false).is_none());
    assert_eq!(client.pending_account_updates.len(), 1);
}

#[test]
fn slot_and_log_batching() {
    let dedup = StartupDedupTracker::new(false, None);
    let mut client = SimpleMongoDbClient::new(2, dedup);
    assert!(client.update_slot_status(1, None, SlotStatus::Processed).is_none());
    let batch = client.update_slot_status(2, Some(1), SlotStatus::Processed).unwrap();
    assert_eq!(batch.len(), 2);
    assert_eq!(batch[0].slot, 1);
    assert_eq!(batch[1].slot, 2);

    let log = custom_geyser_plugin::records::LogTransactionRequest {
        slot: 9,
        signature: vec![1, 2, 3],
        is_vote: false,
        index: 0,
    };
    assert!(client.log_transaction(log).is_none());
    let meta = custom_geyser_plugin::records::UpdateBlockMetadataRequest {
        slot: 9,
        blockhash: None,
        block_time: None,
        block_height: None,
    };
    assert!(client.update_block_metadata(meta).is_none());
}

#[test]
fn worker_step_dispatches_per_kind() {
    let dedup = StartupDedupTracker::new(true, Some(100));
    let mut client = SimpleMongoDbClient::new(2, dedup);

    // A startup replay at the baseline is dropped: no flush, nothing kept.
    let dropped = client.handle_work_item(DbWorkItem::UpdateAccount(UpdateAccountRequest {
        account: make_account(1, 90),
        is_startup: true,
    }));
    assert!(dropped.is_none());
    assert_eq!(client.pending_account_updates.len(), 0);

    // A fresh write is buffered; the second one fills the batch.
    assert!(client
        .handle_work_item(DbWorkItem::UpdateAccount(UpdateAccountRequest {
            account: make_account(2, 101),
            is_startup: true,
        }))
        .is_none());
    let flush = client.handle_work_item(DbWorkItem::UpdateAccount(UpdateAccountRequest {
        account: make_account(3, 102),
        is_startup: true,
    }));
    match flush {
        Some(FlushRequest::Accounts(batch)) => {
            assert_eq!(batch.len(), 2);
            assert_eq!(batch[0].slot, 101);
            assert_eq!(batch[1].slot, 102);
        }
        _ => panic!("the full account buffer must flush"),
    }

    // Slot items land in their own buffer.
    assert!(client.handle_work_item(slot_item(7)).is_none());
    assert_eq!(client.pending_slot_updates.len(), 1);

    // The end-of-startup marker drains the account buffer and retires the
    // deduplication tracker.
    assert!(client
        .handle_work_item(DbWorkItem::UpdateAccount(UpdateAccountRequest {
            account: make_account(4, 103),
            is_startup: true,
        }))
        .is_none());
    match client.handle_work_item(DbWorkItem::EndOfStartup) {
        Some(FlushRequest::Accounts(batch)) => {
            assert_eq!(batch.len(), 1);
            assert_eq!(batch[0].slot, 103);
        }
        _ => panic!("end of startup must drain the account buffer"),
    }
    assert!(client
        .handle_work_item(DbWorkItem::UpdateAccount(UpdateAccountRequest {
            account: make_account(5, 90),
            is_startup: true,
        }))
        .is_none());
    assert_eq!(client.pending_account_updates.len(), 1);
}

#[test]
fn take_all_pending_drains_every_buffer() {
    let dedup = StartupDedupTracker::new(false, None);
    let mut client = SimpleMongoDbClient::new(10, dedup);
    client.update_account(make_account(1, 1), false);
    client.update_slot_status(2, None, SlotStatus::Processed);
    client.log_transaction(custom_geyser_plugin::records::LogTransactionRequest {
        slot: 2,
        signature: vec![9],
        is_vote: false,
        index: 1,
    });
    client.update_block_metadata(custom_geyser_plugin::records::UpdateBlockMetadataRequest {
        slot: 2,
        blockhash: Some("h".to_string()),
        block_time: Some(0),
        block_height: Some(2),
    });
    let (accounts, slots, logs, metas) = client.take_all_pending();
    assert_eq!(accounts.len(), 1);
    assert_eq!(slots.len(), 1);
    assert_eq!(logs.len(), 1);
    assert_eq!(metas.len(), 1);
    assert_eq!(client.pending_account_updates.len(), 0);
    assert_eq!(client.pending_slot_updates.len(), 0);
    assert_eq!(client.pending_transaction_logs.len(), 0);
    assert_eq!(client.pending_block_metadata.len(), 0);
}

#[test]
fn config_defaults() {
    let config = GeyserPluginMongoDBConfig::new_default();
    assert_eq!(config.effective_port(), 27017);
    assert_eq!(config.effective_threads(), 100);
    assert_eq!(config.effective_batch_size(), 10);
    assert!(!config.effective_panic_on_db_errors());
    assert!(!config.effective_store_historical());
    assert!(!config.effective_index_token_owner());
    assert!(!config.effective_index_token_mint());
    assert!(!config.skip_upsert_existing_accounts_at_startup);
}

#[test]
fn config_overrides() {
    let mut config = GeyserPluginMongoDBConfig::new_default();
    config.port = Some(28000);
    config.threads = Some(4);
    config.batch_size = Some(25);
    config.panic_on_db_errors = Some(true);
    config.store_account_historical_data = Some(true);
    config.index_token_owner = Some(true);
    config.index_token_mint = Some(false);
    assert_eq!(config.effective_port(), 28000);
    assert_eq!(config.effective_threads(), 4);
    assert_eq!(config.effective_batch_size(), 25);
    assert!(config.effective_panic_on_db_errors());
    assert!(config.effective_store_historical());
    assert!(config.effective_index_token_owner());
    assert!(!config.effective_index_token_mint());
}
