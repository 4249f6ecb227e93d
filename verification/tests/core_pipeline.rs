use custom_geyser_plugin::client::SimpleMongoDbClient;
use custom_geyser_plugin::dedup::StartupDedupTracker;
use custom_geyser_plugin::errors::{on_flush_result, FlushDisposition, GeyserPluginMongoDbError};
use custom_geyser_plugin::records::{
    bytes_eq, extract_mint, is_strictly_newer, DbAccountInfo, ReadableAccountInfo, SlotStatus,
};
use custom_geyser_plugin::store::StoreModel;

fn make_account(pk: u8, owner: u8, slot: i64, write_version: i64) -> DbAccountInfo {
    DbAccountInfo {
        pubkey: vec![pk; 32],
        lamports: 1000,
        owner: vec![owner; 32],
        executable: false,
        rent_epoch: 0,
        data: vec![owner; 64],
        slot,
        write_version,
        txn_signature: None,
    }
}

#[test]
fn cas_fresher_update_wins_regardless_of_order() {
    // Apply the fresher update first, the stale one second.
    let mut store = StoreModel::new(false, false, false);
    let newer = make_account(7, 1, 20, 5);
    let older = make_account(7, 1, 10, 9);
    assert!(store.apply_account_write(newer));
    assert!(!store.apply_account_write(older));
    let cur = store.get_current_account(&vec![7u8; 32]).unwrap();
    assert_eq!((cur.slot, cur.write_version), (20, 5));

    // Same two updates, arrival order reversed: same final state.
    let mut store2 = StoreModel::new(false, false, false);
    let older2 = make_account(7, 1, 10, 9);
    let newer2 = make_account(7, 1, 20, 5);
    assert!(store2.apply_account_write(older2));
    assert!(store2.apply_account_write(newer2));
    let cur2 = store2.get_current_account(&vec![7u8; 32]).unwrap();
    assert_eq!((cur2.slot, cur2.write_version), (20, 5));
}

#[test]
fn cas_same_slot_decided_by_write_version() {
    let mut store = StoreModel::new(false, false, false);
    assert!(store.apply_account_write(make_account(3, 1, 10, 4)));
    assert!(store.apply_account_write(make_account(3, 1, 10, 9)));
    assert!(!store.apply_account_write(make_account(3, 1, 10, 9)));
    assert!(!store.apply_account_write(make_account(3, 1, 10, 2)));
    let cur = store.get_current_account(&vec![3u8; 32]).unwrap();
    assert_eq!((cur.slot, cur.write_version), (10, 9));
}

#[test]
fn ordering_key_comparisons() {
    assert!(is_strictly_newer(10, 5, 11, 0));
    assert!(is_strictly_newer(10, 5, 10, 6));
    assert!(!is_strictly_newer(10, 5, 10, 5));
    assert!(!is_strictly_newer(10, 5, 10, 4));
    assert!(!is_strictly_newer(10, 5, 9, 99));
}

#[test]
fn extreme_ordering_keys() {
    assert!(!is_strictly_newer(i64::MAX, i64::MAX, i64::MAX, i64::MAX));
    assert!(is_strictly_newer(i64::MAX, i64::MAX - 1, i64::MAX, i64::MAX));
    assert!(is_strictly_newer(i64::MIN, i64::MAX, i64::MIN + 1, i64::MIN));
    let mut store = StoreModel::new(false, false, false);
    assert!(store.apply_account_write(make_account(1, 1, i64::MAX, i64::MAX)));
    assert!(!store.apply_account_write(make_account(1, 1, i64::MAX, i64::MAX)));
    let cur = store.get_current_account(&vec![1u8; 32]).unwrap();
    assert_eq!((cur.slot, cur.write_version), (i64::MAX, i64::MAX));
}

#[test]
fn startup_dedup_baseline() {
    // Baseline 100, dedup enabled: slot 90 before the end-of-startup marker
    // produces no store write; slot 101 produces one.
    let dedup = StartupDedupTracker::new(true, Some(100));
    let mut client = SimpleMongoDbClient::new(1, dedup);
    let mut store = StoreModel::new(false, false, false);

    let skipped = client.update_account(make_account(1, 1, 90, 0), true);
    assert!(skipped.is_none());
    assert_eq!(client.pending_account_updates.len(), 0);

    let batch = client.update_account(make_account(1, 1, 101, 0), true);
    let batch = batch.expect("slot above the baseline must flush at batch size 1");
    for rec in batch {
        store.apply_account_write(rec);
    }
    let cur = store.get_current_account(&vec![1u8; 32]).unwrap();
    assert_eq!(cur.slot, 101);
}

#[test]
fn dedup_boundary_slot_is_skipped() {
    let dedup = StartupDedupTracker::new(true, Some(100));
    let mut client = SimpleMongoDbClient::new(1, dedup);
    assert!(client.update_account(make_account(1, 1, 100, 0), true).is_none());
    assert!(client.update_account(make_account(1, 1, 101, 0), true).is_some());
}

#[test]
fn dedup_disabled_replays_everything() {
    let dedup = StartupDedupTracker::new(false, Some(100));
    let mut client = SimpleMongoDbClient::new(1, dedup);
    assert!(client.update_account(make_account(1, 1, 90, 0), true).is_some());

    let dedup2 = StartupDedupTracker::new(true, None);
    let mut client2 = SimpleMongoDbClient::new(1, dedup2);
    assert!(client2.update_account(make_account(1, 1, 90, 0), true).is_some());
}

#[test]
fn end_of_startup_retires_dedup() {
    let dedup = StartupDedupTracker::new(true, Some(100));
    let mut client = SimpleMongoDbClient::new(1, dedup);
    assert!(client.update_account(make_account(1, 1, 90, 0), true).is_none());
    let drained = client.notify_end_of_startup();
    assert!(drained.is_empty());
    // After the marker the tracker must not affect any record.
    assert!(client.update_account(make_account(1, 1, 90, 1), true).is_some());
    assert!(client.update_account(make_account(1, 1, 50, 0), false).is_some());
}

#[test]
fn slot_status_monotonic_progression() {
    // Processed(10) -> Confirmed(10) -> Rooted(10) ends Rooted; a subsequent
    // Processed(10) is rejected and the stored status remains Rooted.
    let mut store = StoreModel::new(false, false, false);
    let mk = |status| custom_geyser_plugin::records::SlotMetadata {
        slot: 10,
        parent: Some(9),
        status,
        blockhash: None,
        leader: None,
        timestamp: None,
    };
    assert!(store.apply_slot_update(mk(SlotStatus::Processed)));
    assert!(store.apply_slot_update(mk(SlotStatus::Confirmed)));
    assert!(store.apply_slot_update(mk(SlotStatus::Rooted)));
    assert!(matches!(store.get_slot_status(10), Some(SlotStatus::Rooted)));
    assert!(!store.apply_slot_update(mk(SlotStatus::Processed)));
    assert!(matches!(store.get_slot_status(10), Some(SlotStatus::Rooted)));
}

#[test]
fn slot_invalid_transitions_rejected() {
    let mut store = StoreModel::new(false, false, false);
    let mk = |slot, status| custom_geyser_plugin::records::SlotMetadata {
        slot,
        parent: None,
        status,
        blockhash: None,
        leader: None,
        timestamp: None,
    };
    // A slot cannot appear first as Confirmed or Rooted.
    assert!(!store.apply_slot_update(mk(5, SlotStatus::Confirmed)));
    assert!(!store.apply_slot_update(mk(5, SlotStatus::Rooted)));
    assert!(store.get_slot_status(5).is_none());
    // Processed cannot jump straight to Rooted.
    assert!(store.apply_slot_update(mk(5, SlotStatus::Processed)));
    assert!(!store.apply_slot_update(mk(5, SlotStatus::Rooted)));
    assert!(matches!(store.get_slot_status(5), Some(SlotStatus::Processed)));
}

#[test]
fn slot_dead_is_terminal() {
    let mut store = StoreModel::new(false, false, false);
    let mk = |slot, status| custom_geyser_plugin::records::SlotMetadata {
        slot,
        parent: None,
        status,
        blockhash: None,
        leader: None,
        timestamp: None,
    };
    // Any non-terminal state, the initial one included, may move to Dead.
    assert!(store.apply_slot_update(mk(1, SlotStatus::Dead)));
    assert!(!store.apply_slot_update(mk(1, SlotStatus::Processed)));
    assert!(!store.apply_slot_update(mk(1, SlotStatus::Dead)));
    assert!(matches!(store.get_slot_status(1), Some(SlotStatus::Dead)));
    // Rooted never moves to Dead.
    assert!(store.apply_slot_update(mk(2, SlotStatus::Processed)));
    assert!(store.apply_slot_update(mk(2, SlotStatus::Confirmed)));
    assert!(store.apply_slot_update(mk(2, SlotStatus::Rooted)));
    assert!(!store.apply_slot_update(mk(2, SlotStatus::Dead)));
}

#[test]
fn owner_reindex_single_entry() {
    // An account changing owner from X to Y leaves exactly one owner-index
    // entry for the pubkey — under Y — and zero under X.
    let mut store = StoreModel::new(true, false, false);
    let x = vec![0xAAu8; 32];
    let y = vec![0xBBu8; 32];
    assert!(store.apply_account_write(make_account(9, 0xAA, 10, 0)));
    assert!(store.apply_account_write(make_account(9, 0xBB, 11, 0)));
    let pk = vec![9u8; 32];
    let entries: Vec<_> = store
        .token_owner_index
        .iter()
        .filter(|e| e.pubkey == pk)
        .collect();
    assert_eq!(entries.len(), 1);
    assert_eq!(entries[0].secondary_key, y);
    assert!(!store.token_owner_index.iter().any(|e| e.pubkey == pk && e.secondary_key == x));
}

#[test]
fn stale_write_never_touches_index() {
    let mut store = StoreModel::new(true, false, false);
    assert!(store.apply_account_write(make_account(9, 0xBB, 11, 0)));
    // A stale record with another owner loses the compare-and-set and must
    // not mutate the index.
    assert!(!store.apply_account_write(make_account(9, 0xAA, 10, 0)));
    let key = store.get_owner_index_key(&vec![9u8; 32]).unwrap();
    assert_eq!(*key, vec![0xBBu8; 32]);
}

#[test]
fn mint_index_follows_data() {
    let mut store = StoreModel::new(false, true, false);
    let pk = vec![4u8; 32];
    let mut first = make_account(4, 1, 10, 0);
    first.data = vec![0x11; 40];
    assert!(store.apply_account_write(first));
    assert_eq!(*store.get_mint_index_key(&pk).unwrap(), vec![0x11u8; 32]);

    let mut second = make_account(4, 1, 11, 0);
    second.data = vec![0x22; 40];
    assert!(store.apply_account_write(second));
    assert_eq!(*store.get_mint_index_key(&pk).unwrap(), vec![0x22u8; 32]);

    // Data too short to carry a mint: the entry is removed, not orphaned.
    let mut third = make_account(4, 1, 12, 0);
    third.data = vec![0x33; 8];
    assert!(store.apply_account_write(third));
    assert!(store.get_mint_index_key(&pk).is_none());
}

#[test]
fn historical_append_unconditional() {
    let mut store = StoreModel::new(false, false, true);
    assert!(store.apply_account_write(make_account(2, 1, 20, 0)));
    // The stale write loses the upsert but still lands in the historical
    // collection.
    assert!(!store.apply_account_write(make_account(2, 1, 10, 0)));
    assert_eq!(store.historical_accounts.len(), 2);
    let cur = store.get_current_account(&vec![2u8; 32]).unwrap();
    assert_eq!(cur.slot, 20);
}

#[test]
fn flush_failure_drops_batch_and_continues() {
    // With panic-on-error disabled, a failed flush drops that batch and the
    // pipeline keeps working; a subsequent batch still succeeds.
    let dedup = StartupDedupTracker::new(false, None);
    let mut client = SimpleMongoDbClient::new(1, dedup);
    let mut store = StoreModel::new(false, false, false);

    let batch1 = client.update_account(make_account(1, 1, 10, 0), false).unwrap();
    // Simulated store failure: the batch is not applied.
    assert_eq!(batch1.len(), 1);
    assert!(matches!(on_flush_result(false, false), FlushDisposition::Continue));
    // The failed batch was drained, never re-accumulated.
    assert_eq!(client.pending_account_updates.len(), 0);

    let batch2 = client.update_account(make_account(2, 1, 11, 0), false).unwrap();
    for rec in batch2 {
        assert!(store.apply_account_write(rec));
    }
    assert!(matches!(on_flush_result(false, true), FlushDisposition::Continue));
    assert!(store.get_current_account(&vec![2u8; 32]).is_some());
    assert!(store.get_current_account(&vec![1u8; 32]).is_none());
}

#[test]
fn panic_policy_escalates_failures() {
    assert!(matches!(on_flush_result(true, false), FlushDisposition::Abort));
    assert!(matches!(on_flush_result(true, true), FlushDisposition::Continue));
    assert!(matches!(on_flush_result(false, false), FlushDisposition::Continue));
}

#[test]
fn error_classification() {
    let conn = GeyserPluginMongoDbError::DataStoreConnectionError { msg: "down".to_string() };
    let schema = GeyserPluginMongoDbError::DataSchemaError { msg: "bad".to_string() };
    let config = GeyserPluginMongoDbError::ConfigurationError { msg: "bad".to_string() };
    let legacy = GeyserPluginMongoDbError::ReplicaAccountV001NotSupported;
    assert!(conn.is_fatal());
    assert!(schema.is_fatal());
    assert!(config.is_fatal());
    assert!(!legacy.is_fatal());
}

#[test]
fn readable_account_roundtrip() {
    let source = make_account(5, 6, 42, 7);
    let built = DbAccountInfo::new(&source, 42);
    assert_eq!(built.pubkey, source.pubkey);
    assert_eq!(built.owner, source.owner);
    assert_eq!(built.lamports, source.lamports);
    assert_eq!(built.executable, source.executable);
    assert_eq!(built.rent_epoch, source.rent_epoch);
    assert_eq!(built.data, source.data);
    assert_eq!(built.slot, 42);
    assert_eq!(built.write_version, source.write_version);
    assert_eq!(built.txn_signature, source.txn_signature);
}

#[test]
fn mint_extraction() {
    assert!(extract_mint(&vec![1u8; 31]).is_none());
    assert_eq!(extract_mint(&vec![1u8; 32]), Some(vec![1u8; 32]));
    let mut long = vec![9u8; 32];
    long.extend_from_slice(&[0u8; 100]);
    assert_eq!(extract_mint(&long), Some(vec![9u8; 32]));
}

#[test]
fn byte_comparison() {
    assert!(bytes_eq(&vec![1, 2, 3], &vec![1, 2, 3]));
    assert!(!bytes_eq(&vec![1, 2, 3], &vec![1, 2, 4]));
    assert!(!bytes_eq(&vec![1, 2], &vec![1, 2, 3]));
    assert!(bytes_eq(&vec![], &vec![]));
}
