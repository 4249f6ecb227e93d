//! Core logic of a change-data-capture sink for a ledger-processing host:
//! record model, startup deduplication, per-worker batching, compare-and-set
//! upserts, secondary-index maintenance, the slot-status state machine, and
//! the failure policy — all verified. The bounded intake queue comes from
//! the crossbeam-channel crate behind stated contracts; connection handling
//! and the actual document store writes live outside this crate.

pub mod records;
pub mod slot_state;
pub mod dedup;
pub mod store;
pub mod config;
pub mod errors;
pub mod client;
pub mod intake;

use vstd::prelude::*;

verus! {

/// The maximum asynchronous requests allowed in the intake channel, to bound
/// memory; submissions past this threshold block the caller.
pub const MAX_ASYNC_REQUESTS: usize = 40960;

/// Default port of the document store.
pub const DEFAULT_MONGO_DB_PORT: u16 = 27017;

/// Default number of worker threads writing to the store.
pub const DEFAULT_THREADS_COUNT: usize = 100;

/// Default number of account records accumulated before a batched write.
pub const DEFAULT_ACCOUNTS_INSERT_BATCH_SIZE: usize = 10;

/// Default for the panic-on-store-error policy.
pub const DEFAULT_PANIC_ON_DB_ERROR: bool = false;

/// Default for keeping historical copies of account records.
pub const DEFAULT_STORE_ACCOUNT_HISTORICAL_DATA: bool = false;

} // verus!
