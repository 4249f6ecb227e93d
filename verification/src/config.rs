//! The plugin's configuration surface. Every knob is optional; the accessors
//! give the effective value, stated defaults applied. Parsing the
//! configuration file and the connection material is the unverified shell's
//! job; it hands this plain value in once, at pipeline construction.

use vstd::prelude::*;
use crate::{
    DEFAULT_ACCOUNTS_INSERT_BATCH_SIZE, DEFAULT_MONGO_DB_PORT, DEFAULT_PANIC_ON_DB_ERROR,
    DEFAULT_STORE_ACCOUNT_HISTORICAL_DATA, DEFAULT_THREADS_COUNT,
};

verus! {

/// The configuration of the store-replication pipeline.
pub struct GeyserPluginMongoDBConfig {
    /// The host name or IP of the store server.
    pub host: Option<String>,
    /// The user name for the store server.
    pub user: Option<String>,
    /// The port number of the store, default 27017.
    pub port: Option<u16>,
    /// A full connection string; when set, `host`, `user` and `port` are
    /// ignored.
    pub connection_str: Option<String>,
    /// Number of worker threads holding store connections, default 100.
    pub threads: Option<usize>,
    /// Batch size for bulk account writes, default 10.
    pub batch_size: Option<usize>,
    /// Whether a store write failure aborts the host process, default false.
    pub panic_on_db_errors: Option<bool>,
    /// Whether historical account data is kept, default false.
    pub store_account_historical_data: Option<bool>,
    /// Whether the connection to the store uses TLS, default false.
    pub use_ssl: Option<bool>,
    /// Path to the store server's certificate file.
    pub server_ca: Option<String>,
    /// Path to the local client's certificate file.
    pub client_cert: Option<String>,
    /// Path to the local client's private key file.
    pub client_key: Option<String>,
    /// Whether the token-owner index is maintained, default false.
    pub index_token_owner: Option<bool>,
    /// Whether the token-mint index is maintained, default false.
    pub index_token_mint: Option<bool>,
    /// Whether account writes replayed at startup that are already durable
    /// are skipped, default false.
    pub skip_upsert_existing_accounts_at_startup: bool,
}

impl GeyserPluginMongoDBConfig {
    /// A configuration with every knob left at its default.
    pub fn new_default() -> (r: GeyserPluginMongoDBConfig)
        ensures
            r.host is None,
            r.user is None,
            r.port is None,
            r.connection_str is None,
            r.threads is None,
            r.batch_size is None,
            r.panic_on_db_errors is None,
            r.store_account_historical_data is None,
            r.use_ssl is None,
            r.server_ca is None,
            r.client_cert is None,
            r.client_key is None,
            r.index_token_owner is None,
            r.index_token_mint is None,
            !r.skip_upsert_existing_accounts_at_startup,
    {
        GeyserPluginMongoDBConfig {
            host: None,
            user: None,
            port: None,
            connection_str: None,
            threads: None,
            batch_size: None,
            panic_on_db_errors: None,
            store_account_historical_data: None,
            use_ssl: None,
            server_ca: None,
            client_cert: None,
            client_key: None,
            index_token_owner: None,
            index_token_mint: None,
            skip_upsert_existing_accounts_at_startup: false,
        }
    }

    /// The port the store is reached on.
    pub fn effective_port(&self) -> (r: u16)
        ensures
            r == match self.port {
                Some(p) => p,
                None => DEFAULT_MONGO_DB_PORT,
            },
    {
        match self.port {
            Some(p) => p,
            None => DEFAULT_MONGO_DB_PORT,
        }
    }

    /// The number of parallel workers.
    pub fn effective_threads(&self) -> (r: usize)
        ensures
            r == match self.threads {
                Some(t) => t,
                None => DEFAULT_THREADS_COUNT,
            },
    {
        match self.threads {
            Some(t) => t,
            None => DEFAULT_THREADS_COUNT,
        }
    }

    /// The number of account records accumulated before a batched write.
    pub fn effective_batch_size(&self) -> (r: usize)
        ensures
            r == match self.batch_size {
                Some(b) => b,
                None => DEFAULT_ACCOUNTS_INSERT_BATCH_SIZE,
            },
    {
        match self.batch_size {
            Some(b) => b,
            None => DEFAULT_ACCOUNTS_INSERT_BATCH_SIZE,
        }
    }

    /// Whether a runtime store write failure aborts the host process.
    pub fn effective_panic_on_db_errors(&self) -> (r: bool)
        ensures
            r == match self.panic_on_db_errors {
                Some(b) => b,
                None => DEFAULT_PANIC_ON_DB_ERROR,
            },
    {
        match self.panic_on_db_errors {
            Some(b) => b,
            None => DEFAULT_PANIC_ON_DB_ERROR,
        }
    }

    /// Whether historical account data is kept.
    pub fn effective_store_historical(&self) -> (r: bool)
        ensures
            r == match self.store_account_historical_data {
                Some(b) => b,
                None => DEFAULT_STORE_ACCOUNT_HISTORICAL_DATA,
            },
    {
        match self.store_account_historical_data {
            Some(b) => b,
            None => DEFAULT_STORE_ACCOUNT_HISTORICAL_DATA,
        }
    }

    /// Whether the token-owner index is maintained.
    pub fn effective_index_token_owner(&self) -> (r: bool)
        ensures
            r == (self.index_token_owner == Some(true)),
    {
        match self.index_token_owner {
            Some(b) => b,
            None => false,
        }
    }

    /// Whether the token-mint index is maintained.
    pub fn effective_index_token_mint(&self) -> (r: bool)
        ensures
            r == (self.index_token_mint == Some(true)),
    {
        match self.index_token_mint {
            Some(b) => b,
            None => false,
        }
    }
}

} // verus!
