//! Error taxonomy and the failure policy: fatal initialization errors are
//! always surfaced; runtime batch-write failures are either escalated to an
//! abort or logged and dropped, per the panic-on-error flag; semantic
//! rejections never reach here at all — they are discarded where they occur.

use vstd::prelude::*;

verus! {

/// The errors the pipeline can surface to the host.
pub enum GeyserPluginMongoDbError {
    /// Connecting to the backend data store failed; fatal at initialization.
    DataStoreConnectionError { msg: String },
    /// Preparing the data store schema failed; fatal at initialization.
    DataSchemaError { msg: String },
    /// The supplied configuration is unusable; fatal at initialization.
    ConfigurationError { msg: String },
    /// The upstream host offered a legacy account record shape that is no
    /// longer supported; the record is rejected, never applied.
    ReplicaAccountV001NotSupported,
}

impl GeyserPluginMongoDbError {
    /// Fatal errors stop the pipeline before any record flows: connection,
    /// schema and configuration failures. A legacy record shape is only a
    /// semantic rejection of that record.
    pub open spec fn spec_is_fatal(&self) -> bool {
        match self {
            GeyserPluginMongoDbError::DataStoreConnectionError { .. } => true,
            GeyserPluginMongoDbError::DataSchemaError { .. } => true,
            GeyserPluginMongoDbError::ConfigurationError { .. } => true,
            GeyserPluginMongoDbError::ReplicaAccountV001NotSupported => false,
        }
    }

    /// Classifies the error: fatal initialization failure or semantic
    /// rejection.
    pub fn is_fatal(&self) -> (r: bool)
        ensures
            r == self.spec_is_fatal(),
    {
        match self {
            GeyserPluginMongoDbError::DataStoreConnectionError { .. } => true,
            GeyserPluginMongoDbError::DataSchemaError { .. } => true,
            GeyserPluginMongoDbError::ConfigurationError { .. } => true,
            GeyserPluginMongoDbError::ReplicaAccountV001NotSupported => false,
        }
    }
}

/// What a worker does after a batch write attempt.
pub enum FlushDisposition {
    /// The batch is done (written, or dropped after a logged failure); the
    /// worker goes on with the next batch.
    Continue,
    /// The failure is escalated to a fatal, unrecoverable signal that stops
    /// the host process.
    Abort,
}

/// Decides the worker's next step after a batch write. The failed batch is
/// never retried — it was already drained from the buffer — so memory cannot
/// grow from re-accumulation; under the strict policy a failure aborts,
/// otherwise the pipeline continues with the next batch.
pub fn on_flush_result(panic_on_db_errors: bool, write_succeeded: bool) -> (r: FlushDisposition)
    ensures
        r is Abort <==> (!write_succeeded && panic_on_db_errors),
        r is Continue <==> (write_succeeded || !panic_on_db_errors),
{
    if !write_succeeded && panic_on_db_errors {
        FlushDisposition::Abort
    } else {
        FlushDisposition::Continue
    }
}

} // verus!
