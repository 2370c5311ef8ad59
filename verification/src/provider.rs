//! The provider: how the backend is configured.
use vstd::prelude::*;

verus! {

/// A storage provider on SQLite.
#[derive(Clone, Copy, Debug, PartialEq, Eq, Structural)]
pub struct SQLiteStorageProvider {
    /// Whether writes update global secondary indexes themselves.
    pub immediate_gsi_consistency: bool,
    /// Whether there are snapshot connections, which only a database in a file has.
    pub has_snapshot_connections: bool,
}

} // verus!
