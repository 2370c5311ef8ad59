//! Logic of an SQLite storage backend.
pub mod batch_write;
pub mod error;
pub mod ids;
pub mod jobs;
pub mod log_laws;
pub mod machine;
pub mod provider;
pub mod put_item;
pub mod queue_laws;
pub mod queue_provider;
pub mod sql;
pub mod sql_statements;
pub mod statement_laws;
pub mod storage_laws;
pub mod storage_provider;
pub mod stream_cursor;
pub mod stream_duration;
pub mod stream_laws;
pub mod stream_provider;
pub mod stream_trim;
pub mod stream_writer;
pub mod sync_raft_log_store;
pub mod table_laws;
pub mod table_update;
pub mod text;
pub mod text_laws;
pub mod time_to_live;
pub mod transact_item;
pub mod transact_laws;
pub mod transact_write;
pub mod transaction_manager;
pub mod trim_laws;
pub mod types;
pub mod uuids;
