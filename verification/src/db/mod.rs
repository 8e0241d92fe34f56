//! Persistent storage of systems, assets, batches, findings and logs in
//! SQLite.

pub mod asset_baseline;
pub mod assets;
pub mod cli_delete;
pub mod cli_export;
pub mod cli_query;
pub mod dict;
pub mod helpers;
pub mod batches;
pub mod import;
pub mod lists;
pub mod logs;
pub mod scans;
pub mod schema;
pub mod snapshot;
pub mod systems;
pub mod sql;
pub mod types;

pub use types::{BaselineImportRow, BaselineImportSummary, Database, PendingWorkItem};
