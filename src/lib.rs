//! Backup, restore and schema-version bookkeeping for a single local database
//! file.
//!
//! The library decides; the host performs. Names on disk, the order of file
//! operations, which failures may be ignored and which stop an operation, and
//! the migrations still owed by a database are computed here, against a model
//! of the data directory in which every decision is proved.

pub mod clock;
pub mod layout;
pub mod plan;
pub mod guarantees;
pub mod migrations;

pub use clock::{local_now, Timestamp};
pub use layout::{
    automatic_snapshot_path, manual_snapshot_file_name, manual_snapshot_path, AUTOMATIC_DIR,
    LIVE_DB, MANUAL_DIR, SAFEGUARD_DB, SHM_SIDECAR, WAL_SIDECAR,
};
pub use plan::{
    continues_after, copy_needed, failure_message, manual_backup_message, plan_manual_backup,
    plan_restore, plan_startup_backup,
    BackupError, CollisionPolicy, FileOp, OnFailure, Report, Step,
};
