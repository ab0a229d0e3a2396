//! Verified core of a DAQ-workstation sentry: it computes disk, process and
//! acquisition-directory status, plans the relocation of finished run files
//! into per-run directories, plans per-run configuration backups, and drives
//! the watcher loop that periodically samples one monitored target and keeps
//! the single persisted status row up to date.
//!
//! Filesystem reads and writes and the persistence layer sit at the
//! boundary: callers hand the library plain directory listings and carry out
//! the plans it returns, so everything the library decides is verified. The
//! machine's disk list and process table are queried through two narrow,
//! trusted wrappers in the probe module.

pub mod data;
pub mod models;
pub mod plans;
pub mod probe;
pub mod sentry;
pub mod text;
pub mod watcher;

pub use data::DiskInfo;
pub use data::FileEntry;
pub use data::SentryParameters;
pub use data::SentryResponse;
pub use data::SentryState;
pub use models::MachineStatus;
pub use models::StatusStore;
pub use plans::backup_plan;
pub use plans::catalog_plan;
pub use plans::BackupPlan;
pub use plans::CatalogPlan;
pub use probe::check_status;
pub use probe::check_status_with_ps;
pub use probe::find_pid_in_ps_output;
pub use sentry::compute_status;
pub use sentry::SentryError;
pub use watcher::apply_sample;
pub use watcher::record_sample;
pub use watcher::watcher_step;
pub use watcher::ControlMessage;
pub use watcher::WatcherAction;
pub use watcher::WatcherEvent;
pub use watcher::WatcherState;
