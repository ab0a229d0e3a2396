//! The data structures shared by the sentry's components.

use vstd::prelude::*;

verus! {

/// The monitoring target: which directory, disk and (optionally) which DAQ
/// process the sentry watches. Owned by the watcher and replaced wholesale on
/// reconfiguration, never mutated field by field.
pub struct SentryState {
    /// Path of the live acquisition directory.
    pub data_path: String,
    /// Name of the tracked DAQ process; `None` when no process is tracked.
    pub process_name: Option<String>,
    /// Exact, case-sensitive name of the disk whose capacity is reported.
    pub disk_name: String,
    /// Path of the directory holding the experiment's configuration files.
    pub config_path: String,
    /// Path under which configuration backups are filed per run.
    pub config_bck_path: String,
}

impl Clone for SentryState {
    fn clone(&self) -> (r: Self)
        ensures
            r == *self,
    {
        SentryState {
            data_path: self.data_path.clone(),
            process_name: match &self.process_name {
                Some(name) => Some(name.clone()),
                None => None,
            },
            disk_name: self.disk_name.clone(),
            config_path: self.config_path.clone(),
            config_bck_path: self.config_bck_path.clone(),
        }
    }
}

/// Identifies one run for cataloging and backup requests; supplied per
/// request, never persisted.
pub struct SentryParameters {
    /// Name of the experiment the run belongs to.
    pub experiment: String,
    /// Number of the run within the experiment.
    pub run_number: i32,
}

impl Clone for SentryParameters {
    fn clone(&self) -> (r: Self)
        ensures
            r == *self,
    {
        SentryParameters { experiment: self.experiment.clone(), run_number: self.run_number }
    }
}

/// A point-in-time status snapshot, immutable once produced. Sizes are in
/// bytes; the boundary converts to display units.
pub struct SentryResponse {
    /// The disk name the snapshot was taken for.
    pub disk: String,
    /// The tracked process name, if one was tracked.
    pub process: Option<String>,
    /// The acquisition directory the snapshot was taken for.
    pub data_path: String,
    /// How many data files the acquisition directory held.
    pub data_path_files: i32,
    /// Total size in bytes of those data files.
    pub data_written_bytes: u64,
    /// Available space in bytes on the monitored disk; zero when absent.
    pub disk_avail_bytes: u64,
    /// Total space in bytes of the monitored disk; zero when absent.
    pub disk_total_bytes: u64,
}

impl Clone for SentryResponse {
    fn clone(&self) -> (r: Self)
        ensures
            r == *self,
    {
        SentryResponse {
            disk: self.disk.clone(),
            process: match &self.process {
                Some(name) => Some(name.clone()),
                None => None,
            },
            data_path: self.data_path.clone(),
            data_path_files: self.data_path_files,
            data_written_bytes: self.data_written_bytes,
            disk_avail_bytes: self.disk_avail_bytes,
            disk_total_bytes: self.disk_total_bytes,
        }
    }
}

/// One immediate entry of a directory, as the boundary read it: the bare file
/// name (no leading path), whether it is a sub-directory, and its size.
pub struct FileEntry {
    /// The entry's file name.
    pub name: String,
    /// Whether the entry is a sub-directory.
    pub is_dir: bool,
    /// The entry's size in bytes; zero for sub-directories.
    pub size: u64,
}

impl Clone for FileEntry {
    fn clone(&self) -> (r: Self)
        ensures
            r == *self,
    {
        FileEntry { name: self.name.clone(), is_dir: self.is_dir, size: self.size }
    }
}

/// One disk of the workstation, as the disk enumeration reported it.
pub struct DiskInfo {
    /// The disk's name.
    pub name: String,
    /// The disk's total capacity in bytes.
    pub total_space: u64,
    /// The disk's available capacity in bytes.
    pub available_space: u64,
}

impl Clone for DiskInfo {
    fn clone(&self) -> (r: Self)
        ensures
            r == *self,
    {
        DiskInfo {
            name: self.name.clone(),
            total_space: self.total_space,
            available_space: self.available_space,
        }
    }
}

} // verus!
