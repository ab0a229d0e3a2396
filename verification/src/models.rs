//! The persisted status row and the single-row status store.
//!
//! The store is the system's only durable state: one record under one fixed
//! key, written by upsert and read by status queries. The model here is what
//! the watcher reasons about; the boundary mirrors every verified update
//! into the persistence layer with a single-statement upsert against the
//! same fixed key.

use vstd::prelude::*;

use crate::data::SentryResponse;

verus! {

/// The fixed key of the singleton status row.
pub const STATUS_ROW_ID: i32 = 1;

/// The one persisted record: the most recent successful status sample.
/// Sizes are in bytes; the boundary converts for display.
pub struct MachineStatus {
    /// The row's key; always the fixed singleton key.
    pub id: i32,
    /// The monitored disk's name.
    pub disk: String,
    /// The monitored acquisition directory.
    pub path: String,
    /// Total size in bytes of the data files in the directory.
    pub dir_bytes: u64,
    /// Available space in bytes on the disk.
    pub bytes_avail: u64,
    /// Total space in bytes of the disk.
    pub total_bytes: u64,
    /// How many data files the directory held.
    pub n_files: i32,
}

impl Clone for MachineStatus {
    fn clone(&self) -> (r: Self)
        ensures
            r == *self,
    {
        MachineStatus {
            id: self.id,
            disk: self.disk.clone(),
            path: self.path.clone(),
            dir_bytes: self.dir_bytes,
            bytes_avail: self.bytes_avail,
            total_bytes: self.total_bytes,
            n_files: self.n_files,
        }
    }
}

/// The row a status snapshot persists as, under the fixed singleton key.
pub open spec fn status_of(resp: SentryResponse) -> MachineStatus {
    MachineStatus {
        id: STATUS_ROW_ID,
        disk: resp.disk,
        path: resp.data_path,
        dir_bytes: resp.data_written_bytes,
        bytes_avail: resp.disk_avail_bytes,
        total_bytes: resp.disk_total_bytes,
        n_files: resp.data_path_files,
    }
}

impl MachineStatus {
    /// Converts a status snapshot into the row it persists as.
    pub fn from_response(resp: &SentryResponse) -> (r: Self)
        ensures
            r == status_of(*resp),
    {
        MachineStatus {
            id: STATUS_ROW_ID,
            disk: resp.disk.clone(),
            path: resp.data_path.clone(),
            dir_bytes: resp.data_written_bytes,
            bytes_avail: resp.disk_avail_bytes,
            total_bytes: resp.disk_total_bytes,
            n_files: resp.data_path_files,
        }
    }
}

/// The single-row status store: holds at most the one record under the
/// fixed key. Absent only before first initialization.
pub struct StatusStore {
    row: Option<MachineStatus>,
}

impl View for StatusStore {
    type V = Option<MachineStatus>;

    closed spec fn view(&self) -> Option<MachineStatus> {
        self.row
    }
}

impl StatusStore {
    /// The store never holds a record under any key but the fixed one.
    pub open spec fn wf(&self) -> bool {
        self@ matches Some(r) ==> r.id == STATUS_ROW_ID
    }

    /// An empty store, as before the first startup.
    pub fn new() -> (r: Self)
        ensures
            r@ is None,
            r.wf(),
    {
        StatusStore { row: None }
    }

    /// First-startup initialization: idempotently creates the row with
    /// zeroed, empty values when it is absent, and touches nothing when it
    /// is already there.
    pub fn initialize(&mut self)
        ensures
            old(self)@ is Some ==> final(self)@ == old(self)@,
            old(self)@ is None ==> (final(self)@ matches Some(r) && r.id == STATUS_ROW_ID
                && r.disk@ == Seq::<char>::empty() && r.path@ == Seq::<char>::empty()
                && r.dir_bytes == 0 && r.bytes_avail == 0 && r.total_bytes == 0 && r.n_files == 0),
            old(self).wf() ==> final(self).wf(),
    {
        if self.row.is_none() {
            self.row = Some(
                MachineStatus {
                    id: STATUS_ROW_ID,
                    disk: String::new(),
                    path: String::new(),
                    dir_bytes: 0,
                    bytes_avail: 0,
                    total_bytes: 0,
                    n_files: 0,
                },
            );
        }
    }

    /// Upserts the singleton row: whatever key the caller's record carries,
    /// the write lands on the fixed key, so a second row can never appear.
    pub fn upsert(&mut self, status: MachineStatus)
        ensures
            final(self)@ == Some(MachineStatus { id: STATUS_ROW_ID, ..status }),
            final(self).wf(),
    {
        let mut row = status;
        row.id = STATUS_ROW_ID;
        self.row = Some(row);
    }

    /// Reads the current row without touching the filesystem or the
    /// machine: the dashboard's status query.
    pub fn latest(&self) -> (r: Option<MachineStatus>)
        ensures
            r == self@,
    {
        match &self.row {
            Some(row) => Some(row.clone()),
            None => None,
        }
    }
}

} // verus!
