//! The sentry's error taxonomy and its status computation.
//!
//! Everything here is pure: the boundary reads the acquisition directory and
//! queries the machine, and hands the results in as plain values. The probe
//! module wraps the live queries around [`compute_status`]; the plans module
//! builds the cataloging and backup work orders on the same listings.

use vstd::prelude::*;

use crate::data::{DiskInfo, FileEntry, SentryParameters, SentryResponse, SentryState};
use crate::text::{dec_digits, run_dir_path, run_directory, str_eq, u64_dec};

verus! {

/// All the errors the sentry can run into.
#[derive(Debug)]
pub enum SentryError {
    /// The path to probe or catalog is not an existing directory.
    NotDirectory(String),
    /// A tracked DAQ process is required but absent.
    NoProcess(String),
    /// The run directory to create already exists; nothing was mutated.
    CatAlreadyExists(String, i32),
    /// A filesystem read, write, rename or copy failed; holds the underlying
    /// error's message.
    BadIO(String),
    /// The watcher's inbox was dropped without a graceful cancel.
    ChannelClosed,
    /// The persistence layer could not hand out a connection.
    StorageUnavailable(String),
    /// The persistence layer failed to run a statement.
    StorageOperationFailed(String),
}

/// The decimal rendering of an `i32`, sign included.
pub open spec fn int_text(n: int) -> Seq<char> {
    if n >= 0 {
        dec_digits(n as nat)
    } else {
        seq!['-'] + dec_digits((-n) as nat)
    }
}

/// What `SentryError::message` returns for each error.
pub open spec fn spec_message(e: SentryError) -> Seq<char> {
    match e {
        SentryError::NotDirectory(p) => "Sentry was given a non-directory path ("@ + p@
            + ") to check the status of"@,
        SentryError::NoProcess(n) => "Sentry could not find a process with name "@ + n@,
        SentryError::CatAlreadyExists(p, run) => "Sentry tried to catalog run "@ + int_text(
            run as int,
        ) + " but directory "@ + p@ + " already exists"@,
        SentryError::BadIO(m) => "Sentry was not able to communicate with the disk: "@ + m@,
        SentryError::ChannelClosed => "Sentry's control channel closed without a cancel"@,
        SentryError::StorageUnavailable(m) => "Sentry could not reach the status store: "@ + m@,
        SentryError::StorageOperationFailed(m) => "Sentry could not update the status store: "@
            + m@,
    }
}

impl SentryError {
    /// Renders an `i32` in decimal, for the run number in a message.
    fn int_string(n: i32) -> (r: String)
        ensures
            r@ == int_text(n as int),
    {
        if n >= 0 {
            u64_dec(n as u64)
        } else {
            let m: u64 = (-(n as i64)) as u64;
            let mut s = String::from_str("-");
            let d = u64_dec(m);
            s.append(d.as_str());
            proof {
                reveal_strlit("-");
                assert(s@ =~= int_text(n as int));
            }
            s
        }
    }

    /// A descriptive message naming the offending path and, where relevant,
    /// the run number.
    pub fn message(&self) -> (r: String)
        ensures
            r@ == spec_message(*self),
    {
        match self {
            SentryError::NotDirectory(p) => {
                let mut s = String::from_str("Sentry was given a non-directory path (");
                s.append(p.as_str());
                s.append(") to check the status of");
                proof {
                    assert(s@ =~= spec_message(*self));
                }
                s
            },
            SentryError::NoProcess(n) => {
                let mut s = String::from_str("Sentry could not find a process with name ");
                s.append(n.as_str());
                proof {
                    assert(s@ =~= spec_message(*self));
                }
                s
            },
            SentryError::CatAlreadyExists(p, run) => {
                let mut s = String::from_str("Sentry tried to catalog run ");
                let num = Self::int_string(*run);
                s.append(num.as_str());
                s.append(" but directory ");
                s.append(p.as_str());
                s.append(" already exists");
                proof {
                    assert(s@ =~= spec_message(*self));
                }
                s
            },
            SentryError::BadIO(m) => {
                let mut s = String::from_str("Sentry was not able to communicate with the disk: ");
                s.append(m.as_str());
                proof {
                    assert(s@ =~= spec_message(*self));
                }
                s
            },
            SentryError::ChannelClosed => {
                let s = String::from_str("Sentry's control channel closed without a cancel");
                proof {
                    assert(s@ =~= spec_message(*self));
                }
                s
            },
            SentryError::StorageUnavailable(m) => {
                let mut s = String::from_str("Sentry could not reach the status store: ");
                s.append(m.as_str());
                proof {
                    assert(s@ =~= spec_message(*self));
                }
                s
            },
            SentryError::StorageOperationFailed(m) => {
                let mut s = String::from_str("Sentry could not update the status store: ");
                s.append(m.as_str());
                proof {
                    assert(s@ =~= spec_message(*self));
                }
                s
            },
        }
    }
}

/// The acquisition data-file suffix: a name carries it exactly when the
/// file's extension is `graw`.
pub open spec fn data_ext() -> Seq<char> {
    seq!['.', 'g', 'r', 'a', 'w']
}

/// Whether a file name has the data-file extension. The dot may not be the
/// name's first character, matching how a leading dot marks a hidden file
/// rather than an extension.
pub open spec fn has_data_ext(name: Seq<char>) -> bool {
    name.len() >= 6 && name.subrange(name.len() - 5, name.len() as int) == data_ext()
}

/// Whether a directory entry is an acquisition data file: a non-directory
/// entry whose name has the data-file extension.
pub open spec fn is_data_file(e: FileEntry) -> bool {
    !e.is_dir && has_data_ext(e.name@)
}

/// How many entries of `entries` are data files.
pub open spec fn data_file_count(entries: Seq<FileEntry>) -> int
    decreases entries.len(),
{
    if entries.len() == 0 {
        0
    } else {
        data_file_count(entries.drop_last()) + if is_data_file(entries.last()) {
            1int
        } else {
            0int
        }
    }
}

/// The summed size in bytes of the data files among `entries`.
pub open spec fn data_file_bytes(entries: Seq<FileEntry>) -> int
    decreases entries.len(),
{
    if entries.len() == 0 {
        0
    } else {
        data_file_bytes(entries.drop_last()) + if is_data_file(entries.last()) {
            entries.last().size as int
        } else {
            0int
        }
    }
}

/// Both tallies are sums of non-negative contributions.
pub proof fn lemma_tallies_nonneg(entries: Seq<FileEntry>)
    ensures
        data_file_count(entries) >= 0,
        data_file_bytes(entries) >= 0,
        data_file_count(entries) <= entries.len(),
    decreases entries.len(),
{
    if entries.len() > 0 {
        lemma_tallies_nonneg(entries.drop_last());
    }
}

/// A file count clamped into the reported `i32` field.
pub open spec fn clamp_count(n: int) -> i32 {
    if n > i32::MAX {
        i32::MAX
    } else {
        n as i32
    }
}

/// A byte tally clamped into the reported `u64` field.
pub open spec fn clamp_bytes(n: int) -> u64 {
    if n > u64::MAX {
        u64::MAX
    } else {
        n as u64
    }
}

/// The first disk in enumeration order whose name matches exactly, if any.
pub open spec fn first_disk(disks: Seq<DiskInfo>, name: Seq<char>) -> Option<DiskInfo>
    decreases disks.len(),
{
    if disks.len() == 0 {
        None
    } else if disks[0].name@ == name {
        Some(disks[0])
    } else {
        first_disk(disks.drop_first(), name)
    }
}

/// The reported total capacity: that of the first matching disk, zero when
/// the disk is absent (disk absence is not fatal).
pub open spec fn disk_total_space(disks: Seq<DiskInfo>, name: Seq<char>) -> u64 {
    match first_disk(disks, name) {
        Some(d) => d.total_space,
        None => 0,
    }
}

/// The reported available capacity, zero when the disk is absent.
pub open spec fn disk_avail_space(disks: Seq<DiskInfo>, name: Seq<char>) -> u64 {
    match first_disk(disks, name) {
        Some(d) => d.available_space,
        None => 0,
    }
}

/// A prefix without a match does not change which disk is found first.
proof fn lemma_first_disk_skip(disks: Seq<DiskInfo>, name: Seq<char>, i: int)
    requires
        0 <= i <= disks.len(),
        forall|j: int| 0 <= j < i ==> disks[j].name@ != name,
    ensures
        first_disk(disks, name) == first_disk(disks.skip(i), name),
    decreases i,
{
    if i > 0 {
        lemma_first_disk_skip(disks.drop_first(), name, i - 1);
        assert(disks.skip(i) =~= disks.drop_first().skip(i - 1));
    } else {
        assert(disks.skip(0) =~= disks);
    }
}

/// Finds the first disk whose name matches `name` exactly.
fn find_disk(disks: &Vec<DiskInfo>, name: &str) -> (r: Option<usize>)
    ensures
        match r {
            Some(i) => i < disks@.len() && first_disk(disks@, name@) == Some(disks@[i as int]),
            None => first_disk(disks@, name@) is None,
        },
{
    let mut i: usize = 0;
    while i < disks.len()
        invariant
            i <= disks@.len(),
            forall|j: int| 0 <= j < i ==> disks@[j].name@ != name@,
        decreases disks@.len() - i,
    {
        if str_eq(disks[i].name.as_str(), name) {
            proof {
                lemma_first_disk_skip(disks@, name@, i as int);
                assert(disks@.skip(i as int)[0] == disks@[i as int]);
            }
            return Some(i);
        }
        i += 1;
    }
    proof {
        lemma_first_disk_skip(disks@, name@, disks@.len() as int);
        assert(disks@.skip(disks@.len() as int) =~= Seq::<DiskInfo>::empty());
    }
    None
}

/// Whether a directory entry is an acquisition data file.
pub fn entry_is_data_file(e: &FileEntry) -> (r: bool)
    ensures
        r == is_data_file(*e),
{
    if e.is_dir {
        return false;
    }
    let name = e.name.as_str();
    let n = name.unicode_len();
    if n < 6 {
        return false;
    }
    let ghost sub = name@.subrange(n as int - 5, n as int);
    proof {
        assert(sub[0] == name@[n as int - 5]);
        assert(sub[1] == name@[n as int - 4]);
        assert(sub[2] == name@[n as int - 3]);
        assert(sub[3] == name@[n as int - 2]);
        assert(sub[4] == name@[n as int - 1]);
    }
    if name.get_char(n - 5) == '.' && name.get_char(n - 4) == 'g' && name.get_char(n - 3) == 'r'
        && name.get_char(n - 2) == 'a' && name.get_char(n - 1) == 'w' {
        proof {
            assert(sub =~= data_ext());
        }
        true
    } else {
        false
    }
}

/// Whether `resp` is the status snapshot owed for `state` given the directory
/// listing `entries` and the machine's disk list `disks`: the target's names
/// echoed back, the data-file tally of the listing, and the capacity of the
/// first matching disk.
pub open spec fn response_matches(
    resp: SentryResponse,
    state: SentryState,
    entries: Seq<FileEntry>,
    disks: Seq<DiskInfo>,
) -> bool {
    &&& resp.disk@ == state.disk_name@
    &&& match (resp.process, state.process_name) {
        (Some(a), Some(b)) => a@ == b@,
        (None, None) => true,
        _ => false,
    }
    &&& resp.data_path@ == state.data_path@
    &&& resp.data_path_files == clamp_count(data_file_count(entries))
    &&& resp.data_written_bytes == clamp_bytes(data_file_bytes(entries))
    &&& resp.disk_total_bytes == disk_total_space(disks, state.disk_name@)
    &&& resp.disk_avail_bytes == disk_avail_space(disks, state.disk_name@)
}

/// Computes the status snapshot from plain values: the directory listing
/// (`None` when the target path is not an existing directory), the machine's
/// disk list, and whether the tracked process was found.
///
/// A missing directory is rejected before any other work; a tracked but
/// absent process is fatal to the probe; a missing disk only zeroes the disk
/// figures. On success every reported field is pinned down exactly.
pub fn compute_status(
    state: &SentryState,
    dir_entries: Option<&Vec<FileEntry>>,
    disks: &Vec<DiskInfo>,
    process_found: bool,
) -> (r: Result<SentryResponse, SentryError>)
    ensures
        ({
            match dir_entries {
                None => r matches Err(SentryError::NotDirectory(p)) && p@ == state.data_path@,
                Some(es) => {
                    if state.process_name is Some && !process_found {
                        r matches Err(SentryError::NoProcess(n))
                            && state.process_name matches Some(m) && n@ == m@
                    } else {
                        r matches Ok(resp) && response_matches(resp, *state, es@, disks@)
                    }
                },
            }
        }),
{
    let entries = match dir_entries {
        None => {
            return Err(SentryError::NotDirectory(state.data_path.clone()));
        },
        Some(es) => es,
    };
    let process = match &state.process_name {
        None => None,
        Some(name) => {
            if !process_found {
                return Err(SentryError::NoProcess(name.clone()));
            }
            Some(name.clone())
        },
    };

    let (disk_total, disk_avail) = match find_disk(disks, state.disk_name.as_str()) {
        Some(i) => (disks[i].total_space, disks[i].available_space),
        None => (0u64, 0u64),
    };

    let mut count: i32 = 0;
    let mut bytes: u64 = 0;
    let mut i: usize = 0;
    while i < entries.len()
        invariant
            i <= entries@.len(),
            count == clamp_count(data_file_count(entries@.take(i as int))),
            bytes == clamp_bytes(data_file_bytes(entries@.take(i as int))),
        decreases entries@.len() - i,
    {
        proof {
            lemma_tallies_nonneg(entries@.take(i as int));
            assert(entries@.take(i as int + 1).drop_last() =~= entries@.take(i as int));
            assert(entries@.take(i as int + 1).last() == entries@[i as int]);
        }
        if entry_is_data_file(&entries[i]) {
            if count < i32::MAX {
                count = count + 1;
            }
            bytes = bytes.saturating_add(entries[i].size);
        }
        i += 1;
    }
    proof {
        assert(entries@.take(entries@.len() as int) =~= entries@);
    }

    Ok(
        SentryResponse {
            disk: state.disk_name.clone(),
            process,
            data_path: state.data_path.clone(),
            data_path_files: count,
            data_written_bytes: bytes,
            disk_avail_bytes: disk_avail,
            disk_total_bytes: disk_total,
        },
    )
}

} // verus!
