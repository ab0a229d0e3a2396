//! The status probe: queries the machine for its disks and for the tracked
//! DAQ process, and computes the status snapshot.
//!
//! Process discovery is a narrow capability with two interchangeable
//! mechanisms, selected by the caller: a native process-table lookup, and a
//! verified parser over the output of an external process-listing tool, for
//! launch environments whose processes lose their metadata to the native
//! enumeration.

use vstd::prelude::*;

use crate::data::{DiskInfo, FileEntry, SentryResponse, SentryState};
use crate::sentry::{compute_status, response_matches, SentryError};
use crate::text::{all_digits, dec_value, split_lines_of, str_eq, tokens, tokens_of};

verus! {

/// Relies on `sysinfo::Disks::new_with_refreshed_list`: enumerates the
/// machine's disks with their names and capacities. Which disks exist and
/// how full they are depends on the machine and the moment, so nothing is
/// promised of the result; `compute_status` pins down what is reported for
/// every possible disk list.
#[verifier::external_body]
fn list_disks() -> (r: Vec<DiskInfo>) {
    sysinfo::Disks::new_with_refreshed_list()
        .list()
        .iter()
        .map(
            |d| DiskInfo {
                name: d.name().to_string_lossy().into_owned(),
                total_space: d.total_space(),
                available_space: d.available_space(),
            },
        )
        .collect()
}

/// Relies on `sysinfo::System::processes_by_exact_name` over a freshly
/// refreshed process table: yields processes whose name matches exactly.
/// Which processes run depends on the machine and the moment, so nothing is
/// promised of the result.
#[verifier::external_body]
fn find_process_native(name: &str) -> (r: Option<u64>) {
    let sys = sysinfo::System::new_with_specifics(
        sysinfo::RefreshKind::nothing().with_processes(
            sysinfo::ProcessRefreshKind::everything(),
        ),
    );
    let pid = sys.processes_by_exact_name(name.as_ref()).next().map(|p| p.pid().as_u32() as u64);
    pid
}

/// Relies on `sysinfo::System::process` over a freshly refreshed process
/// table: whether a process with this id is currently running. The answer
/// depends on the machine and the moment, so nothing is promised of it.
#[verifier::external_body]
fn pid_alive(pid: u64) -> (r: bool) {
    let sys = sysinfo::System::new_with_specifics(
        sysinfo::RefreshKind::nothing().with_processes(
            sysinfo::ProcessRefreshKind::everything(),
        ),
    );
    sys.process(sysinfo::Pid::from_u32(pid as u32)).is_some()
}

/// The process id one line of process-listing output reports for `name`:
/// the value of the line's first column when its fourth column is exactly
/// `name` and the first is a decimal numeral that fits in 64 bits.
pub open spec fn spec_line_pid(line: Seq<char>, name: Seq<char>) -> Option<nat> {
    let tk = tokens_of(line);
    if tk.len() >= 4 && tk[3] == name && all_digits(tk[0]) && dec_value(tk[0]) <= u64::MAX {
        Some(dec_value(tk[0]))
    } else {
        None
    }
}

/// The first reported process id among `ls`.
pub open spec fn first_line_pid(ls: Seq<Seq<char>>, name: Seq<char>) -> Option<nat>
    decreases ls.len(),
{
    if ls.len() == 0 {
        None
    } else if spec_line_pid(ls[0], name) is Some {
        spec_line_pid(ls[0], name)
    } else {
        first_line_pid(ls.drop_first(), name)
    }
}

/// What the process-listing parser finds: the first line of `out` naming
/// the process in its command column decides the id.
pub open spec fn spec_find_pid(out: Seq<char>, name: Seq<char>) -> Option<nat> {
    first_line_pid(split_lines_of(out), name)
}

/// Lines without a match do not change which line decides.
proof fn lemma_first_line_pid_skip(ls: Seq<Seq<char>>, name: Seq<char>, i: int)
    requires
        0 <= i <= ls.len(),
        forall|j: int| 0 <= j < i ==> spec_line_pid(#[trigger] ls[j], name) is None,
    ensures
        first_line_pid(ls, name) == first_line_pid(ls.skip(i), name),
    decreases i,
{
    if i > 0 {
        lemma_first_line_pid_skip(ls.drop_first(), name, i - 1);
        assert(ls.skip(i) =~= ls.drop_first().skip(i - 1));
    } else {
        assert(ls.skip(0) =~= ls);
    }
}

/// The process id one line reports for `name`, if any.
fn line_pid(line: &str, name: &str) -> (r: Option<u64>)
    ensures
        match r {
            Some(v) => spec_line_pid(line@, name@) == Some(v as nat),
            None => spec_line_pid(line@, name@) is None,
        },
{
    let tk = tokens(line);
    if tk.len() < 4 {
        return None;
    }
    if !str_eq(tk[3].as_str(), name) {
        return None;
    }
    crate::text::parse_u64(tk[0].as_str())
}

/// Finds a process id in the output of an external process-listing tool
/// (columns: id, terminal, time, command): the first line whose command
/// column is exactly `name` decides, and its id column must be a decimal
/// numeral. Lines with fewer than four columns never match.
pub fn find_pid_in_ps_output(output: &str, name: &str) -> (r: Option<u64>)
    ensures
        match r {
            Some(v) => spec_find_pid(output@, name@) == Some(v as nat),
            None => spec_find_pid(output@, name@) is None,
        },
{
    let lines = crate::text::split_lines(output);
    let ghost lviews = lines@.map_values(|t: String| t@);
    let mut i: usize = 0;
    while i < lines.len()
        invariant
            i <= lines@.len(),
            lviews == lines@.map_values(|t: String| t@),
            lviews == split_lines_of(output@),
            forall|j: int| 0 <= j < i ==> spec_line_pid(#[trigger] lviews[j], name@) is None,
        decreases lines@.len() - i,
    {
        let r = line_pid(lines[i].as_str(), name);
        proof {
            assert(lviews[i as int] == lines@[i as int]@);
        }
        if r.is_some() {
            proof {
                lemma_first_line_pid_skip(lviews, name@, i as int);
                assert(lviews.skip(i as int)[0] == lviews[i as int]);
            }
            return r;
        }
        i += 1;
    }
    proof {
        lemma_first_line_pid_skip(lviews, name@, lviews.len() as int);
        assert(lviews.skip(lviews.len() as int) =~= Seq::<Seq<char>>::empty());
    }
    None
}

/// Checks the status of the DAQ workstation: disk capacity, DAQ process
/// liveness and acquisition-directory occupancy. The disk list and the
/// process table are queried live through the native enumeration; the
/// caller hands in the acquisition directory's listing, `None` when the
/// target path is not an existing directory.
///
/// A missing directory is rejected before any other work; a tracked but
/// absent process is fatal; and on success the directory tallies and echoed
/// names are pinned down exactly, while the disk figures are whatever the
/// machine reported for the named disk.
pub fn check_status(state: &SentryState, dir_entries: Option<&Vec<FileEntry>>) -> (r: Result<
    SentryResponse,
    SentryError,
>)
    ensures
        ({
            match dir_entries {
                None => r matches Err(SentryError::NotDirectory(p)) && p@ == state.data_path@,
                Some(es) => match r {
                    Ok(resp) => exists|disks: Seq<DiskInfo>|
                        response_matches(resp, *state, es@, disks),
                    Err(e) => e matches SentryError::NoProcess(n)
                        && state.process_name matches Some(m) && n@ == m@,
                },
            }
        }),
        state.process_name is None && dir_entries is Some ==> r is Ok,
{
    let disks = list_disks();
    let process_found = match &state.process_name {
        None => true,
        Some(name) => find_process_native(name.as_str()).is_some(),
    };
    let r = compute_status(state, dir_entries, &disks, process_found);
    proof {
        if dir_entries is Some && r is Ok {
            assert(response_matches(r->Ok_0, *state, dir_entries->Some_0@, disks@));
        }
    }
    r
}

/// Checks the status as [`check_status`] does, but resolves the DAQ process
/// through the output of an external process-listing tool instead of the
/// native enumeration: the parsed process id must also be alive in the
/// process table. When no line of `ps_output` reports the tracked process,
/// the probe fails with the process-not-found error.
pub fn check_status_with_ps(
    state: &SentryState,
    dir_entries: Option<&Vec<FileEntry>>,
    ps_output: &str,
) -> (r: Result<SentryResponse, SentryError>)
    ensures
        ({
            match dir_entries {
                None => r matches Err(SentryError::NotDirectory(p)) && p@ == state.data_path@,
                Some(es) => match r {
                    Ok(resp) => exists|disks: Seq<DiskInfo>|
                        response_matches(resp, *state, es@, disks),
                    Err(e) => e matches SentryError::NoProcess(n)
                        && state.process_name matches Some(m) && n@ == m@,
                },
            }
        }),
        state.process_name is None && dir_entries is Some ==> r is Ok,
        ({
            match (dir_entries, &state.process_name) {
                (Some(es), Some(m)) => spec_find_pid(ps_output@, m@) is None ==> (r matches Err(
                    SentryError::NoProcess(n),
                ) && n@ == m@),
                _ => true,
            }
        }),
{
    let disks = list_disks();
    let process_found = match &state.process_name {
        None => true,
        Some(name) => {
            match find_pid_in_ps_output(ps_output, name.as_str()) {
                Some(pid) => pid_alive(pid),
                None => false,
            }
        },
    };
    let r = compute_status(state, dir_entries, &disks, process_found);
    proof {
        if dir_entries is Some && r is Ok {
            assert(response_matches(r->Ok_0, *state, dir_entries->Some_0@, disks@));
        }
    }
    r
}

} // verus!
