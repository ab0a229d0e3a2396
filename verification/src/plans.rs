//! Planning for the cataloger and the configuration archiver.
//!
//! Both operations mutate the filesystem, so the library splits them: it
//! derives the run directory, rejects a run that already exists, and lists
//! exactly which files are to be moved or copied; the boundary then carries
//! the plan out. A plan is computed against a directory listing taken at
//! call time and mutates nothing itself.

use vstd::prelude::*;

use crate::data::{FileEntry, SentryParameters, SentryState};
use crate::sentry::{data_file_bytes, data_file_count, is_data_file, SentryError};
use crate::text::{run_dir_path, run_directory};

verus! {

/// The fixed name of the configuration root's descriptor subfolder, backed
/// up alongside the named configuration files.
pub open spec fn descriptor_dir_text() -> Seq<char> {
    "describe"@
}

/// The name of the experiment's prepare configuration file.
pub open spec fn prepare_name(experiment: Seq<char>) -> Seq<char> {
    "prepare-"@ + experiment + ".xcfg"@
}

/// The name of the experiment's describe configuration file.
pub open spec fn describe_name(experiment: Seq<char>) -> Seq<char> {
    "describe-"@ + experiment + ".xcfg"@
}

/// The name of the experiment's configure configuration file.
pub open spec fn configure_name(experiment: Seq<char>) -> Seq<char> {
    "configure-"@ + experiment + ".xcfg"@
}

/// The names of the data files among `entries`, in listing order.
pub open spec fn data_file_names(entries: Seq<FileEntry>) -> Seq<Seq<char>>
    decreases entries.len(),
{
    if entries.len() == 0 {
        Seq::empty()
    } else {
        let rest = data_file_names(entries.drop_last());
        if is_data_file(entries.last()) {
            rest.push(entries.last().name@)
        } else {
            rest
        }
    }
}

/// The entries of `entries` that are not data files, in listing order: what
/// a catalog leaves behind in the source directory.
pub open spec fn remaining_entries(entries: Seq<FileEntry>) -> Seq<FileEntry>
    decreases entries.len(),
{
    if entries.len() == 0 {
        Seq::empty()
    } else {
        let rest = remaining_entries(entries.drop_last());
        if is_data_file(entries.last()) {
            rest
        } else {
            rest.push(entries.last())
        }
    }
}

/// The names of the regular (non-directory) files among `entries`, in
/// listing order: what a backup copies out of the descriptor subfolder.
pub open spec fn regular_file_names(entries: Seq<FileEntry>) -> Seq<Seq<char>>
    decreases entries.len(),
{
    if entries.len() == 0 {
        Seq::empty()
    } else {
        let rest = regular_file_names(entries.drop_last());
        if !entries.last().is_dir {
            rest.push(entries.last().name@)
        } else {
            rest
        }
    }
}

/// What a catalog of a run decides, as a function of whether the run
/// directory already exists and of the source listing: rejection, or the
/// names to move.
pub open spec fn spec_catalog_outcome(run_dir_exists: bool, entries: Seq<FileEntry>) -> Option<
    Seq<Seq<char>>,
> {
    if run_dir_exists {
        None
    } else {
        Some(data_file_names(entries))
    }
}

/// What a backup of a run decides: rejection, or the descriptor files to
/// copy beside the three named configuration files.
pub open spec fn spec_backup_outcome(
    backup_dir_exists: bool,
    descriptor_entries: Seq<FileEntry>,
) -> Option<Seq<Seq<char>>> {
    if backup_dir_exists {
        None
    } else {
        Some(regular_file_names(descriptor_entries))
    }
}

/// The filesystem work of one catalog: create `run_dir`, then move each file
/// of `moves` (a bare name) from the source directory into `run_dir` under
/// its own name, one at a time and in order.
pub struct CatalogPlan {
    /// Full path of the run directory to create.
    pub run_dir: String,
    /// Names of the source files to move into the run directory.
    pub moves: Vec<String>,
}

/// The filesystem work of one backup: create `backup_dir` and
/// `descriptor_dir`, copy each of `config_files` (bare names) from the
/// configuration root into `backup_dir`, and copy each of
/// `descriptor_files` from the root's descriptor subfolder into
/// `descriptor_dir`. Sources are left untouched.
pub struct BackupPlan {
    /// Full path of the backup run directory to create.
    pub backup_dir: String,
    /// Full path of the descriptor subfolder within the backup directory.
    pub descriptor_dir: String,
    /// Names of the configuration files to copy from the configuration root.
    pub config_files: Vec<String>,
    /// Names of the files to copy from the configuration root's descriptor
    /// subfolder.
    pub descriptor_files: Vec<String>,
}

/// Plans the cataloging of one run: derives the run directory under the data
/// root, rejects it if it already exists (carrying the path and run number),
/// and otherwise lists every data file of the source listing as a move.
pub fn catalog_plan(
    state: &SentryState,
    params: &SentryParameters,
    run_dir_exists: bool,
    entries: &Vec<FileEntry>,
) -> (r: Result<CatalogPlan, SentryError>)
    ensures
        ({
            let dir = run_dir_path(state.data_path@, params.experiment@, params.run_number as int);
            match r {
                Err(e) => e matches SentryError::CatAlreadyExists(p, n) && run_dir_exists && p@
                    == dir && n == params.run_number,
                Ok(plan) => !run_dir_exists && plan.run_dir@ == dir && plan.moves@.map_values(
                    |s: String| s@,
                ) == data_file_names(entries@),
            }
        }),
{
    let run_dir = run_directory(state.data_path.as_str(), params);
    if run_dir_exists {
        return Err(SentryError::CatAlreadyExists(run_dir, params.run_number));
    }
    let mut moves: Vec<String> = Vec::new();
    let mut i: usize = 0;
    while i < entries.len()
        invariant
            i <= entries@.len(),
            moves@.map_values(|s: String| s@) =~= data_file_names(entries@.take(i as int)),
        decreases entries@.len() - i,
    {
        proof {
            assert(entries@.take(i as int + 1).drop_last() =~= entries@.take(i as int));
            assert(entries@.take(i as int + 1).last() == entries@[i as int]);
        }
        if crate::sentry::entry_is_data_file(&entries[i]) {
            moves.push(entries[i].name.clone());
        }
        proof {
            assert(moves@.map_values(|s: String| s@) =~= data_file_names(
                entries@.take(i as int + 1),
            ));
        }
        i += 1;
    }
    proof {
        assert(entries@.take(entries@.len() as int) =~= entries@);
    }
    Ok(CatalogPlan { run_dir, moves })
}

/// Plans the backup of one run's configuration: derives the backup run
/// directory under the backup root, rejects it if it already exists, and
/// otherwise lists the three experiment-named configuration files and every
/// regular file of the descriptor subfolder as copies.
pub fn backup_plan(
    state: &SentryState,
    params: &SentryParameters,
    backup_dir_exists: bool,
    descriptor_entries: &Vec<FileEntry>,
) -> (r: Result<BackupPlan, SentryError>)
    ensures
        ({
            let dir = run_dir_path(
                state.config_bck_path@,
                params.experiment@,
                params.run_number as int,
            );
            match r {
                Err(e) => e matches SentryError::CatAlreadyExists(p, n) && backup_dir_exists && p@
                    == dir && n == params.run_number,
                Ok(plan) => !backup_dir_exists && plan.backup_dir@ == dir && plan.descriptor_dir@
                    == dir + seq!['/'] + descriptor_dir_text() && plan.config_files@.map_values(
                    |s: String| s@,
                ) == seq![
                    prepare_name(params.experiment@),
                    describe_name(params.experiment@),
                    configure_name(params.experiment@),
                ] && plan.descriptor_files@.map_values(|s: String| s@) == regular_file_names(
                    descriptor_entries@,
                ),
            }
        }),
{
    let backup_dir = run_directory(state.config_bck_path.as_str(), params);
    if backup_dir_exists {
        return Err(SentryError::CatAlreadyExists(backup_dir, params.run_number));
    }
    let mut descriptor_dir = backup_dir.clone();
    descriptor_dir.append("/");
    descriptor_dir.append("describe");
    proof {
        reveal_strlit("/");
        reveal_strlit("describe");
        assert(descriptor_dir@ =~= backup_dir@ + seq!['/'] + descriptor_dir_text());
    }

    let mut config_files: Vec<String> = Vec::new();
    config_files.push(named_config("prepare-", state, params));
    config_files.push(named_config("describe-", state, params));
    config_files.push(named_config("configure-", state, params));
    proof {
        reveal_strlit("prepare-");
        reveal_strlit("describe-");
        reveal_strlit("configure-");
        assert(config_files@.map_values(|s: String| s@) =~= seq![
            prepare_name(params.experiment@),
            describe_name(params.experiment@),
            configure_name(params.experiment@),
        ]);
    }

    let mut descriptor_files: Vec<String> = Vec::new();
    let mut i: usize = 0;
    while i < descriptor_entries.len()
        invariant
            i <= descriptor_entries@.len(),
            descriptor_files@.map_values(|s: String| s@) =~= regular_file_names(
                descriptor_entries@.take(i as int),
            ),
        decreases descriptor_entries@.len() - i,
    {
        proof {
            assert(descriptor_entries@.take(i as int + 1).drop_last() =~= descriptor_entries@.take(
                i as int,
            ));
            assert(descriptor_entries@.take(i as int + 1).last() == descriptor_entries@[i as int]);
        }
        if !descriptor_entries[i].is_dir {
            descriptor_files.push(descriptor_entries[i].name.clone());
        }
        proof {
            assert(descriptor_files@.map_values(|s: String| s@) =~= regular_file_names(
                descriptor_entries@.take(i as int + 1),
            ));
        }
        i += 1;
    }
    proof {
        assert(descriptor_entries@.take(descriptor_entries@.len() as int)
            =~= descriptor_entries@);
    }

    Ok(BackupPlan { backup_dir, descriptor_dir, config_files, descriptor_files })
}

/// Builds one experiment-named configuration file name:
/// `prefix` + experiment + `.xcfg`.
fn named_config(prefix: &str, state: &SentryState, params: &SentryParameters) -> (r: String)
    ensures
        r@ == prefix@ + params.experiment@ + ".xcfg"@,
{
    let mut s = String::from_str(prefix);
    s.append(params.experiment.as_str());
    s.append(".xcfg");
    s
}

/// Retrying a catalog of the same run identifier is rejected, never merged:
/// the first invocation, made while the derived run directory is absent,
/// succeeds and creates that directory; a second invocation of the same run
/// then finds it present and is refused, whatever the source directory holds
/// by then.
pub proof fn lemma_catalog_retry_rejected(
    entries_then: Seq<FileEntry>,
    entries_now: Seq<FileEntry>,
)
    ensures
        spec_catalog_outcome(false, entries_then) is Some,
        spec_catalog_outcome(true, entries_now) is None,
{
}

/// A backup of a run whose backup directory already exists is likewise
/// refused outright.
pub proof fn lemma_backup_retry_rejected(entries: Seq<FileEntry>)
    ensures
        spec_backup_outcome(true, entries) is None,
{
}

/// A successful catalog partitions the source listing: every data file is
/// moved under its own name, everything else is left behind, and what is
/// left holds no data file at all — a status probe taken after the moves
/// reports a data-file count of zero.
pub proof fn lemma_catalog_partitions(entries: Seq<FileEntry>)
    ensures
        data_file_names(entries).len() == data_file_count(entries),
        data_file_names(entries).len() + remaining_entries(entries).len() == entries.len(),
        forall|i: int|
            0 <= i < entries.len() && is_data_file(#[trigger] entries[i]) ==> data_file_names(
                entries,
            ).contains(entries[i].name@),
        forall|i: int|
            0 <= i < remaining_entries(entries).len() ==> !is_data_file(
                #[trigger] remaining_entries(entries)[i],
            ),
        data_file_count(remaining_entries(entries)) == 0,
        data_file_bytes(remaining_entries(entries)) == 0,
    decreases entries.len(),
{
    if entries.len() > 0 {
        lemma_catalog_partitions(entries.drop_last());
        let prior = entries.drop_last();
        assert forall|i: int|
            0 <= i < entries.len() && is_data_file(#[trigger] entries[i]) implies data_file_names(
            entries,
        ).contains(entries[i].name@) by {
            if i < prior.len() {
                assert(prior[i] == entries[i]);
                assert(data_file_names(prior).contains(entries[i].name@));
                let j = choose|j: int|
                    0 <= j < data_file_names(prior).len() && data_file_names(prior)[j]
                        == entries[i].name@;
                assert(data_file_names(entries)[j] == entries[i].name@);
            } else {
                assert(data_file_names(entries).last() == entries[i].name@);
            }
        }
        if !is_data_file(entries.last()) {
            assert(remaining_entries(entries).last() == entries.last());
            assert(remaining_entries(entries).drop_last() =~= remaining_entries(prior));
        }
    }
}

/// A successful backup lists every regular file of the descriptor subfolder
/// for copying, and nothing that is a sub-directory; being copies, the plan
/// disturbs no source file.
pub proof fn lemma_backup_lists_every_file(entries: Seq<FileEntry>)
    ensures
        forall|i: int|
            0 <= i < entries.len() && !(#[trigger] entries[i]).is_dir ==> regular_file_names(
                entries,
            ).contains(entries[i].name@),
        regular_file_names(entries).len() <= entries.len(),
    decreases entries.len(),
{
    if entries.len() > 0 {
        lemma_backup_lists_every_file(entries.drop_last());
        let prior = entries.drop_last();
        assert forall|i: int|
            0 <= i < entries.len() && !(#[trigger] entries[i]).is_dir implies regular_file_names(
            entries,
        ).contains(entries[i].name@) by {
            if i < prior.len() {
                assert(prior[i] == entries[i]);
                assert(regular_file_names(prior).contains(entries[i].name@));
                let j = choose|j: int|
                    0 <= j < regular_file_names(prior).len() && regular_file_names(prior)[j]
                        == entries[i].name@;
                assert(regular_file_names(entries)[j] == entries[i].name@);
            } else {
                assert(regular_file_names(entries).last() == entries[i].name@);
            }
        }
    }
}

} // verus!
