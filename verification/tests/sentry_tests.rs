use daq_sentry::{backup_plan, catalog_plan, compute_status};
use daq_sentry::{DiskInfo, FileEntry, SentryError, SentryParameters, SentryState};

fn file(name: &str, size: u64) -> FileEntry {
    FileEntry { name: String::from(name), is_dir: false, size }
}

fn dir(name: &str) -> FileEntry {
    FileEntry { name: String::from(name), is_dir: true, size: 0 }
}

fn disk(name: &str, total_space: u64, available_space: u64) -> DiskInfo {
    DiskInfo { name: String::from(name), total_space, available_space }
}

fn state() -> SentryState {
    SentryState {
        data_path: String::from("/data/exp1"),
        process_name: None,
        disk_name: String::from("Macintosh HD"),
        config_path: String::from("/cfg"),
        config_bck_path: String::from("/bck"),
    }
}

fn exp1_listing() -> Vec<FileEntry> {
    vec![file("a.graw", 100_000_000), file("b.txt", 5)]
}

fn exp1_disks() -> Vec<DiskInfo> {
    vec![disk("Macintosh HD", 1_000_000_000_000, 500_000_000_000)]
}

#[test]
fn status_counts_data_files_and_reports_the_disk() {
    let resp = compute_status(&state(), Some(&exp1_listing()), &exp1_disks(), true).unwrap();
    assert_eq!(resp.data_path_files, 1);
    assert_eq!(resp.data_written_bytes, 100_000_000);
    assert_eq!(resp.disk_total_bytes, 1_000_000_000_000);
    assert_eq!(resp.disk_avail_bytes, 500_000_000_000);
    assert_eq!(resp.disk, "Macintosh HD");
    assert_eq!(resp.data_path, "/data/exp1");
    assert!(resp.process.is_none());

    let written_gb = resp.data_written_bytes as f64 * 1.0e-9;
    let total_gb = resp.disk_total_bytes as f64 * 1.0e-9;
    let avail_gb = resp.disk_avail_bytes as f64 * 1.0e-9;
    assert!((written_gb - 0.1).abs() < 1.0e-12);
    assert!((total_gb - 1000.0).abs() < 1.0e-9);
    assert!((avail_gb - 500.0).abs() < 1.0e-9);
}

#[test]
fn status_fails_on_missing_directory() {
    match compute_status(&state(), None, &exp1_disks(), true) {
        Err(SentryError::NotDirectory(p)) => assert_eq!(p, "/data/exp1"),
        _ => panic!("expected NotDirectory"),
    }
}

#[test]
fn status_fails_when_the_tracked_process_is_absent() {
    let mut st = state();
    st.process_name = Some(String::from("dataRouter"));
    match compute_status(&st, Some(&exp1_listing()), &exp1_disks(), false) {
        Err(SentryError::NoProcess(n)) => assert_eq!(n, "dataRouter"),
        _ => panic!("expected NoProcess"),
    }
}

#[test]
fn status_echoes_a_found_process() {
    let mut st = state();
    st.process_name = Some(String::from("dataRouter"));
    let resp = compute_status(&st, Some(&exp1_listing()), &exp1_disks(), true).unwrap();
    assert_eq!(resp.process.as_deref(), Some("dataRouter"));
}

#[test]
fn missing_directory_outranks_missing_process() {
    let mut st = state();
    st.process_name = Some(String::from("dataRouter"));
    assert!(matches!(
        compute_status(&st, None, &exp1_disks(), false),
        Err(SentryError::NotDirectory(_))
    ));
}

#[test]
fn absent_disk_reports_zero_capacity() {
    let disks = vec![disk("Other", 7, 3)];
    let resp = compute_status(&state(), Some(&exp1_listing()), &disks, true).unwrap();
    assert_eq!(resp.disk_total_bytes, 0);
    assert_eq!(resp.disk_avail_bytes, 0);
    assert_eq!(resp.data_path_files, 1);
}

#[test]
fn first_matching_disk_wins() {
    let disks = vec![
        disk("Other", 1, 1),
        disk("Macintosh HD", 10, 4),
        disk("Macintosh HD", 999, 999),
    ];
    let resp = compute_status(&state(), Some(&exp1_listing()), &disks, true).unwrap();
    assert_eq!(resp.disk_total_bytes, 10);
    assert_eq!(resp.disk_avail_bytes, 4);
}

#[test]
fn extension_filter_is_exact() {
    let listing = vec![
        file("a.graw", 10),
        file(".graw", 20),
        file("b.graw.bak", 30),
        file("c.b.graw", 40),
        dir("d.graw"),
        file("plain", 50),
    ];
    let resp = compute_status(&state(), Some(&listing), &exp1_disks(), true).unwrap();
    assert_eq!(resp.data_path_files, 2);
    assert_eq!(resp.data_written_bytes, 50);
}

#[test]
fn byte_tally_saturates_instead_of_wrapping() {
    let listing = vec![file("a.graw", u64::MAX), file("b.graw", 5)];
    let resp = compute_status(&state(), Some(&listing), &exp1_disks(), true).unwrap();
    assert_eq!(resp.data_written_bytes, u64::MAX);
}

#[test]
fn catalog_moves_exactly_the_data_files() {
    let params = SentryParameters { experiment: String::from("e1"), run_number: 7 };
    let plan = catalog_plan(&state(), &params, false, &exp1_listing()).unwrap();
    assert_eq!(plan.run_dir, "/data/exp1/e1/run_0007");
    assert_eq!(plan.moves, vec!["a.graw"]);

    let after = vec![file("b.txt", 5)];
    let resp = compute_status(&state(), Some(&after), &exp1_disks(), true).unwrap();
    assert_eq!(resp.data_path_files, 0);
    assert_eq!(resp.data_written_bytes, 0);
}

#[test]
fn catalog_rejects_an_existing_run() {
    let params = SentryParameters { experiment: String::from("e1"), run_number: 7 };
    let first = catalog_plan(&state(), &params, false, &exp1_listing());
    assert!(first.is_ok());
    match catalog_plan(&state(), &params, true, &exp1_listing()) {
        Err(SentryError::CatAlreadyExists(p, n)) => {
            assert_eq!(p, "/data/exp1/e1/run_0007");
            assert_eq!(n, 7);
        },
        _ => panic!("expected CatAlreadyExists"),
    }
}

#[test]
fn backup_lists_the_named_configs_and_every_descriptor_file() {
    let params = SentryParameters { experiment: String::from("e1"), run_number: 7 };
    let descriptors = vec![file("cobo0.xcfg", 1), dir("nested"), file("cobo1.xcfg", 2)];
    let plan = backup_plan(&state(), &params, false, &descriptors).unwrap();
    assert_eq!(plan.backup_dir, "/bck/e1/run_0007");
    assert_eq!(plan.descriptor_dir, "/bck/e1/run_0007/describe");
    assert_eq!(
        plan.config_files,
        vec!["prepare-e1.xcfg", "describe-e1.xcfg", "configure-e1.xcfg"]
    );
    assert_eq!(plan.descriptor_files, vec!["cobo0.xcfg", "cobo1.xcfg"]);
}

#[test]
fn backup_rejects_an_existing_run() {
    let params = SentryParameters { experiment: String::from("e2"), run_number: 31 };
    match backup_plan(&state(), &params, true, &Vec::new()) {
        Err(SentryError::CatAlreadyExists(p, n)) => {
            assert_eq!(p, "/bck/e2/run_0031");
            assert_eq!(n, 31);
        },
        _ => panic!("expected CatAlreadyExists"),
    }
}

#[test]
fn error_messages_name_the_path_and_run() {
    let e = SentryError::NotDirectory(String::from("/data/exp1"));
    assert_eq!(
        e.message(),
        "Sentry was given a non-directory path (/data/exp1) to check the status of"
    );
    let e = SentryError::NoProcess(String::from("dataRouter"));
    assert_eq!(e.message(), "Sentry could not find a process with name dataRouter");
    let e = SentryError::CatAlreadyExists(String::from("/data/exp1/e1/run_0007"), 7);
    assert_eq!(
        e.message(),
        "Sentry tried to catalog run 7 but directory /data/exp1/e1/run_0007 already exists"
    );
    let e = SentryError::CatAlreadyExists(String::from("/d"), -3);
    assert_eq!(e.message(), "Sentry tried to catalog run -3 but directory /d already exists");
    let e = SentryError::BadIO(String::from("device lost"));
    assert_eq!(e.message(), "Sentry was not able to communicate with the disk: device lost");
    let e = SentryError::ChannelClosed;
    assert_eq!(e.message(), "Sentry's control channel closed without a cancel");
    let e = SentryError::StorageUnavailable(String::from("pool dry"));
    assert_eq!(e.message(), "Sentry could not reach the status store: pool dry");
    let e = SentryError::StorageOperationFailed(String::from("locked"));
    assert_eq!(e.message(), "Sentry could not update the status store: locked");
}
