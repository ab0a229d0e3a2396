use daq_sentry::{check_status, check_status_with_ps};
use daq_sentry::{FileEntry, SentryError, SentryState};

fn state() -> SentryState {
    SentryState {
        data_path: String::from("/data/exp1"),
        process_name: None,
        disk_name: String::from("no-such-disk"),
        config_path: String::from("/cfg"),
        config_bck_path: String::from("/bck"),
    }
}

#[test]
fn live_probe_succeeds_without_process_tracking() {
    let listing = vec![
        FileEntry { name: String::from("a.graw"), is_dir: false, size: 7 },
        FileEntry { name: String::from("b.txt"), is_dir: false, size: 9 },
    ];
    let resp = check_status(&state(), Some(&listing)).expect("untracked probe is owed success");
    assert_eq!(resp.data_path_files, 1);
    assert_eq!(resp.data_written_bytes, 7);
    assert_eq!(resp.disk, "no-such-disk");
    assert!(resp.process.is_none());
}

#[test]
fn live_probe_rejects_a_missing_directory() {
    match check_status(&state(), None) {
        Err(SentryError::NotDirectory(p)) => assert_eq!(p, "/data/exp1"),
        _ => panic!("expected NotDirectory"),
    }
}

#[test]
fn ps_probe_fails_when_the_listing_lacks_the_process() {
    let mut st = state();
    st.process_name = Some(String::from("dataRouter"));
    let listing: Vec<FileEntry> = Vec::new();
    let out = "  PID TTY  TIME CMD\n  12 ?? 0:00.01 somethingElse\n";
    match check_status_with_ps(&st, Some(&listing), out) {
        Err(SentryError::NoProcess(n)) => assert_eq!(n, "dataRouter"),
        _ => panic!("expected NoProcess"),
    }
}

#[test]
fn ps_probe_succeeds_without_process_tracking() {
    let listing: Vec<FileEntry> = Vec::new();
    let resp = check_status_with_ps(&state(), Some(&listing), "").expect("untracked probe");
    assert_eq!(resp.data_path_files, 0);
}
