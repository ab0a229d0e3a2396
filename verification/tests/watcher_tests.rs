use daq_sentry::{apply_sample, record_sample, watcher_step, StatusStore};
use daq_sentry::{ControlMessage, SentryError, SentryResponse, SentryState, WatcherAction,
    WatcherEvent, WatcherState};

fn target(tag: &str) -> SentryState {
    SentryState {
        data_path: format!("/data/{tag}"),
        process_name: None,
        disk_name: format!("disk-{tag}"),
        config_path: format!("/cfg/{tag}"),
        config_bck_path: format!("/bck/{tag}"),
    }
}

fn sample(tag: &str, files: i32, written: u64) -> SentryResponse {
    SentryResponse {
        disk: format!("disk-{tag}"),
        process: None,
        data_path: format!("/data/{tag}"),
        data_path_files: files,
        data_written_bytes: written,
        disk_avail_bytes: 500_000_000_000,
        disk_total_bytes: 1_000_000_000_000,
    }
}

#[test]
fn reconfigure_then_cancel_never_samples_the_new_target() {
    let a = target("a");
    let b = target("b");

    let (s1, act1) = watcher_step(
        WatcherState::Running(a),
        WatcherEvent::Message(ControlMessage::Reconfigure(b)),
    );
    assert!(matches!(act1, WatcherAction::Continue));
    match &s1 {
        WatcherState::Running(t) => assert_eq!(t.data_path, "/data/b"),
        WatcherState::Terminated => panic!("watcher terminated early"),
    }

    let (s2, act2) = watcher_step(s1, WatcherEvent::Message(ControlMessage::Cancel));
    assert!(matches!(act2, WatcherAction::Stop));
    assert!(matches!(s2, WatcherState::Terminated));
}

#[test]
fn tick_samples_the_current_target() {
    let (s, act) = watcher_step(WatcherState::Running(target("a")), WatcherEvent::Tick);
    match act {
        WatcherAction::Sample(t) => assert_eq!(t.data_path, "/data/a"),
        _ => panic!("expected a sample"),
    }
    assert!(matches!(s, WatcherState::Running(_)));
}

#[test]
fn reconfigure_applies_on_the_next_tick() {
    let (s1, _) = watcher_step(
        WatcherState::Running(target("a")),
        WatcherEvent::Message(ControlMessage::Reconfigure(target("b"))),
    );
    let (_, act) = watcher_step(s1, WatcherEvent::Tick);
    match act {
        WatcherAction::Sample(t) => assert_eq!(t.data_path, "/data/b"),
        _ => panic!("expected a sample"),
    }
}

#[test]
fn closed_inbox_is_fatal_and_distinct_from_cancel() {
    let (s, act) = watcher_step(WatcherState::Running(target("a")), WatcherEvent::InboxClosed);
    assert!(matches!(s, WatcherState::Terminated));
    match act {
        WatcherAction::Fail(SentryError::ChannelClosed) => {},
        _ => panic!("expected a channel-closed failure"),
    }
}

#[test]
fn store_initializes_once_with_zeroed_values() {
    let mut store = StatusStore::new();
    assert!(store.latest().is_none());
    store.initialize();
    let row = store.latest().expect("row after initialization");
    assert_eq!(row.id, 1);
    assert_eq!(row.disk, "");
    assert_eq!(row.path, "");
    assert_eq!(row.dir_bytes, 0);
    assert_eq!(row.n_files, 0);

    store.initialize();
    let again = store.latest().expect("row still there");
    assert_eq!(again.id, 1);
    assert_eq!(again.disk, "");
}

#[test]
fn successful_sample_replaces_the_single_row() {
    let mut store = StatusStore::new();
    store.initialize();

    let err = apply_sample(&mut store, Ok(sample("a", 3, 42)));
    assert!(err.is_none());
    let row = store.latest().expect("row after sample");
    assert_eq!(row.id, 1);
    assert_eq!(row.disk, "disk-a");
    assert_eq!(row.path, "/data/a");
    assert_eq!(row.n_files, 3);
    assert_eq!(row.dir_bytes, 42);
    assert_eq!(row.bytes_avail, 500_000_000_000);
    assert_eq!(row.total_bytes, 1_000_000_000_000);

    let err = apply_sample(&mut store, Ok(sample("b", 0, 0)));
    assert!(err.is_none());
    let row = store.latest().expect("row after second sample");
    assert_eq!(row.id, 1);
    assert_eq!(row.path, "/data/b");
}

#[test]
fn failed_sample_terminates_the_loop() {
    let mut store = StatusStore::new();
    store.initialize();

    let (state, failure) =
        record_sample(WatcherState::Running(target("a")), &mut store, Ok(sample("a", 1, 2)));
    assert!(matches!(state, WatcherState::Running(_)));
    assert!(failure.is_none());

    let (state, failure) = record_sample(
        state,
        &mut store,
        Err(SentryError::NoProcess(String::from("dataRouter"))),
    );
    assert!(matches!(state, WatcherState::Terminated));
    assert!(matches!(failure, Some(SentryError::NoProcess(_))));
    let row = store.latest().expect("prior row retained");
    assert_eq!(row.path, "/data/a");
}

#[test]
fn failed_sample_retains_the_prior_row_and_surfaces_the_error() {
    let mut store = StatusStore::new();
    let err = apply_sample(&mut store, Ok(sample("a", 3, 42)));
    assert!(err.is_none());

    let err = apply_sample(
        &mut store,
        Err(SentryError::NotDirectory(String::from("/data/a"))),
    );
    match err {
        Some(SentryError::NotDirectory(p)) => assert_eq!(p, "/data/a"),
        _ => panic!("expected the sampling error back"),
    }
    let row = store.latest().expect("prior row retained");
    assert_eq!(row.path, "/data/a");
    assert_eq!(row.n_files, 3);
}
