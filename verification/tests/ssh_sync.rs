//! The sessions that the command line starts.

use ssh_sync::error::{Stage, SyncError};
use ssh_sync::record::{Build, HostId, RecordId};
use ssh_sync::ssh_protocol::Request;
use ssh_sync::ssh_server::{serve, ServeAction, ServeEvent, ServePhase};
use ssh_sync::ssh_sync::{
    Action, Cmd, Event, RecordCheck, ServeRun, Session, Step, SyncRun, HISTORY_TAG,
};

const KEY: [u8; 32] = [9; 32];
const HOST: HostId = HostId(77);

fn told(session: Session, event: Event) -> (Session, Step) {
    let (session, step) = session.step(event);
    (session, step.expect("an event that the session waits for"))
}

fn started(destination: Option<&str>, command: Option<&str>) -> Session {
    let (session, step) = Cmd::Run {
        destination: destination.map(str::to_string),
        command: command.map(str::to_string),
    }
    .run();
    assert!(matches!(step.action, Action::LoadKey));
    assert!(step.lines.is_empty());
    session
}

fn syncing() -> Session {
    let session = started(Some("user@hostname"), None);
    let (session, _) = told(session, Event::KeyLoaded { key: KEY });
    let (session, step) = told(session, Event::Connected);
    assert!(matches!(step.action, Action::Sync));
    session
}

fn synced(uploaded: i64, downloaded: Vec<u128>) -> Event {
    Event::Synced { uploaded, downloaded: downloaded.into_iter().map(RecordId).collect() }
}

fn checked(session: Session, id: u128, check: RecordCheck, step: Step) -> (Session, Step) {
    assert!(matches!(step.action, Action::CheckRecord { id: at, key: KEY } if at == RecordId(id)));
    told(session, Event::Checked { check })
}

fn outside(message: &str) -> SyncError {
    SyncError::Outside { message: message.to_string() }
}

/// A session that has counted the history, with what it was told to do so far done.
fn counting(history: i64) -> Session {
    let (session, step) = told(syncing(), synced(0, vec![]));
    assert!(matches!(step.action, Action::BuildRemote));
    let (session, step) = told(session, Event::RemoteBuilt);
    assert!(matches!(step.action, Action::BuildLocal { .. }));
    let (session, step) = told(session, Event::LocalBuilt);
    assert!(matches!(step.action, Action::LoadHostId));
    let (session, step) = told(session, Event::HostIdLoaded { host: HOST });
    assert!(matches!(step.action, Action::CountHistory { include_deleted: true }));
    let (session, step) = told(session, Event::HistoryCounted { entries: history });
    assert!(matches!(step.action, Action::CountStore { tag: "history" }));
    session
}

fn failed(session: Session) -> SyncError {
    let (session, step) = told(session, Event::Failed { error: outside("cause") });
    assert!(step.lines.is_empty());
    assert!(session.step(Event::KeyLoaded { key: KEY }).1.is_none());
    match step.action {
        Action::Fail { error } => error,
        other => panic!("expected Fail, got {other:?}"),
    }
}

#[test]
fn destination_is_connected_over_ssh() {
    let (_, step) = told(started(Some("user@hostname"), None), Event::KeyLoaded { key: KEY });
    assert_eq!(step.lines, vec!["Connecting to user@hostname over SSH..."]);
    assert!(matches!(step.action, Action::Connect { destination } if destination == "user@hostname"));
}

#[test]
fn command_is_run() {
    let (_, step) = told(started(None, Some("nc host 22")), Event::KeyLoaded { key: KEY });
    assert_eq!(step.lines, vec!["Running: nc host 22"]);
    assert!(matches!(step.action, Action::ConnectExec { command } if command == "nc host 22"));
}

#[test]
fn exactly_one_way_to_the_remote_is_needed() {
    for session in [started(None, None), started(Some("a"), Some("b"))] {
        let (session, step) = told(session, Event::KeyLoaded { key: KEY });
        assert!(step.lines.is_empty());
        match step.action {
            Action::Fail { error } => {
                assert_eq!(error.message(""), "provide either a destination or --exec");
            }
            other => panic!("expected Fail, got {other:?}"),
        }
        assert!(matches!(session, Session::Sync(SyncRun::Finished)));
    }
}

#[test]
fn foreign_records_are_deleted_and_not_built() {
    let (session, step) = told(syncing(), synced(3, vec![10, 11, 12, 13, 14]));
    let (session, step) = checked(session, 10, RecordCheck::Matching, step);
    let (session, step) = checked(session, 11, RecordCheck::Foreign, step);
    assert!(matches!(step.action, Action::DeleteRecord { id: RecordId(11) }));
    let (session, step) = told(session, Event::Deleted);
    let (session, step) = checked(session, 12, RecordCheck::Unreadable, step);
    let (session, step) = checked(session, 13, RecordCheck::Matching, step);
    let (session, step) = checked(session, 14, RecordCheck::Foreign, step);
    assert!(matches!(step.action, Action::DeleteRecord { id: RecordId(14) }));
    let (session, step) = told(session, Event::Deleted);
    assert!(matches!(step.action, Action::BuildRemote));
    assert_eq!(
        step.lines,
        vec![
            "Warning: skipped 2 records from remote encrypted with a different key.",
            "Both machines must share the same encryption key to sync. \
             Run `atuin key` on one machine, then `atuin store rekey '<key>'` on the other.",
            "3/2 up/down to record store",
        ]
    );
    let (_, step) = told(session, Event::RemoteBuilt);
    match step.action {
        Action::BuildLocal { build: Build { downloaded: Some(records) } } => assert_eq!(records, vec![RecordId(10), RecordId(13)]),
        other => panic!("expected BuildLocal, got {other:?}"),
    }
}

#[test]
fn nothing_downloaded_is_nothing_to_check() {
    let (_, step) = told(syncing(), synced(-12, vec![]));
    assert!(matches!(step.action, Action::BuildRemote));
    assert_eq!(step.lines, vec!["-12/0 up/down to record store"]);
}

#[test]
fn store_that_holds_the_history_is_left_alone() {
    let (session, step) = told(counting(5), Event::StoreCounted { records: 5 });
    assert!(step.lines.is_empty());
    assert!(matches!(step.action, Action::Close));
    let (session, step) = told(session, Event::Closed);
    assert!(matches!(step.action, Action::CountHistory { include_deleted: true }));
    let (session, step) = told(session, Event::HistoryCounted { entries: 1234567 });
    assert_eq!(step.lines, vec!["Sync complete! 1234567 items in history database"]);
    assert!(matches!(step.action, Action::Finish));
    assert!(matches!(session, Session::Sync(SyncRun::Finished)));
}

#[test]
fn store_that_lags_is_filled_and_synced_again() {
    let (session, step) = told(counting(20), Event::StoreCounted { records: 7 });
    assert_eq!(
        step.lines,
        vec![
            "20 in history index, but 7 in history store",
            "Running automatic history store init...",
        ]
    );
    assert!(matches!(step.action, Action::InitStore { host: HOST, key: KEY }));
    let (session, step) = told(session, Event::StoreInitialized);
    assert_eq!(step.lines, vec!["Re-running sync due to new records locally"]);
    assert!(matches!(step.action, Action::Sync));
    let (session, step) = told(session, synced(13, vec![1, 2]));
    match step.action {
        Action::BuildLocal { build: Build { downloaded: Some(records) } } => assert_eq!(records, vec![RecordId(1), RecordId(2)]),
        other => panic!("expected BuildLocal, got {other:?}"),
    }
    let (_, step) = told(session, Event::LocalBuilt);
    assert_eq!(step.lines, vec!["13/2 up/down to record store"]);
    assert!(matches!(step.action, Action::Close));
}

#[test]
fn history_count_below_zero_is_read_without_its_sign() {
    let (_, step) = told(counting(-1), Event::StoreCounted { records: u64::MAX - 1 });
    assert_eq!(
        step.lines[0],
        "-1 in history index, but 18446744073709551614 in history store"
    );
    let (_, step) = told(counting(-1), Event::StoreCounted { records: u64::MAX });
    assert!(matches!(step.action, Action::Close));
    let (_, step) = told(counting(i64::MIN), Event::StoreCounted { records: 0 });
    assert_eq!(
        step.lines[0],
        "-9223372036854775808 in history index, but 0 in history store"
    );
}

#[test]
fn failures_say_what_was_being_done() {
    let loading = started(Some("host"), None);
    assert_eq!(failed(loading).message(""), "could not load encryption key");
    let (connecting, _) = told(started(Some("host"), None), Event::KeyLoaded { key: KEY });
    assert_eq!(failed(connecting).message(""), "failed to connect over SSH");
    let (running, _) = told(started(None, Some("cmd")), Event::KeyLoaded { key: KEY });
    assert_eq!(failed(running).message(""), "failed to start sync command");
    assert_eq!(failed(syncing()).message(""), "cause");
    let (building, _) = told(syncing(), synced(0, vec![]));
    match failed(building) {
        SyncError::Context { stage: Stage::BuildRemote, source } => {
            assert_eq!(source.message(""), "cause");
        }
        other => panic!("expected a context, got {other:?}"),
    }
    let (closing, _) = told(counting(0), Event::StoreCounted { records: 0 });
    assert_eq!(failed(closing).message(""), "failed to close session");
    let (closing, _) = told(counting(0), Event::StoreCounted { records: 0 });
    let (items, _) = told(closing, Event::Closed);
    assert_eq!(failed(items).message(""), "cause");
    let error = SyncError::Context {
        stage: Stage::BuildRemote,
        source: Box::new(outside("cause")),
    };
    assert_eq!(error.message(""), "failed to build on remote");
}

#[test]
fn look_into_a_record_does_not_fail() {
    let (session, _) = told(syncing(), synced(0, vec![1]));
    let (session, step) = session.step(Event::Failed { error: outside("cause") });
    assert!(step.is_none());
    let (session, _) = told(session, Event::Checked { check: RecordCheck::Foreign });
    let (session, step) = session.step(Event::Failed { error: outside("cause") });
    assert!(step.is_none());
    assert!(matches!(session, Session::Sync(SyncRun::Deleting { .. })));
}

#[test]
fn service_stores_the_history_first() {
    let (session, step) = Cmd::Serve.run();
    assert!(matches!(step.action, Action::LoadKey));
    let (session, step) = told(session, Event::KeyLoaded { key: KEY });
    assert!(matches!(step.action, Action::LoadHostId));
    let (session, step) = told(session, Event::HostIdLoaded { host: HOST });
    assert!(matches!(step.action, Action::CountHistory { include_deleted: true }));
    let (session, step) = told(session, Event::HistoryCounted { entries: 2 });
    assert!(matches!(step.action, Action::CountStore { tag: "history" }));
    let (session, step) = told(session, Event::StoreCounted { records: 1 });
    assert!(step.lines.is_empty());
    assert!(matches!(step.action, Action::InitStore { host: HOST, key: KEY }));
    let (session, step) = told(session, Event::StoreInitialized);
    let server = match step.action {
        Action::Serve { server } => server,
        other => panic!("expected Serve, got {other:?}"),
    };
    assert!(matches!(server.phase, ServePhase::Reading));
    assert_eq!(server.key, KEY);
    let request = Request::BuildRemote;
    let (_, action) = serve(server, ServeEvent::Received { request });
    assert!(matches!(action, Some(ServeAction::Build { build: Build { downloaded: None } })));
    let (session, step) = told(session, Event::Served);
    assert!(matches!(step.action, Action::Finish));
    assert!(session.step(Event::Served).1.is_none());
}

#[test]
fn service_with_the_history_stored_begins_at_once() {
    let run = ServeRun::CountingStore { key: KEY, host: HOST, history: 2 };
    let (run, step) = run.step(Event::StoreCounted { records: 2 });
    assert_eq!(run, ServeRun::Serving);
    assert!(matches!(step.unwrap().action, Action::Serve { server } if server.key == KEY));
}

#[test]
fn service_fails_as_it_is_told() {
    let (_, step) = ServeRun::LoadingKey.step(Event::Failed { error: outside("cause") });
    match step.unwrap().action {
        Action::Fail { error } => assert_eq!(error.message(""), "could not load encryption key"),
        other => panic!("expected Fail, got {other:?}"),
    }
    let (run, step) = ServeRun::Serving.step(Event::Failed { error: outside("cause") });
    assert_eq!(run, ServeRun::Finished);
    match step.unwrap().action {
        Action::Fail { error } => assert_eq!(error.message(""), "cause"),
        other => panic!("expected Fail, got {other:?}"),
    }
}

#[test]
fn history_has_its_tag() {
    assert_eq!(HISTORY_TAG, "history");
}
