//! How a server answers.

use std::collections::HashMap;

use ssh_sync::record::{Build, EncryptedData, Host, HostId, Record, RecordId, RecordStatus};
use ssh_sync::ssh_protocol::{Request, Response};
use ssh_sync::ssh_server::{serve, ServeAction, ServeEvent, ServePhase, Server};

fn record(id: u128) -> Record {
    Record {
        id: RecordId(id),
        idx: id as u64,
        host: Host { id: HostId(1), name: "machine".to_string() },
        timestamp: 0,
        version: "v1".to_string(),
        tag: "history".to_string(),
        data: EncryptedData {
            data: "sealed".to_string(),
            content_encryption_key: "key".to_string(),
        },
    }
}

const KEY: [u8; 32] = [7; 32];

fn new_server() -> Server {
    Server::new(KEY, Build { downloaded: None })
}

fn told(server: Server, event: ServeEvent) -> (Server, ServeAction) {
    let (server, action) = serve(server, event);
    (server, action.expect("an event that the server waits for"))
}

fn asked(server: Server, request: Request) -> (Server, ServeAction) {
    told(server, ServeEvent::Received { request })
}

fn answer(action: ServeAction) -> Response {
    match action {
        ServeAction::Write { response } => response,
        other => panic!("expected a response, got {other:?}"),
    }
}

#[test]
fn status_is_read_and_answered() {
    let (server, action) = asked(new_server(), Request::Status);
    assert!(matches!(action, ServeAction::ReadStatus));
    let mut hosts = HashMap::new();
    hosts.insert(HostId(3), HashMap::new());
    let (server, action) =
        told(server, ServeEvent::StatusRead { status: Ok(RecordStatus { hosts }) });
    match answer(action) {
        Response::Status { status } => assert!(status.hosts.contains_key(&HostId(3))),
        other => panic!("expected Status, got {other:?}"),
    }
    let (server, action) = told(server, ServeEvent::Written);
    assert!(matches!(action, ServeAction::Read));
    assert!(matches!(server.phase, ServePhase::Reading));
}

#[test]
fn pushed_records_of_another_key_are_dropped() {
    let pushed = vec![record(1), record(2), record(3), record(4)];
    let (server, action) = asked(new_server(), Request::Push { records: pushed });
    assert!(matches!(action, ServeAction::MatchKeys { key } if key == KEY));
    assert_eq!(server.records_to_match().unwrap().len(), 4);
    let matches = vec![true, false, false, true];
    let (server, action) = told(server, ServeEvent::KeysMatched { matches });
    match action {
        ServeAction::Push { records } => assert_eq!(records, vec![record(1), record(4)]),
        other => panic!("expected Push, got {other:?}"),
    }
    assert!(server.records_to_match().is_none());
    let (_, action) = told(server, ServeEvent::Pushed { outcome: Ok(()) });
    assert!(matches!(answer(action), Response::PushOk));
}

#[test]
fn push_of_foreign_records_alone_is_answered_all_the_same() {
    let (server, _) = asked(new_server(), Request::Push { records: vec![record(1)] });
    let (server, action) = told(server, ServeEvent::KeysMatched { matches: vec![false] });
    match action {
        ServeAction::Push { records } => assert!(records.is_empty()),
        other => panic!("expected Push, got {other:?}"),
    }
    let (_, action) = told(server, ServeEvent::Pushed { outcome: Ok(()) });
    assert!(matches!(answer(action), Response::PushOk));
}

#[test]
fn marks_for_other_records_are_refused() {
    let (server, _) = asked(new_server(), Request::Push { records: vec![record(1)] });
    let (server, action) = serve(server, ServeEvent::KeysMatched { matches: vec![true, true] });
    assert!(action.is_none());
    assert_eq!(server.records_to_match().unwrap(), &vec![record(1)]);
}

#[test]
fn records_are_fetched_and_answered() {
    let request = Request::Fetch {
        host: HostId(9),
        tag: "history".to_string(),
        start: 42,
        count: 100,
    };
    let (server, action) = asked(new_server(), request);
    match action {
        ServeAction::Fetch { host, tag, start, count } => {
            assert_eq!((host, tag.as_str(), start, count), (HostId(9), "history", 42, 100));
        }
        other => panic!("expected Fetch, got {other:?}"),
    }
    let (_, action) = told(server, ServeEvent::Fetched { records: Ok(vec![record(42)]) });
    match answer(action) {
        Response::Records { records } => assert_eq!(records, vec![record(42)]),
        other => panic!("expected Records, got {other:?}"),
    }
}

#[test]
fn failures_are_answered_in_their_own_words() {
    let failure = || "disk full".to_string();
    let runs = vec![
        (Request::Status, ServeEvent::StatusRead { status: Err(failure()) }),
        (
            Request::Fetch { host: HostId(1), tag: String::new(), start: 0, count: 1 },
            ServeEvent::Fetched { records: Err(failure()) },
        ),
        (Request::BuildRemote, ServeEvent::Built { outcome: Err(failure()) }),
    ];
    let mut server = new_server();
    for (request, event) in runs {
        let (working, _) = asked(server, request);
        let (writing, action) = told(working, event);
        match answer(action) {
            Response::Error { message } => assert_eq!(message, "disk full"),
            other => panic!("expected Error, got {other:?}"),
        }
        let (reading, action) = told(writing, ServeEvent::Written);
        assert!(matches!(action, ServeAction::Read));
        server = reading;
    }
    let (server, _) = asked(server, Request::Push { records: vec![] });
    let (server, _) = told(server, ServeEvent::KeysMatched { matches: vec![] });
    let (_, action) = told(server, ServeEvent::Pushed { outcome: Err(failure()) });
    assert!(matches!(answer(action), Response::Error { message } if message == "disk full"));
}

#[test]
fn build_runs_once_even_where_it_fails() {
    let (server, action) = asked(new_server(), Request::BuildRemote);
    assert!(matches!(action, ServeAction::Build { build: Build { downloaded: None } }));
    let outcome = Err("no build".to_string());
    let (server, action) = told(server, ServeEvent::Built { outcome });
    assert!(matches!(answer(action), Response::Error { .. }));
    let (server, _) = told(server, ServeEvent::Written);
    let (_, action) = asked(server, Request::BuildRemote);
    assert!(matches!(answer(action), Response::BuildOk));
}

#[test]
fn build_is_answered() {
    let (server, _) = asked(new_server(), Request::BuildRemote);
    let (_, action) = told(server, ServeEvent::Built { outcome: Ok(()) });
    assert!(matches!(answer(action), Response::BuildOk));
}

#[test]
fn goodbye_ends_the_session_unanswered() {
    let (server, action) = asked(new_server(), Request::Goodbye);
    assert!(matches!(action, ServeAction::Stop));
    assert!(matches!(server.phase, ServePhase::Stopped));
    let (_, action) = serve(server, ServeEvent::Received { request: Request::Status });
    assert!(action.is_none());
}

#[test]
fn broken_stream_ends_the_session() {
    let (server, action) = told(new_server(), ServeEvent::ReadFailed);
    assert!(matches!(action, ServeAction::Stop));
    assert!(matches!(server.phase, ServePhase::Stopped));

    let (server, _) = asked(new_server(), Request::Status);
    let (server, _) = told(server, ServeEvent::StatusRead { status: Err(String::new()) });
    let (_, action) = told(server, ServeEvent::WriteFailed);
    assert!(matches!(action, ServeAction::Stop));
}

#[test]
fn build_is_the_one_that_was_given() {
    let given = Build { downloaded: Some(vec![RecordId(4)]) };
    let (_, action) = asked(Server::new(KEY, given.clone()), Request::BuildRemote);
    assert!(matches!(action, ServeAction::Build { build } if build == given));
}
