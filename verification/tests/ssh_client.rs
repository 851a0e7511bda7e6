//! What a client asks, and what it makes of the answers.

use std::collections::HashMap;

use ssh_sync::error::{Exchange, Stage, SyncError};
use ssh_sync::record::{HostId, RecordStatus};
use ssh_sync::ssh_client::{Call, ClientPhase, Outcome, Reply, SshClient, Stream};
use ssh_sync::ssh_protocol::{Request, Response};

fn empty_status() -> RecordStatus {
    RecordStatus { hosts: HashMap::new() }
}

fn received(response: Response) -> Reply {
    Reply::Received { response }
}

fn remote_error(message: &str) -> Reply {
    received(Response::Error { message: message.to_string() })
}

fn handshaking() -> SshClient {
    let (client, _) = SshClient::connect("host");
    let (client, request) = client.from_child(true, true);
    let handshake = request.unwrap().unwrap();
    assert!(matches!(handshake.request, Request::Status));
    assert_eq!(handshake.timeout_secs, 30);
    client
}

fn ready_client() -> SshClient {
    let (client, outcome) =
        handshaking().settle(received(Response::Status { status: empty_status() }));
    assert!(matches!(outcome, Some(Ok(Outcome::Connected))));
    assert_eq!(client.phase, ClientPhase::Ready);
    client
}

#[test]
fn ssh_runs_the_server_at_the_destination() {
    let (client, line) = SshClient::connect("user@hostname");
    assert_eq!(client.phase, ClientPhase::Starting);
    assert_eq!(line.program, "ssh");
    assert_eq!(
        line.args,
        vec!["-o", "ConnectTimeout=10", "--", "user@hostname", "atuin", "ssh-sync", "serve"]
    );
}

#[test]
fn custom_command_goes_through_the_shell() {
    let (_, line) = SshClient::connect_exec("docker exec -i mycontainer atuin ssh-sync serve");
    assert_eq!(line.program, "sh");
    assert_eq!(line.stdin, Stream::Piped);
    assert_eq!(line.stdout, Stream::Piped);
    assert_eq!(line.stderr, Stream::Inherited);
    assert_eq!(line.args, vec!["-c", "docker exec -i mycontainer atuin ssh-sync serve"]);
}

#[test]
fn command_without_pipes_is_given_up() {
    let (start, _) = SshClient::connect("host");
    let (client, result) = start.from_child(false, false);
    assert_eq!(client.phase, ClientPhase::Closed);
    let error = result.unwrap().unwrap_err();
    assert_eq!(error.message(""), "failed to open stdin to child process");
    let (_, result) = start.from_child(true, false);
    let error = result.unwrap().unwrap_err();
    assert_eq!(error.message(""), "failed to open stdout from child process");
}

#[test]
fn handshake_may_time_out() {
    let (client, outcome) = handshaking().settle(Reply::TimedOut);
    assert_eq!(client.phase, ClientPhase::Closed);
    let error = outcome.unwrap().unwrap_err();
    assert_eq!(error.message(""), "timed out waiting for remote atuin to respond (30s)");
}

#[test]
fn handshake_with_a_stranger_fails() {
    let (client, outcome) = handshaking().settle(received(Response::PushOk));
    assert_eq!(client.phase, ClientPhase::Closed);
    let error = outcome.unwrap().unwrap_err();
    assert_eq!(error.message("PushOk"), "unexpected response during handshake: PushOk");
}

#[test]
fn handshake_names_what_went_wrong() {
    let (_, outcome) = handshaking().settle(remote_error("no store"));
    match outcome.unwrap().unwrap_err() {
        SyncError::Context { stage: Stage::Handshake, source } => {
            assert_eq!(source.message(""), "remote error: no store");
        }
        other => panic!("expected a context, got {other:?}"),
    }
    let (_, outcome) = handshaking().settle(Reply::Failed { error: SyncError::Truncated });
    let error = outcome.unwrap().unwrap_err();
    assert_eq!(
        error.message(""),
        "remote atuin failed to respond — is atuin installed on the remote?"
    );
}

#[test]
fn each_call_sends_its_request_and_takes_its_answer() {
    let client = ready_client();

    let (client, request) = client.status();
    assert!(matches!(request, Some(Request::Status)));
    let (client, outcome) = client.settle(received(Response::Status { status: empty_status() }));
    assert!(matches!(outcome, Some(Ok(Outcome::Status { .. }))));

    let (client, request) = client.push(vec![]);
    assert!(matches!(request, Some(Request::Push { records }) if records.is_empty()));
    let (client, outcome) = client.settle(received(Response::PushOk));
    assert!(matches!(outcome, Some(Ok(Outcome::Pushed))));

    let (client, request) = client.fetch(HostId(5), "history".to_string(), 42, 100);
    match request {
        Some(Request::Fetch { host, tag, start, count }) => {
            assert_eq!((host, tag.as_str(), start, count), (HostId(5), "history", 42, 100));
        }
        other => panic!("expected Fetch, got {other:?}"),
    }
    let (client, outcome) = client.settle(received(Response::Records { records: vec![] }));
    assert!(matches!(outcome, Some(Ok(Outcome::Records { .. }))));

    let (client, request) = client.build_remote();
    assert!(matches!(request, Some(Request::BuildRemote)));
    let (client, outcome) = client.settle(received(Response::BuildOk));
    assert!(matches!(outcome, Some(Ok(Outcome::Built))));

    let (client, request) = client.close();
    assert!(matches!(request, Some(Request::Goodbye)));
    assert_eq!(client.phase, ClientPhase::Closed);
    assert!(client.status().1.is_none());
}

#[test]
fn wrong_answer_names_the_call() {
    let (waiting, _) = ready_client().status();
    let (client, outcome) = waiting.settle(received(Response::BuildOk));
    let error = outcome.unwrap().unwrap_err();
    assert!(matches!(
        &error,
        SyncError::UnexpectedResponse { during: Exchange::Status, response: Response::BuildOk }
    ));
    assert_eq!(error.message("BuildOk"), "unexpected response to Status: BuildOk");
    assert_eq!(client.phase, ClientPhase::Ready);

    let (waiting, _) = client.push(vec![]);
    let (client, outcome) = waiting.settle(received(Response::BuildOk));
    let error = outcome.unwrap().unwrap_err();
    assert_eq!(error.message("BuildOk"), "unexpected response to Push: BuildOk");

    let (waiting, _) = client.fetch(HostId(1), String::new(), 0, 1);
    let (_, outcome) = waiting.settle(received(Response::BuildOk));
    let error = outcome.unwrap().unwrap_err();
    assert_eq!(error.message("BuildOk"), "unexpected response to Fetch: BuildOk");
}

#[test]
fn any_answer_but_an_error_ends_a_build() {
    let (waiting, _) = ready_client().build_remote();
    let (client, outcome) = waiting.settle(received(Response::PushOk));
    assert!(matches!(outcome, Some(Ok(Outcome::Built))));
    let (waiting, _) = client.build_remote();
    let (_, outcome) = waiting.settle(remote_error("disk full"));
    assert_eq!(outcome.unwrap().unwrap_err().message(""), "remote error: disk full");
}

#[test]
fn failed_call_leaves_the_client_ready() {
    let (waiting, _) = ready_client().status();
    let (client, outcome) = waiting.settle(Reply::Failed {
        error: SyncError::Outside { message: "broken pipe".to_string() },
    });
    assert_eq!(outcome.unwrap().unwrap_err().message(""), "broken pipe");
    assert_eq!(client.phase, ClientPhase::Ready);
}

#[test]
fn client_asks_one_thing_at_a_time() {
    let (waiting, _) = ready_client().status();
    let (same, request) = waiting.push(vec![]);
    assert!(request.is_none());
    assert_eq!(same, waiting);
    assert!(waiting.close().1.is_none());
    assert!(waiting.from_child(true, true).1.is_none());
    assert!(waiting.settle(Reply::TimedOut).1.is_none());
    assert_eq!(waiting.phase, ClientPhase::Waiting(Call::Status));
    assert!(ready_client().settle(received(Response::PushOk)).1.is_none());
}

#[test]
fn abandoned_call_can_be_settled_as_failed() {
    let (waiting, _) = ready_client().fetch(HostId(1), String::new(), 0, 1);
    let abandoned = Reply::Failed { error: SyncError::Outside { message: "gone".to_string() } };
    let (client, _) = waiting.settle(abandoned);
    assert!(matches!(client.close().1, Some(Request::Goodbye)));
}
