//! The server: what it does for each request, and what it answers.

use vstd::prelude::*;

use crate::record::{
    keep_marked, marked, Build, EncryptionKey, HostId, Record, RecordIdx, RecordStatus,
};
use crate::ssh_protocol::{Request, Response};

verus! {

/// What a server waits for.
#[derive(Debug)]
pub enum ServePhase {
    /// The next request.
    Reading,
    /// How far the store reaches.
    Status,
    /// Which of the records that a client pushes are sealed with the server's key.
    Matching { records: Vec<Record> },
    /// The store, which takes records in.
    Pushing,
    /// The store, which looks records up.
    Fetching,
    /// The build.
    Building,
    /// The response to go out.
    Writing,
    /// Nothing: the session is over.
    Stopped,
}

/// A server of one session.
#[derive(Debug)]
pub struct Server {
    pub phase: ServePhase,
    /// The key against which pushed records are held.
    pub key: EncryptionKey,
    /// The build of this session, while it is still to be run.
    pub on_build: Option<Build>,
}

/// What a server is told.
#[derive(Debug)]
pub enum ServeEvent {
    /// A request came.
    Received { request: Request },
    /// No request could be read: the client is gone, or sends no messages.
    ReadFailed,
    /// The store told how far it reaches, or why it cannot.
    StatusRead { status: Result<RecordStatus, String> },
    /// Each record in question was held against the key.
    KeysMatched { matches: Vec<bool> },
    /// The store took the records in, or told why it cannot.
    Pushed { outcome: Result<(), String> },
    /// The store looked the records up, or told why it cannot.
    Fetched { records: Result<Vec<Record>, String> },
    /// The build ran, or told why it cannot.
    Built { outcome: Result<(), String> },
    /// The response went out.
    Written,
    /// The response could not be sent.
    WriteFailed,
}

/// What is to be done for a server, whose outcome it then is to be told.
#[derive(Debug)]
pub enum ServeAction {
    /// Read a request.
    Read,
    /// Ask the store how far it reaches.
    ReadStatus,
    /// Hold each record that the server has in question against a key.
    MatchKeys { key: EncryptionKey },
    /// Have the store take records in.
    Push { records: Vec<Record> },
    /// Have the store look up to `count` records of a host and tag up, from an
    /// index on.
    Fetch { host: HostId, tag: String, start: RecordIdx, count: u64 },
    /// Run a build.
    Build { build: Build },
    /// Send a response.
    Write { response: Response },
    /// End the session.
    Stop,
}

/// The answer to a request for the status.
pub open spec fn status_answer(result: Result<RecordStatus, String>) -> Response {
    match result {
        Ok(status) => Response::Status { status },
        Err(message) => Response::Error { message },
    }
}

/// The answer to a push.
pub open spec fn push_answer(result: Result<(), String>) -> Response {
    match result {
        Ok(()) => Response::PushOk,
        Err(message) => Response::Error { message },
    }
}

/// The answer to a request for records.
pub open spec fn fetch_answer(result: Result<Vec<Record>, String>) -> Response {
    match result {
        Ok(records) => Response::Records { records },
        Err(message) => Response::Error { message },
    }
}

/// The answer to a request to build, where the build was run for it.
pub open spec fn build_answer(result: Result<(), String>) -> Response {
    match result {
        Ok(()) => Response::BuildOk,
        Err(message) => Response::Error { message },
    }
}

impl Server {
    /// Whether an event is one that the server waits for.
    pub open spec fn awaits(self, event: ServeEvent) -> bool {
        match (self.phase, event) {
            (ServePhase::Reading, ServeEvent::Received { .. }) => true,
            (ServePhase::Reading, ServeEvent::ReadFailed) => true,
            (ServePhase::Status, ServeEvent::StatusRead { .. }) => true,
            (ServePhase::Matching { records }, ServeEvent::KeysMatched { matches }) => matches@.len()
                == records@.len(),
            (ServePhase::Pushing, ServeEvent::Pushed { .. }) => true,
            (ServePhase::Fetching, ServeEvent::Fetched { .. }) => true,
            (ServePhase::Building, ServeEvent::Built { .. }) => true,
            (ServePhase::Writing, ServeEvent::Written) => true,
            (ServePhase::Writing, ServeEvent::WriteFailed) => true,
            _ => false,
        }
    }
}

/// How a server goes on, and what it has done, when a request comes.
pub open spec fn takes_up(before: Server, request: Request, after: Server, action: ServeAction) -> bool {
    match request {
        Request::Status => {
            &&& after == Server { phase: ServePhase::Status, ..before }
            &&& action == ServeAction::ReadStatus
        },
        Request::Push { records } => {
            &&& after == Server { phase: ServePhase::Matching { records }, ..before }
            &&& action == ServeAction::MatchKeys { key: before.key }
        },
        Request::Fetch { host, tag, start, count } => {
            &&& after == Server { phase: ServePhase::Fetching, ..before }
            &&& action == ServeAction::Fetch { host, tag, start, count }
        },
        Request::BuildRemote => match before.on_build {
            Some(build) => {
                &&& after == Server { phase: ServePhase::Building, on_build: None, ..before }
                &&& action == ServeAction::Build { build }
            },
            None => {
                &&& after == Server { phase: ServePhase::Writing, ..before }
                &&& action == ServeAction::Write { response: Response::BuildOk }
            },
        },
        Request::Goodbye => {
            &&& after == Server { phase: ServePhase::Stopped, ..before }
            &&& action == ServeAction::Stop
        },
    }
}

/// How a server goes on once it has the answer to a request.
pub open spec fn answers(before: Server, response: Response, after: Server, action: ServeAction) -> bool {
    &&& after == Server { phase: ServePhase::Writing, ..before }
    &&& action == ServeAction::Write { response }
}

/// How a server goes on, and what it has done, upon an event that it waits for.
pub open spec fn serves(before: Server, event: ServeEvent, after: Server, action: ServeAction) -> bool {
    &&& before.awaits(event)
    &&& match event {
        ServeEvent::Received { request } => takes_up(before, request, after, action),
        ServeEvent::ReadFailed | ServeEvent::WriteFailed => {
            &&& after == Server { phase: ServePhase::Stopped, ..before }
            &&& action == ServeAction::Stop
        },
        ServeEvent::StatusRead { status: result } => answers(before, status_answer(result), after, action),
        ServeEvent::KeysMatched { matches } => {
            &&& after == Server { phase: ServePhase::Pushing, ..before }
            &&& action matches ServeAction::Push { records } && records@ == marked(
                before.phase->records@,
                matches@,
            )
        },
        ServeEvent::Pushed { outcome: result } => answers(before, push_answer(result), after, action),
        ServeEvent::Fetched { records: result } => answers(before, fetch_answer(result), after, action),
        ServeEvent::Built { outcome: result } => answers(before, build_answer(result), after, action),
        ServeEvent::Written => {
            &&& after == Server { phase: ServePhase::Reading, ..before }
            &&& action == ServeAction::Read
        },
    }
}

impl Server {
    /// A server at the start of a session, which is to read a request. It holds
    /// pushed records against a key, and has a build to run.
    pub fn new(key: EncryptionKey, build: Build) -> (server: Server)
        ensures
            server == (Server { phase: ServePhase::Reading, key, on_build: Some(build) }),
    {
        Server { phase: ServePhase::Reading, key, on_build: Some(build) }
    }

    /// The records that are to be held against the key, while the server waits
    /// for that.
    pub fn records_to_match(&self) -> (records: Option<&Vec<Record>>)
        ensures
            self.phase matches ServePhase::Matching { records: pushed } ==> records == Some(
                &pushed,
            ),
            !(self.phase is Matching) ==> records is None,
    {
        match &self.phase {
            ServePhase::Matching { records } => Some(records),
            _ => None,
        }
    }
}

/// Goes on with the answer to a request.
fn answering(key: EncryptionKey, on_build: Option<Build>, response: Response) -> (r: (
    Server,
    Option<ServeAction>,
))
    ensures
        r.0 == (Server { phase: ServePhase::Writing, key, on_build }),
        r.1 == Some(ServeAction::Write { response }),
{
    (Server { phase: ServePhase::Writing, key, on_build }, Some(ServeAction::Write { response }))
}

/// Ends the session.
fn stopping(key: EncryptionKey, on_build: Option<Build>) -> (r: (Server, Option<ServeAction>))
    ensures
        r.0 == (Server { phase: ServePhase::Stopped, key, on_build }),
        r.1 == Some(ServeAction::Stop),
{
    (Server { phase: ServePhase::Stopped, key, on_build }, Some(ServeAction::Stop))
}

/// Goes on upon a request.
fn taking_up(key: EncryptionKey, on_build: Option<Build>, request: Request) -> (r: (
    Server,
    Option<ServeAction>,
))
    ensures
        r.1 is Some,
        takes_up(
            Server { phase: ServePhase::Reading, key, on_build },
            request,
            r.0,
            r.1->Some_0,
        ),
{
    match request {
        Request::Status => (
            Server { phase: ServePhase::Status, key, on_build },
            Some(ServeAction::ReadStatus),
        ),
        Request::Push { records } => (
            Server { phase: ServePhase::Matching { records }, key, on_build },
            Some(ServeAction::MatchKeys { key }),
        ),
        Request::Fetch { host, tag, start, count } => (
            Server { phase: ServePhase::Fetching, key, on_build },
            Some(ServeAction::Fetch { host, tag, start, count }),
        ),
        Request::BuildRemote => match on_build {
            Some(build) => (
                Server { phase: ServePhase::Building, key, on_build: None },
                Some(ServeAction::Build { build }),
            ),
            None => answering(key, None, Response::BuildOk),
        },
        Request::Goodbye => stopping(key, on_build),
    }
}

/// Serves a session, one event at a time: what is to be done next. `None`, and the
/// server as it was, where the event is none that it waits for.
///
/// A failure of the store or of the build is answered and does not end the
/// session. A message that cannot be read or sent does, as does a goodbye, which is
/// not answered. Of the records that a client pushes only those go to the store
/// that are sealed with the server's key. The build runs for the first request to
/// build, and later ones are answered as if it had run for them.
pub fn serve(server: Server, event: ServeEvent) -> (r: (Server, Option<ServeAction>))
    ensures
        !server.awaits(event) ==> r == (server, None::<ServeAction>),
        server.awaits(event) ==> r.1 is Some && serves(server, event, r.0, r.1->Some_0),
{
    let key: EncryptionKey = server.key;
    let on_build: Option<Build> = server.on_build;
    match (server.phase, event) {
        (ServePhase::Reading, ServeEvent::Received { request }) => taking_up(key, on_build, request),
        (ServePhase::Reading, ServeEvent::ReadFailed) => stopping(key, on_build),
        (ServePhase::Status, ServeEvent::StatusRead { status: result }) => answering(
            key,
            on_build,
            match result {
                Ok(status) => Response::Status { status },
                Err(message) => Response::Error { message },
            },
        ),
        (ServePhase::Matching { records }, ServeEvent::KeysMatched { matches }) => if matches.len()
            == records.len() {
            let ours: Vec<Record> = keep_marked(records, &matches);
            (
                Server { phase: ServePhase::Pushing, key, on_build },
                Some(ServeAction::Push { records: ours }),
            )
        } else {
            (Server { phase: ServePhase::Matching { records }, key, on_build }, None)
        },
        (ServePhase::Pushing, ServeEvent::Pushed { outcome: result }) => answering(
            key,
            on_build,
            match result {
                Ok(()) => Response::PushOk,
                Err(message) => Response::Error { message },
            },
        ),
        (ServePhase::Fetching, ServeEvent::Fetched { records: result }) => answering(
            key,
            on_build,
            match result {
                Ok(records) => Response::Records { records },
                Err(message) => Response::Error { message },
            },
        ),
        (ServePhase::Building, ServeEvent::Built { outcome: result }) => answering(
            key,
            on_build,
            match result {
                Ok(()) => Response::BuildOk,
                Err(message) => Response::Error { message },
            },
        ),
        (ServePhase::Writing, ServeEvent::Written) => (
            Server { phase: ServePhase::Reading, key, on_build },
            Some(ServeAction::Read),
        ),
        (ServePhase::Writing, ServeEvent::WriteFailed) => stopping(key, on_build),
        (phase, _) => (Server { phase, key, on_build }, None),
    }
}

} // verus!
