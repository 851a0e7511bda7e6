//! The client: how it starts a remote, what it asks, and what it makes of the
//! answers.

use vstd::prelude::*;
use vstd::string::StringExecFns;

use crate::error::{Exchange, Stage, SyncError, CONNECT_TIMEOUT_SECS};
use crate::record::{HostId, Record, RecordIdx, RecordStatus};
use crate::ssh_protocol::{Request, Response};
use crate::text::texts;

verus! {

/// What a standard stream of a command is connected to.
#[derive(Clone, Copy, Debug, PartialEq, Eq, Structural)]
pub enum Stream {
    /// The client.
    Piped,
    /// What the program itself has there.
    Inherited,
}

/// A command to run.
#[derive(Debug)]
pub struct CommandLine {
    pub program: String,
    pub args: Vec<String>,
    pub stdin: Stream,
    pub stdout: Stream,
    pub stderr: Stream,
}

/// The request with which a client finds out whether its remote answers.
#[derive(Debug)]
pub struct Handshake {
    pub request: Request,
    /// How long sending it and having the answer may take, in seconds.
    pub timeout_secs: u64,
}

/// What the client waits for an answer to.
#[derive(Clone, Copy, Debug, PartialEq, Eq, Structural)]
pub enum Call {
    Handshake,
    Status,
    Push,
    Fetch,
    BuildRemote,
}

/// Where a client stands.
#[derive(Clone, Copy, Debug, PartialEq, Eq, Structural)]
pub enum ClientPhase {
    /// The remote command is being started.
    Starting,
    /// A request is on its way, or its answer is.
    Waiting(Call),
    /// The remote has answered all that it was asked, and may be asked more.
    Ready,
    /// The session is over.
    Closed,
}

/// A client of a remote store. It asks one thing at a time.
#[derive(Clone, Copy, Debug, PartialEq, Eq, Structural)]
pub struct SshClient {
    pub phase: ClientPhase,
}

/// What became of a request.
#[derive(Debug)]
pub enum Reply {
    /// A response came.
    Received { response: Response },
    /// The request could not be sent, or no response could be read.
    Failed { error: SyncError },
    /// No response came in the time that a handshake may take.
    TimedOut,
}

/// What a successful call gives its caller.
#[derive(Debug)]
pub enum Outcome {
    Connected,
    Status { status: RecordStatus },
    Pushed,
    Records { records: Vec<Record> },
    Built,
}

impl CommandLine {
    /// Whether the command is made of these words and talks to the client, with
    /// its errors going where those of the program go.
    pub open spec fn says(self, program: Seq<char>, args: Seq<Seq<char>>) -> bool {
        &&& self.program@ == program
        &&& texts(self.args@) == args
        &&& self.stdin == Stream::Piped
        &&& self.stdout == Stream::Piped
        &&& self.stderr == Stream::Inherited
    }

    /// A command that talks to the client.
    fn talking(program: &str, args: Vec<String>) -> (line: CommandLine)
        ensures
            line.says(program@, texts(args@)),
    {
        CommandLine {
            program: String::from_str(program),
            args,
            stdin: Stream::Piped,
            stdout: Stream::Piped,
            stderr: Stream::Inherited,
        }
    }
}

impl SshClient {
    /// The client is at rest and may ask something.
    pub open spec fn is_ready(self) -> bool {
        self.phase == ClientPhase::Ready
    }

    /// The client waits for the answer to a call.
    pub open spec fn waits_for(self, call: Call) -> bool {
        self.phase == ClientPhase::Waiting(call)
    }

    /// The client waits for what a reply may tell it. Only a handshake times out.
    pub open spec fn awaits(self, reply: Reply) -> bool {
        match self.phase {
            ClientPhase::Waiting(call) => reply is TimedOut ==> call == Call::Handshake,
            _ => false,
        }
    }
}

/// What a response to a request means before it is looked at more closely: an
/// error of the remote is an error here.
pub open spec fn accepted(response: Response) -> Result<Response, SyncError> {
    match response {
        Response::Error { message } => Err(SyncError::Remote { message }),
        _ => Ok(response),
    }
}

/// The response, or why there is none, that a reply stands for.
pub open spec fn answer(reply: Reply) -> Result<Response, SyncError> {
    match reply {
        Reply::Received { response } => accepted(response),
        Reply::Failed { error } => Err(error),
        Reply::TimedOut => Err(SyncError::HandshakeTimeout),
    }
}

/// What a call comes to, given what became of its request.
pub open spec fn settled(call: Call, reply: Reply) -> Result<Outcome, SyncError> {
    match (call, answer(reply)) {
        (Call::Handshake, Err(e)) => if reply is TimedOut {
            Err(e)
        } else {
            Err(SyncError::Context { stage: Stage::Handshake, source: Box::new(e) })
        },
        (_, Err(e)) => Err(e),
        (Call::Handshake, Ok(Response::Status { .. })) => Ok(Outcome::Connected),
        (Call::Status, Ok(Response::Status { status })) => Ok(Outcome::Status { status }),
        (Call::Push, Ok(Response::PushOk)) => Ok(Outcome::Pushed),
        (Call::Fetch, Ok(Response::Records { records })) => Ok(Outcome::Records { records }),
        (Call::BuildRemote, Ok(_)) => Ok(Outcome::Built),
        (Call::Handshake, Ok(response)) => Err(
            SyncError::UnexpectedResponse { during: Exchange::Handshake, response },
        ),
        (Call::Status, Ok(response)) => Err(
            SyncError::UnexpectedResponse { during: Exchange::Status, response },
        ),
        (Call::Push, Ok(response)) => Err(
            SyncError::UnexpectedResponse { during: Exchange::Push, response },
        ),
        (Call::Fetch, Ok(response)) => Err(
            SyncError::UnexpectedResponse { during: Exchange::Fetch, response },
        ),
    }
}

/// Where a client stands after a call has come to its end: a handshake that
/// failed leaves no session, any other call leaves the client ready for the next.
pub open spec fn phase_after(call: Call, reply: Reply) -> ClientPhase {
    if call == Call::Handshake && settled(call, reply) is Err {
        ClientPhase::Closed
    } else {
        ClientPhase::Ready
    }
}

impl SshClient {
    /// Starts a client of the machine at an SSH destination: the command to run.
    pub fn connect(destination: &str) -> (r: (SshClient, CommandLine))
        ensures
            r.0.phase == ClientPhase::Starting,
            r.1.says(
                "ssh"@,
                seq![
                    "-o"@,
                    "ConnectTimeout=10"@,
                    "--"@,
                    destination@,
                    "atuin"@,
                    "ssh-sync"@,
                    "serve"@,
                ],
            ),
    {
        let mut args: Vec<String> = Vec::new();
        args.push(String::from_str("-o"));
        args.push(String::from_str("ConnectTimeout=10"));
        args.push(String::from_str("--"));
        args.push(String::from_str(destination));
        args.push(String::from_str("atuin"));
        args.push(String::from_str("ssh-sync"));
        args.push(String::from_str("serve"));
        assert(texts(args@) =~= seq![
            "-o"@,
            "ConnectTimeout=10"@,
            "--"@,
            destination@,
            "atuin"@,
            "ssh-sync"@,
            "serve"@,
        ]);
        (
            SshClient { phase: ClientPhase::Starting },
            CommandLine::talking("ssh", args),
        )
    }

    /// Starts a client of whatever a shell command connects it to: the command to
    /// run. The shell reads the command, so that its syntax may be used.
    pub fn connect_exec(command: &str) -> (r: (SshClient, CommandLine))
        ensures
            r.0.phase == ClientPhase::Starting,
            r.1.says("sh"@, seq!["-c"@, command@]),
    {
        let mut args: Vec<String> = Vec::new();
        args.push(String::from_str("-c"));
        args.push(String::from_str(command));
        assert(texts(args@) =~= seq!["-c"@, command@]);
        (
            SshClient { phase: ClientPhase::Starting },
            CommandLine::talking("sh", args),
        )
    }

    /// Takes over the command that was started, given whether its standard input
    /// and output are there: how to find out whether the remote answers. `None`
    /// where no command is being started.
    pub fn from_child(self, stdin: bool, stdout: bool) -> (r: (
        SshClient,
        Option<Result<Handshake, SyncError>>,
    ))
        ensures
            self.phase != ClientPhase::Starting ==> r == (
                self,
                None::<Result<Handshake, SyncError>>,
            ),
            self.phase == ClientPhase::Starting && stdin && stdout ==> r.0.waits_for(
                Call::Handshake,
            ) && r.1 == Some(
                Ok::<Handshake, SyncError>(
                    Handshake { request: Request::Status, timeout_secs: CONNECT_TIMEOUT_SECS },
                ),
            ),
            self.phase == ClientPhase::Starting && !stdin ==> r.0.phase == ClientPhase::Closed
                && r.1 == Some(Err::<Handshake, SyncError>(SyncError::NoStdin)),
            self.phase == ClientPhase::Starting && stdin && !stdout ==> r.0.phase
                == ClientPhase::Closed && r.1 == Some(
                Err::<Handshake, SyncError>(SyncError::NoStdout),
            ),
    {
        match self.phase {
            ClientPhase::Starting => if !stdin {
                (SshClient { phase: ClientPhase::Closed }, Some(Err(SyncError::NoStdin)))
            } else if !stdout {
                (SshClient { phase: ClientPhase::Closed }, Some(Err(SyncError::NoStdout)))
            } else {
                (
                    SshClient { phase: ClientPhase::Waiting(Call::Handshake) },
                    Some(
                        Ok(
                            Handshake {
                                request: Request::Status,
                                timeout_secs: CONNECT_TIMEOUT_SECS,
                            },
                        ),
                    ),
                )
            },
            _ => (self, None),
        }
    }

    /// Sends a request on behalf of a call, where the client is ready.
    fn ask(self, call: Call, request: Request) -> (r: (SshClient, Option<Request>))
        ensures
            self.is_ready() ==> r.0.waits_for(call) && r.1 == Some(request),
            !self.is_ready() ==> r == (self, None::<Request>),
    {
        match self.phase {
            ClientPhase::Ready => (
                SshClient { phase: ClientPhase::Waiting(call) },
                Some(request),
            ),
            _ => (self, None),
        }
    }

    /// Asks how far the remote store reaches: the request to send. `None` where
    /// the client is not ready.
    pub fn status(self) -> (r: (SshClient, Option<Request>))
        ensures
            self.is_ready() ==> r.0.waits_for(Call::Status) && r.1 == Some(Request::Status),
            !self.is_ready() ==> r == (self, None::<Request>),
    {
        self.ask(Call::Status, Request::Status)
    }

    /// Asks the remote to store some records: the request to send. `None` where
    /// the client is not ready.
    pub fn push(self, records: Vec<Record>) -> (r: (SshClient, Option<Request>))
        ensures
            self.is_ready() ==> r.0.waits_for(Call::Push) && r.1 == Some(
                Request::Push { records },
            ),
            !self.is_ready() ==> r == (self, None::<Request>),
    {
        self.ask(Call::Push, Request::Push { records })
    }

    /// Asks the remote for up to `count` records of a host and tag, from an index
    /// on: the request to send. `None` where the client is not ready.
    pub fn fetch(self, host: HostId, tag: String, start: RecordIdx, count: u64) -> (r: (
        SshClient,
        Option<Request>,
    ))
        ensures
            self.is_ready() ==> r.0.waits_for(Call::Fetch) && r.1 == Some(
                Request::Fetch { host, tag, start, count },
            ),
            !self.is_ready() ==> r == (self, None::<Request>),
    {
        self.ask(Call::Fetch, Request::Fetch { host, tag, start, count })
    }

    /// Asks the remote to work its records into what it is used for: the request
    /// to send. `None` where the client is not ready.
    pub fn build_remote(self) -> (r: (SshClient, Option<Request>))
        ensures
            self.is_ready() ==> r.0.waits_for(Call::BuildRemote) && r.1 == Some(
                Request::BuildRemote,
            ),
            !self.is_ready() ==> r == (self, None::<Request>),
    {
        self.ask(Call::BuildRemote, Request::BuildRemote)
    }

    /// Takes leave: the message to send, which is not answered and may get lost,
    /// before the remote command is waited for. `None` where the client is not ready.
    pub fn close(self) -> (r: (SshClient, Option<Request>))
        ensures
            self.is_ready() ==> r.0.phase == ClientPhase::Closed && r.1 == Some(
                Request::Goodbye,
            ),
            !self.is_ready() ==> r == (self, None::<Request>),
    {
        match self.phase {
            ClientPhase::Ready => (
                SshClient { phase: ClientPhase::Closed },
                Some(Request::Goodbye),
            ),
            _ => (self, None),
        }
    }

    /// The response to a request, or why there is none.
    fn request(reply: Reply) -> (r: Result<Response, SyncError>)
        ensures
            r == answer(reply),
    {
        match reply {
            Reply::Received { response: Response::Error { message } } => Err(
                SyncError::Remote { message },
            ),
            Reply::Received { response } => Ok(response),
            Reply::Failed { error } => Err(error),
            Reply::TimedOut => Err(SyncError::HandshakeTimeout),
        }
    }

    /// Takes what became of the request that is on its way: what the call that
    /// sent it comes to. `None` where the client does not wait for this.
    pub fn settle(self, reply: Reply) -> (r: (SshClient, Option<Result<Outcome, SyncError>>))
        ensures
            !self.awaits(reply) ==> r == (self, None::<Result<Outcome, SyncError>>),
            self.awaits(reply) ==> {
                let call = self.phase->Waiting_0;
                r.1 == Some(settled(call, reply)) && r.0.phase == phase_after(call, reply)
            },
    {
        let call: Call = match self.phase {
            ClientPhase::Waiting(call) => call,
            _ => return (self, None),
        };
        let timed_out: bool = match &reply {
            Reply::TimedOut => true,
            _ => false,
        };
        if timed_out && call != Call::Handshake {
            return (self, None);
        }
        let result: Result<Outcome, SyncError> = match (call, Self::request(reply)) {
            (Call::Handshake, Err(e)) => if timed_out {
                Err(e)
            } else {
                Err(SyncError::Context { stage: Stage::Handshake, source: Box::new(e) })
            },
            (_, Err(e)) => Err(e),
            (Call::Handshake, Ok(Response::Status { .. })) => Ok(Outcome::Connected),
            (Call::Status, Ok(Response::Status { status })) => Ok(Outcome::Status { status }),
            (Call::Push, Ok(Response::PushOk)) => Ok(Outcome::Pushed),
            (Call::Fetch, Ok(Response::Records { records })) => Ok(Outcome::Records { records }),
            (Call::BuildRemote, Ok(_)) => Ok(Outcome::Built),
            (Call::Handshake, Ok(response)) => Err(
                SyncError::UnexpectedResponse { during: Exchange::Handshake, response },
            ),
            (Call::Status, Ok(response)) => Err(
                SyncError::UnexpectedResponse { during: Exchange::Status, response },
            ),
            (Call::Push, Ok(response)) => Err(
                SyncError::UnexpectedResponse { during: Exchange::Push, response },
            ),
            (Call::Fetch, Ok(response)) => Err(
                SyncError::UnexpectedResponse { during: Exchange::Fetch, response },
            ),
        };
        let failed: bool = match &result {
            Err(_) => true,
            Ok(_) => false,
        };
        let phase: ClientPhase = if call == Call::Handshake && failed {
            ClientPhase::Closed
        } else {
            ClientPhase::Ready
        };
        (SshClient { phase }, Some(result))
    }
}

} // verus!
