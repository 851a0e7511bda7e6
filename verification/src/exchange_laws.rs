//! What the messages, the client and the server promise of every call, in the words
//! of its arguments and results.

use vstd::prelude::*;

use crate::error::{Exchange, Stage, SyncError};
use crate::record::{
    are_marked_places, law_marked_items_are_those_at_marked_places, Build, EncryptionKey, HostId,
    Record, RecordIdx, RecordStatus,
};
use crate::ssh_client::{
    Call, ClientPhase, CommandLine, Handshake, Outcome, Reply, SshClient, Stream,
};
use crate::ssh_protocol::{message_length, read_message, write_message, Request, Response};
use crate::ssh_server::{serve, ServeAction, ServeEvent, ServePhase, Server};
use crate::text::{decimal_digits, decimal_text, texts};

verus! {

/// The number that some decimal digits stand for.
pub open spec fn number_of(digits: Seq<char>) -> int
    decreases digits.len(),
{
    if digits.len() == 0 {
        0
    } else {
        10 * number_of(digits.drop_last()) + (digits.last() as int - '0' as int)
    }
}

proof fn lemma_digits_read_back(n: nat)
    ensures
        decimal_digits(n).len() > 0,
        forall|i: int|
            0 <= i < decimal_digits(n).len() ==> '0' <= #[trigger] decimal_digits(n)[i] <= '9',
        decimal_digits(n).len() > 1 ==> decimal_digits(n)[0] != '0',
        n > 0 ==> decimal_digits(n)[0] != '0',
        number_of(decimal_digits(n)) == n,
    decreases n,
{
    let digits = decimal_digits(n);
    if n < 10 {
        assert(digits.drop_last() =~= Seq::empty());
        assert(number_of(digits.drop_last()) == 0);
    } else {
        lemma_digits_read_back(n / 10);
        assert(digits.drop_last() =~= decimal_digits(n / 10));
        assert(digits[0] == decimal_digits(n / 10)[0]);
        assert forall|i: int| 0 <= i < digits.len() implies '0' <= #[trigger] digits[i] <= '9' by {
            if i < digits.len() - 1 {
                assert(digits[i] == decimal_digits(n / 10)[i]);
            }
        }
    }
}

/// The decimal form of a number is read back as that number: it is made of digits,
/// with no zero in front of others, and a negative number has a minus sign before
/// the form of its opposite.
pub proof fn law_decimal_form_reads_back(n: int)
    ensures
        n >= 0 ==> decimal_text(n).len() > 0 && number_of(decimal_text(n)) == n,
        n >= 0 ==> forall|i: int|
            0 <= i < decimal_text(n).len() ==> '0' <= #[trigger] decimal_text(n)[i] <= '9',
        n >= 0 && decimal_text(n).len() > 1 ==> decimal_text(n)[0] != '0',
        n < 0 ==> decimal_text(n).len() > 0 && decimal_text(n)[0] == '-' && decimal_text(
            n,
        ).drop_first() == decimal_text(-n),
{
    if n >= 0 {
        lemma_digits_read_back(n as nat);
    } else {
        assert(decimal_text(n).drop_first() =~= decimal_text(-n));
    }
}

/// What an error says. The outermost context speaks for what led to it, a failure
/// of the remote or of anything outside is quoted, and sizes are named in bytes.
pub proof fn law_errors_say_what_happened(error: &SyncError, shown: &str, text: String)
    requires
        call_ensures(SyncError::message, (error, shown), text),
    ensures
        *error matches SyncError::MessageTooLarge { len } ==> text@
            == "ssh-sync message too large: "@ + decimal_text(len as int) + " bytes (max "@
            + decimal_text(67_108_864) + ")"@,
        *error matches SyncError::MessageTooLargeToSend { len } ==> text@
            == "ssh-sync message too large to send: "@ + decimal_text(len as int) + " bytes (max "@
            + decimal_text(67_108_864) + ")"@,
        error is Truncated ==> text@ == "early eof"@,
        error is NoStdin ==> text@ == "failed to open stdin to child process"@,
        error is NoStdout ==> text@ == "failed to open stdout from child process"@,
        *error matches SyncError::Remote { message } ==> text@ == "remote error: "@ + message@,
        *error matches SyncError::UnexpectedResponse { during, .. } ==> text@ == (match during {
            Exchange::Handshake => "unexpected response during handshake: "@,
            Exchange::Status => "unexpected response to Status: "@,
            Exchange::Push => "unexpected response to Push: "@,
            Exchange::Fetch => "unexpected response to Fetch: "@,
        }) + shown@,
        error is HandshakeTimeout ==> text@ == "timed out waiting for remote atuin to respond ("@
            + decimal_text(30) + "s)"@,
        error is NoTarget ==> text@ == "provide either a destination or --exec"@,
        *error matches SyncError::Outside { message } ==> text@ == message@,
        *error matches SyncError::Context { stage, .. } ==> text@ == match stage {
            Stage::LoadKey => "could not load encryption key"@,
            Stage::ConnectSsh => "failed to connect over SSH"@,
            Stage::StartCommand => "failed to start sync command"@,
            Stage::Handshake =>
                "remote atuin failed to respond — is atuin installed on the remote?"@,
            Stage::BuildRemote => "failed to build on remote"@,
            Stage::Close => "failed to close session"@,
        },
{
}

/// A message is written as the length of its payload, in four bytes of which the
/// first counts most, and then the payload, byte for byte. Payloads of up to
/// sixty-four mebibytes are written, and larger ones refused with their size.
pub proof fn law_written_message_is_length_and_payload(
    payload: &[u8],
    written: Result<Vec<u8>, SyncError>,
)
    requires
        call_ensures(write_message, (payload,), written),
    ensures
        payload@.len() <= 67_108_864 ==> written is Ok && ({
            let bytes = written->Ok_0@;
            &&& bytes.len() == payload@.len() + 4
            &&& bytes[0] * 0x100_0000 + bytes[1] * 0x1_0000 + bytes[2] * 0x100 + bytes[3]
                == payload@.len()
            &&& forall|i: int| 0 <= i < payload@.len() ==> #[trigger] bytes[i + 4] == payload@[i]
        }),
        payload@.len() > 67_108_864 ==> written == Err::<Vec<u8>, SyncError>(
            SyncError::MessageTooLargeToSend { len: payload@.len() as usize },
        ),
{
    if payload@.len() <= 67_108_864 {
        let bytes = written->Ok_0@;
        let n = payload@.len();
        assert(bytes[0] == n / 0x100_0000);
        assert(bytes[1] == n / 0x1_0000 % 0x100);
        assert(bytes[2] == n / 0x100 % 0x100);
        assert(bytes[3] == n % 0x100);
        let upper = n / 0x1_0000;
        let lower = n % 0x1_0000;
        assert(n / 0x100_0000 == upper / 0x100);
        assert(n / 0x100 % 0x100 == lower / 0x100);
        assert(n % 0x100 == lower % 0x100);
    }
}

/// The four bytes at the head of a message announce a length of which the first
/// byte counts most, and more than sixty-four mebibytes are refused.
pub proof fn law_announced_length_is_that_of_the_header(
    header: [u8; 4],
    length: Result<usize, SyncError>,
)
    requires
        call_ensures(message_length, (header,), length),
    ensures
        ({
            let announced = header@[0] * 0x100_0000 + header@[1] * 0x1_0000 + header@[2] * 0x100
                + header@[3];
            &&& announced <= 67_108_864 ==> length is Ok && length->Ok_0 == announced
            &&& announced > 67_108_864 ==> length == Err::<usize, SyncError>(
                SyncError::MessageTooLarge { len: announced as usize },
            )
        }),
{
}

/// What is read is the payload whose length stands in the first four bytes, byte for
/// byte, once all of it is there. Too large a length is refused before the payload
/// is looked at, and less input than was announced is truncated.
pub proof fn law_read_message_is_what_the_header_announces(
    input: &[u8],
    read: Result<(Vec<u8>, usize), SyncError>,
)
    requires
        call_ensures(read_message, (input,), read),
    ensures
        input@.len() < 4 ==> read == Err::<(Vec<u8>, usize), SyncError>(SyncError::Truncated),
        input@.len() >= 4 ==> ({
            let announced = input@[0] * 0x100_0000 + input@[1] * 0x1_0000 + input@[2] * 0x100
                + input@[3];
            &&& announced > 67_108_864 ==> read == Err::<(Vec<u8>, usize), SyncError>(
                SyncError::MessageTooLarge { len: announced as usize },
            )
            &&& announced <= 67_108_864 && input@.len() < announced + 4 ==> read == Err::<
                (Vec<u8>, usize),
                SyncError,
            >(SyncError::Truncated)
            &&& announced <= 67_108_864 && input@.len() >= announced + 4 ==> {
                &&& read is Ok
                &&& read->Ok_0.1 == announced + 4
                &&& read->Ok_0.0@.len() == announced
                &&& forall|i: int|
                    0 <= i < announced ==> #[trigger] read->Ok_0.0@[i] == input@[i + 4]
            }
        }),
{
}

/// Reading undoes writing: of an input that begins with a written message, the
/// payload is read back and what follows is left.
pub proof fn law_reading_undoes_writing(
    payload: &[u8],
    written: Result<Vec<u8>, SyncError>,
    rest: Seq<u8>,
    input: &[u8],
    read: Result<(Vec<u8>, usize), SyncError>,
)
    requires
        call_ensures(write_message, (payload,), written),
        written is Ok,
        input@ == written->Ok_0@ + rest,
        call_ensures(read_message, (input,), read),
    ensures
        read is Ok,
        read->Ok_0.0@ == payload@,
        read->Ok_0.1 == written->Ok_0@.len(),
        input@.skip(read->Ok_0.1 as int) == rest,
{
    law_written_message_is_length_and_payload(payload, written);
    law_read_message_is_what_the_header_announces(input, read);
    let bytes = written->Ok_0@;
    assert forall|i: int| 0 <= i < payload@.len() implies #[trigger] read->Ok_0.0@[i]
        == payload@[i] by {
        assert(read->Ok_0.0@[i] == input@[i + 4]);
        assert(bytes[i + 4] == payload@[i]);
    }
    assert(read->Ok_0.0@ =~= payload@);
    assert(input@.skip(bytes.len() as int) =~= rest);
}

/// A server at the start of a session reads, and has the key and the build that it
/// was given.
pub proof fn law_server_starts_as_given(key: EncryptionKey, build: Build, server: Server)
    requires
        call_ensures(Server::new, (key, build), server),
    ensures
        server.phase is Reading,
        server.key == key,
        server.on_build == Some(build),
{
}

/// What a server waits for: in each phase the outcome of what it has done there, and
/// marks for just as many records as it has in question. Any other event is refused
/// and changes nothing. The key never changes.
pub proof fn law_server_waits_for_what_it_has_done(
    server: Server,
    event: ServeEvent,
    r: (Server, Option<ServeAction>),
)
    requires
        call_ensures(serve, (server, event), r),
    ensures
        server.phase is Reading ==> (r.1 is Some <==> event is Received || event is ReadFailed),
        server.phase is Status ==> (r.1 is Some <==> event is StatusRead),
        server.phase is Matching ==> (r.1 is Some <==> event is KeysMatched
            && event->matches@.len() == server.phase->records@.len()),
        server.phase is Pushing ==> (r.1 is Some <==> event is Pushed),
        server.phase is Fetching ==> (r.1 is Some <==> event is Fetched),
        server.phase is Building ==> (r.1 is Some <==> event is Built),
        server.phase is Writing ==> (r.1 is Some <==> event is Written || event is WriteFailed),
        server.phase is Stopped ==> r.1 is None,
        r.1 is None ==> r.0 == server,
        r.0.key == server.key,
{
}

/// A request for the status is answered with the status that the store gave, or
/// with the words in which it failed, and then the server is as it was before.
pub proof fn law_status_is_answered(
    server: Server,
    asked: (Server, Option<ServeAction>),
    status: Result<RecordStatus, String>,
    answered: (Server, Option<ServeAction>),
    done: (Server, Option<ServeAction>),
)
    requires
        server.phase is Reading,
        call_ensures(serve, (server, ServeEvent::Received { request: Request::Status }), asked),
        call_ensures(serve, (asked.0, ServeEvent::StatusRead { status }), answered),
        call_ensures(serve, (answered.0, ServeEvent::Written), done),
    ensures
        asked.1 == Some(ServeAction::ReadStatus),
        status matches Ok(given) ==> answered.1 == Some(
            ServeAction::Write { response: Response::Status { status: given } },
        ),
        status matches Err(message) ==> answered.1 == Some(
            ServeAction::Write { response: Response::Error { message } },
        ),
        done.1 == Some(ServeAction::Read),
        done.0 == server,
{
}

/// A request for records is looked up as it was asked and answered with the very
/// records that the store gave, or with the words in which it failed, and then the
/// server is as it was before.
pub proof fn law_fetch_is_answered(
    server: Server,
    host: HostId,
    tag: String,
    start: RecordIdx,
    count: u64,
    asked: (Server, Option<ServeAction>),
    records: Result<Vec<Record>, String>,
    answered: (Server, Option<ServeAction>),
    done: (Server, Option<ServeAction>),
)
    requires
        server.phase is Reading,
        call_ensures(
            serve,
            (server, ServeEvent::Received { request: Request::Fetch { host, tag, start, count } }),
            asked,
        ),
        call_ensures(serve, (asked.0, ServeEvent::Fetched { records }), answered),
        call_ensures(serve, (answered.0, ServeEvent::Written), done),
    ensures
        asked.1 == Some(ServeAction::Fetch { host, tag, start, count }),
        records matches Ok(given) ==> answered.1 == Some(
            ServeAction::Write { response: Response::Records { records: given } },
        ),
        records matches Err(message) ==> answered.1 == Some(
            ServeAction::Write { response: Response::Error { message } },
        ),
        done.1 == Some(ServeAction::Read),
        done.0 == server,
{
}

/// Pushed records are held against the server's key, those at the places that were
/// found to match go to the store, all of them and in their order, and the push is
/// answered with how the store took them. Then the server is as it was before.
pub proof fn law_push_is_answered(
    server: Server,
    pushed: Vec<Record>,
    asked: (Server, Option<ServeAction>),
    matches: Vec<bool>,
    matched: (Server, Option<ServeAction>),
    outcome: Result<(), String>,
    answered: (Server, Option<ServeAction>),
    done: (Server, Option<ServeAction>),
) -> (places: Seq<int>)
    requires
        server.phase is Reading,
        matches@.len() == pushed@.len(),
        call_ensures(
            serve,
            (server, ServeEvent::Received { request: Request::Push { records: pushed } }),
            asked,
        ),
        call_ensures(serve, (asked.0, ServeEvent::KeysMatched { matches }), matched),
        call_ensures(serve, (matched.0, ServeEvent::Pushed { outcome }), answered),
        call_ensures(serve, (answered.0, ServeEvent::Written), done),
    ensures
        asked.1 == Some(ServeAction::MatchKeys { key: server.key }),
        asked.0.phase == (ServePhase::Matching { records: pushed }),
        are_marked_places(places, pushed@, matches@),
        matched.1 is Some,
        matched.1->Some_0 is Push,
        ({
            let stored = matched.1->Some_0->Push_records@;
            &&& stored.len() == places.len()
            &&& forall|k: int|
                0 <= k < stored.len() ==> #[trigger] stored[k] == pushed@[places[k]]
        }),
        outcome is Ok ==> answered.1 == Some(ServeAction::Write { response: Response::PushOk }),
        outcome matches Err(message) ==> answered.1 == Some(
            ServeAction::Write { response: Response::Error { message } },
        ),
        done.1 == Some(ServeAction::Read),
        done.0 == server,
{
    law_marked_items_are_those_at_marked_places(pushed@, matches@)
}

/// The first request to build runs the server's build and is answered with how it
/// went. Each later one is answered as done, without a build, also where the first
/// failed.
pub proof fn law_build_is_answered(
    server: Server,
    build: Build,
    asked: (Server, Option<ServeAction>),
    outcome: Result<(), String>,
    answered: (Server, Option<ServeAction>),
    done: (Server, Option<ServeAction>),
    again: (Server, Option<ServeAction>),
    after: (Server, Option<ServeAction>),
)
    requires
        server.phase is Reading,
        server.on_build == Some(build),
        call_ensures(serve, (server, ServeEvent::Received { request: Request::BuildRemote }), asked),
        call_ensures(serve, (asked.0, ServeEvent::Built { outcome }), answered),
        call_ensures(serve, (answered.0, ServeEvent::Written), done),
        call_ensures(serve, (done.0, ServeEvent::Received { request: Request::BuildRemote }), again),
        call_ensures(serve, (again.0, ServeEvent::Written), after),
    ensures
        asked.1 == Some(ServeAction::Build { build }),
        outcome is Ok ==> answered.1 == Some(ServeAction::Write { response: Response::BuildOk }),
        outcome matches Err(message) ==> answered.1 == Some(
            ServeAction::Write { response: Response::Error { message } },
        ),
        done.1 == Some(ServeAction::Read),
        done.0 == (Server { phase: ServePhase::Reading, key: server.key, on_build: None }),
        again.1 == Some(ServeAction::Write { response: Response::BuildOk }),
        after.1 == Some(ServeAction::Read),
        after.0 == done.0,
{
}

/// A goodbye, and a message that cannot be read or sent, end the session without an
/// answer.
pub proof fn law_session_of_a_server_ends(
    server: Server,
    event: ServeEvent,
    r: (Server, Option<ServeAction>),
)
    requires
        call_ensures(serve, (server, event), r),
        server.phase is Reading && (event == (ServeEvent::Received { request: Request::Goodbye })
            || event is ReadFailed) || server.phase is Writing && event is WriteFailed,
    ensures
        r.1 == Some(ServeAction::Stop),
        r.0.phase is Stopped,
        r.0.on_build == server.on_build,
{
}

/// The records shown to be held against the key are those that were pushed, and none
/// at any other time.
pub proof fn law_records_in_question_are_those_pushed(
    server: &Server,
    records: Option<&Vec<Record>>,
)
    requires
        call_ensures(Server::records_to_match, (server,), records),
    ensures
        server.phase matches ServePhase::Matching { records: pushed } ==> records is Some
            && *records->Some_0 == pushed,
        records is Some ==> server.phase is Matching,
{
}

/// The command that connects to an SSH destination: the words that are handed to
/// `ssh`, with the destination behind the mark that ends the options, so that it is
/// never taken for one.
pub proof fn law_ssh_is_told_the_destination(destination: &str, r: (SshClient, CommandLine))
    requires
        call_ensures(SshClient::connect, (destination,), r),
    ensures
        r.0.phase == ClientPhase::Starting,
        r.1.program@ == "ssh"@,
        r.1.args@.len() == 7,
        r.1.args@[0]@ == "-o"@,
        r.1.args@[1]@ == "ConnectTimeout=10"@,
        r.1.args@[2]@ == "--"@,
        r.1.args@[3]@ == destination@,
        r.1.args@[4]@ == "atuin"@,
        r.1.args@[5]@ == "ssh-sync"@,
        r.1.args@[6]@ == "serve"@,
        r.1.stdin == Stream::Piped,
        r.1.stdout == Stream::Piped,
        r.1.stderr == Stream::Inherited,
{
    let args = texts(r.1.args@);
    assert(args.len() == 7);
    assert(args[0] == "-o"@);
    assert(args[1] == "ConnectTimeout=10"@);
    assert(args[2] == "--"@);
    assert(args[3] == destination@);
    assert(args[4] == "atuin"@);
    assert(args[5] == "ssh-sync"@);
    assert(args[6] == "serve"@);
}

/// The command that a shell is to read is handed to it as one word, as it is.
pub proof fn law_shell_is_told_the_command(command: &str, r: (SshClient, CommandLine))
    requires
        call_ensures(SshClient::connect_exec, (command,), r),
    ensures
        r.0.phase == ClientPhase::Starting,
        r.1.program@ == "sh"@,
        r.1.args@.len() == 2,
        r.1.args@[0]@ == "-c"@,
        r.1.args@[1]@ == command@,
        r.1.stdin == Stream::Piped,
        r.1.stdout == Stream::Piped,
        r.1.stderr == Stream::Inherited,
{
    let args = texts(r.1.args@);
    assert(args.len() == 2);
    assert(args[0] == "-c"@);
    assert(args[1] == command@);
}

/// What a client that is being started does with its remote command: it asks for
/// the status, in thirty seconds, where both pipes are there, and gives up with the
/// first that is not. It does so once.
pub proof fn law_handshake_needs_both_pipes(
    client: SshClient,
    stdin: bool,
    stdout: bool,
    r: (SshClient, Option<Result<Handshake, SyncError>>),
)
    requires
        call_ensures(SshClient::from_child, (client, stdin, stdout), r),
    ensures
        client.phase != ClientPhase::Starting ==> r.1 is None && r.0 == client,
        client.phase == ClientPhase::Starting && stdin && stdout ==> r.0.phase
            == ClientPhase::Waiting(Call::Handshake) && r.1 == Some(
            Ok::<Handshake, SyncError>(Handshake { request: Request::Status, timeout_secs: 30 }),
        ),
        client.phase == ClientPhase::Starting && !(stdin && stdout) ==> r.0.phase
            == ClientPhase::Closed && r.1 == Some(
            Err::<Handshake, SyncError>(
                if stdin {
                    SyncError::NoStdout
                } else {
                    SyncError::NoStdin
                },
            ),
        ),
{
}

/// A call succeeds only upon a response that came and belongs to it, and gives what
/// stands in it: without an answer nothing is reported as done.
pub proof fn law_call_succeeds_only_upon_its_response(
    client: SshClient,
    reply: Reply,
    r: (SshClient, Option<Result<Outcome, SyncError>>),
    outcome: Outcome,
)
    requires
        call_ensures(SshClient::settle, (client, reply), r),
        r.1 == Some(Ok::<Outcome, SyncError>(outcome)),
    ensures
        reply is Received,
        !(reply->response is Error),
        r.0.phase == ClientPhase::Ready,
        outcome is Connected ==> client.phase == ClientPhase::Waiting(Call::Handshake)
            && reply->response is Status,
        outcome matches Outcome::Status { status } ==> client.phase == ClientPhase::Waiting(
            Call::Status,
        ) && reply->response == (Response::Status { status }),
        outcome is Pushed ==> client.phase == ClientPhase::Waiting(Call::Push)
            && reply->response is PushOk,
        outcome matches Outcome::Records { records } ==> client.phase == ClientPhase::Waiting(
            Call::Fetch,
        ) && reply->response == (Response::Records { records }),
        outcome is Built ==> client.phase == ClientPhase::Waiting(Call::BuildRemote),
{
}

/// A call fails with what went wrong: an error on the way is passed on, one of the
/// remote is told in its words, and a response of another sort is shown. A handshake
/// that fails leaves nothing behind and puts the first two into its context, and it
/// alone runs out of time. Any other call that fails leaves the client ready.
pub proof fn law_call_fails_with_what_went_wrong(
    client: SshClient,
    call: Call,
    reply: Reply,
    r: (SshClient, Option<Result<Outcome, SyncError>>),
    error: SyncError,
)
    requires
        call_ensures(SshClient::settle, (client, reply), r),
        client.phase == ClientPhase::Waiting(call),
        r.1 == Some(Err::<Outcome, SyncError>(error)),
    ensures
        r.0.phase == if call == Call::Handshake {
            ClientPhase::Closed
        } else {
            ClientPhase::Ready
        },
        reply is TimedOut ==> call == Call::Handshake && error is HandshakeTimeout,
        reply matches Reply::Failed { error: met } ==> error == if call == Call::Handshake {
            SyncError::Context { stage: Stage::Handshake, source: Box::new(met) }
        } else {
            met
        },
        reply matches Reply::Received { response: Response::Error { message } } ==> error
            == if call == Call::Handshake {
            SyncError::Context {
                stage: Stage::Handshake,
                source: Box::new(SyncError::Remote { message }),
            }
        } else {
            SyncError::Remote { message }
        },
        reply is Received && !(reply->response is Error) ==> call != Call::BuildRemote && error
            == (SyncError::UnexpectedResponse {
            during: match call {
                Call::Handshake => Exchange::Handshake,
                Call::Status => Exchange::Status,
                Call::Push => Exchange::Push,
                _ => Exchange::Fetch,
            },
            response: reply->response,
        }),
{
}

/// A call succeeds whenever the response that belongs to it comes. To have the
/// remote build, any response but an error is enough. A client that waits is told
/// what became of its request, and one that does not refuses to be.
pub proof fn law_call_succeeds_upon_its_response(
    client: SshClient,
    reply: Reply,
    r: (SshClient, Option<Result<Outcome, SyncError>>),
)
    requires
        call_ensures(SshClient::settle, (client, reply), r),
    ensures
        r.1 is Some <==> client.phase is Waiting && (reply is TimedOut ==> client.phase
            == ClientPhase::Waiting(Call::Handshake)),
        r.1 is None ==> r.0 == client,
        reply is Received && client.phase is Waiting ==> ({
            let call = client.phase->Waiting_0;
            let response = reply->response;
            &&& call == Call::Handshake && response is Status ==> r.1 == Some(
                Ok::<Outcome, SyncError>(Outcome::Connected),
            )
            &&& call == Call::Status ==> (response matches Response::Status { status } ==> r.1
                == Some(Ok::<Outcome, SyncError>(Outcome::Status { status })))
            &&& call == Call::Push && response is PushOk ==> r.1 == Some(
                Ok::<Outcome, SyncError>(Outcome::Pushed),
            )
            &&& call == Call::Fetch ==> (response matches Response::Records { records } ==> r.1
                == Some(Ok::<Outcome, SyncError>(Outcome::Records { records })))
            &&& call == Call::BuildRemote && !(response is Error) ==> r.1 == Some(
                Ok::<Outcome, SyncError>(Outcome::Built),
            )
        }),
{
}

/// A ready client sends what it is asked to send, as it is, and waits for the answer
/// to that. One that is not ready sends nothing and stays as it is.
pub proof fn law_client_sends_what_it_is_asked(
    client: SshClient,
    records: Vec<Record>,
    host: HostId,
    tag: String,
    start: RecordIdx,
    count: u64,
    status: (SshClient, Option<Request>),
    push: (SshClient, Option<Request>),
    fetch: (SshClient, Option<Request>),
    build: (SshClient, Option<Request>),
    close: (SshClient, Option<Request>),
)
    requires
        call_ensures(SshClient::status, (client,), status),
        call_ensures(SshClient::push, (client, records), push),
        call_ensures(SshClient::fetch, (client, host, tag, start, count), fetch),
        call_ensures(SshClient::build_remote, (client,), build),
        call_ensures(SshClient::close, (client,), close),
    ensures
        client.phase == ClientPhase::Ready ==> {
            &&& status.1 == Some(Request::Status)
            &&& status.0.phase == ClientPhase::Waiting(Call::Status)
            &&& push.1 == Some(Request::Push { records })
            &&& push.0.phase == ClientPhase::Waiting(Call::Push)
            &&& fetch.1 == Some(Request::Fetch { host, tag, start, count })
            &&& fetch.0.phase == ClientPhase::Waiting(Call::Fetch)
            &&& build.1 == Some(Request::BuildRemote)
            &&& build.0.phase == ClientPhase::Waiting(Call::BuildRemote)
            &&& close.1 == Some(Request::Goodbye)
            &&& close.0.phase == ClientPhase::Closed
        },
        client.phase != ClientPhase::Ready ==> {
            &&& status.1 is None && status.0 == client
            &&& push.1 is None && push.0 == client
            &&& fetch.1 is None && fetch.0 == client
            &&& build.1 is None && build.0 == client
            &&& close.1 is None && close.0 == client
        },
{
}

/// A client that fetches through a server gets the very records that the server's
/// store gave for what the client asked, or the words in which it failed.
pub proof fn law_fetch_goes_through_to_the_store(
    client: SshClient,
    host: HostId,
    tag: String,
    start: RecordIdx,
    count: u64,
    sent: (SshClient, Option<Request>),
    server: Server,
    asked: (Server, Option<ServeAction>),
    records: Result<Vec<Record>, String>,
    answered: (Server, Option<ServeAction>),
    settled: (SshClient, Option<Result<Outcome, SyncError>>),
)
    requires
        client.phase == ClientPhase::Ready,
        server.phase is Reading,
        call_ensures(SshClient::fetch, (client, host, tag, start, count), sent),
        call_ensures(serve, (server, ServeEvent::Received { request: sent.1->Some_0 }), asked),
        call_ensures(serve, (asked.0, ServeEvent::Fetched { records }), answered),
        call_ensures(
            SshClient::settle,
            (sent.0, Reply::Received { response: answered.1->Some_0->response }),
            settled,
        ),
    ensures
        asked.1 == Some(ServeAction::Fetch { host, tag, start, count }),
        records matches Ok(given) ==> settled.1 == Some(
            Ok::<Outcome, SyncError>(Outcome::Records { records: given }),
        ),
        records matches Err(message) ==> settled.1 == Some(
            Err::<Outcome, SyncError>(SyncError::Remote { message }),
        ),
{
}

/// A client that asks a server for its status gets the one that the server's store
/// gave, or the words in which it failed.
pub proof fn law_status_goes_through_to_the_store(
    client: SshClient,
    sent: (SshClient, Option<Request>),
    server: Server,
    asked: (Server, Option<ServeAction>),
    status: Result<RecordStatus, String>,
    answered: (Server, Option<ServeAction>),
    settled: (SshClient, Option<Result<Outcome, SyncError>>),
)
    requires
        client.phase == ClientPhase::Ready,
        server.phase is Reading,
        call_ensures(SshClient::status, (client,), sent),
        call_ensures(serve, (server, ServeEvent::Received { request: sent.1->Some_0 }), asked),
        call_ensures(serve, (asked.0, ServeEvent::StatusRead { status }), answered),
        call_ensures(
            SshClient::settle,
            (sent.0, Reply::Received { response: answered.1->Some_0->response }),
            settled,
        ),
    ensures
        asked.1 == Some(ServeAction::ReadStatus),
        status matches Ok(given) ==> settled.1 == Some(
            Ok::<Outcome, SyncError>(Outcome::Status { status: given }),
        ),
        status matches Err(message) ==> settled.1 == Some(
            Err::<Outcome, SyncError>(SyncError::Remote { message }),
        ),
{
}

/// A client that pushes through a server learns that the server's store took the
/// records, or the words in which it did not. Those held against the server's key
/// are the ones that the client pushed.
pub proof fn law_push_goes_through_to_the_store(
    client: SshClient,
    records: Vec<Record>,
    sent: (SshClient, Option<Request>),
    server: Server,
    asked: (Server, Option<ServeAction>),
    matches: Vec<bool>,
    matched: (Server, Option<ServeAction>),
    outcome: Result<(), String>,
    answered: (Server, Option<ServeAction>),
    settled: (SshClient, Option<Result<Outcome, SyncError>>),
)
    requires
        client.phase == ClientPhase::Ready,
        server.phase is Reading,
        matches@.len() == records@.len(),
        call_ensures(SshClient::push, (client, records), sent),
        call_ensures(serve, (server, ServeEvent::Received { request: sent.1->Some_0 }), asked),
        call_ensures(serve, (asked.0, ServeEvent::KeysMatched { matches }), matched),
        call_ensures(serve, (matched.0, ServeEvent::Pushed { outcome }), answered),
        call_ensures(
            SshClient::settle,
            (sent.0, Reply::Received { response: answered.1->Some_0->response }),
            settled,
        ),
    ensures
        asked.1 == Some(ServeAction::MatchKeys { key: server.key }),
        asked.0.phase == (ServePhase::Matching { records }),
        outcome is Ok ==> settled.1 == Some(Ok::<Outcome, SyncError>(Outcome::Pushed)),
        outcome matches Err(message) ==> settled.1 == Some(
            Err::<Outcome, SyncError>(SyncError::Remote { message }),
        ),
{
}

/// A client that has a server build learns that the build ran, or the words in which
/// it failed.
pub proof fn law_build_goes_through_to_the_server(
    client: SshClient,
    sent: (SshClient, Option<Request>),
    server: Server,
    build: Build,
    asked: (Server, Option<ServeAction>),
    outcome: Result<(), String>,
    answered: (Server, Option<ServeAction>),
    settled: (SshClient, Option<Result<Outcome, SyncError>>),
)
    requires
        client.phase == ClientPhase::Ready,
        server.phase is Reading,
        server.on_build == Some(build),
        call_ensures(SshClient::build_remote, (client,), sent),
        call_ensures(serve, (server, ServeEvent::Received { request: sent.1->Some_0 }), asked),
        call_ensures(serve, (asked.0, ServeEvent::Built { outcome }), answered),
        call_ensures(
            SshClient::settle,
            (sent.0, Reply::Received { response: answered.1->Some_0->response }),
            settled,
        ),
    ensures
        asked.1 == Some(ServeAction::Build { build }),
        outcome is Ok ==> settled.1 == Some(Ok::<Outcome, SyncError>(Outcome::Built)),
        outcome matches Err(message) ==> settled.1 == Some(
            Err::<Outcome, SyncError>(SyncError::Remote { message }),
        ),
{
}

} // verus!
