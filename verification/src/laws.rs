//! What holds of whole exchanges and sessions.

use vstd::prelude::*;

use crate::error::{Stage, SyncError};
use crate::record::{
    law_marked_items_are_those_at_marked_places, marked, Build, EncryptionKey, Record, RecordId,
    RecordStatus,
};
use crate::ssh_client::{phase_after, settled, Call, ClientPhase, Outcome, Reply, SshClient};
use crate::ssh_protocol::{Request, Response};
use crate::ssh_server::{
    build_answer, fetch_answer, push_answer, serves, status_answer, ServeAction, ServeEvent,
    ServePhase, Server,
};
use crate::ssh_sync::{
    attends, is_behind, syncs, Action, Event, RecordCheck, ServeRun, Step, SyncRun,
};

verus! {

/// A session of a server: each event takes it from one state to the next, with an
/// action.
pub open spec fn served(
    servers: Seq<Server>,
    events: Seq<ServeEvent>,
    actions: Seq<ServeAction>,
) -> bool {
    &&& servers.len() == events.len() + 1
    &&& actions.len() == events.len()
    &&& forall|i: int|
        0 <= i < events.len() ==> serves(
            servers[i],
            #[trigger] events[i],
            servers[i + 1],
            actions[i],
        )
}

/// How many of some events are requests that are to be answered.
pub open spec fn requests_in(events: Seq<ServeEvent>) -> nat
    decreases events.len(),
{
    if events.len() == 0 {
        0
    } else {
        let before = requests_in(events.drop_last());
        match events.last() {
            ServeEvent::Received { request } => if request is Goodbye {
                before
            } else {
                before + 1
            },
            _ => before,
        }
    }
}

/// How many of some actions send a response.
pub open spec fn responses_in(actions: Seq<ServeAction>) -> nat
    decreases actions.len(),
{
    if actions.len() == 0 {
        0
    } else if actions.last() is Write {
        responses_in(actions.drop_last()) + 1
    } else {
        responses_in(actions.drop_last())
    }
}

/// The last request among some events.
pub open spec fn last_request(events: Seq<ServeEvent>) -> Option<Request>
    decreases events.len(),
{
    if events.len() == 0 {
        None
    } else {
        match events.last() {
            ServeEvent::Received { request } => Some(request),
            _ => last_request(events.drop_last()),
        }
    }
}

/// Whether a response is of the sort that belongs to a request: a failure, or what
/// was asked for.
pub open spec fn fits(request: Request, response: Response) -> bool {
    response is Error || match request {
        Request::Status => response is Status,
        Request::Push { .. } => response is PushOk,
        Request::Fetch { .. } => response is Records,
        Request::BuildRemote => response is BuildOk,
        Request::Goodbye => false,
    }
}

/// Whether a request is the one that a call sends.
pub open spec fn sends(call: Call, request: Request) -> bool {
    match call {
        Call::Handshake | Call::Status => request is Status,
        Call::Push => request is Push,
        Call::Fetch => request is Fetch,
        Call::BuildRemote => request is BuildRemote,
    }
}

/// Whether a server is between a request and its answer.
pub open spec fn is_at_work(server: Server) -> bool {
    server.phase is Status || server.phase is Matching || server.phase is Pushing
        || server.phase is Fetching || server.phase is Building
}

/// Whether a record stands among some at a place that is marked.
pub open spec fn stands_marked(record: Record, records: Seq<Record>, marks: Seq<bool>) -> bool {
    exists|at: int| 0 <= at < records.len() && #[trigger] marks[at] && records[at] == record
}

proof fn lemma_build_stays_done(
    servers: Seq<Server>,
    events: Seq<ServeEvent>,
    actions: Seq<ServeAction>,
    i: int,
    j: int,
)
    requires
        served(servers, events, actions),
        0 <= i <= j < servers.len(),
        servers[i].on_build is None,
    ensures
        servers[j].on_build is None,
    decreases j - i,
{
    if i < j {
        lemma_build_stays_done(servers, events, actions, i, j - 1);
        assert(serves(servers[j - 1], events[j - 1], servers[j], actions[j - 1]));
    }
}

/// The build runs at most once in a session.
pub proof fn law_build_runs_at_most_once(
    servers: Seq<Server>,
    events: Seq<ServeEvent>,
    actions: Seq<ServeAction>,
    i: int,
    j: int,
)
    requires
        served(servers, events, actions),
        0 <= i < j < actions.len(),
        actions[i] is Build,
    ensures
        !(actions[j] is Build),
{
    assert(serves(servers[i], events[i], servers[i + 1], actions[i]));
    lemma_build_stays_done(servers, events, actions, i + 1, j);
    assert(serves(servers[j], events[j], servers[j + 1], actions[j]));
}

proof fn lemma_server_keeps_key_and_build(
    servers: Seq<Server>,
    events: Seq<ServeEvent>,
    actions: Seq<ServeAction>,
    i: int,
)
    requires
        served(servers, events, actions),
        0 <= i < servers.len(),
    ensures
        servers[i].key == servers[0].key,
        servers[i].on_build is None || servers[i].on_build == servers[0].on_build,
    decreases i,
{
    if i > 0 {
        lemma_server_keeps_key_and_build(servers, events, actions, i - 1);
        assert(serves(servers[i - 1], events[i - 1], servers[i], actions[i - 1]));
    }
}

/// A server holds pushed records against the key that it was started with, and the
/// build that it runs is the one that it was started with.
pub proof fn law_server_uses_the_key_and_build_it_was_given(
    servers: Seq<Server>,
    events: Seq<ServeEvent>,
    actions: Seq<ServeAction>,
    i: int,
)
    requires
        served(servers, events, actions),
        0 <= i < actions.len(),
    ensures
        actions[i] matches ServeAction::MatchKeys { key } ==> key == servers[0].key,
        actions[i] matches ServeAction::Build { build } ==> servers[0].on_build == Some(build),
{
    lemma_server_keeps_key_and_build(servers, events, actions, i);
    assert(serves(servers[i], events[i], servers[i + 1], actions[i]));
}

/// Every request but a goodbye is answered once, and nothing else is: a server
/// that is not at work on a request has sent as many responses as it has had
/// requests, and one that is, one fewer.
pub proof fn law_every_request_is_answered_once(
    servers: Seq<Server>,
    events: Seq<ServeEvent>,
    actions: Seq<ServeAction>,
)
    requires
        served(servers, events, actions),
        servers[0].phase is Reading,
    ensures
        is_at_work(servers.last()) ==> requests_in(events) == responses_in(actions) + 1,
        !is_at_work(servers.last()) ==> requests_in(events) == responses_in(actions),
    decreases events.len(),
{
    if events.len() > 0 {
        let n = events.len() - 1;
        assert forall|i: int| 0 <= i < events.drop_last().len() implies serves(
            servers.drop_last()[i],
            #[trigger] events.drop_last()[i],
            servers.drop_last()[i + 1],
            actions.drop_last()[i],
        ) by {
            assert(serves(servers[i], events[i], servers[i + 1], actions[i]));
        }
        law_every_request_is_answered_once(
            servers.drop_last(),
            events.drop_last(),
            actions.drop_last(),
        );
        assert(serves(servers[n], events[n], servers[n + 1], actions[n]));
    }
}

/// What is known of a server at work from the request that it works on.
spec fn works_on(server: Server, request: Option<Request>) -> bool {
    match server.phase {
        ServePhase::Status => request == Some(Request::Status),
        ServePhase::Matching { records } => request == Some(Request::Push { records }),
        ServePhase::Pushing => request matches Some(Request::Push { .. }),
        ServePhase::Fetching => request matches Some(Request::Fetch { .. }),
        ServePhase::Building => request == Some(Request::BuildRemote),
        _ => true,
    }
}

proof fn lemma_works_on_last_request(
    servers: Seq<Server>,
    events: Seq<ServeEvent>,
    actions: Seq<ServeAction>,
    i: int,
)
    requires
        served(servers, events, actions),
        servers[0].phase is Reading,
        0 <= i < servers.len(),
    ensures
        works_on(servers[i], last_request(events.take(i))),
    decreases i,
{
    if i > 0 {
        lemma_works_on_last_request(servers, events, actions, i - 1);
        assert(events.take(i).drop_last() =~= events.take(i - 1));
        assert(serves(servers[i - 1], events[i - 1], servers[i], actions[i - 1]));
    }
}

/// Each response belongs to the last request that came before it.
pub proof fn law_answers_fit_requests(
    servers: Seq<Server>,
    events: Seq<ServeEvent>,
    actions: Seq<ServeAction>,
    i: int,
)
    requires
        served(servers, events, actions),
        servers[0].phase is Reading,
        0 <= i < actions.len(),
        actions[i] is Write,
    ensures
        last_request(events.take(i + 1)) matches Some(request) && fits(
            request,
            actions[i]->response,
        ),
{
    lemma_works_on_last_request(servers, events, actions, i);
    assert(events.take(i + 1).drop_last() =~= events.take(i));
    assert(serves(servers[i], events[i], servers[i + 1], actions[i]));
}

/// Records that are not sealed with the server's key do not reach its store: what
/// the store is to take in are those of the last request's records that were found
/// to match, in their order.
pub proof fn law_only_matching_records_reach_the_store(
    servers: Seq<Server>,
    events: Seq<ServeEvent>,
    actions: Seq<ServeAction>,
    i: int,
)
    requires
        served(servers, events, actions),
        servers[0].phase is Reading,
        0 <= i < actions.len(),
        actions[i] is Push,
    ensures
        last_request(events.take(i)) matches Some(Request::Push { records }) && events[i] matches
            ServeEvent::KeysMatched { matches } && matches@.len() == records@.len()
            && actions[i]->Push_records@ == marked(records@, matches@),
        forall|k: int|
            0 <= k < actions[i]->Push_records@.len() ==> stands_marked(
                #[trigger] actions[i]->Push_records@[k],
                last_request(events.take(i))->Some_0->records@,
                events[i]->matches@,
            ),
{
    lemma_works_on_last_request(servers, events, actions, i);
    assert(serves(servers[i], events[i], servers[i + 1], actions[i]));
    let records = last_request(events.take(i))->Some_0->records@;
    let matches = events[i]->matches@;
    let places = law_marked_items_are_those_at_marked_places(records, matches);
    assert forall|k: int| 0 <= k < actions[i]->Push_records@.len() implies stands_marked(
        #[trigger] actions[i]->Push_records@[k],
        records,
        matches,
    ) by {
        assert(matches[places[k]] && records[places[k]] == actions[i]->Push_records@[k]);
    }
}

/// A session that is over takes nothing up any more.
pub proof fn law_stopped_server_stays_stopped(server: Server, event: ServeEvent)
    requires
        server.phase is Stopped,
    ensures
        !server.awaits(event),
{
}

/// A failure of the store or of the build is answered with what it says, and the
/// session goes on with the next request.
pub proof fn law_failure_is_answered(
    before: Server,
    event: ServeEvent,
    after: Server,
    action: ServeAction,
    message: String,
)
    requires
        serves(before, event, after, action),
        event == (ServeEvent::StatusRead { status: Err(message) }) || event == (
        ServeEvent::Pushed { outcome: Err(message) }) || event == (ServeEvent::Fetched {
            records: Err(message),
        }) || event == (ServeEvent::Built { outcome: Err(message) }),
    ensures
        action == (ServeAction::Write { response: Response::Error { message } }),
        forall|next: Server, then: ServeAction| #[trigger]
            serves(after, ServeEvent::Written, next, then) ==> next.phase is Reading && then
                == ServeAction::Read,
{
}

/// One turn of a client that is connected or about to be.
pub enum Turn {
    /// It sends a request.
    Ask(Call),
    /// It is told what became of a request.
    Settle(Reply),
    /// It takes leave.
    Close,
}

/// How a turn takes a client from one state to the next.
pub open spec fn turns(before: SshClient, turn: Turn, after: SshClient) -> bool {
    match turn {
        Turn::Ask(call) => call != Call::Handshake && before.is_ready() && after.waits_for(call),
        Turn::Settle(reply) => before.awaits(reply) && after.phase == phase_after(
            before.phase->Waiting_0,
            reply,
        ),
        Turn::Close => before.is_ready() && after.phase == ClientPhase::Closed,
    }
}

/// A client asks one thing at a time: after a request, the next turn settles it and
/// leaves the client ready, however it was settled.
pub proof fn law_one_request_at_a_time(
    asking: SshClient,
    call: Call,
    waiting: SshClient,
    turn: Turn,
    after: SshClient,
)
    requires
        turns(asking, Turn::Ask(call), waiting),
        turns(waiting, turn, after),
    ensures
        turn is Settle,
        after.is_ready(),
{
}

/// A client whose remote did not answer its handshake as it should asks nothing.
pub proof fn law_failed_handshake_leaves_no_session(
    before: SshClient,
    reply: Reply,
    after: SshClient,
    turn: Turn,
    later: SshClient,
)
    requires
        before.waits_for(Call::Handshake),
        turns(before, Turn::Settle(reply), after),
        settled(Call::Handshake, reply) is Err,
    ensures
        !turns(after, turn, later),
{
}

/// A call gets what the store at the other end gave, and a failure there in its
/// own words.
pub proof fn law_call_gets_what_the_store_gave(
    status: Result<RecordStatus, String>,
    pushed: Result<(), String>,
    records: Result<Vec<Record>, String>,
    built: Result<(), String>,
)
    ensures
        settled(Call::Status, Reply::Received { response: status_answer(status) }) == (match status {
            Ok(status) => Ok::<Outcome, SyncError>(Outcome::Status { status }),
            Err(message) => Err(SyncError::Remote { message }),
        }),
        settled(Call::Push, Reply::Received { response: push_answer(pushed) }) == (match pushed {
            Ok(()) => Ok::<Outcome, SyncError>(Outcome::Pushed),
            Err(message) => Err(SyncError::Remote { message }),
        }),
        settled(Call::Fetch, Reply::Received { response: fetch_answer(records) }) == (
        match records {
            Ok(records) => Ok::<Outcome, SyncError>(Outcome::Records { records }),
            Err(message) => Err(SyncError::Remote { message }),
        }),
        settled(Call::BuildRemote, Reply::Received { response: build_answer(built) }) == (
        match built {
            Ok(()) => Ok::<Outcome, SyncError>(Outcome::Built),
            Err(message) => Err(SyncError::Remote { message }),
        }),
{
}

/// A client understands what a server answers: a call whose request got an answer
/// that fits it succeeds, unless the remote failed, and then says so.
pub proof fn law_fitting_answers_are_understood(call: Call, request: Request, response: Response)
    requires
        sends(call, request),
        fits(request, response),
    ensures
        !(response is Error) ==> settled(call, Reply::Received { response }) is Ok,
        response matches Response::Error { message } ==> settled(
            call,
            Reply::Received { response },
        ) == Err::<Outcome, SyncError>(
            if call == Call::Handshake {
                SyncError::Context {
                    stage: Stage::Handshake,
                    source: Box::new(SyncError::Remote { message }),
                }
            } else {
                SyncError::Remote { message }
            },
        ),
{
}

/// A synchronisation: each event takes it from one state to the next, with a step.
pub open spec fn synced(runs: Seq<SyncRun>, events: Seq<Event>, steps: Seq<Step>) -> bool {
    &&& runs.len() == events.len() + 1
    &&& steps.len() == events.len()
    &&& forall|i: int|
        0 <= i < events.len() ==> syncs(runs[i], #[trigger] events[i], runs[i + 1], steps[i])
}

/// What the looks into records among some events showed.
pub open spec fn checks_in(events: Seq<Event>) -> Seq<RecordCheck>
    decreases events.len(),
{
    if events.len() == 0 {
        Seq::empty()
    } else {
        let before = checks_in(events.drop_last());
        match events.last() {
            Event::Checked { check } => before.push(check),
            _ => before,
        }
    }
}

/// The records that some steps have deleted.
pub open spec fn deleted_in(steps: Seq<Step>) -> Seq<RecordId>
    decreases steps.len(),
{
    if steps.len() == 0 {
        Seq::empty()
    } else {
        let before = deleted_in(steps.drop_last());
        match steps.last().action {
            Action::DeleteRecord { id } => before.push(id),
            _ => before,
        }
    }
}

/// Which of some looks showed a certain thing.
pub open spec fn showing(checks: Seq<RecordCheck>, what: RecordCheck) -> Seq<bool> {
    Seq::new(checks.len(), |i: int| checks[i] == what)
}

/// The records of which a look showed a certain thing.
pub open spec fn found(
    records: Seq<RecordId>,
    checks: Seq<RecordCheck>,
    what: RecordCheck,
) -> Seq<RecordId> {
    marked(records.take(checks.len() as int), showing(checks, what))
}

proof fn lemma_found_grows(
    records: Seq<RecordId>,
    checks: Seq<RecordCheck>,
    check: RecordCheck,
    what: RecordCheck,
)
    requires
        checks.len() < records.len(),
    ensures
        found(records, checks.push(check), what) == if check == what {
            found(records, checks, what).push(records[checks.len() as int])
        } else {
            found(records, checks, what)
        },
{
    let more = checks.push(check);
    assert(records.take(more.len() as int).drop_last() =~= records.take(checks.len() as int));
    assert(showing(more, what).drop_last() =~= showing(checks, what));
}

/// Where a synchronisation stands with the records that it downloaded first.
spec fn is_going_through(
    run: SyncRun,
    downloaded: Seq<RecordId>,
    checks: Seq<RecordCheck>,
    deleted: Seq<RecordId>,
) -> bool {
    match run {
        SyncRun::Checking { tally, .. } | SyncRun::Deleting { tally, .. } => {
            &&& tally@.downloaded == downloaded
            &&& tally@.next == checks.len() <= downloaded.len()
            &&& tally@.kept == found(downloaded, checks, RecordCheck::Matching)
            &&& tally@.foreign == found(downloaded, checks, RecordCheck::Foreign)
            &&& deleted == tally@.foreign
        },
        SyncRun::BuildingRemote { kept, .. } => {
            &&& checks.len() == downloaded.len()
            &&& kept@ == found(downloaded, checks, RecordCheck::Matching)
            &&& deleted == found(downloaded, checks, RecordCheck::Foreign)
        },
        SyncRun::LoadingKey { .. } | SyncRun::Connecting { .. } | SyncRun::Syncing { .. } => false,
        _ => true,
    }
}

proof fn lemma_goes_through(runs: Seq<SyncRun>, events: Seq<Event>, steps: Seq<Step>, i: int)
    requires
        synced(runs, events, steps),
        runs[0] is Syncing,
        events.len() > 0,
        events[0] is Synced,
        1 <= i < runs.len(),
    ensures
        is_going_through(
            runs[i],
            events[0]->downloaded@,
            checks_in(events.take(i)),
            deleted_in(steps.take(i)),
        ),
    decreases i,
{
    let downloaded = events[0]->downloaded@;
    let before = events.take(i - 1);
    assert(events.take(i).drop_last() =~= before);
    assert(steps.take(i).drop_last() =~= steps.take(i - 1));
    assert(syncs(runs[i - 1], events[i - 1], runs[i], steps[i - 1]));
    if i == 1 {
        assert(before =~= Seq::empty());
        assert(steps.take(0) =~= Seq::empty());
        assert(checks_in(before) =~= Seq::empty());
        assert(deleted_in(steps.take(0)) =~= Seq::empty());
        assert(downloaded.take(0) =~= Seq::empty());
    } else {
        lemma_goes_through(runs, events, steps, i - 1);
        if let Event::Checked { check } = events[i - 1] {
            let checks = checks_in(before);
            assert(checks_in(events.take(i)) == checks.push(check));
            lemma_found_grows(downloaded, checks, check, RecordCheck::Matching);
            lemma_found_grows(downloaded, checks, check, RecordCheck::Foreign);
        } else {
            assert(checks_in(events.take(i)) == checks_in(before));
        }
    }
}

/// Downloaded records that are sealed with another key do not stay: by the time
/// that the records of a first exchange are to be worked in, each has been looked
/// into, those kept are the ones sealed with the key of this machine, and those
/// deleted are the ones sealed with another, both in the order of the download.
pub proof fn law_only_matching_records_are_kept(
    runs: Seq<SyncRun>,
    events: Seq<Event>,
    steps: Seq<Step>,
    i: int,
)
    requires
        synced(runs, events, steps),
        runs[0] is Syncing,
        0 <= i < events.len(),
        runs[i] is BuildingRemote,
        events[i] is RemoteBuilt,
    ensures
        events[0] is Synced,
        ({
            let downloaded = events[0]->downloaded@;
            let checks = checks_in(events.take(i));
            &&& checks.len() == downloaded.len()
            &&& steps[i].action matches Action::BuildLocal { build: Build { downloaded: Some(records) } }
                && records@ == found(
                downloaded,
                checks,
                RecordCheck::Matching,
            )
            &&& deleted_in(steps.take(i)) == found(downloaded, checks, RecordCheck::Foreign)
        }),
{
    assert(syncs(runs[0], events[0], runs[1], steps[0]));
    if !(events[0] is Synced) {
        lemma_finished_is_the_end(runs, events, steps, 1, i);
    }
    lemma_goes_through(runs, events, steps, i);
    assert(syncs(runs[i], events[i], runs[i + 1], steps[i]));
}

proof fn lemma_finished_is_the_end(
    runs: Seq<SyncRun>,
    events: Seq<Event>,
    steps: Seq<Step>,
    i: int,
    j: int,
)
    requires
        synced(runs, events, steps),
        0 <= i < runs.len(),
        runs[i] is Finished,
        0 <= j < runs.len(),
    ensures
        j <= i,
{
    if j > i {
        assert(syncs(runs[i], events[i], runs[i + 1], steps[i]));
    }
}

/// How far a synchronisation is from its end: the stages that are left, and within
/// the look into the records, what is left of that.
pub open spec fn left(run: SyncRun) -> (nat, nat) {
    match run {
        SyncRun::LoadingKey { .. } => (13, 0),
        SyncRun::Connecting { .. } => (12, 0),
        SyncRun::Syncing { .. } => (11, 0),
        SyncRun::Checking { tally, .. } => (10, (2 * (tally@.downloaded.len() - tally@.next)) as nat),
        SyncRun::Deleting { tally, .. } => (
            10,
            (2 * (tally@.downloaded.len() - tally@.next) + 1) as nat,
        ),
        SyncRun::BuildingRemote { .. } => (9, 0),
        SyncRun::BuildingLocal { .. } => (8, 0),
        SyncRun::LoadingHostId { .. } => (7, 0),
        SyncRun::CountingHistory { .. } => (6, 0),
        SyncRun::CountingStore { .. } => (5, 0),
        SyncRun::InitializingStore => (4, 0),
        SyncRun::Resyncing => (3, 0),
        SyncRun::Rebuilding { .. } => (2, 0),
        SyncRun::Closing => (1, 1),
        SyncRun::CountingItems => (1, 0),
        SyncRun::Finished => (0, 0),
    }
}

/// Whether less is left in one case than in another.
pub open spec fn is_less(a: (nat, nat), b: (nat, nat)) -> bool {
    a.0 < b.0 || (a.0 == b.0 && a.1 < b.1)
}

/// Whether the place in the tally of a synchronisation is one of its records, or
/// the end of them.
pub open spec fn is_in_bounds(run: SyncRun) -> bool {
    match run {
        SyncRun::Checking { tally, .. } => 0 <= tally@.next <= tally@.downloaded.len(),
        SyncRun::Deleting { tally, .. } => 0 <= tally@.next <= tally@.downloaded.len(),
        _ => true,
    }
}

/// A synchronisation never goes back: whatever it is told, less is left afterwards,
/// so that it comes to its end, and the place in its tally stays one.
pub proof fn law_synchronisation_moves_forward(
    before: SyncRun,
    event: Event,
    after: SyncRun,
    step: Step,
)
    requires
        syncs(before, event, after, step),
        is_in_bounds(before),
    ensures
        is_less(left(after), left(before)),
        is_in_bounds(after),
{
}

proof fn lemma_moves_forward(
    runs: Seq<SyncRun>,
    events: Seq<Event>,
    steps: Seq<Step>,
    i: int,
    j: int,
)
    requires
        synced(runs, events, steps),
        0 <= i < j < runs.len(),
        is_in_bounds(runs[i]),
    ensures
        is_in_bounds(runs[j]),
        is_less(left(runs[j]), left(runs[i])),
    decreases j - i,
{
    assert(syncs(runs[j - 1], events[j - 1], runs[j], steps[j - 1]));
    if i + 1 < j {
        lemma_moves_forward(runs, events, steps, i, j - 1);
    }
    law_synchronisation_moves_forward(runs[j - 1], events[j - 1], runs[j], steps[j - 1]);
}

/// The history is written into the store at most once in a synchronisation.
pub proof fn law_store_is_initialized_at_most_once(
    runs: Seq<SyncRun>,
    events: Seq<Event>,
    steps: Seq<Step>,
    i: int,
    j: int,
)
    requires
        synced(runs, events, steps),
        is_in_bounds(runs[0]),
        0 <= i < j < steps.len(),
        steps[i].action is InitStore,
    ensures
        !(steps[j].action is InitStore),
{
    assert(syncs(runs[i], events[i], runs[i + 1], steps[i]));
    assert(syncs(runs[j], events[j], runs[j + 1], steps[j]));
    if i > 0 {
        lemma_moves_forward(runs, events, steps, 0, i);
    }
    lemma_moves_forward(runs, events, steps, i, j);
}

/// A failure ends a synchronisation, with the error and the stage in which it was
/// met, and nothing follows an end.
pub proof fn law_failure_ends_synchronisation(
    before: SyncRun,
    error: SyncError,
    after: SyncRun,
    step: Step,
    event: Event,
)
    requires
        syncs(before, Event::Failed { error }, after, step),
    ensures
        step.action == (Action::Fail { error: before.failure(error) }),
        !after.awaits(event),
{
}

/// A synchronisation that ends well has taken leave of its remote.
pub proof fn law_synchronisation_ends_with_leave_taken(
    runs: Seq<SyncRun>,
    events: Seq<Event>,
    steps: Seq<Step>,
    i: int,
)
    requires
        synced(runs, events, steps),
        runs[0] is LoadingKey,
        0 <= i < steps.len(),
        steps[i].action is Finish,
    ensures
        i > 0,
        events[i - 1] is Closed,
{
    assert(syncs(runs[i], events[i], runs[i + 1], steps[i]));
    assert(syncs(runs[i - 1], events[i - 1], runs[i], steps[i - 1]));
}

/// A service: each event takes it from one state to the next, with a step.
pub open spec fn attended(runs: Seq<ServeRun>, events: Seq<Event>, steps: Seq<Step>) -> bool {
    &&& runs.len() == events.len() + 1
    &&& steps.len() == events.len()
    &&& forall|i: int|
        0 <= i < events.len() ==> attends(runs[i], #[trigger] events[i], runs[i + 1], steps[i])
}

/// No client is served before the store holds the history: either the store was
/// found to hold as many records as the database has entries, or the history has
/// just been written into it.
pub proof fn law_history_is_stored_before_serving(
    runs: Seq<ServeRun>,
    events: Seq<Event>,
    steps: Seq<Step>,
    i: int,
)
    requires
        attended(runs, events, steps),
        runs[0] is LoadingKey,
        0 <= i < steps.len(),
        steps[i].action is Serve,
    ensures
        events[i] is StoreInitialized || (i > 0 && events[i - 1] is HistoryCounted
            && events[i] is StoreCounted && !is_behind(
            events[i]->records,
            events[i - 1]->entries,
        )),
{
    assert(attends(runs[i], events[i], runs[i + 1], steps[i]));
    assert(attends(runs[i - 1], events[i - 1], runs[i], steps[i - 1]));
}

/// The key that a synchronisation works with, once it has one and while it needs it.
pub open spec fn sync_key(run: SyncRun) -> Option<EncryptionKey> {
    match run {
        SyncRun::Connecting { key, .. } => Some(key),
        SyncRun::Syncing { key } => Some(key),
        SyncRun::Checking { key, .. } => Some(key),
        SyncRun::Deleting { key, .. } => Some(key),
        SyncRun::BuildingRemote { key, .. } => Some(key),
        SyncRun::BuildingLocal { key } => Some(key),
        SyncRun::LoadingHostId { key } => Some(key),
        SyncRun::CountingHistory { key, .. } => Some(key),
        SyncRun::CountingStore { key, .. } => Some(key),
        _ => None,
    }
}

/// The key that a service works with, once it has one and while it needs it.
pub open spec fn service_key(run: ServeRun) -> Option<EncryptionKey> {
    match run {
        ServeRun::LoadingHostId { key } => Some(key),
        ServeRun::CountingHistory { key, .. } => Some(key),
        ServeRun::CountingStore { key, .. } => Some(key),
        ServeRun::InitializingStore { key } => Some(key),
        _ => None,
    }
}

proof fn lemma_sync_keeps_its_key(runs: Seq<SyncRun>, events: Seq<Event>, steps: Seq<Step>, i: int)
    requires
        synced(runs, events, steps),
        runs[0] is LoadingKey,
        1 <= i < runs.len(),
    ensures
        !(runs[i] is LoadingKey),
        sync_key(runs[i]) is Some ==> events[0] == (Event::KeyLoaded {
            key: sync_key(runs[i])->Some_0,
        }),
    decreases i,
{
    assert(syncs(runs[i - 1], events[i - 1], runs[i], steps[i - 1]));
    if i > 1 {
        lemma_sync_keeps_its_key(runs, events, steps, i - 1);
    }
}

/// Downloaded records are held against the key that was loaded, and the history is
/// written into the store with it, under the identity that was loaded.
pub proof fn law_synchronisation_uses_the_key_it_loaded(
    runs: Seq<SyncRun>,
    events: Seq<Event>,
    steps: Seq<Step>,
    i: int,
)
    requires
        synced(runs, events, steps),
        runs[0] is LoadingKey,
        0 <= i < steps.len(),
    ensures
        steps[i].action matches Action::CheckRecord { id, key } ==> events[0]
            == (Event::KeyLoaded { key }),
        steps[i].action matches Action::InitStore { host, key } ==> events[0]
            == (Event::KeyLoaded { key }) && i >= 2 && events[i - 2] == (Event::HostIdLoaded {
            host,
        }),
{
    assert(syncs(runs[i], events[i], runs[i + 1], steps[i]));
    if i > 0 {
        lemma_sync_keeps_its_key(runs, events, steps, i);
        assert(syncs(runs[i - 1], events[i - 1], runs[i], steps[i - 1]));
        if i > 1 {
            lemma_sync_keeps_its_key(runs, events, steps, i - 1);
            assert(syncs(runs[i - 2], events[i - 2], runs[i - 1], steps[i - 2]));
        }
    }
}

proof fn lemma_service_keeps_its_key(
    runs: Seq<ServeRun>,
    events: Seq<Event>,
    steps: Seq<Step>,
    i: int,
)
    requires
        attended(runs, events, steps),
        runs[0] is LoadingKey,
        1 <= i < runs.len(),
    ensures
        !(runs[i] is LoadingKey),
        service_key(runs[i]) is Some ==> events[0] == (Event::KeyLoaded {
            key: service_key(runs[i])->Some_0,
        }),
    decreases i,
{
    assert(attends(runs[i - 1], events[i - 1], runs[i], steps[i - 1]));
    if i > 1 {
        lemma_service_keeps_its_key(runs, events, steps, i - 1);
    }
}

/// A service serves with the key that it loaded: whatever its server holds pushed
/// records against is that key, and the build that it runs for its client works in
/// all that the store holds.
pub proof fn law_service_serves_with_the_key_it_loaded(
    runs: Seq<ServeRun>,
    events: Seq<Event>,
    steps: Seq<Step>,
    i: int,
    servers: Seq<Server>,
    serve_events: Seq<ServeEvent>,
    actions: Seq<ServeAction>,
    j: int,
)
    requires
        attended(runs, events, steps),
        runs[0] is LoadingKey,
        0 <= i < steps.len(),
        steps[i].action is Serve,
        served(servers, serve_events, actions),
        servers[0] == steps[i].action->server,
        0 <= j < actions.len(),
    ensures
        actions[j] matches ServeAction::MatchKeys { key } ==> events[0] == (Event::KeyLoaded {
            key,
        }),
        actions[j] matches ServeAction::Build { build } ==> build == (Build { downloaded: None }),
{
    assert(attends(runs[i], events[i], runs[i + 1], steps[i]));
    lemma_service_keeps_its_key(runs, events, steps, i);
    law_server_uses_the_key_and_build_it_was_given(servers, serve_events, actions, j);
}

} // verus!
