//! What the sessions promise: what they ask for, decide and print, in the words of
//! what they are told.

use vstd::prelude::*;

use crate::error::{Stage, SyncError};
use crate::laws::{checks_in, found, showing, synced};
use crate::record::{Build, EncryptionKey, HostId, RecordId};
use crate::ssh_sync::{
    attends, syncs, Action, Cmd, Event, RecordCheck, ServeRun, Session, Step, SyncRun,
};
use crate::text::{decimal_text, texts};

verus! {

/// Whether a step prints these lines, one after the other, and no others.
pub open spec fn prints(step: Step, lines: Seq<Seq<char>>) -> bool {
    &&& step.lines@.len() == lines.len()
    &&& forall|i: int| 0 <= i < lines.len() ==> (#[trigger] step.lines@[i])@ == lines[i]
}

/// Whether a session went on, with these lines and this action.
pub open spec fn went_on<R>(r: (R, Option<Step>), lines: Seq<Seq<char>>, action: Action) -> bool {
    &&& r.1 is Some
    &&& prints(r.1->Some_0, lines)
    &&& r.1->Some_0.action == action
}

/// Whether a session went on to count the records of a tag in the store, without a
/// word.
pub open spec fn went_on_to_count<R>(r: (R, Option<Step>), tag: Seq<char>) -> bool {
    &&& r.1 is Some
    &&& prints(r.1->Some_0, Seq::empty())
    &&& r.1->Some_0.action is CountStore
    &&& r.1->Some_0.action->tag@ == tag
}

/// Whether an event is an outcome of an action: what it was to bring, or that it
/// failed. The look into a record and its deletion do not fail, and an end has no
/// outcome.
pub open spec fn is_outcome(action: Action, event: Event) -> bool {
    match action {
        Action::LoadKey => event is KeyLoaded || event is Failed,
        Action::Connect { .. } => event is Connected || event is Failed,
        Action::ConnectExec { .. } => event is Connected || event is Failed,
        Action::Sync => event is Synced || event is Failed,
        Action::CheckRecord { .. } => event is Checked,
        Action::DeleteRecord { .. } => event is Deleted,
        Action::BuildRemote => event is RemoteBuilt || event is Failed,
        Action::BuildLocal { .. } => event is LocalBuilt || event is Failed,
        Action::LoadHostId => event is HostIdLoaded || event is Failed,
        Action::CountHistory { .. } => event is HistoryCounted || event is Failed,
        Action::CountStore { .. } => event is StoreCounted || event is Failed,
        Action::InitStore { .. } => event is StoreInitialized || event is Failed,
        Action::Serve { .. } => event is Served || event is Failed,
        Action::Close => event is Closed || event is Failed,
        Action::Finish | Action::Fail { .. } => false,
    }
}

proof fn lemma_step_is_printed<R>(r: (R, Option<Step>))
    ensures
        r.1 is Some ==> prints(r.1->Some_0, texts(r.1->Some_0.lines@)),
{
    if r.1 is Some {
        lemma_texts_are_printed(r.1->Some_0, texts(r.1->Some_0.lines@));
    }
}

proof fn lemma_texts_are_printed(step: Step, lines: Seq<Seq<char>>)
    requires
        texts(step.lines@) == lines,
    ensures
        prints(step, lines),
{
    assert forall|i: int| 0 <= i < lines.len() implies (#[trigger] step.lines@[i])@ == lines[i] by {
        assert(texts(step.lines@)[i] == step.lines@[i]@);
    }
}

/// A step of a synchronisation is one of those that the laws of synchronisations
/// speak of, and an event that is not awaited is refused and changes nothing.
pub proof fn law_step_of_a_synchronisation(
    run: SyncRun,
    event: Event,
    r: (SyncRun, Option<Step>),
)
    requires
        call_ensures(SyncRun::step, (run, event), r),
    ensures
        r.1 is Some <==> run.awaits(event),
        r.1 matches Some(step) ==> syncs(run, event, r.0, step),
        r.1 is None ==> r.0 == run,
{
}

/// A step of a service is one of those that the laws of services speak of, and an
/// event that is not awaited is refused and changes nothing.
pub proof fn law_step_of_a_service(run: ServeRun, event: Event, r: (ServeRun, Option<Step>))
    requires
        call_ensures(ServeRun::step, (run, event), r),
    ensures
        r.1 is Some <==> run.awaits(event),
        r.1 matches Some(step) ==> attends(run, event, r.0, step),
        r.1 is None ==> r.0 == run,
{
}

/// A session goes on as the synchronisation or the service that it is, and stays
/// that.
pub proof fn law_session_goes_on_as_what_it_is(
    session: Session,
    event: Event,
    r: (Session, Option<Step>),
)
    requires
        call_ensures(Session::step, (session, event), r),
    ensures
        r.1 is None ==> r.0 == session,
        session matches Session::Sync(run) ==> {
            &&& r.0 is Sync
            &&& r.1 is Some <==> run.awaits(event)
            &&& r.1 matches Some(step) ==> syncs(run, event, r.0->Sync_0, step)
        },
        session matches Session::Serve(run) ==> {
            &&& r.0 is Serve
            &&& r.1 is Some <==> run.awaits(event)
            &&& r.1 matches Some(step) ==> attends(run, event, r.0->Serve_0, step)
        },
{
}

/// A command starts the session that it names, with what it was given, and either
/// begins by loading the key.
pub proof fn law_command_starts_its_session(cmd: Cmd, r: (Session, Step), event: Event)
    requires
        call_ensures(Cmd::run, (cmd,), r),
    ensures
        cmd matches Cmd::Run { destination, command } ==> r.0 == Session::Sync(
            SyncRun::LoadingKey { destination, command },
        ),
        cmd is Serve ==> r.0 == Session::Serve(ServeRun::LoadingKey),
        r.1.action == Action::LoadKey,
        prints(r.1, Seq::empty()),
        r.0.awaits(event) <==> is_outcome(r.1.action, event),
{
    lemma_texts_are_printed(r.1, Seq::empty());
}

/// A synchronisation waits for the outcomes of what it has asked for and for nothing
/// else: it neither gets stuck nor takes one thing for another, and it is over when
/// it asks for nothing.
pub proof fn law_synchronisation_waits_for_what_it_asked(
    before: SyncRun,
    event: Event,
    after: SyncRun,
    step: Step,
    next: Event,
)
    requires
        syncs(before, event, after, step),
    ensures
        after.awaits(next) <==> is_outcome(step.action, next),
{
}

/// A service waits for the outcomes of what it has asked for and for nothing else.
pub proof fn law_service_waits_for_what_it_asked(
    before: ServeRun,
    event: Event,
    after: ServeRun,
    step: Step,
    next: Event,
)
    requires
        attends(before, event, after, step),
    ensures
        after.awaits(next) <==> is_outcome(step.action, next),
{
}

/// Once it has the key, a synchronisation says where it connects to and does so, in
/// the one way that it was given. With none or both it ends, having said nothing.
pub proof fn law_synchronisation_connects_in_the_way_given(
    destination: Option<String>,
    command: Option<String>,
    key: EncryptionKey,
    r: (SyncRun, Option<Step>),
)
    requires
        call_ensures(
            SyncRun::step,
            (SyncRun::LoadingKey { destination, command }, Event::KeyLoaded { key }),
            r,
        ),
    ensures
        destination is Some && command is None ==> went_on(
            r,
            seq!["Connecting to "@ + destination->Some_0@ + " over SSH..."@],
            Action::Connect { destination: destination->Some_0 },
        ),
        destination is None && command is Some ==> went_on(
            r,
            seq!["Running: "@ + command->Some_0@],
            Action::ConnectExec { command: command->Some_0 },
        ),
        (destination is Some <==> command is Some) ==> went_on(
            r,
            Seq::empty(),
            Action::Fail { error: SyncError::NoTarget },
        ),
{
    lemma_step_is_printed(r);
}

/// Once it is connected, a synchronisation brings the stores together.
pub proof fn law_synchronisation_exchanges_once_connected(
    start: SyncRun,
    event: Event,
    asked: (SyncRun, Option<Step>),
    r: (SyncRun, Option<Step>),
)
    requires
        call_ensures(SyncRun::step, (start, event), asked),
        asked.1 is Some,
        asked.1->Some_0.action is Connect || asked.1->Some_0.action is ConnectExec,
        call_ensures(SyncRun::step, (asked.0, Event::Connected), r),
    ensures
        went_on(r, Seq::empty(), Action::Sync),
        r.0 is Syncing,
{
    lemma_step_is_printed(r);
}

/// The records into which some steps have asked to look.
pub open spec fn asked_in(steps: Seq<Step>) -> Seq<RecordId>
    decreases steps.len(),
{
    if steps.len() == 0 {
        Seq::empty()
    } else {
        let before = asked_in(steps.drop_last());
        match steps.last().action {
            Action::CheckRecord { id, .. } => before.push(id),
            _ => before,
        }
    }
}

/// How many of some looks showed a certain thing.
pub open spec fn count_of(checks: Seq<RecordCheck>, what: RecordCheck) -> nat
    decreases checks.len(),
{
    if checks.len() == 0 {
        0
    } else if checks.last() == what {
        count_of(checks.drop_last(), what) + 1
    } else {
        count_of(checks.drop_last(), what)
    }
}

/// Where a synchronisation stands in going through what the first exchange brought.
spec fn is_at(
    run: SyncRun,
    uploaded: i64,
    downloaded: Seq<RecordId>,
    checks: Seq<RecordCheck>,
    asked: Seq<RecordId>,
) -> bool {
    match run {
        SyncRun::Checking { tally, .. } => {
            &&& tally.uploaded == uploaded
            &&& tally.downloaded@ == downloaded
            &&& tally.next == checks.len() < downloaded.len()
            &&& tally.kept@.len() == count_of(checks, RecordCheck::Matching)
            &&& tally.foreign@.len() == count_of(checks, RecordCheck::Foreign)
            &&& asked == downloaded.take(checks.len() as int + 1)
        },
        SyncRun::Deleting { tally, .. } => {
            &&& tally.uploaded == uploaded
            &&& tally.downloaded@ == downloaded
            &&& tally.next == checks.len() <= downloaded.len()
            &&& tally.kept@.len() == count_of(checks, RecordCheck::Matching)
            &&& tally.foreign@.len() == count_of(checks, RecordCheck::Foreign)
            &&& asked == downloaded.take(checks.len() as int)
        },
        SyncRun::BuildingRemote { kept, .. } => {
            &&& checks.len() == downloaded.len()
            &&& kept@.len() == count_of(checks, RecordCheck::Matching)
            &&& asked == downloaded
        },
        SyncRun::LoadingKey { .. } | SyncRun::Connecting { .. } | SyncRun::Syncing { .. } => false,
        _ => true,
    }
}

proof fn lemma_is_at(runs: Seq<SyncRun>, events: Seq<Event>, steps: Seq<Step>, i: int)
    requires
        synced(runs, events, steps),
        runs[0] is Syncing,
        events.len() > 0,
        events[0] is Synced,
        1 <= i < runs.len(),
    ensures
        is_at(
            runs[i],
            events[0]->uploaded,
            events[0]->downloaded@,
            checks_in(events.take(i)),
            asked_in(steps.take(i)),
        ),
    decreases i,
{
    let downloaded = events[0]->downloaded@;
    let before = events.take(i - 1);
    let checks = checks_in(before);
    let asked = asked_in(steps.take(i - 1));
    assert(events.take(i).drop_last() =~= before);
    assert(steps.take(i).drop_last() =~= steps.take(i - 1));
    assert(syncs(runs[i - 1], events[i - 1], runs[i], steps[i - 1]));
    if i == 1 {
        assert(before =~= Seq::empty());
        assert(steps.take(0) =~= Seq::empty());
        assert(checks =~= Seq::empty());
        assert(asked =~= Seq::empty());
        assert(downloaded.len() > 0 ==> asked.push(downloaded[0]) =~= downloaded.take(1));
        assert(downloaded.len() == 0 ==> asked =~= downloaded);
    } else {
        lemma_is_at(runs, events, steps, i - 1);
        if let Event::Checked { check } = events[i - 1] {
            assert(checks.push(check).drop_last() =~= checks);
        }
        let now = checks_in(events.take(i));
        assert(now.len() == downloaded.len() ==> downloaded.take(now.len() as int) =~= downloaded);
        assert(now.len() < downloaded.len() ==> downloaded.take(now.len() as int).push(
            downloaded[now.len() as int],
        ) =~= downloaded.take(now.len() as int + 1));
    }
}

/// Each downloaded record of the first exchange is looked into, in the order of the
/// download: the looks that have been answered were into the first records of the
/// download, and a look that is under way is into the one that follows them.
pub proof fn law_records_are_looked_into_in_order(
    runs: Seq<SyncRun>,
    events: Seq<Event>,
    steps: Seq<Step>,
    i: int,
)
    requires
        synced(runs, events, steps),
        runs[0] is Syncing,
        events.len() > 0,
        events[0] is Synced,
        1 <= i < runs.len(),
        runs[i] is Checking || runs[i] is Deleting || runs[i] is BuildingRemote,
    ensures
        ({
            let downloaded = events[0]->downloaded@;
            let answered = checks_in(events.take(i)).len();
            let asked = asked_in(steps.take(i));
            &&& answered <= downloaded.len()
            &&& asked.take(answered as int) == downloaded.take(answered as int)
            &&& runs[i] is Checking ==> asked.len() == answered + 1 && asked.last()
                == downloaded[answered as int]
            &&& !(runs[i] is Checking) ==> asked.len() == answered
            &&& runs[i] is BuildingRemote ==> asked == downloaded
        }),
{
    lemma_is_at(runs, events, steps, i);
    let downloaded = events[0]->downloaded@;
    let answered = checks_in(events.take(i)).len();
    assert(asked_in(steps.take(i)).take(answered as int) =~= downloaded.take(answered as int));
}

/// What a synchronisation does while it goes through the records of the first
/// exchange is fixed by what it has been told: a foreign record is deleted, otherwise
/// the first record is looked into that has not been, and when there is none the
/// remote is to work its records in.
pub proof fn law_first_exchange_is_gone_through(
    runs: Seq<SyncRun>,
    events: Seq<Event>,
    steps: Seq<Step>,
    i: int,
)
    requires
        synced(runs, events, steps),
        runs[0] is Syncing,
        0 <= i < steps.len(),
        events[0] is Synced,
        i == 0 || events[i] is Checked || events[i] is Deleted,
    ensures
        ({
            let downloaded = events[0]->downloaded@;
            let answered = checks_in(events.take(i + 1)).len() as int;
            &&& events[i] == (Event::Checked { check: RecordCheck::Foreign }) ==> 0 < answered
                <= downloaded.len() && steps[i].action == (Action::DeleteRecord {
                id: downloaded[answered - 1],
            })
            &&& events[i] != (Event::Checked { check: RecordCheck::Foreign }) && answered
                < downloaded.len() ==> steps[i].action is CheckRecord
                && steps[i].action->CheckRecord_id == downloaded[answered]
            &&& events[i] != (Event::Checked { check: RecordCheck::Foreign }) && answered
                >= downloaded.len() ==> steps[i].action is BuildRemote
        }),
{
    assert(events.take(i + 1).drop_last() =~= events.take(i));
    assert(syncs(runs[i], events[i], runs[i + 1], steps[i]));
    if i > 0 {
        lemma_is_at(runs, events, steps, i);
    } else {
        assert(events.take(0) =~= Seq::empty());
        assert(checks_in(events.take(1)) =~= Seq::empty());
    }
}

/// The records that a synchronisation has so far found to be sealed with its key.
pub open spec fn kept_by(run: SyncRun) -> Seq<RecordId> {
    match run {
        SyncRun::Checking { tally, .. } => tally.kept@,
        SyncRun::Deleting { tally, .. } => tally.kept@,
        SyncRun::BuildingRemote { kept, .. } => kept@,
        _ => Seq::empty(),
    }
}

/// What a look shows decides on the record that was looked into: it is kept where it
/// matches, deleted at once where it is foreign, and passed over where the store did
/// not give it out. Nothing else changes what is kept, and the next record is held
/// against the same key.
pub proof fn law_look_decides_on_the_record_looked_into(
    start: SyncRun,
    event: Event,
    asked: (SyncRun, Option<Step>),
    id: RecordId,
    key: EncryptionKey,
    check: RecordCheck,
    r: (SyncRun, Option<Step>),
    deleted: (SyncRun, Option<Step>),
)
    requires
        call_ensures(SyncRun::step, (start, event), asked),
        asked.1 is Some,
        asked.1->Some_0.action == (Action::CheckRecord { id, key }),
        call_ensures(SyncRun::step, (asked.0, Event::Checked { check }), r),
        call_ensures(SyncRun::step, (r.0, Event::Deleted), deleted),
    ensures
        r.1 is Some,
        check == RecordCheck::Foreign ==> went_on(r, Seq::empty(), Action::DeleteRecord { id }),
        check == RecordCheck::Foreign ==> kept_by(r.0) == kept_by(asked.0),
        check == RecordCheck::Matching ==> kept_by(r.0) == kept_by(asked.0).push(id),
        check == RecordCheck::Unreadable ==> kept_by(r.0) == kept_by(asked.0),
        check != RecordCheck::Foreign ==> {
            ||| went_on(
                r,
                Seq::empty(),
                Action::CheckRecord { id: r.1->Some_0.action->CheckRecord_id, key },
            )
            ||| r.1->Some_0.action is BuildRemote
        },
        check == RecordCheck::Foreign ==> {
            &&& deleted.1 is Some
            &&& kept_by(deleted.0) == kept_by(r.0)
            &&& {
                ||| went_on(
                    deleted,
                    Seq::empty(),
                    Action::CheckRecord { id: deleted.1->Some_0.action->CheckRecord_id, key },
                )
                ||| deleted.1->Some_0.action is BuildRemote
            }
        },
{
    lemma_step_is_printed(r);
    lemma_step_is_printed(deleted);
}

/// When the records of the first exchange have been looked into, the counts are
/// reported: how many went up, and how many of those that came down matched the key,
/// which is how many are then worked in. Where some were foreign, a warning tells
/// how many, and what to do about it.
pub proof fn law_counts_are_reported(
    runs: Seq<SyncRun>,
    events: Seq<Event>,
    steps: Seq<Step>,
    i: int,
)
    requires
        synced(runs, events, steps),
        runs[0] is Syncing,
        0 <= i < steps.len(),
        steps[i].action is BuildRemote,
    ensures
        events[0] is Synced,
        ({
            let checks = checks_in(events.take(i + 1));
            let matching = count_of(checks, RecordCheck::Matching);
            let foreign = count_of(checks, RecordCheck::Foreign);
            let counts = decimal_text(events[0]->uploaded as int) + "/"@ + decimal_text(
                matching as int,
            ) + " up/down to record store"@;
            &&& checks.len() == events[0]->downloaded@.len()
            &&& kept_by(runs[i + 1]).len() == matching
            &&& i + 1 < steps.len() && events[i + 1] is RemoteBuilt ==> {
                &&& steps[i + 1].action is BuildLocal
                &&& steps[i + 1].action->build.downloaded is Some
                &&& steps[i + 1].action->build.downloaded->Some_0@.len() == matching
            }
            &&& foreign == 0 ==> prints(steps[i], seq![counts])
            &&& foreign > 0 ==> prints(
                steps[i],
                seq![
                    "Warning: skipped "@ + decimal_text(foreign as int)
                        + " records from remote encrypted with a different key."@,
                    "Both machines must share the same encryption key to sync. Run `atuin key` on one machine, then `atuin store rekey '<key>'` on the other."@,
                    counts,
                ],
            )
        }),
{
    assert(syncs(runs[0], events[0], runs[1], steps[0]));
    if !(events[0] is Synced) {
        assert(runs[1] is Finished);
        if i > 0 {
            assert(syncs(runs[1], events[1], runs[2], steps[1]));
        }
    }
    lemma_is_at(runs, events, steps, i + 1);
    assert(syncs(runs[i], events[i], runs[i + 1], steps[i]));
    let checks = checks_in(events.take(i + 1));
    assert(events.take(i + 1).drop_last() =~= events.take(i));
    if i > 0 {
        lemma_is_at(runs, events, steps, i);
        if let Event::Checked { check } = events[i] {
            assert(checks.drop_last() =~= checks_in(events.take(i)));
        }
    } else {
        assert(events.take(0) =~= Seq::empty());
        assert(checks =~= Seq::empty());
    }
    lemma_texts_are_printed(steps[i], texts(steps[i].lines@));
    if i + 1 < steps.len() {
        assert(syncs(runs[i + 1], events[i + 1], runs[i + 2], steps[i + 1]));
    }
}

/// What is kept in the end is as many records as looks matched, and the same holds
/// of the foreign ones that were found.
pub proof fn law_as_many_are_found_as_looks_showed_it(
    records: Seq<RecordId>,
    checks: Seq<RecordCheck>,
    what: RecordCheck,
)
    requires
        checks.len() <= records.len(),
    ensures
        found(records, checks, what).len() == count_of(checks, what),
    decreases checks.len(),
{
    if checks.len() == 0 {
        assert(records.take(0) =~= Seq::empty());
    } else {
        let fewer = checks.drop_last();
        law_as_many_are_found_as_looks_showed_it(records, fewer, what);
        assert(records.take(checks.len() as int).drop_last() =~= records.take(fewer.len() as int));
        assert(showing(checks, what).drop_last() =~= showing(fewer, what));
    }
}

/// Once the remote has worked its records in, so does this machine, with the records
/// that were kept. Then it learns its identity and counts: the entries of the history
/// database, deleted ones included, and the history records of the store.
pub proof fn law_records_are_worked_in_and_counted(
    start: SyncRun,
    event: Event,
    asked: (SyncRun, Option<Step>),
    build: (SyncRun, Option<Step>),
    kept: Vec<RecordId>,
    load: (SyncRun, Option<Step>),
    host: HostId,
    count: (SyncRun, Option<Step>),
    entries: i64,
    compare: (SyncRun, Option<Step>),
)
    requires
        call_ensures(SyncRun::step, (start, event), asked),
        asked.1 is Some,
        asked.1->Some_0.action is BuildRemote,
        asked.0 matches SyncRun::BuildingRemote { kept: k, .. } ==> kept == k,
        call_ensures(SyncRun::step, (asked.0, Event::RemoteBuilt), build),
        call_ensures(SyncRun::step, (build.0, Event::LocalBuilt), load),
        call_ensures(SyncRun::step, (load.0, Event::HostIdLoaded { host }), count),
        call_ensures(SyncRun::step, (count.0, Event::HistoryCounted { entries }), compare),
    ensures
        kept_by(asked.0) == kept@,
        went_on(
            build,
            Seq::empty(),
            Action::BuildLocal { build: Build { downloaded: Some(kept) } },
        ),
        went_on(load, Seq::empty(), Action::LoadHostId),
        went_on(count, Seq::empty(), Action::CountHistory { include_deleted: true }),
        went_on_to_count(compare, "history"@),
        compare.0 matches SyncRun::CountingStore { host: h, history, .. } && h == host && history
            == entries,
{
    lemma_step_is_printed(build);
    lemma_step_is_printed(load);
    lemma_step_is_printed(count);
    lemma_step_is_printed(compare);
}

/// The store is initialized if and only if it holds fewer history records than the
/// database has entries, and then the two numbers are told. Otherwise the session
/// closes without a word. (A count below zero is taken for the unsigned number with
/// the same bits.)
pub proof fn law_store_is_initialized_iff_it_lags(
    key: EncryptionKey,
    host: HostId,
    entries: i64,
    records: u64,
    r: (SyncRun, Option<Step>),
)
    requires
        call_ensures(
            SyncRun::step,
            (
                SyncRun::CountingStore { key, host, history: entries },
                Event::StoreCounted { records },
            ),
            r,
        ),
    ensures
        ({
            let lags = if entries >= 0 {
                records < entries
            } else {
                records < entries + 0x1_0000_0000_0000_0000
            };
            &&& lags ==> went_on(
                r,
                seq![
                    decimal_text(entries as int) + " in history index, but "@ + decimal_text(
                        records as int,
                    ) + " in history store"@,
                    "Running automatic history store init..."@,
                ],
                Action::InitStore { host, key },
            )
            &&& !lags ==> went_on(r, Seq::empty(), Action::Close)
        }),
{
    lemma_step_is_printed(r);
}

/// Once the store has been initialized, the stores are brought together again, all
/// that this brings down is worked in, the counts of it are told, and the session
/// closes.
pub proof fn law_initialized_store_is_exchanged_again(
    start: SyncRun,
    event: Event,
    asked: (SyncRun, Option<Step>),
    exchange: (SyncRun, Option<Step>),
    uploaded: i64,
    downloaded: Vec<RecordId>,
    build: (SyncRun, Option<Step>),
    close: (SyncRun, Option<Step>),
)
    requires
        call_ensures(SyncRun::step, (start, event), asked),
        asked.1 is Some,
        asked.1->Some_0.action is InitStore,
        call_ensures(SyncRun::step, (asked.0, Event::StoreInitialized), exchange),
        call_ensures(SyncRun::step, (exchange.0, Event::Synced { uploaded, downloaded }), build),
        call_ensures(SyncRun::step, (build.0, Event::LocalBuilt), close),
    ensures
        went_on(exchange, seq!["Re-running sync due to new records locally"@], Action::Sync),
        went_on(
            build,
            Seq::empty(),
            Action::BuildLocal { build: Build { downloaded: Some(downloaded) } },
        ),
        went_on(
            close,
            seq![
                decimal_text(uploaded as int) + "/"@ + decimal_text(downloaded@.len() as int)
                    + " up/down to record store"@,
            ],
            Action::Close,
        ),
{
    lemma_step_is_printed(exchange);
    lemma_step_is_printed(build);
    lemma_step_is_printed(close);
}

/// Once leave is taken, the history database is counted, deleted entries included,
/// and the session ends by telling how many it has.
pub proof fn law_synchronisation_ends_with_the_count(
    start: SyncRun,
    event: Event,
    asked: (SyncRun, Option<Step>),
    count: (SyncRun, Option<Step>),
    entries: i64,
    end: (SyncRun, Option<Step>),
)
    requires
        call_ensures(SyncRun::step, (start, event), asked),
        asked.1 is Some,
        asked.1->Some_0.action is Close,
        call_ensures(SyncRun::step, (asked.0, Event::Closed), count),
        call_ensures(SyncRun::step, (count.0, Event::HistoryCounted { entries }), end),
    ensures
        went_on(count, Seq::empty(), Action::CountHistory { include_deleted: true }),
        went_on(
            end,
            seq!["Sync complete! "@ + decimal_text(entries as int) + " items in history database"@],
            Action::Finish,
        ),
{
    lemma_step_is_printed(count);
    lemma_step_is_printed(end);
}

/// The stage whose name goes before an error of an action, where it has one.
pub open spec fn stage_of(action: Action) -> Option<Stage> {
    match action {
        Action::LoadKey => Some(Stage::LoadKey),
        Action::Connect { .. } => Some(Stage::ConnectSsh),
        Action::ConnectExec { .. } => Some(Stage::StartCommand),
        Action::BuildRemote => Some(Stage::BuildRemote),
        Action::Close => Some(Stage::Close),
        _ => None,
    }
}

/// The error with which a session ends that an action met.
pub open spec fn error_of(action: Action, error: SyncError) -> SyncError {
    match stage_of(action) {
        Some(stage) => SyncError::Context { stage, source: Box::new(error) },
        None => error,
    }
}

/// When something that a synchronisation asked for fails, it ends there with that
/// error, behind the name of what it had asked for where that has one.
pub proof fn law_failed_action_ends_synchronisation(
    start: SyncRun,
    event: Event,
    asked: (SyncRun, Option<Step>),
    error: SyncError,
    r: (SyncRun, Option<Step>),
)
    requires
        call_ensures(SyncRun::step, (start, event), asked),
        asked.1 is Some,
        is_outcome(asked.1->Some_0.action, Event::Failed { error }),
        call_ensures(SyncRun::step, (asked.0, Event::Failed { error }), r),
    ensures
        went_on(
            r,
            Seq::empty(),
            Action::Fail { error: error_of(asked.1->Some_0.action, error) },
        ),
        r.0 is Finished,
{
    lemma_step_is_printed(r);
}

/// When the key cannot be loaded, a session of either sort ends there with that
/// error, which says so.
pub proof fn law_session_needs_its_key(
    cmd: Cmd,
    started: (Session, Step),
    error: SyncError,
    r: (Session, Option<Step>),
)
    requires
        call_ensures(Cmd::run, (cmd,), started),
        call_ensures(Session::step, (started.0, Event::Failed { error }), r),
    ensures
        went_on(
            r,
            Seq::empty(),
            Action::Fail {
                error: SyncError::Context { stage: Stage::LoadKey, source: Box::new(error) },
            },
        ),
{
    lemma_step_is_printed(r);
}

/// Whether a service went on to have a client served, without a word, by a server at
/// its start, which holds pushed records against a key and has to build all that the
/// store holds.
pub open spec fn went_on_to_serve(r: (ServeRun, Option<Step>), key: EncryptionKey) -> bool {
    &&& r.1 is Some
    &&& prints(r.1->Some_0, Seq::empty())
    &&& r.1->Some_0.action is Serve
    &&& r.1->Some_0.action->server.phase is Reading
    &&& r.1->Some_0.action->server.key == key
    &&& r.1->Some_0.action->server.on_build is Some
    &&& r.1->Some_0.action->server.on_build->Some_0.downloaded is None
}

/// How a service comes to serve: it loads the key and its identity, counts the
/// entries of the history database, deleted ones included, and the history records
/// of the store, and initializes the store if and only if that holds fewer. Then it
/// serves, with its key and a build of all that the store holds, and when that is
/// over so is the service. It prints nothing. (A count below zero is taken for the
/// unsigned number with the same bits.)
pub proof fn law_service_serves_once_the_store_is_filled(
    key: EncryptionKey,
    load: (ServeRun, Option<Step>),
    host: HostId,
    count: (ServeRun, Option<Step>),
    entries: i64,
    compare: (ServeRun, Option<Step>),
    records: u64,
    decision: (ServeRun, Option<Step>),
    filled: (ServeRun, Option<Step>),
)
    requires
        call_ensures(ServeRun::step, (ServeRun::LoadingKey, Event::KeyLoaded { key }), load),
        call_ensures(ServeRun::step, (load.0, Event::HostIdLoaded { host }), count),
        call_ensures(ServeRun::step, (count.0, Event::HistoryCounted { entries }), compare),
        call_ensures(ServeRun::step, (compare.0, Event::StoreCounted { records }), decision),
        call_ensures(ServeRun::step, (decision.0, Event::StoreInitialized), filled),
    ensures
        went_on(load, Seq::empty(), Action::LoadHostId),
        went_on(count, Seq::empty(), Action::CountHistory { include_deleted: true }),
        went_on_to_count(compare, "history"@),
        ({
            let lags = if entries >= 0 {
                records < entries
            } else {
                records < entries + 0x1_0000_0000_0000_0000
            };
            &&& lags ==> went_on(decision, Seq::empty(), Action::InitStore { host, key })
                && went_on_to_serve(filled, key)
            &&& !lags ==> went_on_to_serve(decision, key)
        }),
{
    lemma_step_is_printed(load);
    lemma_step_is_printed(count);
    lemma_step_is_printed(compare);
    lemma_step_is_printed(decision);
    lemma_step_is_printed(filled);
}

/// A service decides on the store by the numbers, whatever brought it to count them:
/// with fewer records than entries it initializes the store, otherwise it serves.
pub proof fn law_service_decides_by_the_numbers(
    key: EncryptionKey,
    host: HostId,
    entries: i64,
    records: u64,
    decision: (ServeRun, Option<Step>),
)
    requires
        entries >= 0,
        call_ensures(
            ServeRun::step,
            (
                ServeRun::CountingStore { key, host, history: entries },
                Event::StoreCounted { records },
            ),
            decision,
        ),
    ensures
        records < entries ==> went_on(decision, Seq::empty(), Action::InitStore { host, key }),
        records >= entries ==> went_on_to_serve(decision, key),
{
    lemma_step_is_printed(decision);
}

/// When a client has been served, the service is over, without a word.
pub proof fn law_service_ends_when_it_has_served(
    start: ServeRun,
    event: Event,
    asked: (ServeRun, Option<Step>),
    r: (ServeRun, Option<Step>),
)
    requires
        call_ensures(ServeRun::step, (start, event), asked),
        asked.1 is Some,
        asked.1->Some_0.action is Serve,
        call_ensures(ServeRun::step, (asked.0, Event::Served), r),
    ensures
        went_on(r, Seq::empty(), Action::Finish),
        r.0 is Finished,
{
    lemma_step_is_printed(r);
}

/// When something that a service asked for fails, it ends there with that error.
pub proof fn law_failed_action_ends_service(
    start: ServeRun,
    event: Event,
    asked: (ServeRun, Option<Step>),
    error: SyncError,
    r: (ServeRun, Option<Step>),
)
    requires
        call_ensures(ServeRun::step, (start, event), asked),
        asked.1 is Some,
        is_outcome(asked.1->Some_0.action, Event::Failed { error }),
        call_ensures(ServeRun::step, (asked.0, Event::Failed { error }), r),
    ensures
        went_on(r, Seq::empty(), Action::Fail { error }),
        r.0 is Finished,
{
    lemma_step_is_printed(r);
}

} // verus!
