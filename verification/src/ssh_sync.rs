//! The two sessions that the command line starts: a synchronisation with a remote,
//! and the service at the other end of one.

use vstd::prelude::*;
use vstd::string::StringExecFns;

use crate::error::{Stage, SyncError};
use crate::record::{Build, EncryptionKey, HostId, RecordId};
use crate::ssh_server::{ServePhase, Server};
use crate::text::{decimal, decimal_signed, decimal_text, texts, wrap};

verus! {

/// The tag of the records that hold the history.
pub const HISTORY_TAG: &'static str = "history";

/// What the command line asks for.
#[derive(Debug)]
pub enum Cmd {
    /// Synchronise with the machine at an SSH destination, or with whatever a
    /// command connects to.
    Run { destination: Option<String>, command: Option<String> },
    /// Serve the other end of a synchronisation.
    Serve,
}

/// What looking into a downloaded record showed.
#[derive(Clone, Copy, Debug, PartialEq, Eq, Structural)]
pub enum RecordCheck {
    /// The store did not give the record out.
    Unreadable,
    /// It is sealed with the key of this machine.
    Matching,
    /// It is sealed with another key.
    Foreign,
}

/// What a session is told.
#[derive(Debug)]
pub enum Event {
    /// What was to be done failed.
    Failed { error: SyncError },
    /// The key was loaded.
    KeyLoaded { key: EncryptionKey },
    /// The remote answers.
    Connected,
    /// The two stores were brought together: how many records went up, and which
    /// came down.
    Synced { uploaded: i64, downloaded: Vec<RecordId> },
    /// The record in question was looked into.
    Checked { check: RecordCheck },
    /// The store was told to delete the record in question, with whatever success.
    Deleted,
    /// The remote worked its records in.
    RemoteBuilt,
    /// The local records were worked in.
    LocalBuilt,
    /// The identity of this machine was loaded.
    HostIdLoaded { host: HostId },
    /// The entries of the history database were counted.
    HistoryCounted { entries: i64 },
    /// The records of the store with a tag were counted.
    StoreCounted { records: u64 },
    /// The history was written into the store.
    StoreInitialized,
    /// The service came to its end.
    Served,
    /// The remote was taken leave of.
    Closed,
}

/// What is to be done for a session, whose outcome it then is to be told.
#[derive(Debug)]
pub enum Action {
    /// Load the encryption key.
    LoadKey,
    /// Connect to the machine at an SSH destination.
    Connect { destination: String },
    /// Connect by a command.
    ConnectExec { command: String },
    /// Bring the local and the remote store together.
    Sync,
    /// Look into a record, and hold it against a key.
    CheckRecord { id: RecordId, key: EncryptionKey },
    /// Delete a record from the local store.
    DeleteRecord { id: RecordId },
    /// Have the remote work its records in.
    BuildRemote,
    /// Run a build on this machine.
    BuildLocal { build: Build },
    /// Load the identity of this machine.
    LoadHostId,
    /// Count the entries of the history database, deleted ones included or not.
    CountHistory { include_deleted: bool },
    /// Count the records of the store with a tag.
    CountStore { tag: &'static str },
    /// Write the history into the store, as records of a host sealed with a key.
    InitStore { host: HostId, key: EncryptionKey },
    /// Serve a client.
    Serve { server: Server },
    /// Take leave of the remote.
    Close,
    /// Nothing: the session is over and went well.
    Finish,
    /// Nothing: the session is over with an error.
    Fail { error: SyncError },
}

/// How a session goes on: lines to print, and then what to do.
#[derive(Debug)]
pub struct Step {
    pub lines: Vec<String>,
    pub action: Action,
}

/// What is known of the downloaded records while they are looked into one by one.
#[derive(Debug)]
pub struct Tally {
    /// How many records went up.
    pub uploaded: i64,
    /// The records that came down.
    pub downloaded: Vec<RecordId>,
    /// The place of the next one to look into.
    pub next: usize,
    /// Those found to be sealed with the key of this machine.
    pub kept: Vec<RecordId>,
    /// Those found to be sealed with another key.
    pub foreign: Vec<RecordId>,
}

/// What a tally holds.
pub struct TallyView {
    pub uploaded: int,
    pub downloaded: Seq<RecordId>,
    pub next: int,
    pub kept: Seq<RecordId>,
    pub foreign: Seq<RecordId>,
}

/// What a synchronisation waits for.
#[derive(Debug)]
pub enum SyncRun {
    LoadingKey { destination: Option<String>, command: Option<String> },
    Connecting { stage: Stage, key: EncryptionKey },
    Syncing { key: EncryptionKey },
    Checking { key: EncryptionKey, tally: Tally },
    Deleting { key: EncryptionKey, tally: Tally },
    BuildingRemote { key: EncryptionKey, kept: Vec<RecordId> },
    BuildingLocal { key: EncryptionKey },
    LoadingHostId { key: EncryptionKey },
    CountingHistory { key: EncryptionKey, host: HostId },
    CountingStore { key: EncryptionKey, host: HostId, history: i64 },
    InitializingStore,
    Resyncing,
    Rebuilding { uploaded: i64, downloaded: usize },
    Closing,
    CountingItems,
    Finished,
}

/// What a service waits for.
#[derive(Clone, Copy, Debug, PartialEq, Eq)]
pub enum ServeRun {
    LoadingKey,
    LoadingHostId { key: EncryptionKey },
    CountingHistory { key: EncryptionKey, host: HostId },
    CountingStore { key: EncryptionKey, host: HostId, history: i64 },
    InitializingStore { key: EncryptionKey },
    Serving,
    Finished,
}

/// A session of either sort.
#[derive(Debug)]
pub enum Session {
    Sync(SyncRun),
    Serve(ServeRun),
}

impl View for Tally {
    type V = TallyView;

    open spec fn view(&self) -> TallyView {
        TallyView {
            uploaded: self.uploaded as int,
            downloaded: self.downloaded@,
            next: self.next as int,
            kept: self.kept@,
            foreign: self.foreign@,
        }
    }
}

impl TallyView {
    /// The tally of records none of which has been looked into.
    pub open spec fn fresh(uploaded: int, downloaded: Seq<RecordId>) -> TallyView {
        TallyView { uploaded, downloaded, next: 0, kept: Seq::empty(), foreign: Seq::empty() }
    }

    /// Whether a record is still to be looked into.
    pub open spec fn unfinished(self) -> bool {
        self.next < self.downloaded.len()
    }

    /// The tally after a look into the next record.
    pub open spec fn after(self, check: RecordCheck) -> TallyView {
        let id = self.downloaded[self.next];
        TallyView {
            next: self.next + 1,
            kept: if check == RecordCheck::Matching {
                self.kept.push(id)
            } else {
                self.kept
            },
            foreign: if check == RecordCheck::Foreign {
                self.foreign.push(id)
            } else {
                self.foreign
            },
            ..self
        }
    }
}

impl Step {
    /// Whether the step prints these lines and does this.
    pub open spec fn is(self, lines: Seq<Seq<char>>, action: Action) -> bool {
        texts(self.lines@) == lines && self.action == action
    }
}

/// The value of the sixty-four bits of a signed integer, read without a sign.
pub open spec fn unsigned(n: int) -> int {
    if n < 0 {
        n + 0x1_0000_0000_0000_0000
    } else {
        n
    }
}

/// Whether the store holds fewer history records than the database has entries.
pub open spec fn is_behind(store: u64, history: i64) -> bool {
    unsigned(history as int) > store
}

/// Whether the store holds fewer history records than the database has entries.
fn behind(store: u64, history: i64) -> (r: bool)
    ensures
        r == is_behind(store, history),
{
    assert(history < 0 ==> (history as u64) == history + 0x1_0000_0000_0000_0000) by (bit_vector);
    #[verifier::truncate]
    let entries: u64 = history as u64;
    entries > store
}

/// The line that says how many records went up and down.
pub open spec fn counts_line(uploaded: int, downloaded: int) -> Seq<char> {
    decimal_text(uploaded) + "/"@ + decimal_text(downloaded) + " up/down to record store"@
}

/// The lines printed when the downloaded records have been looked into.
pub open spec fn tally_lines(tally: TallyView) -> Seq<Seq<char>> {
    let counts = counts_line(tally.uploaded, tally.kept.len() as int);
    if tally.foreign.len() > 0 {
        seq![
            "Warning: skipped "@ + decimal_text(tally.foreign.len() as int)
                + " records from remote encrypted with a different key."@,
            "Both machines must share the same encryption key to sync. Run `atuin key` on one machine, then `atuin store rekey '<key>'` on the other."@,
            counts,
        ]
    } else {
        seq![counts]
    }
}

fn counts_text(uploaded: i64, downloaded: usize) -> (line: String)
    ensures
        line@ == counts_line(uploaded as int, downloaded as int),
{
    let mut line: String = wrap(
        decimal_signed(uploaded).as_str(),
        "/",
        decimal(downloaded as u64).as_str(),
    );
    line.append(" up/down to record store");
    line
}

/// A step that prints nothing.
fn quietly(action: Action) -> (step: Step)
    ensures
        step.is(Seq::empty(), action),
{
    let lines: Vec<String> = Vec::new();
    assert(texts(lines@) =~= Seq::empty());
    Step { lines, action }
}

/// A step that prints a line.
fn saying(line: String, action: Action) -> (step: Step)
    ensures
        step.is(seq![line@], action),
{
    let mut lines: Vec<String> = Vec::new();
    lines.push(line);
    assert(texts(lines@) =~= seq![line@]);
    Step { lines, action }
}

impl Tally {
    fn lines(&self) -> (lines: Vec<String>)
        ensures
            texts(lines@) == tally_lines(self@),
    {
        let mut lines: Vec<String> = Vec::new();
        if self.foreign.len() > 0 {
            lines.push(
                wrap(
                    "Warning: skipped ",
                    decimal(self.foreign.len() as u64).as_str(),
                    " records from remote encrypted with a different key.",
                ),
            );
            lines.push(
                String::from_str(
                    "Both machines must share the same encryption key to sync. Run `atuin key` on one machine, then `atuin store rekey '<key>'` on the other.",
                ),
            );
        }
        lines.push(counts_text(self.uploaded, self.kept.len()));
        assert(texts(lines@) =~= tally_lines(self@));
        lines
    }
}

impl SyncRun {
    /// Whether what the run waits for may fail. Looking into a record tells itself
    /// whether it could be done, and whether a deletion succeeds does not matter.
    pub open spec fn may_fail(self) -> bool {
        !(self is Checking || self is Deleting || self is Finished)
    }

    /// The error with which the run ends where what it waits for fails.
    pub open spec fn failure(self, error: SyncError) -> SyncError {
        match self {
            SyncRun::LoadingKey { .. } => in_stage(Stage::LoadKey, error),
            SyncRun::Connecting { stage, .. } => in_stage(stage, error),
            SyncRun::BuildingRemote { .. } => in_stage(Stage::BuildRemote, error),
            SyncRun::Closing => in_stage(Stage::Close, error),
            _ => error,
        }
    }

    /// Whether an event is one that the run waits for.
    pub open spec fn awaits(self, event: Event) -> bool {
        match event {
            Event::Failed { .. } => self.may_fail(),
            Event::KeyLoaded { .. } => self is LoadingKey,
            Event::Connected => self is Connecting,
            Event::Synced { .. } => self is Syncing || self is Resyncing,
            Event::Checked { .. } => self matches SyncRun::Checking { tally, .. }
                && tally@.unfinished(),
            Event::Deleted => self is Deleting,
            Event::RemoteBuilt => self is BuildingRemote,
            Event::LocalBuilt => self is BuildingLocal || self is Rebuilding,
            Event::HostIdLoaded { .. } => self is LoadingHostId,
            Event::HistoryCounted { .. } => self is CountingHistory || self is CountingItems,
            Event::StoreCounted { .. } => self is CountingStore,
            Event::StoreInitialized => self is InitializingStore,
            Event::Served => false,
            Event::Closed => self is Closing,
        }
    }
}

/// An error met in a stage.
pub open spec fn in_stage(stage: Stage, error: SyncError) -> SyncError {
    SyncError::Context { stage, source: Box::new(error) }
}

/// How a run goes on from a tally: it looks into the next record, and where there
/// is none it says what it found and has the remote work its records in.
pub open spec fn goes_through(
    key: EncryptionKey,
    tally: TallyView,
    after: SyncRun,
    step: Step,
) -> bool {
    if tally.unfinished() {
        &&& after matches SyncRun::Checking { key: k, tally: t } && k == key && t@ == tally
        &&& step.is(
            Seq::empty(),
            Action::CheckRecord { id: tally.downloaded[tally.next], key },
        )
    } else {
        &&& after matches SyncRun::BuildingRemote { key: k, kept } && k == key && kept@
            == tally.kept
        &&& step.is(tally_lines(tally), Action::BuildRemote)
    }
}

/// How a run goes on once the key is loaded: it connects in the one way that was
/// given, where one was and not both.
pub open spec fn sets_out(
    key: EncryptionKey,
    destination: Option<String>,
    command: Option<String>,
    after: SyncRun,
    step: Step,
) -> bool {
    match (destination, command) {
        (Some(destination), None) => {
            &&& after == SyncRun::Connecting { stage: Stage::ConnectSsh, key }
            &&& step.is(
                seq!["Connecting to "@ + destination@ + " over SSH..."@],
                Action::Connect { destination },
            )
        },
        (None, Some(command)) => {
            &&& after == SyncRun::Connecting { stage: Stage::StartCommand, key }
            &&& step.is(seq!["Running: "@ + command@], Action::ConnectExec { command })
        },
        _ => {
            &&& after is Finished
            &&& step.is(Seq::empty(), Action::Fail { error: SyncError::NoTarget })
        },
    }
}

/// How a synchronisation goes on upon an event that it waits for.
pub open spec fn syncs(before: SyncRun, event: Event, after: SyncRun, step: Step) -> bool {
    &&& before.awaits(event)
    &&& match (before, event) {
        (_, Event::Failed { error }) => {
            &&& after is Finished
            &&& step.is(Seq::empty(), Action::Fail { error: before.failure(error) })
        },
        (SyncRun::LoadingKey { destination, command }, Event::KeyLoaded { key }) => sets_out(
            key,
            destination,
            command,
            after,
            step,
        ),
        (SyncRun::Connecting { key, .. }, _) => {
            &&& after == SyncRun::Syncing { key }
            &&& step.is(Seq::empty(), Action::Sync)
        },
        (SyncRun::Syncing { key }, Event::Synced { uploaded, downloaded }) => goes_through(
            key,
            TallyView::fresh(uploaded as int, downloaded@),
            after,
            step,
        ),
        (SyncRun::Checking { key, tally }, Event::Checked { check }) => if check
            == RecordCheck::Foreign {
            &&& after matches SyncRun::Deleting { key: k, tally: t } && k == key && t@
                == tally@.after(check)
            &&& step.is(
                Seq::empty(),
                Action::DeleteRecord { id: tally@.downloaded[tally@.next] },
            )
        } else {
            goes_through(key, tally@.after(check), after, step)
        },
        (SyncRun::Deleting { key, tally }, _) => goes_through(key, tally@, after, step),
        (SyncRun::BuildingRemote { key, kept }, _) => {
            &&& after == SyncRun::BuildingLocal { key }
            &&& step.is(
                Seq::empty(),
                Action::BuildLocal { build: Build { downloaded: Some(kept) } },
            )
        },
        (SyncRun::BuildingLocal { key }, _) => {
            &&& after == SyncRun::LoadingHostId { key }
            &&& step.is(Seq::empty(), Action::LoadHostId)
        },
        (SyncRun::LoadingHostId { key }, Event::HostIdLoaded { host }) => {
            &&& after == SyncRun::CountingHistory { key, host }
            &&& step.is(Seq::empty(), Action::CountHistory { include_deleted: true })
        },
        (SyncRun::CountingHistory { key, host }, Event::HistoryCounted { entries }) => {
            &&& after == SyncRun::CountingStore { key, host, history: entries }
            &&& step.is(Seq::empty(), Action::CountStore { tag: HISTORY_TAG })
        },
        (SyncRun::CountingStore { key, host, history }, Event::StoreCounted { records }) =>
        if is_behind(records, history) {
            &&& after is InitializingStore
            &&& step.is(
                seq![
                    decimal_text(history as int) + " in history index, but "@ + decimal_text(
                        records as int,
                    ) + " in history store"@,
                    "Running automatic history store init..."@,
                ],
                Action::InitStore { host, key },
            )
        } else {
            &&& after is Closing
            &&& step.is(Seq::empty(), Action::Close)
        },
        (SyncRun::InitializingStore, _) => {
            &&& after is Resyncing
            &&& step.is(seq!["Re-running sync due to new records locally"@], Action::Sync)
        },
        (SyncRun::Resyncing, Event::Synced { uploaded, downloaded }) => {
            &&& after matches SyncRun::Rebuilding { uploaded: u, downloaded: d } && u == uploaded
                && d == downloaded@.len()
            &&& step.is(
                Seq::empty(),
                Action::BuildLocal { build: Build { downloaded: Some(downloaded) } },
            )
        },
        (SyncRun::Rebuilding { uploaded, downloaded }, _) => {
            &&& after is Closing
            &&& step.is(seq![counts_line(uploaded as int, downloaded as int)], Action::Close)
        },
        (SyncRun::Closing, _) => {
            &&& after is CountingItems
            &&& step.is(Seq::empty(), Action::CountHistory { include_deleted: true })
        },
        (SyncRun::CountingItems, Event::HistoryCounted { entries }) => {
            &&& after is Finished
            &&& step.is(
                seq![
                    "Sync complete! "@ + decimal_text(entries as int)
                        + " items in history database"@,
                ],
                Action::Finish,
            )
        },
        _ => false,
    }
}

/// Goes on from a tally.
fn going_through(key: EncryptionKey, tally: Tally) -> (r: (SyncRun, Step))
    ensures
        goes_through(key, tally@, r.0, r.1),
{
    if tally.next < tally.downloaded.len() {
        let id: RecordId = tally.downloaded[tally.next];
        (SyncRun::Checking { key, tally }, quietly(Action::CheckRecord { id, key }))
    } else {
        let lines: Vec<String> = tally.lines();
        (
            SyncRun::BuildingRemote { key, kept: tally.kept },
            Step { lines, action: Action::BuildRemote },
        )
    }
}

/// Sets out to the remote that was given.
fn setting_out(
    key: EncryptionKey,
    destination: Option<String>,
    command: Option<String>,
) -> (r: (SyncRun, Step))
    ensures
        sets_out(key, destination, command, r.0, r.1),
{
    match (destination, command) {
        (Some(destination), None) => {
            let line: String = wrap("Connecting to ", destination.as_str(), " over SSH...");
            (
                SyncRun::Connecting { stage: Stage::ConnectSsh, key },
                saying(line, Action::Connect { destination }),
            )
        },
        (None, Some(command)) => {
            let line: String = String::from_str("Running: ").concat(command.as_str());
            (
                SyncRun::Connecting { stage: Stage::StartCommand, key },
                saying(line, Action::ConnectExec { command }),
            )
        },
        _ => (SyncRun::Finished, quietly(Action::Fail { error: SyncError::NoTarget })),
    }
}

impl Tally {
    /// Enters what a look into the next record showed.
    fn enter(self, check: RecordCheck) -> (tally: Tally)
        requires
            self@.unfinished(),
        ensures
            tally@ == self@.after(check),
    {
        let mut tally = self;
        let total: usize = tally.downloaded.len();
        assert(tally.next < total);
        let id: RecordId = tally.downloaded[tally.next];
        match check {
            RecordCheck::Unreadable => {},
            RecordCheck::Matching => tally.kept.push(id),
            RecordCheck::Foreign => tally.foreign.push(id),
        }
        tally.next = tally.next + 1;
        tally
    }
}

impl SyncRun {
    /// Ends the run with an error.
    fn fail(self, error: SyncError) -> (r: (SyncRun, Option<Step>))
        ensures
            r.0 is Finished,
            r.1 is Some,
            r.1->Some_0.is(Seq::empty(), Action::Fail { error: self.failure(error) }),
    {
        let stage: Option<Stage> = match self {
            SyncRun::LoadingKey { .. } => Some(Stage::LoadKey),
            SyncRun::Connecting { stage, .. } => Some(stage),
            SyncRun::BuildingRemote { .. } => Some(Stage::BuildRemote),
            SyncRun::Closing => Some(Stage::Close),
            _ => None,
        };
        let error: SyncError = match stage {
            Some(stage) => SyncError::Context { stage, source: Box::new(error) },
            None => error,
        };
        (SyncRun::Finished, Some(quietly(Action::Fail { error })))
    }

    /// Goes on with a synchronisation: what to print and to do next. `None`, and
    /// the run as it was, where the event is none that it waits for.
    ///
    /// The records that the first exchange brings down are looked into one by one.
    /// Those sealed with another key are deleted from the store, and only those
    /// sealed with the key of this machine are worked in. Where the store then
    /// holds fewer history records than the database has entries, the history is
    /// written into the store and the stores are brought together once more. The
    /// records that this second exchange brings down are worked in unchecked.
    pub fn step(self, event: Event) -> (r: (SyncRun, Option<Step>))
        ensures
            !self.awaits(event) ==> r == (self, None::<Step>),
            self.awaits(event) ==> r.1 is Some && syncs(self, event, r.0, r.1->Some_0),
    {
        match (self, event) {
            (SyncRun::Checking { key, tally }, Event::Checked { check }) => {
                if tally.next >= tally.downloaded.len() {
                    return (SyncRun::Checking { key, tally }, None);
                }
                let id: RecordId = tally.downloaded[tally.next];
                let entered: Tally = tally.enter(check);
                match check {
                    RecordCheck::Foreign => (
                        SyncRun::Deleting { key, tally: entered },
                        Some(quietly(Action::DeleteRecord { id })),
                    ),
                    _ => {
                        let (run, step) = going_through(key, entered);
                        (run, Some(step))
                    },
                }
            },
            (SyncRun::Checking { key, tally }, _) => (SyncRun::Checking { key, tally }, None),
            (SyncRun::Deleting { key, tally }, Event::Deleted) => {
                let (run, step) = going_through(key, tally);
                (run, Some(step))
            },
            (SyncRun::Deleting { key, tally }, _) => (SyncRun::Deleting { key, tally }, None),
            (SyncRun::Finished, _) => (SyncRun::Finished, None),
            (run, Event::Failed { error }) => run.fail(error),
            (SyncRun::LoadingKey { destination, command }, Event::KeyLoaded { key }) => {
                let (run, step) = setting_out(key, destination, command);
                (run, Some(step))
            },
            (SyncRun::Connecting { key, .. }, Event::Connected) => (
                SyncRun::Syncing { key },
                Some(quietly(Action::Sync)),
            ),
            (SyncRun::Syncing { key }, Event::Synced { uploaded, downloaded }) => {
                let (run, step) = going_through(
                    key,
                    Tally {
                        uploaded,
                        downloaded,
                        next: 0,
                        kept: Vec::new(),
                        foreign: Vec::new(),
                    },
                );
                (run, Some(step))
            },
            (SyncRun::BuildingRemote { key, kept }, Event::RemoteBuilt) => (
                SyncRun::BuildingLocal { key },
                Some(quietly(Action::BuildLocal { build: Build { downloaded: Some(kept) } })),
            ),
            (SyncRun::BuildingLocal { key }, Event::LocalBuilt) => (
                SyncRun::LoadingHostId { key },
                Some(quietly(Action::LoadHostId)),
            ),
            (SyncRun::LoadingHostId { key }, Event::HostIdLoaded { host }) => (
                SyncRun::CountingHistory { key, host },
                Some(quietly(Action::CountHistory { include_deleted: true })),
            ),
            (SyncRun::CountingHistory { key, host }, Event::HistoryCounted { entries }) => (
                SyncRun::CountingStore { key, host, history: entries },
                Some(quietly(Action::CountStore { tag: HISTORY_TAG })),
            ),
            (SyncRun::CountingStore { key, host, history }, Event::StoreCounted { records }) => {
                if !behind(records, history) {
                    return (SyncRun::Closing, Some(quietly(Action::Close)));
                }
                let mut line: String = wrap(
                    decimal_signed(history).as_str(),
                    " in history index, but ",
                    decimal(records).as_str(),
                );
                line.append(" in history store");
                let mut lines: Vec<String> = Vec::new();
                lines.push(line);
                lines.push(String::from_str("Running automatic history store init..."));
                assert(texts(lines@) =~= seq![
                    line@,
                    "Running automatic history store init..."@,
                ]);
                (
                    SyncRun::InitializingStore,
                    Some(Step { lines, action: Action::InitStore { host, key } }),
                )
            },
            (SyncRun::InitializingStore, Event::StoreInitialized) => (
                SyncRun::Resyncing,
                Some(
                    saying(
                        String::from_str("Re-running sync due to new records locally"),
                        Action::Sync,
                    ),
                ),
            ),
            (SyncRun::Resyncing, Event::Synced { uploaded, downloaded }) => (
                SyncRun::Rebuilding { uploaded, downloaded: downloaded.len() },
                Some(
                    quietly(
                        Action::BuildLocal { build: Build { downloaded: Some(downloaded) } },
                    ),
                ),
            ),
            (SyncRun::Rebuilding { uploaded, downloaded }, Event::LocalBuilt) => (
                SyncRun::Closing,
                Some(saying(counts_text(uploaded, downloaded), Action::Close)),
            ),
            (SyncRun::Closing, Event::Closed) => (
                SyncRun::CountingItems,
                Some(quietly(Action::CountHistory { include_deleted: true })),
            ),
            (SyncRun::CountingItems, Event::HistoryCounted { entries }) => (
                SyncRun::Finished,
                Some(
                    saying(
                        wrap(
                            "Sync complete! ",
                            decimal_signed(entries).as_str(),
                            " items in history database",
                        ),
                        Action::Finish,
                    ),
                ),
            ),
            (run, _) => (run, None),
        }
    }
}

impl ServeRun {
    /// The error with which the run ends where what it waits for fails.
    pub open spec fn failure(self, error: SyncError) -> SyncError {
        match self {
            ServeRun::LoadingKey => in_stage(Stage::LoadKey, error),
            _ => error,
        }
    }

    /// Whether an event is one that the run waits for.
    pub open spec fn awaits(self, event: Event) -> bool {
        match event {
            Event::Failed { .. } => self != ServeRun::Finished,
            Event::KeyLoaded { .. } => self is LoadingKey,
            Event::HostIdLoaded { .. } => self is LoadingHostId,
            Event::HistoryCounted { .. } => self is CountingHistory,
            Event::StoreCounted { .. } => self is CountingStore,
            Event::StoreInitialized => self is InitializingStore,
            Event::Served => self is Serving,
            _ => false,
        }
    }
}

/// The server that a service starts: it holds pushed records against the key of this
/// machine, and its build works in all that the store holds.
pub open spec fn server_of(key: EncryptionKey) -> Server {
    Server {
        phase: ServePhase::Reading,
        key,
        on_build: Some(Build { downloaded: None }),
    }
}

/// How a service goes on upon an event that it waits for.
pub open spec fn attends(before: ServeRun, event: Event, after: ServeRun, step: Step) -> bool {
    &&& before.awaits(event)
    &&& match (before, event) {
        (_, Event::Failed { error }) => {
            &&& after is Finished
            &&& step.is(Seq::empty(), Action::Fail { error: before.failure(error) })
        },
        (ServeRun::LoadingKey, Event::KeyLoaded { key }) => {
            &&& after == ServeRun::LoadingHostId { key }
            &&& step.is(Seq::empty(), Action::LoadHostId)
        },
        (ServeRun::LoadingHostId { key }, Event::HostIdLoaded { host }) => {
            &&& after == ServeRun::CountingHistory { key, host }
            &&& step.is(Seq::empty(), Action::CountHistory { include_deleted: true })
        },
        (ServeRun::CountingHistory { key, host }, Event::HistoryCounted { entries }) => {
            &&& after == ServeRun::CountingStore { key, host, history: entries }
            &&& step.is(Seq::empty(), Action::CountStore { tag: HISTORY_TAG })
        },
        (ServeRun::CountingStore { key, host, history }, Event::StoreCounted { records }) =>
        if is_behind(records, history) {
            &&& after == ServeRun::InitializingStore { key }
            &&& step.is(Seq::empty(), Action::InitStore { host, key })
        } else {
            &&& after is Serving
            &&& step.is(Seq::empty(), Action::Serve { server: server_of(key) })
        },
        (ServeRun::InitializingStore { key }, _) => {
            &&& after is Serving
            &&& step.is(Seq::empty(), Action::Serve { server: server_of(key) })
        },
        (ServeRun::Serving, _) => {
            &&& after is Finished
            &&& step.is(Seq::empty(), Action::Finish)
        },
        _ => false,
    }
}

/// Starts to serve.
fn serving(key: EncryptionKey) -> (r: (ServeRun, Option<Step>))
    ensures
        r.0 is Serving,
        r.1 is Some,
        r.1->Some_0.is(Seq::empty(), Action::Serve { server: server_of(key) }),
{
    let server: Server = Server::new(key, Build { downloaded: None });
    (ServeRun::Serving, Some(quietly(Action::Serve { server })))
}

impl ServeRun {
    /// Goes on with a service: what to do next. `None`, and the run as it was,
    /// where the event is none that it waits for.
    ///
    /// Where the store holds fewer history records than the database has entries,
    /// the history is written into the store before a client is served. The server
    /// holds pushed records against the key that was loaded, and its build works in
    /// all that the store holds.
    pub fn step(self, event: Event) -> (r: (ServeRun, Option<Step>))
        ensures
            !self.awaits(event) ==> r == (self, None::<Step>),
            self.awaits(event) ==> r.1 is Some && attends(self, event, r.0, r.1->Some_0),
    {
        match (self, event) {
            (ServeRun::Finished, _) => (self, None),
            (ServeRun::LoadingKey, Event::Failed { error }) => (
                ServeRun::Finished,
                Some(
                    quietly(
                        Action::Fail {
                            error: SyncError::Context {
                                stage: Stage::LoadKey,
                                source: Box::new(error),
                            },
                        },
                    ),
                ),
            ),
            (_, Event::Failed { error }) => (
                ServeRun::Finished,
                Some(quietly(Action::Fail { error })),
            ),
            (ServeRun::LoadingKey, Event::KeyLoaded { key }) => (
                ServeRun::LoadingHostId { key },
                Some(quietly(Action::LoadHostId)),
            ),
            (ServeRun::LoadingHostId { key }, Event::HostIdLoaded { host }) => (
                ServeRun::CountingHistory { key, host },
                Some(quietly(Action::CountHistory { include_deleted: true })),
            ),
            (ServeRun::CountingHistory { key, host }, Event::HistoryCounted { entries }) => (
                ServeRun::CountingStore { key, host, history: entries },
                Some(quietly(Action::CountStore { tag: HISTORY_TAG })),
            ),
            (ServeRun::CountingStore { key, host, history }, Event::StoreCounted { records }) => {
                if behind(records, history) {
                    (
                        ServeRun::InitializingStore { key },
                        Some(quietly(Action::InitStore { host, key })),
                    )
                } else {
                    serving(key)
                }
            },
            (ServeRun::InitializingStore { key }, Event::StoreInitialized) => serving(key),
            (ServeRun::Serving, Event::Served) => (
                ServeRun::Finished,
                Some(quietly(Action::Finish)),
            ),
            _ => (self, None),
        }
    }
}

impl Session {
    /// Whether an event is one that the session waits for.
    pub open spec fn awaits(self, event: Event) -> bool {
        match self {
            Session::Sync(run) => run.awaits(event),
            Session::Serve(run) => run.awaits(event),
        }
    }

    /// How a session goes on upon an event that it waits for.
    pub open spec fn proceeds(self, event: Event, after: Session, step: Step) -> bool {
        match (self, after) {
            (Session::Sync(run), Session::Sync(next)) => syncs(run, event, next, step),
            (Session::Serve(run), Session::Serve(next)) => attends(
                run,
                event,
                next,
                step,
            ),
            _ => false,
        }
    }

    /// Goes on with a session: what to print and to do next. `None`, and the
    /// session as it was, where the event is none that it waits for.
    pub fn step(self, event: Event) -> (r: (Session, Option<Step>))
        ensures
            !self.awaits(event) ==> r == (self, None::<Step>),
            self.awaits(event) ==> r.1 is Some && self.proceeds(event, r.0, r.1->Some_0),
    {
        match self {
            Session::Sync(run) => {
                let (next, step) = run.step(event);
                (Session::Sync(next), step)
            },
            Session::Serve(run) => {
                let (next, step) = run.step(event);
                (Session::Serve(next), step)
            },
        }
    }
}

impl Cmd {
    /// Starts the session that the command line asks for. Either begins with the
    /// key.
    pub fn run(self) -> (r: (Session, Step))
        ensures
            self matches Cmd::Run { destination, command } ==> r.0 == Session::Sync(
                SyncRun::LoadingKey { destination, command },
            ),
            self is Serve ==> r.0 == Session::Serve(ServeRun::LoadingKey),
            r.1.is(Seq::empty(), Action::LoadKey),
    {
        let session: Session = match self {
            Cmd::Run { destination, command } => Session::Sync(
                SyncRun::LoadingKey { destination, command },
            ),
            Cmd::Serve => Session::Serve(ServeRun::LoadingKey),
        };
        (session, quietly(Action::LoadKey))
    }
}

} // verus!
