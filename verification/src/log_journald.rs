//! The tail reader: one session that follows the journal and turns its entries into records.
//!
//! The reader neither opens nor reads the journal itself. It asks for one action at a time,
//! is told how the action ended, and answers with the next one.

use crate::config::ConfigFile;
use crate::log_queue::{LogRecord, RecordView};
use vstd::prelude::*;

verus! {

/// Why a tail session did not start, or why it ended.
#[derive(Debug, Clone, Copy, PartialEq, Eq, Structural)]
pub enum TailError {
    /// A session was started before; there is one per process.
    AlreadyRunning,
    /// The journal could not be opened.
    SourceOpen,
    /// The journal's end could not be reached, or the step back from it failed.
    Seek,
    /// The journal holds no entry to step back to.
    EmptyJournal,
    /// An entry has no source wall-clock time.
    MalformedEntry,
    /// Waiting for new data, or reading the next entry, failed.
    SourceRead,
}

impl TailError {
    /// The failure in words, for the operator.
    pub open spec fn spec_message(self) -> Seq<char> {
        match self {
            TailError::AlreadyRunning => "already running, only 1 instance can be running"@,
            TailError::SourceOpen => "failed to open the reader"@,
            TailError::Seek => "failed to seek to the end"@,
            TailError::EmptyJournal => "failed to get a log entry"@,
            TailError::MalformedEntry => "entry is missing time"@,
            TailError::SourceRead => "failed to read from the journal"@,
        }
    }

    /// The failure in words, for the operator.
    pub fn message(&self) -> (text: String)
        ensures
            text@ == self.spec_message(),
    {
        match self {
            TailError::AlreadyRunning => "already running, only 1 instance can be running".to_owned(),
            TailError::SourceOpen => "failed to open the reader".to_owned(),
            TailError::Seek => "failed to seek to the end".to_owned(),
            TailError::EmptyJournal => "failed to get a log entry".to_owned(),
            TailError::MalformedEntry => "entry is missing time".to_owned(),
            TailError::SourceRead => "failed to read from the journal".to_owned(),
        }
    }
}

/// Where a tail session stands: which outcome the reader waits for.
#[derive(Debug, Clone, Copy, PartialEq, Eq, Structural)]
pub enum Phase {
    /// No session was started.
    Idle,
    /// The journal is being opened.
    Opening,
    /// The cursor is being moved to the journal's end.
    Seeking,
    /// The cursor is being moved one entry back from the end.
    SteppingBack,
    /// The session blocks until the journal signals new data.
    Waiting,
    /// The entries at hand are being read, one by one.
    Reading,
    /// The session has ended for good.
    Stopped(TailError),
}

/// What the reader takes from one journal entry; each part is there where the entry has it.
#[derive(Debug, PartialEq, Eq)]
pub struct RawEntry {
    /// The source wall-clock time, in microseconds since the epoch.
    pub source_time: Option<i64>,
    /// The syslog identifier.
    pub identifier: Option<String>,
    /// The message.
    pub message: Option<String>,
}

/// How the action that the reader asked for has ended.
#[derive(Debug, PartialEq, Eq)]
pub enum TailEvent {
    /// The journal is open.
    Opened,
    /// The journal could not be opened.
    OpenFailed,
    /// The cursor stands behind the last entry.
    Positioned,
    /// The cursor could not be moved to the end.
    SeekFailed,
    /// The cursor stands on the last entry.
    SteppedBack,
    /// There is no entry before the end.
    NoEarlierEntry,
    /// The step back failed.
    StepBackFailed,
    /// The journal has signalled, or may hold, new data.
    Woken,
    /// The wait failed.
    WaitFailed,
    /// The next entry.
    Entry(RawEntry),
    /// No entry is left for now.
    EndOfEntries,
    /// The next entry could not be read.
    ReadFailed,
}

/// What the reader asks its driver to do next.
#[derive(Debug, PartialEq, Eq)]
pub enum TailAction {
    /// Nothing: no session was started.
    Idle,
    /// Open the journal.
    Open,
    /// Move the cursor to the journal's end.
    SeekTail,
    /// Move the cursor one entry back.
    StepBack,
    /// Block until the journal signals new data.
    Wait,
    /// Read the next entry.
    ReadNext,
    /// Hand these records to the queue, in their order, then block until the journal signals
    /// new data.
    Deliver(Vec<LogRecord>),
    /// Give up and report the failure; nothing more will be read.
    Stop(TailError),
}

/// A `TailAction` with the records it carries as mathematical values.
pub enum ActionView {
    Idle,
    Open,
    SeekTail,
    StepBack,
    Wait,
    ReadNext,
    Deliver(Seq<RecordView>),
    Stop(TailError),
}

impl View for TailAction {
    type V = ActionView;

    open spec fn view(&self) -> ActionView {
        match self {
            TailAction::Idle => ActionView::Idle,
            TailAction::Open => ActionView::Open,
            TailAction::SeekTail => ActionView::SeekTail,
            TailAction::StepBack => ActionView::StepBack,
            TailAction::Wait => ActionView::Wait,
            TailAction::ReadNext => ActionView::ReadNext,
            TailAction::Deliver(batch) => ActionView::Deliver(batch.deep_view()),
            TailAction::Stop(error) => ActionView::Stop(*error),
        }
    }
}

/// The text that stands for an origin or a message that the entry does not have.
pub open spec fn absent() -> Seq<char> {
    "N/A"@
}

/// The record that `entry` becomes when the agent `identity` reads it; none where the entry
/// has no source wall-clock time.
pub open spec fn record_of(identity: Seq<char>, entry: RawEntry) -> Option<RecordView> {
    match entry.source_time {
        Some(time) => Some(
            RecordView {
                source_identity: identity,
                timestamp_micros: time,
                origin: match entry.identifier {
                    Some(text) => text@,
                    None => absent(),
                },
                message: match entry.message {
                    Some(text) => text@,
                    None => absent(),
                },
            },
        ),
        None => None,
    }
}

/// Turns `entry` into a record of the agent `identity`. An entry without a source wall-clock
/// time is malformed.
pub fn to_record(identity: &str, entry: RawEntry) -> (result: Result<LogRecord, TailError>)
    ensures
        match result {
            Ok(record) => record_of(identity@, entry) == Some(record@),
            Err(error) => error == TailError::MalformedEntry && record_of(identity@, entry)
                is None,
        },
{
    match entry.source_time {
        Some(time) => {
            let origin = match entry.identifier {
                Some(text) => text,
                None => "N/A".to_owned(),
            };
            let message = match entry.message {
                Some(text) => text,
                None => "N/A".to_owned(),
            };
            Ok(
                LogRecord {
                    source_identity: identity.to_owned(),
                    timestamp_micros: time,
                    origin,
                    message,
                },
            )
        },
        None => Err(TailError::MalformedEntry),
    }
}

/// The state of the tail reader, as mathematical values.
pub struct ReaderView {
    /// Where the session stands.
    pub phase: Phase,
    /// The agent in whose name records are made.
    pub identity: Seq<char>,
    /// Whether new entries are to be traced.
    pub verbose: bool,
    /// The records made since the last wake-up, oldest first.
    pub batch: Seq<RecordView>,
}

/// The tail reader. At most one session is ever started on it.
pub struct TailReader {
    phase: Phase,
    identity: String,
    verbose: bool,
    batch: Vec<LogRecord>,
}

impl View for TailReader {
    type V = ReaderView;

    closed spec fn view(&self) -> ReaderView {
        ReaderView {
            phase: self.phase,
            identity: self.identity@,
            verbose: self.verbose,
            batch: self.batch.deep_view(),
        }
    }
}

/// The action that a reader in `phase` waits for.
pub open spec fn pending(phase: Phase) -> ActionView {
    match phase {
        Phase::Idle => ActionView::Idle,
        Phase::Opening => ActionView::Open,
        Phase::Seeking => ActionView::SeekTail,
        Phase::SteppingBack => ActionView::StepBack,
        Phase::Waiting => ActionView::Wait,
        Phase::Reading => ActionView::ReadNext,
        Phase::Stopped(error) => ActionView::Stop(error),
    }
}

/// The session goes on in `phase`.
pub open spec fn moved(state: ReaderView, phase: Phase) -> (ReaderView, ActionView) {
    (ReaderView { phase, ..state }, pending(phase))
}

/// The session ends with `error`; what was read since the last wake-up is given up.
pub open spec fn halted(state: ReaderView, error: TailError) -> (ReaderView, ActionView) {
    (
        ReaderView { phase: Phase::Stopped(error), batch: Seq::empty(), ..state },
        ActionView::Stop(error),
    )
}

/// The event does not answer what the reader asked for: nothing changes and the reader asks
/// again.
pub open spec fn unmoved(state: ReaderView) -> (ReaderView, ActionView) {
    (state, pending(state.phase))
}

/// The state after `event`, and the action that the reader asks for next.
pub open spec fn transition(state: ReaderView, event: TailEvent) -> (ReaderView, ActionView) {
    match state.phase {
        Phase::Idle => unmoved(state),
        Phase::Opening => match event {
            TailEvent::Opened => moved(state, Phase::Seeking),
            TailEvent::OpenFailed => halted(state, TailError::SourceOpen),
            _ => unmoved(state),
        },
        Phase::Seeking => match event {
            TailEvent::Positioned => moved(state, Phase::SteppingBack),
            TailEvent::SeekFailed => halted(state, TailError::Seek),
            _ => unmoved(state),
        },
        Phase::SteppingBack => match event {
            TailEvent::SteppedBack => moved(state, Phase::Waiting),
            TailEvent::NoEarlierEntry => halted(state, TailError::EmptyJournal),
            TailEvent::StepBackFailed => halted(state, TailError::Seek),
            _ => unmoved(state),
        },
        Phase::Waiting => match event {
            TailEvent::Woken => moved(
                ReaderView { batch: Seq::empty(), ..state },
                Phase::Reading,
            ),
            TailEvent::WaitFailed => halted(state, TailError::SourceRead),
            _ => unmoved(state),
        },
        Phase::Reading => match event {
            TailEvent::Entry(entry) => match record_of(state.identity, entry) {
                Some(record) => moved(
                    ReaderView { batch: state.batch.push(record), ..state },
                    Phase::Reading,
                ),
                None => halted(state, TailError::MalformedEntry),
            },
            TailEvent::EndOfEntries => (
                ReaderView { phase: Phase::Waiting, batch: Seq::empty(), ..state },
                if state.batch.len() == 0 {
                    ActionView::Wait
                } else {
                    ActionView::Deliver(state.batch)
                },
            ),
            TailEvent::ReadFailed => halted(state, TailError::SourceRead),
            _ => unmoved(state),
        },
        Phase::Stopped(_) => unmoved(state),
    }
}

/// The state after each of `events` was taken in, in their order.
pub open spec fn after_events(state: ReaderView, events: Seq<TailEvent>) -> ReaderView
    decreases events.len(),
{
    if events.len() == 0 {
        state
    } else {
        transition(after_events(state, events.drop_last()), events.last()).0
    }
}

/// One event for each of `entries`, in their order.
pub open spec fn entry_events(entries: Seq<RawEntry>) -> Seq<TailEvent> {
    entries.map_values(|entry: RawEntry| TailEvent::Entry(entry))
}

/// Whether each of `entries` has a source wall-clock time.
pub open spec fn all_timed(entries: Seq<RawEntry>) -> bool {
    forall|i: int| 0 <= i < entries.len() ==> (#[trigger] entries[i]).source_time is Some
}

/// The records that `entries` become when the agent `identity` reads them, in their order.
pub open spec fn records_of(identity: Seq<char>, entries: Seq<RawEntry>) -> Seq<RecordView> {
    entries.map_values(|entry: RawEntry| record_of(identity, entry)->0)
}

/// A session that has ended stays as it is, whatever comes in, and keeps asking to stop.
pub proof fn lemma_stopped_for_good(state: ReaderView, events: Seq<TailEvent>)
    requires
        state.phase is Stopped,
    ensures
        after_events(state, events) == state,
        forall|event: TailEvent| #[trigger]
            transition(state, event) == (state, ActionView::Stop(state.phase->Stopped_0)),
    decreases events.len(),
{
    if events.len() > 0 {
        lemma_stopped_for_good(state, events.drop_last());
    }
}

/// Startup: a session that was just started asks to open the journal, then to move to its
/// end, then to step back one entry, and only then to wait for new data.
pub proof fn lemma_startup_steps_back_once(state: ReaderView)
    requires
        state.phase == Phase::Opening,
    ensures
        pending(state.phase) == ActionView::Open,
        transition(state, TailEvent::Opened) == moved(state, Phase::Seeking),
        transition(moved(state, Phase::Seeking).0, TailEvent::Positioned) == moved(
            state,
            Phase::SteppingBack,
        ),
        transition(moved(state, Phase::SteppingBack).0, TailEvent::SteppedBack) == moved(
            state,
            Phase::Waiting,
        ),
        pending(Phase::Seeking) == ActionView::SeekTail,
        pending(Phase::SteppingBack) == ActionView::StepBack,
        pending(Phase::Waiting) == ActionView::Wait,
{
}

/// Entries that all have a time are added to the batch in the order in which they were read.
pub proof fn lemma_reads_in_order(state: ReaderView, entries: Seq<RawEntry>)
    requires
        state.phase == Phase::Reading,
        all_timed(entries),
    ensures
        after_events(state, entry_events(entries)) == (ReaderView {
            batch: state.batch + records_of(state.identity, entries),
            ..state
        }),
    decreases entries.len(),
{
    let events = entry_events(entries);
    if entries.len() == 0 {
        assert(state.batch + records_of(state.identity, entries) =~= state.batch);
    } else {
        let earlier = entries.drop_last();
        assert(events.drop_last() =~= entry_events(earlier));
        assert(all_timed(earlier)) by {
            assert forall|i: int| 0 <= i < earlier.len() implies (#[trigger] earlier[i]).source_time
                is Some by {
                assert(earlier[i] == entries[i]);
            }
        }
        lemma_reads_in_order(state, earlier);
        assert(entries.last() == entries[entries.len() - 1]);
        assert(events.last() == TailEvent::Entry(entries.last()));
        assert((state.batch + records_of(state.identity, earlier)).push(
            record_of(state.identity, entries.last())->0,
        ) =~= state.batch + records_of(state.identity, entries));
    }
}

/// Order of delivery: when the reader is woken and every entry at hand has a time, it hands
/// over exactly the records of those entries, in the order of the journal, and waits again.
/// With no entry at hand it hands over nothing.
pub proof fn lemma_cycle_delivers_in_order(state: ReaderView, entries: Seq<RawEntry>)
    requires
        state.phase == Phase::Waiting,
        all_timed(entries),
    ensures
        ({
            let woken = transition(state, TailEvent::Woken).0;
            let read = after_events(woken, entry_events(entries));
            transition(read, TailEvent::EndOfEntries) == (
                ReaderView { batch: Seq::empty(), ..state },
                if entries.len() == 0 {
                    ActionView::Wait
                } else {
                    ActionView::Deliver(records_of(state.identity, entries))
                },
            )
        }),
{
    let woken = transition(state, TailEvent::Woken).0;
    lemma_reads_in_order(woken, entries);
    assert(woken.batch + records_of(state.identity, entries) =~= records_of(
        state.identity,
        entries,
    ));
}

/// Fail fast: when one of the entries at hand has no time, the session ends as malformed and
/// none of the records read since the wake-up is handed over.
pub proof fn lemma_entry_without_time_stops(state: ReaderView, entries: Seq<RawEntry>)
    requires
        state.phase == Phase::Reading,
        !all_timed(entries),
    ensures
        after_events(state, entry_events(entries)) == (ReaderView {
            phase: Phase::Stopped(TailError::MalformedEntry),
            batch: Seq::empty(),
            ..state
        }),
    decreases entries.len(),
{
    let events = entry_events(entries);
    let earlier = entries.drop_last();
    assert(entries.len() > 0);
    assert(events.drop_last() =~= entry_events(earlier));
    assert(entries.last() == entries[entries.len() - 1]);
    assert(events.last() == TailEvent::Entry(entries.last()));
    if all_timed(earlier) {
        lemma_reads_in_order(state, earlier);
        if entries.last().source_time is Some {
            assert forall|i: int| 0 <= i < entries.len() implies (#[trigger] entries[i]).source_time
                is Some by {
                if i < earlier.len() {
                    assert(earlier[i] == entries[i]);
                }
            }
        }
    } else {
        lemma_entry_without_time_stops(state, earlier);
    }
}

impl TailReader {
    /// Where the session stands.
    pub fn phase(&self) -> (phase: Phase)
        ensures
            phase == self@.phase,
    {
        self.phase
    }

    /// Whether new entries are to be traced.
    pub fn verbose(&self) -> (verbose: bool)
        ensures
            verbose == self@.verbose,
    {
        self.verbose
    }

    /// Whether a session was started, be it still live or not.
    pub fn started(&self) -> (started: bool)
        ensures
            started == (self@.phase != Phase::Idle),
    {
        match self.phase {
            Phase::Idle => false,
            _ => true,
        }
    }
}

/// A reader on which no session was started, with the tracing that the configuration asks for.
pub fn initialize(config: &ConfigFile) -> (reader: TailReader)
    ensures
        reader@ == (ReaderView {
            phase: Phase::Idle,
            identity: Seq::empty(),
            verbose: config.verbose,
            batch: Seq::empty(),
        }),
{
    let reader = TailReader {
        phase: Phase::Idle,
        identity: String::new(),
        verbose: config.verbose,
        batch: Vec::new(),
    };
    assert(reader@.batch =~= Seq::empty());
    reader
}

/// Starts the one session of `reader` in the name of the agent `identity`. On a reader that was
/// started before, this fails and changes nothing.
pub fn start(reader: &mut TailReader, identity: String) -> (result: Result<(), TailError>)
    ensures
        match result {
            Ok(_) => old(reader)@.phase == Phase::Idle && final(reader)@ == (ReaderView {
                phase: Phase::Opening,
                identity: identity@,
                verbose: old(reader)@.verbose,
                batch: Seq::empty(),
            }),
            Err(error) => error == TailError::AlreadyRunning && old(reader)@.phase != Phase::Idle
                && final(reader)@ == old(reader)@,
        },
{
    if reader.started() {
        return Err(TailError::AlreadyRunning);
    }
    reader.phase = Phase::Opening;
    reader.identity = identity;
    reader.batch = Vec::new();
    assert(reader@.batch =~= Seq::empty());
    Ok(())
}

/// The action that `reader` waits for.
pub fn request(reader: &TailReader) -> (action: TailAction)
    ensures
        action@ == pending(reader@.phase),
{
    match reader.phase {
        Phase::Idle => TailAction::Idle,
        Phase::Opening => TailAction::Open,
        Phase::Seeking => TailAction::SeekTail,
        Phase::SteppingBack => TailAction::StepBack,
        Phase::Waiting => TailAction::Wait,
        Phase::Reading => TailAction::ReadNext,
        Phase::Stopped(error) => TailAction::Stop(error),
    }
}

fn advance(reader: &mut TailReader, phase: Phase) -> (action: TailAction)
    ensures
        (final(reader)@, action@) == moved(old(reader)@, phase),
{
    reader.phase = phase;
    request(reader)
}

fn halt(reader: &mut TailReader, error: TailError) -> (action: TailAction)
    ensures
        (final(reader)@, action@) == halted(old(reader)@, error),
{
    reader.phase = Phase::Stopped(error);
    reader.batch = Vec::new();
    assert(reader@.batch =~= Seq::empty());
    TailAction::Stop(error)
}

/// Takes in how the last action ended and answers with the next one.
pub fn step(reader: &mut TailReader, event: TailEvent) -> (action: TailAction)
    ensures
        (final(reader)@, action@) == transition(old(reader)@, event),
{
    match reader.phase {
        Phase::Idle => request(reader),
        Phase::Opening => match event {
            TailEvent::Opened => advance(reader, Phase::Seeking),
            TailEvent::OpenFailed => halt(reader, TailError::SourceOpen),
            _ => request(reader),
        },
        Phase::Seeking => match event {
            TailEvent::Positioned => advance(reader, Phase::SteppingBack),
            TailEvent::SeekFailed => halt(reader, TailError::Seek),
            _ => request(reader),
        },
        Phase::SteppingBack => match event {
            TailEvent::SteppedBack => advance(reader, Phase::Waiting),
            TailEvent::NoEarlierEntry => halt(reader, TailError::EmptyJournal),
            TailEvent::StepBackFailed => halt(reader, TailError::Seek),
            _ => request(reader),
        },
        Phase::Waiting => match event {
            TailEvent::Woken => {
                reader.batch = Vec::new();
                assert(reader@.batch =~= Seq::empty());
                advance(reader, Phase::Reading)
            },
            TailEvent::WaitFailed => halt(reader, TailError::SourceRead),
            _ => request(reader),
        },
        Phase::Reading => match event {
            TailEvent::Entry(entry) => match to_record(reader.identity.as_str(), entry) {
                Ok(record) => {
                    reader.batch.push(record);
                    assert(reader@.batch =~= old(reader)@.batch.push(record@));
                    TailAction::ReadNext
                },
                Err(error) => halt(reader, error),
            },
            TailEvent::EndOfEntries => {
                let mut batch: Vec<LogRecord> = Vec::new();
                std::mem::swap(&mut batch, &mut reader.batch);
                reader.phase = Phase::Waiting;
                assert(reader@.batch =~= Seq::empty());
                if batch.len() == 0 {
                    TailAction::Wait
                } else {
                    TailAction::Deliver(batch)
                }
            },
            TailEvent::ReadFailed => halt(reader, TailError::SourceRead),
            _ => request(reader),
        },
        Phase::Stopped(_) => request(reader),
    }
}

} // verus!
