//! The dispatcher: on each tick of its timer it empties the queue and hands what it found to
//! the transport as one batch.
//!
//! The dispatcher neither sleeps nor sends. Its driver tells it of each tick and of the end of
//! each send, and does what the dispatcher answers.

use crate::config::ConfigFile;
use crate::log_queue::{drain_all, LogQueue, LogRecord, RecordView};
use vstd::prelude::*;

verus! {

/// What the dispatcher asks its driver to do on a tick.
#[derive(Debug, PartialEq, Eq)]
pub enum DispatchAction {
    /// Nothing: no record waits.
    Rest,
    /// Nothing: the batch of an earlier tick is still being sent.
    Skip,
    /// Send these records as one batch, then say that the send has ended.
    Send(Vec<LogRecord>),
}

/// A `DispatchAction` with the records it carries as mathematical values.
pub enum DispatchView {
    Rest,
    Skip,
    Send(Seq<RecordView>),
}

impl View for DispatchAction {
    type V = DispatchView;

    open spec fn view(&self) -> DispatchView {
        match self {
            DispatchAction::Rest => DispatchView::Rest,
            DispatchAction::Skip => DispatchView::Skip,
            DispatchAction::Send(batch) => DispatchView::Send(batch.deep_view()),
        }
    }
}

/// The timer-driven consumer of the queue.
pub struct Dispatcher {
    sending: bool,
    interval_ms: u64,
    verbose: bool,
}

/// What a tick leads to: whether a send is in flight afterwards, what is left in the queue,
/// and what the driver is asked to do. `sending` says whether a send was in flight before
/// and `waiting` what the queue held.
pub open spec fn ticked(sending: bool, waiting: Seq<RecordView>) -> (
    bool,
    Seq<RecordView>,
    DispatchView,
) {
    if sending {
        (true, waiting, DispatchView::Skip)
    } else if waiting.len() == 0 {
        (false, waiting, DispatchView::Rest)
    } else {
        (true, Seq::empty(), DispatchView::Send(waiting))
    }
}

/// Whether a send is in flight, and what the queue holds, after `count` ticks in a row during
/// which no send ends and no record arrives.
pub open spec fn after_ticks(sending: bool, waiting: Seq<RecordView>, count: nat) -> (
    bool,
    Seq<RecordView>,
)
    decreases count,
{
    if count == 0 {
        (sending, waiting)
    } else {
        let earlier = after_ticks(sending, waiting, (count - 1) as nat);
        let now = ticked(earlier.0, earlier.1);
        (now.0, now.1)
    }
}

/// Quiet ticks: while the queue is empty and nothing is being sent, a tick changes nothing and
/// asks for nothing, however many ticks there are.
pub proof fn lemma_quiet_ticks_do_nothing(count: nat)
    ensures
        ticked(false, Seq::empty()) == (false, Seq::<RecordView>::empty(), DispatchView::Rest),
        after_ticks(false, Seq::empty(), count) == (false, Seq::<RecordView>::empty()),
    decreases count,
{
    if count > 0 {
        lemma_quiet_ticks_do_nothing((count - 1) as nat);
    }
}

/// No overlap: while a batch is being sent, every tick is skipped and leaves the queue as it
/// is, however many ticks there are.
pub proof fn lemma_ticks_wait_for_the_send(waiting: Seq<RecordView>, count: nat)
    ensures
        ticked(true, waiting) == (true, waiting, DispatchView::Skip),
        after_ticks(true, waiting, count) == (true, waiting),
    decreases count,
{
    if count > 0 {
        lemma_ticks_wait_for_the_send(waiting, (count - 1) as nat);
    }
}

impl Dispatcher {
    /// Whether a batch is being sent.
    pub closed spec fn spec_sending(&self) -> bool {
        self.sending
    }

    /// The time between two ticks, in milliseconds.
    pub closed spec fn spec_interval_ms(&self) -> u64 {
        self.interval_ms
    }

    /// Whether dispatches are to be traced.
    pub closed spec fn spec_verbose(&self) -> bool {
        self.verbose
    }

    /// Whether a batch is being sent.
    #[verifier::when_used_as_spec(spec_sending)]
    pub fn sending(&self) -> (sending: bool)
        ensures
            sending == self.spec_sending(),
    {
        self.sending
    }

    /// The time between two ticks, in milliseconds.
    #[verifier::when_used_as_spec(spec_interval_ms)]
    pub fn interval_ms(&self) -> (interval: u64)
        ensures
            interval == self.spec_interval_ms(),
    {
        self.interval_ms
    }

    /// Whether dispatches are to be traced.
    #[verifier::when_used_as_spec(spec_verbose)]
    pub fn verbose(&self) -> (verbose: bool)
        ensures
            verbose == self.spec_verbose(),
    {
        self.verbose
    }
}

/// A dispatcher that sends nothing yet, with the interval and the tracing that the
/// configuration asks for.
pub fn initialize(config: &ConfigFile) -> (dispatcher: Dispatcher)
    ensures
        !dispatcher.sending(),
        dispatcher.interval_ms() == config.dispatch_sleep_ms,
        dispatcher.verbose() == config.verbose,
{
    Dispatcher { sending: false, interval_ms: config.dispatch_sleep_ms, verbose: config.verbose }
}

/// One tick of the timer. Unless an earlier batch is still being sent, the queue is emptied;
/// what it held, if anything, becomes the batch to send.
pub fn on_tick(dispatcher: &mut Dispatcher, queue: &mut LogQueue) -> (action: DispatchAction)
    ensures
        (final(dispatcher).sending(), final(queue)@, action@) == ticked(
            old(dispatcher).sending(),
            old(queue)@,
        ),
        final(dispatcher).interval_ms() == old(dispatcher).interval_ms(),
        final(dispatcher).verbose() == old(dispatcher).verbose(),
        final(queue).capacity() == old(queue).capacity(),
        final(queue).verbose() == old(queue).verbose(),
{
    if dispatcher.sending {
        return DispatchAction::Skip;
    }
    let batch = drain_all(queue);
    if batch.len() == 0 {
        assert(old(queue)@ =~= Seq::empty());
        DispatchAction::Rest
    } else {
        dispatcher.sending = true;
        DispatchAction::Send(batch)
    }
}

/// The send that the last tick asked for has ended, well or not. A failed send is not tried
/// again and its records are not put back.
pub fn on_send_finished(dispatcher: &mut Dispatcher)
    ensures
        !final(dispatcher).sending(),
        final(dispatcher).interval_ms() == old(dispatcher).interval_ms(),
        final(dispatcher).verbose() == old(dispatcher).verbose(),
{
    dispatcher.sending = false;
}

} // verus!
