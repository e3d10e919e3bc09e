//! The bounded queue between the tail reader and the dispatcher.

use crate::config::ConfigFile;
use std::collections::VecDeque;
use vstd::prelude::*;

verus! {

/// One journal entry, as it travels to the collector.
#[derive(Debug, PartialEq, Eq)]
pub struct LogRecord {
    /// The agent that read the entry.
    pub source_identity: String,
    /// Microseconds since the epoch, from the entry's own wall clock.
    pub timestamp_micros: i64,
    /// The facility that wrote the entry.
    pub origin: String,
    /// The text of the entry.
    pub message: String,
}

/// What a `LogRecord` holds, as mathematical values.
pub struct RecordView {
    pub source_identity: Seq<char>,
    pub timestamp_micros: i64,
    pub origin: Seq<char>,
    pub message: Seq<char>,
}

impl View for LogRecord {
    type V = RecordView;

    open spec fn view(&self) -> RecordView {
        RecordView {
            source_identity: self.source_identity@,
            timestamp_micros: self.timestamp_micros,
            origin: self.origin@,
            message: self.message@,
        }
    }
}

impl Clone for LogRecord {
    fn clone(&self) -> (copy: Self)
        ensures
            copy@ == self@,
    {
        LogRecord {
            source_identity: self.source_identity.clone(),
            timestamp_micros: self.timestamp_micros,
            origin: self.origin.clone(),
            message: self.message.clone(),
        }
    }
}

impl DeepView for LogRecord {
    type V = RecordView;

    open spec fn deep_view(&self) -> RecordView {
        self@
    }
}

/// The text that `serde_json` writes, in its compact form, for the JSON object whose members
/// are the string `first_value` under the name `first_key` and the string `second_value`
/// under the name `second_key`.
pub uninterp spec fn json_object_text(
    first_key: Seq<char>,
    first_value: Seq<char>,
    second_key: Seq<char>,
    second_value: Seq<char>,
) -> Seq<char>;

/// Calls `to_string` of `serde_json::Value` on the object with the two given string members,
/// inserted in their order. The contract only gives the resulting text its name: it is a
/// function of the four strings.
#[verifier::external_body]
fn json_object(first_key: &str, first_value: &str, second_key: &str, second_value: &str) -> (text:
    String)
    ensures
        text@ == json_object_text(first_key@, first_value@, second_key@, second_value@),
{
    let mut members = serde_json::Map::new();
    members.insert(first_key.to_owned(), serde_json::Value::String(first_value.to_owned()));
    members.insert(second_key.to_owned(), serde_json::Value::String(second_value.to_owned()));
    serde_json::Value::Object(members).to_string()
}

impl LogRecord {
    /// The content of the record as one text: a JSON object with the origin under `source`
    /// and the message under `message`.
    pub fn payload(&self) -> (text: String)
        ensures
            text@ == json_object_text("source"@, self.origin@, "message"@, self.message@),
    {
        json_object("source", self.origin.as_str(), "message", self.message.as_str())
    }
}

/// The last `count` items of `items`, in their order; all of them where there are no more.
pub open spec fn newest<T>(items: Seq<T>, count: nat) -> Seq<T> {
    if items.len() <= count {
        items
    } else {
        items.subrange(items.len() - count, items.len() as int)
    }
}

/// The number of records that a queue of the given capacity has room for. A record is appended
/// after the oldest one has left, so a queue of capacity zero still holds the record that came
/// last.
pub open spec fn room(capacity: nat) -> nat {
    if capacity == 0 {
        1
    } else {
        capacity
    }
}

/// What a queue of the given capacity holds after the items of `batch` were appended to
/// `contents` one at a time.
pub open spec fn after_appending<T>(contents: Seq<T>, capacity: nat, batch: Seq<T>) -> Seq<T>
    decreases batch.len(),
{
    if batch.len() == 0 {
        contents
    } else {
        newest(
            after_appending(contents, capacity, batch.drop_last()).push(batch.last()),
            room(capacity),
        )
    }
}

/// Appending one at a time keeps what appending all at once and then cutting would keep: the
/// newest items, as many as the queue can hold.
pub proof fn lemma_appending_keeps_newest<T>(contents: Seq<T>, capacity: nat, batch: Seq<T>)
    requires
        contents.len() <= room(capacity),
    ensures
        after_appending(contents, capacity, batch) == newest(contents + batch, room(capacity)),
    decreases batch.len(),
{
    let most = room(capacity);
    if batch.len() == 0 {
        assert(contents + batch =~= contents);
    } else {
        let earlier = batch.drop_last();
        lemma_appending_keeps_newest(contents, capacity, earlier);
        let joined = contents + earlier;
        assert(joined.push(batch.last()) =~= contents + batch);
        assert(newest(newest(joined, most).push(batch.last()), most) =~= newest(
            joined.push(batch.last()),
            most,
        ));
    }
}

/// Capacity invariant: a queue whose capacity is at least one never holds more records than
/// its capacity, whatever is appended to it.
pub proof fn lemma_capacity_never_exceeded<T>(contents: Seq<T>, capacity: nat, batch: Seq<T>)
    requires
        capacity >= 1,
        contents.len() <= capacity,
    ensures
        after_appending(contents, capacity, batch).len() <= capacity,
{
    lemma_appending_keeps_newest(contents, capacity, batch);
}

/// Drop-oldest: after one record more than its capacity was appended to an empty queue, the
/// queue holds all of them but the first, in their order.
pub proof fn lemma_one_too_many_drops_first<T>(capacity: nat, batch: Seq<T>)
    requires
        capacity >= 1,
        batch.len() == capacity + 1,
    ensures
        after_appending(Seq::<T>::empty(), capacity, batch) == batch.drop_first(),
{
    lemma_appending_keeps_newest(Seq::<T>::empty(), capacity, batch);
    assert(Seq::<T>::empty() + batch =~= batch);
    assert(newest(batch, capacity) =~= batch.drop_first());
}

/// First in, first out: what waits in a queue that was empty is an unbroken run of the
/// records appended to it, up to the last one and in the order of appending; all of them
/// where the queue had room.
pub proof fn lemma_order_preserved<T>(capacity: nat, batch: Seq<T>)
    ensures
        after_appending(Seq::<T>::empty(), capacity, batch) == newest(batch, room(capacity)),
        batch.len() <= room(capacity) ==> after_appending(Seq::<T>::empty(), capacity, batch)
            == batch,
{
    lemma_appending_keeps_newest(Seq::<T>::empty(), capacity, batch);
    assert(Seq::<T>::empty() + batch =~= batch);
}

/// A first-in, first-out buffer of records with a fixed capacity. When it is full, the oldest
/// record makes room for the new one.
pub struct LogQueue {
    entries: VecDeque<LogRecord>,
    limit: usize,
    verbose: bool,
}

impl View for LogQueue {
    type V = Seq<RecordView>;

    closed spec fn view(&self) -> Seq<RecordView> {
        self.entries.deep_view()
    }
}

impl LogQueue {
    #[verifier::type_invariant]
    spec fn within_room(self) -> bool {
        self.entries@.len() <= room(self.limit as nat)
    }

    /// The capacity that the queue was made with.
    pub closed spec fn spec_capacity(&self) -> usize {
        self.limit
    }

    /// Whether overflow is to be traced.
    pub closed spec fn spec_verbose(&self) -> bool {
        self.verbose
    }

    /// The capacity that the queue was made with.
    #[verifier::when_used_as_spec(spec_capacity)]
    pub fn capacity(&self) -> (capacity: usize)
        ensures
            capacity == self.spec_capacity(),
    {
        self.limit
    }

    /// Whether overflow is to be traced.
    #[verifier::when_used_as_spec(spec_verbose)]
    pub fn verbose(&self) -> (verbose: bool)
        ensures
            verbose == self.spec_verbose(),
    {
        self.verbose
    }

    /// Whether no record waits in the queue.
    pub fn is_empty(&self) -> (empty: bool)
        ensures
            empty == (self@.len() == 0),
    {
        self.entries.len() == 0
    }

    /// The number of records that wait in the queue.
    pub fn len(&self) -> (count: usize)
        ensures
            count == self@.len(),
            count <= room(self.capacity() as nat),
    {
        proof {
            use_type_invariant(self);
        }
        self.entries.len()
    }
}

/// An empty queue with the capacity and the tracing that the configuration asks for.
pub fn initialize(config: &ConfigFile) -> (queue: LogQueue)
    ensures
        queue@ == Seq::<RecordView>::empty(),
        queue.capacity() == config.maximum_log_entries,
        queue.verbose() == config.verbose,
{
    LogQueue { entries: VecDeque::new(), limit: config.maximum_log_entries, verbose: config.verbose }
}

/// Appends `record`. A queue that is full first drops its oldest record, which is returned.
pub fn add_entry(queue: &mut LogQueue, record: LogRecord) -> (dropped: Option<LogRecord>)
    ensures
        final(queue)@ == newest(old(queue)@.push(record@), room(old(queue).capacity() as nat)),
        final(queue).capacity() == old(queue).capacity(),
        final(queue).verbose() == old(queue).verbose(),
        final(queue)@.len() <= room(old(queue).capacity() as nat),
        old(queue).capacity() >= 1 ==> final(queue)@.len() <= old(queue).capacity(),
        match dropped {
            Some(oldest) => old(queue)@.len() == room(old(queue).capacity() as nat) && oldest@
                == old(queue)@[0],
            None => old(queue)@.len() < room(old(queue).capacity() as nat),
        },
{
    proof {
        use_type_invariant(&*queue);
    }
    let mut entries: VecDeque<LogRecord> = VecDeque::new();
    std::mem::swap(&mut entries, &mut queue.entries);
    let mut dropped: Option<LogRecord> = None;
    if entries.len() >= queue.limit {
        dropped = entries.pop_front();
    }
    entries.push_back(record);
    queue.entries = entries;
    assert(queue@ =~= newest(old(queue)@.push(record@), room(old(queue).capacity() as nat)));
    dropped
}

/// Appends the records of `batch` one at a time, in their order, and says how many records were
/// dropped to make room.
pub fn add_entries(queue: &mut LogQueue, batch: Vec<LogRecord>) -> (dropped: usize)
    ensures
        final(queue)@ == newest(
            old(queue)@ + batch.deep_view(),
            room(old(queue).capacity() as nat),
        ),
        dropped == old(queue)@.len() + batch@.len() - final(queue)@.len(),
        final(queue).capacity() == old(queue).capacity(),
        final(queue).verbose() == old(queue).verbose(),
        final(queue)@.len() <= room(old(queue).capacity() as nat),
        old(queue).capacity() >= 1 ==> final(queue)@.len() <= old(queue).capacity(),
{
    proof {
        use_type_invariant(&*queue);
    }
    let ghost incoming = batch.deep_view();
    let ghost most = room(queue.capacity() as nat);
    assert(incoming.len() == batch.len());
    let mut dropped: usize = 0;
    for record in iter: batch
        invariant
            incoming == iter.seq().map_values(|r: LogRecord| r@),
            incoming.len() <= usize::MAX,
            dropped <= iter.index(),
            most == room(old(queue).capacity() as nat),
            queue.capacity() == old(queue).capacity(),
            queue.verbose() == old(queue).verbose(),
            queue@.len() <= most,
            queue@ == newest(old(queue)@ + incoming.take(iter.index()), most),
            dropped == old(queue)@.len() + iter.index() - queue@.len(),
    {
        let ghost at = iter.index();
        let oldest = add_entry(queue, record);
        if oldest.is_some() {
            dropped = dropped + 1;
        }
        proof {
            assert(incoming.take(at + 1) =~= incoming.take(at).push(record@));
            assert(old(queue)@ + incoming.take(at + 1) =~= (old(queue)@ + incoming.take(at)).push(
                record@,
            ));
        }
    }
    proof {
        assert(incoming.take(incoming.len() as int) =~= incoming);
    }
    dropped
}

/// Takes every record out of the queue, oldest first, and leaves it empty.
pub fn drain_all(queue: &mut LogQueue) -> (batch: Vec<LogRecord>)
    ensures
        batch.deep_view() == old(queue)@,
        final(queue)@ == Seq::<RecordView>::empty(),
        final(queue).capacity() == old(queue).capacity(),
        final(queue).verbose() == old(queue).verbose(),
{
    let mut entries: VecDeque<LogRecord> = VecDeque::new();
    std::mem::swap(&mut entries, &mut queue.entries);
    let mut batch: Vec<LogRecord> = Vec::new();
    while entries.len() > 0
        invariant
            batch.deep_view() + entries.deep_view() == old(queue)@,
        decreases entries.len(),
    {
        let ghost taken = batch.deep_view();
        let ghost left = entries.deep_view();
        let next = entries.pop_front();
        match next {
            Some(record) => {
                batch.push(record);
                assert(batch.deep_view() =~= taken.push(record@));
                assert(entries.deep_view() =~= left.drop_first());
                assert(batch.deep_view() + entries.deep_view() =~= taken + left);
            },
            None => {},
        }
    }
    assert(batch.deep_view() =~= batch.deep_view() + entries.deep_view());
    batch
}

} // verus!
