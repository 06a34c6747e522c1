//! Thread-local event buffers, the batches they flush, and the collector that
//! receives the batches.

use std::collections::VecDeque;

use vstd::prelude::*;

use crate::recorder::event::TelemetryEvent;

verus! {

/// A thread-local buffer that holds this many bytes or more flushes itself.
pub const TL_BUFFER_BYTES: usize = 1_048_576;

/// Bytes that the events take together.
pub open spec fn encoded_size(events: Seq<TelemetryEvent>) -> nat
    decreases events.len(),
{
    if events.len() == 0 {
        0
    } else {
        encoded_size(events.drop_last()) + events.last().spec_encoded_len()
    }
}

/// The same, or `usize::MAX` where it does not fit.
pub open spec fn capped_size(events: Seq<TelemetryEvent>) -> usize {
    if encoded_size(events) <= usize::MAX {
        encoded_size(events) as usize
    } else {
        usize::MAX
    }
}

/// Events that left one thread-local buffer together, in recording order.
#[derive(Debug)]
pub struct Batch {
    events: Vec<TelemetryEvent>,
}

impl View for Batch {
    type V = Seq<TelemetryEvent>;

    closed spec fn view(&self) -> Seq<TelemetryEvent> {
        self.events@
    }
}

impl Batch {
    /// The number of events in the batch.
    pub fn event_count(&self) -> (count: u64)
        ensures
            count == self@.len(),
    {
        self.events.len() as u64
    }

    /// The events of the batch.
    pub fn events(&self) -> (events: &Vec<TelemetryEvent>)
        ensures
            events@ == self@,
    {
        &self.events
    }
}

/// The buffer that one thread records into.
#[derive(Debug)]
pub struct ThreadLocalBuffer {
    events: Vec<TelemetryEvent>,
    bytes: usize,
}

impl View for ThreadLocalBuffer {
    type V = Seq<TelemetryEvent>;

    closed spec fn view(&self) -> Seq<TelemetryEvent> {
        self.events@
    }
}

impl ThreadLocalBuffer {
    /// The byte count agrees with the buffered events.
    pub closed spec fn wf(&self) -> bool {
        self.bytes == capped_size(self.events@)
    }

    /// An empty buffer.
    pub fn new() -> (buffer: ThreadLocalBuffer)
        ensures
            buffer.wf(),
            buffer@ == Seq::<TelemetryEvent>::empty(),
    {
        ThreadLocalBuffer { events: Vec::new(), bytes: 0 }
    }

    /// Appends an event.
    pub fn record(&mut self, event: TelemetryEvent)
        requires
            old(self).wf(),
        ensures
            final(self).wf(),
            final(self)@ == old(self)@.push(event),
    {
        self.bytes = self.bytes.saturating_add(event.encoded_len());
        self.events.push(event);
        proof {
            assert(self.events@.drop_last() =~= old(self).events@);
        }
    }

    /// Appends the events, in their order.
    pub fn record_all(&mut self, events: Vec<TelemetryEvent>)
        requires
            old(self).wf(),
        ensures
            final(self).wf(),
            final(self)@ == old(self)@ + events@,
    {
        let mut i: usize = 0;
        let mut bytes: usize = self.bytes;
        while i < events.len()
            invariant
                i <= events@.len(),
                bytes == capped_size(old(self).events@ + events@.take(i as int)),
            decreases events@.len() - i,
        {
            bytes = bytes.saturating_add(events[i].encoded_len());
            assert((old(self).events@ + events@.take(i + 1)).drop_last() =~= old(self).events@
                + events@.take(i as int));
            i = i + 1;
        }
        assert(events@.take(i as int) =~= events@);
        let mut rest = events;
        self.bytes = bytes;
        self.events.append(&mut rest);
    }

    /// Whether an event waits to be flushed.
    pub fn has_pending_events(&self) -> (pending: bool)
        ensures
            pending == (self@.len() > 0),
    {
        self.events.len() > 0
    }

    /// Whether the buffered events fill the buffer.
    pub fn is_full(&self) -> (full: bool)
        requires
            self.wf(),
        ensures
            full == (encoded_size(self@) >= TL_BUFFER_BYTES),
    {
        self.bytes >= TL_BUFFER_BYTES
    }

    /// Takes every buffered event out, in recording order.
    pub fn flush(&mut self) -> (batch: Batch)
        requires
            old(self).wf(),
        ensures
            final(self).wf(),
            final(self)@ == Seq::<TelemetryEvent>::empty(),
            batch@ == old(self)@,
    {
        let mut events: Vec<TelemetryEvent> = Vec::new();
        core::mem::swap(&mut events, &mut self.events);
        self.bytes = 0;
        Batch { events }
    }
}

/// A collector that holds this many batches evicts the oldest to take a new one.
pub const COLLECTOR_BATCHES: usize = 1_024;

/// The number, or the largest count where it does not fit.
pub open spec fn capped(n: int) -> u64 {
    if n <= u64::MAX {
        n as u64
    } else {
        u64::MAX
    }
}

/// What a collector holds.
#[verifier::ext_equal]
pub struct CollectorModel {
    /// The batches that wait to be written, the oldest first.
    pub batches: Seq<Seq<TelemetryEvent>>,
    /// How many batches can wait.
    pub capacity: usize,
    /// How many batches were evicted since the count was last taken.
    pub dropped: u64,
}

impl CollectorModel {
    /// No more batches wait than there is room for.
    pub open spec fn wf(self) -> bool {
        0 < self.capacity && self.batches.len() <= self.capacity
    }

    /// A collector that holds nothing.
    pub open spec fn empty(capacity: usize) -> CollectorModel {
        CollectorModel { batches: Seq::empty(), capacity, dropped: 0 }
    }

    /// How many batches go when these ones come.
    pub open spec fn excess(self, batches: Seq<Seq<TelemetryEvent>>) -> int {
        if self.batches.len() + batches.len() > self.capacity {
            self.batches.len() + batches.len() - self.capacity
        } else {
            0
        }
    }

    /// The batches that go when these ones come: the oldest.
    pub open spec fn evicted(self, batches: Seq<Seq<TelemetryEvent>>) -> Seq<Seq<TelemetryEvent>> {
        (self.batches + batches).take(self.excess(batches))
    }

    /// The collector after these batches came, in their order.
    pub open spec fn accepted(self, batches: Seq<Seq<TelemetryEvent>>) -> CollectorModel {
        CollectorModel {
            batches: (self.batches + batches).skip(self.excess(batches)),
            dropped: capped(self.dropped + self.excess(batches)),
            ..self
        }
    }

    /// The collector after the oldest batch was taken out.
    pub open spec fn taken(self) -> CollectorModel {
        CollectorModel { batches: self.batches.drop_first(), ..self }
    }
}

/// Batches that come in two goes are treated as if they came in one.
pub proof fn law_accepting_in_two_goes(
    collector: CollectorModel,
    first: Seq<Seq<TelemetryEvent>>,
    second: Seq<Seq<TelemetryEvent>>,
)
    requires
        collector.wf(),
    ensures
        collector.accepted(first).wf(),
        collector.accepted(first).accepted(second) == collector.accepted(first + second),
        collector.evicted(first) + collector.accepted(first).evicted(second) == collector.evicted(
            first + second,
        ),
{
    let once = collector.accepted(first);
    let all = collector.batches + first + second;
    assert(collector.batches + (first + second) =~= all);
    assert(once.batches + second =~= all.skip(collector.excess(first)));
    assert(once.accepted(second).batches =~= collector.accepted(first + second).batches);
    assert(collector.evicted(first) + once.evicted(second) =~= collector.evicted(first + second));
}

/// A collector that nothing comes to stays as it is.
pub proof fn law_accepting_nothing(collector: CollectorModel)
    requires
        collector.wf(),
    ensures
        collector.accepted(Seq::empty()) == collector,
        collector.evicted(Seq::empty()).len() == 0,
{
    assert(collector.accepted(Seq::empty()).batches =~= collector.batches);
}

/// The queue of flushed batches that the flush thread writes out, oldest first.
/// It has room for so many: a batch that comes to a full queue takes the place
/// of the oldest one, which is lost with its events and counted as dropped.
#[derive(Debug)]
pub struct CentralCollector {
    batches: VecDeque<Batch>,
    capacity: usize,
    dropped: u64,
}

impl View for CentralCollector {
    type V = CollectorModel;

    closed spec fn view(&self) -> CollectorModel {
        CollectorModel {
            batches: self.batches@.map_values(|batch: Batch| batch@),
            capacity: self.capacity,
            dropped: self.dropped,
        }
    }
}

impl CentralCollector {
    /// No more batches wait than there is room for.
    pub open spec fn wf(&self) -> bool {
        self@.wf()
    }

    /// An empty collector with room for [`COLLECTOR_BATCHES`].
    pub fn new() -> (collector: CentralCollector)
        ensures
            collector.wf(),
            collector@ == CollectorModel::empty(COLLECTOR_BATCHES),
    {
        CentralCollector::with_capacity(COLLECTOR_BATCHES)
    }

    /// An empty collector with room for `capacity` batches.
    pub fn with_capacity(capacity: usize) -> (collector: CentralCollector)
        requires
            capacity > 0,
        ensures
            collector.wf(),
            collector@ == CollectorModel::empty(capacity),
    {
        let collector = CentralCollector { batches: VecDeque::new(), capacity, dropped: 0 };
        assert(collector@ =~= CollectorModel::empty(capacity));
        collector
    }

    /// Appends a batch to the queue. Where the queue is full, the oldest batch
    /// makes room for it.
    pub fn accept_flush(&mut self, batch: Batch)
        requires
            old(self).wf(),
        ensures
            final(self).wf(),
            final(self)@ == old(self)@.accepted(seq![batch@]),
    {
        if self.batches.len() >= self.capacity {
            self.batches.pop_front();
            self.dropped = self.dropped.saturating_add(1);
        }
        self.batches.push_back(batch);
        assert(self@ =~= old(self)@.accepted(seq![batch@]));
    }

    /// Takes the oldest batch, if there is one.
    pub fn next(&mut self) -> (batch: Option<Batch>)
        requires
            old(self).wf(),
        ensures
            final(self).wf(),
            batch is None <==> old(self)@.batches.len() == 0,
            batch is None ==> final(self)@ == old(self)@,
            batch matches Some(b) ==> b@ == old(self)@.batches.first() && final(self)@
                == old(self)@.taken(),
    {
        let batch = self.batches.pop_front();
        assert(batch is Some ==> self@ =~= old(self)@.taken());
        batch
    }

    /// Takes the number of batches that were evicted since it was last taken;
    /// `u64::MAX` where there were more.
    pub fn take_dropped_batches(&mut self) -> (dropped: u64)
        requires
            old(self).wf(),
        ensures
            final(self).wf(),
            dropped == old(self)@.dropped,
            final(self)@ == (CollectorModel { dropped: 0, ..old(self)@ }),
    {
        let dropped = self.dropped;
        self.dropped = 0;
        dropped
    }
}

/// A batch that finds room goes behind the others. One that does not takes the
/// place of the oldest, which is counted as dropped, and still goes last.
pub proof fn law_new_batches_go_last(collector: CollectorModel, batch: Seq<TelemetryEvent>)
    requires
        collector.wf(),
    ensures
        collector.batches.len() < collector.capacity ==> collector.accepted(seq![batch]).batches
            == collector.batches.push(batch) && collector.accepted(seq![batch]).dropped
            == collector.dropped,
        collector.batches.len() == collector.capacity ==> collector.accepted(seq![batch]).batches
            == collector.batches.drop_first().push(batch) && collector.evicted(seq![batch])
            == seq![collector.batches.first()],
        collector.batches.len() == collector.capacity && collector.dropped < u64::MAX
            ==> collector.accepted(seq![batch]).dropped == collector.dropped + 1,
        collector.accepted(seq![batch]).capacity == collector.capacity,
        collector.accepted(seq![batch]).batches.last() == batch,
{
    let after = collector.accepted(seq![batch]);
    if collector.batches.len() < collector.capacity {
        assert(after.batches =~= collector.batches.push(batch));
    } else {
        assert(after.batches =~= collector.batches.drop_first().push(batch));
        assert(collector.evicted(seq![batch]) =~= seq![collector.batches.first()]);
    }
}

/// The writer gets the batches in the order in which they came: the one that is
/// taken out is the oldest, and the rest keep their order.
pub proof fn law_batches_leave_in_order(collector: CollectorModel, i: int)
    requires
        0 <= i < collector.batches.len() - 1,
    ensures
        collector.taken().batches.len() == collector.batches.len() - 1,
        collector.taken().batches[i] == collector.batches[i + 1],
        collector.taken().capacity == collector.capacity,
        collector.taken().dropped == collector.dropped,
{
}

/// The bytes of events add up, whatever their order.
pub proof fn law_sizes_add_up(first: Seq<TelemetryEvent>, second: Seq<TelemetryEvent>)
    ensures
        encoded_size(first + second) == encoded_size(first) + encoded_size(second),
        encoded_size(first + second) == encoded_size(second + first),
        second.len() == 1 ==> encoded_size(second) == second[0].spec_encoded_len(),
{
    lemma_size_of_concat(first, second);
    lemma_size_of_concat(second, first);
    if second.len() == 1 {
        reveal_with_fuel(encoded_size, 2);
        assert(second.drop_last() =~= Seq::empty());
    }
}

proof fn lemma_size_of_concat(first: Seq<TelemetryEvent>, second: Seq<TelemetryEvent>)
    ensures
        encoded_size(first + second) == encoded_size(first) + encoded_size(second),
    decreases second.len(),
{
    if second.len() == 0 {
        assert(first + second =~= first);
    } else {
        lemma_size_of_concat(first, second.drop_last());
        assert((first + second).drop_last() =~= first + second.drop_last());
    }
}

} // verus!
