//! The recording core that all runtimes of a session share.
//!
//! Every thread records into a buffer of its own. The flush thread advances a
//! drain epoch and then empties the buffers that their owners left alone since.

use std::collections::HashMap;

use vstd::prelude::*;

use crate::recorder::buffer::{
    capped, encoded_size, law_accepting_in_two_goes, law_accepting_nothing, CentralCollector,
    CollectorModel, ThreadLocalBuffer, COLLECTOR_BATCHES, TL_BUFFER_BYTES,
};
use crate::recorder::event::{TaskId, TelemetryEvent, ThreadRole, WorkerId};
use crate::recorder::runtime_context::{worker_block, ContextModel, RuntimeContext};
use crate::recorder::source::{Source, SourceModel};
use crate::text::{decimal, from_decimal, is_decimal, law_decimal_is_injective};

verus! {

/// The registration of one thread-local buffer.
#[derive(Debug)]
pub struct TlBufferHandle {
    /// The thread that records into the buffer.
    pub thread: u64,
    /// The buffer; `None` once its thread has exited.
    pub buffer: Option<ThreadLocalBuffer>,
    /// Whether an encoder failed half-way through a write to the buffer.
    pub poisoned: bool,
    /// The drain epoch in which the buffer was last flushed.
    pub flush_epoch: u64,
}

/// What a registered buffer holds.
#[verifier::ext_equal]
pub struct BufferModel {
    pub thread: u64,
    pub live: bool,
    pub poisoned: bool,
    pub flush_epoch: u64,
    pub pending: Seq<TelemetryEvent>,
}

impl View for TlBufferHandle {
    type V = BufferModel;

    open spec fn view(&self) -> BufferModel {
        BufferModel {
            thread: self.thread,
            live: self.buffer is Some,
            poisoned: self.poisoned,
            flush_epoch: self.flush_epoch,
            pending: match self.buffer {
                Some(buffer) => buffer@,
                None => Seq::empty(),
            },
        }
    }
}

impl TlBufferHandle {
    /// The buffer, where there is one, keeps its own invariant.
    pub open spec fn wf(&self) -> bool {
        self.buffer matches Some(buffer) ==> buffer.wf()
    }
}

/// Counters of one drain over all registered buffers.
#[derive(Clone, Copy, Debug, PartialEq, Eq, Structural)]
pub struct TlDrainStats {
    /// Buffers left alone because they were flushed in the current epoch.
    pub buffers_skipped_busy: u64,
    /// Buffers that were locked.
    pub buffers_locked: u64,
    /// Events that were flushed; `u64::MAX` where there were more.
    pub events_flushed: u64,
    /// Buffers that had something to flush.
    pub buffers_flushed: u64,
    /// Registrations of exited threads that were dropped.
    pub dead_pruned: u64,
}

impl BufferModel {
    /// The buffer was flushed in `epoch` or later.
    pub open spec fn busy(self, epoch: u64) -> bool {
        self.flush_epoch >= epoch
    }

    /// A drain in `epoch` takes the lock of this buffer.
    pub open spec fn lockable(self, epoch: u64) -> bool {
        !self.busy(epoch) && self.live && !self.poisoned
    }

    /// The buffer after a drain in `epoch` has passed it.
    pub open spec fn drained(self, epoch: u64) -> BufferModel {
        if self.lockable(epoch) {
            BufferModel { flush_epoch: epoch, pending: Seq::empty(), ..self }
        } else {
            self
        }
    }

    /// The batch that a drain in `epoch` takes from the buffer.
    pub open spec fn flushed(self, epoch: u64) -> Option<Seq<TelemetryEvent>> {
        if self.lockable(epoch) && self.pending.len() > 0 {
            Some(self.pending)
        } else {
            None
        }
    }
}

/// The batches that a drain in `epoch` takes from the buffers, in their order.
pub open spec fn flushed_batches(buffers: Seq<BufferModel>, epoch: u64) -> Seq<
    Seq<TelemetryEvent>,
> {
    buffers.filter_map(|b: BufferModel| b.flushed(epoch))
}

/// The number of buffers that are busy in `epoch`.
pub open spec fn busy_count(buffers: Seq<BufferModel>, epoch: u64) -> nat {
    buffers.filter(|b: BufferModel| b.busy(epoch)).len()
}

/// The number of buffers that a drain in `epoch` locks.
pub open spec fn lockable_count(buffers: Seq<BufferModel>, epoch: u64) -> nat {
    buffers.filter(|b: BufferModel| b.lockable(epoch)).len()
}

/// The registrations whose thread still runs.
pub open spec fn live_buffers(buffers: Seq<BufferModel>) -> Seq<BufferModel> {
    buffers.filter(|b: BufferModel| b.live)
}

fn drain_handle(
    handle: &mut TlBufferHandle,
    epoch: u64,
    collector: &mut CentralCollector,
    stats: &mut TlDrainStats,
)
    requires
        old(handle).wf(),
        old(collector).wf(),
        old(stats).buffers_skipped_busy < u64::MAX,
        old(stats).buffers_locked < u64::MAX,
        old(stats).buffers_flushed < u64::MAX,
    ensures
        final(handle).wf(),
        final(collector).wf(),
        final(handle)@ == old(handle)@.drained(epoch),
        final(collector)@ == match old(handle)@.flushed(epoch) {
            Some(batch) => old(collector)@.accepted(seq![batch]),
            None => old(collector)@,
        },
        final(stats).dead_pruned == old(stats).dead_pruned,
        final(stats).buffers_skipped_busy == old(stats).buffers_skipped_busy + if old(
            handle,
        )@.busy(epoch) {
            1int
        } else {
            0
        },
        final(stats).buffers_locked == old(stats).buffers_locked + if old(handle)@.lockable(epoch) {
            1int
        } else {
            0
        },
        final(stats).buffers_flushed == old(stats).buffers_flushed + if old(handle)@.flushed(
            epoch,
        ) is Some {
            1int
        } else {
            0
        },
        final(stats).events_flushed == capped(
            old(stats).events_flushed + match old(handle)@.flushed(epoch) {
                Some(batch) => batch.len() as int,
                None => 0,
            },
        ),
{
    if handle.flush_epoch >= epoch {
        stats.buffers_skipped_busy = stats.buffers_skipped_busy + 1;
        return ;
    }
    if handle.poisoned {
        return ;
    }
    if let Some(buffer) = &mut handle.buffer {
        stats.buffers_locked = stats.buffers_locked + 1;
        if buffer.has_pending_events() {
            let batch = buffer.flush();
            stats.events_flushed = stats.events_flushed.saturating_add(batch.event_count());
            stats.buffers_flushed = stats.buffers_flushed + 1;
            collector.accept_flush(batch);
        }
        handle.flush_epoch = epoch;
    }
}

/// The recording core of a session.
pub struct SharedState {
    /// Whether events are recorded.
    pub enabled: bool,
    /// Whether idle tasks are dumped at their yield points.
    pub task_dumps_enabled: bool,
    /// How long a task stays idle before it is dumped, in nanoseconds.
    pub task_dump_idle_threshold_ns: u64,
    /// Seed that makes the sampling of task dumps deterministic.
    pub task_dump_rng_seed: Option<u64>,
    /// The batches on their way to the writer.
    pub collector: CentralCollector,
    /// Monotonic time at which the session started.
    pub start_time_ns: u64,
    /// The first worker identity that no runtime has reserved.
    pub next_worker_id: u64,
    /// The current drain epoch.
    pub drain_epoch: u64,
    /// The registered thread-local buffers.
    pub tl_buffers: Vec<TlBufferHandle>,
    /// The attached runtimes.
    pub contexts: Vec<RuntimeContext>,
    /// Roles of operating-system threads, by thread number.
    pub thread_roles: HashMap<u32, ThreadRole>,
    /// The data sources that the flush thread drains.
    pub sources: Vec<Source>,
}

/// What the recording core holds.
#[verifier::ext_equal]
pub struct SharedModel {
    pub enabled: bool,
    pub task_dumps_enabled: bool,
    pub task_dump_idle_threshold_ns: u64,
    pub task_dump_rng_seed: Option<u64>,
    pub collector: CollectorModel,
    pub start_time_ns: u64,
    pub next_worker_id: u64,
    pub drain_epoch: u64,
    pub buffers: Seq<BufferModel>,
    pub contexts: Seq<ContextModel>,
    pub thread_roles: Map<u32, ThreadRole>,
    pub sources: Seq<SourceModel>,
}

impl View for SharedState {
    type V = SharedModel;

    open spec fn view(&self) -> SharedModel {
        SharedModel {
            enabled: self.enabled,
            task_dumps_enabled: self.task_dumps_enabled,
            task_dump_idle_threshold_ns: self.task_dump_idle_threshold_ns,
            task_dump_rng_seed: self.task_dump_rng_seed,
            collector: self.collector@,
            start_time_ns: self.start_time_ns,
            next_worker_id: self.next_worker_id,
            drain_epoch: self.drain_epoch,
            buffers: self.tl_buffers@.map_values(|h: TlBufferHandle| h@),
            contexts: self.contexts@.map_values(|c: RuntimeContext| c@),
            thread_roles: self.thread_roles@,
            sources: self.sources@.map_values(|s: Source| s@),
        }
    }
}

/// Handle `i` is the live registration of `thread`.
pub open spec fn live_at(buffers: Seq<BufferModel>, thread: u64, i: int) -> bool {
    0 <= i < buffers.len() && buffers[i].live && buffers[i].thread == thread
}

/// The thread has a live registration.
pub open spec fn registered(buffers: Seq<BufferModel>, thread: u64) -> bool {
    exists|i: int| live_at(buffers, thread, i)
}

/// The place of the thread's live registration.
pub open spec fn place_of(buffers: Seq<BufferModel>, thread: u64) -> int {
    choose|i: int| live_at(buffers, thread, i)
}

/// No two live registrations belong to one thread.
pub open spec fn one_buffer_per_thread(buffers: Seq<BufferModel>) -> bool {
    forall|t: u64, i: int, j: int| #[trigger]
        live_at(buffers, t, i) && #[trigger] live_at(buffers, t, j) ==> i == j
}

/// Every worker identity lies below the next one to reserve, and no two
/// workers share one.
pub open spec fn distinct_workers(contexts: Seq<ContextModel>, next_worker_id: u64) -> bool {
    &&& forall|c: int, w: u64| #[trigger]
        is_worker(contexts, c, w) ==> contexts[c].worker_ids[w] < next_worker_id
    &&& forall|c1: int, w1: u64, c2: int, w2: u64| #[trigger]
        is_worker(contexts, c1, w1) && #[trigger] is_worker(contexts, c2, w2)
            && contexts[c1].worker_ids[w1] == contexts[c2].worker_ids[w2] ==> c1 == c2 && w1 == w2
}

/// Context `c` has a worker with index `w`.
pub open spec fn is_worker(contexts: Seq<ContextModel>, c: int, w: u64) -> bool {
    0 <= c < contexts.len() && contexts[c].worker_ids.dom().contains(w)
}

/// What the sources hold together, in their order.
pub open spec fn source_events(
    sources: Seq<SourceModel>,
    roles: Map<u32, ThreadRole>,
) -> Seq<TelemetryEvent>
    decreases sources.len(),
{
    if sources.len() == 0 {
        Seq::empty()
    } else {
        source_events(sources.drop_last(), roles) + sources.last().events(roles)
    }
}

impl SharedModel {
    /// What every operation keeps.
    pub open spec fn wf(self) -> bool {
        &&& self.collector.wf()
        &&& one_buffer_per_thread(self.buffers)
        &&& distinct_workers(self.contexts, self.next_worker_id)
    }

    /// The buffers with a live registration for `thread` among them.
    pub open spec fn with_registration(self, thread: u64) -> Seq<BufferModel> {
        if registered(self.buffers, thread) {
            self.buffers
        } else {
            self.buffers.push(
                BufferModel {
                    thread,
                    live: true,
                    poisoned: false,
                    flush_epoch: 0,
                    pending: Seq::empty(),
                },
            )
        }
    }

    /// The state after `thread` recorded `events` in one go. A buffer that is
    /// full, or that was last flushed in an earlier epoch, flushes itself.
    /// A poisoned buffer takes nothing.
    pub open spec fn recorded(self, thread: u64, events: Seq<TelemetryEvent>) -> SharedModel {
        let buffers = self.with_registration(thread);
        let i = place_of(buffers, thread);
        let buffer = buffers[i];
        let pending = buffer.pending + events;
        if buffer.poisoned {
            SharedModel { buffers, ..self }
        } else if encoded_size(pending) >= TL_BUFFER_BYTES || buffer.flush_epoch
            < self.drain_epoch {
            SharedModel {
                buffers: buffers.update(
                    i,
                    BufferModel {
                        flush_epoch: self.drain_epoch,
                        pending: Seq::empty(),
                        ..buffer
                    },
                ),
                collector: if pending.len() > 0 {
                    self.collector.accepted(seq![pending])
                } else {
                    self.collector
                },
                ..self
            }
        } else {
            SharedModel { buffers: buffers.update(i, BufferModel { pending, ..buffer }), ..self }
        }
    }

    /// The state after `thread` recorded `events` one by one.
    pub open spec fn recorded_each(self, thread: u64, events: Seq<TelemetryEvent>) -> SharedModel
        decreases events.len(),
    {
        if events.len() == 0 {
            self
        } else {
            self.recorded_each(thread, events.drop_last()).recorded(thread, seq![events.last()])
        }
    }

    /// The state after the pending events of `thread` were flushed.
    pub open spec fn flushed(self, thread: u64) -> SharedModel {
        let i = place_of(self.buffers, thread);
        let buffer = self.buffers[i];
        if registered(self.buffers, thread) && !buffer.poisoned && buffer.pending.len() > 0 {
            SharedModel {
                buffers: self.buffers.update(
                    i,
                    BufferModel { pending: Seq::empty(), ..buffer },
                ),
                collector: self.collector.accepted(seq![buffer.pending]),
                ..self
            }
        } else {
            self
        }
    }

    /// The state after `thread` exited: its buffer is flushed and gone.
    pub open spec fn exited(self, thread: u64) -> SharedModel {
        let i = place_of(self.buffers, thread);
        let buffer = self.buffers[i];
        if registered(self.buffers, thread) {
            SharedModel {
                buffers: self.buffers.update(
                    i,
                    BufferModel { live: false, pending: Seq::empty(), ..buffer },
                ),
                collector: if buffer.pending.len() > 0 {
                    self.collector.accepted(seq![buffer.pending])
                } else {
                    self.collector
                },
                ..self
            }
        } else {
            self
        }
    }

    /// The state after a runtime with `count` workers was attached.
    pub open spec fn attached(self, name: Option<Seq<char>>, count: u64) -> SharedModel {
        SharedModel {
            next_worker_id: (self.next_worker_id + count) as u64,
            contexts: self.contexts.push(
                ContextModel {
                    name,
                    workers_and_base: Some((count, self.next_worker_id)),
                    worker_ids: worker_block(self.next_worker_id, count),
                },
            ),
            ..self
        }
    }

    /// The state after the data sources were drained on `thread`.
    pub open spec fn sources_flushed(self, thread: u64) -> SharedModel {
        self.with_sources_emptied().recorded_each(
            thread,
            source_events(self.sources, self.thread_roles),
        )
    }

    /// The state with nothing left in the data sources.
    pub open spec fn with_sources_emptied(self) -> SharedModel {
        SharedModel { sources: self.sources.map_values(|s: SourceModel| s.emptied()), ..self }
    }

    /// The state after every registered buffer was drained and the
    /// registrations of exited threads were dropped.
    pub open spec fn drained(self) -> SharedModel {
        let epoch = self.drain_epoch;
        SharedModel {
            buffers: live_buffers(self.buffers.map_values(|b: BufferModel| b.drained(epoch))),
            collector: self.collector.accepted(flushed_batches(self.buffers, epoch)),
            ..self
        }
    }

    /// The counters of the drain that leads to `drained`.
    pub open spec fn drain_stats(self) -> TlDrainStats {
        let epoch = self.drain_epoch;
        TlDrainStats {
            buffers_skipped_busy: busy_count(self.buffers, epoch) as u64,
            buffers_locked: lockable_count(self.buffers, epoch) as u64,
            events_flushed: capped(flushed_batches(self.buffers, epoch).flatten().len() as int),
            buffers_flushed: flushed_batches(self.buffers, epoch).len() as u64,
            dead_pruned: (self.buffers.len() - live_buffers(self.buffers).len()) as u64,
        }
    }
}

impl SharedState {
    /// What every operation keeps.
    pub open spec fn wf(&self) -> bool {
        &&& forall|i: int| 0 <= i < self.tl_buffers@.len() ==> #[trigger] self.tl_buffers@[i].wf()
        &&& self@.wf()
    }

    /// A core that records nothing yet.
    pub fn new(start_time_ns: u64, task_dump_rng_seed: Option<u64>) -> (state: SharedState)
        ensures
            state.wf(),
            state@ == (SharedModel {
                enabled: false,
                task_dumps_enabled: false,
                task_dump_idle_threshold_ns: 0,
                task_dump_rng_seed,
                collector: CollectorModel::empty(COLLECTOR_BATCHES),
                start_time_ns,
                next_worker_id: 0,
                drain_epoch: 0,
                buffers: Seq::empty(),
                contexts: Seq::empty(),
                thread_roles: Map::empty(),
                sources: Seq::empty(),
            }),
    {
        let state = SharedState {
            enabled: false,
            task_dumps_enabled: false,
            task_dump_idle_threshold_ns: 0,
            task_dump_rng_seed,
            collector: CentralCollector::new(),
            start_time_ns,
            next_worker_id: 0,
            drain_epoch: 0,
            tl_buffers: Vec::new(),
            contexts: Vec::new(),
            thread_roles: HashMap::new(),
            sources: Vec::new(),
        };
        assert(state@.buffers =~= Seq::empty());
        assert(state@.contexts =~= Seq::empty());
        assert(state@.sources =~= Seq::empty());
        state
    }

    /// Whether events are recorded.
    pub fn is_enabled(&self) -> (enabled: bool)
        ensures
            enabled == self@.enabled,
    {
        self.enabled
    }

    /// Registers a data source for the flush thread to drain.
    pub fn push_source(&mut self, source: Source)
        requires
            old(self).wf(),
        ensures
            final(self).wf(),
            final(self)@ == (SharedModel {
                sources: old(self)@.sources.push(source@),
                ..old(self)@
            }),
    {
        self.sources.push(source);
        assert(self@.sources =~= old(self)@.sources.push(source@));
    }

    /// Advances the drain epoch, so that each thread that goes on recording
    /// flushes its own buffer.
    pub fn bump_drain_epoch(&mut self)
        requires
            old(self).wf(),
        ensures
            final(self).wf(),
            final(self)@ == (SharedModel {
                drain_epoch: if old(self)@.drain_epoch == u64::MAX {
                    0
                } else {
                    (old(self)@.drain_epoch + 1) as u64
                },
                ..old(self)@
            }),
    {
        self.drain_epoch = self.drain_epoch.wrapping_add(1);
    }

    /// The place of the thread's live registration, or the number of
    /// registrations where it has none.
    fn find_live(&self, thread: u64) -> (place: usize)
        ensures
            place < self.tl_buffers@.len() ==> live_at(self@.buffers, thread, place as int),
            place >= self.tl_buffers@.len() ==> place == self.tl_buffers@.len() && !registered(
                self@.buffers,
                thread,
            ),
    {
        let mut i: usize = 0;
        while i < self.tl_buffers.len()
            invariant
                i <= self.tl_buffers@.len(),
                forall|j: int| 0 <= j < i ==> !live_at(self@.buffers, thread, j),
            decreases self.tl_buffers@.len() - i,
        {
            if self.tl_buffers[i].thread == thread && self.tl_buffers[i].buffer.is_some() {
                return i;
            }
            i = i + 1;
        }
        i
    }

    /// Registers a buffer for the thread where it has none, and returns the
    /// place of its registration.
    fn register(&mut self, thread: u64) -> (place: usize)
        requires
            old(self).wf(),
        ensures
            final(self).wf(),
            final(self)@ == (SharedModel {
                buffers: old(self)@.with_registration(thread),
                ..old(self)@
            }),
            live_at(final(self)@.buffers, thread, place as int),
            place as int == place_of(final(self)@.buffers, thread),
    {
        let place = self.find_live(thread);
        if place == self.tl_buffers.len() {
            let handle = TlBufferHandle {
                thread,
                buffer: Some(ThreadLocalBuffer::new()),
                poisoned: false,
                flush_epoch: 0,
            };
            self.tl_buffers.push(handle);
            proof {
                let before = old(self)@.buffers;
                assert(self@.buffers =~= before.push(handle@));
                assert forall|t: u64, i: int| live_at(self@.buffers, t, i) implies (i
                    == before.len() && t == thread) || live_at(before, t, i) by {}
                assert(one_buffer_per_thread(self@.buffers)) by {
                    assert forall|t: u64, i: int, j: int| #[trigger]
                        live_at(self@.buffers, t, i) && #[trigger] live_at(
                        self@.buffers,
                        t,
                        j,
                    ) implies i == j by {
                        assert(!live_at(before, thread, i));
                        assert(!live_at(before, thread, j));
                        assert(t != thread ==> live_at(before, t, i) && live_at(before, t, j));
                    }
                }
            }
        }
        assert(live_at(self@.buffers, thread, place as int));
        place
    }

    /// Records `events` on `thread` in one go.
    fn commit(&mut self, thread: u64, events: Vec<TelemetryEvent>)
        requires
            old(self).wf(),
        ensures
            final(self).wf(),
            final(self)@ == old(self)@.recorded(thread, events@),
    {
        let place = self.register(thread);
        let ghost mid = self@;
        let epoch = self.drain_epoch;
        assert(self.tl_buffers@[place as int].wf());
        let handle = &mut self.tl_buffers[place];
        if !handle.poisoned {
            if let Some(buffer) = &mut handle.buffer {
                buffer.record_all(events);
                if buffer.is_full() || handle.flush_epoch < epoch {
                    if buffer.has_pending_events() {
                        let batch = buffer.flush();
                        self.collector.accept_flush(batch);
                    }
                    handle.flush_epoch = epoch;
                }
            }
        }
        proof {
            assert(self@.buffers =~= mid.buffers.update(place as int, self.tl_buffers@[place as int]@));
            lemma_update_keeps_owner(mid.buffers, place as int, self.tl_buffers@[place as int]@);
            assert(self@ =~~= old(self)@.recorded(thread, events@));
        }
    }

    /// Drops the registrations of exited threads and tells how many there were.
    fn prune(&mut self) -> (pruned: u64)
        requires
            old(self).wf(),
        ensures
            final(self).wf(),
            final(self)@ == (SharedModel {
                buffers: live_buffers(old(self)@.buffers),
                ..old(self)@
            }),
            pruned == old(self)@.buffers.len() - live_buffers(old(self)@.buffers).len(),
    {
        let ghost before = old(self)@.buffers;
        let ghost is_live = |b: BufferModel| b.live;
        let mut pruned: u64 = 0;
        let mut kept: usize = 0;
        let registrations = self.tl_buffers.len();
        assert(before.len() == registrations);
        assert(before.take(0).filter(is_live) =~= Seq::empty());
        assert(before.skip(0) =~= before);
        while kept < self.tl_buffers.len()
            invariant
                kept <= self.tl_buffers@.len(),
                before == old(self)@.buffers,
                is_live == (|b: BufferModel| b.live),
                self.tl_buffers@.len() + pruned == before.len(),
                before.len() <= usize::MAX,
                forall|i: int|
                    0 <= i < self.tl_buffers@.len() ==> #[trigger] self.tl_buffers@[i].wf(),
                self@.buffers.take(kept as int) == before.take(kept + pruned).filter(is_live),
                self@.buffers.skip(kept as int) == before.skip(kept + pruned),
                self@ == (SharedModel { buffers: self@.buffers, ..old(self)@ }),
            decreases self.tl_buffers@.len() - kept,
        {
            let ghost now = self@.buffers;
            let ghost seen = kept + pruned;
            proof {
                assert(before.take(seen + 1).drop_last() =~= before.take(seen));
                assert(now[kept as int] == now.skip(kept as int)[0]);
                assert(before[seen] == before.skip(seen)[0]);
                assert(now.skip(kept as int).skip(1) =~= now.skip(kept + 1));
                assert(before.skip(seen).skip(1) =~= before.skip(seen + 1));
                reveal(Seq::filter);
            }
            if self.tl_buffers[kept].buffer.is_some() {
                kept = kept + 1;
                assert(self@.buffers.take(kept as int) =~= now.take(kept - 1).push(before[seen]));
                assert(self@.buffers.skip(kept as int) =~= before.skip(seen + 1));
            } else {
                self.tl_buffers.remove(kept);
                pruned = pruned + 1;
                assert(self@.buffers =~= now.remove(kept as int));
                assert(self@.buffers.take(kept as int) =~= now.take(kept as int));
                assert(self@.buffers.skip(kept as int) =~= now.skip(kept + 1));
            }
        }
        proof {
            assert(self@.buffers.take(kept as int) =~= self@.buffers);
            assert(before.take(kept + pruned) =~= before);
            lemma_live_buffers_keep_owner(before);
        }
        pruned
    }

    /// Flushes every registered buffer that was not flushed in the current
    /// epoch, and drops the registrations of exited threads.
    pub fn drain_all_tl_buffers(&mut self) -> (stats: TlDrainStats)
        requires
            old(self).wf(),
        ensures
            final(self).wf(),
            final(self)@ == old(self)@.drained(),
            stats == old(self)@.drain_stats(),
    {
        let epoch = self.drain_epoch;
        let ghost before = old(self)@.buffers;
        let ghost busy = |b: BufferModel| b.busy(epoch);
        let ghost lockable = |b: BufferModel| b.lockable(epoch);
        let ghost flushed = |b: BufferModel| b.flushed(epoch);
        let mut stats = TlDrainStats {
            buffers_skipped_busy: 0,
            buffers_locked: 0,
            events_flushed: 0,
            buffers_flushed: 0,
            dead_pruned: 0,
        };
        let registrations = self.tl_buffers.len();
        let mut i: usize = 0;
        proof {
            reveal(Seq::filter);
            reveal(Seq::filter_map);
            assert(before.take(0).filter_map(flushed) =~= Seq::empty());
            law_accepting_nothing(old(self)@.collector);
        }
        while i < registrations
            invariant
                i <= registrations,
                epoch == old(self)@.drain_epoch,
                before == old(self)@.buffers,
                old(self)@.collector.wf(),
                self.collector.wf(),
                before.len() == self.tl_buffers@.len(),
                before.len() == registrations,
                busy == (|b: BufferModel| b.busy(epoch)),
                lockable == (|b: BufferModel| b.lockable(epoch)),
                flushed == (|b: BufferModel| b.flushed(epoch)),
                forall|j: int|
                    0 <= j < self.tl_buffers@.len() ==> #[trigger] self.tl_buffers@[j].wf(),
                forall|j: int| 0 <= j < i ==> #[trigger] self@.buffers[j] == before[j].drained(epoch),
                forall|j: int| i <= j < before.len() ==> #[trigger] self@.buffers[j] == before[j],
                self@ == (SharedModel {
                    buffers: self@.buffers,
                    collector: old(self)@.collector.accepted(
                        before.take(i as int).filter_map(flushed),
                    ),
                    ..old(self)@
                }),
                stats.buffers_skipped_busy == before.take(i as int).filter(busy).len() <= i,
                stats.buffers_locked == before.take(i as int).filter(lockable).len() <= i,
                stats.buffers_flushed == before.take(i as int).filter_map(flushed).len() <= i,
                stats.events_flushed == capped(
                    before.take(i as int).filter_map(flushed).flatten().len() as int,
                ),
                stats.dead_pruned == 0,
            decreases registrations - i,
        {
            let ghost now = self@;
            proof {
                reveal(Seq::filter);
                assert(before.take(i + 1).drop_last() =~= before.take(i as int));
                before.lemma_filter_map_take_succ(flushed, i as int);
                assert(now.buffers[i as int] == before[i as int]);
            }
            drain_handle(&mut self.tl_buffers[i], epoch, &mut self.collector, &mut stats);
            i = i + 1;
            proof {
                let batches = before.take(i - 1).filter_map(flushed);
                assert(self@.buffers =~= now.buffers.update(i - 1, before[i - 1].drained(epoch)));
                match before[i - 1].flushed(epoch) {
                    Some(batch) => {
                        batches.lemma_flatten_push(batch);
                        assert(before.take(i as int).filter_map(flushed) =~= batches.push(batch));
                        law_accepting_in_two_goes(old(self)@.collector, batches, seq![batch]);
                        assert(batches + seq![batch] =~= batches.push(batch));
                    },
                    None => {
                        assert(before.take(i as int).filter_map(flushed) =~= batches);
                    },
                }
            }
        }
        proof {
            let visited = before.map_values(|b: BufferModel| b.drained(epoch));
            assert(before.take(i as int) =~= before);
            assert(self@.buffers =~= visited);
            lemma_drained_keeps_owner(before, epoch);
            lemma_drained_keeps_live(before, epoch);
        }
        let pruned = self.prune();
        stats.dead_pruned = pruned;
        stats
    }

    /// Records an event on `thread`. The caller has made sure that recording
    /// is enabled.
    pub fn record_encodable_event(&mut self, thread: u64, event: TelemetryEvent)
        requires
            old(self).wf(),
        ensures
            final(self).wf(),
            final(self)@ == old(self)@.recorded(thread, seq![event]),
    {
        let mut events: Vec<TelemetryEvent> = Vec::new();
        events.push(event);
        assert(events@ =~= seq![event]);
        self.commit(thread, events);
    }

    /// Records the depth of the global run queue, cut to its lowest eight bits.
    pub fn record_queue_sample(&mut self, thread: u64, global_queue_depth: usize, now_ns: u64)
        requires
            old(self).wf(),
        ensures
            final(self).wf(),
            final(self)@ == old(self)@.recorded(
                thread,
                seq![
                    TelemetryEvent::QueueSample {
                        timestamp_ns: now_ns,
                        global_queue: (global_queue_depth % 256) as u8,
                    },
                ],
            ),
    {
        let global_queue: u8 = (global_queue_depth % 256) as u8;
        self.record_encodable_event(
            thread,
            TelemetryEvent::QueueSample { timestamp_ns: now_ns, global_queue },
        );
    }

    /// A wake of `woken_task_id`, issued by the task that runs on the calling
    /// thread, or by no task.
    pub fn create_wake_event(
        &self,
        woken_task_id: TaskId,
        waking_worker: u8,
        now_ns: u64,
    ) -> (event: TelemetryEvent)
        ensures
            exists|waker: Option<TaskId>| #[trigger]
                is_task(waker) && event == wake_event_of(
                    waker,
                    woken_task_id,
                    waking_worker,
                    now_ns,
                ),
            event matches TelemetryEvent::Wake {
                timestamp_ns,
                waker_task_id: _,
                woken_task_id: woken,
                target_worker,
            } && timestamp_ns == now_ns && woken == woken_task_id && target_worker
                == waking_worker,
    {
        let task = current_task();
        let waker = waker_of(task);
        proof {
            if task is Some {
                let n = choose|n: u64| n > 0 && task->0@ == #[trigger] decimal(n as nat);
                law_decimal_is_injective(n as nat, waker->0.id as nat);
            }
            assert(is_task(waker));
        }
        wake_event(waker, woken_task_id, waking_worker, now_ns)
    }

    /// Gives the right to record events, when recording is enabled.
    pub fn if_enabled<'a>(&'a mut self) -> (buffer: Option<EventBuffer<'a>>)
        requires
            old(self).wf(),
        ensures
            buffer is Some <==> old(self)@.enabled,
            buffer is None ==> *final(self) == *old(self),
            buffer matches Some(b) ==> *b.shared == *old(self) && *final(b.shared) == *final(self),
    {
        if self.enabled {
            Some(EventBuffer { shared: self })
        } else {
            None
        }
    }

    /// Flushes the buffer of `thread`, where it has one with pending events.
    pub fn drain_to_collector(&mut self, thread: u64)
        requires
            old(self).wf(),
        ensures
            final(self).wf(),
            final(self)@ == old(self)@.flushed(thread),
    {
        let place = self.find_live(thread);
        if place < self.tl_buffers.len() {
            assert(place as int == place_of(self@.buffers, thread));
            assert(self.tl_buffers@[place as int].wf());
            let handle = &mut self.tl_buffers[place];
            if !handle.poisoned {
                if let Some(buffer) = &mut handle.buffer {
                    if buffer.has_pending_events() {
                        let batch = buffer.flush();
                        self.collector.accept_flush(batch);
                    }
                }
            }
            proof {
                let changed = self.tl_buffers@[place as int]@;
                assert(self@.buffers =~= old(self)@.buffers.update(place as int, changed));
                lemma_update_keeps_owner(old(self)@.buffers, place as int, changed);
                assert(self@ =~~= old(self)@.flushed(thread));
            }
        }
    }

    /// Flushes and drops the buffer of a thread that exits. Its registration
    /// stays until the next drain.
    pub fn thread_exited(&mut self, thread: u64)
        requires
            old(self).wf(),
        ensures
            final(self).wf(),
            final(self)@ == old(self)@.exited(thread),
    {
        let place = self.find_live(thread);
        if place < self.tl_buffers.len() {
            assert(place as int == place_of(self@.buffers, thread));
            assert(self.tl_buffers@[place as int].wf());
            let handle = &mut self.tl_buffers[place];
            if let Some(buffer) = &mut handle.buffer {
                if buffer.has_pending_events() {
                    let batch = buffer.flush();
                    self.collector.accept_flush(batch);
                }
            }
            handle.buffer = None;
            proof {
                let before = old(self)@.buffers;
                let changed = self.tl_buffers@[place as int]@;
                assert(self@.buffers =~= before.update(place as int, changed));
                assert forall|t: u64, i: int, j: int| #[trigger]
                    live_at(self@.buffers, t, i) && #[trigger] live_at(
                    self@.buffers,
                    t,
                    j,
                ) implies i == j by {
                    assert(live_at(before, t, i) && live_at(before, t, j));
                }
                assert(self@ =~~= old(self)@.exited(thread));
            }
        }
    }

    /// Reserves identities for the workers of a runtime and remembers it.
    pub fn attach_runtime(&mut self, name: Option<String>, num_workers: u64)
        requires
            old(self).wf(),
            old(self)@.next_worker_id + num_workers <= u64::MAX,
        ensures
            final(self).wf(),
            final(self)@ == old(self)@.attached(
                match name {
                    Some(name) => Some(name@),
                    None => None,
                },
                num_workers,
            ),
    {
        let base = self.next_worker_id;
        let mut ctx = RuntimeContext::new(name);
        ctx.set_workers(num_workers, base);
        ctx.populate(num_workers, base);
        self.next_worker_id = base + num_workers;
        self.contexts.push(ctx);
        proof {
            assert(ctx.worker_ids@ =~= worker_block(base, num_workers));
            assert(self@.contexts =~= old(self)@.contexts.push(ctx@));
            let before = old(self)@.contexts;
            let after = self@.contexts;
            assert forall|c: int, w: u64| is_worker(after, c, w) implies (c == before.len() && w
                < num_workers) || is_worker(before, c, w) by {}
            assert(distinct_workers(after, self.next_worker_id)) by {
                assert forall|c1: int, w1: u64, c2: int, w2: u64| #[trigger]
                    is_worker(after, c1, w1) && #[trigger] is_worker(after, c2, w2)
                        && after[c1].worker_ids[w1] == after[c2].worker_ids[w2] implies c1 == c2
                    && w1 == w2 by {
                    assert(is_worker(before, c1, w1) || c1 == before.len());
                    assert(is_worker(before, c2, w2) || c2 == before.len());
                }
            }
        }
    }

    /// Finds the identity of worker `index` of an attached runtime, which runs
    /// on thread `tid`, and remembers it as the role of that thread.
    pub fn resolve_worker(&mut self, context: usize, index: u64, tid: u32) -> (worker: Option<
        WorkerId,
    >)
        requires
            old(self).wf(),
        ensures
            final(self).wf(),
            worker == if is_worker(old(self)@.contexts, context as int, index) {
                Some(WorkerId { id: old(self)@.contexts[context as int].worker_ids[index] })
            } else {
                None
            },
            final(self)@ == match worker {
                Some(id) => SharedModel {
                    thread_roles: old(self)@.thread_roles.insert(tid, ThreadRole::Worker(id)),
                    ..old(self)@
                },
                None => old(self)@,
            },
    {
        broadcast use vstd::std_specs::hash::group_hash_axioms;

        if context >= self.contexts.len() {
            return None;
        }
        match self.contexts[context].worker_ids.get(&index) {
            Some(id) => {
                let worker = WorkerId { id: *id };
                self.thread_roles.insert(tid, ThreadRole::Worker(worker));
                Some(worker)
            },
            None => None,
        }
    }

    /// Drains every data source and records what it held on `thread`.
    pub fn flush_sources(&mut self, thread: u64)
        requires
            old(self).wf(),
        ensures
            final(self).wf(),
            final(self)@ == old(self)@.sources_flushed(thread),
    {
        let ghost before = old(self)@;
        let ghost roles = before.thread_roles;
        let mut events: Vec<TelemetryEvent> = Vec::new();
        let mut i: usize = 0;
        while i < self.sources.len()
            invariant
                i <= self.sources@.len(),
                self.sources@.len() == old(self).sources@.len(),
                before == old(self)@,
                roles == before.thread_roles,
                forall|j: int|
                    0 <= j < self.tl_buffers@.len() ==> #[trigger] self.tl_buffers@[j].wf(),
                events@ == source_events(before.sources.take(i as int), roles),
                self@ == (SharedModel { sources: self@.sources, ..before }),
                forall|j: int|
                    0 <= j < i ==> #[trigger] self@.sources[j] == before.sources[j].emptied(),
                forall|j: int|
                    i <= j < self.sources@.len() ==> #[trigger] self@.sources[j]
                        == before.sources[j],
            decreases self.sources@.len() - i,
        {
            let ghost now = self@.sources;
            let mut flushed = self.sources[i].flush(&self.thread_roles);
            events.append(&mut flushed);
            i = i + 1;
            proof {
                assert(before.sources.take(i as int).drop_last() =~= before.sources.take(i - 1));
                assert(now[i - 1] == before.sources[i - 1]);
                assert(self@.sources[i - 1] == before.sources[i - 1].emptied());
                assert forall|j: int| 0 <= j < self.sources@.len() && j != i - 1 implies #[trigger]
                    self@.sources[j] == now[j] by {}
            }
        }
        proof {
            assert(before.sources.take(i as int) =~= before.sources);
            assert(self@.sources =~= before.sources.map_values(|s: SourceModel| s.emptied()));
        }
        self.record_each(thread, events);
    }

    /// Records the events on `thread`, one by one.
    fn record_each(&mut self, thread: u64, events: Vec<TelemetryEvent>)
        requires
            old(self).wf(),
        ensures
            final(self).wf(),
            final(self)@ == old(self)@.recorded_each(thread, events@),
    {
        let ghost all = events@;
        for event in it: events.into_iter()
            invariant
                self.wf(),
                it.seq() == all,
                self@ == old(self)@.recorded_each(thread, all.take(it.index() as int)),
        {
            let ghost n = it.index() as int;
            assert(all.take(n + 1).drop_last() =~= all.take(n));
            self.record_encodable_event(thread, event);
        }
        assert(all.take(all.len() as int) =~= all);
    }
}

/// `tokio::task::try_id`, with `to_string` of the identity: the task that runs
/// on the calling thread, or `None` outside of tasks. An identity is a number
/// other than 0, and its text is that number in decimal. Which task it is
/// depends on the thread, and nothing is claimed of it.
#[verifier::external_body]
fn current_task() -> (task: Option<String>)
    ensures
        task matches Some(text) ==> exists|n: u64| n > 0 && text@ == #[trigger] decimal(n as nat),
{
    match tokio::task::try_id() {
        Some(id) => Some(id.to_string()),
        None => None,
    }
}

/// A task, whose identity is not 0, or none.
pub open spec fn is_task(task: Option<TaskId>) -> bool {
    task matches Some(id) ==> id.id > 0
}

/// The task whose identity is written in the text, or none.
pub fn waker_of(task: Option<String>) -> (waker: Option<TaskId>)
    requires
        task matches Some(text) ==> is_decimal(text@),
    ensures
        match task {
            Some(text) => waker is Some && decimal(waker->0.id as nat) == text@,
            None => waker is None,
        },
{
    match task {
        Some(text) => Some(TaskId { id: from_decimal(text.as_str()) }),
        None => None,
    }
}

/// The event of a wake. Without a waking task its identity is 0.
pub open spec fn wake_event_of(
    waker_task_id: Option<TaskId>,
    woken_task_id: TaskId,
    waking_worker: u8,
    now_ns: u64,
) -> TelemetryEvent {
    TelemetryEvent::Wake {
        timestamp_ns: now_ns,
        waker_task_id: match waker_task_id {
            Some(id) => id,
            None => TaskId { id: 0 },
        },
        woken_task_id,
        target_worker: waking_worker,
    }
}

/// The event of a wake by the given task, or by none.
pub fn wake_event(
    waker_task_id: Option<TaskId>,
    woken_task_id: TaskId,
    waking_worker: u8,
    now_ns: u64,
) -> (event: TelemetryEvent)
    ensures
        event == wake_event_of(waker_task_id, woken_task_id, waking_worker, now_ns),
        event matches TelemetryEvent::Wake {
            timestamp_ns,
            waker_task_id: waker,
            woken_task_id: woken,
            target_worker,
        } && timestamp_ns == now_ns && woken == woken_task_id && target_worker == waking_worker
            && waker.id == match waker_task_id {
            Some(task) => task.id,
            None => 0,
        },
{
    TelemetryEvent::Wake {
        timestamp_ns: now_ns,
        waker_task_id: waker_task_id.unwrap_or(TaskId { id: 0 }),
        woken_task_id,
        target_worker: waking_worker,
    }
}

/// The right to record: it exists only while recording is enabled.
pub struct EventBuffer<'a> {
    pub shared: &'a mut SharedState,
}

/// Gathers the events of one access to a thread-local buffer.
pub struct ThreadLocalEncoder {
    events: Vec<TelemetryEvent>,
}

impl View for ThreadLocalEncoder {
    type V = Seq<TelemetryEvent>;

    closed spec fn view(&self) -> Seq<TelemetryEvent> {
        self.events@
    }
}

impl ThreadLocalEncoder {
    /// Appends an event.
    pub fn encode(&mut self, event: TelemetryEvent)
        ensures
            final(self)@ == old(self)@.push(event),
    {
        self.events.push(event);
    }
}

impl<'a> EventBuffer<'a> {
    /// Records an event on `thread`.
    pub fn record_encodable_event(&mut self, thread: u64, event: TelemetryEvent)
        requires
            old(self).shared.wf(),
        ensures
            final(self).shared.wf(),
            final(self).shared@ == old(self).shared@.recorded(thread, seq![event]),
            *final(final(self).shared) == *final(old(self).shared),
    {
        self.shared.record_encodable_event(thread, event);
    }

    /// Records, in one access to the buffer of `thread`, the events that `f`
    /// encodes.
    pub fn with_encoder<F: FnOnce(&mut ThreadLocalEncoder)>(&mut self, thread: u64, f: F)
        requires
            old(self).shared.wf(),
            forall|e: &mut ThreadLocalEncoder| e@.len() == 0 ==> #[trigger] call_requires(f, (e,)),
        ensures
            final(self).shared.wf(),
            exists|e: &mut ThreadLocalEncoder|
                e@.len() == 0 && #[trigger] call_ensures(f, (e,), ()) && final(self).shared@
                    == old(self).shared@.recorded(thread, final(e)@),
            *final(final(self).shared) == *final(old(self).shared),
    {
        let mut encoder = ThreadLocalEncoder { events: Vec::new() };
        let access = &mut encoder;
        assert(access@.len() == 0);
        f(access);
        self.shared.commit(thread, encoder.events);
    }
}

/// A change to a buffer that keeps its thread and its life keeps every
/// thread's registration where it was.
proof fn lemma_update_keeps_owner(buffers: Seq<BufferModel>, place: int, changed: BufferModel)
    requires
        0 <= place < buffers.len(),
        changed.thread == buffers[place].thread,
        changed.live == buffers[place].live,
    ensures
        forall|t: u64, i: int|
            live_at(buffers.update(place, changed), t, i) == live_at(buffers, t, i),
        one_buffer_per_thread(buffers) ==> one_buffer_per_thread(buffers.update(place, changed)),
{
    let after = buffers.update(place, changed);
    assert forall|t: u64, i: int| live_at(after, t, i) == live_at(buffers, t, i) by {}
    if one_buffer_per_thread(buffers) {
        assert forall|t: u64, i: int, j: int| #[trigger]
            live_at(after, t, i) && #[trigger] live_at(after, t, j) implies i == j by {
            assert(live_at(buffers, t, i));
            assert(live_at(buffers, t, j));
        }
    }
}

/// Dropping the registrations of exited threads leaves one buffer per thread.
pub proof fn lemma_live_buffers_keep_owner(buffers: Seq<BufferModel>)
    requires
        one_buffer_per_thread(buffers),
    ensures
        one_buffer_per_thread(live_buffers(buffers)),
    decreases buffers.len(),
{
    reveal(Seq::filter);
    let is_live = |b: BufferModel| b.live;
    if buffers.len() > 0 {
        let init = buffers.drop_last();
        assert forall|t: u64, i: int, j: int| #[trigger]
            live_at(init, t, i) && #[trigger] live_at(init, t, j) implies i == j by {
            assert(live_at(buffers, t, i) && live_at(buffers, t, j));
        }
        lemma_live_buffers_keep_owner(init);
        let rest = live_buffers(init);
        if buffers.last().live {
            let all = live_buffers(buffers);
            assert(all =~= rest.push(buffers.last()));
            let last = buffers.len() - 1;
            assert forall|i: int| 0 <= i < rest.len() implies (#[trigger] rest[i]).thread
                != buffers.last().thread by {
                assert(init.filter(is_live).contains(rest[i]));
                init.lemma_filter_contains_rev(is_live, rest[i]);
                init.lemma_filter_pred(is_live, i);
                let k = choose|k: int| 0 <= k < init.len() && init[k] == rest[i];
                assert(live_at(buffers, rest[i].thread, k));
                assert(live_at(buffers, buffers.last().thread, last));
            }
            assert forall|t: u64, i: int, j: int| #[trigger]
                live_at(all, t, i) && #[trigger] live_at(all, t, j) implies i == j by {
                assert(i < rest.len() ==> live_at(rest, t, i));
                assert(j < rest.len() ==> live_at(rest, t, j));
            }
        }
    }
}

/// A drained buffer keeps its thread and its life.
proof fn lemma_drained_keeps_owner(buffers: Seq<BufferModel>, epoch: u64)
    requires
        one_buffer_per_thread(buffers),
    ensures
        one_buffer_per_thread(buffers.map_values(|b: BufferModel| b.drained(epoch))),
{
    let after = buffers.map_values(|b: BufferModel| b.drained(epoch));
    assert forall|t: u64, i: int, j: int| #[trigger]
        live_at(after, t, i) && #[trigger] live_at(after, t, j) implies i == j by {
        assert(live_at(buffers, t, i) && live_at(buffers, t, j));
    }
}

/// A drain leaves as many live registrations as there were.
proof fn lemma_drained_keeps_live(buffers: Seq<BufferModel>, epoch: u64)
    ensures
        live_buffers(buffers.map_values(|b: BufferModel| b.drained(epoch))).len() == live_buffers(
            buffers,
        ).len(),
    decreases buffers.len(),
{
    reveal(Seq::filter);
    let drained = |b: BufferModel| b.drained(epoch);
    if buffers.len() > 0 {
        lemma_drained_keeps_live(buffers.drop_last(), epoch);
        assert(buffers.map_values(drained).drop_last() =~= buffers.drop_last().map_values(drained));
    }
}

} // verus!
