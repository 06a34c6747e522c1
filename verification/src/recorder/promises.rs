//! What the operations of a session are for, in terms of what goes in and what
//! comes out.

use vstd::prelude::*;

use crate::recorder::buffer::{
    encoded_size, law_accepting_in_two_goes, law_accepting_nothing,
};
use crate::recorder::event::{TaskId, TelemetryEvent, ThreadRole, WorkerId};
use crate::recorder::hooks::{after_hook, HookCall, ThreadLocals};
use crate::recorder::laws::{
    law_recording_one_by_one_adds_the_events, lemma_registration, moved, sound,
};
use crate::recorder::shared_state::{
    busy_count, flushed_batches, is_worker, live_at, live_buffers, lockable_count, place_of,
    registered, source_events, wake_event_of, BufferModel, SharedModel, TlDrainStats,
};
use crate::recorder::source::{SourceItem, SourceModel};

verus! {

/// The thread has a buffer that is not poisoned, and these events wait in it.
pub open spec fn waits(state: SharedModel, thread: u64, pending: Seq<TelemetryEvent>) -> bool {
    exists|i: int|
        {
            &&& 0 <= i < state.buffers.len()
            &&& (#[trigger] state.buffers[i]).live
            &&& state.buffers[i].thread == thread
            &&& !state.buffers[i].poisoned
            &&& state.buffers[i].pending == pending
        }
}

/// No running thread with this number has a buffer.
pub open spec fn unknown(state: SharedModel, thread: u64) -> bool {
    forall|i: int|
        0 <= i < state.buffers.len() ==> !((#[trigger] state.buffers[i]).live
            && state.buffers[i].thread == thread)
}

/// What a thread records goes behind what already waits in its own buffer, or
/// leaves the buffer as the newest batch together with it. Nothing else
/// changes.
pub proof fn law_recording_appends_to_the_own_buffer(
    state: SharedModel,
    thread: u64,
    before: Seq<TelemetryEvent>,
    events: Seq<TelemetryEvent>,
)
    requires
        state.wf(),
        waits(state, thread, before) || unknown(state, thread) && before.len() == 0,
    ensures
        ({
            let after = state.recorded(thread, events);
            let all = before + events;
            &&& {
                ||| waits(after, thread, all) && after.collector == state.collector
                ||| {
                    &&& waits(after, thread, Seq::empty())
                    &&& after.collector.batches.len() > 0
                    &&& after.collector.batches.last() == all
                    &&& all.len() > 0
                }
            }
            &&& forall|i: int|
                0 <= i < state.buffers.len() && (#[trigger] state.buffers[i]).thread != thread
                    ==> i < after.buffers.len() && after.buffers[i] == state.buffers[i]
            &&& after.buffers.len() == state.buffers.len() + if unknown(state, thread) {
                1int
            } else {
                0
            }
            &&& after == (SharedModel {
                buffers: after.buffers,
                collector: after.collector,
                ..state
            })
        }),
{
    lemma_registration(state, thread);
    let buffers = state.with_registration(thread);
    let i = place_of(buffers, thread);
    let after = state.recorded(thread, events);
    let all = before + events;
    if unknown(state, thread) {
        assert(!registered(state.buffers, thread)) by {
            assert forall|j: int| !live_at(state.buffers, thread, j) by {}
        }
        let last = state.buffers.len() as int;
        assert(live_at(buffers, thread, last));
        assert(buffers[i].pending =~= before);
    } else {
        let j = choose|j: int|
            {
                &&& 0 <= j < state.buffers.len()
                &&& (#[trigger] state.buffers[j]).live
                &&& state.buffers[j].thread == thread
                &&& !state.buffers[j].poisoned
                &&& state.buffers[j].pending == before
            };
        assert(live_at(state.buffers, thread, j));
        assert(live_at(buffers, thread, j));
        assert(i == j);
    }
    assert(buffers[i].pending + events =~= all);
    assert(after.buffers[i].live && after.buffers[i].thread == thread);
    assert(!after.buffers[i].poisoned);
    if after.buffers[i].pending.len() == 0 {
        assert(after.buffers[i].pending =~= Seq::empty());
        if all.len() == 0 {
            assert(after.buffers[i].pending =~= all);
            assert(waits(after, thread, all));
        } else {
            assert(after.collector.batches.last() == all);
            assert(waits(after, thread, Seq::empty()));
        }
    } else {
        assert(after.buffers[i].pending == all);
        assert(waits(after, thread, all));
    }
}

/// A buffer keeps what is recorded while it holds less than 1 MiB and was
/// flushed in the current drain epoch; otherwise it flushes itself and is
/// stamped with that epoch.
pub proof fn law_buffers_flush_when_full_or_stale(
    state: SharedModel,
    thread: u64,
    i: int,
    events: Seq<TelemetryEvent>,
)
    requires
        state.wf(),
        0 <= i < state.buffers.len(),
        state.buffers[i].live,
        state.buffers[i].thread == thread,
        !state.buffers[i].poisoned,
        events.len() > 0,
    ensures
        ({
            let after = state.recorded(thread, events);
            let all = state.buffers[i].pending + events;
            let stays = encoded_size(all) < 1_048_576 && state.buffers[i].flush_epoch
                >= state.drain_epoch;
            &&& after.buffers.len() == state.buffers.len()
            &&& stays ==> after.buffers[i].pending == all && after.collector == state.collector
                && after.buffers[i].flush_epoch == state.buffers[i].flush_epoch
            &&& !stays ==> after.buffers[i].pending.len() == 0 && after.collector.batches.last()
                == all && after.buffers[i].flush_epoch == state.drain_epoch
        }),
{
    lemma_registration(state, thread);
    assert(live_at(state.buffers, thread, i));
    assert(live_at(state.with_registration(thread), thread, i));
    assert(place_of(state.with_registration(thread), thread) == i);
}

/// A poisoned buffer takes nothing and gives nothing.
pub proof fn law_poisoned_buffers_take_nothing(
    state: SharedModel,
    thread: u64,
    i: int,
    events: Seq<TelemetryEvent>,
)
    requires
        state.wf(),
        0 <= i < state.buffers.len(),
        state.buffers[i].live,
        state.buffers[i].thread == thread,
        state.buffers[i].poisoned,
    ensures
        state.recorded(thread, events) == state,
        state.flushed(thread) == state,
{
    lemma_registration(state, thread);
    assert(live_at(state.buffers, thread, i));
    assert(live_at(state.with_registration(thread), thread, i));
    assert(place_of(state.with_registration(thread), thread) == i);
    assert(place_of(state.buffers, thread) == i);
}

/// A flush hands everything that waits in the buffer of the thread to the
/// collector as one batch, the newest, and leaves the other buffers alone.
pub proof fn law_flush_hands_over_what_waits(
    state: SharedModel,
    thread: u64,
    before: Seq<TelemetryEvent>,
)
    requires
        state.wf(),
        waits(state, thread, before),
    ensures
        waits(state.flushed(thread), thread, Seq::empty()),
        before.len() > 0 ==> state.flushed(thread).collector.batches.last() == before,
        before.len() == 0 ==> state.flushed(thread) == state,
        state.flushed(thread).buffers.len() == state.buffers.len(),
        forall|i: int|
            0 <= i < state.buffers.len() && (#[trigger] state.buffers[i]).thread != thread
                ==> state.flushed(thread).buffers[i] == state.buffers[i],
        state.flushed(thread) == (SharedModel {
            buffers: state.flushed(thread).buffers,
            collector: state.flushed(thread).collector,
            ..state
        }),
{
    let j = choose|j: int|
        {
            &&& 0 <= j < state.buffers.len()
            &&& (#[trigger] state.buffers[j]).live
            &&& state.buffers[j].thread == thread
            &&& !state.buffers[j].poisoned
            &&& state.buffers[j].pending == before
        };
    assert(live_at(state.buffers, thread, j));
    assert(place_of(state.buffers, thread) == j);
    let after = state.flushed(thread);
    assert(after.buffers[j].live && after.buffers[j].thread == thread);
    assert(after.buffers[j].pending =~= Seq::empty());
}

/// A thread that exits leaves everything that waits in its buffer to the
/// collector as one batch, and has no buffer any more. Its registration stays,
/// and the other buffers are left alone.
pub proof fn law_exit_hands_over_what_waits(
    state: SharedModel,
    thread: u64,
    before: Seq<TelemetryEvent>,
)
    requires
        state.wf(),
        waits(state, thread, before),
    ensures
        unknown(state.exited(thread), thread),
        before.len() > 0 ==> state.exited(thread).collector.batches.last() == before,
        before.len() == 0 ==> state.exited(thread).collector == state.collector,
        state.exited(thread).buffers.len() == state.buffers.len(),
        forall|i: int|
            0 <= i < state.buffers.len() && (#[trigger] state.buffers[i]).thread != thread
                ==> state.exited(thread).buffers[i] == state.buffers[i],
        state.exited(thread) == (SharedModel {
            buffers: state.exited(thread).buffers,
            collector: state.exited(thread).collector,
            ..state
        }),
{
    let j = choose|j: int|
        {
            &&& 0 <= j < state.buffers.len()
            &&& (#[trigger] state.buffers[j]).live
            &&& state.buffers[j].thread == thread
            &&& !state.buffers[j].poisoned
            &&& state.buffers[j].pending == before
        };
    assert(live_at(state.buffers, thread, j));
    assert(place_of(state.buffers, thread) == j);
    let after = state.exited(thread);
    assert forall|i: int| 0 <= i < after.buffers.len() implies !((
    #[trigger] after.buffers[i]).live && after.buffers[i].thread == thread) by {
        if i != j && after.buffers[i].live && after.buffers[i].thread == thread {
            assert(live_at(state.buffers, thread, i));
        }
    }
}

/// `event` is the newest that `thread` brought in: it waits last in the buffer
/// of the thread, or ends the newest batch and nothing waits behind it.
pub open spec fn newest(state: SharedModel, thread: u64, event: TelemetryEvent) -> bool {
    exists|pending: Seq<TelemetryEvent>|
        {
            &&& #[trigger] waits(state, thread, pending)
            &&& if pending.len() > 0 {
                pending.last() == event
            } else {
                &&& state.collector.batches.len() > 0
                &&& state.collector.batches.last().len() > 0
                &&& state.collector.batches.last().last() == event
            }
        }
}

proof fn lemma_recorded_is_newest(
    state: SharedModel,
    thread: u64,
    before: Seq<TelemetryEvent>,
    event: TelemetryEvent,
)
    requires
        state.wf(),
        waits(state, thread, before) || unknown(state, thread) && before.len() == 0,
    ensures
        newest(state.recorded(thread, seq![event]), thread, event),
{
    let after = state.recorded(thread, seq![event]);
    let all = before + seq![event];
    law_recording_appends_to_the_own_buffer(state, thread, before, seq![event]);
    assert(all.last() == event);
    if !(waits(after, thread, all) && after.collector == state.collector) {
        assert(waits(after, thread, Seq::empty()));
    }
}

/// While recording is enabled, a worker that parks leaves a park as the newest
/// event of its thread and a worker that goes on leaves an unpark, each with
/// the time and the worker of the callback. A poll leaves its start, with the
/// task and its place, before it and its end after it. Nothing else changes.
pub proof fn law_worker_callbacks_record_what_happened(
    state: SharedModel,
    locals: ThreadLocals,
    thread: u64,
    before: Seq<TelemetryEvent>,
    timestamp_ns: u64,
    worker_id: WorkerId,
    local_queue: u8,
    task_id: TaskId,
    location: String,
)
    requires
        state.wf(),
        state.enabled,
        waits(state, thread, before) || unknown(state, thread) && before.len() == 0,
    ensures
        newest(
            after_hook(state, locals, thread, HookCall::ThreadPark { timestamp_ns, worker_id }),
            thread,
            TelemetryEvent::WorkerPark { timestamp_ns, worker_id },
        ),
        newest(
            after_hook(state, locals, thread, HookCall::ThreadUnpark { timestamp_ns, worker_id }),
            thread,
            TelemetryEvent::WorkerUnpark { timestamp_ns, worker_id },
        ),
        newest(
            after_hook(
                state,
                locals,
                thread,
                HookCall::BeforeTaskPoll {
                    timestamp_ns,
                    worker_id,
                    local_queue,
                    task_id,
                    location,
                },
            ),
            thread,
            TelemetryEvent::PollStart { timestamp_ns, worker_id, local_queue, task_id, location },
        ),
        newest(
            after_hook(state, locals, thread, HookCall::AfterTaskPoll { timestamp_ns, worker_id }),
            thread,
            TelemetryEvent::PollEnd { timestamp_ns, worker_id },
        ),
        after_hook(state, locals, thread, HookCall::ThreadPark { timestamp_ns, worker_id })
            == state.recorded(thread, seq![TelemetryEvent::WorkerPark { timestamp_ns, worker_id }]),
        after_hook(state, locals, thread, HookCall::ThreadUnpark { timestamp_ns, worker_id })
            == state.recorded(
            thread,
            seq![TelemetryEvent::WorkerUnpark { timestamp_ns, worker_id }],
        ),
        after_hook(
            state,
            locals,
            thread,
            HookCall::BeforeTaskPoll { timestamp_ns, worker_id, local_queue, task_id, location },
        ) == state.recorded(
            thread,
            seq![
                TelemetryEvent::PollStart {
                    timestamp_ns,
                    worker_id,
                    local_queue,
                    task_id,
                    location,
                },
            ],
        ),
        after_hook(state, locals, thread, HookCall::AfterTaskPoll { timestamp_ns, worker_id })
            == state.recorded(thread, seq![TelemetryEvent::PollEnd { timestamp_ns, worker_id }]),
{
    lemma_recorded_is_newest(
        state,
        thread,
        before,
        TelemetryEvent::WorkerPark { timestamp_ns, worker_id },
    );
    lemma_recorded_is_newest(
        state,
        thread,
        before,
        TelemetryEvent::WorkerUnpark { timestamp_ns, worker_id },
    );
    lemma_recorded_is_newest(
        state,
        thread,
        before,
        TelemetryEvent::PollStart { timestamp_ns, worker_id, local_queue, task_id, location },
    );
    lemma_recorded_is_newest(
        state,
        thread,
        before,
        TelemetryEvent::PollEnd { timestamp_ns, worker_id },
    );
}

/// While recording is enabled, a task that is spawned or ends leaves that as
/// the newest event of the thread, with its time and identity; a spawn says
/// where it was and whether the thread was inside of an instrumented one.
pub proof fn law_task_callbacks_record_what_happened(
    state: SharedModel,
    locals: ThreadLocals,
    thread: u64,
    before: Seq<TelemetryEvent>,
    timestamp_ns: u64,
    task_id: TaskId,
    location: String,
)
    requires
        state.wf(),
        state.enabled,
        waits(state, thread, before) || unknown(state, thread) && before.len() == 0,
    ensures
        newest(
            after_hook(
                state,
                locals,
                thread,
                HookCall::TaskSpawn { timestamp_ns, task_id, location },
            ),
            thread,
            TelemetryEvent::TaskSpawn {
                timestamp_ns,
                task_id,
                location,
                instrumented: locals.instrumented_spawns > 0,
            },
        ),
        newest(
            after_hook(state, locals, thread, HookCall::TaskTerminate { timestamp_ns, task_id }),
            thread,
            TelemetryEvent::TaskTerminate { timestamp_ns, task_id },
        ),
        after_hook(
            state,
            locals,
            thread,
            HookCall::TaskSpawn { timestamp_ns, task_id, location },
        ) == state.recorded(
            thread,
            seq![
                TelemetryEvent::TaskSpawn {
                    timestamp_ns,
                    task_id,
                    location,
                    instrumented: locals.instrumented_spawns > 0,
                },
            ],
        ),
        after_hook(state, locals, thread, HookCall::TaskTerminate { timestamp_ns, task_id })
            == state.recorded(
            thread,
            seq![TelemetryEvent::TaskTerminate { timestamp_ns, task_id }],
        ),
{
    lemma_recorded_is_newest(
        state,
        thread,
        before,
        TelemetryEvent::TaskSpawn {
            timestamp_ns,
            task_id,
            location,
            instrumented: locals.instrumented_spawns > 0,
        },
    );
    lemma_recorded_is_newest(
        state,
        thread,
        before,
        TelemetryEvent::TaskTerminate { timestamp_ns, task_id },
    );
}

/// While recording is disabled, no callback changes anything, but for those of
/// threads that start and stop.
pub proof fn law_nothing_is_recorded_while_disabled(
    state: SharedModel,
    locals: ThreadLocals,
    thread: u64,
    call: HookCall,
)
    requires
        !state.enabled,
        !(call is ThreadStart) && !(call is ThreadStop),
    ensures
        after_hook(state, locals, thread, call) == state,
{
}

/// A thread that starts is one of the blocking pool until it is known better;
/// a thread that stops has no role any more, and every data source is told of
/// it and keeps what it holds. Neither records anything nor touches the role
/// of another thread.
pub proof fn law_thread_callbacks_keep_the_roles(
    state: SharedModel,
    locals: ThreadLocals,
    thread: u64,
    tid: u32,
    other: u32,
)
    requires
        other != tid,
    ensures
        ({
            let started = after_hook(state, locals, thread, HookCall::ThreadStart { tid });
            &&& started.thread_roles.dom().contains(tid)
            &&& started.thread_roles[tid] == ThreadRole::Blocking
            &&& started.thread_roles.dom().contains(other) == state.thread_roles.dom().contains(
                other,
            )
            &&& started.thread_roles[other] == state.thread_roles[other]
            &&& started == (SharedModel { thread_roles: started.thread_roles, ..state })
        }),
        ({
            let stopped = after_hook(state, locals, thread, HookCall::ThreadStop { tid });
            &&& !stopped.thread_roles.dom().contains(tid)
            &&& stopped.thread_roles.dom().contains(other) == state.thread_roles.dom().contains(
                other,
            )
            &&& state.thread_roles.dom().contains(other) ==> stopped.thread_roles[other]
                == state.thread_roles[other]
            &&& stopped.sources.len() == state.sources.len()
            &&& forall|i: int|
                0 <= i < state.sources.len() ==> (#[trigger] stopped.sources[i]).stopped
                    == state.sources[i].stopped.push(tid) && stopped.sources[i].pending
                    == state.sources[i].pending && stopped.sources[i].name
                    == state.sources[i].name
            &&& stopped == (SharedModel {
                thread_roles: stopped.thread_roles,
                sources: stopped.sources,
                ..state
            })
        }),
{
}

/// Whoever wakes, the event names the woken task, the worker and the time that
/// were given. Its waker is the waking task where there is one, and 0 where
/// there is none.
pub proof fn law_wake_event_says_who_woke_whom(
    waker: TaskId,
    woken: TaskId,
    worker: u8,
    now_ns: u64,
)
    ensures
        wake_event_of(Some(waker), woken, worker, now_ns) == (TelemetryEvent::Wake {
            timestamp_ns: now_ns,
            waker_task_id: waker,
            woken_task_id: woken,
            target_worker: worker,
        }),
        wake_event_of(None, woken, worker, now_ns) == (TelemetryEvent::Wake {
            timestamp_ns: now_ns,
            waker_task_id: TaskId { id: 0 },
            woken_task_id: woken,
            target_worker: worker,
        }),
{
}

/// Wakes of two tasks differ in the woken task alone, and wakes by two tasks in
/// the waker alone.
pub proof fn law_wake_events_tell_tasks_apart(
    first: Option<TaskId>,
    second: Option<TaskId>,
    woken: TaskId,
    other: TaskId,
    worker: u8,
    now_ns: u64,
)
    requires
        woken != other,
    ensures
        wake_event_of(first, woken, worker, now_ns) != wake_event_of(
            second,
            other,
            worker,
            now_ns,
        ),
        wake_event_of(first, woken, worker, now_ns)->woken_task_id == wake_event_of(
            second,
            woken,
            worker,
            now_ns,
        )->woken_task_id,
        wake_event_of(first, woken, worker, now_ns)->waker_task_id == wake_event_of(
            first,
            other,
            worker,
            now_ns,
        )->waker_task_id,
{
}

/// What waits in all sources, source by source and in each the oldest first.
pub open spec fn all_items(sources: Seq<SourceModel>) -> Seq<SourceItem> {
    sources.map_values(|source: SourceModel| source.pending).flatten()
}

/// `event` is what becomes of the item: a sample becomes the CPU sample of its
/// thread at its time, with its stack, the profiler that took it and the role
/// that the thread has, if it has one; an event stays what it is.
pub open spec fn becomes(
    item: SourceItem,
    roles: Map<u32, ThreadRole>,
    event: TelemetryEvent,
) -> bool {
    match item {
        SourceItem::Event(given) => event == given,
        SourceItem::Sample(sample) => match event {
            TelemetryEvent::CpuSample { timestamp_ns, tid, role, source, callchain } => {
                &&& timestamp_ns == sample.timestamp_ns
                &&& tid == sample.tid
                &&& source == sample.source
                &&& callchain == sample.callchain
                &&& roles.dom().contains(sample.tid) ==> role == Some(roles[sample.tid])
                &&& !roles.dom().contains(sample.tid) ==> role is None
            },
            _ => false,
        },
    }
}

/// Flushing the sources hands out every item of every source exactly once, in
/// the order of the sources and of the items in each.
pub proof fn law_every_item_of_every_source_is_handed_out(
    sources: Seq<SourceModel>,
    roles: Map<u32, ThreadRole>,
)
    ensures
        source_events(sources, roles).len() == all_items(sources).len(),
        forall|k: int|
            0 <= k < all_items(sources).len() ==> becomes(
                all_items(sources)[k],
                roles,
                #[trigger] source_events(sources, roles)[k],
            ),
    decreases sources.len(),
{
    let pendings = sources.map_values(|source: SourceModel| source.pending);
    if sources.len() == 0 {
        assert(pendings.flatten().len() == 0);
    } else {
        let init = sources.drop_last();
        let last = sources.last();
        law_every_item_of_every_source_is_handed_out(init, roles);
        let earlier = init.map_values(|source: SourceModel| source.pending);
        assert(pendings =~= earlier.push(last.pending));
        earlier.lemma_flatten_push(last.pending);
        let head = source_events(init, roles);
        let events = source_events(sources, roles);
        let items = all_items(sources);
        assert(items == all_items(init) + last.pending);
        assert forall|k: int| 0 <= k < items.len() implies becomes(
            items[k],
            roles,
            #[trigger] events[k],
        ) by {
            if k < head.len() {
                assert(events[k] == head[k]);
            } else {
                assert(events[k] == last.events(roles)[k - head.len()]);
            }
        }
    }
}

/// How many items wait in the first `n` sources.
pub open spec fn count_before(sources: Seq<SourceModel>, n: int) -> nat
    decreases n,
{
    if n <= 0 {
        0
    } else {
        count_before(sources, n - 1) + sources[n - 1].pending.len()
    }
}

proof fn lemma_count_prefix(sources: Seq<SourceModel>, n: int, m: int)
    requires
        0 <= n <= m <= sources.len(),
    ensures
        count_before(sources.take(m), n) == count_before(sources, n),
    decreases n,
{
    if n > 0 {
        lemma_count_prefix(sources, n - 1, m);
    }
}

/// As many events are handed out as there are items in all sources, and item
/// `j` of source `s` becomes the event that follows those of the sources before
/// it and of the items before it.
pub proof fn law_each_item_has_its_place(
    sources: Seq<SourceModel>,
    roles: Map<u32, ThreadRole>,
    s: int,
    j: int,
)
    requires
        0 <= s < sources.len(),
        0 <= j < sources[s].pending.len(),
    ensures
        source_events(sources, roles).len() == count_before(sources, sources.len() as int),
        count_before(sources, s) + j < source_events(sources, roles).len(),
        becomes(
            sources[s].pending[j],
            roles,
            source_events(sources, roles)[count_before(sources, s) + j],
        ),
    decreases sources.len(),
{
    let init = sources.drop_last();
    let last = sources.last();
    lemma_handed_out_count(sources, roles);
    lemma_handed_out_count(init, roles);
    let top = sources.len() - 1;
    assert(init =~= sources.take(top));
    lemma_count_prefix(sources, top, top);
    lemma_count_prefix(sources, s, top);
    if s < top {
        law_each_item_has_its_place(init, roles, s, j);
    }
}

proof fn lemma_handed_out_count(sources: Seq<SourceModel>, roles: Map<u32, ThreadRole>)
    ensures
        source_events(sources, roles).len() == count_before(sources, sources.len() as int),
    decreases sources.len(),
{
    if sources.len() > 0 {
        let top = sources.len() - 1;
        lemma_handed_out_count(sources.drop_last(), roles);
        assert(sources.drop_last() =~= sources.take(top));
        lemma_count_prefix(sources, top, top);
    }
}

/// Flushing the sources leaves nothing in any of them, keeps their names and
/// the threads that they have yet to let go of, and moves into the session
/// exactly the events that their items become: none is lost, doubled or made
/// up.
pub proof fn law_flushing_sources_moves_every_item(
    state: SharedModel,
    thread: u64,
    brought: Seq<TelemetryEvent>,
)
    requires
        state.wf(),
        sound(state),
        brought.len() == all_items(state.sources).len(),
        forall|k: int|
            0 <= k < brought.len() ==> becomes(
                all_items(state.sources)[k],
                state.thread_roles,
                #[trigger] brought[k],
            ),
    ensures
        exists|handed: Seq<Seq<TelemetryEvent>>| #[trigger]
            moved(state, state.sources_flushed(thread), brought.to_multiset(), handed),
        state.sources_flushed(thread).sources.len() == state.sources.len(),
        forall|s: int|
            0 <= s < state.sources.len() ==> (
            #[trigger] state.sources_flushed(thread).sources[s]).pending.len() == 0
                && state.sources_flushed(thread).sources[s].name == state.sources[s].name
                && state.sources_flushed(thread).sources[s].stopped == state.sources[s].stopped,
{
    let roles = state.thread_roles;
    let events = source_events(state.sources, roles);
    law_every_item_of_every_source_is_handed_out(state.sources, roles);
    assert(brought =~= events) by {
        assert forall|k: int| 0 <= k < brought.len() implies brought[k] == events[k] by {
            assert(becomes(all_items(state.sources)[k], roles, events[k]));
            assert(becomes(all_items(state.sources)[k], roles, brought[k]));
        }
    }
    let emptied = state.with_sources_emptied();
    law_recording_one_by_one_adds_the_events(emptied, thread, events);
    let handed = choose|handed: Seq<Seq<TelemetryEvent>>| #[trigger]
        moved(emptied, state.sources_flushed(thread), events.to_multiset(), handed);
    assert(moved(state, state.sources_flushed(thread), brought.to_multiset(), handed));
    lemma_recording_keeps_sources(emptied, thread, events);
}

proof fn lemma_recording_keeps_sources(
    state: SharedModel,
    thread: u64,
    events: Seq<TelemetryEvent>,
)
    ensures
        state.recorded_each(thread, events).sources == state.sources,
    decreases events.len(),
{
    if events.len() > 0 {
        lemma_recording_keeps_sources(state, thread, events.drop_last());
    }
}

/// Attaching a runtime adds it behind those that are there, under its name, and
/// gives its workers the next identities that nobody has, one each and in
/// their order. Nothing else changes.
pub proof fn law_attached_workers_get_the_next_identities(
    state: SharedModel,
    name: Option<Seq<char>>,
    count: u64,
    worker: u64,
)
    requires
        state.next_worker_id + count <= u64::MAX,
    ensures
        ({
            let after = state.attached(name, count);
            let added = after.contexts.last();
            &&& after.next_worker_id == state.next_worker_id + count
            &&& after.contexts.drop_last() == state.contexts
            &&& after.contexts.len() == state.contexts.len() + 1
            &&& added.name == name
            &&& added.workers_and_base == Some((count, state.next_worker_id))
            &&& is_worker(after.contexts, state.contexts.len() as int, worker) <==> worker < count
            &&& worker < count ==> added.worker_ids[worker] == state.next_worker_id + worker
            &&& after == (SharedModel {
                next_worker_id: after.next_worker_id,
                contexts: after.contexts,
                ..state
            })
        }),
{
    assert(state.attached(name, count).contexts.drop_last() =~= state.contexts);
}

/// A drain without buffers does nothing.
pub proof fn law_drain_of_nothing(state: SharedModel)
    requires
        state.wf(),
        state.buffers.len() == 0,
    ensures
        state.drained() == state,
        state.drain_stats() == (TlDrainStats {
            buffers_skipped_busy: 0,
            buffers_locked: 0,
            events_flushed: 0,
            buffers_flushed: 0,
            dead_pruned: 0,
        }),
{
    reveal(Seq::filter);
    reveal(Seq::filter_map);
    let epoch = state.drain_epoch;
    law_accepting_nothing(state.collector);
    assert(flushed_batches(state.buffers, epoch) =~= Seq::empty());
    assert(state.drained().buffers =~= state.buffers);
    assert(flushed_batches(state.buffers, epoch).flatten().len() == 0);
}

/// What one more buffer, registered last, changes in a drain. One that was
/// flushed in the current epoch is skipped. Of the others, one whose thread
/// runs and that is not poisoned is locked: what waits in it becomes the newest
/// batch, and it is stamped with the epoch. The registration of a thread that
/// exited is dropped, and every other one stays.
pub proof fn law_drain_treats_each_buffer(state: SharedModel, b: BufferModel)
    requires
        state.wf(),
        state.buffers.len() < u64::MAX,
    ensures
        ({
            let more = SharedModel { buffers: state.buffers.push(b), ..state };
            let busy = b.flush_epoch >= state.drain_epoch;
            let locked = !busy && b.live && !b.poisoned;
            let less = state.drain_stats();
            let stats = more.drain_stats();
            &&& locked && b.pending.len() > 0 ==> more.drained().collector
                == state.drained().collector.accepted(seq![b.pending])
            &&& !(locked && b.pending.len() > 0) ==> more.drained().collector
                == state.drained().collector
            &&& !b.live ==> more.drained().buffers == state.drained().buffers
            &&& b.live && !locked ==> more.drained().buffers == state.drained().buffers.push(b)
            &&& locked ==> more.drained().buffers.drop_last() == state.drained().buffers && ({
                let kept = more.drained().buffers.last();
                &&& kept.thread == b.thread
                &&& kept.live
                &&& !kept.poisoned
                &&& kept.flush_epoch == state.drain_epoch
                &&& kept.pending.len() == 0
            })
            &&& stats.buffers_skipped_busy == less.buffers_skipped_busy + if busy {
                1int
            } else {
                0
            }
            &&& stats.buffers_locked == less.buffers_locked + if locked {
                1int
            } else {
                0
            }
            &&& stats.buffers_flushed == less.buffers_flushed + if locked && b.pending.len() > 0 {
                1int
            } else {
                0
            }
            &&& stats.dead_pruned == less.dead_pruned + if b.live {
                0int
            } else {
                1
            }
            &&& locked && less.events_flushed + b.pending.len() <= u64::MAX ==> stats.events_flushed
                == less.events_flushed + b.pending.len()
            &&& locked && less.events_flushed + b.pending.len() > u64::MAX ==> stats.events_flushed
                == u64::MAX
            &&& !locked ==> stats.events_flushed == less.events_flushed
            &&& more.drained() == (SharedModel {
                buffers: more.drained().buffers,
                collector: more.drained().collector,
                ..state
            })
        }),
{
    reveal(Seq::filter);
    reveal(Seq::filter_map);
    let epoch = state.drain_epoch;
    let more = SharedModel { buffers: state.buffers.push(b), ..state };
    let drained = |x: BufferModel| x.drained(epoch);
    let flushed = |x: BufferModel| x.flushed(epoch);
    let is_busy = |x: BufferModel| x.busy(epoch);
    let is_lockable = |x: BufferModel| x.lockable(epoch);
    let is_live = |x: BufferModel| x.live;
    assert(more.buffers.drop_last() =~= state.buffers);
    assert(more.buffers.last() == b);
    let passed = more.buffers.map_values(drained);
    assert(passed.drop_last() =~= state.buffers.map_values(drained));
    assert(passed.last() == b.drained(epoch));
    let before = flushed_batches(state.buffers, epoch);
    let now = flushed_batches(more.buffers, epoch);
    lemma_kept_counts(state.buffers, epoch);
    match b.flushed(epoch) {
        Some(batch) => {
            assert(now =~= before.push(batch));
            assert(before + seq![batch] =~= before.push(batch));
            law_accepting_in_two_goes(state.collector, before, seq![batch]);
            before.lemma_flatten_push(batch);
        },
        None => {
            assert(now =~= before);
        },
    }
    if b.live {
        assert(more.drained().buffers =~= state.drained().buffers.push(b.drained(epoch)));
        assert(state.drained().buffers.push(b.drained(epoch)).drop_last()
            =~= state.drained().buffers);
    }
}

proof fn lemma_kept_counts(buffers: Seq<BufferModel>, epoch: u64)
    ensures
        busy_count(buffers, epoch) <= buffers.len(),
        lockable_count(buffers, epoch) <= buffers.len(),
        flushed_batches(buffers, epoch).len() <= buffers.len(),
        live_buffers(buffers).len() <= buffers.len(),
    decreases buffers.len(),
{
    reveal(Seq::filter);
    reveal(Seq::filter_map);
    if buffers.len() > 0 {
        lemma_kept_counts(buffers.drop_last(), epoch);
        assert(buffers =~= buffers.drop_last().push(buffers.last()));
    }
}

} // verus!
