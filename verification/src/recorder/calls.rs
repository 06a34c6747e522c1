//! What calls into a session do, in terms of their arguments and of what they
//! give back.

use core::time::Duration;

use vstd::multiset::Multiset;
use vstd::prelude::*;

use crate::error::IoError;
use crate::recorder::buffer::{Batch, CentralCollector, ThreadLocalBuffer};
use crate::recorder::builder::{
    finish_build, try_assemble_dial9_config, HasTracePath, Inner, NoTracePath, PipelineS3,
    PipelineUnset, RuntimePlan,
    TelemetryRuntimeError, TracedRuntime, TracedRuntimeBuilder,
};
use crate::recorder::drain_schedule::{DrainSchedule, DrainStep};
use crate::recorder::event::{TaskId, TelemetryEvent, ThreadRole, WorkerId};
use crate::recorder::guard::{AttachStep, ShutdownStep, TelemetryGuard};
use crate::recorder::hooks::{register_hooks, run_hook, Hook, HookCall, ThreadLocals};
use crate::recorder::laws::{law_draining_keeps_the_events, moved, sound};
use crate::recorder::pipeline::{
    assemble_processors, assembled, entry_texts, law_pipeline_of_each_strategy, Entry, PipelineConfig, Processor,
    S3Config,
};
use crate::recorder::promises::{
    all_items, becomes, law_exit_hands_over_what_waits, law_flush_hands_over_what_waits,
    law_flushing_sources_moves_every_item, law_recording_appends_to_the_own_buffer,
    law_task_callbacks_record_what_happened, law_thread_callbacks_keep_the_roles,
    law_worker_callbacks_record_what_happened, newest, unknown, waits,
};
use crate::recorder::runtime_context::{
    joined, law_block_in_order, runtime_entries, worker_block, ContextModel, RuntimeContext,
};
use crate::recorder::session::{
    BackgroundTaskConfig, FlushTask, SessionPlan, Surroundings, TelemetryCore,
    TelemetryCoreBuilder,
};
use crate::recorder::shared_state::{
    wake_event, waker_of, EventBuffer, SharedModel, SharedState, TlDrainStats,
};
use crate::recorder::source::{Source, SourceItem};
use crate::text::{digits_value, law_decimal_digits_stand_for_the_number};

verus! {

/// The event that a wake gives names the woken task, the worker and the time
/// that were given, and for its waker the waking task, or 0 where there is
/// none.
pub proof fn law_wake_names_both_tasks(
    waker: Option<TaskId>,
    woken: TaskId,
    worker: u8,
    now_ns: u64,
    event: TelemetryEvent,
)
    requires
        call_ensures(wake_event, (waker, woken, worker, now_ns), event),
    ensures
        event == (TelemetryEvent::Wake {
            timestamp_ns: now_ns,
            waker_task_id: if waker is Some {
                waker->0
            } else {
                TaskId { id: 0 }
            },
            woken_task_id: woken,
            target_worker: worker,
        }),
{
}

/// Whichever task runs on the calling thread, the event of a wake names the
/// woken task, the worker and the time that were given.
pub proof fn law_wake_of_the_calling_thread_names_the_woken_task(
    shared: &SharedState,
    woken: TaskId,
    worker: u8,
    now_ns: u64,
    event: TelemetryEvent,
)
    requires
        call_ensures(SharedState::create_wake_event, (shared, woken, worker, now_ns), event),
    ensures
        event is Wake,
        event->woken_task_id == woken,
        event->target_worker == worker,
        event == (TelemetryEvent::Wake {
            timestamp_ns: now_ns,
            waker_task_id: event->waker_task_id,
            woken_task_id: woken,
            target_worker: worker,
        }),
{
}

/// The waking task is the one whose identity the text says.
pub proof fn law_waker_is_the_task_in_the_text(task: Option<String>, waker: Option<TaskId>)
    requires
        call_ensures(waker_of, (task,), waker),
    ensures
        task is None ==> waker is None,
        task is Some ==> waker is Some && digits_value(task->0@) == waker->0.id,
{
    if task is Some {
        law_decimal_digits_stand_for_the_number(waker->0.id as nat);
    }
}

/// While recording is enabled, each callback leaves as the newest event of its
/// thread what it reports: a park and an unpark of the worker, the start and
/// the end of a poll, the spawn and the end of a task, each with the time and
/// the identities of the callback.
pub proof fn law_callbacks_record_what_they_report(
    thread: u64,
    before: Seq<TelemetryEvent>,
    call: HookCall,
)
    ensures
        forall|shared: &mut SharedState, locals: &mut ThreadLocals|
            {
                &&& #[trigger] call_ensures(run_hook, (shared, locals, thread, call), ())
                &&& shared.wf()
                &&& shared@.enabled
                &&& waits(shared@, thread, before) || unknown(shared@, thread) && before.len() == 0
            } ==> match call {
                HookCall::ThreadPark { timestamp_ns, worker_id } => newest(
                    final(shared)@,
                    thread,
                    TelemetryEvent::WorkerPark { timestamp_ns, worker_id },
                ),
                HookCall::ThreadUnpark { timestamp_ns, worker_id } => newest(
                    final(shared)@,
                    thread,
                    TelemetryEvent::WorkerUnpark { timestamp_ns, worker_id },
                ),
                HookCall::BeforeTaskPoll {
                    timestamp_ns,
                    worker_id,
                    local_queue,
                    task_id,
                    location,
                } => newest(
                    final(shared)@,
                    thread,
                    TelemetryEvent::PollStart {
                        timestamp_ns,
                        worker_id,
                        local_queue,
                        task_id,
                        location,
                    },
                ),
                HookCall::AfterTaskPoll { timestamp_ns, worker_id } => newest(
                    final(shared)@,
                    thread,
                    TelemetryEvent::PollEnd { timestamp_ns, worker_id },
                ),
                HookCall::TaskSpawn { timestamp_ns, task_id, location } => newest(
                    final(shared)@,
                    thread,
                    TelemetryEvent::TaskSpawn {
                        timestamp_ns,
                        task_id,
                        location,
                        instrumented: locals.instrumented_spawns > 0,
                    },
                ),
                HookCall::TaskTerminate { timestamp_ns, task_id } => newest(
                    final(shared)@,
                    thread,
                    TelemetryEvent::TaskTerminate { timestamp_ns, task_id },
                ),
                HookCall::ThreadStart { tid } => final(shared)@.thread_roles.dom().contains(tid)
                    && final(shared)@.thread_roles[tid] == ThreadRole::Blocking
                    && final(shared)@.buffers == shared@.buffers && final(locals).has_handle,
                HookCall::ThreadStop { tid } => !final(shared)@.thread_roles.dom().contains(tid)
                    && final(shared)@.buffers == shared@.buffers && !final(locals).has_handle,
            },
{
    assert forall|shared: &mut SharedState, locals: &mut ThreadLocals|
        {
            &&& #[trigger] call_ensures(run_hook, (shared, locals, thread, call), ())
            &&& shared.wf()
            &&& shared@.enabled
            &&& waits(shared@, thread, before) || unknown(shared@, thread) && before.len() == 0
        } implies match call {
        HookCall::ThreadPark { timestamp_ns, worker_id } => newest(
            final(shared)@,
            thread,
            TelemetryEvent::WorkerPark { timestamp_ns, worker_id },
        ),
        HookCall::ThreadUnpark { timestamp_ns, worker_id } => newest(
            final(shared)@,
            thread,
            TelemetryEvent::WorkerUnpark { timestamp_ns, worker_id },
        ),
        HookCall::BeforeTaskPoll { timestamp_ns, worker_id, local_queue, task_id, location } =>
        newest(
            final(shared)@,
            thread,
            TelemetryEvent::PollStart { timestamp_ns, worker_id, local_queue, task_id, location },
        ),
        HookCall::AfterTaskPoll { timestamp_ns, worker_id } => newest(
            final(shared)@,
            thread,
            TelemetryEvent::PollEnd { timestamp_ns, worker_id },
        ),
        HookCall::TaskSpawn { timestamp_ns, task_id, location } => newest(
            final(shared)@,
            thread,
            TelemetryEvent::TaskSpawn {
                timestamp_ns,
                task_id,
                location,
                instrumented: locals.instrumented_spawns > 0,
            },
        ),
        HookCall::TaskTerminate { timestamp_ns, task_id } => newest(
            final(shared)@,
            thread,
            TelemetryEvent::TaskTerminate { timestamp_ns, task_id },
        ),
        HookCall::ThreadStart { tid } => final(shared)@.thread_roles.dom().contains(tid)
            && final(shared)@.thread_roles[tid] == ThreadRole::Blocking && final(shared)@.buffers
            == shared@.buffers && final(locals).has_handle,
        HookCall::ThreadStop { tid } => !final(shared)@.thread_roles.dom().contains(tid)
            && final(shared)@.buffers == shared@.buffers && !final(locals).has_handle,
    } by {
        match call {
            HookCall::ThreadPark { timestamp_ns, worker_id }
            | HookCall::ThreadUnpark { timestamp_ns, worker_id }
            | HookCall::AfterTaskPoll { timestamp_ns, worker_id } => {
                law_worker_callbacks_record_what_happened(
                    shared@,
                    *locals,
                    thread,
                    before,
                    timestamp_ns,
                    worker_id,
                    0,
                    TaskId { id: 0 },
                    arbitrary(),
                );
            },
            HookCall::BeforeTaskPoll {
                timestamp_ns,
                worker_id,
                local_queue,
                task_id,
                location,
            } => {
                law_worker_callbacks_record_what_happened(
                    shared@,
                    *locals,
                    thread,
                    before,
                    timestamp_ns,
                    worker_id,
                    local_queue,
                    task_id,
                    location,
                );
            },
            HookCall::TaskSpawn { timestamp_ns, task_id, location } => {
                law_task_callbacks_record_what_happened(
                    shared@,
                    *locals,
                    thread,
                    before,
                    timestamp_ns,
                    task_id,
                    location,
                );
            },
            HookCall::TaskTerminate { timestamp_ns, task_id } => {
                law_task_callbacks_record_what_happened(
                    shared@,
                    *locals,
                    thread,
                    before,
                    timestamp_ns,
                    task_id,
                    arbitrary(),
                );
            },
            _ => {},
        }
    }
}

/// While recording is disabled, the callbacks of workers, polls and tasks
/// change nothing.
pub proof fn law_callbacks_record_nothing_while_disabled(thread: u64, call: HookCall)
    requires
        !(call is ThreadStart) && !(call is ThreadStop),
    ensures
        forall|shared: &mut SharedState, locals: &mut ThreadLocals|
            #[trigger] call_ensures(run_hook, (shared, locals, thread, call), ())
                && !shared@.enabled ==> final(shared)@ == shared@,
{
}

/// A recorded event is the newest of its thread, and so is the sample of a run
/// queue, which keeps the time and the depth in eight bits.
pub proof fn law_recorded_events_are_the_newest(
    thread: u64,
    before: Seq<TelemetryEvent>,
    event: TelemetryEvent,
    depth: usize,
    now_ns: u64,
)
    ensures
        forall|shared: &mut SharedState|
            #[trigger] call_ensures(
                SharedState::record_encodable_event,
                (shared, thread, event),
                (),
            ) && shared.wf() && (waits(shared@, thread, before) || unknown(shared@, thread)
                && before.len() == 0) ==> newest(final(shared)@, thread, event),
        forall|shared: &mut SharedState|
            #[trigger] call_ensures(
                SharedState::record_queue_sample,
                (shared, thread, depth, now_ns),
                (),
            ) && shared.wf() && (waits(shared@, thread, before) || unknown(shared@, thread)
                && before.len() == 0) ==> newest(
                final(shared)@,
                thread,
                TelemetryEvent::QueueSample {
                    timestamp_ns: now_ns,
                    global_queue: (depth % 256) as u8,
                },
            ),
{
    let sample = TelemetryEvent::QueueSample {
        timestamp_ns: now_ns,
        global_queue: (depth % 256) as u8,
    };
    assert forall|shared: &mut SharedState|
        #[trigger] call_ensures(
            SharedState::record_encodable_event,
            (shared, thread, event),
            (),
        ) && shared.wf() && (waits(shared@, thread, before) || unknown(shared@, thread)
            && before.len() == 0) implies newest(final(shared)@, thread, event) by {
        lemma_newest_of_recorded(shared@, thread, before, event);
    }
    assert forall|shared: &mut SharedState|
        #[trigger] call_ensures(
            SharedState::record_queue_sample,
            (shared, thread, depth, now_ns),
            (),
        ) && shared.wf() && (waits(shared@, thread, before) || unknown(shared@, thread)
            && before.len() == 0) implies newest(final(shared)@, thread, sample) by {
        lemma_newest_of_recorded(shared@, thread, before, sample);
    }
}

proof fn lemma_newest_of_recorded(
    state: SharedModel,
    thread: u64,
    before: Seq<TelemetryEvent>,
    event: TelemetryEvent,
)
    requires
        state.wf(),
        waits(state, thread, before) || unknown(state, thread) && before.len() == 0,
    ensures
        newest(state.recorded(thread, seq![event]), thread, event),
{
    let after = state.recorded(thread, seq![event]);
    law_recording_appends_to_the_own_buffer(state, thread, before, seq![event]);
    let all = before + seq![event];
    assert(all.last() == event);
    if !(waits(after, thread, all) && after.collector == state.collector) {
        assert(waits(after, thread, Seq::empty()));
    }
}

/// Flushing the sources empties every one of them and moves into the session
/// exactly the events that their items become, each once.
pub proof fn law_flush_of_sources_takes_every_item(thread: u64, brought: Seq<TelemetryEvent>)
    ensures
        forall|shared: &mut SharedState|
            {
                &&& #[trigger] call_ensures(SharedState::flush_sources, (shared, thread), ())
                &&& shared.wf()
                &&& sound(shared@)
                &&& brought.len() == all_items(shared@.sources).len()
                &&& forall|k: int|
                    0 <= k < brought.len() ==> becomes(
                        all_items(shared@.sources)[k],
                        shared@.thread_roles,
                        #[trigger] brought[k],
                    )
            } ==> {
                &&& exists|handed: Seq<Seq<TelemetryEvent>>| #[trigger]
                    moved(shared@, final(shared)@, brought.to_multiset(), handed)
                &&& final(shared)@.sources.len() == shared@.sources.len()
                &&& forall|s: int|
                    0 <= s < shared@.sources.len() ==> (
                    #[trigger] final(shared)@.sources[s]).pending.len() == 0
                        && final(shared)@.sources[s].stopped == shared@.sources[s].stopped
            },
{
    assert forall|shared: &mut SharedState|
        {
            &&& #[trigger] call_ensures(SharedState::flush_sources, (shared, thread), ())
            &&& shared.wf()
            &&& sound(shared@)
            &&& brought.len() == all_items(shared@.sources).len()
            &&& forall|k: int|
                0 <= k < brought.len() ==> becomes(
                    all_items(shared@.sources)[k],
                    shared@.thread_roles,
                    #[trigger] brought[k],
                )
        } implies {
        &&& exists|handed: Seq<Seq<TelemetryEvent>>| #[trigger]
            moved(shared@, final(shared)@, brought.to_multiset(), handed)
        &&& final(shared)@.sources.len() == shared@.sources.len()
        &&& forall|s: int|
            0 <= s < shared@.sources.len() ==> (
            #[trigger] final(shared)@.sources[s]).pending.len() == 0
                && final(shared)@.sources[s].stopped == shared@.sources[s].stopped
    } by {
        law_flushing_sources_moves_every_item(shared@, thread, brought);
    }
}

/// A source keeps what it is given behind what it holds, and a flush hands all
/// of it out and leaves nothing.
pub proof fn law_sources_hand_out_what_they_were_given(
    sample: crate::recorder::source::CpuSampleData,
    event: TelemetryEvent,
    events: Vec<TelemetryEvent>,
    roles: &std::collections::HashMap<u32, ThreadRole>,
)
    ensures
        forall|source: &mut Source|
            #[trigger] call_ensures(Source::push, (source, sample), ()) ==> final(source)@.pending
                == source@.pending.push(SourceItem::Sample(sample)) && final(source)@.stopped
                == source@.stopped,
        forall|source: &mut Source|
            #[trigger] call_ensures(Source::push_event, (source, event), ()) ==> final(source)@.pending == source@.pending.push(SourceItem::Event(event)) && final(source)@.stopped
                == source@.stopped,
        forall|source: &mut Source|
            #[trigger] call_ensures(Source::flush, (source, roles), events) ==> final(source)@.pending.len() == 0 && events@.len() == source@.pending.len() && (forall|k: int|
                0 <= k < events@.len() ==> becomes(
                    source@.pending[k],
                    roles@,
                    #[trigger] events@[k],
                )),
{
}

/// A drain moves to the collector what waits in every buffer that it locks, and
/// leaves the buffers of running threads registered, in their order; those of
/// exited threads go.
pub proof fn law_drain_moves_what_waits(stats: TlDrainStats)
    ensures
        forall|shared: &mut SharedState|
            #[trigger] call_ensures(SharedState::drain_all_tl_buffers, (shared,), stats)
                ==> final(shared)@ == shared@.drained() && stats == shared@.drain_stats(),
        forall|shared: &mut SharedState|
            #[trigger] call_ensures(SharedState::drain_all_tl_buffers, (shared,), stats)
                && shared.wf() && sound(shared@) ==> exists|handed: Seq<Seq<TelemetryEvent>>|
                #[trigger]
                moved(shared@, final(shared)@, Multiset::empty(), handed),
{
    assert forall|shared: &mut SharedState|
        #[trigger] call_ensures(SharedState::drain_all_tl_buffers, (shared,), stats)
            && shared.wf() && sound(shared@) implies exists|handed: Seq<Seq<TelemetryEvent>>|
        #[trigger]
        moved(shared@, final(shared)@, Multiset::empty(), handed) by {
        law_draining_keeps_the_events(shared@);
    }
}

/// A thread that flushes its buffer or exits hands what waits in it to the
/// collector as the newest batch; after an exit the thread has no buffer.
pub proof fn law_threads_hand_over_what_waits(thread: u64, before: Seq<TelemetryEvent>)
    requires
        before.len() > 0,
    ensures
        forall|shared: &mut SharedState|
            #[trigger] call_ensures(SharedState::drain_to_collector, (shared, thread), ())
                && shared.wf() && waits(shared@, thread, before) ==> final(shared)@.collector.batches.last() == before && waits(final(shared)@, thread, Seq::empty()),
        forall|shared: &mut SharedState|
            #[trigger] call_ensures(SharedState::thread_exited, (shared, thread), ())
                && shared.wf() && waits(shared@, thread, before) ==> final(shared)@.collector.batches.last() == before && unknown(final(shared)@, thread),
{
    assert forall|shared: &mut SharedState|
        #[trigger] call_ensures(SharedState::drain_to_collector, (shared, thread), ())
            && shared.wf() && waits(shared@, thread, before) implies final(shared)@.collector.batches.last() == before && waits(final(shared)@, thread, Seq::empty()) by {
        law_flush_hands_over_what_waits(shared@, thread, before);
    }
    assert forall|shared: &mut SharedState|
        #[trigger] call_ensures(SharedState::thread_exited, (shared, thread), ()) && shared.wf()
            && waits(shared@, thread, before) implies final(shared)@.collector.batches.last()
        == before && unknown(final(shared)@, thread) by {
        law_exit_hands_over_what_waits(shared@, thread, before);
    }
}

/// Bumping the drain epoch advances it by one and changes nothing else.
pub proof fn law_bump_advances_the_epoch()
    ensures
        forall|shared: &mut SharedState|
            #[trigger] call_ensures(SharedState::bump_drain_epoch, (shared,), ())
                && shared@.drain_epoch < u64::MAX ==> final(shared)@ == (SharedModel {
                drain_epoch: (shared@.drain_epoch + 1) as u64,
                ..shared@
            }),
{
}

/// Attaching a runtime gives its workers the next identities that nobody has,
/// and asking for one of them gives that identity and makes it the role of the
/// thread that asks. A worker that is none has no identity and no role.
pub proof fn law_workers_are_found_by_their_index(
    name: Option<String>,
    count: u64,
    context: usize,
    index: u64,
    tid: u32,
    worker: Option<WorkerId>,
)
    ensures
        forall|shared: &mut SharedState|
            #[trigger] call_ensures(SharedState::attach_runtime, (shared, name, count), ())
                && shared@.next_worker_id + count <= u64::MAX ==> {
                let added = final(shared)@.contexts.last();
                &&& final(shared)@.next_worker_id == shared@.next_worker_id + count
                &&& final(shared)@.contexts.len() == shared@.contexts.len() + 1
                &&& final(shared)@.contexts.drop_last() == shared@.contexts
                &&& added.worker_ids.dom().contains(index) <==> index < count
                &&& index < count ==> added.worker_ids[index] == shared@.next_worker_id + index
                &&& name is Some ==> added.name == Some(name->0@)
                &&& name is None ==> added.name is None
            },
        forall|shared: &mut SharedState|
            #[trigger] call_ensures(
                SharedState::resolve_worker,
                (shared, context, index, tid),
                worker,
            ) ==> {
                let known = context < shared@.contexts.len()
                    && shared@.contexts[context as int].worker_ids.dom().contains(index);
                &&& worker is Some <==> known
                &&& known ==> worker->0.id == shared@.contexts[context as int].worker_ids[index]
                    && final(shared)@.thread_roles == shared@.thread_roles.insert(
                    tid,
                    ThreadRole::Worker(worker->0),
                )
                &&& !known ==> final(shared)@ == shared@
                &&& final(shared)@ == (SharedModel {
                    thread_roles: final(shared)@.thread_roles,
                    ..shared@
                })
            },
{
    assert forall|shared: &mut SharedState|
        #[trigger] call_ensures(SharedState::attach_runtime, (shared, name, count), ())
            && shared@.next_worker_id + count <= u64::MAX implies final(shared)@.contexts.drop_last() == shared@.contexts by {
        assert(final(shared)@.contexts.drop_last() =~= shared@.contexts);
    }
}

/// The metadata names each runtime that has a name, once and in the order of
/// attachment, under `runtime.` and its name, and says which identities its
/// workers have.
pub proof fn law_metadata_says_whose_the_workers_are(
    contexts: &Vec<RuntimeContext>,
    entries: Vec<Entry>,
    base: u64,
    count: u64,
)
    requires
        call_ensures(runtime_entries, (contexts,), entries),
        contexts@.len() == 1,
        base + count <= u64::MAX,
        contexts@[0].name is Some,
        contexts@[0].workers_and_base == Some((count, base)),
        contexts@[0].worker_ids@ == worker_block(base, count),
    ensures
        entries@.len() == 1,
        entries@[0].0@ == "runtime."@ + contexts@[0].name->0@,
        entries@[0].1@ == joined(Seq::new(count as nat, |i: int| (base + i) as u64)),
{
    let models = contexts@.map_values(|context: RuntimeContext| context@);
    law_block_in_order(base, count, count as nat);
    let texts = entry_texts(entries@);
    assert(models.drop_last() =~= Seq::<ContextModel>::empty());
    reveal_with_fuel(crate::recorder::runtime_context::runtime_texts, 2);
    assert(texts.len() == 1);
    assert(texts[0] == (entries@[0].0@, entries@[0].1@));
}

/// A batch goes behind those that wait; where there is no room, the oldest goes
/// and is counted. Batches are taken in the order in which they came.
pub proof fn law_collector_is_a_bounded_queue(batch: Batch, taken: Option<Batch>, dropped: u64)
    ensures
        forall|c: &mut CentralCollector|
            #[trigger] call_ensures(CentralCollector::accept_flush, (c, batch), ()) && c.wf() ==> {
                &&& c@.batches.len() < c@.capacity ==> final(c)@.batches == c@.batches.push(batch@)
                    && final(c)@.dropped == c@.dropped
                &&& c@.batches.len() == c@.capacity ==> final(c)@.batches
                    == c@.batches.drop_first().push(batch@)
                &&& c@.batches.len() == c@.capacity && c@.dropped < u64::MAX ==> final(c)@.dropped
                    == c@.dropped + 1
                &&& final(c)@.capacity == c@.capacity
            },
        forall|c: &mut CentralCollector|
            #[trigger] call_ensures(CentralCollector::next, (c,), taken) ==> {
                &&& taken is Some <==> c@.batches.len() > 0
                &&& taken is Some ==> taken->0@ == c@.batches[0] && final(c)@.batches
                    == c@.batches.skip(1)
                &&& final(c)@.dropped == c@.dropped
                &&& final(c)@.capacity == c@.capacity
            },
        forall|c: &mut CentralCollector|
            #[trigger] call_ensures(CentralCollector::take_dropped_batches, (c,), dropped)
                ==> dropped == c@.dropped && final(c)@.dropped == 0 && final(c)@.batches
                == c@.batches,
{
    assert forall|c: &mut CentralCollector|
        #[trigger] call_ensures(CentralCollector::accept_flush, (c, batch), ()) && c.wf() implies {
        &&& c@.batches.len() < c@.capacity ==> final(c)@.batches == c@.batches.push(batch@)
            && final(c)@.dropped == c@.dropped
        &&& c@.batches.len() == c@.capacity ==> final(c)@.batches
            == c@.batches.drop_first().push(batch@)
        &&& c@.batches.len() == c@.capacity && c@.dropped < u64::MAX ==> final(c)@.dropped
            == c@.dropped + 1
        &&& final(c)@.capacity == c@.capacity
    } by {
        crate::recorder::buffer::law_new_batches_go_last(c@, batch@);
    }
    assert forall|c: &mut CentralCollector|
        #[trigger] call_ensures(CentralCollector::next, (c,), taken) && taken is Some implies final(c)@.batches == c@.batches.skip(1) by {
        assert(final(c)@.batches =~= c@.batches.skip(1));
    }
}

/// The assembled pipeline is the one that the presets promise, and a custom one
/// is what was given.
pub proof fn law_assembled_pipelines_keep_the_promise(
    profiled: bool,
    pipeline: PipelineConfig,
    processors: Vec<Processor>,
)
    requires
        call_ensures(assemble_processors, (profiled, pipeline), processors),
    ensures
        pipeline matches PipelineConfig::Custom(user) ==> processors@ == user@,
        pipeline is Unset && !profiled ==> processors@.len() == 0,
        pipeline is Unset && profiled ==> processors@ == seq![
            Processor::Symbolize,
            Processor::Gzip,
            Processor::WriteBack,
        ],
        pipeline matches PipelineConfig::S3(uploader) ==> processors@ == if profiled {
            seq![Processor::Symbolize, Processor::Gzip, Processor::S3(uploader)]
        } else {
            seq![Processor::Gzip, Processor::S3(uploader)]
        },
{
    if pipeline is S3 {
        law_pipeline_of_each_strategy(pipeline->S3_0, processors, profiled);
    }
}

/// Task callbacks are installed exactly where tasks are followed, all others
/// always.
pub proof fn law_installed_callbacks(tracking: bool, installed: Vec<Hook>)
    requires
        call_ensures(register_hooks, (tracking,), installed),
    ensures
        installed@.no_duplicates(),
        forall|hook: Hook| #[trigger]
            installed@.contains(hook) <==> tracking || !(hook is TaskSpawn
                || hook is TaskTerminate),
{
    crate::recorder::hooks::law_each_callback_is_installed_once(tracking);
    assert forall|hook: Hook| #[trigger] installed@.contains(hook) implies tracking || !(
    hook is TaskSpawn || hook is TaskTerminate) by {}
}

/// Enabling and disabling a session switches recording and nothing else; a
/// guard without a session stays as it is.
pub proof fn law_recording_is_switched(at: Option<u64>, guard: &TelemetryGuard)
    ensures
        forall|g: &mut TelemetryGuard|
            #[trigger] call_ensures(TelemetryGuard::enable, (g,), ()) ==> final(g).live()
                == g.live() && (g.live() ==> final(g).state() == (SharedModel {
                enabled: true,
                ..g.state()
            })) && (!g.live() ==> *final(g) == *g),
        forall|g: &mut TelemetryGuard|
            #[trigger] call_ensures(TelemetryGuard::disable, (g,), ()) ==> final(g).live()
                == g.live() && (g.live() ==> final(g).state() == (SharedModel {
                enabled: false,
                ..g.state()
            })) && (!g.live() ==> *final(g) == *g),
        call_ensures(TelemetryGuard::start_time, (guard,), at) ==> (at is Some <==> guard.live())
            && (guard.live() ==> at == Some(guard.state().start_time_ns)),
{
}

/// A shutdown in good order seals the last segment before it joins the flush
/// thread, then tells the worker its timeout before it joins it. What waits in
/// the buffer of the calling thread is handed over first.
pub proof fn law_shutdown_goes_in_order(
    guard: TelemetryGuard,
    thread: u64,
    timeout: Duration,
    result: Result<(Vec<ShutdownStep>, Option<SharedState>), IoError>,
)
    requires
        call_ensures(TelemetryGuard::graceful_shutdown, (guard, thread, timeout), result),
        guard.live(),
        guard.session().flush_thread,
        guard.session().worker is Some,
        guard.session().worker->0.shutdown,
        guard.session().worker->0.thread,
    ensures
        result is Ok,
        result->Ok_0.0@ == seq![
            ShutdownStep::FinalizeAndStop,
            ShutdownStep::JoinFlushThread,
            ShutdownStep::SignalWorker(timeout),
            ShutdownStep::JoinWorker,
        ],
        result->Ok_0.1 is Some,
        result->Ok_0.1->0@ == guard.state().flushed(thread),
{
    assert(result->Ok_0.0@ =~= seq![
        ShutdownStep::FinalizeAndStop,
        ShutdownStep::JoinFlushThread,
        ShutdownStep::SignalWorker(timeout),
        ShutdownStep::JoinWorker,
    ]);
}

/// A session that is closed at once seals the last segment and hangs up on the
/// worker; a second close finds nothing to join and nobody to hang up on.
pub proof fn law_close_seals_and_hangs_up(thread: u64, steps: Vec<ShutdownStep>)
    ensures
        forall|g: &mut TelemetryGuard|
            #[trigger] call_ensures(TelemetryGuard::close, (g, thread), steps) && g.live() ==> {
                &&& steps@.len() > 0
                &&& steps@[0] is FinalizeAndStop
                &&& g.session().flush_thread ==> steps@.len() > 1 && steps@[1] is JoinFlushThread
                &&& g.session().worker is Some && g.session().worker->0.shutdown
                    ==> steps@.last() is HangUpOnWorker
                &&& !final(g).session().flush_thread
                &&& final(g).session().worker is Some ==> !final(g).session().worker->0.shutdown
                &&& final(g).state() == g.state().flushed(thread)
            },
        forall|g: &mut TelemetryGuard|
            #[trigger] call_ensures(TelemetryGuard::close, (g, thread), steps) && !g.live()
                ==> steps@.len() == 0,
{
}

/// A runtime is traced exactly where the guard owns a session; it keeps its
/// name.
pub proof fn law_runtimes_are_attached_to_live_sessions(
    guard: &TelemetryGuard,
    name: Option<String>,
    tracking: bool,
    step: AttachStep,
)
    requires
        call_ensures(TelemetryGuard::attach, (guard, name, tracking), step),
    ensures
        guard.live() ==> step == (AttachStep::Attach { name, task_tracking: tracking }),
        !guard.live() ==> step is Plain,
{
}

/// The epoch advances once the time has come, the drain follows in the next
/// tick, and the next epoch is half a minute later.
pub proof fn law_ticks_follow_the_schedule(now_ns: u64, step: DrainStep)
    requires
        now_ns + 30_000_000_000 <= u64::MAX,
    ensures
        forall|schedule: &mut DrainSchedule|
            #[trigger] call_ensures(DrainSchedule::tick, (schedule, now_ns), step) ==> {
                &&& schedule.bumped ==> step is Drain && !final(schedule).bumped && final(schedule).due_ns == now_ns + 30_000_000_000
                &&& !schedule.bumped && now_ns >= schedule.due_ns ==> step is Bump && final(schedule).bumped
                &&& !schedule.bumped && now_ns < schedule.due_ns ==> step is Wait
                    && *final(schedule) == *schedule
            },
{
}

/// A runtime that was built is added to a live session under its name, with the
/// next identities for its workers; without a session it stays a plain one. One
/// that could not be built changes nothing, and its error is given back.
pub proof fn law_built_runtimes_are_added<R>(
    name: Option<String>,
    tracking: bool,
    runtime: R,
    workers: u64,
    error: IoError,
    result: Result<(R, bool), IoError>,
)
    ensures
        forall|g: &mut TelemetryGuard, l: &mut ThreadLocals|
            #[trigger] call_ensures(
                TelemetryGuard::runtime_built::<R>,
                (
                    g,
                    l,
                    AttachStep::Attach { name, task_tracking: tracking },
                    Ok((runtime, workers)),
                ),
                result,
            ) ==> {
                &&& result is Ok
                &&& result->Ok_0.0 == runtime
                &&& result->Ok_0.1 == g.live()
                &&& g.live() ==> final(l).has_handle && final(g).live() && final(g).state().contexts.len() == g.state().contexts.len() + 1 && final(g).state().next_worker_id == (g.state().next_worker_id + workers) as u64
                    && final(g).state().enabled == g.state().enabled
                &&& g.live() && name is Some ==> final(g).state().contexts.last().name == Some(
                    name->0@,
                )
                &&& !g.live() ==> *final(g) == *g && *final(l) == *l
            },
        forall|g: &mut TelemetryGuard, l: &mut ThreadLocals|
            #[trigger] call_ensures(
                TelemetryGuard::runtime_built::<R>,
                (g, l, AttachStep::Attach { name, task_tracking: tracking }, Err(error)),
                result,
            ) ==> result == Err::<(R, bool), IoError>(error) && *final(g) == *g && *final(l) == *l,
{
}

/// A build ends with the runtime and a live guard, recording exactly where that
/// was asked for or was on already; a failed one gives the error and the guard
/// back.
pub proof fn law_builds_end_with_a_live_guard<R>(
    guard: TelemetryGuard,
    step: AttachStep,
    start: bool,
    runtime: R,
    workers: u64,
    error: IoError,
    result: Result<(R, TelemetryGuard), (IoError, TelemetryGuard)>,
)
    requires
        guard.live(),
        step is Attach,
    ensures
        forall|l: &mut ThreadLocals|
            #[trigger] call_ensures(
                finish_build::<R>,
                (guard, l, step, start, Ok((runtime, workers))),
                result,
            ) ==> {
                &&& result is Ok
                &&& result->Ok_0.0 == runtime
                &&& result->Ok_0.1.live()
                &&& result->Ok_0.1.state().enabled == (start || guard.state().enabled)
                &&& result->Ok_0.1.state().contexts.len() == guard.state().contexts.len() + 1
                &&& result->Ok_0.1.state().collector == guard.state().collector
                &&& result->Ok_0.1.state().start_time_ns == guard.state().start_time_ns
                &&& final(l).has_handle
            },
        forall|l: &mut ThreadLocals|
            #[trigger] call_ensures(finish_build::<R>, (guard, l, step, start, Err(error)), result)
                ==> result is Err && result->Err_0.0 == error && result->Err_0.1 == guard && *final(l) == *l,
{
}

/// A failed build of a configuration is blamed on the session where telemetry
/// was asked for and on the runtime where it was not, and keeps its cause. The
/// text says which, and why.
pub proof fn law_failed_builds_say_what_failed<R>(
    enabled: bool,
    cause: IoError,
    result: Result<TracedRuntime<R>, TelemetryRuntimeError>,
    core: &TelemetryRuntimeError,
    message: String,
)
    ensures
        call_ensures(TracedRuntime::<R>::from_config, (enabled, Err(cause)), result) ==> {
            &&& result is Err
            &&& enabled ==> result->Err_0 == TelemetryRuntimeError::TelemetryCore(cause)
            &&& !enabled ==> result->Err_0 == TelemetryRuntimeError::TokioRuntimeBuilder(cause)
        },
        call_ensures(TelemetryRuntimeError::message, (core,), message) ==> match core {
            TelemetryRuntimeError::TelemetryCore(inner) => message@ == "telemetry core: "@
                + inner.described(),
            TelemetryRuntimeError::TokioRuntimeBuilder(inner) => message@
                == "tokio runtime builder: "@ + inner.described(),
        },
{
}

/// A configuration that asks for telemetry comes to a session that records from
/// the start, with the writer of the configuration; one that does not comes to
/// a plain runtime.
pub proof fn law_configurations_record_from_the_start<W, M>(
    writer: W,
    builder: TracedRuntimeBuilder<HasTracePath, M>,
    at: Surroundings,
    plan: RuntimePlan<W>,
)
    ensures
        call_ensures(
            try_assemble_dial9_config::<W, M>,
            (Inner::Enabled { writer, runtime_builder: builder }, at),
            plan,
        ) ==> {
            &&& plan is Session <==> builder.enabled
            &&& plan is Session ==> plan->start && plan->plan.writer == writer
                && plan->plan.shared@.start_time_ns == at.now_ns
            &&& plan is Session ==> plan->step == (AttachStep::Attach {
                name: builder.runtime_name,
                task_tracking: builder.task_tracking_enabled,
            })
        },
        call_ensures(try_assemble_dial9_config::<W, M>, (Inner::Disabled, at), plan)
            ==> plan is Plain,
{
}

/// A build with a trace path has a worker exactly where there is a processor;
/// one without a path has none. Both start recording exactly where they say so.
pub proof fn law_workers_need_a_trace_path<W, M>(
    builder: TracedRuntimeBuilder<HasTracePath, M>,
    pathless: TracedRuntimeBuilder<NoTracePath, M>,
    writer: W,
    at: Surroundings,
    plan: RuntimePlan<W>,
)
    ensures
        call_ensures(TracedRuntimeBuilder::<HasTracePath, M>::build::<W>, (builder, writer, at), plan)
            && plan is Session ==> !plan->start && (plan->plan.worker is Some
            <==> builder.trace_path is Some && assembled(
            builder.cpu_profiling_config is Some,
            builder.pipeline,
        ).len() > 0),
        call_ensures(
            TracedRuntimeBuilder::<HasTracePath, M>::build_and_start::<W>,
            (builder, writer, at),
            plan,
        ) && plan is Session ==> plan->start,
        call_ensures(TracedRuntimeBuilder::<NoTracePath, M>::build::<W>, (pathless, writer, at), plan)
            && plan is Session ==> !plan->start && plan->plan.worker is None,
        call_ensures(
            TracedRuntimeBuilder::<NoTracePath, M>::build_and_start::<W>,
            (pathless, writer, at),
            plan,
        ) && plan is Session ==> plan->start && plan->plan.worker is None,
{
}

/// A session that is launched has a flush thread with its writer, and a worker
/// exactly where one was planned. A profiler that was started becomes the
/// newest source; one that was not changes nothing.
pub proof fn law_launched_sessions_have_their_threads<W>(
    plan: SessionPlan<W>,
    launched: (TelemetryGuard, FlushTask<W>, Option<BackgroundTaskConfig>),
    source: Source,
    error: IoError,
)
    ensures
        call_ensures(SessionPlan::<W>::launch, (plan,), launched) ==> {
            &&& launched.0.live()
            &&& launched.0.session().shared == plan.shared
            &&& launched.0.session().flush_thread
            &&& launched.0.session().worker is Some <==> plan.worker is Some
            &&& launched.1.writer == plan.writer
            &&& launched.2 == plan.worker
        },
        forall|p: &mut SessionPlan<W>|
            #[trigger] call_ensures(SessionPlan::<W>::profiler_started, (p, Ok(source)), ())
                ==> final(p).shared@.sources == p.shared@.sources.push(source@) && final(p).shared@.enabled == p.shared@.enabled,
        forall|p: &mut SessionPlan<W>|
            #[trigger] call_ensures(SessionPlan::<W>::profiler_started, (p, Err(error)), ())
                ==> final(p).shared@ == p.shared@,
{
}

/// A planned session has a worker exactly where there is a trace path and a
/// processor, starts with recording disabled, and gives its metadata to the
/// writer.
pub proof fn law_planned_sessions<W>(
    config: TelemetryCoreBuilder<W>,
    at: Surroundings,
    plan: SessionPlan<W>,
)
    requires
        call_ensures(TelemetryCore::new::<W>, (config, at), plan),
    ensures
        plan.worker is Some <==> config.trace_path is Some && (config.processors@.len() > 0
            || config.s3_config is Some || config.cpu_profiling is Some),
        plan.worker is Some && config.processors@.len() > 0 ==> plan.worker->0.processors@
            == config.processors@,
        plan.worker is Some ==> plan.worker->0.trace_path == config.trace_path,
        !plan.shared@.enabled,
        plan.shared@.start_time_ns == at.now_ns,
        plan.shared@.task_dumps_enabled == (config.task_dump_config is Some),
        plan.writer == config.writer,
        plan.cpu_profiling == config.cpu_profiling,
        plan.sched_events == config.sched_events,
        config.segment_metadata@.len() > 0 ==> plan.metadata_update is Some && entry_texts(
            plan.metadata_update->0@,
        ) == entry_texts(config.segment_metadata@),
{
}

/// The metadata entries of the runtimes are one for each that has a name.
pub proof fn law_metadata_entries_are_those_of_the_runtimes(
    contexts: &Vec<RuntimeContext>,
    entries: Vec<Entry>,
)
    requires
        call_ensures(runtime_entries, (contexts,), entries),
    ensures
        entry_texts(entries@) == crate::recorder::runtime_context::runtime_texts(
            contexts@.map_values(|context: RuntimeContext| context@),
        ),
{
}

/// The right to record is given exactly while recording is enabled; without it
/// nothing changes.
pub proof fn law_recording_needs_the_right(event: TelemetryEvent, thread: u64)
    ensures
        forall|shared: &mut SharedState, buffer: Option<EventBuffer>|
            #[trigger] call_ensures(SharedState::if_enabled, (shared,), buffer) ==> (buffer is Some
                <==> shared@.enabled) && (buffer is None ==> *final(shared) == *shared),
        forall|b: &mut EventBuffer|
            #[trigger] call_ensures(EventBuffer::record_encodable_event, (b, thread, event), ())
                ==> final(b).shared@ == b.shared@.recorded(thread, seq![event]),
{
}

/// Instrumented spawns nest: a thread is inside of one until it has left as
/// many as it entered.
pub proof fn law_instrumented_spawns_nest()
    ensures
        forall|l: &mut ThreadLocals|
            #[trigger] call_ensures(ThreadLocals::enter_instrumented_spawn, (l,), ())
                && l.instrumented_spawns < u32::MAX ==> final(l).instrumented_spawns
                == l.instrumented_spawns + 1 && final(l).has_handle == l.has_handle,
        forall|l: &mut ThreadLocals|
            #[trigger] call_ensures(ThreadLocals::leave_instrumented_spawn, (l,), ())
                && l.instrumented_spawns > 0 ==> final(l).instrumented_spawns
                == l.instrumented_spawns - 1 && final(l).has_handle == l.has_handle,
{
}

/// A buffer gives back what was recorded into it, in that order, as one batch
/// with as many events, and is empty afterwards. It is full from 1 MiB on.
pub proof fn law_buffers_give_back_what_they_took(
    event: TelemetryEvent,
    batch: Batch,
    count: u64,
    buffer: &ThreadLocalBuffer,
    full: bool,
)
    ensures
        forall|b: &mut ThreadLocalBuffer|
            #[trigger] call_ensures(ThreadLocalBuffer::record, (b, event), ()) ==> final(b)@
                == b@.push(event),
        forall|b: &mut ThreadLocalBuffer|
            #[trigger] call_ensures(ThreadLocalBuffer::flush, (b,), batch) ==> batch@ == b@
                && final(b)@.len() == 0,
        call_ensures(Batch::event_count, (&batch,), count) ==> count == batch@.len(),
        call_ensures(ThreadLocalBuffer::is_full, (buffer,), full) ==> (full
            <==> crate::recorder::buffer::encoded_size(buffer@) >= 1_048_576),
{
}

/// The metadata of an uploader names the bucket and the service first, and the
/// instance and the boot where they are known.
pub proof fn law_uploaders_are_named(config: &S3Config, entries: Vec<Entry>)
    requires
        call_ensures(S3Config::as_metadata, (config,), entries),
    ensures
        entries@.len() == 2 + (if config.instance_path is Some {
            1int
        } else {
            0
        }) + (if config.boot_id is Some {
            1int
        } else {
            0
        }),
        entries@[0].0@ == "bucket"@ && entries@[0].1@ == config.bucket@,
        entries@[1].0@ == "service_name"@ && entries@[1].1@ == config.service_name@,
        config.boot_id is Some ==> entries@.last().0@ == "boot_id"@ && entries@.last().1@
            == config.boot_id->0@,
        config.instance_path is Some ==> entries@[2].0@ == "instance_path"@ && entries@[2].1@
            == config.instance_path->0@,
{
    let texts = entry_texts(entries@);
    assert(texts.len() == entries@.len());
    assert(texts[0] == (entries@[0].0@, entries@[0].1@));
    assert(texts[1] == (entries@[1].0@, entries@[1].1@));
    assert(texts.last() == (entries@.last().0@, entries@.last().1@));
    if config.instance_path is Some {
        assert(texts[2] == (entries@[2].0@, entries@[2].1@));
    }
}

/// Choosing the S3 preset puts its configuration in the pipeline and in the
/// metadata, in place of what was there; a client is kept whichever comes
/// first, and the last one given counts.
pub proof fn law_the_s3_preset_replaces_metadata_and_keeps_the_client<P>(
    plain: TracedRuntimeBuilder<P, PipelineUnset>,
    preset: TracedRuntimeBuilder<P, PipelineS3>,
    config: S3Config,
    client: aws_sdk_s3::Client,
    built: TracedRuntimeBuilder<P, PipelineS3>,
)
    ensures
        call_ensures(
            TracedRuntimeBuilder::<P, PipelineUnset>::with_s3_uploader,
            (plain, config),
            built,
        ) ==> entry_texts(built.segment_metadata@) == config.metadata() && built.pipeline is S3
            && built.pipeline->S3_0.config == config && built.pipeline->S3_0.client is None
            && built.trace_path == plain.trace_path && built.runtime_name == plain.runtime_name,
        call_ensures(
            TracedRuntimeBuilder::<P, PipelineS3>::with_s3_client,
            (preset, client),
            built,
        ) && preset.pipeline is S3 ==> built.pipeline is S3 && built.pipeline->S3_0.client == Some(
            client,
        ) && built.pipeline->S3_0.config == preset.pipeline->S3_0.config
            && built.segment_metadata == preset.segment_metadata,
        call_ensures(
            TracedRuntimeBuilder::<P, PipelineS3>::with_s3_uploader,
            (preset, config),
            built,
        ) && preset.pipeline is S3 ==> built.pipeline is S3 && built.pipeline->S3_0.client
            == preset.pipeline->S3_0.client && built.pipeline->S3_0.config == config && entry_texts(
            built.segment_metadata@,
        ) == config.metadata(),
{
}

/// Each setting of a builder is what was last given for it, and changes no
/// other.
pub proof fn law_settings_are_what_was_last_given<P, M>(
    builder: TracedRuntimeBuilder<P, M>,
    on: bool,
    name: String,
    entries: Vec<Entry>,
    built: TracedRuntimeBuilder<P, M>,
)
    ensures
        call_ensures(TracedRuntimeBuilder::<P, M>::install, (builder, on), built) ==> built
            == (TracedRuntimeBuilder { enabled: on, ..builder }),
        call_ensures(TracedRuntimeBuilder::<P, M>::with_task_tracking, (builder, on), built)
            ==> built == (TracedRuntimeBuilder { task_tracking_enabled: on, ..builder }),
        call_ensures(TracedRuntimeBuilder::<P, M>::with_runtime_name, (builder, name), built)
            ==> built == (TracedRuntimeBuilder { runtime_name: Some(name), ..builder }),
        call_ensures(TracedRuntimeBuilder::<P, M>::with_segment_metadata, (builder, entries), built)
            ==> built == (TracedRuntimeBuilder { segment_metadata: entries, ..builder }),
{
}

/// The first trace path counts: it is set where there is none and kept where
/// there is one.
pub proof fn law_the_first_trace_path_counts<M>(
    pathless: TracedRuntimeBuilder<NoTracePath, M>,
    builder: TracedRuntimeBuilder<HasTracePath, M>,
    path: std::path::PathBuf,
    built: TracedRuntimeBuilder<HasTracePath, M>,
)
    ensures
        call_ensures(
            TracedRuntimeBuilder::<NoTracePath, M>::with_trace_path,
            (pathless, path),
            built,
        ) ==> built.trace_path == Some(path) && built.pipeline == pathless.pipeline && built.enabled
            == pathless.enabled && built.runtime_name == pathless.runtime_name,
        call_ensures(
            TracedRuntimeBuilder::<HasTracePath, M>::with_trace_path,
            (builder, path),
            built,
        ) ==> built == builder,
{
}

/// A thread that starts is one of the blocking pool, and a thread that stops
/// loses its role; every source is told of the thread that stops and keeps what
/// it holds, and no other role changes.
pub proof fn law_threads_come_and_go(thread: u64, tid: u32, other: u32)
    requires
        other != tid,
    ensures
        forall|shared: &mut SharedState, locals: &mut ThreadLocals|
            #[trigger] call_ensures(
                run_hook,
                (shared, locals, thread, HookCall::ThreadStart { tid }),
                (),
            ) ==> {
                &&& final(shared)@.thread_roles[tid] == ThreadRole::Blocking
                &&& final(shared)@.thread_roles[other] == shared@.thread_roles[other]
                &&& final(shared)@.sources == shared@.sources
                &&& final(shared)@.collector == shared@.collector
                &&& final(locals).instrumented_spawns == locals.instrumented_spawns
            },
        forall|shared: &mut SharedState, locals: &mut ThreadLocals|
            #[trigger] call_ensures(
                run_hook,
                (shared, locals, thread, HookCall::ThreadStop { tid }),
                (),
            ) ==> {
                &&& !final(shared)@.thread_roles.dom().contains(tid)
                &&& shared@.thread_roles.dom().contains(other) ==> final(shared)@.thread_roles.dom().contains(other) && final(shared)@.thread_roles[other] == shared@.thread_roles[other]
                &&& final(shared)@.sources.len() == shared@.sources.len()
                &&& forall|s: int|
                    0 <= s < shared@.sources.len() ==> (#[trigger] final(shared)@.sources[s]).stopped == shared@.sources[s].stopped.push(tid)
                        && final(shared)@.sources[s].pending == shared@.sources[s].pending
                &&& final(shared)@.collector == shared@.collector
            },
{
    assert forall|shared: &mut SharedState, locals: &mut ThreadLocals|
        #[trigger] call_ensures(
            run_hook,
            (shared, locals, thread, HookCall::ThreadStart { tid }),
            (),
        ) implies {
        &&& final(shared)@.thread_roles[tid] == ThreadRole::Blocking
        &&& final(shared)@.thread_roles[other] == shared@.thread_roles[other]
        &&& final(shared)@.sources == shared@.sources
        &&& final(shared)@.collector == shared@.collector
        &&& final(locals).instrumented_spawns == locals.instrumented_spawns
    } by {
        law_thread_callbacks_keep_the_roles(shared@, *locals, thread, tid, other);
    }
}

/// A session takes a new source behind those that it has, and a source gives
/// the threads that stopped once, in their order.
pub proof fn law_sources_are_kept_in_order(source: Source, stopped: Vec<u32>, tid: u32)
    ensures
        forall|shared: &mut SharedState|
            #[trigger] call_ensures(SharedState::push_source, (shared, source), ()) ==> final(shared)@ == (SharedModel {
                sources: shared@.sources.push(source@),
                ..shared@
            }),
        forall|s: &mut Source|
            #[trigger] call_ensures(Source::on_thread_stop, (s, tid), ()) ==> final(s)@.stopped
                == s@.stopped.push(tid) && final(s)@.pending == s@.pending,
        forall|s: &mut Source|
            #[trigger] call_ensures(Source::take_stopped, (s,), stopped) ==> stopped@
                == s@.stopped && final(s)@.stopped.len() == 0 && final(s)@.pending == s@.pending,
{
}

/// A new recording core records nothing, holds nothing, and knows when it
/// started.
pub proof fn law_new_cores_are_empty(
    start_time_ns: u64,
    seed: Option<u64>,
    state: SharedState,
    enabled: bool,
)
    ensures
        call_ensures(SharedState::new, (start_time_ns, seed), state) ==> {
            &&& !state@.enabled
            &&& state@.start_time_ns == start_time_ns
            &&& state@.task_dump_rng_seed == seed
            &&& state@.collector.batches.len() == 0
            &&& state@.collector.dropped == 0
            &&& state@.buffers.len() == 0
            &&& state@.contexts.len() == 0
            &&& state@.sources.len() == 0
            &&& state@.next_worker_id == 0
            &&& state@.drain_epoch == 0
            &&& !state@.task_dumps_enabled
        },
        call_ensures(SharedState::is_enabled, (&state,), enabled) ==> enabled == state@.enabled,
{
}

} // verus!
