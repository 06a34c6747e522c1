//! What a runtime's callbacks record.

use vstd::prelude::*;

use crate::recorder::event::{TaskId, TelemetryEvent, ThreadRole, WorkerId};
use crate::recorder::shared_state::{SharedModel, SharedState};
use crate::recorder::source::SourceModel;

verus! {

/// A callback of the runtime.
#[derive(Copy, Clone, Debug, PartialEq, Eq, Structural)]
pub enum Hook {
    ThreadPark,
    ThreadUnpark,
    BeforeTaskPoll,
    AfterTaskPoll,
    TaskSpawn,
    TaskTerminate,
    ThreadStart,
    ThreadStop,
}

/// The callbacks of a traced runtime, in the order of their installation.
pub open spec fn hooks(task_tracking_enabled: bool) -> Seq<Hook> {
    seq![Hook::ThreadPark, Hook::ThreadUnpark, Hook::BeforeTaskPoll, Hook::AfterTaskPoll] + (
    if task_tracking_enabled {
        seq![Hook::TaskSpawn, Hook::TaskTerminate]
    } else {
        Seq::empty()
    }) + seq![Hook::ThreadStart, Hook::ThreadStop]
}

/// Gives the callbacks to install on a runtime that is traced. Those of tasks
/// are among them only where tasks are tracked.
pub fn register_hooks(task_tracking_enabled: bool) -> (installed: Vec<Hook>)
    ensures
        installed@ == hooks(task_tracking_enabled),
{
    let mut installed: Vec<Hook> = Vec::new();
    installed.push(Hook::ThreadPark);
    installed.push(Hook::ThreadUnpark);
    installed.push(Hook::BeforeTaskPoll);
    installed.push(Hook::AfterTaskPoll);
    if task_tracking_enabled {
        installed.push(Hook::TaskSpawn);
        installed.push(Hook::TaskTerminate);
    }
    installed.push(Hook::ThreadStart);
    installed.push(Hook::ThreadStop);
    assert(installed@ =~= hooks(task_tracking_enabled));
    installed
}

/// A call of a callback, with what it reads off the runtime and the system.
#[derive(Debug)]
pub enum HookCall {
    ThreadPark { timestamp_ns: u64, worker_id: WorkerId },
    ThreadUnpark { timestamp_ns: u64, worker_id: WorkerId },
    BeforeTaskPoll {
        timestamp_ns: u64,
        worker_id: WorkerId,
        local_queue: u8,
        task_id: TaskId,
        location: String,
    },
    AfterTaskPoll { timestamp_ns: u64, worker_id: WorkerId },
    TaskSpawn { timestamp_ns: u64, task_id: TaskId, location: String },
    TaskTerminate { timestamp_ns: u64, task_id: TaskId },
    ThreadStart { tid: u32 },
    ThreadStop { tid: u32 },
}

/// What a session keeps for one thread.
#[derive(Copy, Clone, Debug, PartialEq, Eq, Structural)]
pub struct ThreadLocals {
    /// Whether the thread can reach the session through its current handle.
    pub has_handle: bool,
    /// How many instrumented spawns the thread is inside of.
    pub instrumented_spawns: u32,
}

impl ThreadLocals {
    /// A thread that knows of no session.
    pub fn new() -> (locals: ThreadLocals)
        ensures
            locals == (ThreadLocals { has_handle: false, instrumented_spawns: 0 }),
    {
        ThreadLocals { has_handle: false, instrumented_spawns: 0 }
    }

    /// Enters an instrumented spawn. Spawns nest.
    pub fn enter_instrumented_spawn(&mut self)
        requires
            old(self).instrumented_spawns < u32::MAX,
        ensures
            *final(self) == (ThreadLocals {
                instrumented_spawns: (old(self).instrumented_spawns + 1) as u32,
                ..*old(self)
            }),
    {
        self.instrumented_spawns = self.instrumented_spawns + 1;
    }

    /// Leaves the innermost instrumented spawn.
    pub fn leave_instrumented_spawn(&mut self)
        requires
            old(self).instrumented_spawns > 0,
        ensures
            *final(self) == (ThreadLocals {
                instrumented_spawns: (old(self).instrumented_spawns - 1) as u32,
                ..*old(self)
            }),
    {
        self.instrumented_spawns = self.instrumented_spawns - 1;
    }
}

/// The event that a call records while recording is enabled.
pub open spec fn event_of(call: HookCall, instrumented: bool) -> Option<TelemetryEvent> {
    match call {
        HookCall::ThreadPark { timestamp_ns, worker_id } => Some(
            TelemetryEvent::WorkerPark { timestamp_ns, worker_id },
        ),
        HookCall::ThreadUnpark { timestamp_ns, worker_id } => Some(
            TelemetryEvent::WorkerUnpark { timestamp_ns, worker_id },
        ),
        HookCall::BeforeTaskPoll { timestamp_ns, worker_id, local_queue, task_id, location } => Some(
            TelemetryEvent::PollStart { timestamp_ns, worker_id, local_queue, task_id, location },
        ),
        HookCall::AfterTaskPoll { timestamp_ns, worker_id } => Some(
            TelemetryEvent::PollEnd { timestamp_ns, worker_id },
        ),
        HookCall::TaskSpawn { timestamp_ns, task_id, location } => Some(
            TelemetryEvent::TaskSpawn { timestamp_ns, task_id, location, instrumented },
        ),
        HookCall::TaskTerminate { timestamp_ns, task_id } => Some(
            TelemetryEvent::TaskTerminate { timestamp_ns, task_id },
        ),
        HookCall::ThreadStart { tid } => None,
        HookCall::ThreadStop { tid } => None,
    }
}

/// The recording core after a call on `thread`.
pub open spec fn after_hook(
    state: SharedModel,
    locals: ThreadLocals,
    thread: u64,
    call: HookCall,
) -> SharedModel {
    match call {
        HookCall::ThreadStart { tid } => SharedModel {
            thread_roles: state.thread_roles.insert(tid, ThreadRole::Blocking),
            ..state
        },
        HookCall::ThreadStop { tid } => SharedModel {
            thread_roles: state.thread_roles.remove(tid),
            sources: state.sources.map_values(|s: SourceModel| s.without_thread(tid)),
            ..state
        },
        _ => if state.enabled {
            state.recorded(thread, seq![event_of(call, locals.instrumented_spawns > 0)->0])
        } else {
            state
        },
    }
}

fn record_if_enabled(shared: &mut SharedState, thread: u64, event: TelemetryEvent)
    requires
        old(shared).wf(),
    ensures
        final(shared).wf(),
        final(shared)@ == if old(shared)@.enabled {
            old(shared)@.recorded(thread, seq![event])
        } else {
            old(shared)@
        },
{
    if let Some(mut buffer) = shared.if_enabled() {
        buffer.record_encodable_event(thread, event);
    }
}

/// Carries out a call of a callback on `thread`.
pub fn run_hook(shared: &mut SharedState, locals: &mut ThreadLocals, thread: u64, call: HookCall)
    requires
        old(shared).wf(),
    ensures
        final(shared).wf(),
        final(shared)@ == after_hook(old(shared)@, *old(locals), thread, call),
        final(locals).instrumented_spawns == old(locals).instrumented_spawns,
        final(locals).has_handle == match call {
            HookCall::ThreadStart { tid } => true,
            HookCall::ThreadStop { tid } => false,
            _ => old(locals).has_handle,
        },
{
    broadcast use vstd::std_specs::hash::group_hash_axioms;

    match call {
        HookCall::ThreadPark { timestamp_ns, worker_id } => record_if_enabled(
            shared,
            thread,
            TelemetryEvent::WorkerPark { timestamp_ns, worker_id },
        ),
        HookCall::ThreadUnpark { timestamp_ns, worker_id } => record_if_enabled(
            shared,
            thread,
            TelemetryEvent::WorkerUnpark { timestamp_ns, worker_id },
        ),
        HookCall::BeforeTaskPoll { timestamp_ns, worker_id, local_queue, task_id, location } =>
        record_if_enabled(
            shared,
            thread,
            TelemetryEvent::PollStart { timestamp_ns, worker_id, local_queue, task_id, location },
        ),
        HookCall::AfterTaskPoll { timestamp_ns, worker_id } => record_if_enabled(
            shared,
            thread,
            TelemetryEvent::PollEnd { timestamp_ns, worker_id },
        ),
        HookCall::TaskSpawn { timestamp_ns, task_id, location } => {
            let instrumented = locals.instrumented_spawns > 0;
            record_if_enabled(
                shared,
                thread,
                TelemetryEvent::TaskSpawn { timestamp_ns, task_id, location, instrumented },
            )
        },
        HookCall::TaskTerminate { timestamp_ns, task_id } => record_if_enabled(
            shared,
            thread,
            TelemetryEvent::TaskTerminate { timestamp_ns, task_id },
        ),
        HookCall::ThreadStart { tid } => {
            locals.has_handle = true;
            shared.thread_roles.insert(tid, ThreadRole::Blocking);
        },
        HookCall::ThreadStop { tid } => {
            locals.has_handle = false;
            shared.thread_roles.remove(&tid);
            stop_sources(shared, tid);
        },
    }
}

/// Tells every data source that thread `tid` is about to exit.
fn stop_sources(shared: &mut SharedState, tid: u32)
    requires
        old(shared).wf(),
    ensures
        final(shared).wf(),
        final(shared)@ == (SharedModel {
            sources: old(shared)@.sources.map_values(|s: SourceModel| s.without_thread(tid)),
            ..old(shared)@
        }),
{
    let ghost before = old(shared)@;
    let mut i: usize = 0;
    while i < shared.sources.len()
        invariant
            i <= shared.sources@.len(),
            before == old(shared)@,
            shared.sources@.len() == before.sources.len(),
            shared.wf(),
            shared@ == (SharedModel { sources: shared@.sources, ..before }),
            forall|j: int|
                0 <= j < i ==> #[trigger] shared@.sources[j] == before.sources[j].without_thread(
                    tid,
                ),
            forall|j: int|
                i <= j < shared.sources@.len() ==> #[trigger] shared@.sources[j]
                    == before.sources[j],
        decreases shared.sources@.len() - i,
    {
        let ghost now = shared@.sources;
        shared.sources[i].on_thread_stop(tid);
        proof {
            assert forall|j: int| 0 <= j < shared.sources@.len() && j != i implies #[trigger]
                shared@.sources[j] == now[j] by {}
            assert(now[i as int] == before.sources[i as int]);
            assert(shared@.sources[i as int] == now[i as int].without_thread(tid));
        }
        i = i + 1;
    }
    assert(shared@.sources =~= before.sources.map_values(
        |s: SourceModel| s.without_thread(tid),
    ));
}

/// A traced runtime has every callback at most once: those of workers, polls
/// and threads always, those of tasks exactly where tasks are followed.
pub proof fn law_each_callback_is_installed_once(tracking: bool)
    ensures
        hooks(tracking).no_duplicates(),
        hooks(tracking).contains(Hook::ThreadPark),
        hooks(tracking).contains(Hook::ThreadUnpark),
        hooks(tracking).contains(Hook::BeforeTaskPoll),
        hooks(tracking).contains(Hook::AfterTaskPoll),
        hooks(tracking).contains(Hook::ThreadStart),
        hooks(tracking).contains(Hook::ThreadStop),
        hooks(tracking).contains(Hook::TaskSpawn) <==> tracking,
        hooks(tracking).contains(Hook::TaskTerminate) <==> tracking,
{
    let all = hooks(tracking);
    assert(all[0] == Hook::ThreadPark);
    assert(all[1] == Hook::ThreadUnpark);
    assert(all[2] == Hook::BeforeTaskPoll);
    assert(all[3] == Hook::AfterTaskPoll);
    if tracking {
        assert(all[4] == Hook::TaskSpawn);
        assert(all[5] == Hook::TaskTerminate);
        assert(all[6] == Hook::ThreadStart);
        assert(all[7] == Hook::ThreadStop);
    } else {
        assert(all[4] == Hook::ThreadStart);
        assert(all[5] == Hook::ThreadStop);
    }
}

} // verus!
