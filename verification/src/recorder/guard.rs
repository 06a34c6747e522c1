//! The owner of a telemetry session.

use core::time::Duration;

use vstd::prelude::*;

use crate::error::IoError;
use crate::recorder::hooks::ThreadLocals;
use crate::recorder::shared_state::{SharedModel, SharedState};

verus! {

/// The background worker: what is left of it to stop.
#[derive(Copy, Clone, Debug, PartialEq, Eq, Structural)]
pub struct WorkerHandle {
    /// Whether the channel that tells the worker to drain is still held.
    pub shutdown: bool,
    /// Whether the thread is still to be joined.
    pub thread: bool,
}

/// A live session.
pub struct EnabledGuard {
    pub shared: SharedState,
    /// Whether the flush thread is still to be joined.
    pub flush_thread: bool,
    pub worker: Option<WorkerHandle>,
}

/// A live session, or nothing.
pub enum GuardInner {
    Enabled(EnabledGuard),
    Disabled,
}

/// Owns a telemetry session. A disabled guard owns none: its methods do
/// nothing.
pub struct TelemetryGuard {
    pub inner: GuardInner,
}

/// One step of a shutdown.
#[derive(Copy, Clone)]
pub enum ShutdownStep {
    /// Tell the flush thread to flush, seal the segment and exit; where the
    /// message got through, wait for the answer.
    FinalizeAndStop,
    /// Join the flush thread.
    JoinFlushThread,
    /// Tell the worker to drain within the timeout.
    SignalWorker(Duration),
    /// Join the worker.
    JoinWorker,
    /// Hang up on the worker, so that it exits without draining.
    HangUpOnWorker,
}

/// What stopping the flush thread takes.
pub open spec fn flush_stop(flush_thread: bool) -> Seq<ShutdownStep> {
    if flush_thread {
        seq![ShutdownStep::FinalizeAndStop, ShutdownStep::JoinFlushThread]
    } else {
        seq![ShutdownStep::FinalizeAndStop]
    }
}

/// What draining the worker takes.
pub open spec fn worker_drain(worker: Option<WorkerHandle>, timeout: Duration) -> Seq<
    ShutdownStep,
> {
    match worker {
        None => Seq::empty(),
        Some(w) => (if w.shutdown {
            seq![ShutdownStep::SignalWorker(timeout)]
        } else {
            Seq::empty()
        }) + (if w.thread {
            seq![ShutdownStep::JoinWorker]
        } else {
            Seq::empty()
        }),
    }
}

impl TelemetryGuard {
    /// The guard owns a session.
    pub open spec fn live(&self) -> bool {
        self.inner is Enabled
    }

    /// The session that the guard owns.
    pub open spec fn session(&self) -> EnabledGuard {
        self.inner->Enabled_0
    }

    /// What the session's core holds.
    pub open spec fn state(&self) -> SharedModel {
        self.session().shared@
    }

    /// The session keeps its invariant.
    pub open spec fn wf(&self) -> bool {
        self.live() ==> self.session().shared.wf()
    }

    /// A guard that owns a session.
    pub fn enabled(shared: SharedState, flush_thread: bool, worker: Option<WorkerHandle>) -> (guard:
        TelemetryGuard)
        ensures
            guard.live(),
            guard.session() == (EnabledGuard { shared, flush_thread, worker }),
    {
        TelemetryGuard {
            inner: GuardInner::Enabled(EnabledGuard { shared, flush_thread, worker }),
        }
    }

    /// A guard that owns none.
    pub fn disabled() -> (guard: TelemetryGuard)
        ensures
            !guard.live(),
    {
        TelemetryGuard { inner: GuardInner::Disabled }
    }

    /// Whether the guard owns a live session.
    pub fn is_enabled(&self) -> (enabled: bool)
        ensures
            enabled == self.live(),
    {
        match &self.inner {
            GuardInner::Enabled(_) => true,
            GuardInner::Disabled => false,
        }
    }

    /// A handle for controlling the session; an inert one where there is no
    /// session.
    pub fn handle<'a>(&'a mut self) -> (handle: TelemetryHandle<'a>)
        ensures
            handle.shared is Some <==> old(self).live(),
            !old(self).live() ==> *final(self) == *old(self),
            old(self).live() ==> {
                &&& *handle.shared->0 == old(self).session().shared
                &&& final(self).live()
                &&& final(self).session() == (EnabledGuard {
                    shared: *final(handle.shared->0),
                    ..old(self).session()
                })
            },
    {
        match &mut self.inner {
            GuardInner::Enabled(session) => TelemetryHandle { shared: Some(&mut session.shared) },
            GuardInner::Disabled => TelemetryHandle { shared: None },
        }
    }

    /// Monotonic time at which the session started, in nanoseconds.
    pub fn start_time(&self) -> (start_time: Option<u64>)
        ensures
            start_time == if self.live() {
                Some(self.state().start_time_ns)
            } else {
                None
            },
    {
        match self.shared() {
            Some(shared) => Some(shared.start_time_ns),
            None => None,
        }
    }

    /// The recording core, for further runtimes to use.
    pub fn shared(&self) -> (shared: Option<&SharedState>)
        ensures
            shared is Some <==> self.live(),
            shared matches Some(s) ==> *s == self.session().shared,
    {
        match &self.inner {
            GuardInner::Enabled(session) => Some(&session.shared),
            GuardInner::Disabled => None,
        }
    }

    /// Starts recording. Does nothing without a session.
    pub fn enable(&mut self)
        requires
            old(self).wf(),
        ensures
            final(self).wf(),
            final(self).live() == old(self).live(),
            !old(self).live() ==> *final(self) == *old(self),
            old(self).live() ==> {
                &&& final(self).state() == (SharedModel { enabled: true, ..old(self).state() })
                &&& final(self).session().flush_thread == old(self).session().flush_thread
                &&& final(self).session().worker == old(self).session().worker
            },
    {
        if let GuardInner::Enabled(session) = &mut self.inner {
            session.shared.enabled = true;
        }
    }

    /// Stops recording. Does nothing without a session.
    pub fn disable(&mut self)
        requires
            old(self).wf(),
        ensures
            final(self).wf(),
            final(self).live() == old(self).live(),
            !old(self).live() ==> *final(self) == *old(self),
            old(self).live() ==> {
                &&& final(self).state() == (SharedModel { enabled: false, ..old(self).state() })
                &&& final(self).session().flush_thread == old(self).session().flush_thread
                &&& final(self).session().worker == old(self).session().worker
            },
    {
        if let GuardInner::Enabled(session) = &mut self.inner {
            session.shared.enabled = false;
        }
    }

    /// Hands the pending events of the calling `thread` to the collector and
    /// gives the steps that stop the flush thread. Does nothing without a
    /// session.
    fn stop_flush_thread(&mut self, thread: u64) -> (steps: Vec<ShutdownStep>)
        requires
            old(self).wf(),
        ensures
            final(self).wf(),
            final(self).live() == old(self).live(),
            !old(self).live() ==> steps@ == Seq::<ShutdownStep>::empty() && *final(self) == *old(
                self,
            ),
            old(self).live() ==> {
                &&& steps@ == flush_stop(old(self).session().flush_thread)
                &&& final(self).state() == old(self).state().flushed(thread)
                &&& !final(self).session().flush_thread
                &&& final(self).session().worker == old(self).session().worker
            },
    {
        let mut steps: Vec<ShutdownStep> = Vec::new();
        if let GuardInner::Enabled(session) = &mut self.inner {
            session.shared.drain_to_collector(thread);
            steps.push(ShutdownStep::FinalizeAndStop);
            if session.flush_thread {
                session.flush_thread = false;
                steps.push(ShutdownStep::JoinFlushThread);
            }
        }
        steps
    }

    /// Ends the session in good order: the flush thread seals the last segment
    /// and the worker drains within `timeout`. Gives the steps to take, and the
    /// recording core with the events that the flush thread has yet to write.
    /// Without a session there is nothing to do.
    pub fn graceful_shutdown(self, thread: u64, timeout: Duration) -> (result: Result<
        (Vec<ShutdownStep>, Option<SharedState>),
        IoError,
    >)
        requires
            self.wf(),
        ensures
            result is Ok,
            !self.live() ==> result->Ok_0.0@ == Seq::<ShutdownStep>::empty()
                && result->Ok_0.1 is None,
            self.live() ==> {
                &&& result->Ok_0.0@ == flush_stop(self.session().flush_thread) + worker_drain(
                    self.session().worker,
                    timeout,
                )
                &&& result->Ok_0.1 is Some
                &&& result->Ok_0.1->0.wf()
                &&& result->Ok_0.1->0@ == self.state().flushed(thread)
            },
    {
        let mut guard = self;
        let mut steps = guard.stop_flush_thread(thread);
        match guard.inner {
            GuardInner::Enabled(session) => {
                if let Some(worker) = session.worker {
                    if worker.shutdown {
                        steps.push(ShutdownStep::SignalWorker(timeout));
                    }
                    if worker.thread {
                        steps.push(ShutdownStep::JoinWorker);
                    }
                }
                assert(steps@ =~= flush_stop(self.session().flush_thread) + worker_drain(
                    self.session().worker,
                    timeout,
                ));
                Ok((steps, Some(session.shared)))
            },
            GuardInner::Disabled => Ok((steps, None)),
        }
    }

    /// Ends the session at once: the flush thread seals the last segment, and
    /// the worker is told to exit without draining.
    pub fn close(&mut self, thread: u64) -> (steps: Vec<ShutdownStep>)
        requires
            old(self).wf(),
        ensures
            final(self).wf(),
            final(self).live() == old(self).live(),
            !old(self).live() ==> steps@ == Seq::<ShutdownStep>::empty() && *final(self) == *old(
                self,
            ),
            old(self).live() ==> {
                &&& steps@ == flush_stop(old(self).session().flush_thread) + match old(
                    self,
                ).session().worker {
                    Some(worker) => if worker.shutdown {
                        seq![ShutdownStep::HangUpOnWorker]
                    } else {
                        Seq::empty()
                    },
                    None => Seq::empty(),
                }
                &&& final(self).state() == old(self).state().flushed(thread)
                &&& !final(self).session().flush_thread
                &&& final(self).session().worker == match old(self).session().worker {
                    Some(worker) => Some(WorkerHandle { shutdown: false, ..worker }),
                    None => None,
                }
            },
    {
        let mut steps = self.stop_flush_thread(thread);
        let ghost stopped = steps@;
        if let GuardInner::Enabled(session) = &mut self.inner {
            if let Some(worker) = session.worker {
                if worker.shutdown {
                    steps.push(ShutdownStep::HangUpOnWorker);
                }
                session.worker = Some(WorkerHandle { shutdown: false, thread: worker.thread });
            }
        }
        assert(stopped + Seq::<ShutdownStep>::empty() =~= stopped);
        assert(stopped.push(ShutdownStep::HangUpOnWorker) =~= stopped + seq![
            ShutdownStep::HangUpOnWorker,
        ]);
        steps
    }
}

/// How a runtime is added to a session.
#[derive(Debug)]
pub enum AttachStep {
    /// There is no session: build the runtime without hooks.
    Plain,
    /// Install the hooks of [`register_hooks`] and build the runtime.
    ///
    /// [`register_hooks`]: crate::recorder::hooks::register_hooks
    Attach { name: Option<String>, task_tracking: bool },
}

impl TelemetryGuard {
    /// Begins to add a runtime to the session.
    pub fn attach(&self, name: Option<String>, task_tracking: bool) -> (step: AttachStep)
        ensures
            step == if self.live() {
                AttachStep::Attach { name, task_tracking }
            } else {
                AttachStep::Plain
            },
    {
        if self.is_enabled() {
            AttachStep::Attach { name, task_tracking }
        } else {
            AttachStep::Plain
        }
    }

    /// Ends adding a runtime once it was built, with so many workers, or could
    /// not be. Gives the runtime and whether it is traced. The calling thread
    /// can then reach the session of a traced runtime.
    pub fn runtime_built<R>(
        &mut self,
        locals: &mut ThreadLocals,
        step: AttachStep,
        built: Result<(R, u64), IoError>,
    ) -> (result: Result<(R, bool), IoError>)
        requires
            old(self).wf(),
            old(self).live() && built is Ok ==> old(self).state().next_worker_id + built->Ok_0.1
                <= u64::MAX,
        ensures
            final(self).wf(),
            final(self).live() == old(self).live(),
            match built {
                Err(error) => {
                    &&& result == Err::<(R, bool), IoError>(error)
                    &&& *final(self) == *old(self)
                    &&& *final(locals) == *old(locals)
                },
                Ok((runtime, workers)) => {
                    let traced = old(self).live() && step is Attach;
                    &&& result == Ok::<(R, bool), IoError>((runtime, traced))
                    &&& !traced ==> *final(self) == *old(self) && *final(locals) == *old(locals)
                    &&& traced ==> {
                        &&& *final(locals) == (ThreadLocals { has_handle: true, ..*old(locals) })
                        &&& final(self).state() == old(self).state().attached(
                            match step->name {
                                Some(name) => Some(name@),
                                None => None,
                            },
                            workers,
                        )
                        &&& final(self).session().flush_thread == old(self).session().flush_thread
                        &&& final(self).session().worker == old(self).session().worker
                    }
                },
            },
    {
        match built {
            Err(error) => Err(error),
            Ok((runtime, workers)) => {
                if let AttachStep::Attach { name, task_tracking: _ } = step {
                    if let GuardInner::Enabled(session) = &mut self.inner {
                        locals.has_handle = true;
                        session.shared.attach_runtime(name, workers);
                        return Ok((runtime, true));
                    }
                }
                Ok((runtime, false))
            },
        }
    }

    /// Configures a runtime that is to be added to the session.
    pub fn trace_runtime<'a>(&'a self, name: String) -> (builder: TraceRuntimeCoreBuilder<'a>)
        ensures
            builder == (TraceRuntimeCoreBuilder { guard: self, name, task_tracking: false }),
    {
        TraceRuntimeCoreBuilder { guard: self, name, task_tracking: false }
    }
}

/// A runtime that is to be added to a session.
pub struct TraceRuntimeCoreBuilder<'a> {
    pub guard: &'a TelemetryGuard,
    pub name: String,
    pub task_tracking: bool,
}

impl<'a> TraceRuntimeCoreBuilder<'a> {
    /// Sets whether the spawning and ending of tasks is recorded.
    pub fn task_tracking(self, enabled: bool) -> (builder: TraceRuntimeCoreBuilder<'a>)
        ensures
            builder == (TraceRuntimeCoreBuilder { task_tracking: enabled, ..self }),
    {
        let mut builder = self;
        builder.task_tracking = enabled;
        builder
    }

    /// Begins to add the runtime; [`TelemetryGuard::runtime_built`] goes on.
    pub fn build(self) -> (step: AttachStep)
        ensures
            step == if self.guard.live() {
                AttachStep::Attach { name: Some(self.name), task_tracking: self.task_tracking }
            } else {
                AttachStep::Plain
            },
    {
        self.guard.attach(Some(self.name), self.task_tracking)
    }
}

/// Controls a session. An inert handle belongs to none: its methods do nothing.
pub struct TelemetryHandle<'a> {
    pub shared: Option<&'a mut SharedState>,
}

impl<'a> TelemetryHandle<'a> {
    /// An inert handle.
    pub fn disabled() -> (handle: TelemetryHandle<'a>)
        ensures
            handle.shared is None,
    {
        TelemetryHandle { shared: None }
    }

    /// Whether the handle belongs to a session.
    pub fn is_enabled(&self) -> (enabled: bool)
        ensures
            enabled == (self.shared is Some),
    {
        self.shared.is_some()
    }

    /// Starts recording. Does nothing on an inert handle.
    pub fn enable(&mut self)
        ensures
            old(self).shared is None ==> final(self).shared is None,
            old(self).shared is Some ==> {
                &&& final(self).shared is Some
                &&& *final(self).shared->0 == (SharedState { enabled: true, ..*old(self).shared->0 })
                &&& *final(final(self).shared->0) == *final(old(self).shared->0)
            },
    {
        if let Some(shared) = &mut self.shared {
            shared.enabled = true;
        }
    }

    /// Stops recording. Does nothing on an inert handle.
    pub fn disable(&mut self)
        ensures
            old(self).shared is None ==> final(self).shared is None,
            old(self).shared is Some ==> {
                &&& final(self).shared is Some
                &&& *final(self).shared->0 == (SharedState { enabled: false, ..*old(self).shared->0 })
                &&& *final(final(self).shared->0) == *final(old(self).shared->0)
            },
    {
        if let Some(shared) = &mut self.shared {
            shared.enabled = false;
        }
    }
}

/// A shutdown first lets the flush thread seal the last segment and then joins
/// it where it still runs; it joins it once.
pub proof fn law_the_last_segment_is_sealed_first(flush_thread: bool)
    ensures
        flush_stop(flush_thread).len() == if flush_thread {
            2int
        } else {
            1
        },
        flush_stop(flush_thread)[0] is FinalizeAndStop,
        flush_thread ==> flush_stop(flush_thread)[1] is JoinFlushThread,
{
}

/// A worker that is drained is told its timeout before it is joined, and each
/// only where it is still to be done.
pub proof fn law_the_worker_is_told_before_it_is_joined(
    worker: Option<WorkerHandle>,
    timeout: Duration,
)
    ensures
        worker is None ==> worker_drain(worker, timeout).len() == 0,
        worker matches Some(w) ==> {
            let steps = worker_drain(worker, timeout);
            &&& steps.len() == (if w.shutdown {
                1int
            } else {
                0
            }) + (if w.thread {
                1int
            } else {
                0
            })
            &&& w.shutdown ==> steps[0] == ShutdownStep::SignalWorker(timeout)
            &&& w.thread ==> steps.last() is JoinWorker
        },
{
}

} // verus!
