//! The builder of traced runtimes.

use core::marker::PhantomData;
use core::time::Duration;
use std::path::PathBuf;

use vstd::prelude::*;

use crate::error::IoError;
use crate::recorder::guard::{AttachStep, TelemetryGuard};
use crate::recorder::hooks::ThreadLocals;
use crate::recorder::pipeline::{
    assemble_processors, assembled, client_bound, entry_texts, uploader_replaced, Entry,
    PipelineBuilder, PipelineConfig, S3Config, S3PipelineUploader,
};
use crate::recorder::session::{
    CpuProfilingConfig, SchedEventConfig, SessionParts, SessionPlan, Surroundings, TaskDumpConfig,
};
use crate::recorder::shared_state::SharedModel;

verus! {

/// Marker: no trace path has been set yet.
#[derive(Debug)]
#[non_exhaustive]
pub struct NoTracePath;

/// Marker: a trace path has been set.
#[derive(Debug)]
#[non_exhaustive]
pub struct HasTracePath;

/// Marker: no pipeline strategy has been chosen yet.
#[derive(Debug)]
#[non_exhaustive]
pub struct PipelineUnset;

/// Marker: the S3 preset has been chosen.
#[derive(Debug)]
#[non_exhaustive]
pub struct PipelineS3;

/// Marker: a custom pipeline has been configured.
#[derive(Debug)]
#[non_exhaustive]
pub struct PipelineCustom;

/// Configures a traced runtime.
pub struct TracedRuntimeBuilder<P, M> {
    /// Whether telemetry is installed at all.
    pub enabled: bool,
    pub task_tracking_enabled: bool,
    pub task_dump_config: Option<TaskDumpConfig>,
    pub trace_path: Option<PathBuf>,
    pub runtime_name: Option<String>,
    pub cpu_profiling_config: Option<CpuProfilingConfig>,
    pub sched_event_config: Option<SchedEventConfig>,
    pub pipeline: PipelineConfig,
    /// Metadata that goes into the header of every segment.
    pub segment_metadata: Vec<Entry>,
    pub worker_poll_interval: Option<Duration>,
    pub worker_metrics_sink: Option<metrique_writer::BoxEntrySink>,
    pub marker: PhantomData<(P, M)>,
}

/// What a build comes to.
pub enum RuntimePlan<W> {
    /// Build the runtime without telemetry, then go on with
    /// [`TracedRuntime::build_disabled`].
    Plain,
    /// Start the session and build the runtime with its hooks, then go on with
    /// [`finish_build`], which starts recording where `start` says so.
    Session { plan: SessionPlan<W>, step: AttachStep, start: bool },
}

/// Both builders are configured alike, whatever was chosen so far.
pub open spec fn same_settings<P, M, Q, N>(
    a: TracedRuntimeBuilder<P, M>,
    b: TracedRuntimeBuilder<Q, N>,
) -> bool {
    &&& a.enabled == b.enabled
    &&& a.task_tracking_enabled == b.task_tracking_enabled
    &&& a.task_dump_config == b.task_dump_config
    &&& a.trace_path == b.trace_path
    &&& a.runtime_name == b.runtime_name
    &&& a.cpu_profiling_config == b.cpu_profiling_config
    &&& a.sched_event_config == b.sched_event_config
    &&& a.pipeline == b.pipeline
    &&& a.segment_metadata == b.segment_metadata
    &&& a.worker_poll_interval == b.worker_poll_interval
    &&& a.worker_metrics_sink == b.worker_metrics_sink
}

impl<P, M> TracedRuntimeBuilder<P, M> {
    /// What the session is configured with, apart from its pipeline and
    /// metadata.
    pub open spec fn parts<W>(&self, writer: W) -> SessionParts<W> {
        SessionParts {
            writer,
            trace_path: self.trace_path,
            task_dump_config: self.task_dump_config,
            cpu_profiling: self.cpu_profiling_config,
            sched_events: self.sched_event_config,
            worker_poll_interval: self.worker_poll_interval,
            worker_metrics_sink: self.worker_metrics_sink,
        }
    }

    /// `plan` is what building this runtime comes to.
    pub open spec fn comes_to<W>(
        &self,
        writer: W,
        at: Surroundings,
        start: bool,
        plan: RuntimePlan<W>,
    ) -> bool {
        match plan {
            RuntimePlan::Plain => !self.enabled,
            RuntimePlan::Session { plan: session, step, start: starts } => {
                &&& self.enabled
                &&& session.starts(
                    self.parts(writer),
                    assembled(self.cpu_profiling_config is Some, self.pipeline),
                    entry_texts(self.segment_metadata@),
                    at,
                )
                &&& step == (AttachStep::Attach {
                    name: self.runtime_name,
                    task_tracking: self.task_tracking_enabled,
                })
                &&& starts == start
            },
        }
    }

    /// Sets whether telemetry is installed at all. Without it the build gives a
    /// plain runtime and a guard that owns no session.
    pub fn install(self, enabled: bool) -> (builder: TracedRuntimeBuilder<P, M>)
        ensures
            builder == (TracedRuntimeBuilder { enabled, ..self }),
    {
        let mut builder = self;
        builder.enabled = enabled;
        builder
    }

    /// Sets whether the spawning and ending of tasks is recorded.
    pub fn with_task_tracking(self, enabled: bool) -> (builder: TracedRuntimeBuilder<P, M>)
        ensures
            builder == (TracedRuntimeBuilder { task_tracking_enabled: enabled, ..self }),
    {
        let mut builder = self;
        builder.task_tracking_enabled = enabled;
        builder
    }

    /// Dumps tasks that stay idle for longer than the threshold.
    pub fn with_task_dumps(self, config: TaskDumpConfig) -> (builder: TracedRuntimeBuilder<P, M>)
        ensures
            builder == (TracedRuntimeBuilder { task_dump_config: Some(config), ..self }),
    {
        let mut builder = self;
        builder.task_dump_config = Some(config);
        builder
    }

    /// Names the runtime in segment metadata.
    pub fn with_runtime_name(self, name: String) -> (builder: TracedRuntimeBuilder<P, M>)
        ensures
            builder == (TracedRuntimeBuilder { runtime_name: Some(name), ..self }),
    {
        let mut builder = self;
        builder.runtime_name = Some(name);
        builder
    }

    /// Sets the metadata of every segment. A later call replaces it, and so does
    /// a later choice of the S3 preset.
    pub fn with_segment_metadata(self, entries: Vec<Entry>) -> (builder: TracedRuntimeBuilder<P, M>)
        ensures
            builder == (TracedRuntimeBuilder { segment_metadata: entries, ..self }),
    {
        let mut builder = self;
        builder.segment_metadata = entries;
        builder
    }

    /// Profiles CPU time.
    pub fn with_cpu_profiling(self, config: CpuProfilingConfig) -> (builder: TracedRuntimeBuilder<
        P,
        M,
    >)
        ensures
            builder == (TracedRuntimeBuilder { cpu_profiling_config: Some(config), ..self }),
    {
        let mut builder = self;
        builder.cpu_profiling_config = Some(config);
        builder
    }

    /// Captures scheduler events of each worker.
    pub fn with_sched_events(self, config: SchedEventConfig) -> (builder: TracedRuntimeBuilder<
        P,
        M,
    >)
        ensures
            builder == (TracedRuntimeBuilder { sched_event_config: Some(config), ..self }),
    {
        let mut builder = self;
        builder.sched_event_config = Some(config);
        builder
    }

    /// Sets how often the background worker looks for sealed segments.
    pub fn with_worker_poll_interval(self, interval: Duration) -> (builder: TracedRuntimeBuilder<
        P,
        M,
    >)
        ensures
            builder == (TracedRuntimeBuilder { worker_poll_interval: Some(interval), ..self }),
    {
        let mut builder = self;
        builder.worker_poll_interval = Some(interval);
        builder
    }

    /// Sets where the metrics of the background worker go.
    pub fn with_worker_metrics_sink(self, sink: metrique_writer::BoxEntrySink) -> (builder:
        TracedRuntimeBuilder<P, M>)
        ensures
            builder == (TracedRuntimeBuilder { worker_metrics_sink: Some(sink), ..self }),
    {
        let mut builder = self;
        builder.worker_metrics_sink = Some(sink);
        builder
    }

    /// Begins to add the runtime to an existing session, of which it uses
    /// everything but its own name and task tracking;
    /// [`TelemetryGuard::runtime_built`] goes on. Without a session the runtime
    /// is a plain one.
    pub fn build_and_attach_to_telemetry(self, guard: &TelemetryGuard) -> (step: AttachStep)
        ensures
            step == if guard.live() {
                AttachStep::Attach {
                    name: self.runtime_name,
                    task_tracking: self.task_tracking_enabled,
                }
            } else {
                AttachStep::Plain
            },
    {
        guard.attach(self.runtime_name, self.task_tracking_enabled)
    }

    fn into_state<Q, N>(self) -> (builder: TracedRuntimeBuilder<Q, N>)
        ensures
            same_settings(builder, self),
    {
        TracedRuntimeBuilder {
            enabled: self.enabled,
            task_tracking_enabled: self.task_tracking_enabled,
            task_dump_config: self.task_dump_config,
            trace_path: self.trace_path,
            runtime_name: self.runtime_name,
            cpu_profiling_config: self.cpu_profiling_config,
            sched_event_config: self.sched_event_config,
            pipeline: self.pipeline,
            segment_metadata: self.segment_metadata,
            worker_poll_interval: self.worker_poll_interval,
            worker_metrics_sink: self.worker_metrics_sink,
            marker: PhantomData,
        }
    }
}

impl<P> TracedRuntimeBuilder<P, PipelineUnset> {
    /// Chooses the S3 preset. Its configuration also becomes the metadata of
    /// every segment.
    pub fn with_s3_uploader(self, config: S3Config) -> (builder: TracedRuntimeBuilder<
        P,
        PipelineS3,
    >)
        ensures
            entry_texts(builder.segment_metadata@) == config.metadata(),
            same_settings(
                builder,
                TracedRuntimeBuilder {
                    pipeline: PipelineConfig::S3(S3PipelineUploader { config, client: None }),
                    segment_metadata: builder.segment_metadata,
                    ..self
                },
            ),
    {
        let mut builder = self;
        builder.segment_metadata = config.as_metadata();
        builder.pipeline = PipelineConfig::S3(S3PipelineUploader::new(config, None));
        builder.into_state()
    }

    /// Configures a custom pipeline: exactly what `build` puts together. It
    /// adds neither symbols nor metadata.
    pub fn with_custom_pipeline<F: FnOnce(PipelineBuilder) -> PipelineBuilder>(
        self,
        build: F,
    ) -> (builder: TracedRuntimeBuilder<P, PipelineCustom>)
        requires
            forall|empty: PipelineBuilder|
                empty.processors@.len() == 0 ==> #[trigger] call_requires(build, (empty,)),
        ensures
            builder.pipeline is Custom,
            exists|empty: PipelineBuilder, built: PipelineBuilder|
                {
                    &&& empty.processors@.len() == 0
                    &&& #[trigger] call_ensures(build, (empty,), built)
                    &&& builder.pipeline->Custom_0@ == built.processors@
                },
            same_settings(
                builder,
                TracedRuntimeBuilder { pipeline: builder.pipeline, ..self },
            ),
    {
        let mut builder = self;
        let pipeline = build(PipelineBuilder::new());
        builder.pipeline = PipelineConfig::Custom(pipeline.into_processors());
        builder.into_state()
    }
}

impl<P> TracedRuntimeBuilder<P, PipelineS3> {
    /// Uploads through the given client, in place of one given before.
    pub fn with_s3_client(self, client: aws_sdk_s3::Client) -> (builder: TracedRuntimeBuilder<
        P,
        PipelineS3,
    >)
        ensures
            builder == (TracedRuntimeBuilder {
                pipeline: client_bound(self.pipeline, client),
                ..self
            }),
    {
        let mut builder = self;
        if let PipelineConfig::S3(uploader) = &mut builder.pipeline {
            uploader.set_client(client);
        }
        builder
    }

    /// Replaces the configuration of the S3 preset. A client given before is
    /// kept, so that it does not matter which of the two is called first.
    pub fn with_s3_uploader(self, config: S3Config) -> (builder: TracedRuntimeBuilder<
        P,
        PipelineS3,
    >)
        ensures
            entry_texts(builder.segment_metadata@) == config.metadata(),
            builder == (TracedRuntimeBuilder {
                pipeline: uploader_replaced(self.pipeline, config),
                segment_metadata: builder.segment_metadata,
                ..self
            }),
    {
        let mut builder = self;
        builder.segment_metadata = config.as_metadata();
        let carried = match &mut builder.pipeline {
            PipelineConfig::S3(uploader) => uploader.take_client(),
            _ => None,
        };
        builder.pipeline = PipelineConfig::S3(S3PipelineUploader::new(config, carried));
        builder
    }
}

impl<M> TracedRuntimeBuilder<NoTracePath, M> {
    /// Sets the path of the trace.
    pub fn with_trace_path(self, path: PathBuf) -> (builder: TracedRuntimeBuilder<HasTracePath, M>)
        ensures
            same_settings(builder, TracedRuntimeBuilder { trace_path: Some(path), ..self }),
    {
        let mut builder = self;
        builder.trace_path = Some(path);
        builder.into_state()
    }

    /// Plans the runtime with a custom writer. Without a trace path there is no
    /// background worker.
    pub fn build_with_writer<W>(self, writer: W, at: Surroundings) -> (plan: RuntimePlan<W>)
        ensures
            (TracedRuntimeBuilder { trace_path: None, ..self }).comes_to(writer, at, false, plan),
            plan is Session ==> plan->plan.worker is None,
    {
        let mut builder = self;
        builder.trace_path = None;
        builder.into_state::<HasTracePath, M>().build_inner(writer, at)
    }

    /// Plans the runtime with a custom writer, recording from the start.
    pub fn build_and_start_with_writer<W>(self, writer: W, at: Surroundings) -> (plan:
        RuntimePlan<W>)
        ensures
            (TracedRuntimeBuilder { trace_path: None, ..self }).comes_to(writer, at, true, plan),
            plan is Session ==> plan->plan.worker is None,
    {
        started(self.build_with_writer(writer, at))
    }

    /// Plans the runtime. Without a trace path there is no background worker.
    pub fn build<W>(self, writer: W, at: Surroundings) -> (plan: RuntimePlan<W>)
        ensures
            (TracedRuntimeBuilder { trace_path: None, ..self }).comes_to(writer, at, false, plan),
            plan is Session ==> plan->plan.worker is None,
    {
        self.build_with_writer(writer, at)
    }

    /// Plans the runtime, recording from the start.
    pub fn build_and_start<W>(self, writer: W, at: Surroundings) -> (plan: RuntimePlan<W>)
        ensures
            (TracedRuntimeBuilder { trace_path: None, ..self }).comes_to(writer, at, true, plan),
            plan is Session ==> plan->plan.worker is None,
    {
        self.build_and_start_with_writer(writer, at)
    }
}

/// The same plan, recording from the start.
fn started<W>(plan: RuntimePlan<W>) -> (recording: RuntimePlan<W>)
    ensures
        recording == match plan {
            RuntimePlan::Plain => RuntimePlan::Plain,
            RuntimePlan::Session { plan, step, start } => RuntimePlan::Session {
                plan,
                step,
                start: true,
            },
        },
{
    match plan {
        RuntimePlan::Plain => RuntimePlan::Plain,
        RuntimePlan::Session { plan, step, start: _ } => RuntimePlan::Session {
            plan,
            step,
            start: true,
        },
    }
}

impl<M> TracedRuntimeBuilder<HasTracePath, M> {
    /// Does nothing: the path of the trace is set already.
    pub fn with_trace_path(self, path: PathBuf) -> (builder: TracedRuntimeBuilder<HasTracePath, M>)
        ensures
            builder == self,
    {
        self
    }

    /// Plans the runtime.
    pub fn build<W>(self, writer: W, at: Surroundings) -> (plan: RuntimePlan<W>)
        ensures
            self.comes_to(writer, at, false, plan),
    {
        self.build_inner(writer, at)
    }

    /// Plans the runtime, recording from the start.
    pub fn build_and_start<W>(self, writer: W, at: Surroundings) -> (plan: RuntimePlan<W>)
        ensures
            self.comes_to(writer, at, true, plan),
    {
        started(self.build(writer, at))
    }

    /// Plans the runtime with a custom writer.
    pub fn build_with_writer<W>(self, writer: W, at: Surroundings) -> (plan: RuntimePlan<W>)
        ensures
            self.comes_to(writer, at, false, plan),
    {
        self.build_inner(writer, at)
    }

    /// Plans the runtime with a custom writer, recording from the start.
    pub fn build_and_start_with_writer<W>(self, writer: W, at: Surroundings) -> (plan:
        RuntimePlan<W>)
        ensures
            self.comes_to(writer, at, true, plan),
    {
        started(self.build_with_writer(writer, at))
    }

    fn build_inner<W>(self, writer: W, at: Surroundings) -> (plan: RuntimePlan<W>)
        ensures
            self.comes_to(writer, at, false, plan),
    {
        if !self.enabled {
            return RuntimePlan::Plain;
        }
        let processors = assemble_processors(self.cpu_profiling_config.is_some(), self.pipeline);
        let plan = SessionPlan::new(
            SessionParts {
                writer,
                trace_path: self.trace_path,
                task_dump_config: self.task_dump_config,
                cpu_profiling: self.cpu_profiling_config,
                sched_events: self.sched_event_config,
                worker_poll_interval: self.worker_poll_interval,
                worker_metrics_sink: self.worker_metrics_sink,
            },
            processors,
            self.segment_metadata,
            at,
        );
        RuntimePlan::Session {
            plan,
            step: AttachStep::Attach {
                name: self.runtime_name,
                task_tracking: self.task_tracking_enabled,
            },
            start: false,
        }
    }
}

/// Ends a build once the session was started and the runtime was built, with so
/// many workers, or could not be. After a failure the guard is given back, to
/// be closed.
pub fn finish_build<R>(
    guard: TelemetryGuard,
    locals: &mut ThreadLocals,
    step: AttachStep,
    start: bool,
    built: Result<(R, u64), IoError>,
) -> (result: Result<(R, TelemetryGuard), (IoError, TelemetryGuard)>)
    requires
        guard.live(),
        guard.wf(),
        step is Attach,
        built is Ok ==> guard.state().next_worker_id + built->Ok_0.1 <= u64::MAX,
    ensures
        match built {
            Err(error) => {
                &&& result == Err::<(R, TelemetryGuard), (IoError, TelemetryGuard)>((error, guard))
                &&& *final(locals) == *old(locals)
            },
            Ok((runtime, workers)) => {
                let attached = guard.state().attached(
                    match step->name {
                        Some(name) => Some(name@),
                        None => None,
                    },
                    workers,
                );
                &&& *final(locals) == (ThreadLocals { has_handle: true, ..*old(locals) })
                &&& result is Ok
                &&& result->Ok_0.0 == runtime
                &&& result->Ok_0.1.live()
                &&& result->Ok_0.1.wf()
                &&& result->Ok_0.1.state() == (SharedModel {
                    enabled: start || attached.enabled,
                    ..attached
                })
                &&& result->Ok_0.1.session().flush_thread == guard.session().flush_thread
                &&& result->Ok_0.1.session().worker == guard.session().worker
            },
        },
{
    let mut guard = guard;
    match guard.runtime_built(locals, step, built) {
        Ok((runtime, _)) => {
            if start {
                guard.enable();
            }
            Ok((runtime, guard))
        },
        Err(error) => Err((error, guard)),
    }
}

/// A runtime and the guard of its telemetry session.
pub struct TracedRuntime<R> {
    pub runtime: R,
    pub guard: TelemetryGuard,
}

impl TracedRuntime<()> {
    /// A builder with nothing chosen. Telemetry is installed.
    pub fn builder() -> (builder: TracedRuntimeBuilder<NoTracePath, PipelineUnset>)
        ensures
            builder.enabled,
            !builder.task_tracking_enabled,
            builder.task_dump_config is None,
            builder.trace_path is None,
            builder.runtime_name is None,
            builder.cpu_profiling_config is None,
            builder.sched_event_config is None,
            builder.pipeline is Unset,
            builder.segment_metadata@.len() == 0,
            builder.worker_poll_interval is None,
            builder.worker_metrics_sink is None,
    {
        TracedRuntimeBuilder {
            enabled: true,
            task_tracking_enabled: false,
            task_dump_config: None,
            trace_path: None,
            runtime_name: None,
            cpu_profiling_config: None,
            sched_event_config: None,
            pipeline: PipelineConfig::Unset,
            segment_metadata: Vec::new(),
            worker_poll_interval: None,
            worker_metrics_sink: None,
            marker: PhantomData,
        }
    }

    /// Plans a runtime with nothing chosen.
    pub fn build<W>(writer: W, at: Surroundings) -> (plan: RuntimePlan<W>)
        ensures
            default_plan(writer, at, false, plan),
    {
        Self::builder().build_with_writer(writer, at)
    }

    /// Plans a runtime with nothing chosen, recording from the start.
    pub fn build_and_start<W>(writer: W, at: Surroundings) -> (plan: RuntimePlan<W>)
        ensures
            default_plan(writer, at, true, plan),
    {
        Self::builder().build_and_start_with_writer(writer, at)
    }
}

/// `plan` starts a session with nothing configured but its writer: it runs no
/// worker and sets no metadata.
pub open spec fn default_plan<W>(
    writer: W,
    at: Surroundings,
    start: bool,
    plan: RuntimePlan<W>,
) -> bool {
    &&& plan is Session
    &&& plan->plan.starts(
        SessionParts {
            writer,
            trace_path: None,
            task_dump_config: None,
            cpu_profiling: None,
            sched_events: None,
            worker_poll_interval: None,
            worker_metrics_sink: None,
        },
        Seq::empty(),
        Seq::empty(),
        at,
    )
    &&& plan->step == (AttachStep::Attach { name: None, task_tracking: false })
    &&& plan->start == start
}

impl<R> TracedRuntime<R> {
    /// Ends the build of a plain runtime: its guard owns no session.
    pub fn build_disabled(built: Result<R, IoError>) -> (result: Result<
        (R, TelemetryGuard),
        IoError,
    >)
        ensures
            match built {
                Ok(runtime) => {
                    &&& result is Ok
                    &&& result->Ok_0.0 == runtime
                    &&& !result->Ok_0.1.live()
                },
                Err(error) => result == Err::<(R, TelemetryGuard), IoError>(error),
            },
    {
        match built {
            Ok(runtime) => Ok((runtime, TelemetryGuard::disabled())),
            Err(error) => Err(error),
        }
    }

    /// Ends the build of a runtime from a configuration. `enabled` says whether
    /// the configuration asked for telemetry, and so which part failed.
    pub fn from_config(
        enabled: bool,
        built: Result<(R, TelemetryGuard), IoError>,
    ) -> (result: Result<TracedRuntime<R>, TelemetryRuntimeError>)
        ensures
            result == match built {
                Ok((runtime, guard)) => Ok::<TracedRuntime<R>, TelemetryRuntimeError>(
                    TracedRuntime { runtime, guard },
                ),
                Err(error) => Err::<TracedRuntime<R>, TelemetryRuntimeError>(
                    if enabled {
                        TelemetryRuntimeError::TelemetryCore(error)
                    } else {
                        TelemetryRuntimeError::TokioRuntimeBuilder(error)
                    },
                ),
            },
    {
        match built {
            Ok((runtime, guard)) => Ok(TracedRuntime { runtime, guard }),
            Err(error) => if enabled {
                Err(TelemetryRuntimeError::TelemetryCore(error))
            } else {
                Err(TelemetryRuntimeError::TokioRuntimeBuilder(error))
            },
        }
    }

    /// Pairs a runtime with its guard. Without one the guard owns no session.
    pub fn from_parts(runtime: R, guard: Option<TelemetryGuard>) -> (traced: TracedRuntime<R>)
        ensures
            traced.runtime == runtime,
            match guard {
                Some(guard) => traced.guard == guard,
                None => !traced.guard.live(),
            },
    {
        let guard = match guard {
            Some(guard) => guard,
            None => TelemetryGuard::disabled(),
        };
        TracedRuntime { runtime, guard }
    }

    /// The runtime.
    pub fn runtime(&self) -> (runtime: &R)
        ensures
            *runtime == self.runtime,
    {
        &self.runtime
    }

    /// The guard of the session. It is always there, though it may own none.
    pub fn guard(&self) -> (guard: &TelemetryGuard)
        ensures
            *guard == self.guard,
    {
        &self.guard
    }
}

/// A configuration that was checked.
pub enum Inner<W, M> {
    /// Telemetry is asked for.
    Enabled { writer: W, runtime_builder: TracedRuntimeBuilder<HasTracePath, M> },
    /// It is not.
    Disabled,
}

/// Plans the runtime of a configuration, recording from the start;
/// [`TracedRuntime::from_config`] ends the build.
pub fn try_assemble_dial9_config<W, M>(inner: Inner<W, M>, at: Surroundings) -> (plan:
    RuntimePlan<W>)
    ensures
        match inner {
            Inner::Enabled { writer, runtime_builder } => runtime_builder.comes_to(
                writer,
                at,
                true,
                plan,
            ),
            Inner::Disabled => plan is Plain,
        },
{
    match inner {
        Inner::Enabled { writer, runtime_builder } => runtime_builder.build_and_start(writer, at),
        Inner::Disabled => RuntimePlan::Plain,
    }
}

/// Why a runtime could not be built from a configuration.
#[derive(Debug)]
#[non_exhaustive]
pub enum TelemetryRuntimeError {
    /// The runtime itself could not be built.
    TokioRuntimeBuilder(IoError),
    /// The telemetry session could not be set up.
    TelemetryCore(IoError),
}

impl TelemetryRuntimeError {
    /// The text that describes the error: which part failed, and why.
    pub fn message(&self) -> (message: String)
        ensures
            message@ == match self {
                TelemetryRuntimeError::TokioRuntimeBuilder(cause) => "tokio runtime builder: "@
                    + cause.described(),
                TelemetryRuntimeError::TelemetryCore(cause) => "telemetry core: "@
                    + cause.described(),
            },
    {
        let (part, cause) = match self {
            TelemetryRuntimeError::TokioRuntimeBuilder(cause) => ("tokio runtime builder: ", cause),
            TelemetryRuntimeError::TelemetryCore(cause) => ("telemetry core: ", cause),
        };
        let mut message = part.to_owned();
        message.append(cause.message());
        message
    }

    /// The error behind this one.
    pub fn source(&self) -> (source: Option<&IoError>)
        ensures
            source == Some(
                match self {
                    TelemetryRuntimeError::TokioRuntimeBuilder(cause) => cause,
                    TelemetryRuntimeError::TelemetryCore(cause) => cause,
                },
            ),
    {
        match self {
            TelemetryRuntimeError::TokioRuntimeBuilder(cause) => Some(cause),
            TelemetryRuntimeError::TelemetryCore(cause) => Some(cause),
        }
    }
}

/// A build comes to a session exactly where telemetry is installed. The session
/// and its runtime are configured with what the builder was, and record from
/// the start exactly where that was asked for.
pub proof fn law_builds_keep_what_was_configured<P, M, W>(
    builder: TracedRuntimeBuilder<P, M>,
    writer: W,
    at: Surroundings,
    start: bool,
    plan: RuntimePlan<W>,
)
    requires
        builder.comes_to(writer, at, start, plan),
    ensures
        plan is Session <==> builder.enabled,
        plan matches RuntimePlan::Session { plan: session, step, start: starts } ==> {
            &&& starts == start
            &&& step matches AttachStep::Attach { name, task_tracking } && name
                == builder.runtime_name && task_tracking == builder.task_tracking_enabled
            &&& session.writer == writer
            &&& session.cpu_profiling == builder.cpu_profiling_config
            &&& session.sched_events == builder.sched_event_config
            &&& session.shared@.task_dumps_enabled == (builder.task_dump_config is Some)
            &&& session.shared@.start_time_ns == at.now_ns
            &&& !session.shared@.enabled
            &&& session.worker is Some ==> session.worker->0.trace_path == builder.trace_path
                && builder.trace_path is Some
            &&& builder.pipeline matches PipelineConfig::Custom(user) ==> (session.worker is Some
                <==> builder.trace_path is Some && user@.len() > 0)
            &&& session.metadata_update is Some <==> builder.segment_metadata@.len() > 0
            &&& session.metadata_update matches Some(entries) ==> entry_texts(entries@)
                == entry_texts(builder.segment_metadata@)
        },
{
}

/// A default build records nothing until it is told, unless it starts at once,
/// runs no worker, profiles nothing and sets no metadata.
pub proof fn law_default_builds_only_record<W>(
    writer: W,
    at: Surroundings,
    start: bool,
    plan: RuntimePlan<W>,
)
    requires
        default_plan(writer, at, start, plan),
    ensures
        plan matches RuntimePlan::Session { plan: session, step, start: starts } && starts == start
            && session.worker is None && session.metadata_update is None
            && session.cpu_profiling is None && session.sched_events is None && session.writer
            == writer && !session.shared@.task_dumps_enabled && step == (AttachStep::Attach {
            name: None,
            task_tracking: false,
        }),
{
}

} // verus!
