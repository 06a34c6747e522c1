//! The start of a telemetry session, apart from any runtime.

use core::time::Duration;
use std::path::PathBuf;

use vstd::prelude::*;

use crate::error::IoError;
use crate::recorder::buffer::{CollectorModel, COLLECTOR_BATCHES};
use crate::recorder::guard::{EnabledGuard, TelemetryGuard, WorkerHandle};
use crate::recorder::pipeline::{
    assemble_processors, assembled, entry_texts, Entry, PipelineConfig, Processor, S3Config,
    S3PipelineUploader,
};
use crate::recorder::shared_state::{SharedModel, SharedState};
use crate::recorder::source::Source;

verus! {

/// The path of the standard library, which a session only passes on.
#[verifier::external_type_specification]
#[verifier::external_body]
pub struct ExPathBuf(std::path::PathBuf);

/// The metrics sink of the `metrique-writer` crate, which a session only
/// passes on.
#[verifier::external_type_specification]
#[verifier::external_body]
pub struct ExBoxEntrySink(metrique_writer::BoxEntrySink);

/// `metrique_writer::sink::DevNullSink::boxed`: a sink that discards every
/// entry. Nothing is claimed of the value.
#[verifier::external_body]
fn dev_null_sink() -> metrique_writer::BoxEntrySink {
    metrique_writer::sink::DevNullSink::boxed()
}

/// `Clone::clone` of `metrique_writer::BoxEntrySink`, which is a shared
/// pointer: the copy is the same sink.
#[verifier::external_body]
fn share_sink(sink: &metrique_writer::BoxEntrySink) -> (shared: metrique_writer::BoxEntrySink)
    ensures
        shared == *sink,
{
    sink.clone()
}

/// Where metrics go.
pub enum MetricsSink {
    /// To the sink that was configured.
    Configured(metrique_writer::BoxEntrySink),
    /// To a sink that discards them.
    Discarding(metrique_writer::BoxEntrySink),
}

/// The sink is the configured one, or discards where none was.
pub open spec fn sink_of(
    configured: Option<metrique_writer::BoxEntrySink>,
    sink: MetricsSink,
) -> bool {
    match configured {
        Some(given) => sink == MetricsSink::Configured(given),
        None => sink is Discarding,
    }
}

/// When idle tasks are dumped.
#[derive(Copy, Clone, Debug, PartialEq, Eq, Structural)]
pub struct TaskDumpConfig {
    /// How long a task stays idle before it is dumped, in nanoseconds.
    pub idle_threshold_ns: u128,
    /// Seed that makes the sampling of dumps deterministic.
    pub rng_seed: Option<u64>,
}

/// How CPU time is profiled.
#[derive(Copy, Clone, Debug, PartialEq, Eq, Structural)]
pub struct CpuProfilingConfig {
    pub frequency_hz: u64,
}

/// How scheduler events are captured.
#[derive(Copy, Clone, Debug, PartialEq, Eq, Structural)]
pub struct SchedEventConfig {
    pub include_kernel: bool,
}

/// What a session finds when it starts.
#[derive(Copy, Clone)]
pub struct Surroundings {
    /// The monotonic time in nanoseconds.
    pub now_ns: u64,
    /// How often the worker looks for sealed segments unless it is told.
    pub default_poll_interval: Duration,
}

/// What the background worker does.
pub struct BackgroundTaskConfig {
    pub trace_path: Option<PathBuf>,
    pub poll_interval: Duration,
    pub processors: Vec<Processor>,
    pub metrics_sink: MetricsSink,
}

/// A session that is about to start.
pub struct SessionPlan<W> {
    pub shared: SharedState,
    pub writer: W,
    /// The metadata to give to the writer.
    pub metadata_update: Option<Vec<Entry>>,
    /// The CPU profiler to start.
    pub cpu_profiling: Option<CpuProfilingConfig>,
    /// The scheduler event profiler to start.
    pub sched_events: Option<SchedEventConfig>,
    pub flush_metrics_sink: MetricsSink,
    /// The worker to start.
    pub worker: Option<BackgroundTaskConfig>,
}

/// What the flush thread works with.
pub struct FlushTask<W> {
    pub writer: W,
    pub metrics_sink: MetricsSink,
}

/// What a session is configured with, apart from its pipeline and metadata.
pub struct SessionParts<W> {
    pub writer: W,
    pub trace_path: Option<PathBuf>,
    pub task_dump_config: Option<TaskDumpConfig>,
    pub cpu_profiling: Option<CpuProfilingConfig>,
    pub sched_events: Option<SchedEventConfig>,
    pub worker_poll_interval: Option<Duration>,
    pub worker_metrics_sink: Option<metrique_writer::BoxEntrySink>,
}

/// The recording core at the start of a session.
pub open spec fn fresh_core(now_ns: u64, task_dump_config: Option<TaskDumpConfig>) -> SharedModel {
    SharedModel {
        enabled: false,
        task_dumps_enabled: task_dump_config is Some,
        task_dump_idle_threshold_ns: match task_dump_config {
            Some(config) => (config.idle_threshold_ns as int % 0x1_0000_0000_0000_0000) as u64,
            None => 0,
        },
        task_dump_rng_seed: match task_dump_config {
            Some(config) => config.rng_seed,
            None => None,
        },
        collector: CollectorModel::empty(COLLECTOR_BATCHES),
        start_time_ns: now_ns,
        next_worker_id: 0,
        drain_epoch: 0,
        buffers: Seq::empty(),
        contexts: Seq::empty(),
        thread_roles: Map::empty(),
        sources: Seq::empty(),
    }
}

impl<W> SessionPlan<W> {
    /// The plan starts a session with these parts, processors and metadata.
    pub open spec fn starts(
        &self,
        parts: SessionParts<W>,
        processors: Seq<Processor>,
        metadata: Seq<(Seq<char>, Seq<char>)>,
        at: Surroundings,
    ) -> bool {
        &&& self.shared.wf()
        &&& self.shared@ == fresh_core(at.now_ns, parts.task_dump_config)
        &&& self.writer == parts.writer
        &&& match self.metadata_update {
            Some(entries) => metadata.len() > 0 && entry_texts(entries@) == metadata,
            None => metadata.len() == 0,
        }
        &&& self.cpu_profiling == parts.cpu_profiling
        &&& self.sched_events == parts.sched_events
        &&& sink_of(parts.worker_metrics_sink, self.flush_metrics_sink)
        &&& match self.worker {
            None => processors.len() == 0 || parts.trace_path is None,
            Some(worker) => {
                &&& processors.len() > 0
                &&& parts.trace_path is Some
                &&& worker.processors@ == processors
                &&& worker.trace_path == parts.trace_path
                &&& worker.poll_interval == match parts.worker_poll_interval {
                    Some(interval) => interval,
                    None => at.default_poll_interval,
                }
                &&& sink_of(parts.worker_metrics_sink, worker.metrics_sink)
            },
        }
    }

    /// Plans a session. It has a background worker where there is a trace path
    /// and at least one processor, whatever the writer.
    pub fn new(
        parts: SessionParts<W>,
        processors: Vec<Processor>,
        segment_metadata: Vec<Entry>,
        at: Surroundings,
    ) -> (plan: SessionPlan<W>)
        ensures
            plan.starts(parts, processors@, entry_texts(segment_metadata@), at),
    {
        let rng_seed = match &parts.task_dump_config {
            Some(config) => config.rng_seed,
            None => None,
        };
        let mut shared = SharedState::new(at.now_ns, rng_seed);
        if let Some(config) = &parts.task_dump_config {
            let wide: u128 = config.idle_threshold_ns;
            assert(wide as u64 == wide % 0x1_0000_0000_0000_0000u128) by (bit_vector);
            shared.task_dumps_enabled = true;
            shared.task_dump_idle_threshold_ns = #[verifier::truncate] (wide as u64);
        }
        assert(shared@ =~~= fresh_core(at.now_ns, parts.task_dump_config));
        let flush_metrics_sink = match &parts.worker_metrics_sink {
            Some(sink) => MetricsSink::Configured(share_sink(sink)),
            None => MetricsSink::Discarding(dev_null_sink()),
        };
        let metadata_update = if segment_metadata.len() == 0 {
            None
        } else {
            Some(segment_metadata)
        };
        let worker = if processors.len() == 0 || parts.trace_path.is_none() {
            None
        } else {
            Some(
                BackgroundTaskConfig {
                    trace_path: parts.trace_path,
                    poll_interval: match parts.worker_poll_interval {
                        Some(interval) => interval,
                        None => at.default_poll_interval,
                    },
                    processors,
                    metrics_sink: match parts.worker_metrics_sink {
                        Some(sink) => MetricsSink::Configured(sink),
                        None => MetricsSink::Discarding(dev_null_sink()),
                    },
                },
            )
        };
        SessionPlan {
            shared,
            writer: parts.writer,
            metadata_update,
            cpu_profiling: parts.cpu_profiling,
            sched_events: parts.sched_events,
            flush_metrics_sink,
            worker,
        }
    }

    /// Takes in a profiler that was started. One that failed to start is left
    /// out; the session goes on without it.
    pub fn profiler_started(&mut self, started: Result<Source, IoError>)
        requires
            old(self).shared.wf(),
        ensures
            final(self).shared.wf(),
            final(self).shared@ == match started {
                Ok(source) => SharedModel {
                    sources: old(self).shared@.sources.push(source@),
                    ..old(self).shared@
                },
                Err(error) => old(self).shared@,
            },
            *final(self) == (SessionPlan { shared: final(self).shared, ..*old(self) }),
    {
        match started {
            Ok(source) => self.shared.push_source(source),
            Err(_) => {},
        }
    }

    /// Ends the start once the flush thread and the worker run: gives the
    /// guard, and what the two threads work with.
    pub fn launch(self) -> (launched: (TelemetryGuard, FlushTask<W>, Option<BackgroundTaskConfig>))
        ensures
            launched.0.live(),
            launched.0.session() == (EnabledGuard {
                shared: self.shared,
                flush_thread: true,
                worker: if self.worker is Some {
                    Some(WorkerHandle { shutdown: true, thread: true })
                } else {
                    None
                },
            }),
            launched.1 == (FlushTask {
                writer: self.writer,
                metrics_sink: self.flush_metrics_sink,
            }),
            launched.2 == self.worker,
    {
        let worker = if self.worker.is_some() {
            Some(WorkerHandle { shutdown: true, thread: true })
        } else {
            None
        };
        (
            TelemetryGuard::enabled(self.shared, true, worker),
            FlushTask { writer: self.writer, metrics_sink: self.flush_metrics_sink },
            self.worker,
        )
    }
}

/// Starts telemetry sessions that belong to no runtime yet.
#[derive(Debug)]
pub struct TelemetryCore;

/// The configuration of a session.
pub struct TelemetryCoreBuilder<W> {
    pub processors: Vec<Processor>,
    pub segment_metadata: Vec<Entry>,
    pub s3_config: Option<S3Config>,
    pub s3_client: Option<aws_sdk_s3::Client>,
    pub writer: W,
    pub trace_path: Option<PathBuf>,
    pub task_dump_config: Option<TaskDumpConfig>,
    pub cpu_profiling: Option<CpuProfilingConfig>,
    pub sched_events: Option<SchedEventConfig>,
    pub worker_poll_interval: Option<Duration>,
    pub worker_metrics_sink: Option<metrique_writer::BoxEntrySink>,
}

impl<W> TelemetryCoreBuilder<W> {
    /// The pipeline of the session: the given processors, or else the S3
    /// preset, or else what CPU profiling calls for.
    pub open spec fn session_processors(&self) -> Seq<Processor> {
        if self.processors@.len() > 0 {
            self.processors@
        } else {
            assembled(
                self.cpu_profiling is Some,
                match self.s3_config {
                    Some(config) => PipelineConfig::S3(
                        S3PipelineUploader { config, client: self.s3_client },
                    ),
                    None => PipelineConfig::Unset,
                },
            )
        }
    }

    /// The metadata of the session. The S3 preset fills it where it is empty.
    pub open spec fn session_metadata(&self) -> Seq<(Seq<char>, Seq<char>)> {
        if self.processors@.len() == 0 && self.s3_config is Some
            && self.segment_metadata@.len() == 0 {
            self.s3_config->0.metadata()
        } else {
            entry_texts(self.segment_metadata@)
        }
    }

    /// What the session is configured with, apart from its pipeline and
    /// metadata.
    pub open spec fn parts(&self) -> SessionParts<W> {
        SessionParts {
            writer: self.writer,
            trace_path: self.trace_path,
            task_dump_config: self.task_dump_config,
            cpu_profiling: self.cpu_profiling,
            sched_events: self.sched_events,
            worker_poll_interval: self.worker_poll_interval,
            worker_metrics_sink: self.worker_metrics_sink,
        }
    }

    /// Sets the path of the trace, which a background worker needs.
    pub fn trace_path(self, path: PathBuf) -> (builder: TelemetryCoreBuilder<W>)
        ensures
            builder == (TelemetryCoreBuilder { trace_path: Some(path), ..self }),
    {
        let mut builder = self;
        builder.trace_path = Some(path);
        builder
    }

    /// Dumps tasks that stay idle.
    pub fn task_dump_config(self, config: TaskDumpConfig) -> (builder: TelemetryCoreBuilder<W>)
        ensures
            builder == (TelemetryCoreBuilder { task_dump_config: Some(config), ..self }),
    {
        let mut builder = self;
        builder.task_dump_config = Some(config);
        builder
    }

    /// Profiles CPU time.
    pub fn cpu_profiling(self, config: CpuProfilingConfig) -> (builder: TelemetryCoreBuilder<W>)
        ensures
            builder == (TelemetryCoreBuilder { cpu_profiling: Some(config), ..self }),
    {
        let mut builder = self;
        builder.cpu_profiling = Some(config);
        builder
    }

    /// Captures scheduler events.
    pub fn sched_events(self, config: SchedEventConfig) -> (builder: TelemetryCoreBuilder<W>)
        ensures
            builder == (TelemetryCoreBuilder { sched_events: Some(config), ..self }),
    {
        let mut builder = self;
        builder.sched_events = Some(config);
        builder
    }

    /// Sets how often the worker looks for sealed segments.
    pub fn worker_poll_interval(self, interval: Duration) -> (builder: TelemetryCoreBuilder<W>)
        ensures
            builder == (TelemetryCoreBuilder { worker_poll_interval: Some(interval), ..self }),
    {
        let mut builder = self;
        builder.worker_poll_interval = Some(interval);
        builder
    }

    /// Sets where the metrics of the flush thread and the worker go.
    pub fn worker_metrics_sink(self, sink: metrique_writer::BoxEntrySink) -> (builder:
        TelemetryCoreBuilder<W>)
        ensures
            builder == (TelemetryCoreBuilder { worker_metrics_sink: Some(sink), ..self }),
    {
        let mut builder = self;
        builder.worker_metrics_sink = Some(sink);
        builder
    }

    /// Uploads sealed segments to S3.
    pub fn s3_config(self, config: S3Config) -> (builder: TelemetryCoreBuilder<W>)
        ensures
            builder == (TelemetryCoreBuilder { s3_config: Some(config), ..self }),
    {
        let mut builder = self;
        builder.s3_config = Some(config);
        builder
    }

    /// Uploads through the given client.
    pub fn s3_client(self, client: aws_sdk_s3::Client) -> (builder: TelemetryCoreBuilder<W>)
        ensures
            builder == (TelemetryCoreBuilder { s3_client: Some(client), ..self }),
    {
        let mut builder = self;
        builder.s3_client = Some(client);
        builder
    }

    /// Sets the pipeline of sealed segments.
    pub fn processors(self, processors: Vec<Processor>) -> (builder: TelemetryCoreBuilder<W>)
        ensures
            builder == (TelemetryCoreBuilder { processors, ..self }),
    {
        let mut builder = self;
        builder.processors = processors;
        builder
    }

    /// Sets the metadata of every segment.
    pub fn segment_metadata(self, entries: Vec<Entry>) -> (builder: TelemetryCoreBuilder<W>)
        ensures
            builder == (TelemetryCoreBuilder { segment_metadata: entries, ..self }),
    {
        let mut builder = self;
        builder.segment_metadata = entries;
        builder
    }

    /// Plans the session.
    pub fn build(self, at: Surroundings) -> (plan: SessionPlan<W>)
        ensures
            plan.starts(self.parts(), self.session_processors(), self.session_metadata(), at),
    {
        TelemetryCore::new(self, at)
    }
}

impl TelemetryCoreBuilder<()> {
    /// Sets the writer of the trace.
    pub fn writer<W>(self, writer: W) -> (builder: TelemetryCoreBuilder<W>)
        ensures
            builder == (TelemetryCoreBuilder {
                processors: self.processors,
                segment_metadata: self.segment_metadata,
                s3_config: self.s3_config,
                s3_client: self.s3_client,
                writer,
                trace_path: self.trace_path,
                task_dump_config: self.task_dump_config,
                cpu_profiling: self.cpu_profiling,
                sched_events: self.sched_events,
                worker_poll_interval: self.worker_poll_interval,
                worker_metrics_sink: self.worker_metrics_sink,
            }),
    {
        TelemetryCoreBuilder {
            processors: self.processors,
            segment_metadata: self.segment_metadata,
            s3_config: self.s3_config,
            s3_client: self.s3_client,
            writer,
            trace_path: self.trace_path,
            task_dump_config: self.task_dump_config,
            cpu_profiling: self.cpu_profiling,
            sched_events: self.sched_events,
            worker_poll_interval: self.worker_poll_interval,
            worker_metrics_sink: self.worker_metrics_sink,
        }
    }
}

impl TelemetryCore {
    /// A session with nothing configured but its writer, which
    /// [`TelemetryCoreBuilder::writer`] sets.
    pub fn builder() -> (builder: TelemetryCoreBuilder<()>)
        ensures
            builder.processors@.len() == 0,
            builder.segment_metadata@.len() == 0,
            builder.s3_config is None,
            builder.s3_client is None,
            builder.trace_path is None,
            builder.task_dump_config is None,
            builder.cpu_profiling is None,
            builder.sched_events is None,
            builder.worker_poll_interval is None,
            builder.worker_metrics_sink is None,
    {
        TelemetryCoreBuilder {
            processors: Vec::new(),
            segment_metadata: Vec::new(),
            s3_config: None,
            s3_client: None,
            writer: (),
            trace_path: None,
            task_dump_config: None,
            cpu_profiling: None,
            sched_events: None,
            worker_poll_interval: None,
            worker_metrics_sink: None,
        }
    }

    /// Plans a session. Recording starts disabled.
    pub fn new<W>(config: TelemetryCoreBuilder<W>, at: Surroundings) -> (plan: SessionPlan<W>)
        ensures
            plan.starts(
                config.parts(),
                config.session_processors(),
                config.session_metadata(),
                at,
            ),
    {
        let mut segment_metadata = config.segment_metadata;
        let pipeline = if config.processors.len() > 0 {
            PipelineConfig::Custom(config.processors)
        } else if let Some(s3_config) = config.s3_config {
            if segment_metadata.len() == 0 {
                segment_metadata = s3_config.as_metadata();
            }
            PipelineConfig::S3(S3PipelineUploader::new(s3_config, config.s3_client))
        } else {
            PipelineConfig::Unset
        };
        let processors = assemble_processors(config.cpu_profiling.is_some(), pipeline);
        SessionPlan::new(
            SessionParts {
                writer: config.writer,
                trace_path: config.trace_path,
                task_dump_config: config.task_dump_config,
                cpu_profiling: config.cpu_profiling,
                sched_events: config.sched_events,
                worker_poll_interval: config.worker_poll_interval,
                worker_metrics_sink: config.worker_metrics_sink,
            },
            processors,
            segment_metadata,
            at,
        )
    }
}

/// A session has a background worker exactly where there is a trace path and at
/// least one processor. The worker gets that path and all processors, and looks
/// as often as it was told, or else as often as is usual.
pub proof fn law_worker_needs_a_path_and_processors<W>(
    plan: SessionPlan<W>,
    parts: SessionParts<W>,
    processors: Seq<Processor>,
    metadata: Seq<(Seq<char>, Seq<char>)>,
    at: Surroundings,
)
    requires
        plan.starts(parts, processors, metadata, at),
    ensures
        plan.worker is Some <==> parts.trace_path is Some && processors.len() > 0,
        plan.worker matches Some(worker) ==> {
            &&& worker.trace_path == parts.trace_path
            &&& worker.processors@ == processors
            &&& parts.worker_poll_interval is Some ==> worker.poll_interval
                == parts.worker_poll_interval->0
            &&& parts.worker_poll_interval is None ==> worker.poll_interval
                == at.default_poll_interval
            &&& parts.worker_metrics_sink matches Some(sink) ==> worker.metrics_sink
                == MetricsSink::Configured(sink)
            &&& parts.worker_metrics_sink is None ==> worker.metrics_sink is Discarding
        },
        plan.metadata_update is Some <==> metadata.len() > 0,
        plan.metadata_update matches Some(entries) ==> entry_texts(entries@) == metadata,
        plan.writer == parts.writer,
        plan.cpu_profiling == parts.cpu_profiling,
        plan.sched_events == parts.sched_events,
        parts.worker_metrics_sink matches Some(sink) ==> plan.flush_metrics_sink
            == MetricsSink::Configured(sink),
        parts.worker_metrics_sink is None ==> plan.flush_metrics_sink is Discarding,
{
}

/// A session starts with recording disabled, with no runtime, thread, source or
/// event, at the time that the clock showed. Tasks are dumped exactly where
/// that was configured, after the configured time where it fits 64 bits.
pub proof fn law_sessions_start_empty(now_ns: u64, config: TaskDumpConfig)
    ensures
        !fresh_core(now_ns, None).enabled,
        !fresh_core(now_ns, None).task_dumps_enabled,
        fresh_core(now_ns, None).task_dump_rng_seed is None,
        fresh_core(now_ns, Some(config)).task_dumps_enabled,
        fresh_core(now_ns, Some(config)).task_dump_rng_seed == config.rng_seed,
        config.idle_threshold_ns <= u64::MAX ==> fresh_core(
            now_ns,
            Some(config),
        ).task_dump_idle_threshold_ns == config.idle_threshold_ns,
        forall|dumps: Option<TaskDumpConfig>|
            {
                let core = #[trigger] fresh_core(now_ns, dumps);
                &&& !core.enabled
                &&& core.start_time_ns == now_ns
                &&& core.collector.batches.len() == 0
                &&& core.collector.dropped == 0
                &&& core.buffers.len() == 0
                &&& core.contexts.len() == 0
                &&& core.sources.len() == 0
                &&& core.thread_roles.dom() == Set::<u32>::empty()
                &&& core.next_worker_id == 0
                &&& core.drain_epoch == 0
            },
{
}

/// Given processors are used as they are. Without any, the S3 preset is used
/// where it is configured, with the given client, and else what CPU profiling
/// calls for.
pub proof fn law_given_processors_come_first<W>(builder: TelemetryCoreBuilder<W>)
    ensures
        builder.processors@.len() > 0 ==> builder.session_processors() == builder.processors@,
        builder.processors@.len() == 0 && builder.s3_config is Some && builder.cpu_profiling is None
            ==> builder.session_processors() == seq![
            Processor::Gzip,
            Processor::S3(
                S3PipelineUploader { config: builder.s3_config->0, client: builder.s3_client },
            ),
        ],
        builder.processors@.len() == 0 && builder.s3_config is Some && builder.cpu_profiling is Some
            ==> builder.session_processors() == seq![
            Processor::Symbolize,
            Processor::Gzip,
            Processor::S3(
                S3PipelineUploader { config: builder.s3_config->0, client: builder.s3_client },
            ),
        ],
        builder.processors@.len() == 0 && builder.s3_config is None && builder.cpu_profiling is Some
            ==> builder.session_processors() == seq![
            Processor::Symbolize,
            Processor::Gzip,
            Processor::WriteBack,
        ],
        builder.processors@.len() == 0 && builder.s3_config is None && builder.cpu_profiling is None
            ==> builder.session_processors().len() == 0,
{
    let uploader = S3PipelineUploader {
        config: builder.s3_config->0,
        client: builder.s3_client,
    };
    assert(assembled(true, PipelineConfig::S3(uploader)) =~= seq![
        Processor::Symbolize,
        Processor::Gzip,
        Processor::S3(uploader),
    ]);
    assert(assembled(false, PipelineConfig::S3(uploader)) =~= seq![
        Processor::Gzip,
        Processor::S3(uploader),
    ]);
}

/// Given metadata is used as it is. Where none is given, the S3 preset gives
/// its own where it is in use.
pub proof fn law_given_metadata_comes_first<W>(builder: TelemetryCoreBuilder<W>)
    ensures
        builder.segment_metadata@.len() > 0 ==> builder.session_metadata() == entry_texts(
            builder.segment_metadata@,
        ),
        builder.segment_metadata@.len() == 0 && builder.processors@.len() == 0
            && builder.s3_config is Some ==> builder.session_metadata()
            == builder.s3_config->0.metadata(),
        builder.segment_metadata@.len() == 0 && (builder.processors@.len() > 0
            || builder.s3_config is None) ==> builder.session_metadata().len() == 0,
        builder.parts() == (SessionParts {
            writer: builder.writer,
            trace_path: builder.trace_path,
            task_dump_config: builder.task_dump_config,
            cpu_profiling: builder.cpu_profiling,
            sched_events: builder.sched_events,
            worker_poll_interval: builder.worker_poll_interval,
            worker_metrics_sink: builder.worker_metrics_sink,
        }),
{
}

} // verus!
