use std::path::Path;
use std::time::Duration;

use dial9_telemetry::error::{ErrorKind, IoError};
use dial9_telemetry::recorder::builder::{
    finish_build, try_assemble_dial9_config, HasTracePath, Inner, PipelineUnset, RuntimePlan,
    TelemetryRuntimeError, TracedRuntime, TracedRuntimeBuilder,
};
use dial9_telemetry::recorder::drain_schedule::{DrainSchedule, DrainStep};
use dial9_telemetry::recorder::event::{TaskId, TelemetryEvent, ThreadRole, WorkerId};
use dial9_telemetry::recorder::guard::{
    AttachStep, ShutdownStep, TelemetryGuard, TelemetryHandle, WorkerHandle,
};
use dial9_telemetry::recorder::hooks::{register_hooks, run_hook, Hook, HookCall, ThreadLocals};
use dial9_telemetry::recorder::pipeline::{
    assemble_processors, PipelineBuilder, PipelineConfig, Processor, S3Config, S3PipelineUploader,
    SegmentProcessor,
};
use dial9_telemetry::recorder::runtime_context::runtime_entries;
use dial9_telemetry::recorder::session::{
    CpuProfilingConfig, MetricsSink, SchedEventConfig, SessionPlan, Surroundings, TaskDumpConfig,
    TelemetryCore,
};
use dial9_telemetry::recorder::shared_state::SharedState;
use dial9_telemetry::recorder::source::Source;

struct NullWriter;

fn surroundings() -> Surroundings {
    Surroundings {
        now_ns: 1234,
        default_poll_interval: Duration::from_secs(1),
    }
}

fn launch<W>(plan: SessionPlan<W>) -> TelemetryGuard {
    plan.launch().0
}

fn live_guard() -> TelemetryGuard {
    launch(TelemetryCore::builder().writer(NullWriter).build(surroundings()))
}

fn names(processors: &[Processor]) -> Vec<&'static str> {
    processors
        .iter()
        .map(|p| match p {
            Processor::Symbolize => "symbolize",
            Processor::Gzip => "gzip",
            Processor::WriteBack => "write_back",
            Processor::S3(_) => "s3",
            Processor::User(_) => "user",
        })
        .collect()
}

fn owned(entries: &[(&str, &str)]) -> Vec<(String, String)> {
    entries.iter().map(|(k, v)| (k.to_string(), v.to_string())).collect()
}

fn boom() -> IoError {
    IoError::new(ErrorKind::Other, "boom".to_string())
}

fn tokio_runtime() -> tokio::runtime::Runtime {
    tokio::runtime::Builder::new_multi_thread().worker_threads(1).build().unwrap()
}

#[test]
fn build_disabled_produces_working_runtime_with_noop_guard() {
    let plan = TracedRuntime::builder().install(false).build(NullWriter, surroundings());
    assert!(matches!(plan, RuntimePlan::Plain));
    let (runtime, mut guard) = TracedRuntime::build_disabled(Ok(tokio_runtime())).unwrap();

    guard.enable();
    guard.disable();
    assert!(!guard.handle().is_enabled());
    let _start = guard.start_time();

    runtime.block_on(async {
        let result = tokio::spawn(async { 42 }).await.unwrap();
        assert_eq!(result, 42);
    });

    assert!(!guard.is_enabled());
}

#[test]
fn telemetry_core_builds_guard_without_runtime() {
    let guard = live_guard();
    assert!(guard.is_enabled());
    let _ = guard.graceful_shutdown(1, Duration::from_secs(1));
}

#[test]
fn telemetry_core_trace_runtime_multiple_runtimes_unique_worker_ids() {
    let mut guard = live_guard();
    guard.enable();
    for name in ["main", "io"] {
        let step = guard.trace_runtime(name.to_string()).task_tracking(true).build();
        match &step {
            AttachStep::Attach { name: given, task_tracking } => {
                assert_eq!(given.as_deref(), Some(name));
                assert!(*task_tracking);
            }
            AttachStep::Plain => panic!("the guard owns a session"),
        }
        let mut locals = ThreadLocals::new();
        let (_, traced) = guard.runtime_built(&mut locals, step, Ok(((), 2))).unwrap();
        assert!(traced);
        assert!(locals.has_handle);
    }
    let shared = guard.shared().unwrap();
    let ids = |c: usize| -> Vec<u64> {
        let mut ids: Vec<u64> = shared.contexts[c].worker_ids.values().copied().collect();
        ids.sort();
        ids
    };
    assert_eq!(ids(0), vec![0, 1]);
    assert_eq!(ids(1), vec![2, 3]);
}

#[test]
fn build_and_attach_to_telemetry_produces_unique_worker_ids() {
    let plan = TracedRuntime::builder()
        .with_task_tracking(true)
        .build_and_start_with_writer(NullWriter, surroundings());
    let (session, step, start) = match plan {
        RuntimePlan::Session { plan, step, start } => (plan, step, start),
        RuntimePlan::Plain => panic!("telemetry is installed"),
    };
    let mut locals = ThreadLocals::new();
    let ((), mut guard) = finish_build(launch(session), &mut locals, step, start, Ok(((), 2)))
        .unwrap_or_else(|_| panic!("the runtime was built"));
    let step = TracedRuntime::builder()
        .with_task_tracking(true)
        .build_and_attach_to_telemetry(&guard);
    guard.runtime_built(&mut ThreadLocals::new(), step, Ok(((), 2))).unwrap();
    let shared = guard.shared().unwrap();
    assert!(shared.is_enabled());
    assert_eq!(shared.contexts[0].workers_and_base, Some((2, 0)));
    assert_eq!(shared.contexts[1].workers_and_base, Some((2, 2)));
}

fn two_workers() -> tokio::runtime::Runtime {
    tokio::runtime::Builder::new_multi_thread().worker_threads(2).build().unwrap()
}

#[test]
fn build_and_attach_to_telemetry_propagates_second_runtime_metadata() {
    let plan = TracedRuntime::builder()
        .with_runtime_name("main".to_string())
        .with_trace_path("trace.bin".into())
        .build_and_start(NullWriter, surroundings());
    let (session, step, start) = match plan {
        RuntimePlan::Session { plan, step, start } => (plan, step, start),
        RuntimePlan::Plain => panic!("telemetry is installed"),
    };
    let mut locals = ThreadLocals::new();
    let runtime_a = two_workers();
    let workers_a = runtime_a.metrics().num_workers() as u64;
    let built = Ok((runtime_a, workers_a));
    let (_runtime_a, mut guard) = finish_build(launch(session), &mut locals, step, start, built)
        .unwrap_or_else(|_| panic!("the runtime was built"));

    let step = TracedRuntime::builder()
        .with_runtime_name("io".to_string())
        .build_and_attach_to_telemetry(&guard);
    let runtime_b = two_workers();
    let workers_b = runtime_b.metrics().num_workers() as u64;
    guard.runtime_built(&mut locals, step, Ok((runtime_b, workers_b))).unwrap();

    let entries = runtime_entries(&guard.shared().unwrap().contexts);
    let has_main = entries.iter().any(|(k, v)| k == "runtime.main" && v == "0,1");
    let has_io = entries.iter().any(|(k, v)| k == "runtime.io" && v == "2,3");
    assert!(
        has_main && has_io,
        "expected segment metadata to contain runtime.main=0,1 and runtime.io=2,3, \
         got: {entries:?}"
    );
    assert_eq!(entries.len(), 2);
}

#[test]
fn wake_events_use_global_worker_id_in_multi_runtime() {
    let mut guard = live_guard();
    guard.enable();
    for name in ["a", "b"] {
        let step = guard.trace_runtime(name.to_string()).task_tracking(true).build();
        guard.runtime_built(&mut ThreadLocals::new(), step, Ok(((), 2))).unwrap();
    }
    let runtime_b = two_workers();
    let indices: Vec<u64> = runtime_b.block_on(async {
        let mut handles = Vec::new();
        for _ in 0..50 {
            handles.push(tokio::spawn(async { tokio::runtime::worker_index() }));
        }
        let mut indices = Vec::new();
        for h in handles {
            indices.extend(h.await.unwrap().map(|index| index as u64));
        }
        indices
    });
    let mut wake_workers: Vec<u8> = Vec::new();
    for index in indices {
        let shared = guard.handle().shared.unwrap();
        let worker = shared.resolve_worker(1, index, 7).expect("a worker of the second runtime");
        match shared.create_wake_event(TaskId { id: 1 }, worker.id as u8, 5) {
            TelemetryEvent::Wake { target_worker, .. } => wake_workers.push(target_worker),
            other => panic!("expected a wake, got {other:?}"),
        }
    }
    assert!(!wake_workers.is_empty(), "expected at least one WakeEvent");
    let has_global_id = wake_workers.iter().any(|&w| w >= 2 && w != 255);
    assert!(
        has_global_id,
        "expected wake events from runtime B to use global worker IDs (>= 2), \
         but got: {wake_workers:?}"
    );
}

#[test]
fn runtimes_without_a_name_have_no_entry() {
    let mut shared = SharedState::new(0, None);
    assert!(runtime_entries(&shared.contexts).is_empty());
    shared.attach_runtime(None, 9);
    shared.attach_runtime(Some("io".to_string()), 3);
    shared.attach_runtime(Some("idle".to_string()), 0);
    shared.attach_runtime(Some("one".to_string()), 1);
    assert_eq!(
        runtime_entries(&shared.contexts),
        owned(&[("runtime.io", "9,10,11"), ("runtime.idle", ""), ("runtime.one", "12")])
    );
}

#[test]
fn build_and_attach_to_telemetry_attaches_second_runtime() {
    let plan = TracedRuntime::builder().build_and_start_with_writer(NullWriter, surroundings());
    let (session, step, start) = match plan {
        RuntimePlan::Session { plan, step, start } => (plan, step, start),
        RuntimePlan::Plain => panic!("telemetry is installed"),
    };
    let mut locals = ThreadLocals::new();
    let built = Ok((tokio_runtime(), 1));
    let (runtime_a, mut guard) = finish_build(launch(session), &mut locals, step, start, built)
        .unwrap_or_else(|_| panic!("the runtime was built"));

    let step = TracedRuntime::builder().build_and_attach_to_telemetry(&guard);
    let built = Ok((tokio_runtime(), 1));
    let (runtime_b, traced) = guard.runtime_built(&mut locals, step, built).unwrap();
    assert!(traced);
    assert_eq!(guard.shared().unwrap().contexts.len(), 2);

    runtime_a.block_on(async {
        let r = tokio::spawn(async { 1 }).await.unwrap();
        assert_eq!(r, 1);
    });
    runtime_b.block_on(async {
        let r = tokio::spawn(async { 2 }).await.unwrap();
        assert_eq!(r, 2);
    });
}

#[test]
fn telemetry_core_trace_runtime_produces_working_runtime() {
    let mut guard = live_guard();
    guard.enable();

    let step = guard.trace_runtime("main".to_string()).build();
    let built = Ok((tokio_runtime(), 2));
    let (runtime, traced) = guard.runtime_built(&mut ThreadLocals::new(), step, built).unwrap();
    assert!(traced);

    runtime.block_on(async {
        let r = tokio::spawn(async { 42 }).await.unwrap();
        assert_eq!(r, 42);
    });

    drop(runtime);
    let _ = guard.graceful_shutdown(1, Duration::from_secs(1));
}

#[test]
fn telemetry_core_task_tracking_produces_task_spawn_events() {
    let mut guard = live_guard();
    guard.enable();

    let step = guard.trace_runtime("main".to_string()).task_tracking(true).build();
    let hooks = match &step {
        AttachStep::Attach { task_tracking, .. } => register_hooks(*task_tracking),
        AttachStep::Plain => panic!("the guard owns a session"),
    };
    assert!(hooks.contains(&Hook::TaskSpawn));
    let mut locals = ThreadLocals::new();
    let built = Ok((tokio_runtime(), 2));
    let (runtime, _) = guard.runtime_built(&mut locals, step, built).unwrap();

    let id: u64 = runtime.block_on(async {
        let task = tokio::spawn(async { tokio::task::yield_now().await });
        let id = task.id().to_string().parse().unwrap();
        task.await.unwrap();
        id
    });
    let call = HookCall::TaskSpawn {
        timestamp_ns: 1,
        task_id: TaskId { id },
        location: "tests/session.rs".to_string(),
    };
    run_hook(guard.handle().shared.unwrap(), &mut locals, 1, call);

    drop(runtime);
    let (_, shared) =
        guard.graceful_shutdown(1, Duration::from_secs(1)).unwrap_or_else(|_| panic!("ok"));
    let mut shared = shared.unwrap();
    let mut spawn_count = 0;
    while let Some(batch) = shared.collector.next() {
        for event in batch.events() {
            if matches!(event, TelemetryEvent::TaskSpawn { .. }) {
                spawn_count += 1;
            }
        }
    }
    assert!(
        spawn_count > 0,
        "expected TaskSpawn events when task_tracking is enabled, got none"
    );
}

#[test]
fn try_new_enabled_path_returns_value_and_exposes_guard() {
    let runtime_builder: TracedRuntimeBuilder<HasTracePath, PipelineUnset> =
        TracedRuntime::builder().with_trace_path("trace.bin".into());
    let inner = Inner::Enabled { writer: NullWriter, runtime_builder };
    let plan = try_assemble_dial9_config(inner, surroundings());
    let (session, step, start) = match plan {
        RuntimePlan::Session { plan, step, start } => (plan, step, start),
        RuntimePlan::Plain => panic!("telemetry is asked for"),
    };
    let runtime = Ok((tokio_runtime(), 1));
    let built = finish_build(launch(session), &mut ThreadLocals::new(), step, start, runtime)
        .map_err(|(error, _)| error);
    let rt = TracedRuntime::from_config(true, built)
        .unwrap_or_else(|_| panic!("runtime should build"));
    assert!(rt.guard().is_enabled(), "enabled config must install a live guard");
    let value = rt.runtime().block_on(async { 5u32 });
    assert_eq!(value, 5);
    assert!(rt.guard().shared().unwrap().is_enabled());
}

#[test]
fn try_new_disabled_path_returns_value_no_guard() {
    let inner: Inner<NullWriter, PipelineUnset> = Inner::Disabled;
    assert!(matches!(try_assemble_dial9_config(inner, surroundings()), RuntimePlan::Plain));
    let built = TracedRuntime::build_disabled(Ok(tokio_runtime()));
    let rt = TracedRuntime::from_config(false, built)
        .unwrap_or_else(|_| panic!("disabled runtime should build"));
    assert!(!rt.guard().is_enabled(), "disabled config must yield an inert guard");
    let value = rt.runtime().block_on(async { 11u32 });
    assert_eq!(value, 11);
}

fn disabled_runtime() -> TracedRuntime<tokio::runtime::Runtime> {
    let inner: Inner<NullWriter, PipelineUnset> = Inner::Disabled;
    let built = match try_assemble_dial9_config(inner, surroundings()) {
        RuntimePlan::Plain => TracedRuntime::build_disabled(Ok(tokio_runtime())),
        RuntimePlan::Session { .. } => panic!("a disabled configuration starts no session"),
    };
    TracedRuntime::from_config(false, built)
        .unwrap_or_else(|_| panic!("disabled runtime should build"))
}

#[test]
fn disabled_dial9_config_yields_inert_guard() {
    let mut rt = disabled_runtime();
    assert!(!rt.guard().is_enabled());
    assert!(!rt.guard.handle().is_enabled());
    assert!(rt.guard().start_time().is_none());
    let value = rt.runtime().block_on(async { 21u32 });
    assert_eq!(value, 21);
}

#[test]
fn new_returns_runtime_for_valid_disabled_config() {
    let rt = disabled_runtime();
    let value = rt.runtime().block_on(async { 13u32 });
    assert_eq!(value, 13);
}

#[test]
fn runtime_without_a_guard_gets_an_inert_one() {
    let mut rt = TracedRuntime::from_parts(tokio_runtime(), None);
    assert!(!rt.guard().is_enabled());
    assert!(!rt.guard.handle().is_enabled());
    assert!(rt.guard().start_time().is_none());
}

#[test]
fn telemetry_runtime_error_display_and_source_chain() {
    let err = TelemetryRuntimeError::TelemetryCore(boom());
    let display = err.message();
    assert!(
        display.contains("telemetry core:"),
        "Display should label the variant, got: {display}"
    );
    assert!(
        display.contains("boom"),
        "Display should include the inner io::Error message, got: {display}"
    );
    assert!(err.source().is_some(), "source() must return the inner io::Error");
    assert_eq!(
        TelemetryRuntimeError::TokioRuntimeBuilder(boom()).message(),
        "tokio runtime builder: boom"
    );
}

#[test]
fn failed_builds_name_the_part_that_failed() {
    let failed = |enabled| {
        let built: Result<((), TelemetryGuard), IoError> = Err(boom());
        match TracedRuntime::from_config(enabled, built) {
            Ok(_) => panic!("the build failed"),
            Err(error) => error.message(),
        }
    };
    assert_eq!(failed(true), "telemetry core: boom");
    assert_eq!(failed(false), "tokio runtime builder: boom");
    let (error, guard) = match finish_build::<()>(
        live_guard(),
        &mut ThreadLocals::new(),
        AttachStep::Attach { name: None, task_tracking: false },
        true,
        Err(boom()),
    ) {
        Ok(_) => panic!("the build failed"),
        Err(failed) => failed,
    };
    assert_eq!(error.message(), "boom");
    assert!(!guard.shared().unwrap().is_enabled());
    assert!(guard.shared().unwrap().contexts.is_empty());
}

#[test]
fn telemetry_handle_disabled_constructor_is_inert() {
    let mut handle = TelemetryHandle::disabled();
    assert!(!handle.is_enabled());
    handle.enable();
    handle.disable();
    assert!(!handle.is_enabled());
}

#[test]
fn handle_controls_the_session() {
    let mut guard = live_guard();
    assert!(!guard.shared().unwrap().is_enabled());
    let mut handle = guard.handle();
    assert!(handle.is_enabled());
    handle.enable();
    assert!(guard.shared().unwrap().is_enabled());
    guard.handle().disable();
    assert!(!guard.shared().unwrap().is_enabled());
    assert_eq!(guard.start_time(), Some(1234));
}

#[test]
fn disabled_guard_graceful_shutdown_is_noop_ok() {
    let guard = TelemetryGuard::disabled();
    assert!(!guard.is_enabled());
    let (steps, rest) = guard
        .graceful_shutdown(1, Duration::from_secs(1))
        .unwrap_or_else(|_| panic!("graceful_shutdown on disabled guard must be Ok(())"));
    assert!(steps.is_empty());
    assert!(rest.is_none());
    assert!(TelemetryGuard::disabled().close(1).is_empty());
}

#[test]
fn graceful_shutdown_flushes_and_drains() {
    let worker = WorkerHandle { shutdown: true, thread: true };
    let mut guard = TelemetryGuard::enabled(SharedState::new(0, None), true, Some(worker));
    guard.enable();
    let mut locals = ThreadLocals::new();
    let mut shared = SharedState::new(0, None);
    shared.enabled = true;
    run_hook(
        &mut shared,
        &mut locals,
        4,
        HookCall::ThreadPark { timestamp_ns: 1, worker_id: WorkerId { id: 0 } },
    );
    let guard = TelemetryGuard::enabled(shared, true, Some(worker));
    let timeout = Duration::from_secs(5);
    let (steps, rest) = guard.graceful_shutdown(4, timeout).unwrap_or_else(|_| panic!("ok"));
    assert_eq!(steps.len(), 4);
    assert!(matches!(steps[0], ShutdownStep::FinalizeAndStop));
    assert!(matches!(steps[1], ShutdownStep::JoinFlushThread));
    assert!(matches!(steps[2], ShutdownStep::SignalWorker(t) if t == timeout));
    assert!(matches!(steps[3], ShutdownStep::JoinWorker));
    let batch = rest.unwrap().collector.next().expect("the pending event was flushed");
    assert_eq!(batch.event_count(), 1);
}

#[test]
fn closing_a_guard_hangs_up_on_the_worker() {
    let worker = WorkerHandle { shutdown: true, thread: true };
    let mut guard = TelemetryGuard::enabled(SharedState::new(0, None), true, Some(worker));
    let steps = guard.close(1);
    assert_eq!(steps.len(), 3);
    assert!(matches!(steps[2], ShutdownStep::HangUpOnWorker));
    let again = guard.close(1);
    assert_eq!(again.len(), 1);
    assert!(matches!(again[0], ShutdownStep::FinalizeAndStop));
}

#[test]
fn instrumented_spawn_guard_nests() {
    let mut locals = ThreadLocals::new();
    assert_eq!(locals.instrumented_spawns, 0);
    locals.enter_instrumented_spawn();
    assert_eq!(locals.instrumented_spawns, 1);
    locals.enter_instrumented_spawn();
    assert_eq!(locals.instrumented_spawns, 2);
    locals.leave_instrumented_spawn();
    assert_eq!(locals.instrumented_spawns, 1);
    locals.leave_instrumented_spawn();
    assert_eq!(locals.instrumented_spawns, 0);
}

#[test]
fn task_hooks_are_installed_on_request() {
    assert!(!register_hooks(false).contains(&Hook::TaskSpawn));
    let hooks = register_hooks(true);
    assert_eq!(hooks.len(), 8);
    assert_eq!(hooks[4], Hook::TaskSpawn);
    assert_eq!(hooks[5], Hook::TaskTerminate);
    assert_eq!(hooks[7], Hook::ThreadStop);
}

#[test]
fn hooks_record_only_while_enabled() {
    let mut shared = SharedState::new(0, None);
    let mut locals = ThreadLocals::new();
    let spawn = || HookCall::TaskSpawn {
        timestamp_ns: 3,
        task_id: TaskId { id: 6 },
        location: "src/main.rs:1".to_string(),
    };
    run_hook(&mut shared, &mut locals, 1, spawn());
    assert!(shared.tl_buffers.is_empty());
    shared.enabled = true;
    run_hook(&mut shared, &mut locals, 1, spawn());
    locals.enter_instrumented_spawn();
    run_hook(&mut shared, &mut locals, 1, spawn());
    shared.drain_to_collector(1);
    let batch = shared.collector.next().unwrap();
    assert!(matches!(batch.events()[0], TelemetryEvent::TaskSpawn { instrumented: false, .. }));
    assert!(matches!(batch.events()[1], TelemetryEvent::TaskSpawn { instrumented: true, .. }));
}

#[test]
fn thread_hooks_keep_the_roles() {
    let mut shared = SharedState::new(0, None);
    shared.push_source(Source::new("sched".to_string()));
    let mut locals = ThreadLocals::new();
    run_hook(&mut shared, &mut locals, 1, HookCall::ThreadStart { tid: 40 });
    assert!(locals.has_handle);
    assert_eq!(shared.thread_roles.get(&40), Some(&ThreadRole::Blocking));
    run_hook(&mut shared, &mut locals, 1, HookCall::ThreadStop { tid: 40 });
    assert!(!locals.has_handle);
    assert!(shared.thread_roles.is_empty());
    assert_eq!(shared.sources[0].stopped, vec![40]);
}

fn dummy_client() -> aws_sdk_s3::Client {
    let conf = aws_sdk_s3::Config::builder()
        .behavior_version(aws_sdk_s3::config::BehaviorVersion::latest())
        .credentials_provider(aws_sdk_s3::config::Credentials::new(
            "test", "test", None, None, "test",
        ))
        .region(aws_sdk_s3::config::Region::new("us-east-1"))
        .identity_cache(aws_sdk_s3::config::IdentityCache::no_cache())
        .retry_config(aws_sdk_s3::config::retry::RetryConfig::disabled())
        .timeout_config(aws_sdk_s3::config::timeout::TimeoutConfig::disabled())
        .stalled_stream_protection(
            aws_sdk_s3::config::StalledStreamProtectionConfig::disabled(),
        )
        .build();
    aws_sdk_s3::Client::from_conf(conf)
}

#[test]
fn with_s3_client_then_with_s3_uploader_preserves_client() {
    fn cfg(boot_id: &str) -> S3Config {
        S3Config::new("b".to_string(), "s".to_string()).with_boot_id(boot_id.to_string())
    }

    let mut builder =
        TracedRuntime::builder().with_s3_uploader(cfg("a")).with_s3_client(dummy_client());
    match &mut builder.pipeline {
        PipelineConfig::S3(u) => {
            assert!(u.take_client().is_some(), "client must be present in order A");
        }
        _ => panic!("expected S3 pipeline"),
    }

    let mut builder = TracedRuntime::builder()
        .with_s3_uploader(cfg("a"))
        .with_s3_client(dummy_client())
        .with_s3_uploader(cfg("b"));
    match &mut builder.pipeline {
        PipelineConfig::S3(u) => {
            assert!(
                u.take_client().is_some(),
                "client bound before the second with_s3_uploader must be carried over"
            );
            assert_eq!(u.config.boot_id.as_deref(), Some("b"));
        }
        _ => panic!("expected S3 pipeline"),
    }
}

fn entries<P, M>(builder: &TracedRuntimeBuilder<P, M>) -> &[(String, String)] {
    &builder.segment_metadata
}

fn s3_cfg() -> S3Config {
    S3Config::new("test-bucket".to_string(), "checkout-api".to_string())
        .with_instance_path("us-east-1/i-0abc123".to_string())
        .with_boot_id("test-boot".to_string())
}

#[test]
fn s3_preset_populates_from_config() {
    let builder = TracedRuntime::builder().with_s3_uploader(s3_cfg());
    let m: std::collections::HashMap<&str, &str> =
        entries(&builder).iter().map(|(k, v)| (k.as_str(), v.as_str())).collect();
    assert_eq!(m.get("bucket"), Some(&"test-bucket"));
    assert_eq!(m.get("service_name"), Some(&"checkout-api"));
    assert_eq!(m.get("instance_path"), Some(&"us-east-1/i-0abc123"));
    assert_eq!(m.get("boot_id"), Some(&"test-boot"));
}

#[test]
fn s3_preset_replace_overwrites_metadata() {
    let cfg2 = S3Config::new("other-bucket".to_string(), "other-svc".to_string())
        .with_boot_id("other-boot".to_string());
    let builder =
        TracedRuntime::builder().with_s3_uploader(s3_cfg()).with_s3_uploader(cfg2);
    let m: std::collections::HashMap<&str, &str> =
        entries(&builder).iter().map(|(k, v)| (k.as_str(), v.as_str())).collect();
    assert_eq!(m.get("bucket"), Some(&"other-bucket"));
    assert_eq!(m.get("service_name"), Some(&"other-svc"));
    assert_eq!(m.get("boot_id"), Some(&"other-boot"));
}

#[test]
fn custom_pipeline_with_s3_does_not_auto_populate() {
    let builder = TracedRuntime::builder().with_custom_pipeline(|b| b.gzip().s3(s3_cfg()));
    assert!(
        entries(&builder).is_empty(),
        "with_custom_pipeline must not auto-inject segment metadata; got {:?}",
        entries(&builder)
    );
}

#[test]
fn custom_pipeline_without_s3_is_empty() {
    let builder = TracedRuntime::builder().with_custom_pipeline(|b| b.gzip().write_back());
    assert!(entries(&builder).is_empty());
}

#[test]
fn unset_pipeline_is_empty() {
    let builder = TracedRuntime::builder();
    assert!(entries(&builder).is_empty());
}

#[test]
fn with_segment_metadata_recovers_parity_in_custom_pipeline() {
    let preset_entries: Vec<(String, String)> = s3_cfg().as_metadata();
    let builder = TracedRuntime::builder()
        .with_custom_pipeline(|b| b.gzip().s3(s3_cfg()))
        .with_segment_metadata(preset_entries.clone());
    assert_eq!(entries(&builder), preset_entries.as_slice());
}

#[test]
fn with_segment_metadata_after_s3_overrides_preset() {
    let custom = owned(&[("env", "prod")]);
    let builder = TracedRuntime::builder()
        .with_s3_uploader(s3_cfg())
        .with_segment_metadata(custom.clone());
    assert_eq!(entries(&builder), custom.as_slice());
}

#[test]
fn s3_after_with_segment_metadata_overwrites() {
    let builder = TracedRuntime::builder()
        .with_segment_metadata(owned(&[("env", "prod")]))
        .with_s3_uploader(s3_cfg());
    let m: std::collections::HashMap<&str, &str> =
        entries(&builder).iter().map(|(k, v)| (k.as_str(), v.as_str())).collect();
    assert_eq!(m.get("bucket"), Some(&"test-bucket"));
    assert!(!m.contains_key("env"), "with_s3_uploader should overwrite, not merge");
}

#[test]
fn telemetry_core_builder_s3_config_builds_successfully() {
    let s3 = S3Config::new("b".to_string(), "s".to_string());
    let plan = TelemetryCore::builder()
        .writer(NullWriter)
        .trace_path("trace.bin".into())
        .s3_config(s3)
        .build(surroundings());
    assert_eq!(plan.metadata_update, Some(owned(&[("bucket", "b"), ("service_name", "s")])));
    let (guard, _, worker) = plan.launch();
    assert!(guard.is_enabled());
    assert_eq!(names(&worker.unwrap().processors), vec!["gzip", "s3"]);
    let _ = guard.graceful_shutdown(1, Duration::from_secs(1));
}

#[test]
fn telemetry_core_builder_cpu_profiling_auto_wires_processors() {
    let plan = TelemetryCore::builder()
        .writer(NullWriter)
        .trace_path("trace.bin".into())
        .cpu_profiling(CpuProfilingConfig { frequency_hz: 99 })
        .worker_poll_interval(Duration::from_millis(50))
        .build(surroundings());
    let worker = plan.worker.expect("cpu_profiling should auto-wire processors");
    assert_eq!(names(&worker.processors), vec!["symbolize", "gzip", "write_back"]);
    assert_eq!(worker.poll_interval, Duration::from_millis(50));
    assert_eq!(worker.trace_path.as_deref(), Some(Path::new("trace.bin")));
}

#[test]
fn processors_follow_the_strategy() {
    let s3 = || PipelineConfig::S3(S3PipelineUploader::new(s3_cfg(), None));
    assert!(assemble_processors(false, PipelineConfig::Unset).is_empty());
    assert_eq!(
        names(&assemble_processors(true, PipelineConfig::Unset)),
        vec!["symbolize", "gzip", "write_back"]
    );
    assert_eq!(names(&assemble_processors(false, s3())), vec!["gzip", "s3"]);
    assert_eq!(names(&assemble_processors(true, s3())), vec!["symbolize", "gzip", "s3"]);
    let custom = PipelineBuilder::new().write_back().symbolize().into_processors();
    assert_eq!(
        names(&assemble_processors(true, PipelineConfig::Custom(custom))),
        vec!["write_back", "symbolize"]
    );
}

struct Upper;

impl SegmentProcessor for Upper {
    fn name(&self) -> String {
        "upper".to_string()
    }

    fn process(&mut self, segment: Vec<u8>) -> Result<Vec<u8>, IoError> {
        Ok(segment.to_ascii_uppercase())
    }
}

#[test]
fn custom_pipeline_is_what_was_built() {
    let plan = TracedRuntime::builder()
        .with_cpu_profiling(CpuProfilingConfig { frequency_hz: 99 })
        .with_custom_pipeline(|b| b.pipe(Box::new(Upper)).gzip())
        .with_trace_path("trace.bin".into())
        .build(NullWriter, surroundings());
    match plan {
        RuntimePlan::Session { plan, .. } => {
            let mut worker = plan.worker.unwrap();
            assert_eq!(names(&worker.processors), vec!["user", "gzip"]);
            match &mut worker.processors[0] {
                Processor::User(user) => {
                    assert_eq!(user.name(), "upper");
                    let bytes = user.process(b"trace".to_vec()).unwrap_or_else(|_| panic!("ok"));
                    assert_eq!(bytes, b"TRACE");
                }
                _ => panic!("expected the supplied processor"),
            }
        }
        RuntimePlan::Plain => panic!("telemetry is installed"),
    }
    let empty = TracedRuntime::builder()
        .with_cpu_profiling(CpuProfilingConfig { frequency_hz: 99 })
        .with_custom_pipeline(|b| b)
        .with_trace_path("trace.bin".into())
        .build(NullWriter, surroundings());
    match empty {
        RuntimePlan::Session { plan, .. } => assert!(plan.worker.is_none()),
        RuntimePlan::Plain => panic!("telemetry is installed"),
    }
}

#[test]
fn worker_needs_processors_and_a_trace_path() {
    let core = || TelemetryCore::builder().writer(NullWriter);
    let gzip = || PipelineBuilder::new().gzip().into_processors();
    assert!(core().processors(gzip()).build(surroundings()).worker.is_none());
    assert!(core().trace_path("trace.bin".into()).build(surroundings()).worker.is_none());
    let worker = core()
        .processors(gzip())
        .trace_path("trace.bin".into())
        .build(surroundings())
        .worker
        .unwrap();
    assert_eq!(names(&worker.processors), vec!["gzip"]);
    assert_eq!(worker.poll_interval, Duration::from_secs(1));
    assert!(matches!(worker.metrics_sink, MetricsSink::Discarding(_)));
    assert_eq!(worker.trace_path.as_deref(), Some(Path::new("trace.bin")));
}

#[test]
fn builds_without_a_trace_path_run_no_worker() {
    let s3 = || TracedRuntime::builder().with_s3_uploader(s3_cfg());
    let plans = vec![
        s3().build(NullWriter, surroundings()),
        s3().build_with_writer(NullWriter, surroundings()),
        s3().build_and_start(NullWriter, surroundings()),
        s3().build_and_start_with_writer(NullWriter, surroundings()),
    ];
    for plan in plans {
        match plan {
            RuntimePlan::Session { plan, .. } => assert!(plan.worker.is_none()),
            RuntimePlan::Plain => panic!("telemetry is installed"),
        }
    }
    let with_path = || s3().with_trace_path("trace.bin".into());
    let plans = vec![
        with_path().build(NullWriter, surroundings()),
        with_path().build_with_writer(NullWriter, surroundings()),
        with_path().build_and_start(NullWriter, surroundings()),
        with_path().build_and_start_with_writer(NullWriter, surroundings()),
    ];
    for plan in plans {
        match plan {
            RuntimePlan::Session { plan, .. } => {
                assert_eq!(names(&plan.worker.unwrap().processors), vec!["gzip", "s3"]);
            }
            RuntimePlan::Plain => panic!("telemetry is installed"),
        }
    }
}

#[test]
fn configured_sink_goes_to_both_threads() {
    let sink = metrique_writer::sink::DevNullSink::boxed();
    let plan = TelemetryCore::builder()
        .writer(NullWriter)
        .processors(PipelineBuilder::new().gzip().into_processors())
        .worker_metrics_sink(sink)
        .trace_path("trace.bin".into())
        .build(surroundings());
    assert!(matches!(plan.flush_metrics_sink, MetricsSink::Configured(_)));
    let (_, flush, worker) = plan.launch();
    assert!(matches!(flush.metrics_sink, MetricsSink::Configured(_)));
    assert!(matches!(worker.unwrap().metrics_sink, MetricsSink::Configured(_)));
}

#[test]
fn explicit_metadata_is_kept_beside_s3() {
    let plan = TelemetryCore::builder()
        .writer(NullWriter)
        .segment_metadata(owned(&[("env", "prod")]))
        .s3_config(s3_cfg())
        .s3_client(dummy_client())
        .trace_path("trace.bin".into())
        .build(surroundings());
    assert_eq!(plan.metadata_update, Some(owned(&[("env", "prod")])));
    match &plan.worker.unwrap().processors[1] {
        Processor::S3(uploader) => assert!(uploader.client.is_some()),
        _ => panic!("expected the uploader"),
    }
    let custom = TelemetryCore::builder()
        .writer(NullWriter)
        .processors(PipelineBuilder::new().gzip().into_processors())
        .s3_config(s3_cfg())
        .build(surroundings());
    assert_eq!(custom.metadata_update, None);
}

#[test]
fn task_dump_settings_reach_the_core() {
    let plan = TelemetryCore::builder()
        .writer(NullWriter)
        .task_dump_config(TaskDumpConfig {
            idle_threshold_ns: (1u128 << 64) + 7,
            rng_seed: Some(9),
        })
        .sched_events(SchedEventConfig { include_kernel: true })
        .build(surroundings());
    assert!(plan.shared.task_dumps_enabled);
    assert_eq!(plan.shared.task_dump_idle_threshold_ns, 7);
    assert_eq!(plan.shared.task_dump_rng_seed, Some(9));
    assert_eq!(plan.shared.start_time_ns, 1234);
    assert!(plan.sched_events.is_some());
    assert!(plan.cpu_profiling.is_none());
}

#[test]
fn profiler_that_fails_to_start_is_left_out() {
    let mut plan = TelemetryCore::builder().writer(NullWriter).build(surroundings());
    plan.profiler_started(Err(boom()));
    assert!(plan.shared.sources.is_empty());
    plan.profiler_started(Ok(Source::new("cpu".to_string())));
    assert_eq!(plan.shared.sources.len(), 1);
}

#[test]
fn builder_settings_reach_the_plan() {
    let plan = TracedRuntime::builder()
        .with_runtime_name("main".to_string())
        .with_task_tracking(true)
        .with_segment_metadata(owned(&[("env", "prod")]))
        .with_task_dumps(TaskDumpConfig { idle_threshold_ns: 5, rng_seed: None })
        .with_sched_events(SchedEventConfig { include_kernel: false })
        .with_worker_poll_interval(Duration::from_secs(9))
        .with_trace_path("first.bin".into())
        .with_trace_path("second.bin".into())
        .with_custom_pipeline(|b| b.gzip())
        .build_and_start(NullWriter, surroundings());
    match plan {
        RuntimePlan::Session { plan, step, start } => {
            assert!(start);
            assert!(matches!(
                step,
                AttachStep::Attach { name: Some(name), task_tracking: true } if name == "main"
            ));
            assert_eq!(plan.metadata_update, Some(owned(&[("env", "prod")])));
            assert_eq!(plan.shared.task_dump_idle_threshold_ns, 5);
            let worker = plan.worker.unwrap();
            assert_eq!(worker.trace_path.as_deref(), Some(Path::new("first.bin")));
            assert_eq!(worker.poll_interval, Duration::from_secs(9));
        }
        RuntimePlan::Plain => panic!("telemetry is installed"),
    }
}

#[test]
fn disabled_guard_attaches_plain_runtimes() {
    let mut guard = TelemetryGuard::disabled();
    let step = TracedRuntime::builder().build_and_attach_to_telemetry(&guard);
    assert!(matches!(step, AttachStep::Plain));
    let built = Ok((tokio_runtime(), 1));
    let (runtime, traced) =
        guard.runtime_built(&mut ThreadLocals::new(), step, built).unwrap();
    assert!(!traced);
    assert_eq!(runtime.block_on(async { 3 }), 3);
    let step = guard.trace_runtime("x".to_string()).build();
    assert!(matches!(step, AttachStep::Plain));
}

#[test]
fn default_builds_run_no_worker() {
    for start in [false, true] {
        let plan = if start {
            TracedRuntime::build_and_start(NullWriter, surroundings())
        } else {
            TracedRuntime::build(NullWriter, surroundings())
        };
        match plan {
            RuntimePlan::Session { plan, start: starts, .. } => {
                assert_eq!(starts, start);
                assert!(plan.worker.is_none());
                assert!(plan.metadata_update.is_none());
            }
            RuntimePlan::Plain => panic!("telemetry is installed"),
        }
    }
}

#[test]
fn drains_come_half_a_minute_apart_and_one_tick_after_the_epoch() {
    let second = 1_000_000_000u64;
    let mut schedule = DrainSchedule::new(second);
    assert_eq!(schedule.tick(2 * second), DrainStep::Wait);
    assert_eq!(schedule.tick(31 * second - 1), DrainStep::Wait);
    assert_eq!(schedule.tick(31 * second), DrainStep::Bump);
    assert_eq!(schedule.tick(31 * second + 5), DrainStep::Drain);
    assert_eq!(schedule.tick(32 * second), DrainStep::Wait);
    assert_eq!(schedule.tick(61 * second + 5), DrainStep::Bump);
    assert_eq!(schedule.tick(61 * second + 5), DrainStep::Drain);
}
