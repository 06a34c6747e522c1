use dial9_telemetry::ctimer_sampler::{
    is_ctimer_active, register_current_thread, sigprof_handler, CtimerSampler, CtimerStart, Moment, ProfilerState,
};
use dial9_telemetry::error::{ErrorKind, IoError};
use dial9_telemetry::fp_profiler::context::{MachineContext, REG_RBP, REG_RIP, REG_RSP};
use dial9_telemetry::fp_profiler::ctimer::{Registration, ThreadTimer, TimerCall};
use dial9_telemetry::fp_profiler::{SigactionRequest, SignalAction};
use dial9_telemetry::sampler::{
    is_perf_blocked, registration_failed, OpenOutcome, PerfSampler, ProcessWide, StartStep,
    Tracking, Untracking,
};
use dial9_telemetry::sampling::{EventSource, RawSample, Sample, SamplerConfig, SamplingMode};

fn os_error(code: i32) -> IoError {
    IoError::from_raw_os_error(code, format!("os error {code}"))
}

fn config(sampling: SamplingMode) -> SamplerConfig {
    SamplerConfig { sampling, event_source: EventSource::SwCpuClock, include_kernel: false }
}

fn old_action() -> SignalAction {
    SignalAction { handler: libc::SIG_DFL, flags: 0 }
}

fn start(profiler: &mut ProfilerState, hz: u64) -> CtimerSampler {
    match CtimerSampler::start(profiler, &config(SamplingMode::FrequencyHz(hz))) {
        CtimerStart::InstallSegv { interval_ns, .. } => {
            CtimerSampler::segv_installed(profiler, interval_ns, Ok(old_action())).unwrap();
            CtimerSampler::prof_installed(profiler, interval_ns, Ok(())).unwrap()
        }
        CtimerStart::InstallProf { interval_ns, .. } => {
            CtimerSampler::prof_installed(profiler, interval_ns, Ok(())).unwrap()
        }
        CtimerStart::Failed(error) => panic!("start failed: {error:?}"),
    }
}

fn context() -> MachineContext {
    let mut gregs = [0i64; 23];
    gregs[REG_RIP] = 0x40_0000;
    gregs[REG_RBP] = 0x7000;
    gregs[REG_RSP] = 0x7000;
    MachineContext::X86_64 { gregs }
}

fn load(addr: usize) -> usize {
    match addr {
        0x7000 => 0x7010,
        0x7008 => 0x40_1000,
        _ => 0,
    }
}

fn moment(tid: u32) -> Moment {
    Moment { pid: 10, tid, cpu: 3, sec: 2, nsec: 5, overrun: 4 }
}

#[test]
fn start_rejects_period_mode() {
    let config = SamplerConfig {
        sampling: SamplingMode::Period(1),
        event_source: EventSource::SwCpuClock,
        include_kernel: false,
    };
    let mut profiler = ProfilerState::new(4);
    match CtimerSampler::start(&mut profiler, &config) {
        CtimerStart::Failed(err) => {
            assert_eq!(err.kind(), ErrorKind::Unsupported);
            assert_eq!(
                err.message(),
                "ctimer fallback does not support period-based sampling \
                 (SamplingMode::Period(1)); event-based sources like \
                 context switches require perf_event_open (available on \
                 ECS EC2 / Managed Instances, not Fargate)"
            );
        }
        other => panic!("expected a refusal, got {other:?}"),
    }
}

#[test]
fn is_perf_blocked_recognizes_blocked_errors() {
    for errno in [libc::EACCES, libc::EPERM, libc::ENOSYS, libc::EOPNOTSUPP] {
        let err = os_error(errno);
        assert!(is_perf_blocked(&err), "expected is_perf_blocked=true for errno {errno}");
    }
}

#[test]
fn is_perf_blocked_ignores_other_errors() {
    for errno in [libc::EINVAL, libc::ENOENT, libc::EBADF] {
        let err = os_error(errno);
        assert!(!is_perf_blocked(&err), "expected is_perf_blocked=false for errno {errno}");
    }
    assert!(!is_perf_blocked(&IoError::new(ErrorKind::Other, "no code".to_string())));
}

#[test]
fn frequency_sets_the_interval() {
    for (hz, interval) in [(0u64, 1_000_000_000i64), (1, 1_000_000_000), (999, 1_001_001)] {
        let mut profiler = ProfilerState::new(4);
        start(&mut profiler, hz);
        assert_eq!(profiler.engine.interval_ns, interval);
        assert!(profiler.engine.running);
        assert!(is_ctimer_active(&profiler));
    }
}

#[test]
fn frequency_above_a_gigahertz_is_refused() {
    for hz in [1_000_000_001u64, 1 << 63, u64::MAX] {
        let mut profiler = ProfilerState::new(4);
        match CtimerSampler::start(&mut profiler, &config(SamplingMode::FrequencyHz(hz))) {
            CtimerStart::InstallSegv { request, interval_ns } => {
                assert_eq!(
                    request,
                    SigactionRequest {
                        signal: libc::SIGSEGV,
                        flags: libc::SA_SIGINFO | libc::SA_NODEFER,
                    }
                );
                let error =
                    CtimerSampler::segv_installed(&mut profiler, interval_ns, Ok(old_action()))
                        .unwrap_err();
                assert_eq!(error.message(), "failed to start ctimer: interval must be positive");
                assert_eq!(error.kind(), ErrorKind::Other);
            }
            other => panic!("expected a handler request, got {other:?}"),
        }
        assert!(!is_ctimer_active(&profiler));
        assert!(matches!(
            CtimerSampler::start(&mut profiler, &config(SamplingMode::FrequencyHz(hz))),
            CtimerStart::Failed(_)
        ));
    }
}

#[test]
fn refused_handlers_fail_the_start() {
    let mut profiler = ProfilerState::new(4);
    let hz = config(SamplingMode::FrequencyHz(100));
    CtimerSampler::start(&mut profiler, &hz);
    let error =
        CtimerSampler::segv_installed(&mut profiler, 10_000_000, Err(os_error(1))).unwrap_err();
    assert_eq!(error.message(), "failed to install safe_access SIGSEGV handler: os error 1");
    assert!(matches!(
        CtimerSampler::start(&mut profiler, &hz),
        CtimerStart::InstallSegv { interval_ns: 10_000_000, .. }
    ));
    let request =
        CtimerSampler::segv_installed(&mut profiler, 10_000_000, Ok(old_action())).unwrap();
    assert_eq!(request.signal, libc::SIGPROF);
    let error =
        CtimerSampler::prof_installed(&mut profiler, 10_000_000, Err(os_error(22))).unwrap_err();
    assert_eq!(error.message(), "failed to start ctimer: os error 22");
    assert!(!is_ctimer_active(&profiler));
    assert!(matches!(
        CtimerSampler::start(&mut profiler, &hz),
        CtimerStart::InstallProf { interval_ns: 10_000_000, .. }
    ));
}

#[test]
fn signal_handler_takes_a_sample() {
    let mut profiler = ProfilerState::new(2);
    let mut sampler = PerfSampler::with_ctimer(start(&mut profiler, 1000));
    let armed = ThreadTimer { id: Some(1) };
    assert!(!sampler.has_pending(&profiler));
    sigprof_handler(&mut profiler, &armed, moment(20), &context(), &load);
    assert!(sampler.has_pending(&profiler));
    sigprof_handler(&mut profiler, &ThreadTimer { id: None }, moment(21), &context(), &load);
    sigprof_handler(&mut profiler, &armed, moment(22), &context(), &load);
    assert_eq!(profiler.buffer.take_dropped_count(), 1);
    let samples = sampler.drain_samples(&mut profiler);
    assert_eq!(samples.len(), 2);
    assert_eq!(samples[0].ip, 0x40_0000);
    assert_eq!(samples[0].callchain, vec![0x40_0000, 0x40_1000]);
    assert_eq!(samples[0].pid, 10);
    assert_eq!(samples[0].tid, 20);
    assert_eq!(samples[0].cpu, 3);
    assert_eq!(samples[0].time, 2_000_000_005);
    assert_eq!(samples[0].period, 5_000_000);
    assert!(samples[0].raw.is_none());
    assert_eq!(samples[1].tid, 21);
    assert_eq!(samples[1].period, 1_000_000);
    assert!(!sampler.has_pending(&profiler));
    assert!(sampler.drain_samples(&mut profiler).is_empty());
}

#[test]
fn disabled_sampler_takes_no_sample() {
    let mut profiler = ProfilerState::new(4);
    let mut sampler = PerfSampler::with_ctimer(start(&mut profiler, 1000));
    let thread = ThreadTimer { id: Some(1) };
    sigprof_handler(&mut profiler, &thread, moment(20), &context(), &load);
    sampler.disable(&mut profiler);
    sigprof_handler(&mut profiler, &thread, moment(21), &context(), &load);
    sampler.enable(&mut profiler);
    sigprof_handler(&mut profiler, &thread, moment(22), &context(), &load);
    let mut tids = Vec::new();
    sampler.for_each_sample(&mut profiler, |s| tids.push(s.tid));
    assert_eq!(tids, vec![20, 22]);
    assert!(!sampler.has_pending(&profiler));
}

#[test]
fn period_does_not_overflow() {
    let mut profiler = ProfilerState::new(4);
    start(&mut profiler, 1);
    profiler.engine.interval_ns = i64::MAX;
    let thread = ThreadTimer { id: Some(1) };
    let mut late = moment(1);
    late.overrun = 2;
    sigprof_handler(&mut profiler, &thread, late, &context(), &load);
    late.overrun = -1;
    sigprof_handler(&mut profiler, &thread, late, &context(), &load);
    let samples = profiler.buffer.drain();
    assert_eq!(samples[0].period, u64::MAX);
    assert_eq!(samples[1].period, i64::MAX as u64);
}

#[test]
fn raw_sample_with_a_wrong_count_is_cut() {
    let raw = RawSample {
        pid: 1,
        tid: 2,
        time: 3,
        cpu: 4,
        period: 5,
        num_frames: 9999,
        frames: [7; 256],
    };
    let sample = raw.to_sample();
    assert_eq!(sample.callchain.len(), 256);
    assert_eq!(sample.ip, 7);
    let empty = RawSample { num_frames: 0, ..raw }.to_sample();
    assert_eq!(empty.ip, 0);
    assert!(empty.callchain.is_empty());
}

#[test]
fn timers_are_forced_only_for_frequencies() {
    let hz = config(SamplingMode::FrequencyHz(99));
    let period = config(SamplingMode::Period(1));
    assert_eq!(PerfSampler::start(&hz, false), StartStep::OpenPerf { pid: 0, per_thread: false });
    assert_eq!(PerfSampler::start(&hz, true), StartStep::StartCtimer { process_wide: true });
    assert_eq!(
        PerfSampler::start_for_pid(7, &period, true),
        StartStep::OpenPerf { pid: 7, per_thread: false }
    );
    assert_eq!(
        PerfSampler::new_per_thread(&hz, true),
        StartStep::StartCtimer { process_wide: false }
    );
    assert_eq!(
        PerfSampler::new_per_thread(&period, true),
        StartStep::OpenPerf { pid: 0, per_thread: true }
    );
}

#[test]
fn blocked_events_fall_back_to_timers() {
    let hz = config(SamplingMode::FrequencyHz(99));
    let period = config(SamplingMode::Period(1));
    let open = |per_thread, config: &SamplerConfig, code| {
        PerfSampler::perf_opened(per_thread, config, Err(os_error(code)))
    };
    assert!(matches!(open(false, &hz, 1), OpenOutcome::StartCtimer { process_wide: true }));
    assert!(matches!(open(false, &period, 1), OpenOutcome::StartCtimer { process_wide: true }));
    assert!(matches!(open(true, &hz, 13), OpenOutcome::StartCtimer { process_wide: false }));
    match open(true, &period, 95) {
        OpenOutcome::Failed(error) => {
            assert_eq!(error.kind(), ErrorKind::Unsupported);
            assert_eq!(
                error.message(),
                "perf_event_open blocked (os error 95) and event-based sampling \
                 has no userspace fallback (requires kernel support)"
            );
        }
        _ => panic!("expected a failure"),
    }
    match open(false, &hz, libc::EINVAL) {
        OpenOutcome::Failed(error) => assert_eq!(error.raw_os_error(), Some(libc::EINVAL)),
        _ => panic!("expected a failure"),
    }
    assert!(matches!(PerfSampler::perf_opened(false, &hz, Ok(())), OpenOutcome::Ready(_)));
}

fn sample(tid: u32) -> Sample {
    Sample {
        ip: 1,
        pid: 2,
        tid,
        time: 3,
        cpu: 4,
        period: 5,
        callchain: vec![1, 2],
        raw: Some(vec![9]),
    }
}

#[test]
fn sampler_on_events_hands_out_what_was_read() {
    let mut profiler = ProfilerState::new(1);
    let hz = config(SamplingMode::FrequencyHz(99));
    let mut perf = match PerfSampler::perf_opened(true, &hz, Ok(())) {
        OpenOutcome::Ready(perf) => perf,
        _ => panic!("the events were opened"),
    };
    assert!(!perf.has_pending(&profiler));
    perf.take_in(vec![sample(1), sample(2)]);
    perf.take_in(vec![sample(3)]);
    assert!(perf.has_pending(&profiler));
    let mut thread = ThreadTimer { id: Some(8) };
    assert!(matches!(
        perf.track_current_thread(&profiler, &thread, 6),
        Tracking::OpenThread { tid: 6 }
    ));
    assert!(matches!(
        perf.stop_tracking_current_thread(&mut thread),
        Untracking::CloseThread
    ));
    assert_eq!(thread.id, Some(8));
    assert!(perf.disable(&mut profiler));
    assert!(perf.enable(&mut profiler));
    let tids: Vec<u32> = perf.drain_samples(&mut profiler).iter().map(|s| s.tid).collect();
    assert_eq!(tids, vec![1, 2, 3]);
    assert!(!perf.has_pending(&profiler));
    assert!(!is_ctimer_active(&profiler));

    let mut timers = PerfSampler::with_ctimer(start(&mut profiler, 1));
    timers.take_in(vec![sample(1)]);
    assert!(!timers.has_pending(&profiler));
    assert!(!timers.disable(&mut profiler));
}

#[test]
fn process_wide_start_registers_the_calling_thread() {
    let mut profiler = ProfilerState::new(4);
    let sampler = start(&mut profiler, 99);
    let fresh = ThreadTimer { id: None };
    match PerfSampler::with_ctimer_process_wide(&mut profiler, sampler, &fresh, 5) {
        ProcessWide::Create { sampler, request } => {
            assert_eq!(request.thread_id, 5);
            let error = match PerfSampler::thread_tracked(&mut profiler, sampler, Err(os_error(11)))
            {
                Ok(_) => panic!("expected a failure"),
                Err(error) => error,
            };
            assert_eq!(error.message(), "ctimer::register_thread failed: os error 11");
        }
        _ => panic!("expected a timer request"),
    }
    assert!(!profiler.engine.running);
    assert!(!is_ctimer_active(&profiler));

    let sampler = start(&mut profiler, 99);
    let armed = ThreadTimer { id: Some(3) };
    assert!(matches!(
        PerfSampler::with_ctimer_process_wide(&mut profiler, sampler, &armed, 5),
        ProcessWide::Ready(_)
    ));
    assert!(is_ctimer_active(&profiler));
}

#[test]
fn thread_is_tracked_while_the_engine_runs() {
    let mut profiler = ProfilerState::new(4);
    let mut sampler = PerfSampler::with_ctimer(start(&mut profiler, 99));
    let mut thread = ThreadTimer { id: None };
    assert!(matches!(
        sampler.track_current_thread(&profiler, &thread, 8),
        Tracking::Create(request) if request.thread_id == 8
    ));
    thread.id = Some(2);
    assert!(matches!(
        sampler.track_current_thread(&profiler, &thread, 8),
        Tracking::Done(Ok(()))
    ));
    match sampler.stop_tracking_current_thread(&mut thread) {
        Untracking::Timer(calls) => assert_eq!(calls.len(), 2),
        Untracking::CloseThread => panic!("the thread has a timer"),
    }
    assert_eq!(thread.id, None);
    sampler.disable(&mut profiler);
    match sampler.track_current_thread(&profiler, &thread, 8) {
        Tracking::Done(Err(error)) => assert_eq!(
            error.message(),
            "ctimer::register_thread failed: ctimer is not running (call start first)"
        ),
        other => panic!("expected a refusal, got {other:?}"),
    }
    assert_eq!(
        registration_failed(&os_error(1)).message(),
        "ctimer::register_thread failed: os error 1"
    );
}

#[test]
fn started_threads_register_only_while_timers_are_in_use() {
    let mut profiler = ProfilerState::new(4);
    let fresh = ThreadTimer { id: None };
    assert!(register_current_thread(&profiler, &fresh, 6).is_none());
    let sampler = start(&mut profiler, 99);
    assert!(matches!(
        register_current_thread(&profiler, &fresh, 6),
        Some(Registration::Create(request)) if request.thread_id == 6
    ));
    sampler.close(&mut profiler);
    assert!(register_current_thread(&profiler, &fresh, 6).is_none());
}

#[test]
fn closed_sampler_is_inactive() {
    let mut profiler = ProfilerState::new(4);
    let sampler = start(&mut profiler, 99);
    sampler.close(&mut profiler);
    assert!(!is_ctimer_active(&profiler));
    assert!(!profiler.engine.running);
    let mut thread = ThreadTimer { id: Some(4) };
    let calls = dial9_telemetry::fp_profiler::ctimer::unregister_thread(&mut thread);
    assert_eq!(calls[1], TimerCall::Delete { timer: 4 });
}
