//! The CPU sampler that programs use: kernel performance events where they
//! are allowed, per-thread timers where they are not.

use vstd::prelude::*;

use crate::ctimer_sampler::{CtimerSampler, ProfilerModel, ProfilerState};
use crate::error::{ErrorKind, IoError};
use crate::fp_profiler::ctimer::{
    self, request_for, CtimerEngine, Registration, ThreadTimer, TimerCall, TimerRequest, TimerSpec,
};
use crate::os::{eacces, enosys, eopnotsupp, eperm};
use crate::sample_buffer::SampleBufferModel;
use crate::sampling::{models, RawSample, Sample, SampleModel, SamplerConfig, SamplingMode};

verus! {

/// What becomes of a thread that asks to be sampled.
#[derive(Debug)]
pub enum Tracking {
    /// The thread is sampled, or why it is not.
    Done(Result<(), IoError>),
    /// Ask the kernel for a timer, then go on with
    /// [`ctimer::timer_created`].
    Create(TimerRequest),
    /// Ask the kernel for performance events of the thread; its answer is the
    /// outcome.
    OpenThread { tid: i32 },
}

/// What it takes to stop sampling a thread.
#[derive(Debug)]
pub enum Untracking {
    /// Carry out the calls on the thread's timer.
    Timer(Vec<TimerCall>),
    /// Close the performance events of the thread.
    CloseThread,
}

/// A sampler on performance events: what was read from the kernel and not yet
/// handed out.
#[derive(Debug)]
pub struct PerfEvents {
    pub samples: Vec<Sample>,
    /// Whether the events are switched on.
    pub enabled: bool,
}

/// Where samples come from.
#[derive(Debug)]
pub enum Backend {
    Perf(PerfEvents),
    Ctimer(CtimerSampler),
}

/// The CPU sampler of a program.
#[derive(Debug)]
pub struct PerfSampler {
    pub inner: Backend,
}

/// The samples of the timer-based sampler that wait to be read.
pub open spec fn timer_samples(profiler: ProfilerModel) -> Seq<SampleModel> {
    profiler.buffer.samples.map_values(|raw: RawSample| raw.sample())
}

/// The profiler after its samples were read.
pub open spec fn after_reading(profiler: ProfilerModel) -> ProfilerModel {
    ProfilerModel {
        buffer: SampleBufferModel { samples: Seq::empty(), dropped: 0, ..profiler.buffer },
        ..profiler
    }
}

/// What becomes of thread `tid`, with its timer, that asks for one more.
pub open spec fn timer_tracking(
    profiler: ProfilerModel,
    thread: ThreadTimer,
    tid: i32,
    tracking: Tracking,
) -> bool {
    if !profiler.engine.running {
        &&& tracking matches Tracking::Done(Err(error))
        &&& error.is_custom(
            ErrorKind::Other,
            "ctimer::register_thread failed: "@ + "ctimer is not running (call start first)"@,
        )
    } else if thread.id is Some {
        tracking matches Tracking::Done(Ok(()))
    } else {
        tracking == Tracking::Create(request_for(tid))
    }
}

/// The calls that take a timer away.
pub open spec fn timer_removal(thread: ThreadTimer) -> Seq<TimerCall> {
    match thread.id {
        Some(timer) => seq![
            TimerCall::SetTime { timer, spec: TimerSpec { sec: 0, nsec: 0 } },
            TimerCall::Delete { timer },
        ],
        None => Seq::<TimerCall>::empty(),
    }
}

/// The error of a thread that could not be given its timer.
pub fn registration_failed(cause: &IoError) -> (error: IoError)
    ensures
        error.is_custom(
            ErrorKind::Other,
            "ctimer::register_thread failed: "@ + cause.described(),
        ),
{
    IoError::caused(ErrorKind::Other, "ctimer::register_thread failed: ", cause)
}

impl CtimerSampler {
    /// Begins to give the calling thread, whose number is `tid`, a timer.
    pub fn track_current_thread(
        &mut self,
        profiler: &ProfilerState,
        thread: &ThreadTimer,
        tid: i32,
    ) -> (tracking: Tracking)
        ensures
            timer_tracking(profiler@, *thread, tid, tracking),
    {
        match ctimer::register_thread(&profiler.engine, thread, tid) {
            Registration::Refused(error) => Tracking::Done(Err(registration_failed(&error))),
            Registration::Registered => Tracking::Done(Ok(())),
            Registration::Create(request) => Tracking::Create(request),
        }
    }

    /// Takes the timer of the calling thread away.
    pub fn stop_tracking_current_thread(&mut self, thread: &mut ThreadTimer) -> (calls: Vec<
        TimerCall,
    >)
        ensures
            final(thread).id is None,
            calls@ == timer_removal(*old(thread)),
    {
        ctimer::unregister_thread(thread)
    }

    /// Whether a sample waits to be read.
    pub fn has_pending(&self, profiler: &ProfilerState) -> (pending: bool)
        ensures
            pending == (timer_samples(profiler@).len() > 0),
    {
        profiler.buffer.has_pending()
    }

    /// Takes the waiting samples, the oldest first. The count of dropped
    /// samples starts anew.
    pub fn drain_samples(&mut self, profiler: &mut ProfilerState) -> (samples: Vec<Sample>)
        requires
            old(profiler)@.wf(),
        ensures
            final(profiler)@.wf(),
            models(samples@) == timer_samples(old(profiler)@),
            final(profiler)@ == after_reading(old(profiler)@),
    {
        let _ = profiler.buffer.take_dropped_count();
        let raw_samples = profiler.buffer.drain();
        let ghost all = timer_samples(old(profiler)@);
        let mut samples: Vec<Sample> = Vec::new();
        let mut i: usize = 0;
        assert(models(samples@) =~= all.take(0));
        while i < raw_samples.len()
            invariant
                i <= raw_samples@.len(),
                all == raw_samples@.map_values(|raw: RawSample| raw.sample()),
                models(samples@) == all.take(i as int),
            decreases raw_samples.len() - i,
        {
            let ghost before = samples@;
            let sample = raw_samples[i].to_sample();
            samples.push(sample);
            i = i + 1;
            assert(models(samples@) =~= models(before).push(sample@));
            assert(models(samples@) =~= all.take(i as int));
        }
        assert(all.take(i as int) =~= all);
        samples
    }

    /// Switches sampling off.
    pub fn disable(&self, profiler: &mut ProfilerState)
        requires
            old(profiler)@.wf(),
        ensures
            final(profiler)@.wf(),
            final(profiler)@ == (ProfilerModel {
                engine: CtimerEngine { running: false, ..old(profiler)@.engine },
                ..old(profiler)@
            }),
    {
        ctimer::stop(&mut profiler.engine);
    }

    /// Switches sampling on.
    pub fn enable(&self, profiler: &mut ProfilerState)
        requires
            old(profiler)@.wf(),
        ensures
            final(profiler)@.wf(),
            final(profiler)@ == (ProfilerModel {
                engine: CtimerEngine { running: true, ..old(profiler)@.engine },
                ..old(profiler)@
            }),
    {
        ctimer::resume(&mut profiler.engine);
    }
}

/// Hands each of the samples to `f`, the first first.
fn show_all<F: FnMut(&Sample)>(samples: &Vec<Sample>, f: F)
    requires
        forall|sample: &Sample| #[trigger] call_requires(f, (sample,)),
    ensures
        forall|i: int|
            0 <= i < samples@.len() ==> call_ensures(f, (&#[trigger] samples@[i],), ()),
{
    let mut f = f;
    let ghost given = f;
    let mut i: usize = 0;
    while i < samples.len()
        invariant
            i <= samples@.len(),
            f == given,
            forall|sample: &Sample| #[trigger] call_requires(given, (sample,)),
            forall|j: int| 0 <= j < i ==> call_ensures(given, (&#[trigger] samples@[j],), ()),
        decreases samples.len() - i,
    {
        f(&samples[i]);
        i = i + 1;
    }
}

/// Whether the error says that the kernel does not allow performance events.
pub open spec fn perf_blocked(error: IoError) -> bool {
    match error.os_code() {
        Some(code) => code == 1 || code == 13 || code == 38 || code == 95,
        None => false,
    }
}

/// Whether the error says that the kernel does not allow performance events:
/// `EACCES`, `EPERM`, `ENOSYS` or `EOPNOTSUPP`.
pub fn is_perf_blocked(error: &IoError) -> (blocked: bool)
    ensures
        blocked == perf_blocked(*error),
{
    match error.raw_os_error() {
        Some(code) => code == eacces() || code == eperm() || code == enosys() || code
            == eopnotsupp(),
        None => false,
    }
}

/// How a start goes on.
#[derive(Copy, Clone, Debug, PartialEq, Eq, Structural)]
pub enum StartStep {
    /// Open performance events for process `pid`, or for single threads, then
    /// go on with [`PerfSampler::perf_opened`].
    OpenPerf { pid: i32, per_thread: bool },
    /// Start the timer-based sampler with [`CtimerSampler::start`]. With
    /// `process_wide` the calling thread is registered too, by
    /// [`PerfSampler::with_ctimer_process_wide`].
    StartCtimer { process_wide: bool },
}

/// How a start goes on once the kernel has answered.
pub enum OpenOutcome {
    /// The sampler runs on performance events.
    Ready(PerfSampler),
    /// Start the timer-based sampler instead.
    StartCtimer { process_wide: bool },
    /// The start failed.
    Failed(IoError),
}

/// How a process-wide start on timers goes on.
pub enum ProcessWide {
    /// The sampler runs.
    Ready(PerfSampler),
    /// Ask the kernel for the timer of the calling thread, then go on with
    /// [`PerfSampler::thread_tracked`].
    Create { sampler: CtimerSampler, request: TimerRequest },
    /// The start failed.
    Failed(IoError),
}

/// The step of a start: timers where they are forced and can do it.
pub open spec fn first_step(
    pid: i32,
    per_thread: bool,
    sampling: SamplingMode,
    force_ctimer: bool,
) -> StartStep {
    if force_ctimer && sampling is FrequencyHz {
        StartStep::StartCtimer { process_wide: !per_thread }
    } else {
        StartStep::OpenPerf { pid, per_thread }
    }
}

impl PerfSampler {
    /// The samples that wait to be read, the oldest first.
    pub open spec fn pending(&self, profiler: ProfilerModel) -> Seq<SampleModel> {
        match self.inner {
            Backend::Perf(events) => models(events.samples@),
            Backend::Ctimer(timers) => timer_samples(profiler),
        }
    }

    /// Whether samples are taken.
    pub open spec fn sampling(&self, profiler: ProfilerModel) -> bool {
        match self.inner {
            Backend::Perf(events) => events.enabled,
            Backend::Ctimer(timers) => profiler.engine.running,
        }
    }

    /// The timers feed the sampler.
    pub open spec fn on_timers(&self) -> bool {
        self.inner is Ctimer
    }

    /// Begins to sample the current process.
    pub fn start(config: &SamplerConfig, force_ctimer: bool) -> (step: StartStep)
        ensures
            step == first_step(0, false, config.sampling, force_ctimer),
    {
        Self::start_for_pid(0, config, force_ctimer)
    }

    /// Begins to sample process `pid`; 0 is the current one and -1 stands for
    /// all. `force_ctimer` asks for timers even where performance events are
    /// allowed; sampling by event count ignores it.
    pub fn start_for_pid(pid: i32, config: &SamplerConfig, force_ctimer: bool) -> (step: StartStep)
        ensures
            step == first_step(pid, false, config.sampling, force_ctimer),
    {
        if force_ctimer {
            match config.sampling {
                SamplingMode::FrequencyHz(_) => {
                    return StartStep::StartCtimer { process_wide: true };
                },
                SamplingMode::Period(_) => {},
            }
        }
        StartStep::OpenPerf { pid, per_thread: false }
    }

    /// Begins to make a sampler that samples only the threads that ask for it.
    pub fn new_per_thread(config: &SamplerConfig, force_ctimer: bool) -> (step: StartStep)
        ensures
            step == first_step(0, true, config.sampling, force_ctimer),
    {
        if force_ctimer {
            match config.sampling {
                SamplingMode::FrequencyHz(_) => {
                    return StartStep::StartCtimer { process_wide: false };
                },
                SamplingMode::Period(_) => {},
            }
        }
        StartStep::OpenPerf { pid: 0, per_thread: true }
    }

    /// Goes on once the kernel has answered the request for performance
    /// events. Where it does not allow them, timers take their place; only
    /// single threads cannot be sampled by event count then.
    pub fn perf_opened(
        per_thread: bool,
        config: &SamplerConfig,
        opened: Result<(), IoError>,
    ) -> (outcome: OpenOutcome)
        ensures
            match opened {
                Ok(()) => {
                    &&& outcome is Ready
                    &&& !outcome->Ready_0.on_timers()
                    &&& forall|p: ProfilerModel| #[trigger]
                        outcome->Ready_0.pending(p) == Seq::<SampleModel>::empty()
                    &&& forall|p: ProfilerModel| #[trigger] outcome->Ready_0.sampling(p)
                },
                Err(error) => if !perf_blocked(error) {
                    outcome == OpenOutcome::Failed(error)
                } else if !per_thread || config.sampling is FrequencyHz {
                    outcome == (OpenOutcome::StartCtimer { process_wide: !per_thread })
                } else {
                    &&& outcome is Failed
                    &&& outcome->Failed_0.is_custom(
                        ErrorKind::Unsupported,
                        "perf_event_open blocked ("@ + error.described()
                            + ") and event-based sampling has no userspace fallback (requires kernel support)"@,
                    )
                },
            },
    {
        match opened {
            Ok(()) => {
                let samples: Vec<Sample> = Vec::new();
                assert(models(samples@) =~= Seq::empty());
                OpenOutcome::Ready(
                    PerfSampler { inner: Backend::Perf(PerfEvents { samples, enabled: true }) },
                )
            },
            Err(error) => {
                if !is_perf_blocked(&error) {
                    return OpenOutcome::Failed(error);
                }
                if !per_thread {
                    return OpenOutcome::StartCtimer { process_wide: true };
                }
                match config.sampling {
                    SamplingMode::FrequencyHz(_) => OpenOutcome::StartCtimer {
                        process_wide: false,
                    },
                    SamplingMode::Period(_) => {
                        let mut message = "perf_event_open blocked (".to_owned();
                        message.append(error.message());
                        message.append(
                            ") and event-based sampling has no userspace fallback (requires kernel support)",
                        );
                        OpenOutcome::Failed(IoError::new(ErrorKind::Unsupported, message))
                    },
                }
            },
        }
    }

    /// A sampler that the timers feed. It samples the threads that ask for it.
    pub fn with_ctimer(sampler: CtimerSampler) -> (perf: PerfSampler)
        ensures
            perf.inner == Backend::Ctimer(sampler),
    {
        PerfSampler { inner: Backend::Ctimer(sampler) }
    }

    /// Makes a sampler that the timers feed and registers the calling thread.
    pub fn with_ctimer_process_wide(
        profiler: &mut ProfilerState,
        sampler: CtimerSampler,
        thread: &ThreadTimer,
        tid: i32,
    ) -> (step: ProcessWide)
        requires
            old(profiler)@.wf(),
        ensures
            final(profiler)@.wf(),
            !old(profiler)@.engine.running ==> {
                &&& step is Failed
                &&& timer_tracking(
                    old(profiler)@,
                    *thread,
                    tid,
                    Tracking::Done(Err(step->Failed_0)),
                )
                &&& final(profiler)@ == (ProfilerModel { active: false, ..old(profiler)@ })
            },
            old(profiler)@.engine.running ==> final(profiler)@ == old(profiler)@,
            old(profiler)@.engine.running && thread.id is Some ==> step is Ready
                && step->Ready_0.on_timers(),
            old(profiler)@.engine.running && thread.id is None ==> step is Create && step->request
                == request_for(tid),
    {
        let mut sampler = sampler;
        match sampler.track_current_thread(profiler, thread, tid) {
            Tracking::Done(Err(error)) => {
                sampler.close(profiler);
                ProcessWide::Failed(error)
            },
            Tracking::Create(request) => ProcessWide::Create { sampler, request },
            _ => ProcessWide::Ready(Self::with_ctimer(sampler)),
        }
    }

    /// Ends a process-wide start once the calling thread has its timer, or the
    /// kernel refused it one.
    pub fn thread_tracked(
        profiler: &mut ProfilerState,
        sampler: CtimerSampler,
        outcome: Result<(), IoError>,
    ) -> (result: Result<PerfSampler, IoError>)
        requires
            old(profiler)@.wf(),
        ensures
            final(profiler)@.wf(),
            match outcome {
                Ok(()) => {
                    &&& result is Ok
                    &&& result->Ok_0.on_timers()
                    &&& final(profiler)@ == old(profiler)@
                },
                Err(cause) => {
                    &&& result is Err
                    &&& result->Err_0.is_custom(
                        ErrorKind::Other,
                        "ctimer::register_thread failed: "@ + cause.described(),
                    )
                    &&& final(profiler)@ == (ProfilerModel {
                        engine: CtimerEngine { running: false, ..old(profiler)@.engine },
                        active: false,
                        ..old(profiler)@
                    })
                },
            },
    {
        match outcome {
            Ok(()) => Ok(Self::with_ctimer(sampler)),
            Err(error) => {
                sampler.close(profiler);
                Err(registration_failed(&error))
            },
        }
    }

    /// Begins to sample the calling thread, whose number is `tid`.
    pub fn track_current_thread(
        &mut self,
        profiler: &ProfilerState,
        thread: &ThreadTimer,
        tid: i32,
    ) -> (tracking: Tracking)
        ensures
            *final(self) == *old(self),
            if old(self).on_timers() {
                timer_tracking(profiler@, *thread, tid, tracking)
            } else {
                tracking == (Tracking::OpenThread { tid })
            },
    {
        match &mut self.inner {
            Backend::Perf(_) => Tracking::OpenThread { tid },
            Backend::Ctimer(timers) => timers.track_current_thread(profiler, thread, tid),
        }
    }

    /// Stops sampling the calling thread.
    pub fn stop_tracking_current_thread(&mut self, thread: &mut ThreadTimer) -> (untracking:
        Untracking)
        ensures
            *final(self) == *old(self),
            old(self).on_timers() ==> {
                &&& final(thread).id is None
                &&& untracking is Timer
                &&& untracking->Timer_0@ == timer_removal(*old(thread))
            },
            !old(self).on_timers() ==> {
                &&& *final(thread) == *old(thread)
                &&& untracking is CloseThread
            },
    {
        match &mut self.inner {
            Backend::Perf(_) => Untracking::CloseThread,
            Backend::Ctimer(timers) => Untracking::Timer(
                timers.stop_tracking_current_thread(thread),
            ),
        }
    }

    /// Takes in samples that were read from the kernel's performance events. A
    /// sampler that the timers feed has none.
    pub fn take_in(&mut self, samples: Vec<Sample>)
        ensures
            final(self).on_timers() == old(self).on_timers(),
            old(self).on_timers() ==> *final(self) == *old(self),
            forall|p: ProfilerModel| #[trigger]
                final(self).pending(p) == if old(self).on_timers() {
                    old(self).pending(p)
                } else {
                    old(self).pending(p) + models(samples@)
                },
            forall|p: ProfilerModel| #[trigger] final(self).sampling(p) == old(self).sampling(p),
    {
        let mut samples = samples;
        if let Backend::Perf(events) = &mut self.inner {
            events.samples.append(&mut samples);
        }
        proof {
            if !old(self).on_timers() {
                let before = old(self).inner->Perf_0.samples@;
                let after = self.inner->Perf_0.samples@;
                assert(models(after) =~= models(before) + models(after.skip(before.len() as int)));
            }
        }
    }

    /// Whether a sample waits to be read.
    pub fn has_pending(&self, profiler: &ProfilerState) -> (pending: bool)
        ensures
            pending == (self.pending(profiler@).len() > 0),
    {
        match &self.inner {
            Backend::Perf(events) => events.samples.len() > 0,
            Backend::Ctimer(timers) => timers.has_pending(profiler),
        }
    }

    /// Takes the waiting samples and hands each to `f`, the oldest first.
    pub fn for_each_sample<F: FnMut(&Sample)>(&mut self, profiler: &mut ProfilerState, f: F)
        requires
            old(profiler)@.wf(),
            forall|sample: &Sample| #[trigger] call_requires(f, (sample,)),
        ensures
            final(profiler)@.wf(),
            final(profiler)@ == if old(self).on_timers() {
                after_reading(old(profiler)@)
            } else {
                old(profiler)@
            },
            exists|samples: Seq<Sample>|
                {
                    &&& #[trigger] models(samples) == old(self).pending(old(profiler)@)
                    &&& forall|i: int|
                        0 <= i < samples.len() ==> call_ensures(f, (&#[trigger] samples[i],), ())
                },
            final(self).on_timers() == old(self).on_timers(),
            final(self).pending(final(profiler)@).len() == 0,
            final(self).sampling(final(profiler)@) == old(self).sampling(old(profiler)@),
    {
        let samples = self.drain_samples(profiler);
        show_all(&samples, f);
        assert(models(samples@) == old(self).pending(old(profiler)@));
    }

    /// Takes the waiting samples, the oldest first.
    pub fn drain_samples(&mut self, profiler: &mut ProfilerState) -> (samples: Vec<Sample>)
        requires
            old(profiler)@.wf(),
        ensures
            final(profiler)@.wf(),
            final(profiler)@ == if old(self).on_timers() {
                after_reading(old(profiler)@)
            } else {
                old(profiler)@
            },
            models(samples@) == old(self).pending(old(profiler)@),
            final(self).on_timers() == old(self).on_timers(),
            final(self).pending(final(profiler)@).len() == 0,
            final(self).sampling(final(profiler)@) == old(self).sampling(old(profiler)@),
    {
        match &mut self.inner {
            Backend::Perf(events) => {
                let mut samples: Vec<Sample> = Vec::new();
                core::mem::swap(&mut samples, &mut events.samples);
                samples
            },
            Backend::Ctimer(timers) => timers.drain_samples(profiler),
        }
    }

    /// Switches sampling off. Tells whether the kernel's performance events
    /// are to be switched off too.
    pub fn disable(&mut self, profiler: &mut ProfilerState) -> (events: bool)
        requires
            old(profiler)@.wf(),
        ensures
            final(profiler)@.wf(),
            events == !old(self).on_timers(),
            final(self).on_timers() == old(self).on_timers(),
            final(profiler)@ == if old(self).on_timers() {
                ProfilerModel {
                    engine: CtimerEngine { running: false, ..old(profiler)@.engine },
                    ..old(profiler)@
                }
            } else {
                old(profiler)@
            },
            !final(self).sampling(final(profiler)@),
            final(self).pending(final(profiler)@) == old(self).pending(old(profiler)@),
    {
        match &mut self.inner {
            Backend::Perf(events) => {
                events.enabled = false;
                true
            },
            Backend::Ctimer(timers) => {
                timers.disable(profiler);
                false
            },
        }
    }

    /// Switches sampling on. Tells whether the kernel's performance events are
    /// to be switched on too.
    pub fn enable(&mut self, profiler: &mut ProfilerState) -> (events: bool)
        requires
            old(profiler)@.wf(),
        ensures
            final(profiler)@.wf(),
            events == !old(self).on_timers(),
            final(self).on_timers() == old(self).on_timers(),
            final(profiler)@ == if old(self).on_timers() {
                ProfilerModel {
                    engine: CtimerEngine { running: true, ..old(profiler)@.engine },
                    ..old(profiler)@
                }
            } else {
                old(profiler)@
            },
            final(self).sampling(final(profiler)@),
            final(self).pending(final(profiler)@) == old(self).pending(old(profiler)@),
    {
        match &mut self.inner {
            Backend::Perf(events) => {
                events.enabled = true;
                true
            },
            Backend::Ctimer(timers) => {
                timers.enable(profiler);
                false
            },
        }
    }
}

/// Performance events are blocked exactly where the kernel answers that they
/// are not permitted (1, 13), not there (38) or not supported (95). Any other
/// answer, and any error that is not the kernel's, is an error.
pub proof fn law_only_these_answers_block_performance_events(error: IoError)
    ensures
        perf_blocked(error) ==> error is Os,
        error matches IoError::Os { code, text } ==> (perf_blocked(error) <==> set![
            1i32,
            13i32,
            38i32,
            95i32,
        ].contains(code)),
{
}

/// Timers are started at once exactly where they are forced and samples are
/// taken by frequency. Otherwise performance events are opened for the process
/// or the threads that were asked for.
pub proof fn law_timers_are_first_only_where_forced(
    pid: i32,
    per_thread: bool,
    hz: u64,
    period: u64,
    forced: bool,
)
    ensures
        first_step(pid, per_thread, SamplingMode::FrequencyHz(hz), true)
            == (StartStep::StartCtimer { process_wide: !per_thread }),
        first_step(pid, per_thread, SamplingMode::FrequencyHz(hz), false) == (StartStep::OpenPerf {
            pid,
            per_thread,
        }),
        first_step(pid, per_thread, SamplingMode::Period(period), forced)
            == (StartStep::OpenPerf { pid, per_thread }),
{
}

/// The samples that wait are those that the signal handler wrote and nobody has
/// read, each once and the oldest first. After they were read none waits, none
/// counts as dropped, and nothing else has changed.
pub proof fn law_reading_takes_every_sample_once(profiler: ProfilerModel, i: int)
    requires
        0 <= i < profiler.buffer.samples.len(),
    ensures
        timer_samples(profiler).len() == profiler.buffer.samples.len(),
        timer_samples(profiler)[i].tid == profiler.buffer.samples[i].tid,
        timer_samples(profiler)[i].time == profiler.buffer.samples[i].time,
        timer_samples(profiler)[i].period == profiler.buffer.samples[i].period,
        timer_samples(profiler)[i].pid == profiler.buffer.samples[i].pid,
        timer_samples(profiler)[i].cpu == profiler.buffer.samples[i].cpu,
        timer_samples(profiler)[i] == profiler.buffer.samples[i].sample(),
        timer_samples(after_reading(profiler)).len() == 0,
        after_reading(profiler).buffer.dropped == 0,
        after_reading(profiler).buffer.capacity == profiler.buffer.capacity,
        after_reading(profiler).engine == profiler.engine,
        after_reading(profiler).handler == profiler.handler,
        after_reading(profiler).active == profiler.active,
{
}

/// A thread that asks to be sampled gets a timer of its own exactly where the
/// engine runs and it has none; where it has one nothing is left to do, and
/// where the engine is off it is refused.
pub proof fn law_tracking_gives_each_thread_one_timer(
    profiler: ProfilerModel,
    thread: ThreadTimer,
    tid: i32,
    tracking: Tracking,
)
    requires
        timer_tracking(profiler, thread, tid, tracking),
    ensures
        tracking is Create <==> profiler.engine.running && thread.id is None,
        tracking matches Tracking::Create(request) ==> request.thread_id == tid,
        tracking matches Tracking::Done(result) ==> (result is Ok <==> profiler.engine.running),
        !(tracking is OpenThread),
{
}

/// The timer that a thread has is stopped and then deleted; no other timer is
/// touched.
pub proof fn law_untracking_removes_the_own_timer(timer: usize)
    ensures
        timer_removal(ThreadTimer { id: None }).len() == 0,
        timer_removal(ThreadTimer { id: Some(timer) }).len() == 2,
        timer_removal(ThreadTimer { id: Some(timer) })[0] == (TimerCall::SetTime {
            timer,
            spec: TimerSpec { sec: 0, nsec: 0 },
        }),
        timer_removal(ThreadTimer { id: Some(timer) })[1] == (TimerCall::Delete { timer }),
{
}

/// What waits and whether samples are taken is asked of the backend in use, and
/// of that alone.
pub proof fn law_each_backend_answers_for_itself(
    events: PerfEvents,
    timers: CtimerSampler,
    profiler: ProfilerModel,
)
    ensures
        ({
            let perf = PerfSampler { inner: Backend::Perf(events) };
            &&& !perf.on_timers()
            &&& perf.pending(profiler) == models(events.samples@)
            &&& perf.sampling(profiler) == events.enabled
        }),
        ({
            let perf = PerfSampler { inner: Backend::Ctimer(timers) };
            &&& perf.on_timers()
            &&& perf.pending(profiler).len() == profiler.buffer.samples.len()
            &&& perf.sampling(profiler) == profiler.engine.running
        }),
{
}

} // verus!
