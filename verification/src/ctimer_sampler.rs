//! The CPU sampler that works without kernel support for performance events.
//!
//! Per-thread CPU timers fire SIGPROF; the signal handler walks the stack and
//! leaves a sample in a buffer that the reader drains.

use vstd::prelude::*;

use crate::error::{ErrorKind, IoError};
use crate::fp_profiler::context::MachineContext;
use crate::fp_profiler::ctimer::{self, registration, CtimerEngine, Registration, ThreadTimer};
use crate::fp_profiler::unwind::{
    holds_chain, holds_frame, law_return_addresses_are_plausible,
    law_walk_captures_the_chain, pcs_of, unwind_from_ucontext, walked, Frame, MAX_FRAMES,
};
use crate::fp_profiler::{
    handler_installed, install_handler, HandlerState, SigactionRequest, SignalAction,
};
use crate::sample_buffer::{SampleBuffer, SampleBufferModel};
use crate::sampling::{RawSample, SamplerConfig, SamplingMode};
use crate::text::{decimal, to_decimal};

verus! {

/// What the timer-based profiler of a process shares between its threads and
/// its signal handlers.
pub struct ProfilerState {
    pub engine: CtimerEngine,
    pub handler: HandlerState,
    /// Whether timer-based sampling is in use.
    pub active: bool,
    pub buffer: SampleBuffer,
}

/// What the profiler state holds.
#[verifier::ext_equal]
pub struct ProfilerModel {
    pub engine: CtimerEngine,
    pub handler: HandlerState,
    pub active: bool,
    pub buffer: SampleBufferModel,
}

impl View for ProfilerState {
    type V = ProfilerModel;

    open spec fn view(&self) -> ProfilerModel {
        ProfilerModel {
            engine: self.engine,
            handler: self.handler,
            active: self.active,
            buffer: self.buffer@,
        }
    }
}

impl ProfilerModel {
    /// What every operation keeps.
    pub open spec fn wf(self) -> bool {
        self.engine.wf() && self.buffer.wf()
    }
}

impl ProfilerState {
    /// A profiler that was never started, with room for `capacity` samples.
    pub fn new(capacity: usize) -> (profiler: ProfilerState)
        ensures
            profiler@.wf(),
            profiler@.engine == (CtimerEngine { interval_ns: 0, running: false }),
            !profiler@.handler.installed,
            !profiler@.active,
            profiler@.buffer == (SampleBufferModel {
                capacity: capacity as nat,
                samples: Seq::empty(),
                dropped: 0,
            }),
    {
        ProfilerState {
            engine: CtimerEngine::new(),
            handler: HandlerState::new(),
            active: false,
            buffer: SampleBuffer::new(capacity),
        }
    }
}

/// Whether timer-based sampling is in use. Threads that start then register
/// their timers.
pub fn is_ctimer_active(profiler: &ProfilerState) -> (active: bool)
    ensures
        active == profiler@.active,
{
    profiler.active
}

/// Begins to give thread `tid`, which just started, its timer. Does nothing
/// unless timer-based sampling is in use.
pub fn register_current_thread(
    profiler: &ProfilerState,
    thread: &ThreadTimer,
    tid: i32,
) -> (step: Option<Registration>)
    ensures
        step is Some <==> profiler@.active,
        step matches Some(s) ==> registration(profiler@.engine, *thread, tid, s),
{
    if is_ctimer_active(profiler) {
        Some(ctimer::register_thread(&profiler.engine, thread, tid))
    } else {
        None
    }
}

/// What the signal handler reads off the system.
#[derive(Copy, Clone, Debug, PartialEq, Eq, Structural)]
pub struct Moment {
    pub pid: u32,
    pub tid: u32,
    pub cpu: u32,
    /// Seconds of the monotonic clock.
    pub sec: i64,
    /// Nanoseconds of the monotonic clock within the second.
    pub nsec: i64,
    /// How often the thread's timer fired while its signal was pending.
    pub overrun: i32,
}

impl Moment {
    /// The clock reading is one that fits a timestamp.
    pub open spec fn wf(self) -> bool {
        self.sec >= 0 && self.nsec >= 0 && self.sec * 1_000_000_000 + self.nsec <= u64::MAX
    }
}

/// The CPU time that a sample stands for: one interval, and one more for each
/// time the timer overran.
pub open spec fn weight(interval_ns: i64, thread: ThreadTimer, overrun: i32) -> u64 {
    let overruns = if thread.id is Some && overrun > 0 {
        overrun as int
    } else {
        0
    };
    let period = interval_ns * (1 + overruns);
    if period > u64::MAX {
        u64::MAX
    } else {
        period as u64
    }
}

/// The frames that were filled, as they were captured.
pub open spec fn captured<L: Fn(usize) -> usize>(
    sample: RawSample,
    context: &MachineContext,
    load: L,
) -> bool {
    let chain = sample.chain();
    &&& 1 <= sample.num_frames <= MAX_FRAMES
    &&& chain[0] == context.pc()
    &&& exists|pcs: Seq<usize>|
        {
            &&& #[trigger] walked(
                context.arch(),
                load,
                context.fp(),
                context.sp(),
                (MAX_FRAMES - 1) as nat,
                pcs,
            )
            &&& chain.skip(1) == pcs.map_values(|pc: usize| pc as u64)
        }
}

/// Handles a SIGPROF: takes a sample of the interrupted thread, unless sampling
/// is off or the buffer is full.
pub fn sigprof_handler<L: Fn(usize) -> usize>(
    profiler: &mut ProfilerState,
    thread: &ThreadTimer,
    moment: Moment,
    context: &MachineContext,
    load: &L,
)
    requires
        old(profiler)@.wf(),
        moment.wf(),
        forall|addr: usize| #[trigger] call_requires(load, (addr,)),
    ensures
        final(profiler)@.wf(),
        !old(profiler)@.engine.running ==> final(profiler)@ == old(profiler)@,
        old(profiler)@.engine.running && old(profiler)@.buffer.full() ==> final(profiler)@ == (
        ProfilerModel { buffer: old(profiler)@.buffer.missed(), ..old(profiler)@ }),
        old(profiler)@.engine.running && !old(profiler)@.buffer.full() ==> {
            let sample = final(profiler)@.buffer.samples.last();
            &&& final(profiler)@ == (ProfilerModel {
                buffer: SampleBufferModel {
                    samples: old(profiler)@.buffer.samples.push(sample),
                    ..old(profiler)@.buffer
                },
                ..old(profiler)@
            })
            &&& sample.pid == moment.pid
            &&& sample.tid == moment.tid
            &&& sample.cpu == moment.cpu
            &&& sample.time == moment.sec * 1_000_000_000 + moment.nsec
            &&& sample.period == weight(
                old(profiler)@.engine.interval_ns,
                *thread,
                moment.overrun,
            )
            &&& captured(sample, context, *load)
            &&& moment.overrun <= 0 || thread.id is None ==> sample.period
                == old(profiler)@.engine.interval_ns
            &&& moment.overrun > 0 && thread.id is Some ==> sample.period == if old(
                profiler,
            )@.engine.interval_ns * (moment.overrun + 1) <= u64::MAX {
                old(profiler)@.engine.interval_ns * (moment.overrun + 1)
            } else {
                u64::MAX as int
            }
        },
        old(profiler)@.engine.running && old(profiler)@.buffer.dropped < u64::MAX ==> {
            let before = old(profiler)@.buffer;
            let after = final(profiler)@.buffer;
            after.samples.len() + after.dropped == before.samples.len() + before.dropped + 1
        },
{
    if !ctimer::is_running(&profiler.engine) {
        return ;
    }
    if !profiler.buffer.claim_slot() {
        return ;
    }
    let time: u64 = moment.sec as u64 * 1_000_000_000 + moment.nsec as u64;
    let interval: u64 = ctimer::interval_ns(&profiler.engine) as u64;
    let overruns: u64 = match ctimer::current_thread_timer_id(thread) {
        Some(_) => if moment.overrun > 0 {
            moment.overrun as u64
        } else {
            0
        },
        None => 0,
    };
    let period: u64 = match interval.checked_mul(1 + overruns) {
        Some(period) => period,
        None => u64::MAX,
    };
    proof {
        let once = profiler@.engine.interval_ns as int;
        let more = moment.overrun as int;
        assert(once * (1 + more) == once * (more + 1)) by (nonlinear_arith);
        assert(once * (1 + 0) == once) by (nonlinear_arith);
        assert(interval == once);
        assert(overruns == 0 ==> interval * (1 + overruns) == once);
        assert(more > 0 ==> once * (more + 1) >= 0) by (nonlinear_arith)
            requires
                once >= 0,
        ;
    }
    let mut frames: [Frame; 256] = [Frame { pc: 0 };256];
    let count: usize = unwind_from_ucontext(context, load, &mut frames);
    let mut pcs: [u64; 256] = [0u64;256];
    let mut i: usize = 0;
    while i < count
        invariant
            i <= count <= 256,
            forall|j: int| 0 <= j < i ==> #[trigger] pcs@[j] == frames@[j].pc as u64,
        decreases count - i,
    {
        pcs[i] = frames[i].pc as u64;
        i = i + 1;
    }
    let sample = RawSample {
        pid: moment.pid,
        tid: moment.tid,
        time,
        cpu: moment.cpu,
        period,
        num_frames: count as u32,
        frames: pcs,
    };
    proof {
        let walk = pcs_of(frames@.subrange(1, count as int));
        assert(sample.chain().skip(1) =~= walk.map_values(|pc: usize| pc as u64));
        assert(captured(sample, context, *load));
    }
    profiler.buffer.commit(sample);
}

/// The sampler that the timers feed.
#[derive(Debug)]
pub struct CtimerSampler {}

/// How a start goes on.
#[derive(Debug)]
pub enum CtimerStart {
    /// The start failed.
    Failed(IoError),
    /// Ask the kernel to register the SIGSEGV handler, then go on with
    /// [`CtimerSampler::segv_installed`].
    InstallSegv { request: SigactionRequest, interval_ns: i64 },
    /// Ask the kernel to register the SIGPROF handler, then go on with
    /// [`CtimerSampler::prof_installed`].
    InstallProf { request: SigactionRequest, interval_ns: i64 },
}

/// The sampling interval at `hz` samples per second: 0 where they would be
/// less than a nanosecond apart.
pub open spec fn interval_of(hz: u64) -> i64 {
    if hz == 0 {
        1_000_000_000
    } else {
        (1_000_000_000int / hz as int) as i64
    }
}

/// Why sampling once every `period` events is refused.
pub open spec fn period_refusal(period: u64) -> Seq<char> {
    "ctimer fallback does not support period-based sampling (SamplingMode::Period("@ + decimal(
        period as nat,
    )
        + ")); event-based sources like context switches require perf_event_open (available on ECS EC2 / Managed Instances, not Fargate)"@
}

/// The registration of the SIGPROF handler, or why the interval is refused.
pub open spec fn timer_request(
    interval_ns: i64,
    request: Result<SigactionRequest, IoError>,
) -> bool {
    if interval_ns > 0 {
        request == Ok::<SigactionRequest, IoError>(
            SigactionRequest { signal: 27, flags: 0x1000_0004 },
        )
    } else {
        request is Err && request->Err_0.is_custom(
            ErrorKind::Other,
            "failed to start ctimer: "@ + "interval must be positive"@,
        )
    }
}

impl CtimerSampler {
    /// Begins to start the sampler. It registers no thread.
    ///
    /// A frequency of 0 counts as 1. Sampling by event count needs the kernel
    /// and is refused.
    pub fn start(profiler: &mut ProfilerState, config: &SamplerConfig) -> (step: CtimerStart)
        requires
            old(profiler)@.wf(),
        ensures
            final(profiler)@.wf(),
            match config.sampling {
                SamplingMode::Period(period) => {
                    &&& final(profiler)@ == old(profiler)@
                    &&& step is Failed
                    &&& step->Failed_0.is_custom(ErrorKind::Unsupported, period_refusal(period))
                },
                SamplingMode::FrequencyHz(hz) => {
                    &&& final(profiler)@ == (ProfilerModel {
                        handler: HandlerState { installed: true, ..old(profiler)@.handler },
                        ..old(profiler)@
                    })
                    &&& !old(profiler)@.handler.installed ==> step == (CtimerStart::InstallSegv {
                        request: SigactionRequest { signal: 11, flags: 0x4000_0004 },
                        interval_ns: interval_of(hz),
                    })
                    &&& old(profiler)@.handler.installed ==> match step {
                        CtimerStart::InstallProf { request, interval_ns } => {
                            &&& interval_ns == interval_of(hz)
                            &&& timer_request(interval_ns, Ok(request))
                        },
                        CtimerStart::Failed(error) => timer_request(interval_of(hz), Err(error)),
                        CtimerStart::InstallSegv { request, interval_ns } => false,
                    }
                },
            },
    {
        let hz: u64 = match config.sampling {
            SamplingMode::FrequencyHz(hz) => if hz < 1 {
                1
            } else {
                hz
            },
            SamplingMode::Period(period) => {
                let mut message =
                    "ctimer fallback does not support period-based sampling (SamplingMode::Period(".to_owned();
                message.append(to_decimal(period).as_str());
                message.append(
                    ")); event-based sources like context switches require perf_event_open (available on ECS EC2 / Managed Instances, not Fargate)",
                );
                return CtimerStart::Failed(IoError::new(ErrorKind::Unsupported, message));
            },
        };
        let interval_ns: i64 = (1_000_000_000u64 / hz) as i64;
        match install_handler(&mut profiler.handler) {
            Some(request) => CtimerStart::InstallSegv { request, interval_ns },
            None => match Self::start_engine(interval_ns) {
                Ok(request) => CtimerStart::InstallProf { request, interval_ns },
                Err(error) => CtimerStart::Failed(error),
            },
        }
    }

    fn start_engine(interval_ns: i64) -> (request: Result<SigactionRequest, IoError>)
        ensures
            timer_request(interval_ns, request),
    {
        match ctimer::start(interval_ns) {
            Ok(request) => Ok(request),
            Err(error) => Err(
                IoError::caused(ErrorKind::Other, "failed to start ctimer: ", &error),
            ),
        }
    }

    /// Goes on once the kernel has answered for the SIGSEGV handler.
    pub fn segv_installed(
        profiler: &mut ProfilerState,
        interval_ns: i64,
        outcome: Result<SignalAction, IoError>,
    ) -> (request: Result<SigactionRequest, IoError>)
        requires
            old(profiler)@.wf(),
        ensures
            final(profiler)@.wf(),
            match outcome {
                Ok(action) => {
                    &&& final(profiler)@ == (ProfilerModel {
                        handler: HandlerState {
                            old_action: Some(action),
                            ..old(profiler)@.handler
                        },
                        ..old(profiler)@
                    })
                    &&& timer_request(interval_ns, request)
                },
                Err(cause) => {
                    &&& final(profiler)@ == (ProfilerModel {
                        handler: HandlerState { installed: false, ..old(profiler)@.handler },
                        ..old(profiler)@
                    })
                    &&& request is Err
                    &&& request->Err_0.is_custom(
                        ErrorKind::Other,
                        "failed to install safe_access SIGSEGV handler: "@ + cause.described(),
                    )
                },
            },
    {
        match handler_installed(&mut profiler.handler, outcome) {
            Ok(()) => Self::start_engine(interval_ns),
            Err(error) => Err(
                IoError::caused(
                    ErrorKind::Other,
                    "failed to install safe_access SIGSEGV handler: ",
                    &error,
                ),
            ),
        }
    }

    /// Ends the start once the kernel has answered for the SIGPROF handler.
    pub fn prof_installed(
        profiler: &mut ProfilerState,
        interval_ns: i64,
        outcome: Result<(), IoError>,
    ) -> (sampler: Result<CtimerSampler, IoError>)
        requires
            old(profiler)@.wf(),
            interval_ns > 0,
        ensures
            final(profiler)@.wf(),
            match outcome {
                Ok(()) => {
                    &&& sampler is Ok
                    &&& final(profiler)@ == (ProfilerModel {
                        engine: CtimerEngine { interval_ns, running: true },
                        active: true,
                        ..old(profiler)@
                    })
                },
                Err(cause) => {
                    &&& sampler is Err
                    &&& sampler->Err_0.is_custom(
                        ErrorKind::Other,
                        "failed to start ctimer: "@ + cause.described(),
                    )
                    &&& final(profiler)@ == old(profiler)@
                },
            },
    {
        match ctimer::started(&mut profiler.engine, interval_ns, outcome) {
            Ok(()) => {
                profiler.active = true;
                Ok(CtimerSampler {  })
            },
            Err(error) => Err(
                IoError::caused(ErrorKind::Other, "failed to start ctimer: ", &error),
            ),
        }
    }

    /// Ends the sampler: sampling stops and threads no longer register.
    pub fn close(self, profiler: &mut ProfilerState)
        requires
            old(profiler)@.wf(),
        ensures
            final(profiler)@.wf(),
            final(profiler)@ == (ProfilerModel {
                engine: CtimerEngine { running: false, ..old(profiler)@.engine },
                active: false,
                ..old(profiler)@
            }),
    {
        ctimer::stop(&mut profiler.engine);
        profiler.active = false;
    }
}

/// A sample stands for exactly one interval where the timer did not overrun or
/// the thread has none of its own; one more overrun of its own timer adds
/// exactly one interval, as long as the sum fits.
pub proof fn law_each_overrun_adds_one_interval(
    interval_ns: i64,
    thread: ThreadTimer,
    timer: usize,
    overrun: i32,
)
    requires
        interval_ns >= 0,
    ensures
        overrun <= 0 ==> weight(interval_ns, thread, overrun) == interval_ns,
        weight(interval_ns, ThreadTimer { id: None }, overrun) == interval_ns,
        0 <= overrun < i32::MAX && weight(interval_ns, ThreadTimer { id: Some(timer) }, overrun)
            + interval_ns <= u64::MAX ==> weight(
            interval_ns,
            ThreadTimer { id: Some(timer) },
            (overrun + 1) as i32,
        ) == weight(interval_ns, ThreadTimer { id: Some(timer) }, overrun) + interval_ns,
        0 <= overrun < i32::MAX && weight(interval_ns, ThreadTimer { id: Some(timer) }, overrun)
            + interval_ns > u64::MAX ==> weight(
            interval_ns,
            ThreadTimer { id: Some(timer) },
            (overrun + 1) as i32,
        ) == u64::MAX,
{
    assert(interval_ns * 1 == interval_ns);
    if 0 <= overrun < i32::MAX {
        assert(interval_ns * (1 + (overrun + 1)) == interval_ns * (1 + overrun) + interval_ns)
            by (nonlinear_arith);
        assert(interval_ns * (1 + overrun) >= 0) by (nonlinear_arith)
            requires
                interval_ns >= 0,
                overrun >= 0,
        ;
    }
}

/// The CPU time that a thread's samples stand for is what its timer measured:
/// samples with so many overruns between them stand for one interval per time
/// that the timer fired, as long as the sum fits.
pub proof fn law_samples_stand_for_the_time_that_was_used(
    interval_ns: i64,
    timer: usize,
    first: i32,
    second: i32,
)
    requires
        interval_ns >= 0,
        first >= 0,
        second >= 0,
        interval_ns * (first + second + 2) <= u64::MAX,
    ensures
        weight(interval_ns, ThreadTimer { id: Some(timer) }, first) + weight(
            interval_ns,
            ThreadTimer { id: Some(timer) },
            second,
        ) == interval_ns * (first + second + 2),
{
    assert(interval_ns * (1 + first) + interval_ns * (1 + second) == interval_ns * (first + second
        + 2)) by (nonlinear_arith);
    assert(interval_ns * (1 + first) >= 0 && interval_ns * (1 + second) >= 0) by (nonlinear_arith)
        requires
            interval_ns >= 0,
            first >= 0,
            second >= 0,
    ;
}

/// The interval is the longest that gives the asked number of samples in a
/// second of CPU time; asking for none counts as asking for one.
pub proof fn law_interval_divides_the_second(hz: u64)
    ensures
        hz > 0 ==> interval_of(hz) * hz <= 1_000_000_000 < (interval_of(hz) + 1) * hz,
        hz > 0 ==> interval_of(hz) >= 0,
        interval_of(0) == interval_of(1),
{
    if hz > 0 {
        let second = 1_000_000_000int;
        let h = hz as int;
        vstd::arithmetic::div_mod::lemma_fundamental_div_mod(second, h);
        assert(0 <= second % h < h);
        assert(0 <= second / h <= second) by {
            vstd::arithmetic::div_mod::lemma_div_is_ordered_by_denominator(second, 1, h);
            vstd::arithmetic::div_mod::lemma_div_pos_is_pos(second, h);
        }
        assert(h * (second / h) == (second / h) * h) by (nonlinear_arith);
        assert((second / h + 1) * h == (second / h) * h + h) by (nonlinear_arith);
    }
}

/// A sample that was taken holds the interrupted instruction first and then the
/// chain of return addresses that memory held, 256 frames at most.
pub proof fn law_sample_holds_the_chain<L: Fn(usize) -> usize>(
    sample: RawSample,
    context: &MachineContext,
    load: L,
    mem: spec_fn(usize) -> usize,
    fps: Seq<usize>,
    rets: Seq<usize>,
)
    requires
        captured(sample, context, load),
        fps.len() > 0 && fps[0] == context.fp(),
        forall|addr: usize, value: usize| #[trigger]
            call_ensures(load, (addr,), value) ==> value == mem(addr),
        holds_chain(context.arch(), mem, context.sp(), fps, rets),
    ensures
        sample.frames@[0] == context.pc() as u64,
        forall|k: int|
            0 <= k < rets.len() && k < 255 ==> k + 1 < sample.num_frames && sample.frames@[k + 1]
                == #[trigger] rets[k] as u64,
        rets.len() < 256 ==> sample.num_frames > rets.len(),
        rets.len() >= 255 ==> sample.num_frames == 256,
        fps.last() + usize::BITS as int / 8 <= usize::MAX && (forall|
            caller_fp: usize,
            ret_addr: usize,
        |
            !holds_frame(context.arch(), mem, context.sp(), fps.last(), caller_fp, ret_addr))
            ==> sample.num_frames <= rets.len() + 1,
{
    let chain = sample.chain();
    let room = (MAX_FRAMES - 1) as nat;
    let pcs = choose|pcs: Seq<usize>|
        {
            &&& #[trigger] walked(
                context.arch(),
                load,
                context.fp(),
                context.sp(),
                room,
                pcs,
            )
            &&& chain.skip(1) == pcs.map_values(|pc: usize| pc as u64)
        };
    law_walk_captures_the_chain(context.arch(), load, mem, context.sp(), fps, rets, room, pcs);
    law_return_addresses_are_plausible(
        context.arch(),
        load,
        context.fp(),
        context.sp(),
        room,
        pcs,
    );
    assert(chain.skip(1).len() == pcs.len());
    assert(chain[0] == sample.frames@[0]);
    assert forall|k: int| 0 <= k < rets.len() && k < 255 implies k + 1 < sample.num_frames
        && sample.frames@[k + 1] == #[trigger] rets[k] as u64 by {
        if rets.len() >= room {
            assert(rets.take(room as int)[k] == rets[k]);
        } else {
            assert(pcs.take(rets.len() as int)[k] == pcs[k]);
        }
        assert(chain.skip(1)[k] == chain[k + 1]);
    }
}

} // verus!
