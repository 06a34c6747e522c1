//! What calls into the profiler do, in terms of their arguments and of what
//! they give back.

use vstd::prelude::*;

use crate::ctimer_sampler::{
    law_interval_divides_the_second, law_sample_holds_the_chain, register_current_thread,
    sigprof_handler, CtimerSampler, CtimerStart, Moment, ProfilerModel, ProfilerState,
};
use crate::error::IoError;
use crate::fp_profiler::context::MachineContext;
use crate::fp_profiler::ctimer::{
    self, CtimerEngine, Registration, ThreadTimer, TimerCall, TimerSpec,
};
use crate::fp_profiler::unwind::{
    holds_chain, holds_frame, law_unwound_frames_are_the_chain, strip_pac, unwind,
    unwind_from_ucontext, Arch, Frame,
};
use crate::fp_profiler::{
    handler_installed, install_handler, sigsegv_handler, HandlerState, SegvAction,
    SigactionRequest, SignalAction,
};
use crate::sample_buffer::SampleBuffer;
use crate::sampler::{
    is_perf_blocked, OpenOutcome, PerfSampler, ProcessWide, StartStep, Tracking, Untracking,
};
use crate::sampling::{RawSample, Sample, SamplerConfig, SamplingMode};
use crate::text::{
    digits_value, from_decimal, law_decimal_digits_stand_for_the_number, to_decimal,
};

verus! {

/// A walk writes the interrupted instruction first and then, where memory holds
/// still and holds a chain of frames, the return address of each frame in their
/// order, as far as the buffer goes and 256 frames at most. Where the chain ends
/// it writes nothing else, and it leaves the rest of the buffer alone.
pub proof fn law_unwind_writes_the_chain<L: Fn(usize) -> usize>(
    arch: Arch,
    load: &L,
    mem: spec_fn(usize) -> usize,
    pc: usize,
    sp: usize,
    fps: Seq<usize>,
    rets: Seq<usize>,
    count: usize,
)
    requires
        forall|addr: usize, value: usize| #[trigger]
            call_ensures(*load, (addr,), value) ==> value == mem(addr),
        holds_chain(arch, mem, sp, fps, rets),
    ensures
        forall|out: &mut [Frame]|
            #[trigger] call_ensures(unwind::<L>, (arch, load, pc, fps[0], sp, out), count) && out@.len()
                > 0 ==> {
                let ends = fps.last() + usize::BITS as int / 8 <= usize::MAX && (forall|
                    caller_fp: usize,
                    ret_addr: usize,
                |
                    !holds_frame(arch, mem, sp, fps.last(), caller_fp, ret_addr));
                &&& count > 0
                &&& rets.len() < out@.len() && rets.len() < 256 ==> count > rets.len()
                &&& rets.len() >= out@.len() && out@.len() <= 256 ==> count == out@.len()
                &&& rets.len() >= 256 && out@.len() >= 256 ==> count == 256
                &&& final(out)@[0].pc == pc
                &&& forall|k: int|
                    0 <= k < rets.len() && k + 1 < out@.len() && k + 1 < 256 ==> final(out)@[k + 1].pc == #[trigger] rets[k]
                &&& ends ==> count <= rets.len() + 1
                &&& final(out)@.len() == out@.len()
                &&& forall|k: int|
                    count <= k < out@.len() ==> #[trigger] final(out)@[k] == out@[k]
            },
{
    assert forall|out: &mut [Frame]|
        #[trigger] call_ensures(unwind::<L>, (arch, load, pc, fps[0], sp, out), count) && out@.len()
            > 0 implies {
        let ends = fps.last() + usize::BITS as int / 8 <= usize::MAX && (forall|
            caller_fp: usize,
            ret_addr: usize,
        |
            !holds_frame(arch, mem, sp, fps.last(), caller_fp, ret_addr));
        &&& count > 0
        &&& rets.len() < out@.len() && rets.len() < 256 ==> count > rets.len()
        &&& rets.len() >= out@.len() && out@.len() <= 256 ==> count == out@.len()
        &&& rets.len() >= 256 && out@.len() >= 256 ==> count == 256
        &&& final(out)@[0].pc == pc
        &&& forall|k: int|
            0 <= k < rets.len() && k + 1 < out@.len() && k + 1 < 256 ==> final(out)@[k + 1].pc == #[trigger] rets[k]
        &&& ends ==> count <= rets.len() + 1
        &&& final(out)@.len() == out@.len()
        &&& forall|k: int| count <= k < out@.len() ==> #[trigger] final(out)@[k] == out@[k]
    } by {
        law_unwound_frames_are_the_chain(
            arch,
            *load,
            mem,
            sp,
            fps,
            rets,
            final(out)@,
            count as nat,
        );
        assert forall|k: int| count <= k < out@.len() implies #[trigger] final(out)@[k]
            == out@[k] by {
            assert(final(out)@.skip(count as int)[k - count] == final(out)@[k]);
            assert(out@.skip(count as int)[k - count] == out@[k]);
        }
    }
}

/// The walk of an interrupted thread starts from the registers that the kernel
/// saved for its architecture.
pub proof fn law_unwind_starts_from_the_saved_registers<L: Fn(usize) -> usize>(
    context: &MachineContext,
    load: &L,
    mem: spec_fn(usize) -> usize,
    fps: Seq<usize>,
    rets: Seq<usize>,
    count: usize,
)
    requires
        forall|addr: usize, value: usize| #[trigger]
            call_ensures(*load, (addr,), value) ==> value == mem(addr),
        fps.len() > 0 && fps[0] == context.fp(),
        holds_chain(context.arch(), mem, context.sp(), fps, rets),
    ensures
        forall|out: &mut [Frame]|
            #[trigger] call_ensures(unwind_from_ucontext::<L>, (context, load, out), count)
                && out@.len() > 0 ==> {
                &&& count > 0
                &&& rets.len() < out@.len() && rets.len() < 256 ==> count > rets.len()
                &&& rets.len() >= out@.len() && out@.len() <= 256 ==> count == out@.len()
                &&& rets.len() >= 256 && out@.len() >= 256 ==> count == 256
                &&& final(out)@[0].pc == context.pc()
                &&& forall|k: int|
                    0 <= k < rets.len() && k + 1 < out@.len() && k + 1 < 256 ==> final(out)@[k + 1].pc == #[trigger] rets[k]
            },
{
    assert forall|out: &mut [Frame]|
        #[trigger] call_ensures(unwind_from_ucontext::<L>, (context, load, out), count)
            && out@.len() > 0 implies {
        &&& count > 0
        &&& rets.len() < out@.len() && rets.len() < 256 ==> count > rets.len()
        &&& rets.len() >= out@.len() && out@.len() <= 256 ==> count == out@.len()
        &&& rets.len() >= 256 && out@.len() >= 256 ==> count == 256
        &&& final(out)@[0].pc == context.pc()
        &&& forall|k: int|
            0 <= k < rets.len() && k + 1 < out@.len() && k + 1 < 256 ==> final(out)@[k + 1].pc == #[trigger] rets[k]
    } by {
        law_unwound_frames_are_the_chain(
            context.arch(),
            *load,
            mem,
            context.sp(),
            fps,
            rets,
            final(out)@,
            count as nat,
        );
    }
}

/// Stripping keeps the lower 48 bits on aarch64 and everything on x86_64.
pub proof fn law_stripping_keeps_the_address(addr: usize, x86: usize, arm: usize)
    requires
        call_ensures(strip_pac, (Arch::X86_64, addr), x86),
        call_ensures(strip_pac, (Arch::Aarch64, addr), arm),
    ensures
        x86 == addr,
        arm as int == addr as int % 0x1_0000_0000_0000,
{
}

/// A sample that is taken says which thread of which process was interrupted,
/// on which CPU and when. It stands for one interval of CPU time, and for one
/// more per overrun of the thread's own timer as long as that fits.
pub proof fn law_samples_say_what_was_interrupted<L: Fn(usize) -> usize>(
    thread: &ThreadTimer,
    moment: Moment,
    context: &MachineContext,
    load: &L,
)
    ensures
        forall|p: &mut ProfilerState|
            #[trigger] call_ensures(
                sigprof_handler::<L>,
                (p, thread, moment, context, load),
                (),
            ) && p@.wf() && p@.engine.running && p@.buffer.samples.len() < p@.buffer.capacity ==> {
                let sample = final(p)@.buffer.samples.last();
                let interval = p@.engine.interval_ns as int;
                &&& final(p)@.buffer.samples.drop_last() == p@.buffer.samples
                &&& sample.pid == moment.pid
                &&& sample.tid == moment.tid
                &&& sample.cpu == moment.cpu
                &&& sample.time == moment.sec * 1_000_000_000 + moment.nsec
                &&& moment.overrun <= 0 ==> sample.period == interval
                &&& thread.id is None ==> sample.period == interval
                &&& moment.overrun > 0 && thread.id is Some && interval * (moment.overrun + 1)
                    <= u64::MAX ==> sample.period == interval * (moment.overrun + 1)
                &&& moment.overrun > 0 && thread.id is Some && interval * (moment.overrun + 1)
                    > u64::MAX ==> sample.period == u64::MAX
                &&& final(p)@.buffer.dropped == p@.buffer.dropped
                &&& final(p)@.engine == p@.engine
            },
        forall|p: &mut ProfilerState|
            #[trigger] call_ensures(
                sigprof_handler::<L>,
                (p, thread, moment, context, load),
                (),
            ) && p@.wf() && p@.engine.running && p@.buffer.samples.len() == p@.buffer.capacity
                && p@.buffer.dropped < u64::MAX ==> final(p)@.buffer.samples == p@.buffer.samples
                && final(p)@.buffer.dropped == p@.buffer.dropped + 1,
        forall|p: &mut ProfilerState|
            #[trigger] call_ensures(
                sigprof_handler::<L>,
                (p, thread, moment, context, load),
                (),
            ) && !p@.engine.running ==> final(p)@ == p@,
{
    assert forall|p: &mut ProfilerState|
        #[trigger] call_ensures(sigprof_handler::<L>, (p, thread, moment, context, load), ())
            && p@.wf() && p@.engine.running && p@.buffer.samples.len()
            < p@.buffer.capacity implies final(p)@.buffer.samples.drop_last()
        == p@.buffer.samples by {
        assert(final(p)@.buffer.samples.drop_last() =~= p@.buffer.samples);
    }
}

/// A sample that is taken holds the interrupted instruction and then the chain
/// of return addresses that memory held, 256 frames at most.
pub proof fn law_samples_hold_the_stack<L: Fn(usize) -> usize>(
    thread: &ThreadTimer,
    moment: Moment,
    context: &MachineContext,
    load: &L,
    mem: spec_fn(usize) -> usize,
    fps: Seq<usize>,
    rets: Seq<usize>,
)
    requires
        forall|addr: usize, value: usize| #[trigger]
            call_ensures(*load, (addr,), value) ==> value == mem(addr),
        fps.len() > 0 && fps[0] == context.fp(),
        holds_chain(context.arch(), mem, context.sp(), fps, rets),
    ensures
        forall|p: &mut ProfilerState|
            #[trigger] call_ensures(
                sigprof_handler::<L>,
                (p, thread, moment, context, load),
                (),
            ) && p@.wf() && p@.engine.running && p@.buffer.samples.len() < p@.buffer.capacity ==> {
                let sample = final(p)@.buffer.samples.last();
                &&& sample.num_frames >= 1
                &&& rets.len() < 256 ==> sample.num_frames > rets.len()
                &&& rets.len() >= 255 ==> sample.num_frames == 256
                &&& sample.frames@[0] == context.pc() as u64
                &&& forall|k: int|
                    0 <= k < rets.len() && k < 255 ==> sample.frames@[k + 1] == #[trigger] rets[k] as u64
            },
{
    assert forall|p: &mut ProfilerState|
        #[trigger] call_ensures(sigprof_handler::<L>, (p, thread, moment, context, load), ())
            && p@.wf() && p@.engine.running && p@.buffer.samples.len()
            < p@.buffer.capacity implies {
        let sample = final(p)@.buffer.samples.last();
        &&& sample.num_frames >= 1
        &&& rets.len() < 256 ==> sample.num_frames > rets.len()
        &&& rets.len() >= 255 ==> sample.num_frames == 256
        &&& sample.frames@[0] == context.pc() as u64
        &&& forall|k: int|
            0 <= k < rets.len() && k < 255 ==> sample.frames@[k + 1] == #[trigger] rets[k] as u64
    } by {
        law_sample_holds_the_chain(
            final(p)@.buffer.samples.last(),
            context,
            *load,
            mem,
            fps,
            rets,
        );
    }
}

/// A fault of the trampoline goes on behind it with the answer 0 and with every
/// other register as it was; any other fault goes to the handler that was there
/// before and changes nothing.
pub proof fn law_only_faults_of_the_trampoline_are_answered(
    start: usize,
    end: usize,
    old_action: Option<SignalAction>,
    action: SegvAction,
)
    ensures
        forall|c: &mut MachineContext|
            #[trigger] call_ensures(sigsegv_handler, (c, start, end, old_action), action)
                && start <= c.pc() < end ==> {
                &&& action is Resume
                &&& final(c).pc() == end
                &&& final(c).result() == 0
                &&& final(c).fp() == c.fp()
                &&& final(c).sp() == c.sp()
                &&& final(c).arch() == c.arch()
                &&& final(c).general().len() == c.general().len()
                &&& forall|r: int|
                    0 <= r < c.general().len() && (match c.arch() {
                        Arch::X86_64 => r != 13 && r != 16,
                        Arch::Aarch64 => r != 0,
                    }) ==> #[trigger] final(c).general()[r] == c.general()[r]
            },
        forall|c: &mut MachineContext|
            #[trigger] call_ensures(sigsegv_handler, (c, start, end, old_action), action) && !(start
                <= c.pc() < end) ==> {
                &&& *final(c) == *c
                &&& !(action is Resume)
                &&& old_action is None ==> action is Return
                &&& old_action is Some && old_action->0.flags & 4 != 0 ==> action
                    == (SegvAction::CallWithInfo { handler: old_action->0.handler })
                &&& old_action is Some && old_action->0.flags & 4 == 0 && old_action->0.handler > 1
                    ==> action == (SegvAction::Call { handler: old_action->0.handler })
                &&& old_action is Some && old_action->0.flags & 4 == 0 && old_action->0.handler == 0
                    ==> action is RestoreDefaultAndRaise
                &&& old_action is Some && old_action->0.flags & 4 == 0 && old_action->0.handler == 1
                    ==> action is Return
            },
{
}

/// The handler is registered once: for SIGSEGV, and anew only after the kernel
/// refused it. What was registered before it is remembered.
pub proof fn law_the_fault_handler_is_registered_once(
    request: Option<SigactionRequest>,
    action: SignalAction,
    error: IoError,
    result: Result<(), IoError>,
)
    ensures
        forall|state: &mut HandlerState|
            #[trigger] call_ensures(install_handler, (state,), request) ==> {
                &&& request is Some <==> !state.installed
                &&& request is Some ==> request->0.signal == 11 && request->0.flags == 0x4000_0004
                &&& final(state).installed
                &&& final(state).old_action == state.old_action
            },
        forall|state: &mut HandlerState|
            #[trigger] call_ensures(handler_installed, (state, Ok(action)), result)
                ==> result is Ok && final(state).old_action == Some(action) && final(state).installed == state.installed,
        forall|state: &mut HandlerState|
            #[trigger] call_ensures(handler_installed, (state, Err(error)), result)
                ==> result is Err && !final(state).installed && final(state).old_action
                == state.old_action,
{
}

/// An engine starts with a positive interval and keeps it; it is switched off
/// and on without losing it. A start that the kernel refused changes nothing.
pub proof fn law_engines_keep_their_interval(
    interval_ns: i64,
    request: Result<SigactionRequest, IoError>,
    error: IoError,
    result: Result<(), IoError>,
)
    ensures
        call_ensures(ctimer::start, (interval_ns,), request) ==> (request is Ok <==> interval_ns
            > 0),
        call_ensures(ctimer::start, (interval_ns,), request) && request is Ok
            ==> request->Ok_0.signal == 27 && request->Ok_0.flags == 0x1000_0004,
        forall|e: &mut CtimerEngine|
            #[trigger] call_ensures(ctimer::started, (e, interval_ns, Ok(())), result)
                ==> result is Ok && final(e).running && final(e).interval_ns == interval_ns,
        forall|e: &mut CtimerEngine|
            #[trigger] call_ensures(ctimer::started, (e, interval_ns, Err(error)), result)
                ==> result is Err && *final(e) == *e,
        forall|e: &mut CtimerEngine|
            #[trigger] call_ensures(ctimer::stop, (e,), ()) ==> !final(e).running && final(e).interval_ns == e.interval_ns,
        forall|e: &mut CtimerEngine|
            #[trigger] call_ensures(ctimer::resume, (e,), ()) ==> final(e).running && final(e).interval_ns == e.interval_ns,
{
}

/// A thread gets one timer, of its own CPU time and for itself, exactly where
/// the engine runs and it has none. The timer fires once per interval. A timer
/// that could not be armed is deleted, and one that is taken away is stopped
/// first.
pub proof fn law_timers_belong_to_their_thread(
    engine: &CtimerEngine,
    thread: &ThreadTimer,
    tid: i32,
    step: Registration,
    timer: usize,
    armed: Result<TimerCall, IoError>,
    error: IoError,
    result: Result<(), (TimerCall, IoError)>,
    calls: Vec<TimerCall>,
)
    ensures
        call_ensures(ctimer::register_thread, (engine, thread, tid), step) ==> {
            &&& step is Create <==> engine.running && thread.id is None
            &&& step is Registered <==> engine.running && thread.id is Some
            &&& step matches Registration::Create(request) ==> request.thread_id == tid
                && request.value == tid && request.clock == 3 && request.signal == 27
                && request.notify == 4
        },
        call_ensures(ctimer::timer_created, (engine, Ok(timer)), armed) && engine.interval_ns >= 0
            ==> (armed matches Ok(TimerCall::SetTime { timer: set, spec }) && set == timer
            && spec.sec * 1_000_000_000 + spec.nsec == engine.interval_ns && 0 <= spec.nsec
            < 1_000_000_000),
        call_ensures(ctimer::timer_created, (engine, Err(error)), armed) ==> armed is Err,
        forall|t: &mut ThreadTimer|
            #[trigger] call_ensures(ctimer::timer_armed, (t, timer, Ok(())), result)
                ==> result is Ok && final(t).id == Some(timer),
        forall|t: &mut ThreadTimer|
            #[trigger] call_ensures(ctimer::timer_armed, (t, timer, Err(error)), result)
                ==> final(t).id == t.id && result is Err && result->Err_0.0 == (TimerCall::Delete {
                timer,
            }) && result->Err_0.1 == error,
        forall|t: &mut ThreadTimer|
            #[trigger] call_ensures(ctimer::unregister_thread, (t,), calls) ==> {
                &&& final(t).id is None
                &&& t.id is None ==> calls@.len() == 0
                &&& t.id is Some ==> calls@.len() == 2 && calls@[0] == (TimerCall::SetTime {
                    timer: t.id->0,
                    spec: TimerSpec { sec: 0, nsec: 0 },
                }) && calls@[1] == (TimerCall::Delete { timer: t.id->0 })
            },
{
}

/// A thread that starts gets a timer only while timer-based sampling is in use.
pub proof fn law_started_threads_register_while_sampling_is_in_use(
    profiler: &ProfilerState,
    thread: &ThreadTimer,
    tid: i32,
    step: Option<Registration>,
)
    requires
        call_ensures(register_current_thread, (profiler, thread, tid), step),
    ensures
        step is Some <==> profiler@.active,
        step matches Some(Registration::Create(request)) ==> request.thread_id == tid
            && thread.id is None && profiler@.engine.running,
        profiler@.active && profiler@.engine.running && thread.id is None
            ==> step->0 is Create,
{
}

/// A start by frequency asks for the longest interval that gives so many samples
/// per second; a start by event count is refused and changes nothing.
pub proof fn law_starts_ask_for_the_frequency(
    config: &SamplerConfig,
    step: CtimerStart,
)
    ensures
        forall|p: &mut ProfilerState|
            #[trigger] call_ensures(CtimerSampler::start, (p, config), step) ==> match config.sampling {
                SamplingMode::Period(period) => step is Failed && final(p)@ == p@,
                SamplingMode::FrequencyHz(hz) => {
                    let interval = match step {
                        CtimerStart::InstallSegv { request, interval_ns } => interval_ns as int,
                        CtimerStart::InstallProf { request, interval_ns } => interval_ns as int,
                        CtimerStart::Failed(error) => 0,
                    };
                    &&& 0 < hz <= 1_000_000_000 ==> !(step is Failed)
                    &&& 0 < hz <= 1_000_000_000 ==> interval * hz <= 1_000_000_000 < (interval + 1)
                        * hz
                    &&& hz == 0 ==> interval == 1_000_000_000
                    &&& step is InstallSegv <==> !p@.handler.installed
                    &&& final(p)@.engine == p@.engine
                    &&& final(p)@.active == p@.active
                    &&& final(p)@.buffer == p@.buffer
                },
            },
{
    assert forall|p: &mut ProfilerState|
        #[trigger] call_ensures(CtimerSampler::start, (p, config), step) implies match config.sampling {
        SamplingMode::Period(period) => step is Failed && final(p)@ == p@,
        SamplingMode::FrequencyHz(hz) => {
            let interval = match step {
                CtimerStart::InstallSegv { request, interval_ns } => interval_ns as int,
                CtimerStart::InstallProf { request, interval_ns } => interval_ns as int,
                CtimerStart::Failed(error) => 0,
            };
            &&& 0 < hz <= 1_000_000_000 ==> !(step is Failed)
            &&& 0 < hz <= 1_000_000_000 ==> interval * hz <= 1_000_000_000 < (interval + 1) * hz
            &&& hz == 0 ==> interval == 1_000_000_000
            &&& step is InstallSegv <==> !p@.handler.installed
            &&& final(p)@.engine == p@.engine
            &&& final(p)@.active == p@.active
            &&& final(p)@.buffer == p@.buffer
        },
    } by {
        if let SamplingMode::FrequencyHz(hz) = config.sampling {
            law_interval_divides_the_second(hz);
            if 0 < hz <= 1_000_000_000 {
                let i = crate::ctimer_sampler::interval_of(hz) as int;
                assert(i > 0) by (nonlinear_arith)
                    requires
                        1_000_000_000 < (i + 1) * hz,
                        0 < hz <= 1_000_000_000,
                        i >= 0,
                ;
            }
        }
    }
}

/// Sampling is in use from the answer of the kernel on, with the interval that
/// was asked for, until the sampler is closed; a refusal changes nothing.
pub proof fn law_sampling_is_in_use_between_start_and_close(
    interval_ns: i64,
    error: IoError,
    sampler: Result<CtimerSampler, IoError>,
    closed: CtimerSampler,
)
    ensures
        forall|p: &mut ProfilerState|
            #[trigger] call_ensures(CtimerSampler::prof_installed, (p, interval_ns, Ok(())), sampler)
                ==> sampler is Ok && final(p)@.active && final(p)@.engine.running && final(p)@.engine.interval_ns == interval_ns && final(p)@.buffer == p@.buffer,
        forall|p: &mut ProfilerState|
            #[trigger] call_ensures(
                CtimerSampler::prof_installed,
                (p, interval_ns, Err(error)),
                sampler,
            ) ==> sampler is Err && final(p)@ == p@,
        forall|p: &mut ProfilerState|
            #[trigger] call_ensures(CtimerSampler::close, (closed, p), ()) ==> !final(p)@.active
                && !final(p)@.engine.running && final(p)@.engine.interval_ns
                == p@.engine.interval_ns && final(p)@.buffer == p@.buffer,
{
}

/// Performance events count as blocked exactly where the kernel answers 1, 13,
/// 38 or 95.
pub proof fn law_blocked_answers(error: &IoError, blocked: bool)
    requires
        call_ensures(is_perf_blocked, (error,), blocked),
    ensures
        blocked <==> (*error matches IoError::Os { code, text } && (code == 1 || code == 13 || code
            == 38 || code == 95)),
{
}

/// A start opens performance events for the process or the threads that were
/// asked for, unless timers are forced and samples are taken by frequency.
pub proof fn law_starts_prefer_performance_events(
    pid: i32,
    config: &SamplerConfig,
    forced: bool,
    whole: StartStep,
    own: StartStep,
    threads: StartStep,
)
    requires
        call_ensures(PerfSampler::start_for_pid, (pid, config, forced), whole),
        call_ensures(PerfSampler::start, (config, forced), own),
        call_ensures(PerfSampler::new_per_thread, (config, forced), threads),
    ensures
        forced && config.sampling is FrequencyHz ==> whole == (StartStep::StartCtimer {
            process_wide: true,
        }) && own == whole && threads == (StartStep::StartCtimer { process_wide: false }),
        !(forced && config.sampling is FrequencyHz) ==> whole == (StartStep::OpenPerf {
            pid,
            per_thread: false,
        }) && own == (StartStep::OpenPerf { pid: 0, per_thread: false }) && threads
            == (StartStep::OpenPerf { pid: 0, per_thread: true }),
{
}

/// Where the kernel allows performance events the sampler uses them. Where it
/// blocks them, timers take their place, but for single threads that are
/// sampled by event count; any other answer is the error.
pub proof fn law_timers_take_the_place_of_blocked_events(
    per_thread: bool,
    config: &SamplerConfig,
    code: i32,
    text: String,
    outcome: OpenOutcome,
)
    ensures
        call_ensures(PerfSampler::perf_opened, (per_thread, config, Ok(())), outcome)
            ==> outcome is Ready && !outcome->Ready_0.on_timers(),
        call_ensures(
            PerfSampler::perf_opened,
            (per_thread, config, Err(IoError::Os { code, text })),
            outcome,
        ) ==> {
            let blocked = code == 1 || code == 13 || code == 38 || code == 95;
            &&& !blocked ==> outcome == OpenOutcome::Failed(IoError::Os { code, text })
            &&& blocked && !per_thread ==> outcome == (OpenOutcome::StartCtimer {
                process_wide: true,
            })
            &&& blocked && per_thread && config.sampling is FrequencyHz ==> outcome
                == (OpenOutcome::StartCtimer { process_wide: false })
            &&& blocked && per_thread && config.sampling is Period ==> outcome is Failed
        },
{
}

/// Reading hands out every waiting sample once, the oldest first, with what the
/// signal handler wrote; afterwards none waits.
pub proof fn law_reading_hands_out_what_was_written(samples: Vec<Sample>)
    ensures
        forall|sampler: &mut CtimerSampler, p: &mut ProfilerState|
            #[trigger] call_ensures(CtimerSampler::drain_samples, (sampler, p), samples) ==> {
                &&& samples@.len() == p@.buffer.samples.len()
                &&& forall|i: int|
                    0 <= i < samples@.len() ==> {
                        let raw = p@.buffer.samples[i];
                        &&& (#[trigger] samples@[i]).tid == raw.tid
                        &&& samples@[i].pid == raw.pid
                        &&& samples@[i].time == raw.time
                        &&& samples@[i].cpu == raw.cpu
                        &&& samples@[i].period == raw.period
                        &&& raw.num_frames <= 256 ==> samples@[i].callchain@ == raw.frames@.take(
                            raw.num_frames as int,
                        )
                        &&& raw.num_frames > 0 ==> samples@[i].ip == raw.frames@[0]
                    }
                &&& final(p)@.buffer.samples.len() == 0
                &&& final(p)@.engine == p@.engine
                &&& final(p)@.active == p@.active
            },
{
    assert forall|sampler: &mut CtimerSampler, p: &mut ProfilerState|
        #[trigger] call_ensures(CtimerSampler::drain_samples, (sampler, p), samples) implies {
        &&& samples@.len() == p@.buffer.samples.len()
        &&& forall|i: int|
            0 <= i < samples@.len() ==> {
                let raw = p@.buffer.samples[i];
                &&& (#[trigger] samples@[i]).tid == raw.tid
                &&& samples@[i].pid == raw.pid
                &&& samples@[i].time == raw.time
                &&& samples@[i].cpu == raw.cpu
                &&& samples@[i].period == raw.period
                &&& raw.num_frames <= 256 ==> samples@[i].callchain@ == raw.frames@.take(
                    raw.num_frames as int,
                )
                &&& raw.num_frames > 0 ==> samples@[i].ip == raw.frames@[0]
            }
        &&& final(p)@.buffer.samples.len() == 0
        &&& final(p)@.engine == p@.engine
        &&& final(p)@.active == p@.active
    } by {
        let models = crate::sampling::models(samples@);
        assert(models.len() == samples@.len());
        assert forall|i: int| 0 <= i < samples@.len() implies {
            let raw = p@.buffer.samples[i];
            &&& (#[trigger] samples@[i]).tid == raw.tid
            &&& samples@[i].pid == raw.pid
            &&& samples@[i].time == raw.time
            &&& samples@[i].cpu == raw.cpu
            &&& samples@[i].period == raw.period
            &&& raw.num_frames <= 256 ==> samples@[i].callchain@ == raw.frames@.take(
                raw.num_frames as int,
            )
            &&& raw.num_frames > 0 ==> samples@[i].ip == raw.frames@[0]
        } by {
            assert(models[i] == samples@[i]@);
        }
    }
}

/// Samples of performance events are handed out behind those that wait, each
/// once; a sampler on timers takes none of them.
pub proof fn law_samples_of_events_are_handed_out(
    given: Vec<Sample>,
    samples: Vec<Sample>,
    profiler: ProfilerModel,
)
    ensures
        forall|perf: &mut PerfSampler|
            #[trigger] call_ensures(PerfSampler::take_in, (perf, given), ()) && !perf.on_timers()
                ==> final(perf).pending(profiler) == perf.pending(profiler)
                + crate::sampling::models(given@),
        forall|perf: &mut PerfSampler|
            #[trigger] call_ensures(PerfSampler::take_in, (perf, given), ()) && perf.on_timers()
                ==> *final(perf) == *perf,
        forall|perf: &mut PerfSampler, p: &mut ProfilerState|
            #[trigger] call_ensures(PerfSampler::drain_samples, (perf, p), samples) ==> {
                &&& crate::sampling::models(samples@) == perf.pending(p@)
                &&& final(perf).pending(final(p)@).len() == 0
                &&& final(perf).sampling(final(p)@) == perf.sampling(p@)
            },
{
}

/// Switching a sampler off and on switches sampling and nothing else: what
/// waits keeps waiting.
pub proof fn law_sampling_is_switched(events: bool)
    ensures
        forall|perf: &mut PerfSampler, p: &mut ProfilerState|
            #[trigger] call_ensures(PerfSampler::disable, (perf, p), events) ==> !final(perf).sampling(final(p)@) && final(perf).pending(final(p)@) == perf.pending(p@)
                && events == !perf.on_timers(),
        forall|perf: &mut PerfSampler, p: &mut ProfilerState|
            #[trigger] call_ensures(PerfSampler::enable, (perf, p), events) ==> final(perf).sampling(final(p)@) && final(perf).pending(final(p)@) == perf.pending(p@)
                && events == !perf.on_timers(),
{
}

/// A thread that asks a sampler on performance events has events opened for
/// itself, and closed when it asks to stop; one that asks a sampler on timers
/// gets and gives back its own timer.
pub proof fn law_threads_are_sampled_by_the_backend_in_use(
    profiler: &ProfilerState,
    thread: &ThreadTimer,
    tid: i32,
    tracking: Tracking,
    untracking: Untracking,
)
    ensures
        forall|perf: &mut PerfSampler|
            #[trigger] call_ensures(
                PerfSampler::track_current_thread,
                (perf, profiler, thread, tid),
                tracking,
            ) ==> {
                &&& *final(perf) == *perf
                &&& !perf.on_timers() ==> tracking == (Tracking::OpenThread { tid })
                &&& perf.on_timers() ==> (tracking is Create <==> profiler@.engine.running
                    && thread.id is None)
                &&& perf.on_timers() && tracking is Create ==> tracking->Create_0.thread_id == tid
            },
        forall|perf: &mut PerfSampler, t: &mut ThreadTimer|
            #[trigger] call_ensures(
                PerfSampler::stop_tracking_current_thread,
                (perf, t),
                untracking,
            ) ==> {
                &&& !perf.on_timers() ==> untracking is CloseThread && *final(t) == *t
                &&& perf.on_timers() ==> untracking is Timer && final(t).id is None
                &&& perf.on_timers() && t.id is Some ==> untracking->Timer_0@.len() == 2
                    && untracking->Timer_0@[1] == (TimerCall::Delete { timer: t.id->0 })
            },
{
}

/// The buffer of samples takes a sample where there is room and counts it where
/// there is none; it hands out what it took, in that order.
pub proof fn law_sample_buffer_is_a_bounded_queue(
    sample: RawSample,
    claimed: bool,
    samples: Vec<RawSample>,
    dropped: u64,
)
    ensures
        forall|b: &mut SampleBuffer|
            #[trigger] call_ensures(SampleBuffer::claim_slot, (b,), claimed) ==> {
                &&& claimed <==> b@.samples.len() < b@.capacity
                &&& claimed ==> final(b)@ == b@
                &&& !claimed && b@.dropped < u64::MAX ==> final(b)@.dropped == b@.dropped + 1
                &&& final(b)@.samples == b@.samples
            },
        forall|b: &mut SampleBuffer|
            #[trigger] call_ensures(SampleBuffer::commit, (b, sample), ()) ==> final(b)@.samples
                == b@.samples.push(sample) && final(b)@.dropped == b@.dropped,
        forall|b: &mut SampleBuffer|
            #[trigger] call_ensures(SampleBuffer::drain, (b,), samples) ==> samples@ == b@.samples
                && final(b)@.samples.len() == 0 && final(b)@.dropped == b@.dropped,
        forall|b: &mut SampleBuffer|
            #[trigger] call_ensures(SampleBuffer::take_dropped_count, (b,), dropped) ==> dropped
                == b@.dropped && final(b)@.dropped == 0 && final(b)@.samples == b@.samples,
{
}

/// The text of a number is made of the digits that stand for it, and what is
/// read from a text is the number that its digits stand for.
pub proof fn law_numbers_are_written_and_read(
    n: u64,
    written: String,
    text: &str,
    read: u64,
)
    ensures
        call_ensures(to_decimal, (n,), written) ==> digits_value(written@) == n && written@.len()
            > 0 && (n > 0 ==> written@[0] != '0'),
        call_ensures(from_decimal, (text,), read) ==> digits_value(text@) == read,
{
    law_decimal_digits_stand_for_the_number(n as nat);
    law_decimal_digits_stand_for_the_number(read as nat);
}

/// A process-wide start on timers gives the calling thread its timer. Where
/// that fails the sampler is closed again, and the error says why.
pub proof fn law_process_wide_starts_give_the_caller_a_timer(
    sampler: CtimerSampler,
    thread: &ThreadTimer,
    tid: i32,
    step: ProcessWide,
    error: IoError,
    result: Result<PerfSampler, IoError>,
)
    ensures
        forall|p: &mut ProfilerState|
            #[trigger] call_ensures(
                PerfSampler::with_ctimer_process_wide,
                (p, sampler, thread, tid),
                step,
            ) ==> {
                &&& step is Create <==> p@.engine.running && thread.id is None
                &&& step is Create ==> step->request.thread_id == tid
                &&& step is Ready <==> p@.engine.running && thread.id is Some
                &&& step is Failed <==> !p@.engine.running
                &&& step is Failed ==> !final(p)@.active
                &&& !(step is Failed) ==> final(p)@ == p@
            },
        forall|p: &mut ProfilerState|
            #[trigger] call_ensures(PerfSampler::thread_tracked, (p, sampler, Ok(())), result)
                ==> result is Ok && result->Ok_0.on_timers() && final(p)@ == p@,
        forall|p: &mut ProfilerState|
            #[trigger] call_ensures(PerfSampler::thread_tracked, (p, sampler, Err(error)), result)
                ==> result is Err && !final(p)@.active && !final(p)@.engine.running && final(p)@.buffer == p@.buffer,
{
}

/// Once the fault handler is registered the start goes on; where the kernel
/// refused it the start fails and the handler can be registered anew.
pub proof fn law_starts_need_the_fault_handler(
    interval_ns: i64,
    action: SignalAction,
    error: IoError,
    request: Result<SigactionRequest, IoError>,
)
    ensures
        forall|p: &mut ProfilerState|
            #[trigger] call_ensures(
                CtimerSampler::segv_installed,
                (p, interval_ns, Ok(action)),
                request,
            ) ==> (request is Ok <==> interval_ns > 0) && (request is Ok
                ==> request->Ok_0.signal == 27) && final(p)@.handler.old_action == Some(action)
                && final(p)@.engine == p@.engine,
        forall|p: &mut ProfilerState|
            #[trigger] call_ensures(
                CtimerSampler::segv_installed,
                (p, interval_ns, Err(error)),
                request,
            ) ==> request is Err && !final(p)@.handler.installed && final(p)@.engine == p@.engine,
{
}

} // verus!
