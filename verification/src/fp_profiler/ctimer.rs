//! Per-thread CPU timers.
//!
//! Each profiled thread has a timer of its own that fires SIGPROF on that
//! thread whenever it has consumed a given amount of CPU time. [`start`]
//! registers the signal handler, [`register_thread`] gives the calling thread
//! its timer and [`unregister_thread`] takes it away; [`stop`] and [`resume`]
//! switch sampling off and on.

use vstd::prelude::*;

use crate::error::{ErrorKind, IoError};
use crate::fp_profiler::SigactionRequest;
use crate::os::{clock_thread_cputime_id, sa_restart, sa_siginfo, sigprof};

verus! {

/// Delivers the timer signal to one thread.
pub const SIGEV_THREAD_ID: i32 = 4;

/// Nanoseconds in a second.
pub const NANOS_PER_SEC: i64 = 1_000_000_000;

/// The timer engine.
#[derive(Copy, Clone, Debug, PartialEq, Eq, Structural)]
pub struct CtimerEngine {
    /// The sampling interval; 0 before the first start.
    pub interval_ns: i64,
    /// Whether samples are taken.
    pub running: bool,
}

/// The timer of one thread, where it has one.
#[derive(Copy, Clone, Debug, PartialEq, Eq, Structural)]
pub struct ThreadTimer {
    pub id: Option<usize>,
}

/// A timer that the kernel is asked to create.
#[derive(Copy, Clone, Debug, PartialEq, Eq, Structural)]
pub struct TimerRequest {
    /// The clock that the timer runs on.
    pub clock: i32,
    /// How the timer notifies.
    pub notify: i32,
    /// The signal that it raises.
    pub signal: i32,
    /// The thread that gets the signal.
    pub thread_id: i32,
    /// The value that the signal carries.
    pub value: i32,
}

/// When a timer fires: after `sec` seconds and `nsec` nanoseconds, and again
/// after each further such span. All zero stops the timer.
#[derive(Copy, Clone, Debug, PartialEq, Eq, Structural)]
pub struct TimerSpec {
    pub sec: i64,
    pub nsec: i64,
}

/// What becomes of a thread that asks for a timer.
#[derive(Debug)]
pub enum Registration {
    /// The engine refuses.
    Refused(IoError),
    /// The thread has its timer already.
    Registered,
    /// Ask the kernel for the timer, then go on with [`timer_created`].
    Create(TimerRequest),
}

/// What is done about a timer.
#[derive(Copy, Clone, Debug, PartialEq, Eq, Structural)]
pub enum TimerCall {
    /// Set when the timer fires.
    SetTime { timer: usize, spec: TimerSpec },
    /// Delete the timer.
    Delete { timer: usize },
}

impl CtimerEngine {
    /// An engine that was never started.
    pub fn new() -> (engine: CtimerEngine)
        ensures
            engine == (CtimerEngine { interval_ns: 0, running: false }),
    {
        CtimerEngine { interval_ns: 0, running: false }
    }

    /// The interval is one that [`start`] accepted, or none was yet.
    pub open spec fn wf(self) -> bool {
        self.interval_ns >= 0
    }
}

/// The span of `interval_ns` nanoseconds.
pub open spec fn spec_of(interval_ns: i64) -> TimerSpec {
    TimerSpec {
        sec: (interval_ns as int / 1_000_000_000) as i64,
        nsec: (interval_ns as int % 1_000_000_000) as i64,
    }
}

/// The timer to create for thread `tid`.
pub open spec fn request_for(tid: i32) -> TimerRequest {
    TimerRequest { clock: 3, notify: SIGEV_THREAD_ID, signal: 27, thread_id: tid, value: tid }
}

/// What becomes of thread `tid`, with its timer, that asks for one more.
pub open spec fn registration(
    engine: CtimerEngine,
    thread: ThreadTimer,
    tid: i32,
    step: Registration,
) -> bool {
    if !engine.running {
        step is Refused && step->Refused_0.is_custom(
            ErrorKind::Other,
            "ctimer is not running (call start first)"@,
        )
    } else if thread.id is Some {
        step is Registered
    } else {
        step == Registration::Create(request_for(tid))
    }
}

/// Checks the interval and gives the registration of the SIGPROF handler to
/// ask the kernel for; [`started`] takes the answer.
pub fn start(interval_ns: i64) -> (request: Result<SigactionRequest, IoError>)
    ensures
        interval_ns > 0 ==> request == Ok::<SigactionRequest, IoError>(
            SigactionRequest { signal: 27, flags: 0x1000_0004 },
        ),
        interval_ns <= 0 ==> request is Err && request->Err_0.is_custom(
            ErrorKind::InvalidInput,
            "interval must be positive"@,
        ),
{
    if interval_ns <= 0 {
        return Err(
            IoError::new(ErrorKind::InvalidInput, "interval must be positive".to_owned()),
        );
    }
    let flags: i32 = sa_siginfo() | sa_restart();
    assert(4i32 | 0x1000_0000i32 == 0x1000_0004i32) by (bit_vector);
    Ok(SigactionRequest { signal: sigprof(), flags })
}

/// Ends a start with what the kernel answered: the engine runs with the new
/// interval, or is left as it was.
pub fn started(
    engine: &mut CtimerEngine,
    interval_ns: i64,
    outcome: Result<(), IoError>,
) -> (result: Result<(), IoError>)
    requires
        old(engine).wf(),
        interval_ns > 0,
    ensures
        final(engine).wf(),
        result is Ok <==> outcome is Ok,
        outcome matches Err(error) ==> result == Err::<(), IoError>(error),
        *final(engine) == if outcome is Ok {
            CtimerEngine { interval_ns, running: true }
        } else {
            *old(engine)
        },
{
    match outcome {
        Ok(()) => {
            engine.interval_ns = interval_ns;
            engine.running = true;
            Ok(())
        },
        Err(error) => Err(error),
    }
}

/// Switches sampling off. The timers go on firing.
pub fn stop(engine: &mut CtimerEngine)
    ensures
        *final(engine) == (CtimerEngine { running: false, ..*old(engine) }),
{
    engine.running = false;
}

/// Switches sampling on again.
pub fn resume(engine: &mut CtimerEngine)
    ensures
        *final(engine) == (CtimerEngine { running: true, ..*old(engine) }),
{
    engine.running = true;
}

/// Whether samples are taken.
pub fn is_running(engine: &CtimerEngine) -> (running: bool)
    ensures
        running == engine.running,
{
    engine.running
}

/// The sampling interval in nanoseconds.
pub fn interval_ns(engine: &CtimerEngine) -> (interval_ns: i64)
    ensures
        interval_ns == engine.interval_ns,
{
    engine.interval_ns
}

/// The thread's timer, or `None` where it is not registered.
pub fn current_thread_timer_id(thread: &ThreadTimer) -> (timer: Option<usize>)
    ensures
        timer == thread.id,
{
    thread.id
}

/// Begins to give thread `tid` its timer.
pub fn register_thread(
    engine: &CtimerEngine,
    thread: &ThreadTimer,
    tid: i32,
) -> (step: Registration)
    ensures
        registration(*engine, *thread, tid, step),
{
    if !engine.running {
        return Registration::Refused(
            IoError::new(
                ErrorKind::Other,
                "ctimer is not running (call start first)".to_owned(),
            ),
        );
    }
    if thread.id.is_some() {
        return Registration::Registered;
    }
    Registration::Create(
        TimerRequest {
            clock: clock_thread_cputime_id(),
            notify: SIGEV_THREAD_ID,
            signal: sigprof(),
            thread_id: tid,
            value: tid,
        },
    )
}

/// Arms a timer that the kernel created, or gives up where it refused.
pub fn timer_created(
    engine: &CtimerEngine,
    outcome: Result<usize, IoError>,
) -> (step: Result<TimerCall, IoError>)
    requires
        engine.wf(),
    ensures
        step == match outcome {
            Ok(timer) => Ok::<TimerCall, IoError>(
                TimerCall::SetTime { timer, spec: spec_of(engine.interval_ns) },
            ),
            Err(error) => Err::<TimerCall, IoError>(error),
        },
{
    match outcome {
        Ok(timer) => {
            let sec: i64 = engine.interval_ns / NANOS_PER_SEC;
            let nsec: i64 = engine.interval_ns % NANOS_PER_SEC;
            Ok(TimerCall::SetTime { timer, spec: TimerSpec { sec, nsec } })
        },
        Err(error) => Err(error),
    }
}

/// Ends a registration with what the kernel answered: the thread has its
/// timer, or the timer is to be deleted and the error reported.
pub fn timer_armed(
    thread: &mut ThreadTimer,
    timer: usize,
    outcome: Result<(), IoError>,
) -> (result: Result<(), (TimerCall, IoError)>)
    ensures
        match outcome {
            Ok(()) => result is Ok && final(thread).id == Some(timer),
            Err(error) => {
                &&& result == Err::<(), (TimerCall, IoError)>((TimerCall::Delete { timer }, error))
                &&& *final(thread) == *old(thread)
            },
        },
{
    match outcome {
        Ok(()) => {
            thread.id = Some(timer);
            Ok(())
        },
        Err(error) => Err((TimerCall::Delete { timer }, error)),
    }
}

/// Takes the thread's timer away: it is stopped first and then deleted.
pub fn unregister_thread(thread: &mut ThreadTimer) -> (calls: Vec<TimerCall>)
    ensures
        final(thread).id is None,
        calls@ == match old(thread).id {
            Some(timer) => seq![
                TimerCall::SetTime { timer, spec: TimerSpec { sec: 0, nsec: 0 } },
                TimerCall::Delete { timer },
            ],
            None => Seq::<TimerCall>::empty(),
        },
{
    let mut calls: Vec<TimerCall> = Vec::new();
    if let Some(timer) = thread.id.take() {
        calls.push(TimerCall::SetTime { timer, spec: TimerSpec { sec: 0, nsec: 0 } });
        calls.push(TimerCall::Delete { timer });
    }
    calls
}

/// A timer that is set by [`spec_of`] fires once per interval: the seconds and
/// nanoseconds add up to it.
pub proof fn law_timer_fires_once_per_interval(interval_ns: i64)
    requires
        interval_ns >= 0,
    ensures
        spec_of(interval_ns).sec * 1_000_000_000 + spec_of(interval_ns).nsec == interval_ns,
        0 <= spec_of(interval_ns).nsec < 1_000_000_000,
{
}

/// A timer measures the CPU time of one thread and raises SIGPROF on that same
/// thread, whose number the signal carries.
pub proof fn law_timers_signal_their_own_thread(tid: i32)
    ensures
        request_for(tid).thread_id == tid,
        request_for(tid).value == tid,
        request_for(tid).clock == 3,
        request_for(tid).signal == 27,
        request_for(tid).notify == 4,
{
}

/// A thread gets a timer exactly where the engine runs and the thread has none
/// yet; one that has its timer is left alone, and one that asks while the
/// engine is off is told so.
pub proof fn law_each_thread_gets_one_timer(
    engine: CtimerEngine,
    thread: ThreadTimer,
    tid: i32,
    step: Registration,
)
    requires
        registration(engine, thread, tid, step),
    ensures
        step is Create <==> engine.running && thread.id is None,
        step is Registered <==> engine.running && thread.id is Some,
        step is Refused <==> !engine.running,
        step matches Registration::Create(request) ==> request.thread_id == tid && request.value
            == tid && request.clock == 3 && request.signal == 27 && request.notify == 4,
{
}

/// The longer interval has the longer span.
pub proof fn law_longer_intervals_have_longer_spans(short_ns: i64, long_ns: i64)
    requires
        0 <= short_ns < long_ns,
    ensures
        spec_of(short_ns).sec < spec_of(long_ns).sec || spec_of(short_ns).sec == spec_of(
            long_ns,
        ).sec && spec_of(short_ns).nsec < spec_of(long_ns).nsec,
        spec_of(short_ns).sec >= 0,
{
}

} // verus!
