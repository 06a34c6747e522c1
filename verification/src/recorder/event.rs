//! The events that a session records.

use vstd::prelude::*;

verus! {

/// Identity of a task. Zero stands for "no task".
#[derive(Clone, Copy, Debug, PartialEq, Eq, Structural)]
pub struct TaskId {
    pub id: u64,
}

/// Identity of a worker thread, unique across the runtimes of one session.
#[derive(Clone, Copy, Debug, PartialEq, Eq, Structural)]
pub struct WorkerId {
    pub id: u64,
}

/// What an operating-system thread does for the runtime that started it.
#[derive(Clone, Copy, Debug, PartialEq, Eq, Structural)]
pub enum ThreadRole {
    /// A thread of the blocking pool, or a worker that has not run yet.
    Blocking,
    /// A worker, with its identity.
    Worker(WorkerId),
}

/// Which profiler took a sample.
#[derive(Clone, Copy, Debug, PartialEq, Eq, Structural)]
pub enum SampleSource {
    /// The profiler of CPU time.
    CpuProfile,
    /// The profiler of scheduler events.
    SchedEvent,
}

/// One recorded event.
#[derive(Debug)]
pub enum TelemetryEvent {
    PollStart {
        timestamp_ns: u64,
        worker_id: WorkerId,
        local_queue: u8,
        task_id: TaskId,
        location: String,
    },
    PollEnd { timestamp_ns: u64, worker_id: WorkerId },
    WorkerPark { timestamp_ns: u64, worker_id: WorkerId },
    WorkerUnpark { timestamp_ns: u64, worker_id: WorkerId },
    TaskSpawn { timestamp_ns: u64, task_id: TaskId, location: String, instrumented: bool },
    TaskTerminate { timestamp_ns: u64, task_id: TaskId },
    QueueSample { timestamp_ns: u64, global_queue: u8 },
    Wake { timestamp_ns: u64, waker_task_id: TaskId, woken_task_id: TaskId, target_worker: u8 },
    CpuSample {
        timestamp_ns: u64,
        tid: u32,
        role: Option<ThreadRole>,
        source: SampleSource,
        callchain: Vec<u64>,
    },
    /// An event of the embedding program, already encoded.
    Custom { encoded: Vec<u8> },
}

impl TelemetryEvent {
    /// Bytes that the event takes in a thread-local buffer: one for its kind,
    /// then its fields at their own width; `usize::MAX` where that does not fit.
    pub open spec fn spec_encoded_len(&self) -> nat {
        let len = match self {
            TelemetryEvent::PollStart { location, .. } => 26 + str_len(location@),
            TelemetryEvent::PollEnd { .. } => 17,
            TelemetryEvent::WorkerPark { .. } => 17,
            TelemetryEvent::WorkerUnpark { .. } => 17,
            TelemetryEvent::TaskSpawn { location, .. } => 18 + str_len(location@),
            TelemetryEvent::TaskTerminate { .. } => 17,
            TelemetryEvent::QueueSample { .. } => 10,
            TelemetryEvent::Wake { .. } => 26,
            TelemetryEvent::CpuSample { callchain, .. } => 23int + 8 * callchain@.len(),
            TelemetryEvent::Custom { encoded } => 1int + encoded@.len(),
        };
        if len <= usize::MAX {
            len as nat
        } else {
            usize::MAX as nat
        }
    }

    /// The number of bytes that the event takes in a thread-local buffer.
    pub fn encoded_len(&self) -> (len: usize)
        ensures
            len == self.spec_encoded_len(),
            len > 0,
    {
        match self {
            TelemetryEvent::PollStart { location, .. } => location.as_str().len().saturating_add(
                26,
            ),
            TelemetryEvent::PollEnd { .. } => 17,
            TelemetryEvent::WorkerPark { .. } => 17,
            TelemetryEvent::WorkerUnpark { .. } => 17,
            TelemetryEvent::TaskSpawn { location, .. } => location.as_str().len().saturating_add(
                18,
            ),
            TelemetryEvent::TaskTerminate { .. } => 17,
            TelemetryEvent::QueueSample { .. } => 10,
            TelemetryEvent::Wake { .. } => 26,
            TelemetryEvent::CpuSample { callchain, .. } => match callchain.len().checked_mul(8) {
                Some(bytes) => bytes.saturating_add(23),
                None => usize::MAX,
            },
            TelemetryEvent::Custom { encoded } => encoded.len().saturating_add(1),
        }
    }
}

/// The length in bytes that `str::len` reports for these characters.
pub open spec fn str_len(s: Seq<char>) -> int {
    vstd::utf8::encode_utf8(s).len() as usize as int
}

} // verus!
