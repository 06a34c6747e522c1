//! What a CPU sampler is asked for, and what it hands out.

use vstd::prelude::*;

use crate::fp_profiler::unwind::MAX_FRAMES;

verus! {

/// When a sample is taken.
#[derive(Copy, Clone, Debug, PartialEq, Eq, Structural)]
pub enum SamplingMode {
    /// So many times per second of CPU time.
    FrequencyHz(u64),
    /// Once every so many events.
    Period(u64),
}

/// What is sampled.
#[derive(Copy, Clone, Debug, PartialEq, Eq, Structural)]
pub enum EventSource {
    /// CPU time, as the kernel's software clock counts it.
    SwCpuClock,
    /// Context switches.
    SwContextSwitches,
}

/// The configuration of a sampler.
#[derive(Copy, Clone, Debug, PartialEq, Eq, Structural)]
pub struct SamplerConfig {
    pub sampling: SamplingMode,
    pub event_source: EventSource,
    /// Whether kernel frames are captured too.
    pub include_kernel: bool,
}

/// One stack sample.
#[derive(Debug)]
pub struct Sample {
    /// The sampled instruction pointer.
    pub ip: u64,
    pub pid: u32,
    pub tid: u32,
    /// Monotonic time in nanoseconds.
    pub time: u64,
    pub cpu: u32,
    /// How much CPU time the sample stands for, in nanoseconds.
    pub period: u64,
    /// Return addresses, the innermost first.
    pub callchain: Vec<u64>,
    /// Payload of a tracepoint.
    pub raw: Option<Vec<u8>>,
}

/// What a sample holds.
#[verifier::ext_equal]
pub struct SampleModel {
    pub ip: u64,
    pub pid: u32,
    pub tid: u32,
    pub time: u64,
    pub cpu: u32,
    pub period: u64,
    pub callchain: Seq<u64>,
    pub raw: Option<Seq<u8>>,
}

impl View for Sample {
    type V = SampleModel;

    open spec fn view(&self) -> SampleModel {
        SampleModel {
            ip: self.ip,
            pid: self.pid,
            tid: self.tid,
            time: self.time,
            cpu: self.cpu,
            period: self.period,
            callchain: self.callchain@,
            raw: match self.raw {
                Some(raw) => Some(raw@),
                None => None,
            },
        }
    }
}

/// What each of the samples holds.
pub open spec fn models(samples: Seq<Sample>) -> Seq<SampleModel> {
    samples.map_values(|s: Sample| s@)
}

/// A sample as the signal handler writes it.
#[derive(Copy, Clone)]
pub struct RawSample {
    pub pid: u32,
    pub tid: u32,
    /// Monotonic time in nanoseconds.
    pub time: u64,
    pub cpu: u32,
    /// How much CPU time the sample stands for, in nanoseconds.
    pub period: u64,
    /// How many of the frames are filled.
    pub num_frames: u32,
    /// Return addresses, the innermost first.
    pub frames: [u64; 256],
}

impl RawSample {
    /// The filled frames.
    pub open spec fn chain(self) -> Seq<u64> {
        self.frames@.take(
            if self.num_frames < MAX_FRAMES {
                self.num_frames as int
            } else {
                MAX_FRAMES as int
            },
        )
    }

    /// The sample that the raw one stands for. Without a frame its instruction
    /// pointer is 0.
    pub open spec fn sample(self) -> SampleModel {
        SampleModel {
            ip: if self.chain().len() > 0 {
                self.chain()[0]
            } else {
                0
            },
            pid: self.pid,
            tid: self.tid,
            time: self.time,
            cpu: self.cpu,
            period: self.period,
            callchain: self.chain(),
            raw: None,
        }
    }

    /// Makes a sample of what the signal handler wrote.
    pub fn to_sample(&self) -> (sample: Sample)
        ensures
            sample@ == self.sample(),
    {
        let filled: usize = if (self.num_frames as usize) < MAX_FRAMES {
            self.num_frames as usize
        } else {
            MAX_FRAMES
        };
        let mut callchain: Vec<u64> = Vec::new();
        let mut i: usize = 0;
        while i < filled
            invariant
                i <= filled <= 256,
                callchain@ == self.frames@.take(i as int),
            decreases filled - i,
        {
            callchain.push(self.frames[i]);
            i = i + 1;
            assert(callchain@ =~= self.frames@.take(i as int));
        }
        let ip: u64 = if callchain.len() > 0 {
            callchain[0]
        } else {
            0
        };
        Sample {
            ip,
            pid: self.pid,
            tid: self.tid,
            time: self.time,
            cpu: self.cpu,
            period: self.period,
            callchain,
            raw: None,
        }
    }
}

/// A sample carries over what the signal handler wrote: the process, the
/// thread, the time, the CPU and the CPU time, and the filled frames, the first
/// of which is the sampled instruction. It has no payload.
pub proof fn law_samples_carry_over_what_was_written(raw: RawSample)
    ensures
        raw.sample().pid == raw.pid,
        raw.sample().tid == raw.tid,
        raw.sample().time == raw.time,
        raw.sample().cpu == raw.cpu,
        raw.sample().period == raw.period,
        raw.sample().raw is None,
        raw.num_frames <= 256 ==> raw.sample().callchain.len() == raw.num_frames,
        raw.num_frames > 256 ==> raw.sample().callchain.len() == 256,
        forall|i: int|
            0 <= i < raw.num_frames && i < 256 ==> #[trigger] raw.sample().callchain[i]
                == raw.frames@[i],
        raw.num_frames > 0 ==> raw.sample().ip == raw.frames@[0],
        raw.num_frames == 0 ==> raw.sample().ip == 0,
{
}

/// The models of samples are as many as the samples, one for each.
pub proof fn law_each_sample_has_its_model(samples: Seq<Sample>, i: int)
    requires
        0 <= i < samples.len(),
    ensures
        models(samples).len() == samples.len(),
        models(samples)[i].ip == samples[i].ip,
        models(samples)[i].pid == samples[i].pid,
        models(samples)[i].tid == samples[i].tid,
        models(samples)[i].time == samples[i].time,
        models(samples)[i].cpu == samples[i].cpu,
        models(samples)[i].period == samples[i].period,
        models(samples)[i].callchain == samples[i].callchain@,
{
}

} // verus!
