//! The bounded buffer between the signal handler and the reader of samples.

use vstd::prelude::*;

use crate::sampling::RawSample;

verus! {

/// Samples that were written and not yet read, the oldest first.
pub struct SampleBuffer {
    capacity: usize,
    samples: Vec<RawSample>,
    dropped: u64,
}

/// What a sample buffer holds.
#[verifier::ext_equal]
pub struct SampleBufferModel {
    /// How many samples fit.
    pub capacity: nat,
    /// The samples that wait to be read.
    pub samples: Seq<RawSample>,
    /// How many samples found no room since the count was last taken.
    pub dropped: u64,
}

impl View for SampleBuffer {
    type V = SampleBufferModel;

    closed spec fn view(&self) -> SampleBufferModel {
        SampleBufferModel {
            capacity: self.capacity as nat,
            samples: self.samples@,
            dropped: self.dropped,
        }
    }
}

impl SampleBufferModel {
    /// No more samples wait than fit.
    pub open spec fn wf(self) -> bool {
        self.samples.len() <= self.capacity
    }

    /// A further sample finds no room.
    pub open spec fn full(self) -> bool {
        self.samples.len() >= self.capacity
    }

    /// The buffer after one more sample found no room.
    pub open spec fn missed(self) -> SampleBufferModel {
        SampleBufferModel {
            dropped: if self.dropped < u64::MAX {
                (self.dropped + 1) as u64
            } else {
                u64::MAX
            },
            ..self
        }
    }
}

impl SampleBuffer {
    /// An empty buffer with room for `capacity` samples, which it allocates
    /// here and keeps, so that adding a sample never allocates.
    pub fn new(capacity: usize) -> (buffer: SampleBuffer)
        ensures
            buffer@ == (SampleBufferModel {
                capacity: capacity as nat,
                samples: Seq::empty(),
                dropped: 0,
            }),
    {
        SampleBuffer { capacity, samples: Vec::with_capacity(capacity), dropped: 0 }
    }

    /// Tells whether there is room for a sample, and counts it as dropped
    /// where there is none.
    pub fn claim_slot(&mut self) -> (claimed: bool)
        ensures
            claimed == !old(self)@.full(),
            final(self)@ == if claimed {
                old(self)@
            } else {
                old(self)@.missed()
            },
    {
        if self.samples.len() < self.capacity {
            true
        } else {
            self.dropped = self.dropped.saturating_add(1);
            false
        }
    }

    /// Adds a sample for which a slot was claimed.
    pub fn commit(&mut self, sample: RawSample)
        requires
            old(self)@.wf(),
            !old(self)@.full(),
        ensures
            final(self)@.wf(),
            final(self)@ == (SampleBufferModel {
                samples: old(self)@.samples.push(sample),
                ..old(self)@
            }),
    {
        self.samples.push(sample);
    }

    /// Whether a sample waits to be read.
    pub fn has_pending(&self) -> (pending: bool)
        ensures
            pending == (self@.samples.len() > 0),
    {
        self.samples.len() > 0
    }

    /// Takes all waiting samples, the oldest first.
    pub fn drain(&mut self) -> (samples: Vec<RawSample>)
        requires
            old(self)@.wf(),
        ensures
            samples@ == old(self)@.samples,
            final(self)@.wf(),
            final(self)@ == (SampleBufferModel { samples: Seq::empty(), ..old(self)@ }),
    {
        let mut samples: Vec<RawSample> = Vec::new();
        let mut i: usize = 0;
        while i < self.samples.len()
            invariant
                i <= self.samples@.len(),
                *self == *old(self),
                samples@ == self.samples@.take(i as int),
            decreases self.samples.len() - i,
        {
            samples.push(self.samples[i]);
            i = i + 1;
            assert(samples@ =~= self.samples@.take(i as int));
        }
        assert(samples@ =~= self.samples@);
        self.samples.clear();
        samples
    }

    /// Takes the number of dropped samples, which starts anew at 0.
    pub fn take_dropped_count(&mut self) -> (dropped: u64)
        ensures
            dropped == old(self)@.dropped,
            final(self)@ == (SampleBufferModel { dropped: 0, ..old(self)@ }),
    {
        let dropped = self.dropped;
        self.dropped = 0;
        dropped
    }
}

/// A sample finds room exactly where fewer wait than fit; one that does not is
/// counted and changes nothing else.
pub proof fn law_samples_without_room_are_counted(buffer: SampleBufferModel)
    ensures
        buffer.full() <==> !(buffer.samples.len() < buffer.capacity),
        buffer.missed().samples == buffer.samples,
        buffer.missed().capacity == buffer.capacity,
        buffer.dropped < u64::MAX ==> buffer.missed().dropped == buffer.dropped + 1,
        buffer.dropped == u64::MAX ==> buffer.missed().dropped == u64::MAX,
{
}

} // verus!
