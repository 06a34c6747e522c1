//! Data sources that the flush thread drains into the session.

use std::collections::HashMap;

use vstd::prelude::*;

use crate::recorder::event::{SampleSource, TelemetryEvent, ThreadRole};

verus! {

/// A stack sample that a profiler took.
#[derive(Debug)]
pub struct CpuSampleData {
    pub timestamp_ns: u64,
    /// The sampled operating-system thread.
    pub tid: u32,
    /// The profiler that took the sample.
    pub source: SampleSource,
    /// Return addresses, the innermost first.
    pub callchain: Vec<u64>,
}

/// What a source gathers.
#[derive(Debug)]
pub enum SourceItem {
    /// A sample, which is attributed to the role of its thread when it is
    /// taken.
    Sample(CpuSampleData),
    /// An event that is recorded as it is.
    Event(TelemetryEvent),
}

/// Gathers what one data source yields until the flush thread takes it.
#[derive(Debug)]
pub struct Source {
    /// The name of the source.
    pub name: String,
    /// What was not taken yet, the oldest first.
    pub pending: Vec<SourceItem>,
    /// The threads that exited and that the source has yet to let go of.
    pub stopped: Vec<u32>,
}

/// What a source holds.
#[verifier::ext_equal]
pub struct SourceModel {
    pub name: Seq<char>,
    pub pending: Seq<SourceItem>,
    pub stopped: Seq<u32>,
}

/// The event of an item. A sample is attributed to what its thread does for
/// the runtime.
pub open spec fn item_event(item: SourceItem, roles: Map<u32, ThreadRole>) -> TelemetryEvent {
    match item {
        SourceItem::Sample(sample) => TelemetryEvent::CpuSample {
            timestamp_ns: sample.timestamp_ns,
            tid: sample.tid,
            role: if roles.dom().contains(sample.tid) {
                Some(roles[sample.tid])
            } else {
                None
            },
            source: sample.source,
            callchain: sample.callchain,
        },
        SourceItem::Event(event) => event,
    }
}

impl SourceModel {
    /// The events that a flush hands out, given the roles of the threads.
    pub open spec fn events(self, roles: Map<u32, ThreadRole>) -> Seq<TelemetryEvent> {
        self.pending.map_values(|item: SourceItem| item_event(item, roles))
    }

    /// The source after a flush.
    pub open spec fn emptied(self) -> SourceModel {
        SourceModel { pending: Seq::empty(), ..self }
    }

    /// The source after thread `tid` exited.
    pub open spec fn without_thread(self, tid: u32) -> SourceModel {
        SourceModel { stopped: self.stopped.push(tid), ..self }
    }
}

impl View for Source {
    type V = SourceModel;

    open spec fn view(&self) -> SourceModel {
        SourceModel { name: self.name@, pending: self.pending@, stopped: self.stopped@ }
    }
}

impl Source {
    /// A source that holds nothing.
    pub fn new(name: String) -> (source: Source)
        ensures
            source@ == (SourceModel {
                name: name@,
                pending: Seq::empty(),
                stopped: Seq::empty(),
            }),
    {
        Source { name, pending: Vec::new(), stopped: Vec::new() }
    }

    /// Adds a sample.
    pub fn push(&mut self, sample: CpuSampleData)
        ensures
            final(self)@ == (SourceModel {
                pending: old(self)@.pending.push(SourceItem::Sample(sample)),
                ..old(self)@
            }),
    {
        self.pending.push(SourceItem::Sample(sample));
    }

    /// Adds an event.
    pub fn push_event(&mut self, event: TelemetryEvent)
        ensures
            final(self)@ == (SourceModel {
                pending: old(self)@.pending.push(SourceItem::Event(event)),
                ..old(self)@
            }),
    {
        self.pending.push(SourceItem::Event(event));
    }

    /// Hands out everything the source holds, each sample attributed to the
    /// role of its thread.
    pub fn flush(&mut self, roles: &HashMap<u32, ThreadRole>) -> (events: Vec<TelemetryEvent>)
        ensures
            events@ == old(self)@.events(roles@),
            final(self)@ == old(self)@.emptied(),
    {
        broadcast use vstd::std_specs::hash::group_hash_axioms;

        let mut pending: Vec<SourceItem> = Vec::new();
        core::mem::swap(&mut pending, &mut self.pending);
        let ghost all = pending@;
        let mut events: Vec<TelemetryEvent> = Vec::new();
        for item in it: pending.into_iter()
            invariant
                it.seq() == all,
                self@ == old(self)@.emptied(),
                events@ == all.take(it.index() as int).map_values(
                    |item: SourceItem| item_event(item, roles@),
                ),
        {
            broadcast use vstd::std_specs::hash::group_hash_axioms;

            let ghost n = it.index() as int;
            match item {
                SourceItem::Sample(sample) => {
                    let role = match roles.get(&sample.tid) {
                        Some(role) => Some(*role),
                        None => None,
                    };
                    events.push(
                        TelemetryEvent::CpuSample {
                            timestamp_ns: sample.timestamp_ns,
                            tid: sample.tid,
                            role,
                            source: sample.source,
                            callchain: sample.callchain,
                        },
                    );
                },
                SourceItem::Event(event) => events.push(event),
            }
            assert(events@ =~= all.take(n + 1).map_values(
                |item: SourceItem| item_event(item, roles@),
            ));
        }
        assert(all.take(all.len() as int) =~= all);
        events
    }

    /// Remembers that thread `tid` is about to exit.
    pub fn on_thread_stop(&mut self, tid: u32)
        ensures
            final(self)@ == old(self)@.without_thread(tid),
    {
        self.stopped.push(tid);
    }

    /// Takes the threads that exited since the last call, in their order.
    pub fn take_stopped(&mut self) -> (stopped: Vec<u32>)
        ensures
            stopped@ == old(self)@.stopped,
            final(self)@ == (SourceModel { stopped: Seq::empty(), ..old(self)@ }),
    {
        let mut stopped: Vec<u32> = Vec::new();
        core::mem::swap(&mut stopped, &mut self.stopped);
        stopped
    }
}

} // verus!
