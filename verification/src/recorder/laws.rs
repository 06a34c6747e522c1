//! What holds of the recording core over any sequence of operations.

use vstd::multiset::Multiset;
use vstd::prelude::*;

use crate::recorder::buffer::{
    capped, law_accepting_in_two_goes, law_accepting_nothing, CollectorModel,
};
use crate::recorder::event::TelemetryEvent;
use crate::recorder::runtime_context::{joined, law_block_in_order, runtime_texts};
use crate::recorder::shared_state::{
    flushed_batches, is_worker, lemma_live_buffers_keep_owner, live_at, live_buffers,
    one_buffer_per_thread, place_of, registered, source_events, BufferModel, SharedModel,
};

verus! {

/// The events of the batches together, with their multiplicities.
pub open spec fn pooled(batches: Seq<Seq<TelemetryEvent>>) -> Multiset<TelemetryEvent>
    decreases batches.len(),
{
    if batches.len() == 0 {
        Multiset::empty()
    } else {
        pooled(batches.drop_last()).add(batches.last().to_multiset())
    }
}

/// The pending events of each buffer.
pub open spec fn pendings(buffers: Seq<BufferModel>) -> Seq<Seq<TelemetryEvent>> {
    buffers.map_values(|b: BufferModel| b.pending)
}

/// Every event that the core holds, collected or still pending.
pub open spec fn accounted(state: SharedModel) -> Multiset<TelemetryEvent> {
    pooled(state.collector.batches).add(pooled(pendings(state.buffers)))
}

/// The buffers took in the events `brought` and gave the batches `handed` to
/// the collector; no event was lost or doubled on the way.
pub open spec fn moved(
    before: SharedModel,
    after: SharedModel,
    brought: Multiset<TelemetryEvent>,
    handed: Seq<Seq<TelemetryEvent>>,
) -> bool {
    &&& after.collector == before.collector.accepted(handed)
    &&& pooled(pendings(after.buffers)).add(pooled(handed)) == pooled(
        pendings(before.buffers),
    ).add(brought)
}

/// Of what the core held before and of the events `brought`, the writer got
/// the events `written`, the collector evicted and counted the batches
/// `evicted`, and the core holds the rest, each event exactly once.
pub open spec fn conserved(
    before: SharedModel,
    after: SharedModel,
    brought: Multiset<TelemetryEvent>,
    written: Multiset<TelemetryEvent>,
    evicted: Seq<Seq<TelemetryEvent>>,
) -> bool {
    &&& accounted(after).add(written).add(pooled(evicted)) == accounted(before).add(brought)
    &&& after.collector.dropped == capped(before.collector.dropped + evicted.len())
}

/// No buffer is poisoned, and the buffer of an exited thread is empty.
pub open spec fn sound(state: SharedModel) -> bool {
    forall|i: int|
        0 <= i < state.buffers.len() ==> !(#[trigger] state.buffers[i]).poisoned && (
        !state.buffers[i].live ==> state.buffers[i].pending.len() == 0)
}

proof fn lemma_pooled_push(batches: Seq<Seq<TelemetryEvent>>, batch: Seq<TelemetryEvent>)
    ensures
        pooled(batches.push(batch)) == pooled(batches).add(batch.to_multiset()),
{
    assert(batches.push(batch).drop_last() =~= batches);
}

proof fn lemma_pooled_update(
    batches: Seq<Seq<TelemetryEvent>>,
    i: int,
    batch: Seq<TelemetryEvent>,
)
    requires
        0 <= i < batches.len(),
    ensures
        pooled(batches.update(i, batch)).add(batches[i].to_multiset()) == pooled(batches).add(
            batch.to_multiset(),
        ),
    decreases batches.len(),
{
    let after = batches.update(i, batch);
    if i == batches.len() - 1 {
        assert(after.drop_last() =~= batches.drop_last());
    } else {
        lemma_pooled_update(batches.drop_last(), i, batch);
        assert(after.drop_last() =~= batches.drop_last().update(i, batch));
    }
    let left = pooled(after).add(batches[i].to_multiset());
    let right = pooled(batches).add(batch.to_multiset());
    assert forall|e: TelemetryEvent| #[trigger] left.count(e) == right.count(e) by {
        if i < batches.len() - 1 {
            let front = batches.drop_last();
            assert(pooled(front.update(i, batch)).add(front[i].to_multiset()).count(e) == pooled(
                front,
            ).add(batch.to_multiset()).count(e));
        }
    }
    assert(left =~= right);
}

proof fn lemma_pooled_concat(a: Seq<Seq<TelemetryEvent>>, b: Seq<Seq<TelemetryEvent>>)
    ensures
        pooled(a + b) == pooled(a).add(pooled(b)),
    decreases b.len(),
{
    if b.len() == 0 {
        assert(a + b =~= a);
        assert(pooled(a).add(pooled(b)) =~= pooled(a));
    } else {
        lemma_pooled_concat(a, b.drop_last());
        assert((a + b).drop_last() =~= a + b.drop_last());
        assert(pooled(a + b) =~= pooled(a).add(pooled(b)));
    }
}

/// What comes to the collector stays in it or is evicted and counted.
proof fn lemma_accepted(collector: CollectorModel, batches: Seq<Seq<TelemetryEvent>>)
    requires
        collector.wf(),
    ensures
        collector.accepted(batches).wf(),
        pooled(collector.accepted(batches).batches).add(pooled(collector.evicted(batches)))
            == pooled(collector.batches).add(pooled(batches)),
        collector.evicted(batches).len() == collector.excess(batches),
{
    let all = collector.batches + batches;
    let lost = collector.evicted(batches);
    let kept = collector.accepted(batches).batches;
    lemma_pooled_concat(collector.batches, batches);
    lemma_pooled_concat(lost, kept);
    assert(lost + kept =~= all);
    assert(pooled(kept).add(pooled(lost)) =~= pooled(lost).add(pooled(kept)));
}

/// Events that the buffers take in or hand on are kept, but for those of the
/// batches that the collector evicts.
proof fn lemma_moved_is_conserved(
    before: SharedModel,
    after: SharedModel,
    brought: Multiset<TelemetryEvent>,
    handed: Seq<Seq<TelemetryEvent>>,
)
    requires
        before.wf(),
        moved(before, after, brought, handed),
    ensures
        conserved(
            before,
            after,
            brought,
            Multiset::empty(),
            before.collector.evicted(handed),
        ),
{
    let evicted = before.collector.evicted(handed);
    lemma_accepted(before.collector, handed);
    let left = accounted(after).add(Multiset::empty()).add(pooled(evicted));
    let right = accounted(before).add(brought);
    assert forall|e: TelemetryEvent| #[trigger] left.count(e) == right.count(e) by {
        assert(pooled(after.collector.batches).add(pooled(evicted)).count(e) == pooled(
            before.collector.batches,
        ).add(pooled(handed)).count(e));
        assert(pooled(pendings(after.buffers)).add(pooled(handed)).count(e) == pooled(
            pendings(before.buffers),
        ).add(brought).count(e));
    }
    assert(left =~= right);
}

/// Two moves in a row are one.
proof fn lemma_moves_compose(
    a: SharedModel,
    b: SharedModel,
    c: SharedModel,
    x: Multiset<TelemetryEvent>,
    y: Multiset<TelemetryEvent>,
    p: Seq<Seq<TelemetryEvent>>,
    q: Seq<Seq<TelemetryEvent>>,
)
    requires
        a.wf(),
        moved(a, b, x, p),
        moved(b, c, y, q),
    ensures
        moved(a, c, x.add(y), p + q),
{
    law_accepting_in_two_goes(a.collector, p, q);
    lemma_pooled_concat(p, q);
    let left = pooled(pendings(c.buffers)).add(pooled(p + q));
    let right = pooled(pendings(a.buffers)).add(x.add(y));
    assert forall|e: TelemetryEvent| #[trigger] left.count(e) == right.count(e) by {
        assert(pooled(pendings(b.buffers)).add(pooled(p)).count(e) == pooled(
            pendings(a.buffers),
        ).add(x).count(e));
        assert(pooled(pendings(c.buffers)).add(pooled(q)).count(e) == pooled(
            pendings(b.buffers),
        ).add(y).count(e));
    }
    assert(left =~= right);
}

/// Nothing that happens moves nothing.
proof fn lemma_nothing_moved(state: SharedModel, after: SharedModel)
    requires
        state.wf(),
        after.collector == state.collector,
        pendings(after.buffers) == pendings(state.buffers),
    ensures
        moved(state, after, Multiset::empty(), Seq::empty()),
{
    law_accepting_nothing(state.collector);
    assert(pooled(pendings(after.buffers)).add(pooled(Seq::empty())) =~= pooled(
        pendings(state.buffers),
    ).add(Multiset::empty()));
}

/// Where nothing was evicted, nothing but what the writer got is gone.
pub proof fn law_without_eviction_nothing_is_lost(
    before: SharedModel,
    after: SharedModel,
    brought: Multiset<TelemetryEvent>,
    written: Multiset<TelemetryEvent>,
    evicted: Seq<Seq<TelemetryEvent>>,
)
    requires
        conserved(before, after, brought, written, evicted),
        after.collector.dropped == before.collector.dropped,
        before.collector.dropped < u64::MAX,
    ensures
        accounted(after).add(written) == accounted(before).add(brought),
{
    assert(evicted.len() == 0);
    assert(accounted(after).add(written).add(pooled(evicted)) =~= accounted(after).add(written));
}

/// Recording takes the recorded events in, and nothing else. What the buffer
/// does not keep goes to the collector.
pub proof fn law_recording_adds_the_events(
    state: SharedModel,
    thread: u64,
    events: Seq<TelemetryEvent>,
)
    requires
        state.wf(),
        sound(state),
    ensures
        exists|handed: Seq<Seq<TelemetryEvent>>| #[trigger]
            moved(state, state.recorded(thread, events), events.to_multiset(), handed),
        state.recorded(thread, events).wf(),
        sound(state.recorded(thread, events)),
{
    let buffers = state.with_registration(thread);
    let i = place_of(buffers, thread);
    let after = state.recorded(thread, events);
    lemma_registration(state, thread);
    let buffer = buffers[i];
    let pending = buffer.pending + events;
    vstd::seq_lib::lemma_multiset_commutative(buffer.pending, events);
    assert(pending.to_multiset() == buffer.pending.to_multiset().add(events.to_multiset()));
    let left = after.buffers[i].pending;
    lemma_pooled_update(pendings(buffers), i, left);
    assert(pendings(after.buffers) =~= pendings(buffers).update(i, left));
    broadcast use vstd::seq_lib::group_to_multiset_ensures;

    let handed = if left.len() == 0 && pending.len() > 0 {
        seq![pending]
    } else {
        Seq::empty()
    };
    lemma_pooled_push(Seq::empty(), pending);
    assert(Seq::<Seq<TelemetryEvent>>::empty().push(pending) =~= seq![pending]);
    law_accepting_nothing(state.collector);
    law_accepting_in_two_goes(state.collector, handed, Seq::empty());
    let total = pooled(pendings(state.buffers)).add(events.to_multiset());
    let now = pooled(pendings(after.buffers)).add(pooled(handed));
    assert forall|e: TelemetryEvent| #[trigger] now.count(e) == total.count(e) by {
        assert(pooled(pendings(after.buffers)).add(buffer.pending.to_multiset()).count(e)
            == pooled(pendings(buffers)).add(left.to_multiset()).count(e));
        if left.len() == 0 {
            assert(left =~= Seq::empty());
            if pending.len() == 0 {
                assert(pending =~= Seq::empty());
            }
        }
    }
    assert(now =~= total);
    assert(moved(state, after, events.to_multiset(), handed));
    lemma_same_owners(buffers, after.buffers);
}

/// A flush on request moves the pending events to the collector; none is lost
/// or doubled on the way.
pub proof fn law_flushing_keeps_the_events(state: SharedModel, thread: u64)
    requires
        state.wf(),
        sound(state),
    ensures
        exists|handed: Seq<Seq<TelemetryEvent>>| #[trigger]
            moved(state, state.flushed(thread), Multiset::empty(), handed),
        state.flushed(thread).wf(),
        sound(state.flushed(thread)),
{
    let after = state.flushed(thread);
    let i = place_of(state.buffers, thread);
    if registered(state.buffers, thread) {
        assert(live_at(state.buffers, thread, i));
        lemma_emptied(state, after, i);
    } else {
        lemma_nothing_moved(state, after);
    }
}

/// A thread that exits leaves its pending events to the collector; none is
/// lost or doubled on the way.
pub proof fn law_exit_keeps_the_events(state: SharedModel, thread: u64)
    requires
        state.wf(),
        sound(state),
    ensures
        exists|handed: Seq<Seq<TelemetryEvent>>| #[trigger]
            moved(state, state.exited(thread), Multiset::empty(), handed),
        state.exited(thread).wf(),
        sound(state.exited(thread)),
{
    let after = state.exited(thread);
    let i = place_of(state.buffers, thread);
    if registered(state.buffers, thread) {
        assert(live_at(state.buffers, thread, i));
        lemma_emptied(state, after, i);
    } else {
        lemma_nothing_moved(state, after);
    }
}

/// A buffer whose pending events were given to the collector, or that stayed
/// as it was, moves those events and nothing else.
proof fn lemma_emptied(state: SharedModel, after: SharedModel, i: int)
    requires
        state.wf(),
        sound(state),
        0 <= i < state.buffers.len(),
        after == state || {
            &&& after.contexts == state.contexts
            &&& after.next_worker_id == state.next_worker_id
            &&& after.buffers == state.buffers.update(i, after.buffers[i])
            &&& after.buffers[i].thread == state.buffers[i].thread
            &&& !after.buffers[i].poisoned
            &&& after.buffers[i].live ==> state.buffers[i].live
            &&& after.buffers[i].pending.len() == 0
            &&& after.collector == if state.buffers[i].pending.len() > 0 {
                state.collector.accepted(seq![state.buffers[i].pending])
            } else {
                state.collector
            }
        },
    ensures
        exists|handed: Seq<Seq<TelemetryEvent>>| #[trigger]
            moved(state, after, Multiset::empty(), handed),
        after.wf(),
        sound(after),
{
    if after == state {
        lemma_nothing_moved(state, after);
    } else {
        let pending = state.buffers[i].pending;
        let none = after.buffers[i].pending;
        let handed = if pending.len() > 0 {
            seq![pending]
        } else {
            Seq::empty()
        };
        broadcast use vstd::seq_lib::group_to_multiset_ensures;

        assert(none =~= Seq::empty());
        lemma_pooled_update(pendings(state.buffers), i, none);
        assert(pendings(after.buffers) =~= pendings(state.buffers).update(i, none));
        lemma_pooled_push(Seq::empty(), pending);
        assert(Seq::<Seq<TelemetryEvent>>::empty().push(pending) =~= seq![pending]);
        law_accepting_nothing(state.collector);
        law_accepting_in_two_goes(state.collector, handed, Seq::empty());
        let now = pooled(pendings(after.buffers)).add(pooled(handed));
        let total = pooled(pendings(state.buffers)).add(Multiset::empty());
        assert forall|e: TelemetryEvent| #[trigger] now.count(e) == total.count(e) by {
            assert(pooled(pendings(after.buffers)).add(pending.to_multiset()).count(e) == pooled(
                pendings(state.buffers),
            ).add(none.to_multiset()).count(e));
            if pending.len() == 0 {
                assert(pending =~= none);
            }
        }
        assert(now =~= total);
        assert(moved(state, after, Multiset::empty(), handed));
        lemma_same_owners(state.buffers, after.buffers);
    }
}

/// A drain moves pending events to the collector; none is lost or doubled on
/// the way.
pub proof fn law_draining_keeps_the_events(state: SharedModel)
    requires
        state.wf(),
        sound(state),
    ensures
        moved(
            state,
            state.drained(),
            Multiset::empty(),
            flushed_batches(state.buffers, state.drain_epoch),
        ),
        state.drained().wf(),
        sound(state.drained()),
{
    let epoch = state.drain_epoch;
    let passed = state.buffers.map_values(|b: BufferModel| b.drained(epoch));
    lemma_drain_moves(state.buffers, epoch);
    lemma_same_owners(state.buffers, passed);
    lemma_live_buffers_keep_owner(passed);
    law_accepting_in_two_goes(
        state.collector,
        flushed_batches(state.buffers, epoch),
        Seq::empty(),
    );
    assert(pooled(pendings(state.buffers)).add(Multiset::empty()) =~= pooled(
        pendings(state.buffers),
    ));
    let kept = live_buffers(passed);
    let is_live = |b: BufferModel| b.live;
    assert forall|i: int| 0 <= i < kept.len() implies !(#[trigger] kept[i]).poisoned && (
    !kept[i].live ==> kept[i].pending.len() == 0) by {
        passed.lemma_filter_pred(is_live, i);
        assert(passed.filter(is_live).contains(kept[i]));
        passed.lemma_filter_contains_rev(is_live, kept[i]);
        let k = choose|k: int| 0 <= k < passed.len() && passed[k] == kept[i];
        assert(passed[k] == state.buffers[k].drained(epoch));
    }
}

proof fn lemma_drain_moves(buffers: Seq<BufferModel>, epoch: u64)
    requires
        forall|i: int|
            0 <= i < buffers.len() ==> !(#[trigger] buffers[i]).poisoned && (!buffers[i].live
                ==> buffers[i].pending.len() == 0),
    ensures
        pooled(
            pendings(live_buffers(buffers.map_values(|b: BufferModel| b.drained(epoch)))),
        ).add(pooled(flushed_batches(buffers, epoch))) == pooled(pendings(buffers)),
    decreases buffers.len(),
{
    reveal(Seq::filter);
    reveal(Seq::filter_map);
    let drained = |b: BufferModel| b.drained(epoch);
    let flushed = |b: BufferModel| b.flushed(epoch);
    let passed = buffers.map_values(drained);
    let kept = live_buffers(passed);
    let moved = flushed_batches(buffers, epoch);
    let total = pooled(pendings(kept)).add(pooled(moved));
    if buffers.len() == 0 {
        assert(total =~= pooled(pendings(buffers)));
    } else {
        let init = buffers.drop_last();
        let last = buffers.last();
        assert(last == buffers[buffers.len() - 1]);
        assert forall|i: int| 0 <= i < init.len() implies !(#[trigger] init[i]).poisoned && (
        !init[i].live ==> init[i].pending.len() == 0) by {
            assert(init[i] == buffers[i]);
        }
        lemma_drain_moves(init, epoch);
        assert(passed.drop_last() =~= init.map_values(drained));
        assert(pendings(buffers).drop_last() =~= pendings(init));
        let init_kept = live_buffers(init.map_values(drained));
        let init_moved = flushed_batches(init, epoch);
        assert(buffers =~= init.push(last));
        assert(moved =~= match last.flushed(epoch) {
            Some(batch) => init_moved.push(batch),
            None => init_moved,
        });
        broadcast use vstd::seq_lib::group_to_multiset_ensures;

        let none = Seq::<TelemetryEvent>::empty();
        lemma_pooled_push(init_moved, last.pending);
        lemma_pooled_push(pendings(init_kept), last.drained(epoch).pending);
        if last.live {
            assert(kept =~= init_kept.push(last.drained(epoch)));
            assert(pendings(kept) =~= pendings(init_kept).push(last.drained(epoch).pending));
        } else {
            assert(kept =~= init_kept);
        }
        if last.pending.len() == 0 {
            assert(last.pending =~= none);
        }
        assert forall|e: TelemetryEvent| #[trigger]
            total.count(e) == pooled(pendings(buffers)).count(e) by {
            assert(pooled(pendings(init_kept)).add(pooled(init_moved)).count(e) == pooled(
                pendings(init),
            ).count(e));
            assert(none.to_multiset().count(e) == 0);
        }
        assert(total =~= pooled(pendings(buffers)));
    }
}

/// Registering a thread changes nothing but the registrations.
pub proof fn lemma_registration(state: SharedModel, thread: u64)
    requires
        state.wf(),
    ensures
        live_at(
            state.with_registration(thread),
            thread,
            place_of(state.with_registration(thread), thread),
        ),
        one_buffer_per_thread(state.with_registration(thread)),
        pooled(pendings(state.with_registration(thread))) == pooled(pendings(state.buffers)),
        sound(state) ==> sound(
            SharedModel { buffers: state.with_registration(thread), ..state },
        ),
{
    let before = state.buffers;
    let after = state.with_registration(thread);
    if registered(before, thread) {
        assert(live_at(before, thread, place_of(before, thread)));
    } else {
        let last = before.len() as int;
        assert(live_at(after, thread, last));
        assert forall|t: u64, i: int, j: int| #[trigger]
            live_at(after, t, i) && #[trigger] live_at(after, t, j) implies i == j by {
            assert(i != last ==> live_at(before, t, i));
            assert(j != last ==> live_at(before, t, j));
        }
        assert(pendings(after) =~= pendings(before).push(Seq::empty()));
        lemma_pooled_push(pendings(before), Seq::empty());
        broadcast use vstd::seq_lib::group_to_multiset_ensures;

        assert(Seq::<TelemetryEvent>::empty().to_multiset() =~= Multiset::empty());
        assert(pooled(pendings(after)) =~= pooled(pendings(before)));
    }
}

/// Buffers that keep their threads and lives keep one buffer per thread.
proof fn lemma_same_owners(before: Seq<BufferModel>, after: Seq<BufferModel>)
    requires
        one_buffer_per_thread(before),
        before.len() == after.len(),
        forall|i: int|
            0 <= i < before.len() ==> (#[trigger] after[i]).thread == before[i].thread && (
            after[i].live ==> before[i].live),
    ensures
        one_buffer_per_thread(after),
{
    assert forall|t: u64, i: int, j: int| #[trigger]
        live_at(after, t, i) && #[trigger] live_at(after, t, j) implies i == j by {
        assert(live_at(before, t, i) && live_at(before, t, j));
    }
}

/// One step of a session.
pub enum Operation {
    /// A thread records events in one go.
    Record { thread: u64, events: Seq<TelemetryEvent> },
    /// The flush thread advances the drain epoch.
    Bump,
    /// The flush thread drains all registered buffers.
    Drain,
    /// The flush thread drains one registered buffer.
    Visit { place: int },
    /// The flush thread drops the registrations of exited threads.
    Prune,
    /// A thread flushes its own buffer.
    Flush { thread: u64 },
    /// A thread exits.
    Exit { thread: u64 },
    /// A thread drains the data sources.
    FlushSources { thread: u64 },
    /// The flush thread takes the oldest batch and writes it.
    Write,
}

/// The drain epoch after `epoch`.
pub open spec fn next_epoch(epoch: u64) -> u64 {
    if epoch == u64::MAX {
        0
    } else {
        (epoch + 1) as u64
    }
}

/// The state after one buffer was drained.
pub open spec fn visited(state: SharedModel, place: int) -> SharedModel {
    if 0 <= place < state.buffers.len() {
        let buffer = state.buffers[place];
        SharedModel {
            buffers: state.buffers.update(place, buffer.drained(state.drain_epoch)),
            collector: match buffer.flushed(state.drain_epoch) {
                Some(batch) => state.collector.accepted(seq![batch]),
                None => state.collector,
            },
            ..state
        }
    } else {
        state
    }
}

/// The state after the first `n` buffers were drained, one after the other.
pub open spec fn visited_up_to(state: SharedModel, n: nat) -> SharedModel
    decreases n,
{
    if n == 0 {
        state
    } else {
        visited(visited_up_to(state, (n - 1) as nat), n - 1)
    }
}

/// The state after the registrations of exited threads were dropped.
pub open spec fn pruned(state: SharedModel) -> SharedModel {
    SharedModel { buffers: live_buffers(state.buffers), ..state }
}

/// The state after one step.
pub open spec fn stepped(state: SharedModel, op: Operation) -> SharedModel {
    match op {
        Operation::Record { thread, events } => state.recorded(thread, events),
        Operation::Bump => SharedModel { drain_epoch: next_epoch(state.drain_epoch), ..state },
        Operation::Drain => state.drained(),
        Operation::Visit { place } => visited(state, place),
        Operation::Prune => pruned(state),
        Operation::Flush { thread } => state.flushed(thread),
        Operation::Exit { thread } => state.exited(thread),
        Operation::FlushSources { thread } => state.sources_flushed(thread),
        Operation::Write => if state.collector.batches.len() > 0 {
            SharedModel { collector: state.collector.taken(), ..state }
        } else {
            state
        },
    }
}

/// The events that one step brings in.
pub open spec fn brought(state: SharedModel, op: Operation) -> Multiset<TelemetryEvent> {
    match op {
        Operation::Record { thread, events } => events.to_multiset(),
        Operation::FlushSources { thread } => source_events(
            state.sources,
            state.thread_roles,
        ).to_multiset(),
        _ => Multiset::empty(),
    }
}

/// The events that the writer gets by one step.
pub open spec fn written(state: SharedModel, op: Operation) -> Multiset<TelemetryEvent> {
    if op is Write && state.collector.batches.len() > 0 {
        state.collector.batches.first().to_multiset()
    } else {
        Multiset::empty()
    }
}

/// The state after the steps, one after the other.
pub open spec fn run(state: SharedModel, ops: Seq<Operation>) -> SharedModel
    decreases ops.len(),
{
    if ops.len() == 0 {
        state
    } else {
        stepped(run(state, ops.drop_last()), ops.last())
    }
}

/// The events that the steps bring in together.
pub open spec fn run_brought(state: SharedModel, ops: Seq<Operation>) -> Multiset<TelemetryEvent>
    decreases ops.len(),
{
    if ops.len() == 0 {
        Multiset::empty()
    } else {
        run_brought(state, ops.drop_last()).add(
            brought(run(state, ops.drop_last()), ops.last()),
        )
    }
}

/// The events that the writer gets by the steps together.
pub open spec fn run_written(state: SharedModel, ops: Seq<Operation>) -> Multiset<TelemetryEvent>
    decreases ops.len(),
{
    if ops.len() == 0 {
        Multiset::empty()
    } else {
        run_written(state, ops.drop_last()).add(
            written(run(state, ops.drop_last()), ops.last()),
        )
    }
}

/// Recording event by event takes the recorded events in, and nothing else.
pub proof fn law_recording_one_by_one_adds_the_events(
    state: SharedModel,
    thread: u64,
    events: Seq<TelemetryEvent>,
)
    requires
        state.wf(),
        sound(state),
    ensures
        exists|handed: Seq<Seq<TelemetryEvent>>| #[trigger]
            moved(state, state.recorded_each(thread, events), events.to_multiset(), handed),
        state.recorded_each(thread, events).wf(),
        sound(state.recorded_each(thread, events)),
    decreases events.len(),
{
    broadcast use vstd::seq_lib::group_to_multiset_ensures;

    if events.len() == 0 {
        assert(events =~= Seq::empty());
        lemma_nothing_moved(state, state);
        assert(events.to_multiset() =~= Multiset::empty());
    } else {
        let init = events.drop_last();
        let last = seq![events.last()];
        let mid = state.recorded_each(thread, init);
        let after = state.recorded_each(thread, events);
        law_recording_one_by_one_adds_the_events(state, thread, init);
        law_recording_adds_the_events(mid, thread, last);
        assert(events =~= init + last);
        vstd::seq_lib::lemma_multiset_commutative(init, last);
        let p = choose|p: Seq<Seq<TelemetryEvent>>| #[trigger]
            moved(state, mid, init.to_multiset(), p);
        let q = choose|q: Seq<Seq<TelemetryEvent>>| #[trigger]
            moved(mid, after, last.to_multiset(), q);
        lemma_moves_compose(state, mid, after, init.to_multiset(), last.to_multiset(), p, q);
        assert(moved(state, after, events.to_multiset(), p + q));
    }
}

/// One step keeps every event, but for what it writes and evicts.
proof fn lemma_step(state: SharedModel, op: Operation)
    requires
        state.wf(),
        sound(state),
    ensures
        exists|evicted: Seq<Seq<TelemetryEvent>>| #[trigger]
            conserved(state, stepped(state, op), brought(state, op), written(state, op), evicted),
        stepped(state, op).wf(),
        sound(stepped(state, op)),
{
    let after = stepped(state, op);
    match op {
        Operation::Record { thread, events } => {
            law_recording_adds_the_events(state, thread, events);
        },
        Operation::Bump => {
            lemma_nothing_moved(state, after);
        },
        Operation::Drain => {
            law_draining_keeps_the_events(state);
        },
        Operation::Visit { place } => {
            if 0 <= place < state.buffers.len() {
                let buffer = state.buffers[place];
                if buffer.lockable(state.drain_epoch) {
                    lemma_emptied(state, after, place);
                } else {
                    assert(after.buffers =~= state.buffers);
                    lemma_nothing_moved(state, after);
                }
            } else {
                lemma_nothing_moved(state, after);
            }
        },
        Operation::Prune => {
            lemma_pruning_keeps_the_events(state);
            law_accepting_nothing(state.collector);
            assert(pooled(pendings(after.buffers)).add(pooled(Seq::empty())) =~= pooled(
                pendings(state.buffers),
            ).add(Multiset::empty()));
            assert(moved(state, after, Multiset::empty(), Seq::empty()));
        },
        Operation::Flush { thread } => {
            law_flushing_keeps_the_events(state, thread);
        },
        Operation::Exit { thread } => {
            law_exit_keeps_the_events(state, thread);
        },
        Operation::FlushSources { thread } => {
            let events = source_events(state.sources, state.thread_roles);
            let emptied = state.with_sources_emptied();
            law_recording_one_by_one_adds_the_events(emptied, thread, events);
            let handed = choose|handed: Seq<Seq<TelemetryEvent>>| #[trigger]
                moved(emptied, after, events.to_multiset(), handed);
            assert(moved(state, after, events.to_multiset(), handed));
        },
        Operation::Write => {
            lemma_writing(state);
            assert(conserved(
                state,
                after,
                brought(state, op),
                written(state, op),
                Seq::empty(),
            ));
        },
    }
    if !(op is Write) {
        let handed = choose|handed: Seq<Seq<TelemetryEvent>>| #[trigger]
            moved(state, after, brought(state, op), handed);
        assert(moved(state, after, brought(state, op), handed));
        lemma_moved_is_conserved(state, after, brought(state, op), handed);
        assert(conserved(
            state,
            after,
            brought(state, op),
            written(state, op),
            state.collector.evicted(handed),
        ));
    }
}

/// The writer gets the events of the oldest batch.
proof fn lemma_writing(state: SharedModel)
    requires
        state.wf(),
    ensures
        conserved(
            state,
            stepped(state, Operation::Write),
            Multiset::empty(),
            written(state, Operation::Write),
            Seq::empty(),
        ),
        stepped(state, Operation::Write).wf(),
{
    let batches = state.collector.batches;
    let after = stepped(state, Operation::Write);
    let gone = written(state, Operation::Write);
    if batches.len() > 0 {
        let oldest = seq![batches.first()];
        let rest = batches.drop_first();
        assert(batches =~= oldest + rest);
        lemma_pooled_concat(oldest, rest);
        lemma_pooled_push(Seq::empty(), batches.first());
        assert(Seq::<Seq<TelemetryEvent>>::empty().push(batches.first()) =~= oldest);
        assert(pooled(oldest) =~= gone);
    }
    assert(accounted(after).add(gone).add(pooled(Seq::empty())) =~= accounted(state).add(
        Multiset::empty(),
    ));
}

/// Over any run of recording, draining, flushing, writing and exiting threads,
/// whatever the core held at the start and every event that was brought in
/// since is held, written or evicted, each exactly once, and each evicted batch
/// is counted. Where the count did not change, nothing was lost.
pub proof fn law_no_event_is_lost_or_doubled(state: SharedModel, ops: Seq<Operation>)
    requires
        state.wf(),
        sound(state),
    ensures
        exists|evicted: Seq<Seq<TelemetryEvent>>| #[trigger]
            conserved(
                state,
                run(state, ops),
                run_brought(state, ops),
                run_written(state, ops),
                evicted,
            ),
        run(state, ops).collector.dropped == state.collector.dropped && state.collector.dropped
            < u64::MAX ==> accounted(run(state, ops)).add(run_written(state, ops)) == accounted(
            state,
        ).add(run_brought(state, ops)),
        run(state, ops).wf(),
        sound(run(state, ops)),
    decreases ops.len(),
{
    let after = run(state, ops);
    if ops.len() == 0 {
        assert(accounted(state).add(Multiset::empty()).add(pooled(Seq::empty())) =~= accounted(
            state,
        ).add(Multiset::empty()));
        assert(conserved(state, after, Multiset::empty(), Multiset::empty(), Seq::empty()));
    } else {
        let init = ops.drop_last();
        let before = run(state, init);
        law_no_event_is_lost_or_doubled(state, init);
        lemma_step(before, ops.last());
        let x = run_brought(state, init);
        let y = brought(before, ops.last());
        let v = run_written(state, init);
        let w = written(before, ops.last());
        let p = choose|p: Seq<Seq<TelemetryEvent>>| #[trigger] conserved(state, before, x, v, p);
        let q = choose|q: Seq<Seq<TelemetryEvent>>| #[trigger] conserved(before, after, y, w, q);
        lemma_pooled_concat(p, q);
        let left = accounted(after).add(v.add(w)).add(pooled(p + q));
        let right = accounted(state).add(x.add(y));
        assert forall|e: TelemetryEvent| #[trigger] left.count(e) == right.count(e) by {
            assert(accounted(before).add(v).add(pooled(p)).count(e) == accounted(state).add(
                x,
            ).count(e));
            assert(accounted(after).add(w).add(pooled(q)).count(e) == accounted(before).add(
                y,
            ).count(e));
        }
        assert(left =~= right);
        assert(conserved(state, after, x.add(y), v.add(w), p + q));
    }
    let evicted = choose|evicted: Seq<Seq<TelemetryEvent>>| #[trigger]
        conserved(state, after, run_brought(state, ops), run_written(state, ops), evicted);
    if after.collector.dropped == state.collector.dropped && state.collector.dropped < u64::MAX {
        law_without_eviction_nothing_is_lost(
            state,
            after,
            run_brought(state, ops),
            run_written(state, ops),
            evicted,
        );
    }
}

proof fn lemma_pruning_keeps_the_events(state: SharedModel)
    requires
        state.wf(),
        sound(state),
    ensures
        pooled(pendings(pruned(state).buffers)) == pooled(pendings(state.buffers)),
        pruned(state).wf(),
        sound(pruned(state)),
{
    let kept = live_buffers(state.buffers);
    let is_live = |b: BufferModel| b.live;
    lemma_live_buffers_keep_owner(state.buffers);
    assert forall|i: int| 0 <= i < kept.len() implies !(#[trigger] kept[i]).poisoned && (
    !kept[i].live ==> kept[i].pending.len() == 0) by {
        assert(state.buffers.filter(is_live).contains(kept[i]));
        state.buffers.lemma_filter_contains_rev(is_live, kept[i]);
        let k = choose|k: int| 0 <= k < state.buffers.len() && state.buffers[k] == kept[i];
        assert(!state.buffers[k].poisoned);
    }
    lemma_live_buffers_hold_everything(state.buffers);
}

proof fn lemma_live_buffers_hold_everything(buffers: Seq<BufferModel>)
    requires
        forall|i: int|
            0 <= i < buffers.len() && !(#[trigger] buffers[i]).live
                ==> buffers[i].pending.len() == 0,
    ensures
        pooled(pendings(live_buffers(buffers))) == pooled(pendings(buffers)),
    decreases buffers.len(),
{
    reveal(Seq::filter);
    if buffers.len() > 0 {
        let init = buffers.drop_last();
        let last = buffers.last();
        assert(last == buffers[buffers.len() - 1]);
        assert forall|i: int| 0 <= i < init.len() && !(#[trigger] init[i]).live implies init[
            i
        ].pending.len() == 0 by {
            assert(init[i] == buffers[i]);
        }
        lemma_live_buffers_hold_everything(init);
        assert(pendings(buffers).drop_last() =~= pendings(init));
        lemma_pooled_push(pendings(live_buffers(init)), last.pending);
        broadcast use vstd::seq_lib::group_to_multiset_ensures;

        if last.live {
            assert(pendings(live_buffers(buffers)) =~= pendings(live_buffers(init)).push(
                last.pending,
            ));
        } else {
            assert(live_buffers(buffers) =~= live_buffers(init));
            assert(last.pending =~= Seq::empty());
            assert(pooled(pendings(buffers)) =~= pooled(pendings(init)));
        }
    } else {
        assert(live_buffers(buffers) =~= buffers);
    }
}

/// A drain amounts to draining the buffers one after the other and then
/// dropping the registrations of exited threads.
pub proof fn law_drain_is_visits_then_prune(state: SharedModel)
    requires
        state.collector.wf(),
    ensures
        state.drained() == pruned(visited_up_to(state, state.buffers.len())),
{
    let n = state.buffers.len();
    let epoch = state.drain_epoch;
    lemma_visits(state, n);
    assert(visited_up_to(state, n).buffers =~= state.buffers.map_values(
        |b: BufferModel| b.drained(epoch),
    ));
    assert(state.buffers.take(n as int) =~= state.buffers);
}

proof fn lemma_visits(state: SharedModel, n: nat)
    requires
        n <= state.buffers.len(),
        state.collector.wf(),
    ensures
        visited_up_to(state, n) == (SharedModel {
            buffers: visited_up_to(state, n).buffers,
            collector: state.collector.accepted(
                flushed_batches(state.buffers.take(n as int), state.drain_epoch),
            ),
            ..state
        }),
        visited_up_to(state, n).buffers.len() == state.buffers.len(),
        forall|i: int|
            0 <= i < n ==> #[trigger] visited_up_to(state, n).buffers[i]
                == state.buffers[i].drained(state.drain_epoch),
        forall|i: int|
            n <= i < state.buffers.len() ==> #[trigger] visited_up_to(state, n).buffers[i]
                == state.buffers[i],
    decreases n,
{
    let epoch = state.drain_epoch;
    let flushed = |b: BufferModel| b.flushed(epoch);
    if n == 0 {
        reveal(Seq::filter_map);
        assert(flushed_batches(state.buffers.take(0), epoch) =~= Seq::empty());
        law_accepting_nothing(state.collector);
    } else {
        lemma_visits(state, (n - 1) as nat);
        state.buffers.lemma_filter_map_take_succ(flushed, n - 1);
        let before = flushed_batches(state.buffers.take(n - 1), epoch);
        let now = flushed_batches(state.buffers.take(n as int), epoch);
        assert(now == state.buffers.take(n as int).filter_map(flushed));
        match state.buffers[n - 1].flushed(epoch) {
            Some(batch) => {
                law_accepting_in_two_goes(state.collector, before, seq![batch]);
                assert(before + seq![batch] =~= before.push(batch));
                assert(now =~= before.push(batch));
            },
            None => {
                assert(now =~= before);
            },
        }
    }
}

/// No buffer was flushed in an epoch that is yet to come.
pub open spec fn stamped(state: SharedModel) -> bool {
    forall|i: int|
        0 <= i < state.buffers.len() ==> (#[trigger] state.buffers[i]).flush_epoch
            <= state.drain_epoch
}

proof fn lemma_record_keeps_stamps(
    state: SharedModel,
    thread: u64,
    events: Seq<TelemetryEvent>,
)
    requires
        state.wf(),
        sound(state),
        stamped(state),
    ensures
        stamped(state.recorded(thread, events)),
        state.recorded(thread, events).drain_epoch == state.drain_epoch,
{
    lemma_registration(state, thread);
}

proof fn lemma_record_each_keeps_stamps(
    state: SharedModel,
    thread: u64,
    events: Seq<TelemetryEvent>,
)
    requires
        state.wf(),
        sound(state),
        stamped(state),
    ensures
        stamped(state.recorded_each(thread, events)),
        state.recorded_each(thread, events).drain_epoch == state.drain_epoch,
    decreases events.len(),
{
    if events.len() > 0 {
        lemma_record_each_keeps_stamps(state, thread, events.drop_last());
        law_recording_one_by_one_adds_the_events(state, thread, events.drop_last());
        lemma_record_keeps_stamps(
            state.recorded_each(thread, events.drop_last()),
            thread,
            seq![events.last()],
        );
    }
}

proof fn lemma_kept_stamps(before: Seq<BufferModel>, epoch: u64)
    requires
        forall|i: int| 0 <= i < before.len() ==> (#[trigger] before[i]).flush_epoch <= epoch,
    ensures
        forall|i: int|
            0 <= i < live_buffers(before).len() ==> (
            #[trigger] live_buffers(before)[i]).flush_epoch <= epoch,
{
    let is_live = |b: BufferModel| b.live;
    let kept = live_buffers(before);
    assert forall|i: int| 0 <= i < kept.len() implies (#[trigger] kept[i]).flush_epoch <= epoch by {
        assert(before.filter(is_live).contains(kept[i]));
        before.lemma_filter_contains_rev(is_live, kept[i]);
        let k = choose|k: int| 0 <= k < before.len() && before[k] == kept[i];
        assert(before[k].flush_epoch <= epoch);
    }
}

proof fn lemma_run_keeps_stamps(state: SharedModel, ops: Seq<Operation>)
    requires
        state.wf(),
        sound(state),
        stamped(state),
        state.drain_epoch + ops.len() <= u64::MAX,
    ensures
        stamped(run(state, ops)),
        run(state, ops).drain_epoch <= state.drain_epoch + ops.len(),
    decreases ops.len(),
{
    if ops.len() > 0 {
        let init = ops.drop_last();
        lemma_run_keeps_stamps(state, init);
        law_no_event_is_lost_or_doubled(state, init);
        let before = run(state, init);
        let epoch = before.drain_epoch;
        match ops.last() {
            Operation::Record { thread, events } => {
                lemma_record_keeps_stamps(before, thread, events);
            },
            Operation::Drain => {
                let passed = before.buffers.map_values(|b: BufferModel| b.drained(epoch));
                lemma_kept_stamps(passed, epoch);
            },
            Operation::Prune => {
                lemma_kept_stamps(before.buffers, epoch);
            },
            Operation::Flush { thread } => {
                let i = place_of(before.buffers, thread);
                if registered(before.buffers, thread) {
                    assert(live_at(before.buffers, thread, i));
                }
            },
            Operation::Exit { thread } => {
                let i = place_of(before.buffers, thread);
                if registered(before.buffers, thread) {
                    assert(live_at(before.buffers, thread, i));
                }
            },
            Operation::FlushSources { thread } => {
                lemma_record_each_keeps_stamps(
                    before.with_sources_emptied(),
                    thread,
                    source_events(before.sources, before.thread_roles),
                );
            },
            _ => {},
        }
    }
}

/// However recording, draining, flushing, writing and exiting threads
/// interleave, one more epoch and one more drain bring every event to the
/// collector or to the writer, each exactly once, unless the collector evicts
/// its batch and counts it.
pub proof fn law_every_event_reaches_the_collector(state: SharedModel, ops: Seq<Operation>)
    requires
        state.wf(),
        sound(state),
        stamped(state),
        state.drain_epoch + ops.len() < u64::MAX,
    ensures
        ({
            let end = run(state, ops.push(Operation::Bump).push(Operation::Drain));
            let all = accounted(state).add(run_brought(state, ops));
            &&& pooled(pendings(end.buffers)) == Multiset::<TelemetryEvent>::empty()
            &&& exists|evicted: Seq<Seq<TelemetryEvent>>| #[trigger]
                conserved(
                    state,
                    end,
                    run_brought(state, ops),
                    run_written(state, ops),
                    evicted,
                )
            &&& end.collector.dropped == state.collector.dropped && state.collector.dropped
                < u64::MAX ==> pooled(end.collector.batches).add(run_written(state, ops)) == all
        }),
{
    let bumped = ops.push(Operation::Bump);
    let drained = bumped.push(Operation::Drain);
    let end = run(state, drained);
    assert(bumped.drop_last() =~= ops);
    assert(drained.drop_last() =~= bumped);
    lemma_run_keeps_stamps(state, ops);
    law_no_event_is_lost_or_doubled(state, ops);
    law_no_event_is_lost_or_doubled(state, bumped);
    law_no_event_is_lost_or_doubled(state, drained);
    law_drain_of_a_new_epoch_collects_everything(run(state, bumped));
    assert(run_brought(state, drained) =~= run_brought(state, ops));
    assert(run_written(state, drained) =~= run_written(state, ops));
    assert(accounted(end) =~= pooled(end.collector.batches));
}

/// A drain in an epoch that no buffer was flushed in yet leaves nothing
/// pending: every event of the core is on its way to the writer, but for those
/// of the batches that the collector has no room for.
pub proof fn law_drain_of_a_new_epoch_collects_everything(state: SharedModel)
    requires
        state.wf(),
        sound(state),
        forall|i: int|
            0 <= i < state.buffers.len() ==> (#[trigger] state.buffers[i]).flush_epoch
                < state.drain_epoch,
    ensures
        forall|i: int|
            0 <= i < state.drained().buffers.len() ==> (
            #[trigger] state.drained().buffers[i]).pending.len() == 0,
        pooled(pendings(state.drained().buffers)) == Multiset::<TelemetryEvent>::empty(),
        pooled(state.drained().collector.batches).add(
            pooled(state.collector.evicted(flushed_batches(state.buffers, state.drain_epoch))),
        ) == accounted(state),
{
    let epoch = state.drain_epoch;
    let passed = state.buffers.map_values(|b: BufferModel| b.drained(epoch));
    let after = state.drained();
    let kept = after.buffers;
    let is_live = |b: BufferModel| b.live;
    assert forall|i: int| 0 <= i < kept.len() implies (#[trigger] kept[i]).pending.len() == 0 by {
        passed.lemma_filter_pred(is_live, i);
        assert(passed.filter(is_live).contains(kept[i]));
        passed.lemma_filter_contains_rev(is_live, kept[i]);
        let k = choose|k: int| 0 <= k < passed.len() && passed[k] == kept[i];
        assert(passed[k] == state.buffers[k].drained(epoch));
    }
    let handed = flushed_batches(state.buffers, epoch);
    law_draining_keeps_the_events(state);
    lemma_moved_is_conserved(state, after, Multiset::empty(), handed);
    lemma_pooled_of_empty(pendings(kept));
    let evicted = pooled(state.collector.evicted(handed));
    assert(accounted(after).add(Multiset::empty()).add(evicted) =~= pooled(
        after.collector.batches,
    ).add(evicted));
    assert(accounted(state).add(Multiset::empty()) =~= accounted(state));
}

proof fn lemma_pooled_of_empty(batches: Seq<Seq<TelemetryEvent>>)
    requires
        forall|i: int| 0 <= i < batches.len() ==> (#[trigger] batches[i]).len() == 0,
    ensures
        pooled(batches) == Multiset::<TelemetryEvent>::empty(),
    decreases batches.len(),
{
    broadcast use vstd::seq_lib::group_to_multiset_ensures;

    if batches.len() > 0 {
        lemma_pooled_of_empty(batches.drop_last());
        assert(batches.last() =~= Seq::empty());
        assert(pooled(batches) =~= Multiset::empty());
    }
}

/// A second drain in the same epoch changes nothing.
pub proof fn law_drain_is_idempotent(state: SharedModel)
    requires
        state.collector.wf(),
    ensures
        state.drained().drained() == state.drained(),
{
    let epoch = state.drain_epoch;
    let passed = state.buffers.map_values(|b: BufferModel| b.drained(epoch));
    let once = state.drained().buffers;
    let is_live = |b: BufferModel| b.live;
    assert forall|i: int| 0 <= i < once.len() implies (#[trigger] once[i]).live && once[i].drained(
        epoch,
    ) == once[i] && once[i].flushed(epoch) is None by {
        passed.lemma_filter_pred(is_live, i);
        assert(passed.filter(is_live).contains(once[i]));
        passed.lemma_filter_contains_rev(is_live, once[i]);
        let k = choose|k: int| 0 <= k < passed.len() && passed[k] == once[i];
        assert(passed[k] == state.buffers[k].drained(epoch));
    }
    assert(once.map_values(|b: BufferModel| b.drained(epoch)) =~= once);
    lemma_all_live(once);
    lemma_none_flushed(once, epoch);
    law_accepting_in_two_goes(
        state.collector,
        flushed_batches(state.buffers, epoch),
        Seq::empty(),
    );
    law_accepting_nothing(state.drained().collector);
}

proof fn lemma_all_live(buffers: Seq<BufferModel>)
    requires
        forall|i: int| 0 <= i < buffers.len() ==> (#[trigger] buffers[i]).live,
    ensures
        live_buffers(buffers) == buffers,
    decreases buffers.len(),
{
    reveal(Seq::filter);
    if buffers.len() > 0 {
        lemma_all_live(buffers.drop_last());
        assert(buffers[buffers.len() - 1].live);
        assert(buffers =~= buffers.drop_last().push(buffers.last()));
    }
    assert(live_buffers(buffers) =~= buffers);
}

proof fn lemma_none_flushed(buffers: Seq<BufferModel>, epoch: u64)
    requires
        forall|i: int|
            0 <= i < buffers.len() ==> (#[trigger] buffers[i]).flushed(epoch) is None,
    ensures
        flushed_batches(buffers, epoch) == Seq::<Seq<TelemetryEvent>>::empty(),
    decreases buffers.len(),
{
    reveal(Seq::filter_map);
    if buffers.len() > 0 {
        lemma_none_flushed(buffers.drop_last(), epoch);
        assert(buffers[buffers.len() - 1].flushed(epoch) is None);
    }
    assert(flushed_batches(buffers, epoch) =~= Seq::empty());
}

/// Where every buffer was flushed in the current epoch, a drain takes nothing
/// from any of them.
pub proof fn law_drain_leaves_busy_buffers_alone(state: SharedModel)
    requires
        state.collector.wf(),
        forall|i: int|
            0 <= i < state.buffers.len() ==> (#[trigger] state.buffers[i]).busy(state.drain_epoch),
    ensures
        state.drained() == (SharedModel { buffers: live_buffers(state.buffers), ..state }),
{
    let epoch = state.drain_epoch;
    assert(state.buffers.map_values(|b: BufferModel| b.drained(epoch)) =~= state.buffers);
    lemma_none_flushed(state.buffers, epoch);
    law_accepting_nothing(state.collector);
}

/// A thread is registered by its first event, and not again by later ones.
pub proof fn law_a_thread_is_registered_once(
    state: SharedModel,
    thread: u64,
    first: Seq<TelemetryEvent>,
    second: Seq<TelemetryEvent>,
)
    requires
        state.wf(),
        !registered(state.buffers, thread),
    ensures
        state.recorded(thread, first).buffers.len() == state.buffers.len() + 1,
        registered(state.recorded(thread, first).buffers, thread),
        state.recorded(thread, first).recorded(thread, second).buffers.len()
            == state.buffers.len() + 1,
{
    lemma_registration(state, thread);
    let once = state.recorded(thread, first);
    let i = place_of(state.with_registration(thread), thread);
    assert(live_at(once.buffers, thread, i));
}

/// Attaching a runtime with a name adds one metadata entry, which lists the
/// identities that the runtime reserved; the other entries stay.
pub proof fn law_attached_runtime_is_named_in_metadata(
    state: SharedModel,
    name: Seq<char>,
    count: u64,
)
    requires
        state.next_worker_id + count <= u64::MAX,
    ensures
        runtime_texts(state.attached(Some(name), count).contexts) == runtime_texts(
            state.contexts,
        ).push(
            (
                "runtime."@ + name,
                joined(Seq::new(count as nat, |i: int| (state.next_worker_id + i) as u64)),
            ),
        ),
        runtime_texts(state.attached(None, count).contexts) == runtime_texts(state.contexts),
{
    let base = state.next_worker_id;
    law_block_in_order(base, count, count as nat);
    assert(state.attached(Some(name), count).contexts.drop_last() =~= state.contexts);
    assert(state.attached(None, count).contexts.drop_last() =~= state.contexts);
}

/// No worker of one runtime has the identity of a worker of another.
pub proof fn law_workers_of_two_runtimes_differ(
    state: SharedModel,
    name: Option<Seq<char>>,
    count: u64,
    c: int,
    w: u64,
    worker: u64,
)
    requires
        state.wf(),
        state.next_worker_id + count <= u64::MAX,
        is_worker(state.contexts, c, w),
        worker < count,
    ensures
        state.attached(name, count).contexts.last().worker_ids[worker] == state.next_worker_id
            + worker,
        state.attached(name, count).contexts.last().worker_ids[worker]
            != state.contexts[c].worker_ids[w],
{
}

/// Once every other thread has exited, flushing the last one's buffer brings
/// every event to the collector, each exactly once, unless the collector
/// evicts its batch and counts it.
pub proof fn law_last_flush_collects_everything(state: SharedModel, thread: u64)
    requires
        state.wf(),
        sound(state),
        forall|i: int|
            0 <= i < state.buffers.len() && (#[trigger] state.buffers[i]).live
                ==> state.buffers[i].thread == thread,
    ensures
        pooled(pendings(state.flushed(thread).buffers)) == Multiset::<TelemetryEvent>::empty(),
        exists|evicted: Seq<Seq<TelemetryEvent>>| #[trigger]
            conserved(
                state,
                state.flushed(thread),
                Multiset::empty(),
                Multiset::empty(),
                evicted,
            ),
        state.flushed(thread).collector.dropped == state.collector.dropped
            && state.collector.dropped < u64::MAX ==> pooled(
            state.flushed(thread).collector.batches,
        ) == accounted(state),
{
    let after = state.flushed(thread);
    law_flushing_keeps_the_events(state, thread);
    assert forall|i: int| 0 <= i < after.buffers.len() implies (
    #[trigger] after.buffers[i]).pending.len() == 0 by {
        if state.buffers[i].live {
            assert(live_at(state.buffers, thread, i));
            assert(live_at(state.buffers, thread, place_of(state.buffers, thread)));
        }
    }
    lemma_pooled_of_empty(pendings(after.buffers));
    let handed = choose|handed: Seq<Seq<TelemetryEvent>>| #[trigger]
        moved(state, after, Multiset::empty(), handed);
    lemma_moved_is_conserved(state, after, Multiset::empty(), handed);
    let evicted = state.collector.evicted(handed);
    assert(conserved(state, after, Multiset::empty(), Multiset::empty(), evicted));
    if after.collector.dropped == state.collector.dropped && state.collector.dropped < u64::MAX {
        law_without_eviction_nothing_is_lost(
            state,
            after,
            Multiset::empty(),
            Multiset::empty(),
            evicted,
        );
        assert(accounted(after).add(Multiset::empty()) =~= pooled(after.collector.batches));
        assert(accounted(state).add(Multiset::empty()) =~= accounted(state));
    }
}

} // verus!
