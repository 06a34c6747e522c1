//! When the flush thread drains the thread-local buffers.

use vstd::prelude::*;

verus! {

/// How long the flush thread leaves the buffers alone after a drain, in
/// nanoseconds.
pub const DRAIN_INTERVAL_NS: u64 = 30_000_000_000;

/// What the flush thread does about the buffers in one tick.
#[derive(Copy, Clone, Debug, PartialEq, Eq, Structural)]
pub enum DrainStep {
    /// Leave them alone.
    Wait,
    /// Advance the drain epoch, so that busy threads flush their own buffers.
    Bump,
    /// Drain the buffers that their owners left alone.
    Drain,
}

/// Spreads the drains over the ticks of the flush thread. The drain epoch
/// advances one tick before each drain.
#[derive(Copy, Clone, Debug, PartialEq, Eq, Structural)]
pub struct DrainSchedule {
    /// The monotonic time at which the epoch is to advance next.
    pub due_ns: u64,
    /// Whether the epoch has advanced and the drain is yet to come.
    pub bumped: bool,
}

/// The time `DRAIN_INTERVAL_NS` later, or the last there is.
pub open spec fn interval_after(now_ns: u64) -> u64 {
    if now_ns + DRAIN_INTERVAL_NS <= u64::MAX {
        (now_ns + DRAIN_INTERVAL_NS) as u64
    } else {
        u64::MAX
    }
}

impl DrainSchedule {
    /// What a tick at `now_ns` does.
    pub open spec fn step(self, now_ns: u64) -> DrainStep {
        if self.bumped {
            DrainStep::Drain
        } else if now_ns >= self.due_ns {
            DrainStep::Bump
        } else {
            DrainStep::Wait
        }
    }

    /// The schedule after a tick at `now_ns`.
    pub open spec fn ticked(self, now_ns: u64) -> DrainSchedule {
        match self.step(now_ns) {
            DrainStep::Wait => self,
            DrainStep::Bump => DrainSchedule { bumped: true, ..self },
            DrainStep::Drain => DrainSchedule { due_ns: interval_after(now_ns), bumped: false },
        }
    }

    /// A schedule whose first drain comes one interval after `now_ns`.
    pub fn new(now_ns: u64) -> (schedule: DrainSchedule)
        ensures
            schedule == (DrainSchedule { due_ns: interval_after(now_ns), bumped: false }),
    {
        DrainSchedule { due_ns: now_ns.saturating_add(DRAIN_INTERVAL_NS), bumped: false }
    }

    /// Tells what to do in the tick at `now_ns`.
    pub fn tick(&mut self, now_ns: u64) -> (step: DrainStep)
        ensures
            step == old(self).step(now_ns),
            *final(self) == old(self).ticked(now_ns),
    {
        if self.bumped {
            self.bumped = false;
            self.due_ns = now_ns.saturating_add(DRAIN_INTERVAL_NS);
            DrainStep::Drain
        } else if now_ns >= self.due_ns {
            self.bumped = true;
            DrainStep::Bump
        } else {
            DrainStep::Wait
        }
    }
}

/// The epoch advances exactly one tick before each drain.
pub proof fn law_the_epoch_advances_one_tick_before_a_drain(
    schedule: DrainSchedule,
    first_ns: u64,
    second_ns: u64,
)
    requires
        !schedule.bumped,
    ensures
        schedule.step(first_ns) != DrainStep::Drain,
        schedule.step(first_ns) == DrainStep::Bump <==> schedule.ticked(first_ns).step(second_ns)
            == DrainStep::Drain,
{
}

/// After a drain the buffers are left alone for 30 seconds, and no longer than
/// until the next tick after that.
pub proof fn law_drains_are_half_a_minute_apart(
    schedule: DrainSchedule,
    drain_ns: u64,
    tick_ns: u64,
)
    requires
        schedule.bumped,
        drain_ns + 30_000_000_000 <= u64::MAX,
    ensures
        schedule.step(drain_ns) == DrainStep::Drain,
        tick_ns < drain_ns + 30_000_000_000 ==> schedule.ticked(drain_ns).step(tick_ns)
            == DrainStep::Wait && schedule.ticked(drain_ns).ticked(tick_ns) == schedule.ticked(
            drain_ns,
        ),
        tick_ns >= drain_ns + 30_000_000_000 ==> schedule.ticked(drain_ns).step(tick_ns)
            == DrainStep::Bump,
{
}

} // verus!
