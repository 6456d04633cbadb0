//! The fixed-timestep frame scheduler: an accumulator that converts a
//! monotonic nanosecond clock into zero or more simulation ticks per
//! rendered frame.
//!
//! The deadline of the next due tick advances by exactly one period per
//! consumed tick and is never reset to "now", so a stalled frame is caught
//! up by running several ticks without accumulating drift. Rendering is
//! decoupled from the tick count: one frame draws once when at least one
//! tick ran. The embedder reads the clock, runs the ticks, draws, and
//! sleeps; every decision is taken here.
use vstd::prelude::*;

verus! {

pub struct FrameScheduler {
    /// Absolute monotonic deadline, in nanoseconds, of the next due tick.
    pub next_due: u64,
    /// Ticks consumed so far; starts at zero.
    pub tick_index: u64,
    /// Constant tick period in nanoseconds.
    pub tick_period: u64,
}

impl FrameScheduler {
    pub open spec fn wf(self) -> bool {
        self.tick_period >= 1
    }

    /// How many ticks are due at time `now`: zero before the deadline, and
    /// one more for every whole period the clock has run past it.
    pub open spec fn spec_ticks_due(self, now: u64) -> int {
        if now < self.next_due {
            0
        } else {
            (now - self.next_due) / (self.tick_period as int) + 1
        }
    }

    /// A scheduler whose first tick falls due one period from `now`.
    pub fn new(now: u64, tick_period: u64) -> (r: Self)
        requires
            tick_period >= 1,
            now + tick_period <= u64::MAX,
        ensures
            r.wf(),
            r.next_due == now + tick_period,
            r.tick_index == 0,
            r.tick_period == tick_period,
    {
        Self { next_due: now + tick_period, tick_index: 0, tick_period }
    }

    /// Consume every tick due at `now`: the deadline advances by exactly one
    /// period per tick (never jumping to `now`), ends up strictly in the
    /// future, and the tick counter grows by the number of ticks returned.
    /// The caller runs one simulation tick per returned count, then renders
    /// once if the count is nonzero.
    pub fn begin_frame(&mut self, now: u64) -> (ticks: u64)
        requires
            old(self).wf(),
            now + old(self).tick_period <= u64::MAX,
            old(self).tick_index + old(self).spec_ticks_due(now) <= u64::MAX,
        ensures
            final(self).wf(),
            final(self).tick_period == old(self).tick_period,
            ticks == old(self).spec_ticks_due(now),
            final(self).next_due == old(self).next_due + ticks * old(self).tick_period,
            final(self).tick_index == old(self).tick_index + ticks,
            now < final(self).next_due,
    {
        if now < self.next_due {
            return 0;
        }
        let diff: u64 = now - self.next_due;
        let q: u64 = diff / self.tick_period;
        proof {
            vstd::arithmetic::div_mod::lemma_fundamental_div_mod(
                diff as int,
                self.tick_period as int,
            );
            vstd::arithmetic::div_mod::lemma_mod_bound(diff as int, self.tick_period as int);
            assert((q + 1) * self.tick_period == (self.tick_period as int) * (q as int)
                + self.tick_period) by (nonlinear_arith);
        }
        let ticks: u64 = q + 1;
        self.next_due = self.next_due + ticks * self.tick_period;
        self.tick_index = self.tick_index + ticks;
        ticks
    }

    /// How long to sleep before polling again: the remaining time to the
    /// next deadline, zero when a tick is already due.
    pub fn sleep_nanos(&self, now: u64) -> (r: u64)
        ensures
            r == if now < self.next_due {
                self.next_due - now
            } else {
                0
            },
    {
        if now < self.next_due {
            self.next_due - now
        } else {
            0
        }
    }

    /// Whether the frame that consumed `ticks` ticks draws: exactly once
    /// when at least one tick ran, never otherwise.
    pub fn should_render(&self, ticks: u64) -> (r: bool)
        ensures
            r == (ticks >= 1),
    {
        ticks >= 1
    }

    pub fn current_tick(&self) -> (r: u64)
        ensures
            r == self.tick_index,
    {
        self.tick_index
    }
}

} // verus!
