//! The timing of the event source: when a tick is due, and how long the
//! source may wait for a key before the next one is.

use vstd::prelude::*;

verus! {

/// The tick interval: 200 ms, in clock units (nanoseconds).
pub const TICK_RATE: u128 = 200_000_000;

/// The clock of the event source. Clock readings are nanoseconds on a
/// monotonic clock whose origin the caller fixes.
#[derive(Clone, Copy, Debug)]
pub struct Ticker {
    /// Clock reading at which the last tick was emitted.
    pub last_tick: u128,
}

impl Ticker {
    /// Clock units from the last tick to `now`; zero where `now` lies before it.
    pub open spec fn since_tick(self, now: u128) -> nat {
        if now >= self.last_tick {
            (now - self.last_tick) as nat
        } else {
            0
        }
    }

    /// What is left of the tick interval at `now`.
    pub open spec fn remaining(self, now: u128) -> nat {
        if self.since_tick(now) < TICK_RATE {
            (TICK_RATE - self.since_tick(now)) as nat
        } else {
            0
        }
    }

    /// A source that starts at `now`: the interval to the first tick runs
    /// from there.
    pub fn new(now: u128) -> (ticker: Ticker)
        ensures
            ticker.last_tick == now,
    {
        Ticker { last_tick: now }
    }

    /// How long the source may block for a key at `now`: the rest of the
    /// interval, and no time at all once the interval has passed.
    pub fn poll_timeout(&self, now: u128) -> (timeout: u64)
        ensures
            timeout == self.remaining(now),
            timeout <= TICK_RATE,
    {
        let since: u128 = if now >= self.last_tick {
            now - self.last_tick
        } else {
            0
        };
        if since < TICK_RATE {
            (TICK_RATE - since) as u64
        } else {
            0
        }
    }

    /// Whether a tick is to be emitted at `now`: the interval since the last
    /// one has passed.
    pub fn tick_due(&self, now: u128) -> (due: bool)
        ensures
            due == (self.since_tick(now) >= TICK_RATE),
            due == (self.remaining(now) == 0),
    {
        if now >= self.last_tick {
            now - self.last_tick >= TICK_RATE
        } else {
            false
        }
    }

    /// Records that a tick was emitted at `now`.
    pub fn tick_sent(&mut self, now: u128)
        ensures
            final(self).last_tick == now,
    {
        self.last_tick = now;
    }
}

} // verus!
