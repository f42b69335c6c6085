use std::time::{Duration, Instant};
use vstd::prelude::*;

verus! {

/// `std::time::Instant`, a reading of the monotonic clock, carried through opaquely.
#[verifier::external_type_specification]
#[verifier::external_body]
pub struct ExInstant(Instant);

/// Calls `std::time::Instant::now`. The reading depends on the machine's monotonic clock, so
/// nothing is stated of it.
#[verifier::external_body]
pub(crate) fn instant_now() -> Instant {
    Instant::now()
}

/// Calls `std::time::Instant::elapsed`. How much time has passed depends on the clock, so
/// nothing is stated of the result.
#[verifier::external_body]
pub(crate) fn instant_elapsed(origin: &Instant) -> Duration {
    origin.elapsed()
}

/// Calls `std::time::Duration::as_nanos`. The duration is opaque here, so nothing is stated of
/// the result.
#[verifier::external_body]
pub(crate) fn duration_as_nanos(d: &Duration) -> u128 {
    d.as_nanos()
}

/// The time from the last tick at `last` to a clock reading `now`, in nanoseconds; zero when
/// `now` is not after `last`.
pub open spec fn tick_delta(last: u128, now: u128) -> u128 {
    if now >= last {
        (now - last) as u128
    } else {
        0
    }
}

/// Ticks at non-decreasing clock readings measure the time between them, and successive
/// measurements add up to the whole span: ticking at `a` and then at `b`, starting from a last
/// tick at `last`, reports `a - last` and then `b - a`.
pub proof fn lemma_ticks_add_up(last: u128, a: u128, b: u128)
    requires
        last <= a <= b,
    ensures
        tick_delta(last, a) == a - last,
        tick_delta(a, b) == b - a,
        tick_delta(last, a) + tick_delta(a, b) == b - last,
{
}

/// Measures the time between frames. Clock readings are nanoseconds since the timer was made.
pub struct Timer {
    origin: Instant,
    last_tick: u128,
}

impl Timer {
    /// The clock reading of the last tick.
    pub closed spec fn last_tick(&self) -> u128 {
        self.last_tick
    }

    /// A timer whose last tick is now, the start of its clock.
    pub fn new() -> (r: Self)
        ensures
            r.last_tick() == 0,
    {
        Timer { origin: instant_now(), last_tick: 0 }
    }

    /// The nanoseconds since the previous tick (or since the timer was made); the tick is then
    /// moved to now. The clock reading itself depends on the machine clock, which is monotonic:
    /// it is never earlier than the last tick (a reading behind it is taken as the last tick).
    /// [`Self::tick_at`] does the rest for a given reading.
    pub fn tick(&mut self) -> (r: u128)
        ensures
            exists|now: u128|
                now >= old(self).last_tick() && r == #[trigger] tick_delta(
                    old(self).last_tick(),
                    now,
                ) && final(self).last_tick() == now,
    {
        let elapsed = instant_elapsed(&self.origin);
        let reading = duration_as_nanos(&elapsed);
        let now = if reading >= self.last_tick {
            reading
        } else {
            self.last_tick
        };
        self.tick_at(now)
    }

    /// The nanoseconds from the previous tick to clock reading `now` (zero when `now` is not
    /// later); the tick is then moved to `now`.
    pub fn tick_at(&mut self, now: u128) -> (r: u128)
        ensures
            r == tick_delta(old(self).last_tick(), now),
            final(self).last_tick() == now,
    {
        let delta: u128 = if now >= self.last_tick {
            now - self.last_tick
        } else {
            0
        };
        self.last_tick = now;
        delta
    }
}

} // verus!
