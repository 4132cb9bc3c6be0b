//! Fixed-timestep frame pacing.
//!
//! Wall-clock time that has passed between frames is collected in an
//! accumulator, and the simulation consumes it in ticks of a constant
//! length. All amounts are whole nanoseconds, and a reading of the clock is
//! the time that has passed since the accumulator was made.

use std::time::Duration;
use std::time::Instant;
use vstd::prelude::*;

verus! {

/// `std::time::Instant`, a reading of the monotonic clock. Its inside is not
/// looked at.
#[verifier::external_type_specification]
#[verifier::external_body]
pub struct ExInstant(std::time::Instant);

/// The sum of two amounts of nanoseconds, held at `u128::MAX`.
pub open spec fn saturating_sum(a: nat, b: nat) -> nat {
    if a + b > u128::MAX {
        u128::MAX as nat
    } else {
        a + b
    }
}

/// How far the clock has moved between the reading `from` and the later
/// reading `to`. A clock that has gone back has not moved.
pub open spec fn advance(from: nat, to: nat) -> nat {
    if to >= from {
        (to - from) as nat
    } else {
        0
    }
}

/// Reads the monotonic clock with `std::time::Instant::now`.
///
/// Trusted, and nothing is claimed of the reading: it depends on when the
/// call is made.
#[verifier::external_body]
fn clock_now() -> Instant {
    Instant::now()
}

/// Time from `earlier` to `later` by `Instant::saturating_duration_since`,
/// which gives a zero duration when `earlier` is the later of the two and
/// never panics.
///
/// Trusted, and nothing is claimed of the result.
#[verifier::external_body]
fn duration_between(later: &Instant, earlier: &Instant) -> Duration {
    later.saturating_duration_since(*earlier)
}

/// The whole length of a duration in nanoseconds, by `Duration::as_nanos`.
///
/// Trusted, and nothing is claimed of the result.
#[verifier::external_body]
fn duration_nanos(duration: &Duration) -> u128 {
    duration.as_nanos()
}

/// The accumulator of unconsumed frame time, the moment from which its
/// clock counts, and the reading at which it was last fed.
pub struct Time {
    accumulator: u128,
    origin: Instant,
    last_time: u128,
}

impl Time {
    /// Length of one simulation tick, in nanoseconds (a sixtieth of a second,
    /// rounded down).
    pub const TICK_RATE: u128 = 16_666_666;

    /// Nanoseconds collected and not yet consumed by `update`.
    pub closed spec fn accumulated(&self) -> nat {
        self.accumulator as nat
    }

    /// The moment from which the clock counts.
    pub closed spec fn origin(&self) -> Instant {
        self.origin
    }

    /// The reading of the clock at which the accumulator was last fed: the
    /// nanoseconds from `origin` to that moment.
    pub closed spec fn last_reading(&self) -> nat {
        self.last_time as nat
    }

    /// Whether a whole tick is waiting to be consumed.
    pub open spec fn tick_due(&self) -> bool {
        self.accumulated() >= Time::TICK_RATE
    }

    /// How many whole ticks are waiting to be consumed.
    pub open spec fn pending_ticks(&self) -> nat {
        self.accumulated() / (Time::TICK_RATE as nat)
    }

    /// What is left over once every whole tick has been consumed.
    pub open spec fn remainder(&self) -> nat {
        self.accumulated() % (Time::TICK_RATE as nat)
    }

    /// The accumulated time is made up of the pending ticks and the
    /// remainder, which is shorter than a tick; a tick is due exactly when
    /// one is pending.
    pub proof fn lemma_ticks_and_remainder(&self)
        ensures
            self.accumulated() == self.pending_ticks() * Time::TICK_RATE + self.remainder(),
            self.remainder() < Time::TICK_RATE,
            self.tick_due() <==> self.pending_ticks() > 0,
    {
    }

    /// An empty accumulator whose clock counts from the present moment, and
    /// which was last fed at that moment.
    pub fn new() -> (time: Time)
        ensures
            time.accumulated() == 0,
            time.last_reading() == 0,
    {
        Time { accumulator: 0, origin: clock_now(), last_time: 0 }
    }

    /// Adds `elapsed` nanoseconds to the accumulator. The sum is held at
    /// `u128::MAX`.
    pub fn accumulate(&mut self, elapsed: u128)
        ensures
            final(self).accumulated() == saturating_sum(old(self).accumulated(), elapsed as nat),
            final(self).last_reading() == old(self).last_reading(),
            final(self).origin() == old(self).origin(),
    {
        self.accumulator = self.accumulator.saturating_add(elapsed);
    }

    /// Starts a frame at the clock reading `reading`: adds the time by which
    /// the clock has moved since the accumulator was last fed, by
    /// `accumulate`, and takes `reading` as the moment at which it was fed.
    pub fn begin_loop_at(&mut self, reading: u128)
        ensures
            final(self).accumulated() == saturating_sum(
                old(self).accumulated(),
                advance(old(self).last_reading(), reading as nat),
            ),
            final(self).last_reading() == reading,
            final(self).origin() == old(self).origin(),
    {
        let elapsed = reading.saturating_sub(self.last_time);
        self.accumulate(elapsed);
        self.last_time = reading;
    }

    /// Starts a frame: reads the clock and goes on as `begin_loop_at` does
    /// with that reading, so that the time that has passed since the
    /// previous call (or since `new`) is added to the accumulator.
    ///
    /// What the clock reads is not known beforehand. Whatever it reads, the
    /// accumulator grows by as much as the reading has moved on, and does
    /// not shrink.
    pub fn begin_loop(&mut self)
        ensures
            final(self).accumulated() == saturating_sum(
                old(self).accumulated(),
                advance(old(self).last_reading(), final(self).last_reading()),
            ),
            final(self).accumulated() >= old(self).accumulated(),
            final(self).origin() == old(self).origin(),
    {
        let time = clock_now();
        let since_origin = duration_between(&time, &self.origin);
        self.begin_loop_at(duration_nanos(&since_origin));
    }

    /// Nanoseconds collected and not yet consumed.
    pub fn accumulated_nanos(&self) -> (nanos: u128)
        ensures
            nanos == self.accumulated(),
    {
        self.accumulator
    }

    /// Whether the simulation owes a tick.
    pub fn should_update(&self) -> (due: bool)
        ensures
            due == self.tick_due(),
    {
        self.accumulator >= Time::TICK_RATE
    }

    /// Consumes one tick.
    pub fn update(&mut self)
        requires
            old(self).tick_due(),
        ensures
            final(self).accumulated() == old(self).accumulated() - Time::TICK_RATE,
            final(self).last_reading() == old(self).last_reading(),
            final(self).origin() == old(self).origin(),
            final(self).pending_ticks() == old(self).pending_ticks() - 1,
            final(self).remainder() == old(self).remainder(),
    {
        self.accumulator = self.accumulator - Time::TICK_RATE;
    }
}

} // verus!
