//! The delay and sound timers, counted down at 60 Hz from the monotonic
//! clock of the host.
//!
//! The clock keeps a reference time that advances by exactly one period per
//! tick, so jitter between calls does not accumulate. It is stored as the
//! number of periods consumed since the clock was created.

use std::time::Instant;
use vstd::prelude::*;

verus! {

/// Nanoseconds in a second.
pub const NANOS_PER_SEC: u128 = 1_000_000_000;

/// Timer ticks per second.
pub const TICKS_PER_SEC: u128 = 60;

/// Declares std's `Instant`, a reading of the host's monotonic clock, which
/// the clock keeps as its origin.
#[verifier::external_type_specification]
#[verifier::external_body]
pub struct ExInstant(Instant);

/// Relies on std's `Instant::now`: a reading of the host's monotonic clock.
pub assume_specification[ Instant::now ]() -> Instant;

/// Relies on std's `Instant::elapsed`: the time passed since the instant.
pub assume_specification[ Instant::elapsed ](i: &Instant) -> core::time::Duration;

/// Relies on std's `Duration::as_nanos`: the duration in whole nanoseconds.
pub assume_specification[ core::time::Duration::as_nanos ](d: &core::time::Duration) -> u128;

/// Whether a tick is due when `elapsed_ns` nanoseconds have passed since
/// creation and `ticks` periods of 1/60 s have been consumed: the reference
/// time plus one period has been reached.
pub open spec fn due(ticks: int, elapsed_ns: int) -> bool {
    (ticks + 1) * NANOS_PER_SEC <= elapsed_ns * TICKS_PER_SEC
}

/// `t - 1`, or 0 where `t` is 0.
pub open spec fn count_down(t: u8) -> u8 {
    if t == 0 {
        0
    } else {
        (t - 1) as u8
    }
}

/// The delay timer and the periods consumed after one update per entry of
/// `times`, each entry being the nanoseconds elapsed at that update.
pub open spec fn after_updates(delay: u8, ticks: int, times: Seq<u64>) -> (u8, int)
    decreases times.len(),
{
    if times.len() == 0 {
        (delay, ticks)
    } else {
        let (d, t) = after_updates(delay, ticks, times.drop_last());
        if due(t, times.last() as int) {
            (count_down(d), t + 1)
        } else {
            (d, t)
        }
    }
}

/// Whether updates at `times` come at least one period apart, the first at
/// least one period after the reference time of a clock that has consumed
/// `ticks` periods.
pub open spec fn spaced(ticks: int, times: Seq<u64>) -> bool {
    &&& times.len() > 0 ==> due(ticks, times[0] as int)
    &&& forall|i: int|
        0 < i < times.len() ==> #[trigger] (times[i] as int) * TICKS_PER_SEC >= times[i - 1]
            * TICKS_PER_SEC + NANOS_PER_SEC
}

/// The two timers of the machine and the 60 Hz tick that drives them.
pub struct Clock {
    delay_timer: u8,
    sound_timer: u8,
    vblank_interrupt: bool,
    origin: Instant,
    ticks: u64,
}

impl Clock {
    /// The delay timer.
    pub closed spec fn delay(&self) -> u8 {
        self.delay_timer
    }

    /// The sound timer; a tone sounds while it is above zero.
    pub closed spec fn sound(&self) -> u8 {
        self.sound_timer
    }

    /// Whether the latest update ticked.
    pub closed spec fn vblank(&self) -> bool {
        self.vblank_interrupt
    }

    /// Periods of 1/60 s consumed since the clock was created.
    pub closed spec fn ticks(&self) -> u64 {
        self.ticks
    }

    /// Whether `next` is `self` after an update at which `elapsed_ns`
    /// nanoseconds had passed since creation: when a tick is due both timers
    /// count down, the tick is flagged and one period is consumed; else only
    /// the flag is cleared.
    pub open spec fn ticked(&self, next: &Clock, elapsed_ns: u64) -> bool {
        if due(self.ticks() as int, elapsed_ns as int) {
            &&& next.delay() == count_down(self.delay())
            &&& next.sound() == count_down(self.sound())
            &&& next.vblank()
            &&& next.ticks() == self.ticks() + 1
        } else {
            &&& next.delay() == self.delay()
            &&& next.sound() == self.sound()
            &&& !next.vblank()
            &&& next.ticks() == self.ticks()
        }
    }

    /// A clock with both timers at zero whose reference time is now.
    pub fn new() -> (r: Self)
        ensures
            r.delay() == 0,
            r.sound() == 0,
            !r.vblank(),
            r.ticks() == 0,
    {
        Clock { delay_timer: 0, sound_timer: 0, vblank_interrupt: false, origin: Instant::now(), ticks: 0 }
    }

    /// The delay timer.
    pub fn delay_timer(&self) -> (r: u8)
        ensures
            r == self.delay(),
    {
        self.delay_timer
    }

    /// The sound timer.
    pub fn sound_timer(&self) -> (r: u8)
        ensures
            r == self.sound(),
    {
        self.sound_timer
    }

    /// Whether the latest update ticked.
    pub fn vblank_interrupt(&self) -> (r: bool)
        ensures
            r == self.vblank(),
    {
        self.vblank_interrupt
    }

    /// Sets the delay timer to `value`.
    pub fn set_delay_timer(&mut self, value: u8)
        ensures
            final(self).delay() == value,
            final(self).sound() == old(self).sound(),
            final(self).vblank() == old(self).vblank(),
            final(self).ticks() == old(self).ticks(),
    {
        self.delay_timer = value;
    }

    /// Sets the sound timer to `value`.
    pub fn set_sound_timer(&mut self, value: u8)
        ensures
            final(self).delay() == old(self).delay(),
            final(self).sound() == value,
            final(self).vblank() == old(self).vblank(),
            final(self).ticks() == old(self).ticks(),
    {
        self.sound_timer = value;
    }

    /// A clock with the given timers whose reference time is now.
    pub fn with_timers(delay: u8, sound: u8) -> (r: Self)
        ensures
            r.delay() == delay,
            r.sound() == sound,
            !r.vblank(),
            r.ticks() == 0,
    {
        Clock { delay_timer: delay, sound_timer: sound, vblank_interrupt: false, origin: Instant::now(), ticks: 0 }
    }

    /// Periods of 1/60 s consumed since the clock was created.
    pub fn tick_count(&self) -> (r: u64)
        ensures
            r == self.ticks(),
    {
        self.ticks
    }

    /// The update at which `elapsed_ns` nanoseconds have passed since the
    /// clock was created.
    pub fn tick(&mut self, elapsed_ns: u64)
        ensures
            old(self).ticked(final(self), elapsed_ns),
    {
        let next: u128 = (self.ticks as u128 + 1) * NANOS_PER_SEC;
        if next <= elapsed_ns as u128 * TICKS_PER_SEC {
            assert(self.ticks + 1 <= u64::MAX) by (nonlinear_arith)
                requires
                    (self.ticks + 1) * 1_000_000_000 <= elapsed_ns * 60,
                    elapsed_ns <= u64::MAX,
            ;
            self.delay_timer = if self.delay_timer == 0 { 0 } else { self.delay_timer - 1 };
            self.sound_timer = if self.sound_timer == 0 { 0 } else { self.sound_timer - 1 };
            self.vblank_interrupt = true;
            self.ticks = self.ticks + 1;
        } else {
            self.vblank_interrupt = false;
        }
    }

    /// Reads the host clock and ticks if a period has passed since the
    /// reference time.
    pub fn update(&mut self)
        ensures
            exists|elapsed_ns: u64| old(self).ticked(final(self), elapsed_ns),
    {
        let elapsed = self.origin.elapsed().as_nanos();
        let elapsed_ns: u64 = if elapsed > u64::MAX as u128 { u64::MAX } else { elapsed as u64 };
        self.tick(elapsed_ns);
    }
}

/// Updates that come at least one period apart each tick: after `N` of them
/// the delay timer has gone down by `N`, stopping at zero, and `N` periods
/// have been consumed. The reference time then lies no later than the last
/// update, so a further update one period on ticks again.
pub proof fn lemma_spaced_updates_count_down(delay: u8, ticks: u64, times: Seq<u64>)
    requires
        spaced(ticks as int, times),
    ensures
        after_updates(delay, ticks as int, times) == (
            (if delay as int >= times.len() { delay - times.len() } else { 0int }) as u8,
            ticks + times.len(),
        ),
        (ticks + times.len()) * NANOS_PER_SEC <= (if times.len() > 0 {
            times.last() * TICKS_PER_SEC
        } else {
            (ticks + 0) * NANOS_PER_SEC
        }),
    decreases times.len(),
{
    if times.len() > 0 {
        let rest = times.drop_last();
        assert(spaced(ticks as int, rest)) by {
            assert forall|i: int| 0 < i < rest.len() implies #[trigger] (rest[i] as int)
                * TICKS_PER_SEC >= rest[i - 1] * TICKS_PER_SEC + NANOS_PER_SEC by {
                assert(rest[i] == times[i] && rest[i - 1] == times[i - 1]);
            }
        }
        lemma_spaced_updates_count_down(delay, ticks, rest);
        if rest.len() > 0 {
            let n = times.len() - 1;
            assert((times[n] as int) * TICKS_PER_SEC >= times[n - 1] * TICKS_PER_SEC
                + NANOS_PER_SEC);
            assert(rest.last() == times[n - 1]);
        }
    }
}

} // verus!
