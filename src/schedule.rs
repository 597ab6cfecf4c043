//! The tick scheduler and the spawn debounce: periodic timers decide when a
//! tick, or a spawn, is due.
use vstd::prelude::*;

verus! {

/// Interval between two ticks of the movement rule, in milliseconds.
pub const GENERATION_INTERVAL_MILLIS: u32 = 100;

/// Interval between two spawns while the pointer is held down, in milliseconds.
pub const SPAWN_INTERVAL_MILLIS: u32 = 10;

/// Static cells a row must hold before the culling pass clears it.
pub const CULL_THRESHOLD: usize = 100;

/// Where a repeating timer's elapsed time lands after `total` nanoseconds:
/// the remainder of a period, or zero for a zero period.
pub open spec fn wrapped_elapsed(period: int, total: int) -> int {
    if period == 0 {
        0
    } else {
        total % period
    }
}

/// Relies on `bevy_time::Timer` in `TimerMode::Repeating` (`new`,
/// `set_elapsed`, `tick`, `finished`, `elapsed`): a tick adds the delta to
/// the elapsed time; the timer has finished iff the sum reaches the period,
/// and the elapsed time wraps to the remainder of the sum by the period (to
/// zero for a zero period). Both durations stay far inside `Duration`, so
/// nothing panics.
#[verifier::external_body]
fn repeating_tick(period_nanos: u64, elapsed_nanos: u64, delta_nanos: u64) -> (r: (bool, u64))
    requires
        elapsed_nanos < period_nanos || elapsed_nanos == 0,
    ensures
        r.0 == (elapsed_nanos + delta_nanos >= period_nanos),
        r.1 == wrapped_elapsed(period_nanos as int, elapsed_nanos + delta_nanos),
{
    let mut timer = bevy::time::Timer::new(
        std::time::Duration::from_nanos(period_nanos),
        bevy::time::TimerMode::Repeating,
    );
    timer.set_elapsed(std::time::Duration::from_nanos(elapsed_nanos));
    timer.tick(std::time::Duration::from_nanos(delta_nanos));
    (timer.finished(), timer.elapsed().as_nanos() as u64)
}

/// A repeating timer as plain values: its period and the time elapsed in the
/// current period, both in nanoseconds.
pub struct RepeatingTimer {
    period_nanos: u64,
    elapsed_nanos: u64,
}

impl RepeatingTimer {
    #[verifier::type_invariant]
    spec fn inv(&self) -> bool {
        self.elapsed_nanos < self.period_nanos || self.elapsed_nanos == 0
    }

    /// The period, in nanoseconds.
    pub closed spec fn period(&self) -> nat {
        self.period_nanos as nat
    }

    /// The time elapsed in the current period, in nanoseconds.
    pub closed spec fn elapsed(&self) -> nat {
        self.elapsed_nanos as nat
    }

    /// A timer of `period_millis` milliseconds, at the start of a period.
    pub fn from_millis(period_millis: u32) -> (r: RepeatingTimer)
        ensures
            r.period() == period_millis as nat * 1_000_000,
            r.elapsed() == 0,
    {
        RepeatingTimer { period_nanos: period_millis as u64 * 1_000_000, elapsed_nanos: 0 }
    }

    /// Advances the timer by `delta_nanos` nanoseconds and says whether a
    /// period completed. A zero period completes on every tick.
    pub fn tick(&mut self, delta_nanos: u64) -> (finished: bool)
        ensures
            finished == (old(self).elapsed() + delta_nanos >= old(self).period()),
            final(self).elapsed() == wrapped_elapsed(old(self).period() as int, old(self).elapsed() + delta_nanos),
            final(self).period() == old(self).period(),
    {
        proof {
            use_type_invariant(&*self);
        }
        let (finished, elapsed) = repeating_tick(self.period_nanos, self.elapsed_nanos, delta_nanos);
        proof {
            let total = (self.elapsed_nanos + delta_nanos) as nat;
            if self.period_nanos > 0 {
                assert(total % (self.period_nanos as nat) < self.period_nanos);
            }
        }
        *self = RepeatingTimer { period_nanos: self.period_nanos, elapsed_nanos: elapsed };
        finished
    }
}

/// The simulation clock: the pause flag and the pending-tick flag.
pub struct CellParams {
    pub playing: bool,
    pub compute_next_gen: bool,
}

impl Default for CellParams {
    /// Playing, with no tick pending.
    fn default() -> (r: CellParams)
        ensures
            r.playing,
            !r.compute_next_gen,
    {
        CellParams { playing: true, compute_next_gen: false }
    }
}

impl CellParams {
    /// Records whether the tick timer fired and consumes the pending tick: a
    /// tick runs iff one was pending, or the clock plays and the timer fired.
    /// The pending flag is clear afterwards.
    pub fn consume_tick(&mut self, timer_fired: bool) -> (run: bool)
        ensures
            run == (old(self).compute_next_gen || (old(self).playing && timer_fired)),
            !final(self).compute_next_gen,
            final(self).playing == old(self).playing,
    {
        if self.playing && timer_fired {
            self.compute_next_gen = true;
        }
        if !self.compute_next_gen {
            return false;
        }
        self.compute_next_gen = false;
        true
    }
}

/// The repeating timer that paces the ticks.
pub struct NextGenerationTimer(RepeatingTimer);

impl NextGenerationTimer {
    /// The timer's period, in nanoseconds.
    pub closed spec fn period(&self) -> nat {
        self.0.period()
    }

    /// The time elapsed in the current period, in nanoseconds.
    pub closed spec fn elapsed(&self) -> nat {
        self.0.elapsed()
    }

    /// A timer that fires once every `period_millis` milliseconds.
    pub fn new(period_millis: u32) -> (r: NextGenerationTimer)
        ensures
            r.period() == period_millis as nat * 1_000_000,
            r.elapsed() == 0,
    {
        NextGenerationTimer(RepeatingTimer::from_millis(period_millis))
    }

    /// Advances the clock by one frame of `delta_nanos` nanoseconds and says
    /// whether a tick runs now: while playing the timer advances and a tick
    /// runs iff one was pending or a period completed; while paused the timer
    /// stands still and only a pending tick runs. The pending flag is always
    /// clear afterwards.
    pub fn poll(&mut self, params: &mut CellParams, delta_nanos: u64) -> (run: bool)
        ensures
            old(params).playing ==> run == (old(params).compute_next_gen
                || old(self).elapsed() + delta_nanos >= old(self).period()),
            old(params).playing ==> final(self).elapsed()
                == wrapped_elapsed(old(self).period() as int, old(self).elapsed() + delta_nanos),
            !old(params).playing ==> run == old(params).compute_next_gen && final(self).elapsed()
                == old(self).elapsed(),
            final(self).period() == old(self).period(),
            !final(params).compute_next_gen,
            final(params).playing == old(params).playing,
    {
        let mut fired = false;
        if params.playing {
            fired = self.0.tick(delta_nanos);
        }
        params.consume_tick(fired)
    }
}

/// The repeating timer that debounces spawning while the pointer is held.
pub struct NextMouseClickTimer(RepeatingTimer);

impl NextMouseClickTimer {
    /// The timer's period, in nanoseconds.
    pub closed spec fn period(&self) -> nat {
        self.0.period()
    }

    /// The time elapsed in the current period, in nanoseconds.
    pub closed spec fn elapsed(&self) -> nat {
        self.0.elapsed()
    }

    /// A timer that lets one spawn through every `period_millis` milliseconds.
    pub fn new(period_millis: u32) -> (r: NextMouseClickTimer)
        ensures
            r.period() == period_millis as nat * 1_000_000,
            r.elapsed() == 0,
    {
        NextMouseClickTimer(RepeatingTimer::from_millis(period_millis))
    }

    /// Advances the debounce by one frame of `delta_nanos` nanoseconds while
    /// the pointer is pressed, and says whether a spawn is due: iff a period
    /// completed. Without a press nothing is due and the timer stands still.
    pub fn poll(&mut self, pressed: bool, delta_nanos: u64) -> (due: bool)
        ensures
            pressed ==> due == (old(self).elapsed() + delta_nanos >= old(self).period()),
            pressed ==> final(self).elapsed()
                == wrapped_elapsed(old(self).period() as int, old(self).elapsed() + delta_nanos),
            !pressed ==> !due && final(self).elapsed() == old(self).elapsed(),
            final(self).period() == old(self).period(),
    {
        if !pressed {
            return false;
        }
        self.0.tick(delta_nanos)
    }
}

} // verus!
