use vstd::prelude::*;

verus! {

/// A one-shot countdown, in nanoseconds: it runs until `elapsed` reaches
/// `duration`, then stays finished (with `elapsed == duration`) until reset.
/// Ticking a finished timer does nothing. Changing the duration does not
/// touch the elapsed time or the finished state.
#[derive(Debug, Clone, Copy, PartialEq, Eq, Structural)]
pub struct OnceTimer {
    pub duration: u128,
    pub elapsed: u128,
    pub finished: bool,
}

/// The timer after `delta` nanoseconds have passed.
pub open spec fn ticked(t: OnceTimer, delta: u128) -> OnceTimer {
    if t.finished {
        t
    } else if t.elapsed + delta >= t.duration {
        OnceTimer { duration: t.duration, elapsed: t.duration, finished: true }
    } else {
        OnceTimer { duration: t.duration, elapsed: (t.elapsed + delta) as u128, finished: false }
    }
}

/// The timer started over with a new duration.
pub open spec fn restarted(t: OnceTimer, duration: u128) -> OnceTimer {
    OnceTimer { duration, elapsed: 0, finished: false }
}

impl OnceTimer {
    /// A fresh, unfinished timer.
    pub fn new(duration: u128) -> (r: OnceTimer)
        ensures
            r == (OnceTimer { duration, elapsed: 0, finished: false }),
    {
        OnceTimer { duration, elapsed: 0, finished: false }
    }

    /// A timer that is already finished.
    pub fn new_finished(duration: u128) -> (r: OnceTimer)
        ensures
            r == (OnceTimer { duration, elapsed: duration, finished: true }),
    {
        OnceTimer { duration, elapsed: duration, finished: true }
    }

    pub fn is_finished(&self) -> (r: bool)
        ensures
            r == self.finished,
    {
        self.finished
    }

    /// Advances the timer by `delta` nanoseconds.
    pub fn tick(&mut self, delta: u128)
        ensures
            *final(self) == ticked(*old(self), delta),
    {
        if self.finished {
            return;
        }
        if delta >= self.duration || self.elapsed >= self.duration - delta {
            self.elapsed = self.duration;
            self.finished = true;
        } else {
            self.elapsed = self.elapsed + delta;
        }
    }

    /// Starts the timer over with its current duration.
    pub fn reset(&mut self)
        ensures
            *final(self) == restarted(*old(self), old(self).duration),
    {
        self.elapsed = 0;
        self.finished = false;
    }

    pub fn set_duration(&mut self, duration: u128)
        ensures
            *final(self) == (OnceTimer { duration, ..*old(self) }),
    {
        self.duration = duration;
    }

    /// Runs the timer to its end: ticks it by the time that remains.
    pub fn finish(&mut self)
        requires
            old(self).elapsed <= old(self).duration,
        ensures
            *final(self) == ticked(*old(self), (old(self).duration - old(self).elapsed) as u128),
            final(self).finished,
    {
        let remaining = self.duration - self.elapsed;
        self.tick(remaining);
    }
}

/// Counts up elapsed nanoseconds; stops at `MAX_DURATION` instead of overflowing.
#[derive(Debug, Clone, Copy, PartialEq, Eq, Structural)]
pub struct Stopwatch {
    pub elapsed: u128,
}

/// The longest duration there is (`Duration::MAX`), in nanoseconds.
pub const MAX_DURATION: u128 = 18_446_744_073_709_551_615_999_999_999;

/// A sum of durations that saturates at `MAX_DURATION`.
pub open spec fn sat_add(a: u128, b: u128) -> u128 {
    if a + b > MAX_DURATION { MAX_DURATION } else { (a + b) as u128 }
}

impl Stopwatch {
    pub fn new() -> (r: Stopwatch)
        ensures
            r.elapsed == 0,
    {
        Stopwatch { elapsed: 0 }
    }

    pub fn tick(&mut self, delta: u128)
        ensures
            final(self).elapsed == sat_add(old(self).elapsed, delta),
    {
        if delta > MAX_DURATION || self.elapsed > MAX_DURATION - delta {
            self.elapsed = MAX_DURATION;
        } else {
            self.elapsed = self.elapsed + delta;
        }
    }

    pub fn reset(&mut self)
        ensures
            final(self).elapsed == 0,
    {
        self.elapsed = 0;
    }
}

/// Once finished, a timer stays finished and at its full duration however
/// it is ticked; before that, its elapsed time never passes its duration
/// unless it started out past it.
pub proof fn lemma_tick_finished_stays(t: OnceTimer, delta: u128)
    ensures
        t.finished ==> ticked(t, delta) == t,
        ticked(t, delta).finished ==> (t.finished || ticked(t, delta).elapsed == t.duration),
        ticked(t, delta).finished == (t.finished || t.elapsed + delta >= t.duration),
{
}

/// A stopwatch that holds a real duration never runs backwards.
pub proof fn lemma_stopwatch_monotone(elapsed: u128, delta: u128)
    requires
        elapsed <= MAX_DURATION,
    ensures
        sat_add(elapsed, delta) >= elapsed,
{
}

} // verus!
