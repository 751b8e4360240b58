use vstd::prelude::*;
use crate::level::{AwarenessLevel, rank};
use crate::timer::{OnceTimer, restarted};

verus! {

/// The timers that hold back how fast an NPC's awareness of the player may
/// climb. All four are one-shot timers that start unfinished.
#[derive(Debug, Clone, Copy, PartialEq, Eq, Structural)]
pub struct DelayTimers {
    /// 750 ms before a rise to `Moderate` takes effect.
    pub moderate_delay: OnceTimer,
    /// 500 ms before a rise to `High` takes effect.
    pub high_delay: OnceTimer,
    /// 12 s during which a rise to `Moderate` passes without delay.
    pub moderate_reuse: OnceTimer,
    /// 22 s during which a rise to `High` passes without delay.
    pub high_reuse: OnceTimer,
}

pub open spec fn restart(t: OnceTimer) -> OnceTimer {
    restarted(t, t.duration)
}

/// The level a rise from `old` to `new` is let through at.
pub open spec fn delayed_level(t: DelayTimers, old: AwarenessLevel, new: AwarenessLevel) -> AwarenessLevel {
    match new {
        AwarenessLevel::Lowest | AwarenessLevel::Low => new,
        AwarenessLevel::Moderate => {
            if !t.moderate_delay.finished {
                AwarenessLevel::Low
            } else if !t.moderate_reuse.finished {
                new
            } else {
                AwarenessLevel::Low
            }
        },
        AwarenessLevel::High => {
            if !t.high_delay.finished {
                if t.moderate_delay.finished { AwarenessLevel::Moderate } else { old }
            } else if !t.high_reuse.finished {
                new
            } else if rank(old) <= rank(AwarenessLevel::Moderate) {
                AwarenessLevel::Low
            } else if t.moderate_delay.finished {
                AwarenessLevel::Moderate
            } else {
                AwarenessLevel::Low
            }
        },
    }
}

/// The timers after a rise from `old` to `new`: a rise that is neither
/// held back nor within a reuse window restarts the delay and reuse timers
/// (the moderate delay only when `old` is at most `Moderate` for a rise to
/// `High`).
pub open spec fn delay_timers_after(t: DelayTimers, old: AwarenessLevel, new: AwarenessLevel) -> DelayTimers {
    match new {
        AwarenessLevel::Lowest | AwarenessLevel::Low => t,
        AwarenessLevel::Moderate => {
            if !t.moderate_delay.finished || !t.moderate_reuse.finished {
                t
            } else {
                DelayTimers {
                    moderate_delay: restart(t.moderate_delay),
                    high_delay: restart(t.high_delay),
                    moderate_reuse: restart(t.moderate_reuse),
                    high_reuse: restart(t.high_reuse),
                }
            }
        },
        AwarenessLevel::High => {
            if !t.high_delay.finished || !t.high_reuse.finished {
                t
            } else {
                DelayTimers {
                    moderate_delay: if rank(old) <= rank(AwarenessLevel::Moderate) {
                        restart(t.moderate_delay)
                    } else {
                        t.moderate_delay
                    },
                    high_delay: restart(t.high_delay),
                    moderate_reuse: restart(t.moderate_reuse),
                    high_reuse: restart(t.high_reuse),
                }
            }
        },
    }
}

impl DelayTimers {
    /// Fresh timers of 750 ms, 500 ms, 12 s and 22 s.
    pub fn default_timers() -> (r: DelayTimers)
        ensures
            r.moderate_delay == (OnceTimer { duration: 750_000_000, elapsed: 0, finished: false }),
            r.high_delay == (OnceTimer { duration: 500_000_000, elapsed: 0, finished: false }),
            r.moderate_reuse == (OnceTimer { duration: 12_000_000_000, elapsed: 0, finished: false }),
            r.high_reuse == (OnceTimer { duration: 22_000_000_000, elapsed: 0, finished: false }),
    {
        DelayTimers {
            moderate_delay: OnceTimer::new(750_000_000),
            high_delay: OnceTimer::new(500_000_000),
            moderate_reuse: OnceTimer::new(12_000_000_000),
            high_reuse: OnceTimer::new(22_000_000_000),
        }
    }

    /// Advances all four timers.
    pub fn tick(&mut self, delta: u128)
        ensures
            final(self).moderate_delay == crate::timer::ticked(old(self).moderate_delay, delta),
            final(self).high_delay == crate::timer::ticked(old(self).high_delay, delta),
            final(self).moderate_reuse == crate::timer::ticked(old(self).moderate_reuse, delta),
            final(self).high_reuse == crate::timer::ticked(old(self).high_reuse, delta),
    {
        self.moderate_delay.tick(delta);
        self.high_delay.tick(delta);
        self.moderate_reuse.tick(delta);
        self.high_reuse.tick(delta);
    }

    /// Decides the level at which a rise of awareness from `old_level` to
    /// `new_level` takes effect, restarting the timers as the rise demands.
    pub fn delay_awareness(&mut self, old_level: AwarenessLevel, new_level: AwarenessLevel) -> (r: AwarenessLevel)
        ensures
            r == delayed_level(*old(self), old_level, new_level),
            *final(self) == delay_timers_after(*old(self), old_level, new_level),
    {
        match new_level {
            AwarenessLevel::Lowest | AwarenessLevel::Low => {
                return new_level;
            },
            AwarenessLevel::Moderate => {
                if !self.moderate_delay.is_finished() {
                    return AwarenessLevel::Low;
                } else if !self.moderate_reuse.is_finished() {
                    return new_level;
                }
            },
            AwarenessLevel::High => {
                if !self.high_delay.is_finished() {
                    return if self.moderate_delay.is_finished() {
                        AwarenessLevel::Moderate
                    } else {
                        old_level
                    };
                } else if !self.high_reuse.is_finished() {
                    return new_level;
                }
            },
        }
        match new_level {
            AwarenessLevel::Moderate => {
                self.moderate_delay.reset();
                self.high_delay.reset();
                self.moderate_reuse.reset();
                self.high_reuse.reset();
                AwarenessLevel::Low
            },
            _ => {
                if old_level.le(AwarenessLevel::Moderate) {
                    self.moderate_delay.reset();
                }
                self.high_delay.reset();
                self.moderate_reuse.reset();
                self.high_reuse.reset();
                if !self.moderate_delay.is_finished() {
                    AwarenessLevel::Low
                } else {
                    AwarenessLevel::Moderate
                }
            },
        }
    }
}

/// The delay only holds a rise back: the level it lets through is never
/// above the requested one, for every rise (`old` below `new`).
pub proof fn lemma_delay_never_raises(t: DelayTimers, old: AwarenessLevel, new: AwarenessLevel)
    requires
        rank(old) < rank(new),
    ensures
        rank(delayed_level(t, old, new)) <= rank(new),
{
}

/// A rise to `Low` or below is never delayed and leaves the timers alone.
pub proof fn lemma_low_rise_undelayed(t: DelayTimers, old: AwarenessLevel, new: AwarenessLevel)
    requires
        rank(new) <= 1,
    ensures
        delayed_level(t, old, new) == new,
        delay_timers_after(t, old, new) == t,
{
}


/// A timer just restarted with its own duration.
pub open spec fn fresh(t: OnceTimer, u: OnceTimer) -> bool {
    u == (OnceTimer { duration: t.duration, elapsed: 0, finished: false })
}

/// The reuse windows: once a delay has run out, a rise within the
/// matching reuse window passes at once and leaves every timer alone. A
/// rise to `Moderate` looks only at the moderate timers, a rise to `High`
/// only at the high ones.
pub proof fn law_reuse_window_lets_rise_through(t: DelayTimers, old: AwarenessLevel)
    ensures
        t.moderate_delay.finished && !t.moderate_reuse.finished ==>
            delayed_level(t, old, AwarenessLevel::Moderate) == AwarenessLevel::Moderate
            && delay_timers_after(t, old, AwarenessLevel::Moderate) == t,
        t.high_delay.finished && !t.high_reuse.finished ==>
            delayed_level(t, old, AwarenessLevel::High) == AwarenessLevel::High
            && delay_timers_after(t, old, AwarenessLevel::High) == t,
{
}

/// While a delay runs, the rise is held below the requested level and no
/// timer is touched; once both the delay and its reuse window have run
/// out, the rise is held back too and all four timers restart (the
/// moderate delay, for a rise to `High`, only from `Moderate` or below).
pub proof fn law_delay_holds_rise_back(t: DelayTimers, old: AwarenessLevel)
    requires
        rank(old) < rank(AwarenessLevel::High),
    ensures
        !t.moderate_delay.finished ==>
            delayed_level(t, old, AwarenessLevel::Moderate) == AwarenessLevel::Low
            && delay_timers_after(t, old, AwarenessLevel::Moderate) == t,
        !t.high_delay.finished ==>
            rank(delayed_level(t, old, AwarenessLevel::High)) < rank(AwarenessLevel::High)
            && delay_timers_after(t, old, AwarenessLevel::High) == t,
        t.moderate_delay.finished && t.moderate_reuse.finished ==> {
            let u = delay_timers_after(t, old, AwarenessLevel::Moderate);
            &&& delayed_level(t, old, AwarenessLevel::Moderate) == AwarenessLevel::Low
            &&& fresh(t.moderate_delay, u.moderate_delay) && fresh(t.high_delay, u.high_delay)
            &&& fresh(t.moderate_reuse, u.moderate_reuse) && fresh(t.high_reuse, u.high_reuse)
        },
        t.high_delay.finished && t.high_reuse.finished ==> {
            let u = delay_timers_after(t, old, AwarenessLevel::High);
            &&& rank(delayed_level(t, old, AwarenessLevel::High)) < rank(AwarenessLevel::High)
            &&& (rank(old) <= rank(AwarenessLevel::Moderate) ==> fresh(t.moderate_delay, u.moderate_delay))
            &&& fresh(t.high_delay, u.high_delay)
            &&& fresh(t.moderate_reuse, u.moderate_reuse) && fresh(t.high_reuse, u.high_reuse)
        },
{
}

} // verus!
