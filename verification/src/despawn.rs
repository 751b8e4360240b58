use vstd::prelude::*;
use crate::timer::{OnceTimer, ticked};

verus! {

/// Marks an entity for removal once its timer has run out.
#[derive(Debug, Clone, Copy, PartialEq, Eq, Structural)]
pub struct Despawn {
    pub timer: OnceTimer,
}

impl Despawn {
    /// Removal after `nanos` nanoseconds.
    pub fn after(nanos: u128) -> (r: Despawn)
        ensures
            r.timer == (OnceTimer { duration: nanos, elapsed: 0, finished: false }),
    {
        Despawn { timer: OnceTimer::new(nanos) }
    }

    /// Removal right away: a zero timer that is already finished.
    pub fn immediately() -> (r: Despawn)
        ensures
            r.timer == (OnceTimer { duration: 0, elapsed: 0, finished: true }),
    {
        let mut timer = OnceTimer::new(0);
        timer.finish();
        Despawn { timer }
    }

    /// One update: reports whether the entity is due for removal (judged
    /// before this update's time is added), then advances the timer.
    pub fn step(&mut self, delta: u128) -> (r: bool)
        ensures
            r == old(self).timer.finished,
            final(self).timer == ticked(old(self).timer, delta),
    {
        let due = self.timer.is_finished();
        self.timer.tick(delta);
        due
    }
}

/// Switches an entity to a new target once a timer has run out.
#[derive(Debug, Clone, Copy, PartialEq, Eq, Structural)]
pub struct TargetAfter {
    pub target: u64,
    pub timer: OnceTimer,
}

impl TargetAfter {
    pub fn new(target: u64, nanos: u128) -> (r: TargetAfter)
        ensures
            r == (TargetAfter { target, timer: OnceTimer { duration: nanos, elapsed: 0, finished: false } }),
    {
        TargetAfter { target, timer: OnceTimer::new(nanos) }
    }

    /// Advances the timer; returns the target to switch to once it has run
    /// out.
    pub fn tick(&mut self, delta: u128) -> (r: Option<u64>)
        ensures
            final(self).timer == ticked(old(self).timer, delta),
            final(self).target == old(self).target,
            r == (if final(self).timer.finished { Some(old(self).target) } else { None }),
    {
        self.timer.tick(delta);
        if self.timer.is_finished() {
            Some(self.target)
        } else {
            None
        }
    }
}

/// Marker for non-player characters.
#[derive(Debug, Clone, Copy, PartialEq, Eq, Structural)]
pub struct Npc;

} // verus!
