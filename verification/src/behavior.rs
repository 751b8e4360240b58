use vstd::prelude::*;
use crate::timer::{OnceTimer, ticked, restarted};

verus! {

/// What an NPC chasing, searching or investigating does about its
/// destination in one update.
#[derive(Debug, Clone, Copy, PartialEq, Eq, Structural)]
pub struct InvestigationStep {
    /// Restart the resampling timer.
    pub reset_timer: bool,
    /// Sample a new destination near the last known position.
    pub sample: bool,
}

/// When the resampling timer has run out the destination is resampled
/// (and the timer restarted); otherwise it is sampled only if there is
/// none yet, and kept if there is.
pub fn investigation_step(timer_finished: bool, has_destination: bool) -> (r: InvestigationStep)
    ensures
        r.reset_timer == timer_finished,
        r.sample == (timer_finished || !has_destination),
{
    if timer_finished {
        InvestigationStep { reset_timer: true, sample: true }
    } else if !has_destination {
        InvestigationStep { reset_timer: false, sample: true }
    } else {
        InvestigationStep { reset_timer: false, sample: false }
    }
}

/// The layers a collider of a rigid body is added to.
#[derive(Debug, Clone, Copy, PartialEq, Eq, Structural)]
pub struct ColliderMarks {
    pub static_layer: bool,
    pub opaque_layer: bool,
}

/// Static bodies' colliders join the static layer, and colliders of bodies
/// that are not transparent join the opaque layer; a moving transparent
/// body needs nothing (`None`).
pub fn collider_marks(is_static: bool, is_transparent: bool) -> (r: Option<ColliderMarks>)
    ensures
        (r is None) == (!is_static && is_transparent),
        r matches Some(m) ==> m.static_layer == is_static && m.opaque_layer == !is_transparent,
{
    if !is_static && is_transparent {
        return None;
    }
    Some(ColliderMarks { static_layer: is_static, opaque_layer: !is_transparent })
}

/// What the audio simulation does in one frame.
#[derive(Debug, Clone, Copy, PartialEq, Eq, Structural)]
pub struct SimulationStep {
    /// Commit the results of the finished background simulation.
    pub commit: bool,
    /// Start the expensive background simulation again.
    pub start_expensive: bool,
}

/// The cheap simulation runs every frame; the expensive one is started again
/// once its timer has run out and the previous run has completed, which
/// restarts the timer. A completed run is committed first.
pub fn simulation_step(timer: &mut OnceTimer, delta: u128, previous_complete: bool) -> (r: SimulationStep)
    ensures
        r.commit == previous_complete,
        r.start_expensive == (ticked(*old(timer), delta).finished && previous_complete),
        *final(timer) == if r.start_expensive {
            restarted(ticked(*old(timer), delta), old(timer).duration)
        } else {
            ticked(*old(timer), delta)
        },
{
    timer.tick(delta);
    if !timer.is_finished() || !previous_complete {
        return SimulationStep { commit: previous_complete, start_expensive: false };
    }
    timer.reset();
    SimulationStep { commit: previous_complete, start_expensive: true }
}

/// The items still shown after a frame: each item's timer advances, and
/// those whose timer ran out are dropped.
pub open spec fn still_shown<T>(s: Seq<(T, OnceTimer)>, delta: u128) -> Seq<(T, OnceTimer)>
    decreases s.len(),
{
    if s.len() == 0 {
        s
    } else {
        let rest = still_shown(s.drop_last(), delta);
        let t = ticked(s.last().1, delta);
        if t.finished { rest } else { rest.push((s.last().0, t)) }
    }
}

/// Ages timed debug visualizations by one frame: when they are disabled
/// all are dropped; otherwise each one's timer advances and those that ran
/// out are dropped, the rest keep their order.
pub fn tick_visualizations<T: Copy>(items: &mut Vec<(T, OnceTimer)>, enabled: bool, delta: u128)
    ensures
        final(items)@ == if enabled { still_shown(old(items)@, delta) } else { Seq::<(T, OnceTimer)>::empty() },
{
    let mut out: Vec<(T, OnceTimer)> = Vec::new();
    if enabled {
        let mut i: usize = 0;
        while i < items.len()
            invariant
                i <= items@.len(),
                out@ == still_shown(items@.take(i as int), delta),
            decreases items@.len() - i,
        {
            let (v, t) = items[i];
            let mut t2 = t;
            t2.tick(delta);
            proof {
                assert(items@.take(i + 1).drop_last() =~= items@.take(i as int));
                assert(items@.take(i + 1).last() == items@[i as int]);
            }
            if !t2.is_finished() {
                out.push((v, t2));
            }
            i = i + 1;
        }
        proof { assert(items@.take(items@.len() as int) =~= items@); }
    }
    *items = out;
}

} // verus!
