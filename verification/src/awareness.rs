use vstd::prelude::*;
use crate::flags::{AwarenessFlags, SENSED, SEEN, HEARD};
use crate::level::{AwarenessLevel, rank, spec_decrease};
use crate::timer::{OnceTimer, Stopwatch, ticked, restarted, sat_add, MAX_DURATION};

verus! {

/// What an NPC knows about one object.
#[derive(Debug, Clone, Copy)]
pub struct Awareness<P> {
    /// Current level.
    pub level: AwarenessLevel,
    /// Time left in the current level; when it runs out the level decays.
    pub capacitor: OnceTimer,
    pub flags: AwarenessFlags,
    /// Time since the NPC last heard or saw the object.
    pub last_true_contact: Stopwatch,
    /// Time since the last contact of any kind.
    pub last_contact: Stopwatch,
    /// Where the object was last sensed.
    pub last_pos: P,
    /// The last pulse that contributed to this awareness.
    pub last_pulse: AwarenessLevel,
}

/// How long an awareness level holds before it decays one step, in
/// nanoseconds. `Lowest` holds for the longest duration there is.
#[derive(Debug, Clone, Copy, PartialEq, Eq, Structural)]
pub struct CapacitorDurations {
    pub low_to_lowest: u128,
    pub moderate_to_low: u128,
    pub high_to_moderate: u128,
}

pub open spec fn spec_capacitor(c: CapacitorDurations, l: AwarenessLevel) -> u128 {
    match l {
        AwarenessLevel::Lowest => MAX_DURATION,
        AwarenessLevel::Low => c.low_to_lowest,
        AwarenessLevel::Moderate => c.moderate_to_low,
        AwarenessLevel::High => c.high_to_moderate,
    }
}

impl CapacitorDurations {
    /// 4 s, 8 s and 45 s.
    pub fn default_durations() -> (r: CapacitorDurations)
        ensures
            r.low_to_lowest == 4_000_000_000,
            r.moderate_to_low == 8_000_000_000,
            r.high_to_moderate == 45_000_000_000,
    {
        CapacitorDurations {
            low_to_lowest: 4_000_000_000,
            moderate_to_low: 8_000_000_000,
            high_to_moderate: 45_000_000_000,
        }
    }

    pub fn get(self, level: AwarenessLevel) -> (r: u128)
        ensures
            r == spec_capacitor(self, level),
    {
        match level {
            AwarenessLevel::Lowest => MAX_DURATION,
            AwarenessLevel::Low => self.low_to_lowest,
            AwarenessLevel::Moderate => self.moderate_to_low,
            AwarenessLevel::High => self.high_to_moderate,
        }
    }
}

/// The awareness after `delta` nanoseconds: its capacitor and both
/// stopwatches advance.
pub open spec fn aged<P>(a: Awareness<P>, delta: u128) -> Awareness<P> {
    Awareness {
        capacitor: ticked(a.capacitor, delta),
        last_true_contact: Stopwatch { elapsed: sat_add(a.last_true_contact.elapsed, delta) },
        last_contact: Stopwatch { elapsed: sat_add(a.last_contact.elapsed, delta) },
        ..a
    }
}

/// Whether an awareness is dropped when expired capacitors are processed:
/// its capacitor ran out and one step down is `Lowest`.
pub open spec fn expires<P>(a: Awareness<P>) -> bool {
    a.capacitor.finished && spec_decrease(a.level) == AwarenessLevel::Lowest
}

/// An awareness after expired capacitors are processed, if it is kept: a
/// finished capacitor lowers the level one step and restarts with that
/// level's duration.
pub open spec fn decayed<P>(a: Awareness<P>, caps: CapacitorDurations) -> Awareness<P> {
    if a.capacitor.finished {
        Awareness {
            level: spec_decrease(a.level),
            capacitor: restarted(a.capacitor, spec_capacitor(caps, spec_decrease(a.level))),
            ..a
        }
    } else {
        a
    }
}

/// The flags after a pulse: the sensed bits are cleared, then an aware
/// pulse sets `HEARD` (audio) or `SEEN` (vision).
pub open spec fn pulse_flags(bits: u8, pulse: AwarenessLevel, is_audio: bool) -> u8 {
    if pulse != AwarenessLevel::Lowest {
        (bits & !SENSED) | (if is_audio { HEARD } else { SEEN })
    } else {
        bits & !SENSED
    }
}

/// Whether a pulse at `effective` level restarts the capacitor: it does
/// when an aware pulse meets a `High` awareness, or when the pulse is at
/// least the current level.
pub open spec fn pulse_charges<P>(prev: Awareness<P>, effective: AwarenessLevel) -> bool {
    (effective != AwarenessLevel::Lowest && prev.level == AwarenessLevel::High)
        || rank(effective) >= rank(prev.level)
}

/// An awareness after a pulse. `sensed` is the original pulse's level (it
/// decides the flags), `effective` the level after the alertness delay.
pub open spec fn pulsed<P>(
    prev: Awareness<P>,
    sensed: AwarenessLevel,
    effective: AwarenessLevel,
    is_audio: bool,
    free_knowledge: u128,
    caps: CapacitorDurations,
    pos: P,
) -> Awareness<P> {
    let is_sensed = sensed != AwarenessLevel::Lowest;
    let refresh = is_sensed || prev.last_true_contact.elapsed < free_knowledge;
    let keeps_high = effective != AwarenessLevel::Lowest && prev.level == AwarenessLevel::High;
    let level = if keeps_high {
        prev.level
    } else if rank(effective) >= rank(prev.level) {
        effective
    } else {
        prev.level
    };
    Awareness {
        level,
        capacitor: if pulse_charges(prev, effective) {
            restarted(prev.capacitor, spec_capacitor(caps, level))
        } else {
            prev.capacitor
        },
        flags: AwarenessFlags { bits: pulse_flags(prev.flags.bits, sensed, is_audio) },
        last_true_contact: if is_sensed { Stopwatch { elapsed: 0 } } else { prev.last_true_contact },
        last_contact: if is_sensed { Stopwatch { elapsed: 0 } } else { prev.last_contact },
        last_pos: if refresh { pos } else { prev.last_pos },
        last_pulse: effective,
    }
}

impl<P: Copy> Awareness<P> {
    /// A blank awareness: lowest level, no flags, zeroed clocks.
    pub fn blank(pos: P) -> (r: Awareness<P>)
        ensures
            r == blank_awareness(pos),
    {
        Awareness {
            level: AwarenessLevel::Lowest,
            capacitor: OnceTimer::new(0),
            flags: AwarenessFlags::empty(),
            last_true_contact: Stopwatch::new(),
            last_contact: Stopwatch::new(),
            last_pos: pos,
            last_pulse: AwarenessLevel::Lowest,
        }
    }

    /// Advances the capacitor and both stopwatches.
    pub fn tick(&mut self, delta: u128)
        ensures
            *final(self) == aged(*old(self), delta),
    {
        self.capacitor.tick(delta);
        self.last_true_contact.tick(delta);
        self.last_contact.tick(delta);
    }

    /// Applies a pulse whose level may already have been delayed.
    pub fn apply_pulse(
        &mut self,
        sensed: AwarenessLevel,
        effective: AwarenessLevel,
        is_audio: bool,
        free_knowledge: u128,
        caps: CapacitorDurations,
        pos: P,
    )
        ensures
            *final(self) == pulsed(*old(self), sensed, effective, is_audio, free_knowledge, caps, pos),
    {
        self.flags.remove(SENSED);
        if sensed.is_aware() {
            if is_audio {
                self.flags.insert(HEARD);
            } else {
                self.flags.insert(SEEN);
            }
        }
        let is_sensed = sensed.is_aware();
        if is_sensed || self.last_true_contact.elapsed < free_knowledge {
            if is_sensed {
                self.last_true_contact.reset();
                self.last_contact.reset();
            }
            self.last_pos = pos;
        }
        self.last_pulse = effective;
        if effective.is_aware() && self.level == AwarenessLevel::High {
            let d = caps.get(self.level);
            self.capacitor.set_duration(d);
            self.capacitor.reset();
        } else if self.level.le(effective) {
            self.level = effective;
            let d = caps.get(self.level);
            self.capacitor.set_duration(d);
            self.capacitor.reset();
        }
    }
}

pub open spec fn blank_awareness<P>(pos: P) -> Awareness<P> {
    Awareness {
        level: AwarenessLevel::Lowest,
        capacitor: OnceTimer { duration: 0, elapsed: 0, finished: false },
        flags: AwarenessFlags { bits: 0 },
        last_true_contact: Stopwatch { elapsed: 0 },
        last_contact: Stopwatch { elapsed: 0 },
        last_pos: pos,
        last_pulse: AwarenessLevel::Lowest,
    }
}

/// A pulse never lowers an awareness level.
pub proof fn lemma_pulse_never_lowers<P>(
    prev: Awareness<P>,
    sensed: AwarenessLevel,
    effective: AwarenessLevel,
    is_audio: bool,
    free_knowledge: u128,
    caps: CapacitorDurations,
    pos: P,
)
    ensures
        rank(pulsed(prev, sensed, effective, is_audio, free_knowledge, caps, pos).level) >= rank(prev.level),
        rank(pulsed(prev, sensed, effective, is_audio, free_knowledge, caps, pos).level) >= rank(effective)
            || (effective != AwarenessLevel::Lowest && prev.level == AwarenessLevel::High)
            || rank(effective) < rank(prev.level),
{
}

/// After an aware pulse the object counts as sensed (seen or heard), and
/// after a `Lowest` pulse it does not.
pub proof fn lemma_pulse_sensed_flags(bits: u8, pulse: AwarenessLevel, is_audio: bool)
    ensures
        (pulse_flags(bits, pulse, is_audio) & SENSED != 0) == (pulse != AwarenessLevel::Lowest),
        pulse != AwarenessLevel::Lowest && is_audio ==> pulse_flags(bits, pulse, is_audio) & HEARD == HEARD,
        pulse != AwarenessLevel::Lowest && !is_audio ==> pulse_flags(bits, pulse, is_audio) & SEEN == SEEN,
{
    assert(((bits & !3u8) | 2u8) & 3u8 != 0 && ((bits & !3u8) | 1u8) & 3u8 != 0 && (bits & !3u8) & 3u8 == 0
        && ((bits & !3u8) | 2u8) & 2u8 == 2u8 && ((bits & !3u8) | 1u8) & 1u8 == 1u8) by (bit_vector);
}


/// A pulse at or above the current level sets the level to it and
/// recharges the capacitor with that level's full duration; an aware pulse
/// keeps a `High` awareness `High` and recharged; any other pulse leaves
/// level and capacitor as they were.
pub proof fn law_pulse_recharges<P>(
    prev: Awareness<P>,
    sensed: AwarenessLevel,
    effective: AwarenessLevel,
    is_audio: bool,
    free_knowledge: u128,
    caps: CapacitorDurations,
    pos: P,
)
    ensures
        ({
            let after = pulsed(prev, sensed, effective, is_audio, free_knowledge, caps, pos);
            let full = OnceTimer { duration: spec_capacitor(caps, after.level), elapsed: 0, finished: false };
            &&& rank(effective) >= rank(prev.level) ==> after.level == effective && after.capacitor == full
            &&& prev.level == AwarenessLevel::High && effective != AwarenessLevel::Lowest ==>
                after.level == AwarenessLevel::High && after.capacitor == full
            &&& rank(effective) < rank(prev.level)
                && !(prev.level == AwarenessLevel::High && effective != AwarenessLevel::Lowest) ==>
                after.level == prev.level && after.capacitor == prev.capacitor
        }),
{
}

} // verus!
