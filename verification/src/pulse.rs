use vstd::prelude::*;
use crate::awareness::{Awareness, CapacitorDurations, pulsed, blank_awareness};
use crate::delay::{DelayTimers, delayed_level, delay_timers_after};
use crate::level::{AwarenessLevel, rank};
use crate::store::AwarenessStore;

verus! {

/// One sensation of an object by an NPC.
#[derive(Debug, Clone, Copy, PartialEq, Eq, Structural)]
pub struct PulseInput {
    /// The sensed object.
    pub object: u64,
    /// How strongly it was sensed.
    pub level: AwarenessLevel,
    /// Heard (`true`) or seen (`false`).
    pub is_audio: bool,
}

/// Whether a pulse goes through the alertness delay: only rises of the
/// awareness of the player do.
pub open spec fn is_delayed(is_player: bool, prev: AwarenessLevel, pulse: AwarenessLevel) -> bool {
    is_player && rank(pulse) > rank(prev)
}

/// The level a pulse takes effect at.
pub open spec fn effective_level(
    delay: DelayTimers,
    is_player: bool,
    prev: AwarenessLevel,
    pulse: AwarenessLevel,
) -> AwarenessLevel {
    if is_delayed(is_player, prev, pulse) { delayed_level(delay, prev, pulse) } else { pulse }
}

/// How a pulse relates the awareness it started from (`prev`: the stored
/// one, or a blank one at the default position) to the stored result and
/// to the delay timers.
pub open spec fn pulse_outcome<P: Default>(
    before: Map<u64, Awareness<P>>,
    delay_before: DelayTimers,
    after: Awareness<P>,
    delay_after: DelayTimers,
    prev: Awareness<P>,
    input: PulseInput,
    is_player: bool,
    free_knowledge: u128,
    caps: CapacitorDurations,
    pos: P,
) -> bool {
    &&& (if before.contains_key(input.object) {
        prev == before[input.object]
    } else {
        prev == blank_awareness(prev.last_pos) && call_ensures(P::default, (), prev.last_pos)
    })
    &&& after == pulsed(
        prev,
        input.level,
        effective_level(delay_before, is_player, prev.level, input.level),
        input.is_audio,
        free_knowledge,
        caps,
        pos,
    )
    &&& delay_after == if is_delayed(is_player, prev.level, input.level) {
        delay_timers_after(delay_before, prev.level, input.level)
    } else {
        delay_before
    }
}

/// Feeds one pulse into an NPC's awareness of an object: the awareness is
/// created if there is none, the pulse's level is delayed for rises of the
/// awareness of the player, and the result is stored back.
///
/// `free_knowledge` is how long after the last true contact the object's
/// position keeps being tracked; `object_pos` is its current position.
pub fn pulse<P: Copy + Default>(
    store: &mut AwarenessStore<P>,
    delay: &mut DelayTimers,
    input: PulseInput,
    is_player: bool,
    free_knowledge: u128,
    caps: CapacitorDurations,
    object_pos: P,
)
    ensures
        final(store).view().dom() == old(store).view().dom().insert(input.object),
        final(store).order() == if old(store).view().contains_key(input.object) {
            old(store).order()
        } else {
            old(store).order().push(input.object)
        },
        forall|o: u64| o != input.object && #[trigger] old(store).view().contains_key(o)
            ==> final(store).view()[o] == old(store).view()[o],
        exists|prev: Awareness<P>| #[trigger] pulse_outcome(
            old(store).view(),
            *old(delay),
            final(store).view()[input.object],
            *final(delay),
            prev,
            input,
            is_player,
            free_knowledge,
            caps,
            object_pos,
        ),
{
    let mut awareness = match store.get(input.object) {
        Some(a) => a,
        None => {
            let d = P::default();
            assert(call_ensures(P::default, (), d));
            Awareness::blank(d)
        },
    };
    let ghost prev = awareness;
    let effective = if is_player && awareness.level.lt(input.level) {
        delay.delay_awareness(awareness.level, input.level)
    } else {
        input.level
    };
    awareness.apply_pulse(input.level, effective, input.is_audio, free_knowledge, caps, object_pos);
    store.set(input.object, awareness);
    assert(final(store).view()[input.object] == awareness);
    assert(final(store).view().dom() =~= old(store).view().dom().insert(input.object));
    assert(pulse_outcome(
        old(store).view(),
        *old(delay),
        final(store).view()[input.object],
        *final(delay),
        prev,
        input,
        is_player,
        free_knowledge,
        caps,
        object_pos,
    ));
}

/// A pulse never lowers a stored awareness, and raises it at most to the
/// pulse's own level.
pub proof fn law_pulse_bounds<P: Default>(
    before: Map<u64, Awareness<P>>,
    delay_before: DelayTimers,
    after: Awareness<P>,
    delay_after: DelayTimers,
    prev: Awareness<P>,
    input: PulseInput,
    is_player: bool,
    free_knowledge: u128,
    caps: CapacitorDurations,
    pos: P,
)
    requires
        pulse_outcome(before, delay_before, after, delay_after, prev, input, is_player, free_knowledge, caps, pos),
    ensures
        rank(after.level) >= rank(prev.level),
        before.contains_key(input.object) ==> rank(after.level) >= rank(before[input.object].level),
        rank(after.level) <= rank(prev.level) || rank(after.level) <= rank(input.level),
{
    if is_delayed(is_player, prev.level, input.level) {
        crate::delay::lemma_delay_never_raises(delay_before, prev.level, input.level);
    }
}

/// Whether a pulse reads the object's current position: when it senses the
/// object, or while the object is still within the free knowledge window
/// (a new awareness starts with no time since its last true contact).
pub open spec fn needs_position<P>(
    before: Map<u64, Awareness<P>>,
    object: u64,
    level: AwarenessLevel,
    free_knowledge: u128,
) -> bool {
    let elapsed = if before.contains_key(object) { before[object].last_true_contact.elapsed as int } else { 0 };
    level != AwarenessLevel::Lowest || elapsed < free_knowledge
}

/// Tells the caller of `pulse` whether it must supply the object's
/// current position; otherwise any position will do, as the law
/// `law_position_unused` shows.
pub fn pulse_needs_position<P: Copy>(
    store: &AwarenessStore<P>,
    object: u64,
    level: AwarenessLevel,
    free_knowledge: u128,
) -> (r: bool)
    ensures
        r == needs_position(store.view(), object, level, free_knowledge),
{
    if level.is_aware() {
        return true;
    }
    match store.get(object) {
        Some(a) => a.last_true_contact.elapsed < free_knowledge,
        None => 0 < free_knowledge,
    }
}

/// When a pulse needs no position, the position passed in makes no
/// difference to its outcome.
pub proof fn law_position_unused<P: Default>(
    before: Map<u64, Awareness<P>>,
    delay_before: DelayTimers,
    after: Awareness<P>,
    delay_after: DelayTimers,
    prev: Awareness<P>,
    input: PulseInput,
    is_player: bool,
    free_knowledge: u128,
    caps: CapacitorDurations,
    pos: P,
    other_pos: P,
)
    requires
        pulse_outcome(before, delay_before, after, delay_after, prev, input, is_player, free_knowledge, caps, pos),
        !needs_position(before, input.object, input.level, free_knowledge),
    ensures
        pulse_outcome(before, delay_before, after, delay_after, prev, input, is_player, free_knowledge, caps, other_pos),
        after.last_pos == prev.last_pos,
{
}


/// Sensing an object at or above the level the NPC is aware of it (when no
/// delay applies: it is not the player, or the level does not rise) keeps
/// that level and recharges its capacitor in full.
pub proof fn law_pulse_keeps_sensed_object_alive<P: Default>(
    before: Map<u64, Awareness<P>>,
    delay_before: DelayTimers,
    after: Awareness<P>,
    delay_after: DelayTimers,
    prev: Awareness<P>,
    input: PulseInput,
    is_player: bool,
    free_knowledge: u128,
    caps: CapacitorDurations,
    pos: P,
)
    requires
        pulse_outcome(before, delay_before, after, delay_after, prev, input, is_player, free_knowledge, caps, pos),
        rank(input.level) >= rank(prev.level),
        !is_player || input.level == prev.level,
    ensures
        after.level == input.level,
        after.capacitor == (crate::timer::OnceTimer {
            duration: crate::awareness::spec_capacitor(caps, input.level),
            elapsed: 0,
            finished: false,
        }),
        delay_after == delay_before,
{
    crate::awareness::law_pulse_recharges(prev, input.level, input.level, input.is_audio, free_knowledge, caps, pos);
}
} // verus!
