use vstd::prelude::*;
use crate::awareness::Awareness;
use crate::flags::{SEEN, FIRST_HAND, HighestAwarenessFlags, OPPONENTS_AND_ALARMS, ONLY_FIRST_HAND, ALERTING};
use crate::level::{AwarenessLevel, rank, spec_max};
use crate::team::TeamRelation;
use crate::timer::MAX_DURATION;

verus! {

/// How long, per alertness level, an NPC keeps tracking where an object is
/// after it lost contact, in nanoseconds.
#[derive(Debug, Clone, Copy, PartialEq, Eq, Structural)]
pub struct FreeKnowledgeDurations {
    pub lowest: u128,
    pub low: u128,
    pub moderate: u128,
    pub high: u128,
}

pub open spec fn spec_free_knowledge(d: FreeKnowledgeDurations, l: AwarenessLevel) -> u128 {
    match l {
        AwarenessLevel::Lowest => d.lowest,
        AwarenessLevel::Low => d.low,
        AwarenessLevel::Moderate => d.moderate,
        AwarenessLevel::High => d.high,
    }
}

impl FreeKnowledgeDurations {
    /// 1.5 s, 1.5 s, 1.875 s and 3 s.
    pub fn default_durations() -> (r: FreeKnowledgeDurations)
        ensures
            r == (FreeKnowledgeDurations {
                lowest: 1_500_000_000,
                low: 1_500_000_000,
                moderate: 1_875_000_000,
                high: 3_000_000_000,
            }),
    {
        FreeKnowledgeDurations {
            lowest: 1_500_000_000,
            low: 1_500_000_000,
            moderate: 1_875_000_000,
            high: 3_000_000_000,
        }
    }

    pub fn get(self, level: AwarenessLevel) -> (r: u128)
        ensures
            r == spec_free_knowledge(self, level),
    {
        match level {
            AwarenessLevel::Lowest => self.lowest,
            AwarenessLevel::Low => self.low,
            AwarenessLevel::Moderate => self.moderate,
            AwarenessLevel::High => self.high,
        }
    }
}

/// An NPC's overall alertness, derived from the awareness it is most alert
/// to.
#[derive(Debug, Clone, Copy, PartialEq, Eq, Structural)]
pub struct Alertness {
    pub level: AwarenessLevel,
    /// The highest level ever reached.
    pub peak: AwarenessLevel,
    /// Free knowledge duration of the current level.
    pub free_knowledge: u128,
    pub ever_got_high_alerted_by_player: bool,
    pub lost_contact_to_awareness_object: bool,
    pub last_awareness_object: Option<u64>,
}

/// A change of alertness or of the object it is about.
#[derive(Debug, Clone, Copy, PartialEq, Eq, Structural)]
pub struct AlertnessChange {
    pub object: Option<u64>,
    pub previous_level: AwarenessLevel,
}

/// What an alertness update announces.
#[derive(Debug, Clone, Copy, PartialEq, Eq, Structural)]
pub struct AlertnessEvents {
    /// The NPC became highly alert to the player for the first time.
    pub high_alertness_to_player: bool,
    /// The alertness level changed.
    pub change_alertness: Option<AlertnessChange>,
    /// The NPC turned to another object, or regained contact with its object.
    pub change_or_regain_object: Option<AlertnessChange>,
}

/// Whether an awareness means contact right now: no time since the last
/// contact, and the object is seen.
pub open spec fn in_contact<P>(a: Awareness<P>) -> bool {
    a.last_contact.elapsed == 0 && a.flags.bits & SEEN == SEEN
}

pub open spec fn target_object<P>(aw: Option<(u64, Awareness<P>)>) -> Option<u64> {
    match aw {
        Some(p) => Some(p.0),
        None => None,
    }
}

pub open spec fn target_level<P>(aw: Option<(u64, Awareness<P>)>) -> AwarenessLevel {
    match aw {
        Some(p) => p.1.level,
        None => AwarenessLevel::Lowest,
    }
}

pub open spec fn aw_in_contact<P>(aw: Option<(u64, Awareness<P>)>) -> bool {
    match aw {
        Some(p) => in_contact(p.1),
        None => false,
    }
}

/// The new level: the target's, but at least `Low` once the NPC has ever
/// been highly alert.
pub open spec fn new_level<P>(a: Alertness, aw: Option<(u64, Awareness<P>)>) -> AwarenessLevel {
    if a.peak == AwarenessLevel::High {
        spec_max(target_level(aw), AwarenessLevel::Low)
    } else {
        target_level(aw)
    }
}

pub open spec fn fires_high_to_player<P>(a: Alertness, aw: Option<(u64, Awareness<P>)>, object_is_player: bool) -> bool {
    new_level(a, aw) == AwarenessLevel::High && aw.is_some() && object_is_player
        && !a.ever_got_high_alerted_by_player
}

pub open spec fn lost_after_check<P>(a: Alertness, aw: Option<(u64, Awareness<P>)>) -> bool {
    a.lost_contact_to_awareness_object || (aw.is_some() && !aw_in_contact(aw))
}

pub open spec fn changes_object<P>(a: Alertness, aw: Option<(u64, Awareness<P>)>) -> bool {
    target_object(aw) != a.last_awareness_object || (lost_after_check(a, aw) && aw_in_contact(aw))
}

pub open spec fn alertness_after<P>(
    a: Alertness,
    durations: FreeKnowledgeDurations,
    aw: Option<(u64, Awareness<P>)>,
    object_is_player: bool,
) -> Alertness {
    let level = new_level(a, aw);
    Alertness {
        level,
        peak: spec_max(a.peak, level),
        free_knowledge: spec_free_knowledge(durations, level),
        ever_got_high_alerted_by_player: a.ever_got_high_alerted_by_player
            || fires_high_to_player(a, aw, object_is_player),
        lost_contact_to_awareness_object: if aw_in_contact(aw) { false } else { lost_after_check(a, aw) },
        last_awareness_object: if changes_object(a, aw) { target_object(aw) } else { a.last_awareness_object },
    }
}

pub open spec fn events_after<P>(
    a: Alertness,
    aw: Option<(u64, Awareness<P>)>,
    object_is_player: bool,
) -> AlertnessEvents {
    let change = AlertnessChange { object: target_object(aw), previous_level: a.level };
    AlertnessEvents {
        high_alertness_to_player: fires_high_to_player(a, aw, object_is_player),
        change_alertness: if a.level != new_level(a, aw) { Some(change) } else { None },
        change_or_regain_object: if changes_object(a, aw) { Some(change) } else { None },
    }
}

impl Alertness {
    /// Lowest level, lowest peak, the free knowledge of the lowest level
    /// under the default durations, no object.
    pub fn new() -> (r: Alertness)
        ensures
            r == (Alertness {
                level: AwarenessLevel::Lowest,
                peak: AwarenessLevel::Lowest,
                free_knowledge: 1_500_000_000,
                ever_got_high_alerted_by_player: false,
                lost_contact_to_awareness_object: false,
                last_awareness_object: None,
            }),
    {
        Alertness {
            level: AwarenessLevel::Lowest,
            peak: AwarenessLevel::Lowest,
            free_knowledge: FreeKnowledgeDurations::default_durations().get(AwarenessLevel::Lowest),
            ever_got_high_alerted_by_player: false,
            lost_contact_to_awareness_object: false,
            last_awareness_object: None,
        }
    }

    /// Takes the free knowledge duration of the current level from the NPC's
    /// own durations.
    pub fn on_add(&mut self, durations: FreeKnowledgeDurations)
        ensures
            *final(self) == (Alertness { free_knowledge: spec_free_knowledge(durations, old(self).level), ..*old(self) }),
    {
        self.free_knowledge = durations.get(self.level);
    }

    /// Moves the alertness to the level of `awareness` (the awareness the NPC
    /// is most alert to, with its object), and reports what changed.
    /// `object_is_player` tells whether that object is the player.
    pub fn update_alertness_to<P: Copy>(
        &mut self,
        durations: FreeKnowledgeDurations,
        awareness: Option<(u64, Awareness<P>)>,
        object_is_player: bool,
    ) -> (r: AlertnessEvents)
        ensures
            *final(self) == alertness_after(*old(self), durations, awareness, object_is_player),
            r == events_after(*old(self), awareness, object_is_player),
    {
        let previous_level = self.level;
        let (object, target, contact, has_awareness) = match awareness {
            Some((o, a)) => (
                Some(o),
                a.level,
                a.last_contact.elapsed == 0 && a.flags.contains(SEEN),
                true,
            ),
            None => (None, AwarenessLevel::Lowest, false, false),
        };
        self.level = if self.peak == AwarenessLevel::High {
            target.max(AwarenessLevel::Low)
        } else {
            target
        };
        self.free_knowledge = durations.get(self.level);
        self.peak = self.peak.max(self.level);

        let mut high_alertness_to_player = false;
        if self.level == AwarenessLevel::High && has_awareness && object_is_player
            && !self.ever_got_high_alerted_by_player {
            self.ever_got_high_alerted_by_player = true;
            high_alertness_to_player = true;
        }
        let change = AlertnessChange { object, previous_level };
        let change_alertness = if previous_level != self.level { Some(change) } else { None };

        if has_awareness && !contact {
            self.lost_contact_to_awareness_object = true;
        }
        let mut change_or_regain_object = None;
        if object != self.last_awareness_object || (self.lost_contact_to_awareness_object && contact) {
            self.last_awareness_object = object;
            change_or_regain_object = Some(change);
        }
        if contact {
            self.lost_contact_to_awareness_object = false;
        }
        AlertnessEvents { high_alertness_to_player, change_alertness, change_or_regain_object }
    }
}

/// The alertness update keeps its promises over time: the peak never
/// drops and stays at or above the level, the first-high-alert flag is
/// never cleared, the first-high-alert event fires only while that flag was
/// still clear (so at most once per NPC), and an NPC that once peaked at
/// `High` never goes below `Low` again.
pub proof fn law_alertness_update<P>(
    a: Alertness,
    durations: FreeKnowledgeDurations,
    aw: Option<(u64, Awareness<P>)>,
    object_is_player: bool,
)
    requires
        rank(a.peak) >= rank(a.level),
    ensures
        ({
            let b = alertness_after(a, durations, aw, object_is_player);
            let e = events_after(a, aw, object_is_player);
            &&& rank(b.peak) >= rank(a.peak)
            &&& rank(b.peak) >= rank(b.level)
            &&& a.ever_got_high_alerted_by_player ==> b.ever_got_high_alerted_by_player
            &&& e.high_alertness_to_player ==> !a.ever_got_high_alerted_by_player && b.ever_got_high_alerted_by_player
            &&& a.ever_got_high_alerted_by_player ==> !e.high_alertness_to_player
            &&& a.peak == AwarenessLevel::High ==> rank(b.level) >= rank(AwarenessLevel::Low)
            &&& (e.change_alertness is Some) == (b.level != a.level)
        }),
{
}

/// One candidate for the awareness an NPC is most alert to.
#[derive(Debug, Clone, Copy)]
pub struct AwarenessCandidate<P> {
    pub object: u64,
    /// The object's relation to the NPC's team; `None` if the object has no
    /// team (it is then skipped).
    pub relation: Option<TeamRelation>,
    pub awareness: Awareness<P>,
    pub is_player: bool,
    /// Orders candidates by squared distance from the NPC (smaller is
    /// closer).
    pub distance_key: u32,
}

/// Whether a candidate passes the filters.
pub open spec fn eligible<P>(c: AwarenessCandidate<P>, flags: u8, max_last_contact: u128) -> bool {
    match c.relation {
        None => false,
        Some(rel) => {
            &&& !(flags & OPPONENTS_AND_ALARMS == OPPONENTS_AND_ALARMS && rel != TeamRelation::Enemy)
            &&& !(flags & ALERTING == ALERTING && rel == TeamRelation::Indifferent)
            &&& c.awareness.last_contact.elapsed <= max_last_contact
            &&& !(flags & ONLY_FIRST_HAND == ONLY_FIRST_HAND
                && c.awareness.flags.bits & FIRST_HAND != FIRST_HAND)
        },
    }
}

/// Whether `c` takes over from the current best `b`: a higher level wins;
/// at equal levels, the player wins (except at `Moderate`), and at
/// `Moderate` a more recent contact or a closer position wins.
pub open spec fn beats<P>(c: AwarenessCandidate<P>, b: AwarenessCandidate<P>) -> bool {
    rank(c.awareness.level) > rank(b.awareness.level) || (c.awareness.level == b.awareness.level && (
    if b.awareness.level == AwarenessLevel::Moderate {
        c.awareness.last_contact.elapsed < b.awareness.last_contact.elapsed
            || c.distance_key < b.distance_key
    } else {
        c.is_player
    }))
}

/// The index of the awareness an NPC is most alert to, scanning candidates
/// in order.
pub open spec fn best_index<P>(s: Seq<AwarenessCandidate<P>>, flags: u8, max_last_contact: u128) -> Option<int>
    decreases s.len(),
{
    if s.len() == 0 {
        None
    } else {
        let prev = best_index(s.drop_last(), flags, max_last_contact);
        let i = s.len() - 1;
        if !eligible(s[i], flags, max_last_contact) {
            prev
        } else {
            match prev {
                None => Some(i),
                Some(b) => if beats(s[i], s[b]) { Some(i) } else { prev },
            }
        }
    }
}

pub open spec fn best_of<P>(s: Seq<AwarenessCandidate<P>>, flags: u8, max_last_contact: u128) -> Option<(u64, Awareness<P>)> {
    match best_index(s, flags, max_last_contact) {
        Some(i) => Some((s[i].object, s[i].awareness)),
        None => None,
    }
}

/// The index of the candidate an NPC is most alert to, with the filters in
/// `flags`, ignoring contacts older than `max_last_contact`.
pub fn highest_awareness_index<P: Copy>(
    candidates: &Vec<AwarenessCandidate<P>>,
    flags: HighestAwarenessFlags,
    max_last_contact: u128,
) -> (r: Option<usize>)
    ensures
        (r is Some) == (best_index(candidates@, flags.bits, max_last_contact) is Some),
        r matches Some(b) ==> b < candidates@.len() && b as int == best_index(candidates@, flags.bits, max_last_contact).unwrap(),
{
    let mut best: Option<usize> = None;
    let mut i: usize = 0;
    while i < candidates.len()
        invariant
            i <= candidates@.len(),
            (best is Some) == (best_index(candidates@.take(i as int), flags.bits, max_last_contact) is Some),
            best matches Some(b) ==> b < i
                && b as int == best_index(candidates@.take(i as int), flags.bits, max_last_contact).unwrap(),
        decreases candidates@.len() - i,
    {
        proof { lemma_best_index_range(candidates@.take(i as int), flags.bits, max_last_contact); }
        let c = candidates[i];
        let ghost t = candidates@.take(i + 1);
        proof {
            assert(t.drop_last() =~= candidates@.take(i as int));
            assert(t[i as int] == c);
        }
        if candidate_eligible(&c, flags, max_last_contact) {
            match best {
                None => {
                    best = Some(i);
                },
                Some(b) => {
                    proof { assert(t[b as int] == candidates@[b as int]); }
                    if candidate_beats(&c, &candidates[b]) {
                        best = Some(i);
                    }
                },
            }
        }
        i = i + 1;
    }
    proof { assert(candidates@.take(candidates@.len() as int) =~= candidates@); }
    best
}

/// Picks the awareness an NPC is most alert to among `candidates`, with
/// the filters in `flags`, ignoring contacts older than `max_last_contact`.
pub fn get_highest_awareness<P: Copy>(
    candidates: &Vec<AwarenessCandidate<P>>,
    flags: HighestAwarenessFlags,
    max_last_contact: u128,
) -> (r: Option<(u64, Awareness<P>)>)
    ensures
        r == best_of(candidates@, flags.bits, max_last_contact),
{
    match highest_awareness_index(candidates, flags, max_last_contact) {
        Some(b) => Some((candidates[b].object, candidates[b].awareness)),
        None => None,
    }
}

/// The awareness that drives an NPC's alertness: the highest among the
/// candidates it is not indifferent to, however old the contact.
pub open spec fn alerting_pick<P>(s: Seq<AwarenessCandidate<P>>) -> Option<int> {
    best_index(s, ALERTING, MAX_DURATION)
}

/// Updates an NPC's alertness from its awarenesses: picks the highest
/// alerting awareness and moves the alertness to it.
pub fn update_alertness<P: Copy>(
    alertness: &mut Alertness,
    durations: FreeKnowledgeDurations,
    candidates: &Vec<AwarenessCandidate<P>>,
) -> (r: AlertnessEvents)
    ensures
        ({
            let pick = alerting_pick(candidates@);
            let aw = match pick {
                Some(i) => Some((candidates@[i].object, candidates@[i].awareness)),
                None => None,
            };
            let is_player = match pick {
                Some(i) => candidates@[i].is_player,
                None => false,
            };
            &&& *final(alertness) == alertness_after(*old(alertness), durations, aw, is_player)
            &&& r == events_after(*old(alertness), aw, is_player)
        }),
{
    let flags = HighestAwarenessFlags { bits: ALERTING };
    match highest_awareness_index(candidates, flags, MAX_DURATION) {
        Some(b) => {
            let c = candidates[b];
            alertness.update_alertness_to(durations, Some((c.object, c.awareness)), c.is_player)
        },
        None => alertness.update_alertness_to::<P>(durations, None, false),
    }
}

proof fn lemma_best_index_range<P>(s: Seq<AwarenessCandidate<P>>, flags: u8, max_last_contact: u128)
    ensures
        best_index(s, flags, max_last_contact) is Some ==> 0 <= best_index(s, flags, max_last_contact).unwrap() < s.len(),
    decreases s.len(),
{
    if s.len() > 0 {
        lemma_best_index_range(s.drop_last(), flags, max_last_contact);
    }
}

fn candidate_eligible<P: Copy>(c: &AwarenessCandidate<P>, flags: HighestAwarenessFlags, max_last_contact: u128) -> (r: bool)
    ensures
        r == eligible(*c, flags.bits, max_last_contact),
{
    let rel = match c.relation {
        Some(rel) => rel,
        None => return false,
    };
    if flags.contains(OPPONENTS_AND_ALARMS) && rel != TeamRelation::Enemy {
        return false;
    }
    if flags.contains(ALERTING) && rel == TeamRelation::Indifferent {
        return false;
    }
    if c.awareness.last_contact.elapsed > max_last_contact {
        return false;
    }
    if flags.contains(ONLY_FIRST_HAND) && !c.awareness.flags.contains(FIRST_HAND) {
        return false;
    }
    true
}

fn candidate_beats<P: Copy>(c: &AwarenessCandidate<P>, b: &AwarenessCandidate<P>) -> (r: bool)
    ensures
        r == beats(*c, *b),
{
    if b.awareness.level.lt(c.awareness.level) {
        return true;
    }
    if c.awareness.level != b.awareness.level {
        return false;
    }
    match b.awareness.level {
        AwarenessLevel::Moderate => c.awareness.last_contact.elapsed < b.awareness.last_contact.elapsed
            || c.distance_key < b.distance_key,
        _ => c.is_player,
    }
}

/// The pick is sound and complete: there is one exactly when some candidate
/// passes the filters, it passes them itself, and no candidate that passes
/// them has a higher level.
pub proof fn law_highest_awareness_is_maximal<P>(s: Seq<AwarenessCandidate<P>>, flags: u8, max_last_contact: u128)
    ensures
        (best_index(s, flags, max_last_contact) is Some)
            <==> (exists|j: int| 0 <= j < s.len() && eligible(#[trigger] s[j], flags, max_last_contact)),
        best_index(s, flags, max_last_contact) matches Some(b) ==> {
            &&& 0 <= b < s.len()
            &&& eligible(s[b], flags, max_last_contact)
            &&& forall|j: int| 0 <= j < s.len() && eligible(#[trigger] s[j], flags, max_last_contact)
                ==> rank(s[j].awareness.level) <= rank(s[b].awareness.level)
        },
    decreases s.len(),
{
    if s.len() > 0 {
        let d = s.drop_last();
        law_highest_awareness_is_maximal(d, flags, max_last_contact);
        let i = s.len() - 1;
        assert forall|j: int| 0 <= j < d.len() implies d[j] == s[j] by {}
        if exists|j: int| 0 <= j < d.len() && eligible(#[trigger] d[j], flags, max_last_contact) {
            let j = choose|j: int| 0 <= j < d.len() && eligible(#[trigger] d[j], flags, max_last_contact);
            assert(eligible(s[j], flags, max_last_contact));
        }
        if exists|j: int| 0 <= j < s.len() && eligible(#[trigger] s[j], flags, max_last_contact) {
            let j = choose|j: int| 0 <= j < s.len() && eligible(#[trigger] s[j], flags, max_last_contact);
            if j < i {
                assert(eligible(d[j], flags, max_last_contact));
            }
        }
        match best_index(s, flags, max_last_contact) {
            Some(b) => {
                assert forall|j: int| 0 <= j < s.len() && eligible(#[trigger] s[j], flags, max_last_contact)
                    implies rank(s[j].awareness.level) <= rank(s[b].awareness.level) by {
                    if j < i {
                        assert(eligible(d[j], flags, max_last_contact));
                    }
                }
            },
            None => {},
        }
    }
}


/// How one more candidate changes the pick: one that fails the filters
/// changes nothing; the first that passes is picked; after that it takes
/// over exactly when its level is higher, or, at an equal level, when it
/// is the player (at `Moderate`: when its contact is more recent or it is
/// closer).
pub proof fn law_pick_step<P>(s: Seq<AwarenessCandidate<P>>, c: AwarenessCandidate<P>, flags: u8, max_last_contact: u128)
    ensures
        !eligible(c, flags, max_last_contact) ==>
            best_index(s.push(c), flags, max_last_contact) == best_index(s, flags, max_last_contact),
        eligible(c, flags, max_last_contact) && best_index(s, flags, max_last_contact) is None ==>
            best_index(s.push(c), flags, max_last_contact) == Some(s.len() as int),
        eligible(c, flags, max_last_contact) && best_index(s, flags, max_last_contact) is Some ==> {
            let b = best_index(s, flags, max_last_contact).unwrap();
            let cur = s[b];
            let takes_over = if rank(c.awareness.level) != rank(cur.awareness.level) {
                rank(c.awareness.level) > rank(cur.awareness.level)
            } else if c.awareness.level == AwarenessLevel::Moderate {
                c.awareness.last_contact.elapsed < cur.awareness.last_contact.elapsed
                    || c.distance_key < cur.distance_key
            } else {
                c.is_player
            };
            best_index(s.push(c), flags, max_last_contact) == if takes_over { Some(s.len() as int) } else { Some(b) }
        },
{
    let t = s.push(c);
    assert(t.drop_last() =~= s);
    assert(t.last() == c);
    lemma_best_index_range(s, flags, max_last_contact);
    if best_index(s, flags, max_last_contact) is Some {
        let b = best_index(s, flags, max_last_contact).unwrap();
        assert(t[b] == s[b]);
    }
}

/// Two equally recent `Moderate` awarenesses: the closer object wins, and
/// of two equally close ones the one already picked stays.
pub proof fn law_moderate_tie_goes_to_closer<P>(
    s: Seq<AwarenessCandidate<P>>,
    c: AwarenessCandidate<P>,
    flags: u8,
    max_last_contact: u128,
)
    requires
        eligible(c, flags, max_last_contact),
        best_index(s, flags, max_last_contact) is Some,
        s[best_index(s, flags, max_last_contact).unwrap()].awareness.level == AwarenessLevel::Moderate,
        c.awareness.level == AwarenessLevel::Moderate,
        c.awareness.last_contact.elapsed == s[best_index(s, flags, max_last_contact).unwrap()].awareness.last_contact.elapsed,
    ensures
        ({
            let b = best_index(s, flags, max_last_contact).unwrap();
            best_index(s.push(c), flags, max_last_contact)
                == if c.distance_key < s[b].distance_key { Some(s.len() as int) } else { Some(b) }
        }),
{
    law_pick_step(s, c, flags, max_last_contact);
}

/// The first-high-alert event fires exactly when the new level is `High`
/// with the player as the object and the NPC was never highly alert to
/// the player before, whatever the previous level; the flag records it.
pub proof fn law_first_high_alert_to_player<P>(
    a: Alertness,
    durations: FreeKnowledgeDurations,
    aw: Option<(u64, Awareness<P>)>,
    object_is_player: bool,
)
    ensures
        ({
            let b = alertness_after(a, durations, aw, object_is_player);
            let e = events_after(a, aw, object_is_player);
            &&& e.high_alertness_to_player <==> (b.level == AwarenessLevel::High && aw is Some
                && object_is_player && !a.ever_got_high_alerted_by_player)
            &&& b.ever_got_high_alerted_by_player
                <==> (a.ever_got_high_alerted_by_player || e.high_alertness_to_player)
        }),
{
}


/// The filters hold of the pick: the picked object has a team; with
/// `OPPONENTS_AND_ALARMS` it is an enemy, with `ALERTING` the NPC is not
/// indifferent to it, with `ONLY_FIRST_HAND` it was sensed first hand, and
/// its last contact is no older than the limit.
pub proof fn law_pick_passes_filters<P>(s: Seq<AwarenessCandidate<P>>, flags: u8, max_last_contact: u128)
    ensures
        best_index(s, flags, max_last_contact) matches Some(b) ==> {
            let c = s[b];
            &&& c.relation is Some
            &&& flags & OPPONENTS_AND_ALARMS == OPPONENTS_AND_ALARMS ==> c.relation == Some(TeamRelation::Enemy)
            &&& flags & ALERTING == ALERTING ==> c.relation != Some(TeamRelation::Indifferent)
            &&& flags & ONLY_FIRST_HAND == ONLY_FIRST_HAND ==> c.awareness.flags.bits & FIRST_HAND == FIRST_HAND
            &&& c.awareness.last_contact.elapsed <= max_last_contact
        },
{
    law_highest_awareness_is_maximal(s, flags, max_last_contact);
}

} // verus!
