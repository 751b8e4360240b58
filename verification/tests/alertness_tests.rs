use stealth_ai::alertness::{
    get_highest_awareness, highest_awareness_index, update_alertness, Alertness, AlertnessChange,
    AwarenessCandidate, FreeKnowledgeDurations,
};
use stealth_ai::awareness::Awareness;
use stealth_ai::flags::{HighestAwarenessFlags, ALERTING, FIRST_HAND, ONLY_FIRST_HAND, SEEN};
use stealth_ai::level::AwarenessLevel;
use stealth_ai::team::TeamRelation;
use stealth_ai::timer::MAX_DURATION;

type Pos = (i32, i32, i32);
const MS: u128 = 1_000_000;

fn aw(level: AwarenessLevel, last_contact: u128, seen: bool) -> Awareness<Pos> {
    let mut a = Awareness::blank((0, 0, 0));
    a.level = level;
    a.last_contact.elapsed = last_contact;
    if seen {
        a.flags.insert(SEEN);
    }
    a
}

fn cand(object: u64, rel: Option<TeamRelation>, a: Awareness<Pos>, is_player: bool, dist: u32) -> AwarenessCandidate<Pos> {
    AwarenessCandidate { object, relation: rel, awareness: a, is_player, distance_key: dist }
}

#[test]
fn free_knowledge_defaults() {
    let d = FreeKnowledgeDurations::default_durations();
    assert_eq!(d.get(AwarenessLevel::Lowest), 1500 * MS);
    assert_eq!(d.get(AwarenessLevel::Moderate), 1875 * MS);
    assert_eq!(d.get(AwarenessLevel::High), 3000 * MS);
    let a = Alertness::new();
    assert_eq!(a.level, AwarenessLevel::Lowest);
    assert_eq!(a.free_knowledge, 1500 * MS);
    let mut b = a;
    b.level = AwarenessLevel::High;
    b.on_add(d);
    assert_eq!(b.free_knowledge, 3000 * MS);
}

#[test]
fn high_alert_to_player_fires_once() {
    let d = FreeKnowledgeDurations::default_durations();
    let mut a = Alertness::new();
    let ev = a.update_alertness_to(d, Some((1, aw(AwarenessLevel::High, 0, true))), true);
    assert!(ev.high_alertness_to_player);
    assert_eq!(ev.change_alertness, Some(AlertnessChange { object: Some(1), previous_level: AwarenessLevel::Lowest }));
    assert_eq!(ev.change_or_regain_object, Some(AlertnessChange { object: Some(1), previous_level: AwarenessLevel::Lowest }));
    assert_eq!(a.level, AwarenessLevel::High);
    assert_eq!(a.peak, AwarenessLevel::High);
    assert_eq!(a.free_knowledge, 3000 * MS);
    assert!(a.ever_got_high_alerted_by_player);
    assert_eq!(a.last_awareness_object, Some(1));
    assert!(!a.lost_contact_to_awareness_object);

    let ev = a.update_alertness_to(d, Some((1, aw(AwarenessLevel::High, 0, true))), true);
    assert!(!ev.high_alertness_to_player);
    assert_eq!(ev.change_alertness, None);
    assert_eq!(ev.change_or_regain_object, None);
}

#[test]
fn peak_high_keeps_alertness_at_low() {
    let d = FreeKnowledgeDurations::default_durations();
    let mut a = Alertness::new();
    a.update_alertness_to(d, Some((1, aw(AwarenessLevel::High, 0, true))), false);
    assert!(!a.ever_got_high_alerted_by_player);
    let ev = a.update_alertness_to::<Pos>(d, None, false);
    assert_eq!(a.level, AwarenessLevel::Low);
    assert_eq!(a.peak, AwarenessLevel::High);
    assert_eq!(ev.change_alertness, Some(AlertnessChange { object: None, previous_level: AwarenessLevel::High }));
    assert_eq!(ev.change_or_regain_object, Some(AlertnessChange { object: None, previous_level: AwarenessLevel::High }));
    assert_eq!(a.last_awareness_object, None);
}

#[test]
fn regaining_contact_is_reported() {
    let d = FreeKnowledgeDurations::default_durations();
    let mut a = Alertness::new();
    a.update_alertness_to(d, Some((3, aw(AwarenessLevel::Moderate, 0, true))), false);
    // contact lost: not seen any more
    let ev = a.update_alertness_to(d, Some((3, aw(AwarenessLevel::Moderate, 200 * MS, false))), false);
    assert!(a.lost_contact_to_awareness_object);
    assert_eq!(ev.change_or_regain_object, None);
    // contact regained
    let ev = a.update_alertness_to(d, Some((3, aw(AwarenessLevel::Moderate, 0, true))), false);
    assert_eq!(ev.change_or_regain_object, Some(AlertnessChange { object: Some(3), previous_level: AwarenessLevel::Moderate }));
    assert!(!a.lost_contact_to_awareness_object);
}

#[test]
fn highest_awareness_prefers_level_then_player() {
    let cs = vec![
        cand(1, Some(TeamRelation::Enemy), aw(AwarenessLevel::Low, 0, false), false, 10),
        cand(2, Some(TeamRelation::Enemy), aw(AwarenessLevel::High, 0, false), false, 10),
        cand(3, Some(TeamRelation::Enemy), aw(AwarenessLevel::High, 0, false), true, 10),
        cand(4, Some(TeamRelation::Enemy), aw(AwarenessLevel::High, 0, false), false, 1),
    ];
    let f = HighestAwarenessFlags::default_filter();
    assert_eq!(highest_awareness_index(&cs, f, MAX_DURATION), Some(2));
    let (o, a) = get_highest_awareness(&cs, f, MAX_DURATION).unwrap();
    assert_eq!(o, 3);
    assert_eq!(a.level, AwarenessLevel::High);
}

#[test]
fn highest_awareness_moderate_tie_breaks() {
    let cs = vec![
        cand(1, Some(TeamRelation::Enemy), aw(AwarenessLevel::Moderate, 500, false), true, 10),
        cand(2, Some(TeamRelation::Enemy), aw(AwarenessLevel::Moderate, 900, false), false, 5),
        cand(3, Some(TeamRelation::Enemy), aw(AwarenessLevel::Moderate, 100, false), false, 50),
    ];
    let f = HighestAwarenessFlags::default_filter();
    // 2 is closer than 1, then 3 is more recent than 2
    assert_eq!(highest_awareness_index(&cs, f, MAX_DURATION), Some(2));
}

#[test]
fn highest_awareness_filters() {
    let mut first_hand = aw(AwarenessLevel::Low, 0, false);
    first_hand.flags.insert(FIRST_HAND);
    let cs = vec![
        cand(1, None, aw(AwarenessLevel::High, 0, false), true, 0),
        cand(2, Some(TeamRelation::Ally), aw(AwarenessLevel::High, 0, false), false, 0),
        cand(3, Some(TeamRelation::Indifferent), aw(AwarenessLevel::High, 0, false), false, 0),
        cand(4, Some(TeamRelation::Enemy), aw(AwarenessLevel::Moderate, 100, false), false, 0),
        cand(5, Some(TeamRelation::Enemy), first_hand, false, 0),
    ];
    let opponents = HighestAwarenessFlags::default_filter();
    assert_eq!(highest_awareness_index(&cs, opponents, MAX_DURATION), Some(3));
    assert_eq!(highest_awareness_index(&cs, opponents, 50), Some(4));
    let alerting = HighestAwarenessFlags { bits: ALERTING };
    assert_eq!(highest_awareness_index(&cs, alerting, MAX_DURATION), Some(1));
    let first = HighestAwarenessFlags { bits: ONLY_FIRST_HAND };
    assert_eq!(highest_awareness_index(&cs, first, MAX_DURATION), Some(4));
    assert_eq!(highest_awareness_index(&cs[..1].to_vec(), opponents, MAX_DURATION), None);
}

#[test]
fn update_alertness_uses_alerting_pick() {
    let d = FreeKnowledgeDurations::default_durations();
    let cs = vec![
        cand(1, Some(TeamRelation::Indifferent), aw(AwarenessLevel::High, 0, true), false, 0),
        cand(2, Some(TeamRelation::Ally), aw(AwarenessLevel::Moderate, 0, true), false, 0),
        cand(3, Some(TeamRelation::Enemy), aw(AwarenessLevel::Low, 0, true), true, 0),
    ];
    let mut a = Alertness::new();
    let ev = update_alertness(&mut a, d, &cs);
    // the indifferent object is skipped; the ally counts under ALERTING
    assert_eq!(a.level, AwarenessLevel::Moderate);
    assert_eq!(a.last_awareness_object, Some(2));
    assert!(!ev.high_alertness_to_player);
    let empty: Vec<AwarenessCandidate<Pos>> = Vec::new();
    update_alertness(&mut a, d, &empty);
    assert_eq!(a.level, AwarenessLevel::Lowest);
}
