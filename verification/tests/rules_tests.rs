use stealth_ai::audio::{
    advance_input_window, audio_input_source, incoming_frames, listening_frames, shift_in,
    shift_in_repeat, AudioInputSource, ReadStatus, MAX_FRAME_SIZE,
};
use stealth_ai::bark::{alertness_bark, bark_decision, bark_request, BarkDecision};
use stealth_ai::behavior::{collider_marks, investigation_step, ColliderMarks, InvestigationStep};
use stealth_ai::despawn::{Despawn, TargetAfter};
use stealth_ai::flags::{
    AcuityKind, ViewConeFlags, CONE_ACTIVE, LOW_LIGHT, NO_ALERT_0, NO_ALERT_1, NO_ALERT_2, NO_ALERT_3, OMNI, PERIPH,
};
use stealth_ai::footstep::{step_bag, surface_of_brush, surface_of_color, StepBag, Surface};
use stealth_ai::level::AwarenessLevel;
use stealth_ai::links::{find_by_name, first_marked, reconcile_links};
use stealth_ai::rating::{control_rating, default_loudness_control, default_visibility_control, level_from_rating};
use stealth_ai::team::{Team, TeamRelation};

#[test]
fn team_relations() {
    assert_eq!(Team::Good.relation_to(Team::Good), TeamRelation::Ally);
    assert_eq!(Team::Bad(0).relation_to(Team::Bad(0)), TeamRelation::Ally);
    assert_eq!(Team::Bad(0).relation_to(Team::Bad(1)), TeamRelation::Enemy);
    assert_eq!(Team::Good.relation_to(Team::Bad(0)), TeamRelation::Enemy);
    assert_eq!(Team::Neutral.relation_to(Team::Good), TeamRelation::Indifferent);
    assert_eq!(Team::Neutral.relation_to(Team::Neutral), TeamRelation::Indifferent);
    assert_eq!(Team::Alarm.relation_to(Team::Neutral), TeamRelation::Enemy);
    assert_eq!(Team::Alarm.relation_to(Team::Alarm), TeamRelation::Enemy);
    for a in [Team::Good, Team::Neutral, Team::Bad(2), Team::Alarm] {
        for b in [Team::Good, Team::Neutral, Team::Bad(2), Team::Bad(3), Team::Alarm] {
            assert_eq!(a.relation_to(b), b.relation_to(a));
        }
    }
}

#[test]
fn view_cone_flags() {
    let high_alert_only = ViewConeFlags { bits: CONE_ACTIVE | LOW_LIGHT | NO_ALERT_0 | NO_ALERT_1 };
    assert!(high_alert_only.active());
    assert!(!high_alert_only.allowed_by(AwarenessLevel::Lowest));
    assert!(!high_alert_only.allowed_by(AwarenessLevel::Low));
    assert!(high_alert_only.allowed_by(AwarenessLevel::Moderate));
    assert!(high_alert_only.allowed_by(AwarenessLevel::High));
    assert_eq!(high_alert_only.acuity_kind(), AcuityKind::LowLight);
    let low_alert_only = ViewConeFlags { bits: CONE_ACTIVE | NO_ALERT_2 | NO_ALERT_3 };
    assert!(low_alert_only.allowed_by(AwarenessLevel::Low));
    assert!(!low_alert_only.allowed_by(AwarenessLevel::High));
    assert_eq!(low_alert_only.acuity_kind(), AcuityKind::Normal);
    assert_eq!(ViewConeFlags { bits: PERIPH | OMNI }.acuity_kind(), AcuityKind::Periphery);
    assert_eq!(ViewConeFlags { bits: OMNI }.acuity_kind(), AcuityKind::Omnidirectional);
    let plain = ViewConeFlags { bits: CONE_ACTIVE };
    for l in [AwarenessLevel::Lowest, AwarenessLevel::Low, AwarenessLevel::Moderate, AwarenessLevel::High] {
        assert!(plain.allowed_by(l));
    }
    assert!(!ViewConeFlags { bits: 0 }.active());
}

#[test]
fn control_ratings() {
    let loud = default_loudness_control();
    assert_eq!(control_rating(1, loud), 25);
    assert_eq!(control_rating(49, loud), 25);
    assert_eq!(control_rating(50, loud), 50);
    assert_eq!(control_rating(75, loud), 75);
    assert_eq!(control_rating(95, loud), 100);
    assert_eq!(control_rating(100, loud), 100);
    assert_eq!(control_rating(0, loud), 25);
    let vis = default_visibility_control();
    assert_eq!(control_rating(10, vis), 50);
    assert_eq!(control_rating(44, vis), 100);
    let top = stealth_ai::rating::ControlThresholds { low: 10, mid: 20, high: 100 };
    assert_eq!(control_rating(100, top), 100);
}

#[test]
fn ratings_to_levels() {
    assert_eq!(level_from_rating(0), AwarenessLevel::Lowest);
    assert_eq!(level_from_rating(24), AwarenessLevel::Lowest);
    assert_eq!(level_from_rating(25), AwarenessLevel::Low);
    assert_eq!(level_from_rating(50), AwarenessLevel::Moderate);
    assert_eq!(level_from_rating(74), AwarenessLevel::Moderate);
    assert_eq!(level_from_rating(75), AwarenessLevel::High);
    assert_eq!(level_from_rating(255), AwarenessLevel::High);
    // every reading rates at least Low
    for raw in 0..=100u8 {
        assert_ne!(level_from_rating(control_rating(raw, default_loudness_control())), AwarenessLevel::Lowest);
    }
}

#[test]
fn alertness_barks() {
    assert_eq!(alertness_bark(AwarenessLevel::Lowest, AwarenessLevel::Low), Some("up_to_low"));
    assert_eq!(alertness_bark(AwarenessLevel::Low, AwarenessLevel::High), Some("up_to_high"));
    assert_eq!(alertness_bark(AwarenessLevel::Lowest, AwarenessLevel::Moderate), Some("up_to_moderate"));
    assert_eq!(alertness_bark(AwarenessLevel::High, AwarenessLevel::Lowest), Some("down_to_lowest"));
    assert_eq!(alertness_bark(AwarenessLevel::High, AwarenessLevel::Moderate), Some("down_to_moderate"));
    assert_eq!(alertness_bark(AwarenessLevel::Moderate, AwarenessLevel::Low), Some("down_to_low"));
    assert_eq!(alertness_bark(AwarenessLevel::Low, AwarenessLevel::Low), None);
}

#[test]
fn bark_decisions() {
    assert_eq!(bark_decision(false, None, 1), BarkDecision::Play { stop_current: false, audible_to_npcs: false });
    assert_eq!(bark_decision(true, Some(1), 3), BarkDecision::Play { stop_current: true, audible_to_npcs: true });
    assert_eq!(bark_decision(true, Some(3), 3), BarkDecision::Skip);
    assert_eq!(bark_decision(true, Some(5), 2), BarkDecision::Skip);
    assert_eq!(bark_decision(true, None, 2), BarkDecision::Play { stop_current: true, audible_to_npcs: false });
}

#[test]
fn bark_requests_parse_priority() {
    let r = bark_request(Some("audio/barks/patrol/patrol_low-1.ogg"), Some("3")).unwrap();
    assert_eq!(r.path, "audio/barks/patrol/patrol_low-1.ogg");
    assert_eq!(r.priority, Some(3));
    assert_eq!(bark_request(Some("x"), Some("-12")).unwrap().priority, Some(-12));
    assert_eq!(bark_request(Some("x"), Some("loud")).unwrap().priority, None);
    assert!(bark_request(None, Some("1")).is_none());
    assert!(bark_request(Some("x"), None).is_none());
}

#[test]
fn bark_priorities_parse_as_decimal_i32() {
    let p = |s: &str| bark_request(Some("x"), Some(s)).unwrap().priority;
    assert_eq!(p("+7"), Some(7));
    assert_eq!(p("007"), Some(7));
    assert_eq!(p("-0"), Some(0));
    assert_eq!(p("2147483647"), Some(i32::MAX));
    assert_eq!(p("-2147483648"), Some(i32::MIN));
    assert_eq!(p("2147483648"), None);
    assert_eq!(p(""), None);
    assert_eq!(p("-"), None);
    assert_eq!(p("+"), None);
    assert_eq!(p(" 3"), None);
    assert_eq!(p("3 "), None);
    assert_eq!(p("+-3"), None);
    assert_eq!(p("1_000"), None);
    assert_eq!(p("\u{0663}"), None);
}

#[test]
fn surfaces_of_colors() {
    assert_eq!(surface_of_color("red"), Surface::Metal);
    assert_eq!(surface_of_color("purple"), Surface::Gravel);
    assert_eq!(surface_of_color("green"), Surface::Rock);
    assert_eq!(surface_of_color("Red"), Surface::Rock);
    assert_eq!(surface_of_color(""), Surface::Rock);
}

#[test]
fn footstep_surfaces() {
    assert_eq!(surface_of_brush("Red/wall_01"), Surface::Metal);
    assert_eq!(surface_of_brush("PURPLE/floor/b"), Surface::Gravel);
    assert_eq!(surface_of_brush("purple"), Surface::Gravel);
    assert_eq!(surface_of_brush("green/x"), Surface::Rock);
    assert_eq!(surface_of_brush("blue/x"), Surface::Rock);
    assert_eq!(surface_of_brush("red_metal/x"), Surface::Rock);
    assert_eq!(surface_of_brush(""), Surface::Rock);
    assert_eq!(surface_of_brush("/red"), Surface::Rock);
    assert_eq!(step_bag(Surface::Metal, true), StepBag::MetalRun);
    assert_eq!(step_bag(Surface::Gravel, false), StepBag::GravelWalk);
    assert_eq!(step_bag(Surface::Rock, false), StepBag::RockWalk);
}

#[test]
fn sliding_windows() {
    let mut b = vec![1, 2, 3, 4, 5];
    shift_in(&mut b, &[9, 8, 7], 2);
    assert_eq!(b, vec![3, 4, 5, 9, 8]);
    shift_in_repeat(&mut b, 0, 3);
    assert_eq!(b, vec![9, 8, 0, 0, 0]);
    shift_in(&mut b, &[], 0);
    assert_eq!(b, vec![9, 8, 0, 0, 0]);
}

#[test]
fn input_window_updates() {
    let scratch: Vec<u32> = (0..MAX_FRAME_SIZE as u32).map(|i| 10_000 + i).collect();
    let mut b: Vec<u32> = (0..MAX_FRAME_SIZE as u32).collect();
    assert!(!advance_input_window(&mut b, false, 0, Some(ReadStatus::InputNotReady), &scratch, 0));
    assert_eq!(b[0], 0);
    assert!(!advance_input_window(&mut b, false, 0, None, &scratch, 0));
    assert!(advance_input_window(&mut b, false, 0, Some(ReadStatus::UnderflowOccurred { num_frames_read: 2 }), &scratch, 0));
    assert_eq!(b.len(), MAX_FRAME_SIZE);
    assert_eq!(b[0], 2);
    assert_eq!(b[MAX_FRAME_SIZE - 2], 10_000);
    assert_eq!(b[MAX_FRAME_SIZE - 1], 10_001);
    assert!(advance_input_window(&mut b, true, 3, None, &scratch, 77));
    assert_eq!(b[MAX_FRAME_SIZE - 1], 77);
    assert_eq!(b[MAX_FRAME_SIZE - 4], 10_001);
    assert!(advance_input_window(&mut b, true, 999_999, None, &scratch, 5));
    assert!(b.iter().all(|x| *x == 5));
    assert!(advance_input_window(&mut b, false, 0, Some(ReadStatus::OverflowCorrected { num_frames_discarded: 12 }), &scratch, 0));
    assert_eq!(b, scratch);
    assert_eq!(incoming_frames(ReadStatus::Complete), MAX_FRAME_SIZE);
}

#[test]
fn audio_sources_and_frames() {
    assert_eq!(audio_input_source(true, true, true), Some(AudioInputSource::Accumulator));
    assert_eq!(audio_input_source(false, true, true), Some(AudioInputSource::Silence));
    assert_eq!(audio_input_source(false, false, true), Some(AudioInputSource::InputBuffer));
    assert_eq!(audio_input_source(false, false, false), None);
    assert_eq!(listening_frames(true), vec![(0, 1400)]);
    assert_eq!(listening_frames(false), vec![(0, 1400), (1400, 2800), (2800, 4200)]);
}

#[test]
fn name_lookups() {
    let names: Vec<String> = vec!["a".into(), "corner_2".into(), "corner_2".into()];
    assert_eq!(find_by_name(&names, &"corner_2".to_string()), Some(1));
    assert_eq!(find_by_name(&names, &"missing".to_string()), None);
    assert_eq!(first_marked(&vec![false, false, true, true]), Some(2));
    assert_eq!(first_marked(&vec![false]), None);
}

#[test]
fn link_reconciliation() {
    let (missing, stale) = reconcile_links(&vec![1, 2, 3], &vec![3, 4]);
    assert_eq!(missing, vec![1, 2]);
    assert_eq!(stale, vec![4]);
    let (missing, stale) = reconcile_links(&vec![], &vec![]);
    assert!(missing.is_empty() && stale.is_empty());
}

#[test]
fn despawn_timers() {
    let mut d = Despawn::immediately();
    assert!(d.step(0));
    let mut d = Despawn::after(100);
    assert!(!d.step(60));
    assert!(!d.step(60));
    assert!(d.step(1));
    let mut t = TargetAfter::new(5, 10);
    assert_eq!(t.tick(4), None);
    assert_eq!(t.tick(6), Some(5));
}

#[test]
fn behavior_rules() {
    assert_eq!(investigation_step(true, true), InvestigationStep { reset_timer: true, sample: true });
    assert_eq!(investigation_step(false, false), InvestigationStep { reset_timer: false, sample: true });
    assert_eq!(investigation_step(false, true), InvestigationStep { reset_timer: false, sample: false });
    assert_eq!(collider_marks(false, true), None);
    assert_eq!(collider_marks(true, true), Some(ColliderMarks { static_layer: true, opaque_layer: false }));
    assert_eq!(collider_marks(false, false), Some(ColliderMarks { static_layer: false, opaque_layer: true }));
}
