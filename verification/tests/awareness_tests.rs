use stealth_ai::awareness::{Awareness, CapacitorDurations};
use stealth_ai::delay::DelayTimers;
use stealth_ai::flags::{AwarenessFlags, HEARD, SEEN, SENSED};
use stealth_ai::level::AwarenessLevel;
use stealth_ai::pulse::{pulse, pulse_needs_position, PulseInput};
use stealth_ai::store::AwarenessStore;
use stealth_ai::timer::{OnceTimer, Stopwatch, MAX_DURATION};

type Pos = (i32, i32, i32);

const MS: u128 = 1_000_000;

fn caps() -> CapacitorDurations {
    CapacitorDurations::default_durations()
}

#[test]
fn level_order_and_decrease() {
    assert_eq!(AwarenessLevel::Lowest.decrease(), AwarenessLevel::Lowest);
    assert_eq!(AwarenessLevel::Low.decrease(), AwarenessLevel::Lowest);
    assert_eq!(AwarenessLevel::Moderate.decrease(), AwarenessLevel::Low);
    assert_eq!(AwarenessLevel::High.decrease(), AwarenessLevel::Moderate);
    assert!(AwarenessLevel::Low.lt(AwarenessLevel::High));
    assert!(!AwarenessLevel::High.lt(AwarenessLevel::High));
    assert!(AwarenessLevel::High.le(AwarenessLevel::High));
    assert_eq!(AwarenessLevel::Low.max(AwarenessLevel::Moderate), AwarenessLevel::Moderate);
    assert_eq!(AwarenessLevel::High.max(AwarenessLevel::Lowest), AwarenessLevel::High);
    assert!(!AwarenessLevel::Lowest.is_aware());
    assert!(AwarenessLevel::Low.is_aware());
    assert_eq!(AwarenessLevel::High.index(), 3);
    assert_eq!(AwarenessLevel::Moderate.name(), "moderate");
    assert_eq!(AwarenessLevel::Lowest.name(), "lowest");
}

#[test]
fn once_timer_finishes_and_stays() {
    let mut t = OnceTimer::new(100);
    t.tick(40);
    assert_eq!(t, OnceTimer { duration: 100, elapsed: 40, finished: false });
    t.tick(70);
    assert_eq!(t, OnceTimer { duration: 100, elapsed: 100, finished: true });
    t.tick(5);
    assert_eq!(t, OnceTimer { duration: 100, elapsed: 100, finished: true });
    t.reset();
    assert!(!t.is_finished());
    assert_eq!(t.elapsed, 0);
    t.set_duration(10);
    t.finish();
    assert!(t.is_finished());
    assert_eq!(t.elapsed, 10);
}

#[test]
fn once_timer_with_huge_duration_does_not_overflow() {
    let mut t = OnceTimer::new(MAX_DURATION);
    t.tick(MAX_DURATION - 1);
    assert!(!t.is_finished());
    t.tick(u128::MAX);
    assert!(t.is_finished());
    assert_eq!(t.elapsed, MAX_DURATION);
}

#[test]
fn stopwatch_saturates() {
    let mut s = Stopwatch::new();
    s.tick(5);
    assert_eq!(s.elapsed, 5);
    s.tick(MAX_DURATION - 10);
    assert_eq!(s.elapsed, MAX_DURATION - 5);
    s.tick(u128::MAX);
    assert_eq!(s.elapsed, MAX_DURATION);
    s.tick(1);
    assert_eq!(s.elapsed, MAX_DURATION);
    s.reset();
    assert_eq!(s.elapsed, 0);
}

#[test]
fn awareness_flags_bits() {
    let mut f = AwarenessFlags::empty();
    f.insert(SEEN);
    assert!(f.contains(SEEN));
    assert!(!f.contains(SENSED));
    assert!(f.intersects(SENSED));
    f.insert(HEARD);
    assert!(f.contains(SENSED));
    f.remove(SENSED);
    assert_eq!(f.bits, 0);
}

#[test]
fn capacitor_durations() {
    let c = caps();
    assert_eq!(c.get(AwarenessLevel::Lowest), MAX_DURATION);
    assert_eq!(MAX_DURATION, std::time::Duration::MAX.as_nanos());
    assert_eq!(c.get(AwarenessLevel::Low), 4000 * MS);
    assert_eq!(c.get(AwarenessLevel::Moderate), 8000 * MS);
    assert_eq!(c.get(AwarenessLevel::High), 45000 * MS);
}

#[test]
fn store_reads_back_what_was_written() {
    let mut store: AwarenessStore<Pos> = AwarenessStore::new();
    assert!(store.get(7).is_none());
    let mut a = Awareness::blank((1, 2, 3));
    a.level = AwarenessLevel::Moderate;
    store.set(7, a);
    let mut b = Awareness::blank((4, 5, 6));
    b.level = AwarenessLevel::High;
    store.set(9, b);
    assert_eq!(store.get(7).unwrap().level, AwarenessLevel::Moderate);
    assert_eq!(store.get(9).unwrap().last_pos, (4, 5, 6));
    // overwrite keeps one entry per object
    let mut c = a;
    c.level = AwarenessLevel::Low;
    store.set(7, c);
    assert_eq!(store.len(), 2);
    assert_eq!(store.get(7).unwrap().level, AwarenessLevel::Low);
    assert_eq!(store.get(9).unwrap().level, AwarenessLevel::High);
    assert_eq!(store.objects(), vec![7, 9]);
}

#[test]
fn store_keeps_first_recorded_order() {
    let mut store: AwarenessStore<Pos> = AwarenessStore::new();
    assert!(store.objects().is_empty());
    store.set(30, Awareness::blank((0, 0, 0)));
    store.set(10, Awareness::blank((0, 0, 0)));
    store.set(20, Awareness::blank((0, 0, 0)));
    store.set(10, Awareness::blank((1, 1, 1)));
    assert_eq!(store.objects(), vec![30, 10, 20]);
    store.tick_all(5);
    assert_eq!(store.objects(), vec![30, 10, 20]);
    let mut low = Awareness::blank((0, 0, 0));
    low.level = AwarenessLevel::Low;
    low.capacitor = OnceTimer::new_finished(4000 * MS);
    store.set(10, low);
    let mut high = Awareness::blank((0, 0, 0));
    high.level = AwarenessLevel::High;
    high.capacitor = OnceTimer::new(45000 * MS);
    store.set(20, high);
    store.decrease_expired_capacitors(caps());
    // 30 was blank with a finished zero capacitor after ticking, 10 expired
    assert_eq!(store.objects(), vec![20]);
}

#[test]
fn store_ticks_every_awareness() {
    let mut store: AwarenessStore<Pos> = AwarenessStore::new();
    let mut a = Awareness::blank((0, 0, 0));
    a.capacitor = OnceTimer::new(100);
    store.set(1, a);
    store.set(2, Awareness::blank((0, 0, 0)));
    store.tick_all(60);
    let a1 = store.get(1).unwrap();
    assert_eq!(a1.capacitor.elapsed, 60);
    assert!(!a1.capacitor.finished);
    assert_eq!(a1.last_true_contact.elapsed, 60);
    assert_eq!(a1.last_contact.elapsed, 60);
    // a zero capacitor finishes on the first tick
    assert!(store.get(2).unwrap().capacitor.finished);
}

#[test]
fn expired_capacitors_lower_or_drop() {
    let mut store: AwarenessStore<Pos> = AwarenessStore::new();
    let mut high = Awareness::blank((0, 0, 0));
    high.level = AwarenessLevel::High;
    high.capacitor = OnceTimer::new_finished(45000 * MS);
    let mut low = Awareness::blank((0, 0, 0));
    low.level = AwarenessLevel::Low;
    low.capacitor = OnceTimer::new_finished(4000 * MS);
    let mut running = Awareness::blank((0, 0, 0));
    running.level = AwarenessLevel::Moderate;
    running.capacitor = OnceTimer::new(8000 * MS);
    store.set(1, high);
    store.set(2, low);
    store.set(3, running);
    store.decrease_expired_capacitors(caps());
    let h = store.get(1).unwrap();
    assert_eq!(h.level, AwarenessLevel::Moderate);
    assert_eq!(h.capacitor, OnceTimer { duration: 8000 * MS, elapsed: 0, finished: false });
    assert!(store.get(2).is_none());
    assert_eq!(store.get(3).unwrap().level, AwarenessLevel::Moderate);
    assert_eq!(store.len(), 2);
}

#[test]
fn pulse_needs_position_only_when_sensing_or_within_free_knowledge() {
    let mut store: AwarenessStore<Pos> = AwarenessStore::new();
    assert!(pulse_needs_position(&store, 1, AwarenessLevel::Low, 0));
    assert!(!pulse_needs_position(&store, 1, AwarenessLevel::Lowest, 0));
    assert!(pulse_needs_position(&store, 1, AwarenessLevel::Lowest, 10));
    let mut a = Awareness::blank((0, 0, 0));
    a.last_true_contact.elapsed = 10;
    store.set(1, a);
    assert!(!pulse_needs_position(&store, 1, AwarenessLevel::Lowest, 10));
    assert!(pulse_needs_position(&store, 1, AwarenessLevel::Lowest, 11));
    assert!(pulse_needs_position(&store, 1, AwarenessLevel::High, 0));
}

#[test]
fn first_pulse_creates_awareness() {
    let mut store: AwarenessStore<Pos> = AwarenessStore::new();
    let mut delay = DelayTimers::default_timers();
    let input = PulseInput { object: 42, level: AwarenessLevel::Moderate, is_audio: true };
    pulse(&mut store, &mut delay, input, false, 1500 * MS, caps(), (3, 4, 5));
    let a = store.get(42).unwrap();
    assert_eq!(a.level, AwarenessLevel::Moderate);
    assert!(a.flags.contains(HEARD));
    assert!(!a.flags.contains(SEEN));
    assert_eq!(a.last_pos, (3, 4, 5));
    assert_eq!(a.last_pulse, AwarenessLevel::Moderate);
    assert_eq!(a.capacitor, OnceTimer { duration: 8000 * MS, elapsed: 0, finished: false });
    // not the player: the delay timers are untouched
    assert_eq!(delay, DelayTimers::default_timers());
}

#[test]
fn pulse_never_lowers_and_keeps_high_charged() {
    let mut store: AwarenessStore<Pos> = AwarenessStore::new();
    let mut a = Awareness::blank((0, 0, 0));
    a.level = AwarenessLevel::High;
    a.capacitor = OnceTimer { duration: 45000 * MS, elapsed: 30000 * MS, finished: false };
    a.last_true_contact.elapsed = 10_000 * MS;
    store.set(1, a);
    let mut delay = DelayTimers::default_timers();
    let input = PulseInput { object: 1, level: AwarenessLevel::Low, is_audio: false };
    pulse(&mut store, &mut delay, input, true, 1500 * MS, caps(), (9, 9, 9));
    let b = store.get(1).unwrap();
    assert_eq!(b.level, AwarenessLevel::High);
    assert_eq!(b.capacitor, OnceTimer { duration: 45000 * MS, elapsed: 0, finished: false });
    assert!(b.flags.contains(SEEN));
    assert_eq!(b.last_true_contact.elapsed, 0);
    assert_eq!(b.last_pos, (9, 9, 9));
}

#[test]
fn lowest_pulse_after_free_knowledge_keeps_position() {
    let mut store: AwarenessStore<Pos> = AwarenessStore::new();
    let mut a = Awareness::blank((1, 1, 1));
    a.level = AwarenessLevel::Low;
    a.flags.insert(SEEN);
    a.last_true_contact.elapsed = 2000 * MS;
    a.capacitor = OnceTimer { duration: 4000 * MS, elapsed: 1000 * MS, finished: false };
    store.set(5, a);
    let mut delay = DelayTimers::default_timers();
    let input = PulseInput { object: 5, level: AwarenessLevel::Lowest, is_audio: false };
    pulse(&mut store, &mut delay, input, false, 1500 * MS, caps(), (7, 7, 7));
    let b = store.get(5).unwrap();
    assert_eq!(b.level, AwarenessLevel::Low);
    assert!(!b.flags.intersects(SENSED));
    assert_eq!(b.last_pos, (1, 1, 1));
    assert_eq!(b.last_true_contact.elapsed, 2000 * MS);
    assert_eq!(b.capacitor, a.capacitor);
    assert_eq!(b.last_pulse, AwarenessLevel::Lowest);
}

#[test]
fn player_rise_is_delayed_then_let_through() {
    let mut store: AwarenessStore<Pos> = AwarenessStore::new();
    let mut delay = DelayTimers::default_timers();
    let input = PulseInput { object: 1, level: AwarenessLevel::Moderate, is_audio: false };
    // the moderate delay has not run out yet: held at Low
    pulse(&mut store, &mut delay, input, true, 1500 * MS, caps(), (0, 0, 0));
    assert_eq!(store.get(1).unwrap().level, AwarenessLevel::Low);
    delay.tick(750 * MS);
    assert!(delay.moderate_delay.finished);
    // within the reuse window: let through
    pulse(&mut store, &mut delay, input, true, 1500 * MS, caps(), (0, 0, 0));
    assert_eq!(store.get(1).unwrap().level, AwarenessLevel::Moderate);
}

#[test]
fn delay_restarts_timers_outside_reuse_window() {
    let mut delay = DelayTimers::default_timers();
    delay.tick(30_000 * MS);
    assert!(delay.high_reuse.finished);
    let got = delay.delay_awareness(AwarenessLevel::Low, AwarenessLevel::High);
    assert_eq!(got, AwarenessLevel::Low);
    assert_eq!(delay, DelayTimers::default_timers());

    let mut delay = DelayTimers::default_timers();
    delay.tick(30_000 * MS);
    let got = delay.delay_awareness(AwarenessLevel::Lowest, AwarenessLevel::Moderate);
    assert_eq!(got, AwarenessLevel::Low);
    assert_eq!(delay, DelayTimers::default_timers());
}

#[test]
fn delay_high_while_high_delay_runs() {
    let mut delay = DelayTimers::default_timers();
    assert_eq!(delay.delay_awareness(AwarenessLevel::Low, AwarenessLevel::High), AwarenessLevel::Low);
    delay.moderate_delay.finish();
    assert_eq!(delay.delay_awareness(AwarenessLevel::Low, AwarenessLevel::High), AwarenessLevel::Moderate);
    assert_eq!(delay.delay_awareness(AwarenessLevel::Lowest, AwarenessLevel::Low), AwarenessLevel::Low);
}
