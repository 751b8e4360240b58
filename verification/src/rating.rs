use vstd::prelude::*;
use crate::level::AwarenessLevel;

verus! {

/// Thresholds that split a raw 1..=100 reading into four bands.
#[derive(Debug, Clone, Copy, PartialEq, Eq, Structural)]
pub struct ControlThresholds {
    pub low: u8,
    pub mid: u8,
    pub high: u8,
}

/// The loudness thresholds of a sound source: 50, 70 and 90 by default.
pub fn default_loudness_control() -> (r: ControlThresholds)
    ensures
        r == (ControlThresholds { low: 50, mid: 70, high: 90 }),
{
    ControlThresholds { low: 50, mid: 70, high: 90 }
}

/// The visibility thresholds of an object: 9, 19 and 44 by default.
pub fn default_visibility_control() -> (r: ControlThresholds)
    ensures
        r == (ControlThresholds { low: 9, mid: 19, high: 44 }),
{
    ControlThresholds { low: 9, mid: 19, high: 44 }
}

/// The band a raw reading falls in, as (band start, band width,
/// normalized base): below `low`, below `mid`, below `high`, or the rest up
/// to 100.
pub open spec fn band(raw: int, t: ControlThresholds) -> (int, int, int) {
    if raw < t.low {
        (0, t.low as int, 0)
    } else if raw < t.mid {
        (t.low as int, t.mid - t.low, 25)
    } else if raw < t.high {
        (t.mid as int, t.high - t.mid, 50)
    } else {
        (t.high as int, 100 - t.high, 75)
    }
}

/// The rating of a raw reading: the normalized base of its band, plus the
/// whole part of its position in the band (0 unless it sits at the band's
/// very end), plus the normalized band width of 25, kept within 0..=100.
/// Only a full reading at the top of the top band would pass 100.
pub open spec fn spec_control_rating(raw: int, t: ControlThresholds) -> int {
    let (start, width, base) = band(raw, t);
    let r = base + (if width > 0 { (raw - start) / width } else { 0 }) + 25;
    if r > 100 { 100 } else { r }
}

/// Rates a raw reading between 0 and 100 (the percentage of a fraction,
/// clamped) against thresholds; the rating lies between 25 and 100.
pub fn control_rating(raw: u8, t: ControlThresholds) -> (r: u8)
    requires
        raw <= 100,
    ensures
        r == spec_control_rating(raw as int, t),
        25 <= r <= 100,
{
    let (start, width, base): (u8, u8, u8) = if raw < t.low {
        (0, t.low, 0)
    } else if raw < t.mid {
        (t.low, t.mid - t.low, 25)
    } else if raw < t.high {
        (t.mid, t.high - t.mid, 50)
    } else {
        (t.high, 100 - t.high, 75)
    };
    let whole: u8 = if width > 0 { (raw - start) / width } else { 0 };
    assert(whole <= 1) by {
        assert(raw - start <= width);
        if width > 0 {
            assert((raw - start) / (width as int) <= 1) by (nonlinear_arith)
                requires raw - start <= width, width > 0, raw - start >= 0;
        }
    }
    let r: u8 = base + whole + 25;
    if r > 100 { 100 } else { r }
}

/// The awareness a 0..=100 rating amounts to: below 25 none, below 50 low,
/// below 75 moderate, otherwise high.
pub open spec fn spec_level_from_rating(v: int) -> AwarenessLevel {
    if v < 25 {
        AwarenessLevel::Lowest
    } else if v < 50 {
        AwarenessLevel::Low
    } else if v < 75 {
        AwarenessLevel::Moderate
    } else {
        AwarenessLevel::High
    }
}

pub fn level_from_rating(v: u8) -> (r: AwarenessLevel)
    ensures
        r == spec_level_from_rating(v as int),
{
    if v < 25 {
        AwarenessLevel::Lowest
    } else if v < 50 {
        AwarenessLevel::Low
    } else if v < 75 {
        AwarenessLevel::Moderate
    } else {
        AwarenessLevel::High
    }
}

/// A higher rating never means a lower awareness.
pub proof fn law_level_from_rating_monotone(a: int, b: int)
    requires
        a <= b,
    ensures
        crate::level::rank(spec_level_from_rating(a)) <= crate::level::rank(spec_level_from_rating(b)),
{
}

/// Every reading is rated between 25 and 100, so at least `Low`: the
/// lowest band already rates 25.
pub proof fn law_rating_bounds(raw: int, t: ControlThresholds)
    requires
        0 <= raw <= 100,
    ensures
        25 <= spec_control_rating(raw, t) <= 100,
        spec_level_from_rating(spec_control_rating(raw, t)) != AwarenessLevel::Lowest,
{
    let (start, width, base) = band(raw, t);
    if width > 0 {
        assert((raw - start) / width >= 0) by (nonlinear_arith)
            requires raw - start >= 0, width > 0;
    }
}


/// How many of the given thresholds a reading reaches.
pub open spec fn thresholds_reached(raw: int, t: ControlThresholds) -> int {
    (if t.low <= raw { 1int } else { 0 }) + (if t.mid <= raw { 1int } else { 0 }) + (if t.high <= raw { 1int } else { 0 })
}

/// With ordered thresholds, a reading is rated 25 plus 25 for each
/// threshold it reaches: 25, 50, 75 or 100.
pub proof fn law_rating_counts_thresholds(raw: int, t: ControlThresholds)
    requires
        0 <= raw <= 100,
        t.low <= t.mid <= t.high,
    ensures
        spec_control_rating(raw, t) == 25 + 25 * thresholds_reached(raw, t),
{
    let (start, width, base) = band(raw, t);
    if width > 0 && raw < 100 {
        assert((raw - start) / width == 0) by (nonlinear_arith)
            requires 0 <= raw - start < width;
    }
    if width > 0 && raw == 100 {
        assert((raw - start) / width <= 1) by (nonlinear_arith)
            requires 0 <= raw - start <= width, width > 0;
        assert((raw - start) / width >= 0) by (nonlinear_arith)
            requires 0 <= raw - start, width > 0;
        if raw < t.high {
            assert((raw - start) / width == 0) by (nonlinear_arith)
                requires 0 <= raw - start < width;
        }
    }
}

/// A rating means one more awareness level for each of 25, 50 and 75 it
/// reaches.
pub proof fn law_level_counts_rating_steps(v: int)
    ensures
        crate::level::rank(spec_level_from_rating(v))
            == (if v >= 25 { 1int } else { 0 }) + (if v >= 50 { 1int } else { 0 }) + (if v >= 75 { 1int } else { 0 }),
{
}

} // verus!
