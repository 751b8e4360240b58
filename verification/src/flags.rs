use vstd::prelude::*;
use crate::level::AwarenessLevel;

verus! {

/// How an NPC currently perceives an object it is aware of.
#[derive(Debug, Clone, Copy, PartialEq, Eq, Structural)]
pub struct AwarenessFlags {
    pub bits: u8,
}

pub const SEEN: u8 = 1;
pub const HEARD: u8 = 2;
pub const SENSED: u8 = 3;
/// The object has an uninterrupted ray path to it.
pub const CAN_RAYCAST: u8 = 4;
/// The object has an uninterrupted ray path to it and is in a view cone.
pub const HAS_LOS: u8 = 8;
pub const FIRST_HAND: u8 = 16;

impl AwarenessFlags {
    pub fn empty() -> (r: AwarenessFlags)
        ensures
            r.bits == 0,
    {
        AwarenessFlags { bits: 0 }
    }

    /// Whether every bit of `other` is set.
    pub fn contains(self, other: u8) -> (r: bool)
        ensures
            r == (self.bits & other == other),
    {
        self.bits & other == other
    }

    /// Whether any bit of `other` is set.
    pub fn intersects(self, other: u8) -> (r: bool)
        ensures
            r == (self.bits & other != 0),
    {
        self.bits & other != 0
    }

    pub fn insert(&mut self, other: u8)
        ensures
            final(self).bits == old(self).bits | other,
    {
        self.bits = self.bits | other;
    }

    pub fn remove(&mut self, other: u8)
        ensures
            final(self).bits == old(self).bits & !other,
    {
        self.bits = self.bits & !other;
    }
}

/// Filters for picking the awareness an NPC is most alert to.
#[derive(Debug, Clone, Copy, PartialEq, Eq, Structural)]
pub struct HighestAwarenessFlags {
    pub bits: u8,
}

/// Only opponents and alarms count.
pub const OPPONENTS_AND_ALARMS: u8 = 1;
/// Only first-hand awareness counts.
pub const ONLY_FIRST_HAND: u8 = 2;
/// Skip objects the NPC is indifferent to.
pub const ALERTING: u8 = 4;

impl HighestAwarenessFlags {
    /// The default filter: opponents and alarms only.
    pub fn default_filter() -> (r: HighestAwarenessFlags)
        ensures
            r.bits == OPPONENTS_AND_ALARMS,
    {
        HighestAwarenessFlags { bits: OPPONENTS_AND_ALARMS }
    }

    pub fn contains(self, other: u8) -> (r: bool)
        ensures
            r == (self.bits & other == other),
    {
        self.bits & other == other
    }
}

/// Properties of a view cone.
#[derive(Debug, Clone, Copy, PartialEq, Eq, Structural)]
pub struct ViewConeFlags {
    pub bits: u16,
}

pub const CONE_ACTIVE: u16 = 0x01;
pub const NO_ALERT_0: u16 = 0x02;
pub const NO_ALERT_1: u16 = 0x04;
pub const NO_ALERT_2: u16 = 0x08;
pub const NO_ALERT_3: u16 = 0x10;
pub const ALERTNESS_RESTRICTED: u16 = 0x1e;
pub const PERIPH: u16 = 0x20;
pub const OMNI: u16 = 0x40;
pub const LOW_LIGHT: u16 = 0x80;
pub const BEHIND: u16 = 0x100;

/// Which set of visibility weights a view cone uses.
#[derive(Debug, Clone, Copy, PartialEq, Eq, Structural)]
pub enum AcuityKind {
    Normal,
    Periphery,
    Omnidirectional,
    LowLight,
}

pub open spec fn has16(bits: u16, flag: u16) -> bool {
    bits & flag == flag
}

/// The flag that forbids a cone at a given alertness level.
pub open spec fn no_alert_flag(l: AwarenessLevel) -> u16 {
    match l {
        AwarenessLevel::Lowest => NO_ALERT_0,
        AwarenessLevel::Low => NO_ALERT_1,
        AwarenessLevel::Moderate => NO_ALERT_2,
        AwarenessLevel::High => NO_ALERT_3,
    }
}

pub open spec fn spec_acuity_kind(bits: u16) -> AcuityKind {
    if has16(bits, LOW_LIGHT) {
        AcuityKind::LowLight
    } else if has16(bits, PERIPH) {
        AcuityKind::Periphery
    } else if has16(bits, OMNI) {
        AcuityKind::Omnidirectional
    } else {
        AcuityKind::Normal
    }
}

impl ViewConeFlags {
    pub fn contains(self, other: u16) -> (r: bool)
        ensures
            r == has16(self.bits, other),
    {
        self.bits & other == other
    }

    pub fn active(self) -> (r: bool)
        ensures
            r == has16(self.bits, CONE_ACTIVE),
    {
        self.contains(CONE_ACTIVE)
    }

    /// Whether the cone may be used by an NPC at the given alertness level.
    pub fn allowed_by(self, alertness: AwarenessLevel) -> (r: bool)
        ensures
            r == !has16(self.bits, no_alert_flag(alertness)),
    {
        if self.contains(NO_ALERT_0) && alertness == AwarenessLevel::Lowest {
            return false;
        }
        if self.contains(NO_ALERT_1) && alertness == AwarenessLevel::Low {
            return false;
        }
        if self.contains(NO_ALERT_2) && alertness == AwarenessLevel::Moderate {
            return false;
        }
        if self.contains(NO_ALERT_3) && alertness == AwarenessLevel::High {
            return false;
        }
        true
    }

    /// The visibility weights of the cone: low light wins over periphery,
    /// which wins over omnidirectional; otherwise normal.
    pub fn acuity_kind(self) -> (r: AcuityKind)
        ensures
            r == spec_acuity_kind(self.bits),
    {
        if self.contains(LOW_LIGHT) {
            AcuityKind::LowLight
        } else if self.contains(PERIPH) {
            AcuityKind::Periphery
        } else if self.contains(OMNI) {
            AcuityKind::Omnidirectional
        } else {
            AcuityKind::Normal
        }
    }
}

/// A cone without any alertness restriction is allowed at every level.
pub proof fn lemma_unrestricted_cone_always_allowed(bits: u16, l: AwarenessLevel)
    requires
        bits & ALERTNESS_RESTRICTED == 0,
    ensures
        !has16(bits, no_alert_flag(l)),
{
    assert(bits & 0x1e == 0 ==> bits & 0x02 != 0x02 && bits & 0x04 != 0x04 && bits & 0x08 != 0x08
        && bits & 0x10 != 0x10) by (bit_vector);
}

} // verus!
