use vstd::prelude::*;

verus! {

/// The side an NPC or the player is on.
#[derive(Debug, Clone, Copy, PartialEq, Eq, Structural)]
pub enum Team {
    Good,
    Neutral,
    Bad(u8),
    Alarm,
}

/// How two teams regard each other.
#[derive(Debug, Clone, Copy, PartialEq, Eq, Structural)]
pub enum TeamRelation {
    Indifferent,
    Ally,
    Enemy,
}

/// Alarms are everyone's enemy; neutrals are indifferent to everyone else;
/// equal teams are allies; all other pairs are enemies.
pub open spec fn spec_relation(a: Team, b: Team) -> TeamRelation {
    if a == Team::Alarm || b == Team::Alarm {
        TeamRelation::Enemy
    } else if a == Team::Neutral || b == Team::Neutral {
        TeamRelation::Indifferent
    } else if a == b {
        TeamRelation::Ally
    } else {
        TeamRelation::Enemy
    }
}

impl Team {
    pub fn relation_to(self, other: Team) -> (r: TeamRelation)
        ensures
            r == spec_relation(self, other),
    {
        if self == Team::Alarm || other == Team::Alarm {
            TeamRelation::Enemy
        } else if self == Team::Neutral || other == Team::Neutral {
            TeamRelation::Indifferent
        } else if self == other {
            TeamRelation::Ally
        } else {
            TeamRelation::Enemy
        }
    }
}

/// The relation between two teams does not depend on who asks.
pub proof fn lemma_relation_symmetric(a: Team, b: Team)
    ensures
        spec_relation(a, b) == spec_relation(b, a),
{
}

/// Every team, including an alarm itself, is an enemy of an alarm.
pub proof fn lemma_alarm_is_everyones_enemy(a: Team)
    ensures
        spec_relation(a, Team::Alarm) == TeamRelation::Enemy,
        spec_relation(Team::Alarm, a) == TeamRelation::Enemy,
{
}

/// A team other than neutral and alarm is its own ally; neutral is
/// indifferent to itself.
pub proof fn lemma_team_allied_with_itself(a: Team)
    requires
        a != Team::Alarm,
    ensures
        a != Team::Neutral ==> spec_relation(a, a) == TeamRelation::Ally,
        a == Team::Neutral ==> spec_relation(a, a) == TeamRelation::Indifferent,
{
}

} // verus!
