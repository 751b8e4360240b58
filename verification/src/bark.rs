use vstd::prelude::*;
use crate::level::{AwarenessLevel, rank};

verus! {

/// The response concept an NPC barks when its alertness moves from `old`
/// to `new`: `up_to_*` on a rise to a level above `Lowest`,
/// `down_to_*` on a fall to a level below `High`.
pub open spec fn spec_alertness_bark(old: AwarenessLevel, new: AwarenessLevel) -> Option<Seq<char>> {
    if rank(old) < rank(new) {
        match new {
            AwarenessLevel::Low => Some("up_to_low"@),
            AwarenessLevel::Moderate => Some("up_to_moderate"@),
            AwarenessLevel::High => Some("up_to_high"@),
            AwarenessLevel::Lowest => None,
        }
    } else if rank(old) > rank(new) {
        match new {
            AwarenessLevel::Lowest => Some("down_to_lowest"@),
            AwarenessLevel::Low => Some("down_to_low"@),
            AwarenessLevel::Moderate => Some("down_to_moderate"@),
            AwarenessLevel::High => None,
        }
    } else {
        None
    }
}

pub fn alertness_bark(old: AwarenessLevel, new: AwarenessLevel) -> (r: Option<&'static str>)
    ensures
        match r {
            Some(s) => spec_alertness_bark(old, new) == Some(s@),
            None => spec_alertness_bark(old, new) is None,
        },
{
    if old.lt(new) {
        match new {
            AwarenessLevel::Low => Some("up_to_low"),
            AwarenessLevel::Moderate => Some("up_to_moderate"),
            AwarenessLevel::High => Some("up_to_high"),
            AwarenessLevel::Lowest => None,
        }
    } else if new.lt(old) {
        match new {
            AwarenessLevel::Lowest => Some("down_to_lowest"),
            AwarenessLevel::Low => Some("down_to_low"),
            AwarenessLevel::Moderate => Some("down_to_moderate"),
            AwarenessLevel::High => None,
        }
    } else {
        None
    }
}

/// What to do with a request to play a bark.
#[derive(Debug, Clone, Copy, PartialEq, Eq, Structural)]
pub enum BarkDecision {
    /// A bark of at least the same priority is playing: drop the request.
    Skip,
    /// Play it, after stopping the NPC's current bark if it has one. Barks
    /// of priority 3 and up are audible to other NPCs.
    Play { stop_current: bool, audible_to_npcs: bool },
}

/// Decides a bark request of priority `priority`. `has_bark` tells whether
/// the NPC has a bark; `current_priority` is its priority when known.
pub open spec fn spec_bark_decision(has_bark: bool, current_priority: Option<i32>, priority: i32) -> BarkDecision {
    let allowed = match current_priority {
        Some(p) => has_bark ==> p < priority,
        None => true,
    };
    if allowed {
        BarkDecision::Play { stop_current: has_bark, audible_to_npcs: priority >= 3 }
    } else {
        BarkDecision::Skip
    }
}

pub fn bark_decision(has_bark: bool, current_priority: Option<i32>, priority: i32) -> (r: BarkDecision)
    ensures
        r == spec_bark_decision(has_bark, current_priority, priority),
{
    let allowed = match current_priority {
        Some(p) => !has_bark || p < priority,
        None => true,
    };
    if allowed {
        BarkDecision::Play { stop_current: has_bark, audible_to_npcs: priority >= 3 }
    } else {
        BarkDecision::Skip
    }
}

/// A bark only interrupts a bark of strictly lower priority.
pub proof fn law_bark_interrupts_only_lower(p: i32, q: i32)
    ensures
        spec_bark_decision(true, Some(p), q) is Play <==> p < q,
        spec_bark_decision(false, None, q) is Play,
{
}

/// Whether `c` is an ASCII decimal digit.
pub open spec fn is_decimal_digit(c: char) -> bool {
    48 <= c as int <= 57
}

/// The value of a string of decimal digits, most significant first.
pub open spec fn digits_value(s: Seq<char>) -> int
    decreases s.len(),
{
    if s.len() == 0 {
        0
    } else {
        digits_value(s.drop_last()) * 10 + (s.last() as int - 48)
    }
}

/// What `str::parse::<i32>` gives, its error dropped: an optional `+` or
/// `-` sign followed by one or more ASCII decimal digits and nothing else,
/// denoting a value that fits in an `i32`; `None` for anything else (an
/// empty string, a lone sign, whitespace or any other character, or an
/// overflow).
pub open spec fn spec_parse_i32(s: Seq<char>) -> Option<i32> {
    let negative = s.len() > 0 && s[0] == '-';
    let digits = if s.len() > 0 && (s[0] == '-' || s[0] == '+') { s.drop_first() } else { s };
    let value = if negative { -digits_value(digits) } else { digits_value(digits) };
    if digits.len() > 0 && (forall|i: int| 0 <= i < digits.len() ==> is_decimal_digit(#[trigger] digits[i]))
        && i32::MIN <= value <= i32::MAX {
        Some(value as i32)
    } else {
        None
    }
}

/// Calls `str::parse::<i32>` and keeps the value, dropping the error. Its
/// documentation (`i32::from_str`, `from_str_radix` with radix 10) accepts
/// an optional sign followed by decimal digits only, and fails on an empty
/// string, on any other character and on overflow.
#[verifier::external_body]
fn parse_i32(s: &str) -> (r: Option<i32>)
    ensures
        r == spec_parse_i32(s@),
{
    s.parse::<i32>().ok()
}

/// A bark to play: the sample path and its priority as parsed.
#[derive(Debug)]
pub struct BarkRequest {
    pub path: String,
    pub priority: Option<i32>,
}

/// Turns a dialogue response into a bark request: it needs both a `line`
/// and a `priority` field; the priority is parsed as an `i32`.
pub fn bark_request(line: Option<&str>, priority: Option<&str>) -> (r: Option<BarkRequest>)
    ensures
        (r is Some) == (line is Some && priority is Some),
        r matches Some(req) ==> req.path@ == line.unwrap()@ && req.priority == spec_parse_i32(priority.unwrap()@),
{
    let line = match line {
        Some(l) => l,
        None => return None,
    };
    let priority = match priority {
        Some(p) => p,
        None => return None,
    };
    Some(BarkRequest { path: line.to_owned(), priority: parse_i32(priority) })
}


/// The bark names the direction and the level reached: `up_to_` and the new
/// level's name on a rise (to anything above `Lowest`), `down_to_` and the
/// new level's name on a fall (to anything below `High`), nothing otherwise.
pub proof fn law_bark_names_change(old: AwarenessLevel, new: AwarenessLevel)
    ensures
        spec_alertness_bark(old, new) == if rank(old) < rank(new) && new != AwarenessLevel::Lowest {
            Some("up_to_"@ + crate::level::level_name(new))
        } else if rank(old) > rank(new) && new != AwarenessLevel::High {
            Some("down_to_"@ + crate::level::level_name(new))
        } else {
            None::<Seq<char>>
        },
{
    reveal_strlit("up_to_");
    reveal_strlit("down_to_");
    reveal_strlit("up_to_low");
    reveal_strlit("up_to_moderate");
    reveal_strlit("up_to_high");
    reveal_strlit("down_to_lowest");
    reveal_strlit("down_to_low");
    reveal_strlit("down_to_moderate");
    assert("up_to_low"@ =~= "up_to_"@ + crate::level::level_name(AwarenessLevel::Low));
    assert("up_to_moderate"@ =~= "up_to_"@ + crate::level::level_name(AwarenessLevel::Moderate));
    assert("up_to_high"@ =~= "up_to_"@ + crate::level::level_name(AwarenessLevel::High));
    assert("down_to_lowest"@ =~= "down_to_"@ + crate::level::level_name(AwarenessLevel::Lowest));
    assert("down_to_low"@ =~= "down_to_"@ + crate::level::level_name(AwarenessLevel::Low));
    assert("down_to_moderate"@ =~= "down_to_"@ + crate::level::level_name(AwarenessLevel::Moderate));
}

} // verus!
