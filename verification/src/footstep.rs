use vstd::prelude::*;

verus! {

/// The ground a footstep lands on.
#[derive(Debug, Clone, Copy, PartialEq, Eq, Structural)]
pub enum Surface {
    Rock,
    Metal,
    Gravel,
}

/// The set of step samples to pick from.
#[derive(Debug, Clone, Copy, PartialEq, Eq, Structural)]
pub enum StepBag {
    RockWalk,
    RockRun,
    MetalWalk,
    MetalRun,
    GravelWalk,
    GravelRun,
}

/// Index of the first `/` in `s`, or its length if there is none.
pub open spec fn slash_index(s: Seq<char>) -> int
    decreases s.len(),
{
    if s.len() == 0 {
        0
    } else if s[0] == '/' {
        0
    } else {
        1 + slash_index(s.drop_first())
    }
}

/// The color part of a map brush's name: everything before the first `/`.
pub open spec fn color_part(s: Seq<char>) -> Seq<char> {
    s.take(slash_index(s))
}

/// What `str::to_lowercase` gives for a string.
pub uninterp spec fn lowercased(s: Seq<char>) -> Seq<char>;

/// Calls `str::to_lowercase`; its result is stated only as a function of
/// the string (the Unicode lowercase mapping is not spelled out).
#[verifier::external_body]
fn to_lowercase(s: &str) -> (r: String)
    ensures
        r@ == lowercased(s@),
{
    s.to_lowercase()
}

/// The surface named by a lowercase color: green is rock, red is metal,
/// purple is gravel, anything else counts as rock.
pub open spec fn spec_surface_of_color(c: Seq<char>) -> Surface {
    if c == "red"@ {
        Surface::Metal
    } else if c == "purple"@ {
        Surface::Gravel
    } else {
        Surface::Rock
    }
}

/// The surface a brush color names, the color already lowercased: red is
/// metal, purple is gravel, anything else (green among them) is rock.
pub fn surface_of_color(color: &str) -> (r: Surface)
    ensures
        r == spec_surface_of_color(color@),
{
    let color = color.to_owned();
    let red = String::from_str("red");
    let purple = String::from_str("purple");
    if color == red {
        Surface::Metal
    } else if color == purple {
        Surface::Gravel
    } else {
        Surface::Rock
    }
}

proof fn lemma_slash_index(s: Seq<char>, k: int)
    requires
        0 <= k <= s.len(),
        forall|j: int| 0 <= j < k ==> s[j] != '/',
        k == s.len() || s[k] == '/',
    ensures
        slash_index(s) == k,
    decreases k,
{
    if k > 0 {
        let t = s.drop_first();
        assert forall|j: int| 0 <= j < k - 1 implies t[j] != '/' by {
            assert(t[j] == s[j + 1]);
        }
        if k < s.len() {
            assert(t[k - 1] == s[k]);
        }
        lemma_slash_index(t, k - 1);
    }
}

/// The surface under a footstep, from the name of the brush it landed on.
pub fn surface_of_brush(name: &str) -> (r: Surface)
    ensures
        r == spec_surface_of_color(lowercased(color_part(name@))),
{
    let n = name.unicode_len();
    let mut k: usize = 0;
    while k < n
        invariant
            n == name@.len(),
            k <= n,
            forall|j: int| 0 <= j < k ==> name@[j] != '/',
        ensures
            k <= n,
            forall|j: int| 0 <= j < k ==> name@[j] != '/',
            k == n || name@[k as int] == '/',
        decreases n - k,
    {
        if name.get_char(k) == '/' {
            break;
        }
        k = k + 1;
    }
    proof { lemma_slash_index(name@, k as int); }
    let color = to_lowercase(name.substring_char(0, k));
    surface_of_color(color.as_str())
}

pub open spec fn spec_step_bag(surface: Surface, running: bool) -> StepBag {
    match surface {
        Surface::Rock => if running { StepBag::RockRun } else { StepBag::RockWalk },
        Surface::Metal => if running { StepBag::MetalRun } else { StepBag::MetalWalk },
        Surface::Gravel => if running { StepBag::GravelRun } else { StepBag::GravelWalk },
    }
}

/// The samples for a step on `surface`, walking or running.
pub fn step_bag(surface: Surface, running: bool) -> (r: StepBag)
    ensures
        r == spec_step_bag(surface, running),
{
    match surface {
        Surface::Rock => if running { StepBag::RockRun } else { StepBag::RockWalk },
        Surface::Metal => if running { StepBag::MetalRun } else { StepBag::MetalWalk },
        Surface::Gravel => if running { StepBag::GravelRun } else { StepBag::GravelWalk },
    }
}


/// The surface a bag of step samples belongs to.
pub open spec fn bag_surface(b: StepBag) -> Surface {
    match b {
        StepBag::RockWalk | StepBag::RockRun => Surface::Rock,
        StepBag::MetalWalk | StepBag::MetalRun => Surface::Metal,
        StepBag::GravelWalk | StepBag::GravelRun => Surface::Gravel,
    }
}

/// Whether a bag holds running steps (as opposed to walking ones).
pub open spec fn bag_runs(b: StepBag) -> bool {
    match b {
        StepBag::RockRun | StepBag::MetalRun | StepBag::GravelRun => true,
        _ => false,
    }
}

/// The bag fits the step on every surface: it belongs to the surface
/// stepped on, and holds running steps exactly when the NPC runs.
pub proof fn law_step_bag_fits(surface: Surface, running: bool)
    ensures
        bag_surface(spec_step_bag(surface, running)) == surface,
        bag_runs(spec_step_bag(surface, running)) == running,
{
}

} // verus!
