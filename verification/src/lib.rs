//! Decision logic of a stealth game's NPC senses: awareness levels and their
//! pulses, alertness, team relations, visibility and loudness ratings, barks,
//! footsteps and the small bookkeeping rules around them.
//!
//! Everything here works on plain values: entities are `u64` ids, durations
//! are nanoseconds, and positions are carried through as an opaque generic.
//! The engine glue lives outside this crate.

pub mod level;
pub mod timer;
pub mod flags;
pub mod team;
pub mod awareness;
pub mod store;
pub mod delay;
pub mod pulse;
pub mod alertness;
pub mod rating;
pub mod bark;
pub mod footstep;
pub mod audio;
pub mod links;
pub mod despawn;
pub mod behavior;
