# stealth_ai

The decision logic of a stealth game's NPC senses, verified with Verus:
how an NPC's awareness of each object rises with what it sees and hears,
decays over time, drives its overall alertness, and what it says and does
about it.

## Layout

- `src/` is the verified library. It works on plain values: objects are
  `u64` entity ids, durations are nanoseconds (`u128`, up to the longest
  `std::time::Duration`), and positions are an opaque generic `P`.
  - `level`, `timer`, `flags`, `team`: awareness levels, one-shot timers
    and stopwatches, the awareness and view-cone bit sets, team relations.
  - `awareness`, `store`, `delay`, `pulse`: one awareness, an NPC's store
    of them (one per object, kept in the order they were first recorded),
    the delay on rises of the awareness of the player, and feeding a
    sensation into the store.
  - `alertness`: picking the awareness an NPC is most alert to, and the
    alertness update with the events it announces.
  - `rating`, `bark`, `footstep`, `audio`, `links`, `despawn`, `behavior`:
    loudness and visibility ratings, barks, step sounds, the audio input
    window, bookkeeping of linked entities, and small behavior steps.
  - The laws the library keeps (what a pulse can and cannot do to an
    awareness, that decay only lowers, that the alertness peak never drops,
    ...) are public proof functions named `law_*` and `lemma_*` beside the
    functions they speak of.
- `tests/` runs the library on concrete values.
- `app/` is the engine glue for Bevy: components, observers and systems
  that hold the library's state and call it, and the floating-point
  measurements (loudness, distances) that the library takes as integers.
  `app/engine_bound.rs` keeps the parts that need crates this project does
  not build (a physics engine, Steam Audio, animation and UI plugins).
