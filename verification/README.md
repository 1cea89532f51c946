# monkebucko

A small Bevy game about Bucko, whose rules live in a library verified with Verus.

## Layout

- `src/` — the verified library (`monkebucko`): the game's states, the player's input,
  sprite-sheet animations, asset tracking, save slots and playthrough progress, the menu,
  interactions (text, monologues, dialogues), and the three scenes: the egg (cracking it
  open), the top-down maps (hopping and swimming) and the chase (the player and the uckos).
  Public functions state their results over plain-value views in their `ensures`; the
  `lemma_*` proof functions state the laws that hold across calls. Tables keyed by the
  game's enums (playthrough flags, monologues, dialogues) are `Vec`s indexed by the enum,
  with their invariants (no flag twice, one entry per id) stated and proved: Verus gives
  no specification to hash collections built with a custom hasher.
- `tests/` — tests of the library on concrete values.
- `app/` — the executable: Bevy's window, plugins, persistence, the main menu (with its
  settings page and save slots), the player's input, sprite animations and the
  interaction panel, each calling the library for its decisions. Floating-point work
  (frame timers, camera scaling, volumes, random ranges) stays here. The scenes themselves
  (the egg, the top-down maps, the chase, the dialogue scenes and the screen effects) are
  not set up by the executable yet: their rules are in the library and its tests.

## Trusted code

The library makes one call into an outside crate, `TilePos::within_map_bounds` of
`bevy_ecs_tilemap`, behind a wrapper whose contract states that a tile lies within a map
exactly when each coordinate is below the map's size in that direction.
