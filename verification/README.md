# tinywar

The rules of Tiny War, a real-time auto-battler in which two players send
units down three lanes to destroy each other's base, as a library verified
with Verus, and the game around it.

- `src/` holds the verified rules: the tile map and its lanes (path search
  with `pathfinding`), how units pick their next tile and whom they attack or
  heal, the unit, building and boost tables, which boosts can be offered and
  what an activated boost does, the spawn queues and boost timers of the
  players, the game and menu state machines (keys, menu buttons, how host and
  client follow each other's state), the strategies, the audio decisions,
  the items picked by random draws, and the readable
  names of enum variants (with `regex`). Random picks go through `rand`.
- `tests/` runs the library on concrete values.
- `app/` is the game itself on the Bevy engine: drawing, input, sound,
  networking, saving, and the floating-point parts: steering, the damage
  formula and the boosts that scale it, the camera, and the computer's
  weighted choice of units. The other rules it takes from the library.
