# jgame

The rules of a small side-scrolling runner, verified with Verus.

- `src/` is the verified library: the player's state machine (`state`), its
  animation and per-frame state step (`player`), keyboard input decoding
  (`input`), enemy selection, naming and frame cycling (`enemies`), the two
  score counters (`components`, `score`), collision effects (`collisions`),
  the play / game-over flow and overlay texts (`game`, `utils`, `text`).
- `app/` is the Bevy program around it: window, assets, spawning, and the
  systems that move sprites with floating-point positions, velocities and
  timers. Each of them hands its discrete decisions to the library.
- `tests/` runs the library on concrete values.
