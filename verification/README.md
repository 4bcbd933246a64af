# draft_hub

A game server that links a browser front end with a Python simulator over
websockets. The library (`src/`) holds, with Verus contracts and proofs:

- `data`: the settings, the game state, the browser data, the message types
  and their conversions, and the registry of channels between the tasks;
- `python`, `browser`: what a message from the simulator or the browser
  leads to;
- `events`: the indicator sent after each play of a match;
- `shared`: the main thread's decisions as a state machine, and which player
  is kept for each name when the pool is keyed by name.

`app/` is the program: the warp endpoints, the tokio tasks, the files and the
JSON, and the player and match types, whose ratings are floating-point.
