# omc_galaxy

The logic of a galaxy simulation (planets, explorers and the orchestrator
that runs them), verified with Verus.

- `src/` is the verified library: the topology file format and the galaxy's
  adjacency matrix, the orchestrator's registries and the rules by which it
  answers planets, explorers and the user interface, the explorers' state
  machine and bag, and the game loop's decisions. `src/laws.rs` states the
  properties that hold across operations.
- `app/` is the runtime around it: threads, channels, the game protocol of
  `common_game`, and the explorer AI's floating point scores.
- `tests/` runs the library on concrete values.
