# patchwork_search

Search infrastructure for the board game Patchwork, written in Verus: the
behaviour of each function is stated in its `requires` / `ensures` contract
and proved.

- `src/` is the verified library: transposition table entries and their
  packing, Zobrist hashing, the transposition table (an entry keeps its
  key XORed with its data word, the check that lets searches share a table
  without locks; the sharing itself happens behind the game trait), the options,
  statistics, search decisions and searches of the three principal
  variation search players (over a game given by a trait), late move
  pruning flags, the principal variation table, the
  players' options, the parsing of a human player's input, the answers of
  the text interface and what the game server computes.
- `tests/` runs the library on concrete values.
- `app/` holds what talks to the outside world: the interface loop over
  channels, the lazy SMP search workers on threads, the printing of
  diagnostics (with floating point ratios), the reading of a human
  player's input, the printing of recorded search trees, the web server
  and the floating point tree policies of the tree search players.

The game engine itself (game states, valid actions, evaluations) is not
part of this crate; the library takes what it needs of a game state as
plain values, and the searches ask a game for it through a trait.

Verify with `verus src/lib.rs --crate-type lib` and the outside crates of
`Cargo.toml`.
