//! Search infrastructure for the board game Patchwork, with its behaviour
//! stated in contracts and proved.
//!
//! - `transposition_table`: packed table entries, Zobrist hashing, the
//!   lockless transposition table and its diagnostics;
//! - `patchwork_pvs`, `principal_variation_search`, `lazy_smp_pvs`: the
//!   three principal variation search players: their options, statistics
//!   and the decisions of the search (aspiration windows, alpha-beta nodes,
//!   late move reductions and pruning, search extensions);
//! - `pv_table`: the principal variation table;
//! - `players`: the human, random and tree search players and their options;
//! - `human_input`, `upi`: what a human types and what the engine answers on
//!   its text interface;
//! - `server`: what the game server computes for its answers.
mod action_id;
mod clock;
mod evaluation_bounds;
mod random;
mod text;

pub mod human_input;
pub mod lazy_smp_pvs;
pub mod patchwork_pvs;
pub mod players;
pub mod principal_variation_search;
pub mod pv_table;
pub mod server;
pub mod transposition_table;
pub mod upi;

pub use action_id::ActionId;
pub use evaluation_bounds::{div_toward_zero, max_int, min_int, NEGATIVE_INFINITY, POSITIVE_INFINITY};
pub use text::{
    first_word, leading_word, lowercase_of, trimmed, whitespace_char, without_leading_whitespace,
    without_trailing_whitespace,
};
