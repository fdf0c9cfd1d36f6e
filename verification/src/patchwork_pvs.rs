//! The first principal variation search player: its transposition table
//! entries, search diagnostics, search decisions and the search itself.
mod entry;
mod search;
mod search_decisions;
mod search_diagnostics;

pub use entry::Entry;
pub use search_decisions::{
    get_search_extension, grown, needs_research, next_window, search_extension_of,
    should_late_move_reduce, window_outcome, window_updatable,
    AspirationWindow, ChildOutcome, NodeState, WindowOutcome, LMR_FULL_DEPTH_ACTIONS, LMR_REDUCED_BY_DEPTH,
    LMR_REDUCTION_LIMIT, MAX_DEPTH, MAX_SEARCH_EXTENSIONS, MINIMUM_DELTA, STARTING_ALPHA,
    STARTING_BETA,
};
pub use search::{best_value_index, evaluation_stored, fail_hard_result, maximum_value, negated_values, negation, probe_answered, probe_missed, window_limit, IterationEnd, PvsSearch, SearchPosition, SearchedBy};
pub use search_diagnostics::SearchDiagnostics;
