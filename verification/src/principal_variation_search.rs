//! The principal variation search player with configurable features: its
//! options, search diagnostics, search decisions and the search itself.
mod options;
mod search;
mod search_decisions;
mod search_diagnostics;

pub use options::{DiagnosticsFeature, FailingStrategy, PVSFeatures, TranspositionTableFeature};
pub use search_decisions::{
    extension_of, get_search_extension, next_search_window, search_outcome,
    search_window_updatable, should_late_move_reduce, widened, NodeSearch, NodeVerdict,
    SearchOutcome, SearchWindow, LMR_FULL_DEPTH_ACTIONS, LMR_REDUCED_BY_DEPTH, LMR_REDUCTION_LIMIT,
    MAX_DEPTH, MAX_SEARCH_EXTENSIONS, MINIMUM_DELTA, STARTING_ALPHA, STARTING_BETA,
};
pub use search::{
    fail_hard_value, negated, table_answered, window_searchable, IterationResult, NodeResult, SearchGame, Searcher, WINDOW_LIMIT,
};
pub use search_diagnostics::SearchDiagnostics;
