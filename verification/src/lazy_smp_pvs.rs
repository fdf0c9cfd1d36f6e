//! The principal variation search player that searches with several workers
//! sharing one transposition table: its statistics, options, the decisions
//! of a search worker and the search of a worker.
mod lmp_flags;
mod options;
mod search_decisions;
mod search_node;
mod search_recorder;
mod search_statistics;
mod worker;

pub use search_decisions::{
    extensions_counted, extract_best_worker_result, get_next_action, get_next_depth, leaf_evaluation, pv_action_source,
    table_store, NextAction, PvActionSource, TableStore, iteration_step, iteration_updatable, next_iteration_window,
    IterationStep, IterationWindow, get_late_move_reduced_depth, get_search_extension, grown_delta,
    late_move_reduced_depth, late_move_reduces, reset_aspiration_window,
    search_extension, should_late_move_reduce, update_aspiration_window_lower_bound,
    update_aspiration_window_upper_bound, window_delta, MAX_BETA_BOUND, MAX_DEPTH, MIN_ALPHA_BOUND,
};
pub use options::{
    default_table_size, feature_names, table_feature_of, FeatureConflict, LazySMPFeature, PVSFeatures,
    PlayerVariant, TranspositionTableFeature,
};
pub use crate::principal_variation_search::FailingStrategy;
pub use search_recorder::{is_search_path, NodeRecord, SearchRecorder};
pub use search_statistics::SearchStatistics;
pub use search_node::{
    after_child, after_children, best_child_action, lemma_alpha_is_maximum, maximum_evaluation, ChildVerdict, SearchNode,
};
pub use lmp_flags::{
    actions_at, first_patch_kind, is_first_minimum, keep_best, kept_actions, kept_positions,
    last_walking, lemma_kept_actions_are_the_best, scores_at,
    lemma_every_present_type_is_kept, patch_kind, position_min,
    second_patch_kind, third_patch_kind, ActionKind, LMPFlags, ScoredAction,
};
pub use worker::{
    extension_budget, extension_step, has_best_evaluation, negated_children, table_hit, table_missed,
    table_stored, window_value, is_win, iteration_window_searchable, search_measure, Worker, WorkerGame,
    WorkerIteration, WorkerNode, WorkerSettings,
};
