//! The transposition table of the principal variation search and the pieces
//! it is built from.
mod diagnostics;
mod entry;
mod evaluation_type;
mod size;
mod table;
mod zobrist_hash;

pub use diagnostics::{
    counter_after_increment, entries_to_print, occupied_indices, printed_entries,
    TranspositionTableDiagnostics,
};
pub use entry::{
    adjusted_evaluation_bits, data_action_bits, data_depth, data_evaluation, data_evaluation_bits,
    data_evaluation_readable, data_evaluation_type, data_type_code, evaluation_packable, packed_data,
    Entry, ACTION_MASK, DEPTH_MASK, EVALUATION_MASK,
};
pub use evaluation_type::EvaluationType;
pub use zobrist_hash::{
    game_hashable, hashed_patch_count, player_hashable, special_patch_at, special_patch_position,
    tile_covered, HashGameState, PlayerHashState, ZobristHash, AMOUNT_OF_BUTTON_INCOME_TRIGGERS,
    AMOUNT_OF_NON_STARTING_PATCHES, AMOUNT_OF_NORMAL_PATCHES, AMOUNT_OF_SPECIAL_PATCHES,
    AMOUNT_OF_STARTING_PATCHES, FULL_BOARD_BUTTON_INCOME, QUILT_BOARD_COLUMNS, QUILT_BOARD_ROWS,
    QUILT_BOARD_TILES, STARTING_BUTTON_BALANCE, TIME_BOARD_MAX_POSITION,
};
pub use size::Size;
pub use table::{
    applied_symmetry, applied_symmetry_of, apply_patch_rotation, board_symmetries, bucket_index, corrected_rotation, data_action, empty_entry, expected_probe,
    lemma_empty_entry_matches, lemma_probe_after_store, lemma_probe_other_hash, lemma_torn_entry_misses, entry_matches, entry_readable, first_matching_transformation, probe_outcome, pv_move_outcome,
    replaces, storable, stored_entry, symmetry_of_number, transformation_matches, PatchTransformation,
    TranspositionTable,
};
