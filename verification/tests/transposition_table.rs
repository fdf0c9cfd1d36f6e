use patchwork_search::transposition_table::{
    applied_symmetry, apply_patch_rotation, board_symmetries, entries_to_print, Entry,
    EvaluationType, HashGameState, PatchTransformation, PlayerHashState, Size,
    TranspositionTable, TranspositionTableDiagnostics, ZobristHash,
};
use patchwork_search::patchwork_pvs::Entry as FirstEntry;
use patchwork_search::{ActionId, NEGATIVE_INFINITY, POSITIVE_INFINITY};

fn pack_unpack(depth: usize, evaluation: i32, evaluation_type: EvaluationType, action_id: ActionId) {
    let data = Entry::pack_data(depth, evaluation, evaluation_type, action_id);
    let (unpacked_depth, unpacked_evaluation, unpacked_evaluation_type, unpacked_action_id) =
        Entry::unpack_data(data);

    assert_eq!(depth, unpacked_depth);
    assert_eq!(evaluation, unpacked_evaluation);
    assert_eq!(evaluation_type, unpacked_evaluation_type);
    assert_eq!(action_id, unpacked_action_id);
}

#[test]
fn test_pack_unpack() {
    pack_unpack(255, 1000, EvaluationType::Exact, ActionId::from_bits(13));
    pack_unpack(3, -999, EvaluationType::UpperBound, ActionId::from_bits(34));
    pack_unpack(0, 0, EvaluationType::LowerBound, ActionId::from_bits(0x1_2345));
    pack_unpack(10, POSITIVE_INFINITY, EvaluationType::Exact, ActionId::from_bits(0));
    pack_unpack(10, NEGATIVE_INFINITY, EvaluationType::LowerBound, ActionId::from_bits(0x1_FFFF));
}

#[test]
fn packed_fields_sit_at_their_bits() {
    // type 2 | depth 3 << 2 | action 5 << 10 | (evaluation + 1_000_000) << 27
    let data = Entry::pack_data(3, 0, EvaluationType::LowerBound, ActionId::from_bits(5));
    assert_eq!(data, 2 | (3 << 2) | (5 << 10) | (1_000_000u64 << 27));
    assert_eq!(Entry::get_depth(data), 3);
    assert_eq!(Entry::get_evaluation(data), 0);
    assert_eq!(Entry::get_evaluation_type(data), EvaluationType::LowerBound);
    assert_eq!(Entry::get_action_id(data), ActionId::from_bits(5));
}

#[test]
fn evaluation_type_bits() {
    assert_eq!(EvaluationType::Exact.as_bits(), 0);
    assert_eq!(EvaluationType::UpperBound.as_bits(), 1);
    assert_eq!(EvaluationType::LowerBound.as_bits(), 2);
}

#[test]
fn empty_entry_is_zero() {
    let entry = Entry::empty();
    assert_eq!(entry.key, 0);
    assert_eq!(entry.data, 0);
    assert_eq!(entry.age, 0);
}

#[test]
fn sizes_in_bytes() {
    assert_eq!(Size::B(7).in_bytes(), 7);
    assert_eq!(Size::KB(2).in_bytes(), 2000);
    assert_eq!(Size::KiB(2).in_bytes(), 2048);
    assert_eq!(Size::MB(3).in_bytes(), 3_000_000);
    assert_eq!(Size::MiB(3).in_bytes(), 3 * 1024 * 1024);
    assert_eq!(Size::GB(1).in_bytes(), 1_000_000_000);
    assert_eq!(Size::GiB(1).in_bytes(), 1 << 30);
}

#[test]
fn diagnostics_count_and_reset() {
    let mut diagnostics = TranspositionTableDiagnostics::new(100);
    assert_eq!(diagnostics.capacity, 100);
    assert_eq!(diagnostics.entries, 0);
    diagnostics.increment_entries();
    diagnostics.increment_accesses();
    diagnostics.increment_accesses();
    diagnostics.increment_accesses();
    diagnostics.increment_misses();
    diagnostics.increment_overwrites();
    assert_eq!(diagnostics.entries, 1);
    assert_eq!(diagnostics.accesses, 3);
    assert_eq!(diagnostics.misses, 1);
    assert_eq!(diagnostics.overwrites, 1);
    assert_eq!(diagnostics.hits(), 2);
    diagnostics.reset_diagnostics();
    assert_eq!(diagnostics.capacity, 100);
    assert_eq!(diagnostics.entries, 0);
    assert_eq!(diagnostics.accesses, 0);
    assert_eq!(diagnostics.misses, 0);
    assert_eq!(diagnostics.overwrites, 0);
}

fn entry_with_key(key: u64) -> Entry {
    Entry { key, data: 0, age: 0 }
}

#[test]
fn printout_shows_occupied_entries() {
    let entries = vec![entry_with_key(0), entry_with_key(5), entry_with_key(0), entry_with_key(9), entry_with_key(4)];
    assert_eq!(entries_to_print(&entries, None), (vec![1, 3, 4], false));
    // a maximum of m shows at most m entries before the line for the rest
    assert_eq!(entries_to_print(&entries, Some(1)), (vec![1], true));
    assert_eq!(entries_to_print(&entries, Some(0)), (vec![], true));
    assert_eq!(entries_to_print(&entries, Some(2)), (vec![1, 3], true));
    assert_eq!(entries_to_print(&entries, Some(3)), (vec![1, 3, 4], false));
    assert_eq!(entries_to_print(&[], Some(2)), (vec![], false));
}

#[test]
fn symmetries_in_order() {
    let symmetries = board_symmetries();
    assert_eq!(symmetries.len(), 64);
    assert_eq!(symmetries[0], (0, 0, 0, 0));
    assert_eq!(symmetries[1], (0, 0, 0, 1));
    assert_eq!(symmetries[2], (0, 0, 1, 0));
    assert_eq!(symmetries[8], (0, 1, 0, 0));
    assert_eq!(symmetries[16], (1, 0, 0, 0));
    assert_eq!(symmetries[63], (3, 1, 3, 1));
}

#[test]
fn symmetry_of_the_player_to_move() {
    assert_eq!(applied_symmetry(true, (0, 0, 2, 1)), None);
    assert_eq!(applied_symmetry(true, (2, 1, 0, 0)), Some((2, true)));
    assert_eq!(applied_symmetry(false, (2, 1, 0, 0)), None);
    assert_eq!(applied_symmetry(false, (2, 1, 3, 0)), Some((3, false)));
}

#[test]
fn patch_rotation_lookup() {
    let transformations = vec![
        PatchTransformation { row: 0, column: 0, rotation: 0, flipped: false },
        PatchTransformation { row: 1, column: 2, rotation: 1, flipped: false },
        PatchTransformation { row: 1, column: 2, rotation: 3, flipped: true },
        PatchTransformation { row: 1, column: 2, rotation: 1, flipped: true },
    ];
    // not flipped: rotation 0 + 1 = 1, orientation false
    assert_eq!(apply_patch_rotation(&transformations, 1, 2, 0, false, 1, false), Some(1));
    // flipped patch: applied rotation 1 turns into 3, 0 + 3 = 3; orientation true ^ false
    assert_eq!(apply_patch_rotation(&transformations, 1, 2, 0, true, 1, false), Some(2));
    // applied flip toggles the orientation
    assert_eq!(apply_patch_rotation(&transformations, 1, 2, 0, false, 1, true), Some(3));
    assert_eq!(apply_patch_rotation(&transformations, 5, 5, 0, false, 0, false), None);
}

fn player(position: usize, button_balance: usize, quilt_board: u128) -> PlayerHashState {
    PlayerHashState { quilt_board, position, button_balance, button_income: 0 }
}

fn game(player_2_to_move: bool) -> HashGameState {
    HashGameState {
        patches: vec![3, 1, 4, 1, 5],
        special_patches: 0b1010,
        player_2_to_move,
        player_1: player(3, 5, 0b111),
        player_2: player(7, 10, 1 << 40),
    }
}

#[test]
fn hash_is_deterministic_and_depends_on_turn() {
    let zobrist = ZobristHash::new();
    let first = zobrist.hash(&game(false));
    assert_eq!(first, zobrist.hash(&game(false)));
    let other_turn = zobrist.hash(&game(true));
    assert_ne!(first, other_turn);
}

#[test]
fn probe_after_store() {
    let mut table = TranspositionTable::new(Size::KiB(1));
    assert!(!table.entries().is_empty());
    let position = game(false);
    let action = ActionId::from_bits(42);
    assert_eq!(table.probe_hash_entry(&position, -10, 10, 3), None);
    table.store_evaluation(&position, 3, 7, EvaluationType::Exact, action);
    assert_eq!(table.probe_hash_entry(&position, -10, 10, 3), Some((action, 7)));
    // a deeper search than stored is not answered
    assert_eq!(table.probe_hash_entry(&position, -10, 10, 4), None);
    assert_eq!(table.probe_pv_move(&position), Some(action));
    assert_eq!(table.diagnostics().accesses, 3);
    assert_eq!(table.diagnostics().misses, 2);
    table.clear();
    assert_eq!(table.probe_hash_entry(&position, -10, 10, 3), None);
}

#[test]
fn bounds_answer_only_decided_windows() {
    let mut table = TranspositionTable::new(Size::KiB(1));
    let position = game(true);
    let action = ActionId::from_bits(1);
    table.store_evaluation(&position, 5, 20, EvaluationType::LowerBound, action);
    // the lower bound 20 decides a window with beta at most 20: beta is answered
    assert_eq!(table.probe_hash_entry(&position, 0, 15, 5), Some((action, 15)));
    assert_eq!(table.probe_hash_entry(&position, 0, 25, 5), None);
}

#[test]
fn age_increments() {
    let mut table = TranspositionTable::new(Size::KiB(1));
    assert_eq!(table.current_age(), 0);
    table.increment_age();
    table.increment_age();
    assert_eq!(table.current_age(), 2);
}

#[test]
fn first_player_entry_round_trip() {
    let data = FirstEntry::pack_data(12, -4321, EvaluationType::UpperBound, 2025);
    assert_eq!(FirstEntry::unpack_fields(data), (12, -4321, EvaluationType::UpperBound, 2025));
    // type 1 | depth 12 << 2 | action 2025 << 10 | (evaluation + 1_000_000) << 21
    assert_eq!(data, 1 | (12 << 2) | (2025 << 10) | ((1_000_000u64 - 4321) << 21));
    let extreme = FirstEntry::pack_data(0, 1_000_000, EvaluationType::Exact, 0);
    assert_eq!(FirstEntry::get_evaluation(extreme), 1_000_000);
    assert_eq!(FirstEntry::get_depth(extreme), 0);
    assert_eq!(FirstEntry::get_action_id(extreme), 0);
    assert_eq!(FirstEntry::get_evaluation_type(extreme), EvaluationType::Exact);
}

#[test]
fn unpackable_data_words() {
    assert!(Entry::unpackable(0));
    let packed = Entry::pack_data(4, -20, EvaluationType::UpperBound, ActionId::from_bits(7));
    assert!(Entry::unpackable(packed));
    // the evaluation type code 3 is unknown
    assert!(!Entry::unpackable(3));
    // an evaluation that cannot be shifted back into the range of i32
    assert!(!Entry::unpackable(0x8000_0000u64 << 27));
}
