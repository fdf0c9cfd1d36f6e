use patchwork_search::lazy_smp_pvs::{
    FailingStrategy, FeatureConflict, LazySMPFeature, PVSFeatures, PlayerVariant,
    TranspositionTableFeature,
};
use patchwork_search::players::{
    expand_first_action, most_visited_child, HumanPlayer, MCTSEndCondition, MCTSOptions,
    PrincipalVariationSearchPlayer, RandomOptions,
    RandomPlayer, RandomPlayerError, ScoreEvaluator, WinLossEvaluator,
};
use patchwork_search::principal_variation_search::{
    DiagnosticsFeature, PVSFeatures as FeaturePlayerFeatures,
    TranspositionTableFeature as FeaturePlayerTable,
};
use patchwork_search::pv_table::PVTable;
use patchwork_search::server::{
    describe_time_board, game_seed, tiles_with_flag, Options, StatusFlags, TimeBoardFlags,
    TimeBoardTile,
};
use patchwork_search::transposition_table::Size;
use patchwork_search::ActionId;

#[test]
fn lazy_smp_parallelism() {
    assert_eq!(LazySMPFeature::with_parallelism(0), None);
    assert_eq!(LazySMPFeature::with_parallelism(3), Some(LazySMPFeature::Yes(3)));
    assert_eq!(LazySMPFeature::from_available_parallelism(Some(8)), LazySMPFeature::Yes(4));
    assert_eq!(LazySMPFeature::from_available_parallelism(Some(1)), LazySMPFeature::No);
    assert_eq!(LazySMPFeature::from_available_parallelism(None), LazySMPFeature::No);
    assert_eq!(LazySMPFeature::Yes(4).helper_workers(), 3);
    assert_eq!(LazySMPFeature::No.helper_workers(), 0);
}

#[test]
fn table_feature_letters_and_parameters() {
    let default = TranspositionTableFeature::default();
    assert_eq!(
        default,
        TranspositionTableFeature::SymmetryEnabled { size: Size::MiB(250), strategy: FailingStrategy::FailHard }
    );
    assert_eq!(default.symmetry_type(), 's');
    assert_eq!(default.table_parameters(), Some((Size::MiB(250), false)));
    let soft = TranspositionTableFeature::Enabled { size: Size::KiB(4), strategy: FailingStrategy::FailSoft };
    assert_eq!(soft.symmetry_type(), 'e');
    assert_eq!(soft.table_parameters(), Some((Size::KiB(4), true)));
    assert_eq!(TranspositionTableFeature::Disabled.table_parameters(), None);
    assert_eq!(TranspositionTableFeature::from_symmetry_type('D'), Some(TranspositionTableFeature::Disabled));
    assert_eq!(
        TranspositionTableFeature::from_symmetry_type('e'),
        Some(TranspositionTableFeature::Enabled { size: Size::MiB(250), strategy: FailingStrategy::FailHard })
    );
    assert_eq!(TranspositionTableFeature::from_symmetry_type('x'), None);
    assert_eq!(FailingStrategy::FailSoft.label(), "Soft");
    assert_eq!(FailingStrategy::FailHard.label(), "Hard");
}

#[test]
fn feature_combinations() {
    let features = PVSFeatures::default_with(LazySMPFeature::Yes(2));
    assert!(features.aspiration_window);
    assert_eq!(features.failing_strategy, FailingStrategy::FailHard);
    assert_eq!(features.check_combination(), Ok(()));
    let conflicting = PVSFeatures { transposition_table: TranspositionTableFeature::Disabled, ..features };
    assert_eq!(conflicting.check_combination(), Err(FeatureConflict::LazySMPWithoutTranspositionTable));
    let single = PVSFeatures { lazy_smp: LazySMPFeature::No, ..conflicting };
    assert_eq!(single.check_combination(), Ok(()));
}

#[test]
fn player_variants_round_trip() {
    let features = PVSFeatures {
        failing_strategy: FailingStrategy::FailSoft,
        late_move_pruning: false,
        ..PVSFeatures::default_with(LazySMPFeature::No)
    };
    let variant = features.player_variant(true);
    assert_eq!(
        variant,
        PlayerVariant {
            symmetry_type: 's',
            soft_failing_strategy: true,
            late_move_reductions: true,
            late_move_pruning: false,
            aspiration_windows: true,
            search_extensions: true,
            search_statistics: true,
        }
    );
    assert_eq!(variant.default_features(LazySMPFeature::No), Some(features));
    let invalid = PlayerVariant { symmetry_type: 'q', ..variant };
    assert_eq!(invalid.default_features(LazySMPFeature::No), None);
}

#[test]
fn feature_player_defaults() {
    let release = FeaturePlayerFeatures::default_for_build(false);
    assert!(!release.aspiration_window);
    assert!(release.late_move_reductions);
    assert_eq!(release.diagnostics, DiagnosticsFeature::Disabled);
    assert_eq!(
        release.transposition_table,
        FeaturePlayerTable::SymmetryEnabled {
            size: Size::MiB(10),
            strategy: patchwork_search::principal_variation_search::FailingStrategy::FailHard
        }
    );
    let debug = FeaturePlayerFeatures::default_for_build(true);
    assert_eq!(debug.diagnostics, DiagnosticsFeature::Enabled);
    assert!(DiagnosticsFeature::Verbose.writes_diagnostics());
    assert!(DiagnosticsFeature::Verbose.is_verbose());
    assert!(!DiagnosticsFeature::Disabled.writes_diagnostics());
    assert!(!DiagnosticsFeature::Enabled.is_verbose());
}

#[test]
fn simple_players() {
    assert_eq!(HumanPlayer::new("Ada".to_string()).name, "Ada");
    assert_eq!(PrincipalVariationSearchPlayer::new("Bob".to_string()).name, "Bob");
    assert_eq!(
        PrincipalVariationSearchPlayer::with_default_name().name,
        "Principal Variation Search Player"
    );
    assert_eq!(ScoreEvaluator::new(), ScoreEvaluator {});
    assert_eq!(WinLossEvaluator::new(), WinLossEvaluator {});
    assert_eq!(RandomOptions::new(17).seed, 17);
}

#[test]
fn mcts_defaults() {
    let options = MCTSOptions::with_available_parallelism(Some(7));
    assert_eq!(options.root_parallelization, 6);
    assert_eq!(options.leaf_parallelization, 1);
    assert_eq!(options.end_condition, MCTSEndCondition::Time(std::time::Duration::from_secs(60)));
    assert_eq!(MCTSOptions::with_available_parallelism(None).root_parallelization, 4);
}

#[test]
fn random_player_picks_valid_actions() {
    let mut player = RandomPlayer::new("Random".to_string(), Some(RandomOptions::new(42)));
    assert_eq!(player.name(), "Random");
    let actions = [ActionId::from_bits(3), ActionId::from_bits(8), ActionId::from_bits(21)];
    for _ in 0..20 {
        let action = player.get_action(&actions).unwrap();
        assert!(actions.contains(&action));
    }
    assert_eq!(player.get_action(&[]), Err(RandomPlayerError::NoValidActions));
    // the same seed gives the same choices
    let mut first = RandomPlayer::new("a".to_string(), Some(RandomOptions::new(7)));
    let mut second = RandomPlayer::new("b".to_string(), Some(RandomOptions::new(7)));
    for _ in 0..10 {
        assert_eq!(first.get_action(&actions), second.get_action(&actions));
    }
    assert_eq!(RandomPlayer::with_default_name().name(), "Random Player");
}

#[test]
fn pv_table_insert_and_get() {
    let null = ActionId::from_bits(0);
    let mut table = PVTable::new(null);
    assert_eq!(table.get(0), None);
    table.insert(0, ActionId::from_bits(13));
    table.insert(1, ActionId::from_bits(77));
    assert_eq!(table.get(0), Some(ActionId::from_bits(13)));
    assert_eq!(table.get(1), Some(ActionId::from_bits(77)));
    // inserting past the end fills the gap with the null action
    table.insert(4, ActionId::from_bits(5));
    assert_eq!(table.get(2), Some(null));
    assert_eq!(table.get(3), Some(null));
    assert_eq!(table.get(4), Some(ActionId::from_bits(5)));
    assert_eq!(table.get(5), None);
    table.insert(0, ActionId::from_bits(1));
    assert_eq!(table.get(0), Some(ActionId::from_bits(1)));
}

#[test]
fn server_views() {
    assert_eq!(game_seed(None), None);
    assert_eq!(game_seed(Some(Options::new(None))), None);
    assert_eq!(game_seed(Some(Options::new(Some(9)))), Some(9));
    assert_eq!(Options::new(Some(3)).seed(), Some(3));

    let flags = TimeBoardFlags { player_1: 1, player_2: 2, special_patch: 4, button_income_trigger: 8 };
    let tiles = [3u8, 0, 4, 8, 12];
    let board = describe_time_board(&tiles, flags);
    assert_eq!(
        board[0],
        TimeBoardTile { player_1: true, player_2: true, special_patch: false, button_income_trigger: false }
    );
    assert_eq!(
        board[4],
        TimeBoardTile { player_1: false, player_2: false, special_patch: true, button_income_trigger: true }
    );
    assert_eq!(tiles_with_flag(&tiles, 4), vec![4, 12]);
    assert_eq!(tiles_with_flag(&tiles, 8), vec![8, 12]);
    assert_eq!(tiles_with_flag(&tiles, 16), Vec::<u8>::new());

    let status = StatusFlags::of_game(false, false, true, true, true);
    assert_eq!(status, StatusFlags { current_player: 2, special_tile: Some(2), first_goal: Some(1) });
    assert_eq!(StatusFlags::of_game(true, false, false, false, false).special_tile, None);
}

#[test]
fn tree_search_plays_the_most_visited_child() {
    assert_eq!(most_visited_child(&vec![3, 9, 2]), 1);
    // of equally visited children the last is played
    assert_eq!(most_visited_child(&vec![4, 1, 4]), 2);
    assert_eq!(most_visited_child(&vec![0]), 0);
}

#[test]
fn expansion_takes_the_first_expandable_action() {
    let mut expandable = vec![ActionId::from_bits(7), ActionId::from_bits(8)];
    let mut children = vec![ActionId::from_bits(1)];
    assert_eq!(expand_first_action(&mut expandable, &mut children), ActionId::from_bits(7));
    assert_eq!(expandable, vec![ActionId::from_bits(8)]);
    assert_eq!(children, vec![ActionId::from_bits(1), ActionId::from_bits(7)]);
}
