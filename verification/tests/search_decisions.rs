use patchwork_search::lazy_smp_pvs::{
    extract_best_worker_result, get_late_move_reduced_depth, get_next_action, get_next_depth,
    leaf_evaluation, pv_action_source, reset_aspiration_window, should_late_move_reduce,
    table_store, update_aspiration_window_lower_bound, update_aspiration_window_upper_bound,
    ActionKind, ChildVerdict, IterationStep, IterationWindow, LMPFlags, NextAction,
    PvActionSource, ScoredAction, SearchNode, SearchStatistics, TableStore, MAX_BETA_BOUND,
    MIN_ALPHA_BOUND,
};
use patchwork_search::patchwork_pvs::{
    AspirationWindow, ChildOutcome, NodeState, SearchDiagnostics as FirstDiagnostics,
    WindowOutcome,
};
use patchwork_search::principal_variation_search::{
    NodeSearch, NodeVerdict, SearchDiagnostics as FeatureDiagnostics, SearchOutcome, SearchWindow,
};
use patchwork_search::transposition_table::EvaluationType;
use patchwork_search::{patchwork_pvs, principal_variation_search, ActionId};

#[test]
fn first_player_aspiration_window() {
    let mut diagnostics = FirstDiagnostics::default();
    let mut window = AspirationWindow::initial();
    assert_eq!(window, AspirationWindow { alpha: -5, beta: 5, delta: 1, depth: 1 });
    assert!(window.should_continue());

    // inside: the window is set around the evaluation, one depth deeper
    assert_eq!(window.update(2, &mut diagnostics), WindowOutcome::Inside);
    assert_eq!(window, AspirationWindow { alpha: 1, beta: 3, delta: 1, depth: 2 });

    // fail-high: beta moves above the evaluation, delta grows by a third
    assert_eq!(window.update(3, &mut diagnostics), WindowOutcome::FailHigh);
    assert_eq!(window, AspirationWindow { alpha: 1, beta: 4, delta: 1, depth: 2 });
    assert_eq!(diagnostics.aspiration_window_fail_high, 1);

    // fail-low: beta moves to the middle, alpha to the smaller of
    // evaluation - delta and NEGATIVE_INFINITY
    let mut wide = AspirationWindow { alpha: 10, beta: 30, delta: 9, depth: 4 };
    assert_eq!(wide.update(10, &mut diagnostics), WindowOutcome::FailLow);
    assert_eq!(wide, AspirationWindow { alpha: -1_000_000, beta: 20, delta: 12, depth: 4 });
    assert_eq!(diagnostics.aspiration_window_fail_low, 1);

    let done = AspirationWindow { alpha: 0, beta: 0, delta: 1, depth: patchwork_pvs::MAX_DEPTH };
    assert!(!done.should_continue());
}

#[test]
fn first_player_extension_and_reductions() {
    let mut diagnostics = FirstDiagnostics::default();
    assert_eq!(patchwork_pvs::get_search_extension(&mut diagnostics, 0, true), 1);
    assert_eq!(diagnostics.special_patch_extensions, 1);
    assert_eq!(patchwork_pvs::get_search_extension(&mut diagnostics, 0, false), 0);
    assert_eq!(patchwork_pvs::get_search_extension(&mut diagnostics, 16, true), 0);
    assert_eq!(diagnostics.special_patch_extensions, 1);

    assert!(patchwork_pvs::should_late_move_reduce(0, 4, 3));
    assert!(!patchwork_pvs::should_late_move_reduce(1, 4, 3));
    assert!(!patchwork_pvs::should_late_move_reduce(0, 3, 3));
    assert!(!patchwork_pvs::should_late_move_reduce(0, 4, 2));

    assert!(patchwork_pvs::needs_research(5, 4, 6));
    assert!(!patchwork_pvs::needs_research(6, 4, 6));
    assert!(!patchwork_pvs::needs_research(4, 4, 6));
}

#[test]
fn first_player_node_is_fail_hard() {
    let mut diagnostics = FirstDiagnostics::default();
    let mut node = NodeState::start(-10, 10);
    assert_eq!(node.record(&mut diagnostics, 0, -20), ChildOutcome::Next);
    assert_eq!(node.alpha, -10);
    assert_eq!(node.best_action, None);
    assert_eq!(node.evaluation_bound, EvaluationType::UpperBound);
    assert!(!node.is_pv_node);
    assert_eq!(node.record(&mut diagnostics, 1, 4), ChildOutcome::Next);
    assert_eq!(node.alpha, 4);
    assert_eq!(node.best_action, Some(1));
    assert_eq!(node.evaluation_bound, EvaluationType::Exact);
    assert_eq!(node.record(&mut diagnostics, 2, 10), ChildOutcome::Cutoff);
    assert_eq!(diagnostics.fail_high, 1);
    assert_eq!(diagnostics.fail_high_first, 0);
}

#[test]
fn feature_player_window() {
    let mut diagnostics = FeatureDiagnostics::default();
    let full = SearchWindow::initial(false);
    assert_eq!(full, SearchWindow { alpha: -1_000_000, beta: 1_000_000, delta: 1, depth: 1 });
    let mut window = SearchWindow::initial(true);
    assert_eq!(window, SearchWindow { alpha: -60, beta: 60, delta: 1, depth: 1 });
    assert_eq!(window.update(-60, &mut diagnostics), SearchOutcome::FailLow);
    assert_eq!(window, SearchWindow { alpha: -1_000_000, beta: 0, delta: 1, depth: 1 });
    assert_eq!(diagnostics.aspiration_window_fail_low, 1);
    assert_eq!(window.update(7, &mut diagnostics), SearchOutcome::FailHigh);
    assert_eq!(window, SearchWindow { alpha: -1_000_000, beta: 8, delta: 1, depth: 1 });
    assert_eq!(window.update(-3, &mut diagnostics), SearchOutcome::Inside);
    assert_eq!(window, SearchWindow { alpha: -4, beta: -2, delta: 1, depth: 2 });
}

#[test]
fn feature_player_extension_and_node() {
    let mut diagnostics = FeatureDiagnostics::default();
    assert_eq!(principal_variation_search::get_search_extension(&mut diagnostics, false, 0, true), 0);
    assert_eq!(principal_variation_search::get_search_extension(&mut diagnostics, true, 0, true), 1);
    assert_eq!(diagnostics.special_patch_extensions, 1);

    let mut node = NodeSearch::start(0, 5);
    let phantom = ActionId::from_bits(99);
    assert_eq!(node.table_action(phantom), phantom);
    assert_eq!(node.record(&mut diagnostics, ActionId::from_bits(3), 2), NodeVerdict::Proceed);
    assert_eq!(node.table_action(phantom), ActionId::from_bits(3));
    assert_eq!(node.record(&mut diagnostics, ActionId::from_bits(4), 9), NodeVerdict::BetaCutoff);
    assert_eq!(diagnostics.fail_high, 1);

    let mut first = NodeSearch::start(0, 5);
    assert_eq!(first.record(&mut diagnostics, ActionId::from_bits(4), 5), NodeVerdict::BetaCutoff);
    assert_eq!(diagnostics.fail_high_first, 1);
}

#[test]
fn lazy_aspiration_window_updates() {
    let mut statistics = SearchStatistics::<true>::default();
    // fail low: alpha is delta below the evaluation but not below MIN_ALPHA_BOUND
    assert_eq!(
        update_aspiration_window_lower_bound(&mut statistics, -20, 20, -30, 9),
        (-39, 0, 12)
    );
    assert_eq!(
        update_aspiration_window_lower_bound(&mut statistics, -20, 20, -1_000_000, 9),
        (MIN_ALPHA_BOUND, 0, 12)
    );
    assert_eq!(statistics.aspiration_window_fail_low, 2);
    assert_eq!(
        update_aspiration_window_upper_bound(&mut statistics, -20, 20, 25, 3),
        (-20, 28, 4)
    );
    assert_eq!(
        update_aspiration_window_upper_bound(&mut statistics, -20, 20, 1_000_000, 3),
        (-20, MAX_BETA_BOUND, 4)
    );
    assert_eq!(statistics.aspiration_window_fail_high, 2);
    // reset: delta is the minimum delta plus a tenth of the magnitude
    assert_eq!(reset_aspiration_window(-57, 2), (-64, -50, 7));
}

#[test]
fn lazy_iterative_deepening_steps() {
    let mut statistics = SearchStatistics::<true>::default();
    let mut window = IterationWindow::initial(true, -30, 30, 2);
    assert_eq!(window, IterationWindow { alpha: -30, beta: 30, delta: 2, depth: 1 });
    assert_eq!(window.after_search(&mut statistics, 40, true, 2, false), IterationStep::SearchAgain);
    assert_eq!(window, IterationWindow { alpha: -30, beta: 42, delta: 2, depth: 1 });
    assert_eq!(statistics.aspiration_window_fail_high, 1);
    assert_eq!(statistics.aspiration_window_fail_low, 0);
    assert_eq!(window.after_search(&mut statistics, 10, true, 2, false), IterationStep::NextDepth);
    assert_eq!(window, IterationWindow { alpha: 7, beta: 13, delta: 3, depth: 2 });
    assert_eq!(window.after_search(&mut statistics, 10, true, 2, true), IterationStep::Stop);

    let mut plain = IterationWindow::initial(false, -30, 30, 2);
    assert_eq!(plain, IterationWindow { alpha: MIN_ALPHA_BOUND, beta: MAX_BETA_BOUND, delta: 2, depth: 1 });
    assert_eq!(plain.after_search(&mut statistics, 500, false, 2, false), IterationStep::NextDepth);
    assert_eq!(plain.depth, 2);
    assert_eq!(plain.alpha, MIN_ALPHA_BOUND);
}

#[test]
fn lazy_depth_decisions() {
    assert_eq!(get_late_move_reduced_depth(9), 6);
    assert_eq!(get_late_move_reduced_depth(5), 4);
    assert_eq!(get_late_move_reduced_depth(0), 0);

    let mut statistics = SearchStatistics::<true>::default();
    assert!(should_late_move_reduce(&mut statistics, 3, 2, 0, false, 3, 2));
    assert!(!should_late_move_reduce(&mut statistics, 2, 2, 0, false, 3, 2));
    assert!(should_late_move_reduce(&mut statistics, 3, 2, 1, true, 3, 2));
    assert!(!should_late_move_reduce(&mut statistics, 3, 2, 1, false, 3, 2));
    assert_eq!(statistics.late_move_reductions, 2);

    // a zero window child gets no extension
    assert_eq!(get_next_depth(&mut statistics, 4, true, false, true, 0, 16, true, false, true), (3, 0));
    // special patch placement and a newly reached special tile extend twice
    assert_eq!(get_next_depth(&mut statistics, 4, false, false, true, 0, 16, true, false, true), (5, 2));
    assert_eq!(statistics.special_patch_extensions, 1);
    assert_eq!(statistics.special_tile_extensions, 1);
    assert_eq!(get_next_depth(&mut statistics, 4, false, false, true, 16, 16, true, false, true), (3, 0));
}

#[test]
fn lazy_leaf_and_sources() {
    let mut statistics = SearchStatistics::<true>::default();
    assert_eq!(leaf_evaluation(&mut statistics, true, 12), 12);
    assert_eq!(leaf_evaluation(&mut statistics, false, 12), -12);
    assert_eq!(statistics.leaf_nodes_searched, 2);

    let best = ActionId::from_bits(7);
    assert_eq!(pv_action_source(0, Some(best), true), PvActionSource::Best(best));
    assert_eq!(pv_action_source(1, Some(best), true), PvActionSource::Table);
    assert_eq!(pv_action_source(0, None, false), PvActionSource::Absent);

    assert_eq!(table_store('d'), TableStore::Skip);
    assert_eq!(table_store('e'), TableStore::Plain);
    assert_eq!(table_store('s'), TableStore::WithSymmetries);
}

#[test]
fn lazy_node_fail_soft_and_hard() {
    let mut statistics = SearchStatistics::<true>::default();
    let null = ActionId::from_bits(0);
    let mut node = SearchNode::new(-5, 5, null);
    assert_eq!(
        node.record_child(&mut statistics, ActionId::from_bits(1), 3, false, false),
        ChildVerdict::Continue
    );
    assert_eq!(node.alpha, 3);
    assert_eq!(node.best_action, ActionId::from_bits(1));
    assert_eq!(
        node.record_child(&mut statistics, ActionId::from_bits(2), 8, true, false),
        ChildVerdict::Cutoff { value: 8 }
    );
    assert_eq!(
        node.record_child(&mut statistics, ActionId::from_bits(2), 8, false, false),
        ChildVerdict::Cutoff { value: 5 }
    );
    assert_eq!(statistics.fail_high, 2);
    // in a zero window search alpha does not move
    let mut zero_window = SearchNode::new(-5, 5, null);
    zero_window.record_child(&mut statistics, ActionId::from_bits(1), 3, false, true);
    assert_eq!(zero_window.alpha, -5);
    assert_eq!(zero_window.best_action, null);
}

#[test]
fn lazy_best_worker_result() {
    let a = ActionId::from_bits(1);
    let b = ActionId::from_bits(2);
    assert_eq!(extract_best_worker_result(&[None, Some((a, 3)), Some((b, 5)), Some((a, 5))]), Some(b));
    assert_eq!(extract_best_worker_result(&[None, None]), None);
    assert_eq!(extract_best_worker_result(&[Some((a, i32::MIN))]), None);
}

fn scored(bits: u32, kind: ActionKind, score: i64) -> ScoredAction {
    ScoredAction { action: ActionId::from_bits(bits), kind, score }
}

#[test]
fn late_move_pruning_flags() {
    let actions = vec![
        scored(1, ActionKind::Walking, 0),
        scored(2, ActionKind::FirstPatch, 5),
        scored(3, ActionKind::FirstPatch, 1),
        scored(4, ActionKind::SpecialPatchPlacement, 3),
        scored(5, ActionKind::SecondPatch, 2),
        scored(6, ActionKind::Other, 9),
    ];
    let mut flags = LMPFlags::<2>::initialize_from(&actions);
    // the walking action first, then the kept patch actions from the back
    assert_eq!(flags.get_next_missing(), Some(ActionId::from_bits(1)));
    // patch 1 kept 2 (score 5) and replaced 3 (score 1) with 4 (score 3)
    assert_eq!(flags.get_next_missing(), Some(ActionId::from_bits(4)));
    assert_eq!(flags.get_next_missing(), Some(ActionId::from_bits(2)));
    assert_eq!(flags.get_next_missing(), Some(ActionId::from_bits(5)));
    assert_eq!(flags.get_next_missing(), None);

    let mut done = LMPFlags::<2>::initialize_from(&actions);
    done.set_action_type_done(ActionKind::Walking);
    done.set_action_type_done(ActionKind::SpecialPatchPlacement);
    assert_eq!(done.get_next_missing(), Some(ActionId::from_bits(5)));

    let mut fake = LMPFlags::<2>::fake();
    assert_eq!(fake.get_next_missing(), None);
}

#[test]
fn next_action_with_pruning() {
    let mut statistics = SearchStatistics::<true>::default();
    let actions = vec![scored(1, ActionKind::Walking, 0)];
    let mut flags = LMPFlags::<1>::initialize_from(&actions);
    assert_eq!(get_next_action(&mut statistics, &mut flags, true, 0, 5, 1, 2), NextAction::Ordered);
    assert_eq!(get_next_action(&mut statistics, &mut flags, false, 3, 5, 1, 2), NextAction::Ordered);
    assert_eq!(
        get_next_action(&mut statistics, &mut flags, true, 3, 5, 1, 2),
        NextAction::Missing(ActionId::from_bits(1))
    );
    assert_eq!(get_next_action(&mut statistics, &mut flags, true, 3, 6, 1, 2), NextAction::Pruned);
    assert_eq!(statistics.late_move_pruning, 1);
}
