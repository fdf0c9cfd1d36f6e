use patchwork_search::lazy_smp_pvs::{
    ActionKind, IterationWindow, PlayerVariant, ScoredAction, SearchStatistics, Worker,
    WorkerGame, WorkerIteration, WorkerNode, WorkerSettings, MAX_BETA_BOUND, MIN_ALPHA_BOUND,
};
use patchwork_search::transposition_table::EvaluationType;
use patchwork_search::ActionId;

const PHANTOM: u32 = 1000;
const NULL: u32 = 999;

/// A game given as an explicit tree: an action is the index of the child it
/// leads to; each node has an evaluation for the first player, the kind of
/// the action that leads to it and whether it is a special patch placement.
/// The first player moves at the root, then the players alternate.
struct WorkerTree {
    children: Vec<Vec<usize>>,
    values: Vec<i32>,
    kinds: Vec<ActionKind>,
    phantom: Vec<Option<usize>>,
    special_patch: Vec<bool>,
    path: Vec<usize>,
    canceled: bool,
    table_answer: Option<(ActionId, i32)>,
    probes: Vec<(i32, i32, usize)>,
    stored: Vec<(usize, i32, EvaluationType, ActionId, bool)>,
    played_at_root: Vec<usize>,
    iterations: Vec<usize>,
    failing_action: Option<usize>,
}

impl WorkerTree {
    fn new(children: Vec<Vec<usize>>, values: Vec<i32>) -> Self {
        let count = children.len();
        WorkerTree {
            children,
            values,
            kinds: vec![ActionKind::Walking; count],
            phantom: vec![None; count],
            special_patch: vec![false; count],
            path: vec![0],
            canceled: false,
            table_answer: None,
            probes: vec![],
            stored: vec![],
            played_at_root: vec![],
            iterations: vec![],
            failing_action: None,
        }
    }

    fn current(&self) -> usize {
        *self.path.last().unwrap()
    }
}

impl WorkerGame for WorkerTree {
    type Error = String;

    fn search_canceled(&self) -> bool {
        self.canceled
    }

    fn is_phantom_turn(&self) -> bool {
        self.phantom[self.current()].is_some()
    }

    fn phantom_action(&self) -> ActionId {
        ActionId::from_bits(PHANTOM)
    }

    fn null_action(&self) -> ActionId {
        ActionId::from_bits(NULL)
    }

    fn probe_table(&mut self, alpha: i32, beta: i32, depth: usize) -> Option<(ActionId, i32)> {
        self.probes.push((alpha, beta, depth));
        self.table_answer
    }

    fn probe_pv_move(&mut self) -> Option<ActionId> {
        None
    }

    fn store_in_table(&mut self, depth: usize, evaluation: i32, evaluation_type: EvaluationType, action: ActionId) {
        self.stored.push((depth, evaluation, evaluation_type, action, false));
    }

    fn store_in_table_with_symmetries(
        &mut self,
        depth: usize,
        evaluation: i32,
        evaluation_type: EvaluationType,
        action: ActionId,
    ) {
        self.stored.push((depth, evaluation, evaluation_type, action, true));
    }

    fn is_terminated(&self) -> bool {
        self.children[self.current()].is_empty()
    }

    fn scored_actions(&mut self, _pv_action: Option<ActionId>, _ply_from_root: usize) -> Vec<ScoredAction> {
        let count = self.children[self.current()].len() as i64;
        self.children[self.current()]
            .iter()
            .enumerate()
            .map(|(index, child)| ScoredAction {
                action: ActionId::from_bits(*child as u32),
                kind: self.kinds[*child],
                score: count - index as i64,
            })
            .collect()
    }

    fn pick_action(&mut self, actions: &mut Vec<ScoredAction>, index: usize) -> ActionId {
        actions[index].action
    }

    fn do_action(&mut self, action: ActionId) -> Result<(), String> {
        let bits = action.as_bits();
        let child = if bits == PHANTOM {
            match self.phantom[self.current()] {
                Some(next) => next,
                None => return Err("no phantom turn".to_string()),
            }
        } else {
            bits as usize
        };
        if self.failing_action == Some(child) || (bits != PHANTOM && !self.children[self.current()].contains(&child)) {
            return Err(format!("invalid action {child}"));
        }
        if self.path.len() == 1 {
            self.played_at_root.push(child);
        }
        self.path.push(child);
        Ok(())
    }

    fn undo_action(&mut self, _action: ActionId) -> Result<(), String> {
        self.path.pop();
        Ok(())
    }

    fn is_special_patch_placement(&self) -> bool {
        self.special_patch[self.current()]
    }

    fn is_special_tile_condition_reached(&self) -> bool {
        false
    }

    fn is_player_1(&self) -> bool {
        self.path.len() % 2 == 1
    }

    fn evaluate_node(&mut self) -> i32 {
        self.values[self.current()]
    }

    fn iteration_finished<const ACTIVE: bool>(&mut self, depth: usize, _statistics: &SearchStatistics<ACTIVE>) {
        self.iterations.push(depth);
    }
}

/// Root 0 with children 1, 2, 3; their leaves hold values for the first
/// player, who moves at the root.
fn two_ply_game() -> WorkerTree {
    let children = vec![
        vec![1, 2, 3],
        vec![4, 5],
        vec![6, 7],
        vec![8, 9],
        vec![],
        vec![],
        vec![],
        vec![],
        vec![],
        vec![],
    ];
    let values = vec![0, 0, 0, 0, 3, 12, 8, 2, 14, 5];
    WorkerTree::new(children, values)
}

fn settings() -> WorkerSettings {
    WorkerSettings {
        variant: PlayerVariant {
            symmetry_type: 'd',
            soft_failing_strategy: false,
            late_move_reductions: false,
            late_move_pruning: false,
            aspiration_windows: false,
            search_extensions: false,
            search_statistics: true,
        },
        main_worker: true,
        lmr_full_depth_actions: 1,
        lmr_apply_after_plys: 0,
        lmp_non_pruned_actions: 1,
        lmp_apply_after_plys: 0,
        max_search_extensions: 4,
        starting_alpha: -30,
        starting_beta: 30,
        minimum_delta: 10,
    }
}

fn action(bits: u32) -> ActionId {
    ActionId::from_bits(bits)
}

#[test]
fn worker_full_window_search_is_negamax() {
    let mut game = two_ply_game();
    let mut worker = Worker::<true, 3>::new(settings());
    let result = worker.principal_variation_search(&mut game, 0, 2, MIN_ALPHA_BOUND, MAX_BETA_BOUND, 0, false);
    assert_eq!(result, Ok((5, WorkerNode::Searched)));
    // the best root action leads to the third child, whose worst leaf is 5
    assert_eq!(worker.best, Some((action(3), 5)));
    assert_eq!(game.path, vec![0]);
    // the transposition table is disabled
    assert!(game.stored.is_empty());
    assert!(worker.statistics.nodes_searched > 0);
    assert!(worker.statistics.leaf_nodes_searched > 0);
}

#[test]
fn worker_fail_hard_values_stay_in_the_window() {
    let mut game = two_ply_game();
    let mut worker = Worker::<true, 3>::new(settings());
    // the true value 5 lies above the window: beta is returned
    assert_eq!(
        worker.principal_variation_search(&mut game, 1, 2, -10, 2, 0, false),
        Ok((2, WorkerNode::Cutoff))
    );
    assert_eq!(worker.statistics.fail_high, 1);
    assert_eq!(worker.statistics.fail_high_first, 1);
    // the true value 5 lies below the window: alpha is returned
    assert_eq!(
        worker.principal_variation_search(&mut game, 1, 2, 6, 10, 0, false),
        Ok((6, WorkerNode::Searched))
    );
    // away from the root the best action is not kept
    assert_eq!(worker.best, None);
}

#[test]
fn worker_fail_soft_returns_the_cutoff_evaluation() {
    // the root's children are leaves worth 7 and 3 for the first player
    let game_values = vec![0, 7, 3];
    let mut soft = settings();
    soft.variant.soft_failing_strategy = true;

    let mut game = WorkerTree::new(vec![vec![1, 2], vec![], vec![]], game_values.clone());
    let mut worker = Worker::<true, 3>::new(soft);
    assert_eq!(
        worker.principal_variation_search(&mut game, 0, 1, -10, 5, 0, false),
        Ok((7, WorkerNode::Cutoff))
    );

    let mut game = WorkerTree::new(vec![vec![1, 2], vec![], vec![]], game_values);
    let mut worker = Worker::<true, 3>::new(settings());
    assert_eq!(
        worker.principal_variation_search(&mut game, 0, 1, -10, 5, 0, false),
        Ok((5, WorkerNode::Cutoff))
    );
}

#[test]
fn worker_zero_window_search_answers_beta_or_beta_minus_one() {
    let mut game = two_ply_game();
    let mut worker = Worker::<false, 3>::new(settings());
    // the value 5 is at least 3 and below 6
    assert_eq!(worker.zero_window_search(&mut game, 0, 2, 3, 0), Ok((3, WorkerNode::Cutoff)));
    assert_eq!(worker.zero_window_search(&mut game, 0, 2, 6, 0), Ok((5, WorkerNode::Searched)));
    // a zero window search keeps no best action, even at the root
    assert_eq!(worker.best, None);
    // statistics that are not kept stay at zero
    assert_eq!(worker.statistics.nodes_searched, 0);
}

#[test]
fn worker_canceled_search_returns_zero() {
    let mut game = two_ply_game();
    game.canceled = true;
    let mut worker = Worker::<true, 3>::new(settings());
    assert_eq!(
        worker.principal_variation_search(&mut game, 0, 2, MIN_ALPHA_BOUND, MAX_BETA_BOUND, 0, false),
        Ok((0, WorkerNode::Canceled))
    );
    assert_eq!(worker.best, None);
}

#[test]
fn worker_skips_phantom_turns() {
    // the root is a phantom turn that leads to node 1, where the second
    // player chooses between leaves worth 4 and -6 for the first player
    let mut game = WorkerTree::new(vec![vec![], vec![2, 3], vec![], vec![]], vec![0, 0, 4, -6]);
    game.phantom[0] = Some(1);
    let mut worker = Worker::<true, 3>::new(settings());
    assert_eq!(
        worker.principal_variation_search(&mut game, 0, 1, MIN_ALPHA_BOUND, MAX_BETA_BOUND, 0, false),
        Ok((-6, WorkerNode::Phantom))
    );
    // the position after the phantom action is searched as the root
    assert_eq!(worker.best, Some((action(3), 6)));
    assert_eq!(game.path, vec![0]);
    assert_eq!(game.played_at_root, vec![1]);
}

#[test]
fn worker_stores_in_the_transposition_table() {
    let mut enabled = settings();
    enabled.variant.symmetry_type = 'e';
    let mut game = two_ply_game();
    let mut worker = Worker::<true, 3>::new(enabled);
    assert_eq!(
        worker.principal_variation_search(&mut game, 0, 2, MIN_ALPHA_BOUND, MAX_BETA_BOUND, 0, false),
        Ok((5, WorkerNode::Searched))
    );
    assert_eq!(game.stored.last(), Some(&(2, 5, EvaluationType::Exact, action(3), false)));

    let mut symmetric = settings();
    symmetric.variant.symmetry_type = 's';
    let mut game = two_ply_game();
    let mut worker = Worker::<true, 3>::new(symmetric);
    assert_eq!(
        worker.principal_variation_search(&mut game, 0, 2, MIN_ALPHA_BOUND, MAX_BETA_BOUND, 0, false),
        Ok((5, WorkerNode::Searched))
    );
    assert_eq!(game.stored.last(), Some(&(2, 5, EvaluationType::Exact, action(3), true)));
    // a cut-off stores beta as a lower bound with the action
    assert!(game.stored.iter().any(|entry| entry.2 == EvaluationType::LowerBound));
}

#[test]
fn worker_uses_table_answers() {
    let mut enabled = settings();
    enabled.variant.symmetry_type = 'e';
    let mut game = two_ply_game();
    game.table_answer = Some((action(2), 42));
    let mut worker = Worker::<true, 3>::new(enabled);
    assert_eq!(
        worker.principal_variation_search(&mut game, 0, 2, MIN_ALPHA_BOUND, MAX_BETA_BOUND, 0, false),
        Ok((42, WorkerNode::TableHit))
    );
    assert_eq!(worker.best, Some((action(2), 42)));

    // without a table the answer is never asked for
    let mut game = two_ply_game();
    game.table_answer = Some((action(2), 42));
    let mut worker = Worker::<true, 3>::new(settings());
    assert_eq!(
        worker.principal_variation_search(&mut game, 0, 2, MIN_ALPHA_BOUND, MAX_BETA_BOUND, 0, false),
        Ok((5, WorkerNode::Searched))
    );
}

#[test]
fn worker_late_move_reductions_search_later_actions_shallower() {
    let mut reducing = settings();
    reducing.variant.late_move_reductions = true;
    let mut game = two_ply_game();
    let mut worker = Worker::<true, 3>::new(reducing);
    // the later children are searched one ply shallower (at depth 0, where
    // they are worth 0) and never above the first child's 3
    assert_eq!(
        worker.principal_variation_search(&mut game, 0, 2, MIN_ALPHA_BOUND, MAX_BETA_BOUND, 0, false),
        Ok((3, WorkerNode::Searched))
    );
    assert_eq!(worker.best, Some((action(1), 3)));
    // the two later children of the root and the second child of the first
    assert_eq!(worker.statistics.late_move_reductions, 3);
    assert_eq!(worker.statistics.late_move_reduction_fails, 0);
}

#[test]
fn worker_late_move_pruning_tries_each_action_type() {
    // four children of different kinds, all leaves worth 0
    let mut game = WorkerTree::new(vec![vec![1, 2, 3, 4], vec![], vec![], vec![], vec![]], vec![0; 5]);
    game.kinds = vec![
        ActionKind::Other,
        ActionKind::Walking,
        ActionKind::FirstPatch,
        ActionKind::FirstPatch,
        ActionKind::SecondPatch,
    ];
    let mut pruning = settings();
    pruning.variant.late_move_pruning = true;
    let mut worker = Worker::<true, 1>::new(pruning);
    assert_eq!(
        worker.principal_variation_search(&mut game, 0, 1, MIN_ALPHA_BOUND, MAX_BETA_BOUND, 0, false),
        Ok((0, WorkerNode::Searched))
    );
    // the first action is ordered; then the walking action, the best first
    // patch action and the second patch action are tried, and the other
    // first patch action is pruned
    assert_eq!(game.played_at_root, vec![1, 1, 2, 4]);
}

#[test]
fn worker_extends_special_patch_placements() {
    let mut game = two_ply_game();
    game.special_patch[1] = true;
    let mut extending = settings();
    extending.variant.search_extensions = true;
    let mut worker = Worker::<true, 3>::new(extending);
    // the first child is searched one ply deeper, where it is worth 3
    assert_eq!(
        worker.principal_variation_search(&mut game, 0, 1, MIN_ALPHA_BOUND, MAX_BETA_BOUND, 0, false),
        Ok((3, WorkerNode::Searched))
    );
    assert_eq!(worker.statistics.special_patch_extensions, 1);

    let mut game = two_ply_game();
    game.special_patch[1] = true;
    let mut worker = Worker::<true, 3>::new(settings());
    assert_eq!(
        worker.principal_variation_search(&mut game, 0, 1, MIN_ALPHA_BOUND, MAX_BETA_BOUND, 0, false),
        Ok((0, WorkerNode::Searched))
    );
}

#[test]
fn worker_errors_of_the_game_are_passed_on() {
    let mut game = two_ply_game();
    game.failing_action = Some(2);
    let mut worker = Worker::<true, 3>::new(settings());
    assert_eq!(
        worker.principal_variation_search(&mut game, 0, 2, MIN_ALPHA_BOUND, MAX_BETA_BOUND, 0, false),
        Err("invalid action 2".to_string())
    );
}

#[test]
fn worker_iterative_deepening_without_aspiration_windows() {
    let mut game = two_ply_game();
    let mut worker = Worker::<true, 3>::new(settings());
    let mut window = IterationWindow::initial(false, -30, 30, 10);
    assert_eq!(worker.search_iteration(&mut game, &mut window), Ok(WorkerIteration::NextDepth(0)));
    assert_eq!(window, IterationWindow { alpha: MIN_ALPHA_BOUND, beta: MAX_BETA_BOUND, delta: 10, depth: 2 });
    assert_eq!(worker.search_iteration(&mut game, &mut window), Ok(WorkerIteration::NextDepth(5)));
    assert_eq!(window.depth, 3);
    assert_eq!(worker.best, Some((action(3), 5)));
    assert_eq!(game.iterations, vec![1, 2]);
    // the statistics of the last iteration moved to the previous iteration
    assert_eq!(worker.statistics.nodes_searched, 0);
    assert!(worker.statistics.nodes_searched_previous_iteration > 0);
    // the end of the search reports once more and hands out the result
    assert_eq!(worker.finish_search(&mut game, 3), Some((action(3), 5)));
    assert_eq!(worker.best, None);
    assert_eq!(game.iterations, vec![1, 2, 3]);
}

#[test]
fn worker_iterative_deepening_with_aspiration_windows() {
    let mut game = two_ply_game();
    let mut aspiring = settings();
    aspiring.variant.aspiration_windows = true;
    let mut worker = Worker::<true, 3>::new(aspiring);
    let mut window = IterationWindow::initial(true, -30, 30, 10);
    assert_eq!(window, IterationWindow { alpha: -30, beta: 30, delta: 10, depth: 1 });
    assert_eq!(worker.search_iteration(&mut game, &mut window), Ok(WorkerIteration::NextDepth(0)));
    // the window is set around the evaluation
    assert_eq!(window, IterationWindow { alpha: -10, beta: 10, delta: 10, depth: 2 });
    assert_eq!(worker.search_iteration(&mut game, &mut window), Ok(WorkerIteration::NextDepth(5)));
    assert_eq!(window, IterationWindow { alpha: -5, beta: 15, delta: 10, depth: 3 });
}

#[test]
fn worker_failed_aspiration_windows_search_again() {
    let mut aspiring = settings();
    aspiring.variant.aspiration_windows = true;

    // fail-high: the value 5 lies above the window
    let mut game = two_ply_game();
    let mut worker = Worker::<true, 3>::new(aspiring);
    let mut window = IterationWindow { alpha: -30, beta: 3, delta: 10, depth: 2 };
    assert_eq!(worker.search_iteration(&mut game, &mut window), Ok(WorkerIteration::SearchAgain(3)));
    assert_eq!(window, IterationWindow { alpha: -30, beta: 13, delta: 13, depth: 2 });
    assert_eq!(worker.statistics.aspiration_window_fail_high, 1);
    assert_eq!(worker.statistics.aspiration_window_fail_low, 0);
    // the result of the failed search is dropped
    assert_eq!(worker.best, None);
    assert_eq!(worker.search_iteration(&mut game, &mut window), Ok(WorkerIteration::NextDepth(5)));

    // fail-low: the value 5 lies below the window
    let mut game = two_ply_game();
    let mut worker = Worker::<true, 3>::new(aspiring);
    let mut window = IterationWindow { alpha: 6, beta: 30, delta: 10, depth: 2 };
    assert_eq!(worker.search_iteration(&mut game, &mut window), Ok(WorkerIteration::SearchAgain(6)));
    assert_eq!(window, IterationWindow { alpha: -4, beta: 18, delta: 13, depth: 2 });
    assert_eq!(worker.statistics.aspiration_window_fail_low, 1);
    assert_eq!(worker.best, None);
}

#[test]
fn worker_stops_at_a_win() {
    // the only child is a leaf won by the first player
    let mut game = WorkerTree::new(vec![vec![1], vec![]], vec![0, 1_000_000]);
    let mut worker = Worker::<true, 3>::new(settings());
    let mut window = IterationWindow::initial(false, -30, 30, 10);
    assert_eq!(worker.search_iteration(&mut game, &mut window), Ok(WorkerIteration::Won));
    assert_eq!(window, IterationWindow::initial(false, -30, 30, 10));
    assert_eq!(worker.best, Some((action(1), 1_000_000)));
    assert!(game.iterations.is_empty());
}

#[test]
fn worker_canceled_iteration_keeps_the_previous_result() {
    let mut game = two_ply_game();
    let mut worker = Worker::<true, 3>::new(settings());
    let mut window = IterationWindow::initial(false, -30, 30, 10);
    assert_eq!(worker.search_iteration(&mut game, &mut window), Ok(WorkerIteration::NextDepth(0)));
    let before = window;
    game.canceled = true;
    assert_eq!(worker.search_iteration(&mut game, &mut window), Ok(WorkerIteration::Canceled));
    assert_eq!(window, before);
    assert_eq!(worker.best, Some((action(1), 0)));
}

#[test]
fn worker_fail_hard_keeps_every_value_in_the_window() {
    // the root is a finished game worth 7 for the first player
    let mut game = WorkerTree::new(vec![vec![]], vec![7]);
    let mut worker = Worker::<true, 3>::new(settings());
    assert_eq!(
        worker.principal_variation_search(&mut game, 0, 1, -2, 2, 0, false),
        Ok((2, WorkerNode::Leaf))
    );
    assert_eq!(
        worker.principal_variation_search(&mut game, 0, 1, 9, 12, 0, false),
        Ok((9, WorkerNode::Leaf))
    );

    let mut soft = settings();
    soft.variant.soft_failing_strategy = true;
    let mut worker = Worker::<true, 3>::new(soft);
    assert_eq!(
        worker.principal_variation_search(&mut game, 0, 1, -2, 2, 0, false),
        Ok((7, WorkerNode::Leaf))
    );
}

#[test]
fn worker_iterations_go_on_until_a_stop() {
    let deep = IterationWindow { alpha: -10, beta: 10, delta: 10, depth: 125 };
    let last = IterationWindow { depth: 126, ..deep };
    assert!(WorkerIteration::NextDepth(3).continues(&deep));
    assert!(WorkerIteration::SearchAgain(3).continues(&deep));
    assert!(!WorkerIteration::NextDepth(3).continues(&last));
    assert!(!WorkerIteration::Canceled.continues(&deep));
    assert!(!WorkerIteration::Won.continues(&deep));
    assert!(!WorkerIteration::OutOfRange.continues(&deep));
}

#[test]
fn worker_asks_the_table_with_the_window_and_depth() {
    let mut enabled = settings();
    enabled.variant.symmetry_type = 'e';
    let mut game = two_ply_game();
    game.table_answer = Some((action(2), 42));
    let mut worker = Worker::<true, 3>::new(enabled);
    // the answer lies above the fail-hard window: beta is returned
    assert_eq!(
        worker.principal_variation_search(&mut game, 0, 2, -7, 9, 0, false),
        Ok((9, WorkerNode::TableHit))
    );
    assert_eq!(game.probes, vec![(-7, 9, 2)]);

    let mut game = two_ply_game();
    let mut worker = Worker::<true, 3>::new(enabled);
    assert_eq!(
        worker.principal_variation_search(&mut game, 0, 2, MIN_ALPHA_BOUND, MAX_BETA_BOUND, 0, false),
        Ok((5, WorkerNode::Searched))
    );
    assert_eq!(game.probes[0], (MIN_ALPHA_BOUND, MAX_BETA_BOUND, 2));

    // without a table nothing is asked
    let mut game = two_ply_game();
    let mut worker = Worker::<true, 3>::new(settings());
    let _ = worker.principal_variation_search(&mut game, 0, 2, MIN_ALPHA_BOUND, MAX_BETA_BOUND, 0, false);
    assert!(game.probes.is_empty());
}
