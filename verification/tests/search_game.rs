use patchwork_search::principal_variation_search::{
    IterationResult, NodeResult, SearchDiagnostics, SearchGame, SearchWindow, Searcher,
};
use patchwork_search::transposition_table::EvaluationType;
use patchwork_search::ActionId;

/// A game given as an explicit tree: an action is the index of the child it
/// leads to, and each node has an evaluation for the player to move there.
struct TreeGame {
    children: Vec<Vec<usize>>,
    values: Vec<i32>,
    path: Vec<usize>,
    canceled: bool,
    stored: Vec<(usize, i32, EvaluationType, ActionId)>,
    probes: Vec<(i32, i32, usize)>,
    iterations: Vec<usize>,
    failing_action: Option<usize>,
    pv: Vec<Option<usize>>,
}

impl TreeGame {
    fn new(children: Vec<Vec<usize>>, values: Vec<i32>) -> Self {
        let count = children.len();
        TreeGame {
            children,
            values,
            path: vec![0],
            canceled: false,
            stored: vec![],
            probes: vec![],
            iterations: vec![],
            failing_action: None,
            pv: vec![None; count],
        }
    }

    fn current(&self) -> usize {
        *self.path.last().unwrap()
    }
}

impl SearchGame for TreeGame {
    type Error = String;

    fn search_canceled(&self) -> bool {
        self.canceled
    }

    fn cancel_search(&mut self) {
        self.canceled = true;
    }

    fn probe_table(&mut self, alpha: i32, beta: i32, depth: usize) -> Option<(ActionId, i32)> {
        self.probes.push((alpha, beta, depth));
        None
    }

    fn probe_pv_move(&mut self) -> Option<ActionId> {
        self.pv[self.current()].map(|child| ActionId::from_bits(child as u32))
    }

    fn store_in_table(&mut self, depth: usize, evaluation: i32, evaluation_type: EvaluationType, action: ActionId) {
        self.stored.push((depth, evaluation, evaluation_type, action));
    }

    fn is_terminated(&self) -> bool {
        self.children[self.current()].is_empty()
    }

    fn valid_actions(&self) -> Vec<ActionId> {
        self.children[self.current()].iter().map(|child| ActionId::from_bits(*child as u32)).collect()
    }

    fn random_action(&mut self) -> ActionId {
        self.valid_actions()[0]
    }

    fn sort_actions(&mut self, actions: &mut Vec<ActionId>, pv_action: Option<ActionId>) {
        if let Some(pv) = pv_action {
            if let Some(index) = actions.iter().position(|action| *action == pv) {
                let action = actions.remove(index);
                actions.insert(0, action);
            }
        }
    }

    fn do_action(&mut self, action: ActionId) -> Result<(), String> {
        let child = action.as_bits() as usize;
        if self.failing_action == Some(child) || !self.children[self.current()].contains(&child) {
            return Err(format!("invalid action {child}"));
        }
        self.path.push(child);
        Ok(())
    }

    fn undo_action(&mut self, _action: ActionId) -> Result<(), String> {
        self.path.pop();
        Ok(())
    }

    fn is_special_patch_turn(&self) -> bool {
        false
    }

    fn evaluate(&mut self) -> Result<i32, String> {
        Ok(self.values[self.current()])
    }

    fn phantom_action(&self) -> ActionId {
        ActionId::from_bits(0)
    }

    fn iteration_finished(&mut self, depth: usize, _diagnostics: &SearchDiagnostics) {
        self.iterations.push(depth);
    }
}

fn negamax(game: &TreeGame, node: usize, depth: usize) -> i32 {
    if depth == 0 || game.children[node].is_empty() {
        return game.values[node];
    }
    game.children[node].iter().map(|child| -negamax(game, *child, depth - 1)).max().unwrap()
}

/// Root 0 with children 1, 2, 3; their leaves hold values for the player to
/// move at the leaf (the root player again).
fn two_ply_game() -> TreeGame {
    let children = vec![
        vec![1, 2, 3],
        vec![4, 5],
        vec![6, 7],
        vec![8, 9],
        vec![],
        vec![],
        vec![],
        vec![],
        vec![],
        vec![],
    ];
    let values = vec![0, 0, 0, 0, 3, 12, 8, 2, 14, 5];
    TreeGame::new(children, values)
}

fn searcher() -> Searcher {
    Searcher::new(SearchDiagnostics::default(), true, false)
}

#[test]
fn full_window_search_is_negamax() {
    let mut game = two_ply_game();
    let expected = negamax(&game, 0, 2);
    assert_eq!(expected, 5);
    let mut search = searcher();
    let result = search.principal_variation_search(&mut game, 0, 2, -1_000_000, 1_000_000, 0);
    assert_eq!(result, Ok((expected, NodeResult::Searched)));
    // the best root action leads to the third child, whose worst leaf is 5
    assert_eq!(search.best_action, Some(ActionId::from_bits(3)));
    assert_eq!(search.best_evaluation, Some(5));
    assert_eq!(game.path, vec![0]);
    // the root stores its exact value with the best action
    assert_eq!(game.stored.last(), Some(&(2, 5, EvaluationType::Exact, ActionId::from_bits(3))));
}

#[test]
fn fail_hard_values_stay_in_the_window() {
    let mut game = two_ply_game();
    let mut search = searcher();
    // the true value 5 lies above the window: beta is returned
    assert_eq!(search.principal_variation_search(&mut game, 1, 2, -10, 2, 0), Ok((2, NodeResult::Searched)));
    // the true value 5 lies below the window: alpha is returned
    assert_eq!(search.principal_variation_search(&mut game, 1, 2, 6, 10, 0), Ok((6, NodeResult::Searched)));
}

#[test]
fn zero_window_search_answers_beta_or_beta_minus_one() {
    let mut game = two_ply_game();
    let mut search = searcher();
    // the value 5 is at least 3, at least 4 and below 6
    assert_eq!(search.zero_window_search(&mut game, 2, 3), Ok((3, NodeResult::Searched)));
    assert_eq!(search.zero_window_search(&mut game, 2, 4), Ok((4, NodeResult::Searched)));
    assert_eq!(search.zero_window_search(&mut game, 2, 6), Ok((5, NodeResult::Searched)));
    assert_eq!(search.zero_window_search(&mut game, 0, 4), Ok((0, NodeResult::Leaf)));
}

#[test]
fn single_action_is_played_at_once() {
    let mut game = TreeGame::new(vec![vec![1], vec![]], vec![0, 7]);
    let mut search = searcher();
    assert_eq!(
        search.principal_variation_search(&mut game, 0, 3, -1_000_000, 1_000_000, 0),
        Ok((1_000_000, NodeResult::SingleAction))
    );
    assert!(game.canceled);
    assert_eq!(search.best_action, Some(ActionId::from_bits(1)));
}

#[test]
fn canceled_search_returns_zero() {
    let mut game = two_ply_game();
    game.canceled = true;
    let mut search = searcher();
    assert_eq!(
        search.principal_variation_search(&mut game, 0, 2, -1_000_000, 1_000_000, 0),
        Ok((0, NodeResult::Canceled))
    );
}

#[test]
fn errors_of_the_game_are_passed_on() {
    let mut game = TreeGame::new(vec![vec![1, 2], vec![], vec![]], vec![0, 1, 2]);
    let mut search = searcher();
    assert_eq!(
        search.principal_variation_search(&mut game, 1, 1, -1_000_000, 1_000_000, 0),
        Ok((-1, NodeResult::Searched))
    );
    game.failing_action = Some(2);
    assert_eq!(
        search.principal_variation_search(&mut game, 1, 1, -1_000_000, 1_000_000, 0),
        Err("invalid action 2".to_string())
    );
}

#[test]
fn iterative_deepening_steps() {
    let mut game = two_ply_game();
    let mut search = searcher();
    let mut window = SearchWindow::initial(false);
    // depth 1: every child evaluates to 0 for the opponent
    assert_eq!(search.search_iteration(&mut game, &mut window), Ok(IterationResult::NextDepth(0)));
    assert_eq!(window, SearchWindow { alpha: -1, beta: 1, delta: 1, depth: 2 });
    // depth 2: the value 5 fails high until beta lies above it
    for beta in 1..6 {
        assert_eq!(search.search_iteration(&mut game, &mut window), Ok(IterationResult::SearchAgain(beta)));
        assert_eq!(window, SearchWindow { alpha: -1, beta: beta + 1, delta: 1, depth: 2 });
    }
    assert_eq!(search.diagnostics.aspiration_window_fail_high, 5);
    assert_eq!(search.search_iteration(&mut game, &mut window), Ok(IterationResult::NextDepth(5)));
    assert_eq!(window, SearchWindow { alpha: 4, beta: 6, delta: 1, depth: 3 });
    assert_eq!(search.best_action, Some(ActionId::from_bits(3)));
    assert_eq!(game.iterations, vec![1, 2]);
    // a new iteration of the diagnostics started
    assert_eq!(search.diagnostics.aspiration_window_fail_high, 0);
}

#[test]
fn single_action_ends_the_search() {
    let mut game = TreeGame::new(vec![vec![1], vec![]], vec![0, 7]);
    let mut search = searcher();
    let mut window = SearchWindow::initial(true);
    // the root plays its only action at once and cancels the search
    assert_eq!(search.search_iteration(&mut game, &mut window), Ok(IterationResult::Canceled));
    assert_eq!(window, SearchWindow::initial(true));
    assert_eq!(search.best_action, Some(ActionId::from_bits(1)));
    assert_eq!(search.best_evaluation, Some(1_000_000));
}

#[test]
fn principal_variation_line_follows_the_table() {
    let mut game = two_ply_game();
    game.pv[0] = Some(3);
    game.pv[3] = Some(9);
    let mut search = searcher();
    assert_eq!(search.pv_line(&mut game, 5), Ok(vec![ActionId::from_bits(3), ActionId::from_bits(9)]));
    assert_eq!(search.pv_line(&mut game, 1), Ok(vec![ActionId::from_bits(3)]));
    assert_eq!(search.pv_line(&mut game, 0), Ok(vec![]));
    // the position is left as it was
    assert_eq!(game.path, vec![0]);
}

#[test]
fn table_is_asked_with_the_window_and_depth() {
    let mut game = two_ply_game();
    let mut search = searcher();
    assert_eq!(search.principal_variation_search(&mut game, 1, 2, -10, 2, 0), Ok((2, NodeResult::Searched)));
    assert_eq!(game.probes[0], (-10, 2, 2));
    // the first child is searched with the negated window one ply deeper
    assert_eq!(game.probes[1], (-2, 10, 1));
}
