use patchwork_search::patchwork_pvs::{
    AspirationWindow, IterationEnd, PvsSearch, SearchDiagnostics, SearchPosition, SearchedBy,
};
use patchwork_search::transposition_table::EvaluationType;
use patchwork_search::ActionId;

/// A position in a game given as an explicit tree: an action is the index
/// of the child it leads to, and each node has an evaluation for the player
/// to move there. The table remembers exact evaluations by node.
struct TreePosition {
    children: Vec<Vec<usize>>,
    values: Vec<isize>,
    path: Vec<usize>,
    canceled: bool,
    table: Vec<Option<(usize, isize, EvaluationType, ActionId)>>,
    special: Vec<usize>,
}

impl TreePosition {
    fn new(children: Vec<Vec<usize>>, values: Vec<isize>) -> Self {
        let table = vec![None; children.len()];
        TreePosition { children, values, path: vec![0], canceled: false, table, special: vec![] }
    }

    fn current(&self) -> usize {
        *self.path.last().unwrap()
    }
}

impl SearchPosition for TreePosition {
    type Error = String;

    fn search_canceled(&self) -> bool {
        self.canceled
    }

    fn cancel_search(&mut self) {
        self.canceled = true;
    }

    fn probe_table(&mut self, _alpha: isize, _beta: isize, depth: usize) -> Option<(ActionId, isize)> {
        match self.table[self.current()] {
            Some((stored_depth, evaluation, EvaluationType::Exact, action)) if stored_depth >= depth => {
                Some((action, evaluation))
            }
            _ => None,
        }
    }

    fn probe_pv_move(&mut self) -> Option<ActionId> {
        self.table[self.current()].map(|(_, _, _, action)| action)
    }

    fn store_in_table(&mut self, depth: usize, evaluation: isize, evaluation_type: EvaluationType, action: ActionId) {
        let current = self.current();
        self.table[current] = Some((depth, evaluation, evaluation_type, action));
    }

    fn is_terminated(&self) -> bool {
        self.children[self.current()].is_empty()
    }

    fn valid_actions(&self) -> Vec<ActionId> {
        self.children[self.current()].iter().map(|child| ActionId::from_bits(*child as u32)).collect()
    }

    fn random_action(&mut self) -> ActionId {
        self.valid_actions()[0]
    }

    fn sort_actions(&mut self, actions: &mut Vec<ActionId>, pv_action: Option<ActionId>) {
        if let Some(pv) = pv_action {
            if let Some(index) = actions.iter().position(|action| *action == pv) {
                let action = actions.remove(index);
                actions.insert(0, action);
            }
        }
    }

    fn do_action(&mut self, action: ActionId) -> Result<(), String> {
        self.path.push(action.as_bits() as usize);
        Ok(())
    }

    fn undo_action(&mut self, _action: ActionId) -> Result<(), String> {
        self.path.pop();
        Ok(())
    }

    fn is_special_patch_turn(&self) -> bool {
        self.special.contains(&self.current())
    }

    fn evaluate(&mut self) -> Result<isize, String> {
        Ok(self.values[self.current()])
    }

    fn null_action(&self) -> ActionId {
        ActionId::from_bits(0)
    }

    fn iteration_finished(&mut self, _depth: usize, _diagnostics: &SearchDiagnostics) {}
}

/// Root 0 with children 1, 2, 3; their leaves hold values for the root
/// player, who moves again at the leaves.
fn two_ply_position() -> TreePosition {
    let children = vec![
        vec![1, 2, 3],
        vec![4, 5],
        vec![6, 7],
        vec![8, 9],
        vec![],
        vec![],
        vec![],
        vec![],
        vec![],
        vec![],
    ];
    let values = vec![0, 0, 0, 0, 3, 12, 8, 2, 14, 5];
    TreePosition::new(children, values)
}

#[test]
fn first_player_search_finds_the_negamax_value() {
    let mut position = two_ply_position();
    let mut search = PvsSearch::new(SearchDiagnostics::default());
    assert_eq!(
        search.principal_variation_search(&mut position, 0, 2, -1_000_000, 1_000_000, 0),
        Ok((5, SearchedBy::Actions))
    );
    assert_eq!(search.best_action, Some(ActionId::from_bits(3)));
    assert_eq!(search.best_evaluation, Some(5));
    assert_eq!(position.table[0], Some((2, 5, EvaluationType::Exact, ActionId::from_bits(3))));
    // a second search is answered by the table
    assert_eq!(
        search.principal_variation_search(&mut position, 0, 2, -1_000_000, 1_000_000, 0),
        Ok((5, SearchedBy::TableHit))
    );
}

#[test]
fn first_player_zero_window_search() {
    let mut position = two_ply_position();
    let mut search = PvsSearch::new(SearchDiagnostics::default());
    assert_eq!(search.zero_window_search(&mut position, 2, 5), Ok((5, SearchedBy::Actions)));
    assert_eq!(search.zero_window_search(&mut position, 2, 6), Ok((5, SearchedBy::Actions)));
}

#[test]
fn special_patches_extend_the_search() {
    // root 0 -> 1 (special patch turn) -> 2 -> leaf 3, and root 0 -> leaf 4;
    // depth 1 reaches node 1 only, but the extension searches one ply deeper
    let children = vec![vec![1, 4], vec![2], vec![3], vec![], vec![]];
    let values = vec![0, 100, 100, 7, 50];
    let mut position = TreePosition::new(children, values);
    position.special = vec![1];
    let mut search = PvsSearch::new(SearchDiagnostics::default());
    let (value, by) = search.principal_variation_search(&mut position, 1, 1, -1_000_000, 1_000_000, 0).unwrap();
    assert_eq!(by, SearchedBy::Actions);
    // node 1 alone is worth 100 to the opponent, but the extension sees node
    // 2 worth 100 to the root player, which beats the 50 lost at leaf 4
    assert_eq!(value, 100);
    assert_eq!(search.diagnostics.special_patch_extensions, 1);
}

#[test]
fn first_player_iterations() {
    let mut position = two_ply_position();
    let mut search = PvsSearch::new(SearchDiagnostics::default());
    let mut window = AspirationWindow::initial();
    assert_eq!(search.search_iteration(&mut position, &mut window), Ok(IterationEnd::NextDepth(0)));
    assert_eq!(window, AspirationWindow { alpha: -1, beta: 1, delta: 1, depth: 2 });
    let mut again = 0;
    loop {
        match search.search_iteration(&mut position, &mut window).unwrap() {
            IterationEnd::SearchAgain(_) => again += 1,
            IterationEnd::NextDepth(evaluation) => {
                assert_eq!(evaluation, 5);
                break;
            }
            other => panic!("unexpected end of the iteration: {other:?}"),
        }
    }
    assert!(again > 0);
    assert_eq!(window.depth, 3);
    assert_eq!(search.best_action, Some(ActionId::from_bits(3)));
}
