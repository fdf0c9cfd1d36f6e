use vstd::prelude::*;

use crate::action_id::ActionId;
use crate::evaluation_bounds::POSITIVE_INFINITY;
use crate::evaluation_bounds::div_toward_zero;
use crate::principal_variation_search::search_decisions::{
    get_search_extension, next_search_window, search_outcome, search_window_updatable,
    NodeSearch, NodeVerdict, SearchOutcome, SearchWindow, LMR_FULL_DEPTH_ACTIONS, LMR_REDUCED_BY_DEPTH,
    LMR_REDUCTION_LIMIT, MAX_DEPTH, MAX_SEARCH_EXTENSIONS,
};
use crate::lazy_smp_pvs::{
    best_child_action, maximum_evaluation, negated_children, table_missed, table_stored,
};
use crate::principal_variation_search::search_diagnostics::SearchDiagnostics;
use crate::transposition_table::EvaluationType;

verus! {

/// What the search needs of the game it searches and of its surroundings:
/// the position with its actions, the evaluator, the action sorter, the
/// transposition table (when there is one) and the flag that cancels the
/// search. Nothing is assumed of what these answer.
pub trait SearchGame {
    /// The errors of playing an action.
    type Error;

    /// Whether the search was canceled (the time is up).
    fn search_canceled(&self) -> bool;

    /// Cancels the search.
    fn cancel_search(&mut self);

    /// The answer of the transposition table for the position and the
    /// window, if there is a table and it decides the window.
    fn probe_table(&mut self, alpha: i32, beta: i32, depth: usize) -> Option<(ActionId, i32)>;

    /// The best action stored in the transposition table for the position.
    fn probe_pv_move(&mut self) -> Option<ActionId>;

    /// Stores an evaluation of the position in the transposition table (with
    /// its symmetries), if there is a table.
    fn store_in_table(&mut self, depth: usize, evaluation: i32, evaluation_type: EvaluationType, action: ActionId);

    /// Whether the game is over.
    fn is_terminated(&self) -> bool;

    /// The valid actions in the position.
    fn valid_actions(&self) -> Vec<ActionId>;

    /// A random valid action in the position.
    fn random_action(&mut self) -> ActionId;

    /// Orders the actions, the principal variation action first.
    fn sort_actions(&mut self, actions: &mut Vec<ActionId>, pv_action: Option<ActionId>);

    /// Plays an action.
    fn do_action(&mut self, action: ActionId) -> Result<(), Self::Error>;

    /// Takes an action back.
    fn undo_action(&mut self, action: ActionId) -> Result<(), Self::Error>;

    /// Whether the player to move places a special patch (or is in the
    /// phantom turn before it).
    fn is_special_patch_turn(&self) -> bool;

    /// The evaluation of the position for the player to move (a phantom
    /// turn is played first).
    fn evaluate(&mut self) -> Result<i32, Self::Error>;

    /// The action stored for a position where no action raised alpha.
    fn phantom_action(&self) -> ActionId;

    /// Called after each finished iteration of the iterative deepening with
    /// its depth and the diagnostics of the search.
    fn iteration_finished(&mut self, depth: usize, diagnostics: &SearchDiagnostics);
}

/// The largest magnitude of a bound of a search window: windows and
/// their negations then stay inside `i32`.
pub const WINDOW_LIMIT: i32 = 2_147_483_646;

/// How the search of a node came to its value.
#[derive(Copy, Clone, Debug, PartialEq, Eq, Hash, Structural)]
pub enum NodeResult {
    /// The search was canceled; the value is 0.
    Canceled,
    /// The transposition table answered.
    TableHit,
    /// The depth was used up or the game is over: the position was
    /// evaluated.
    Leaf,
    /// The root had a single action, which is played right away.
    SingleAction,
    /// The actions of the node were searched.
    Searched,
}

/// The negation of an evaluation, wrapping at `i32::MIN` as Rust's
/// release builds negate.
pub open spec fn negated(value: i32) -> i32 {
    if value == i32::MIN {
        i32::MIN
    } else {
        (-value) as i32
    }
}

fn negate(value: i32) -> (negation: i32)
    ensures
        negation == negated(value),
{
    if value == i32::MIN {
        value
    } else {
        -value
    }
}

/// Counts a searched node, saturating at the largest count.
fn count_node(diagnostics: &mut SearchDiagnostics)
    ensures
        old(diagnostics).nodes_searched < usize::MAX ==> *final(diagnostics) == (SearchDiagnostics {
            nodes_searched: (old(diagnostics).nodes_searched + 1) as usize,
            ..*old(diagnostics)
        }),
        old(diagnostics).nodes_searched == usize::MAX ==> *final(diagnostics) == *old(diagnostics),
{
    if diagnostics.nodes_searched < usize::MAX {
        diagnostics.increment_nodes_searched();
    }
}

/// Counts a zero window search, saturating at the largest count.
fn count_zero_window_search(diagnostics: &mut SearchDiagnostics)
    ensures
        old(diagnostics).zero_window_search < usize::MAX ==> *final(diagnostics) == (SearchDiagnostics {
            zero_window_search: (old(diagnostics).zero_window_search + 1) as usize,
            ..*old(diagnostics)
        }),
        old(diagnostics).zero_window_search == usize::MAX ==> *final(diagnostics) == *old(diagnostics),
{
    if diagnostics.zero_window_search < usize::MAX {
        diagnostics.increment_zero_window_search();
    }
}

/// Counts a failed zero window search, saturating at the largest count.
fn count_zero_window_search_fail(diagnostics: &mut SearchDiagnostics)
    ensures
        old(diagnostics).zero_window_search_fail < usize::MAX ==> *final(diagnostics) == (SearchDiagnostics {
            zero_window_search_fail: (old(diagnostics).zero_window_search_fail + 1) as usize,
            ..*old(diagnostics)
        }),
        old(diagnostics).zero_window_search_fail == usize::MAX ==> *final(diagnostics) == *old(diagnostics),
{
    if diagnostics.zero_window_search_fail < usize::MAX {
        diagnostics.increment_zero_window_search_fail();
    }
}

/// The principal variation search with the features of the configurable
/// player: fail-hard alpha-beta with principal variation and zero window
/// searches, late move reductions, search extensions for special patches,
/// the transposition table and aspiration windows.
pub struct Searcher {
    /// The diagnostics of the search.
    pub diagnostics: SearchDiagnostics,
    /// Whether special patch placements extend the search.
    pub search_extensions: bool,
    /// Whether aspiration windows are used.
    pub aspiration_window: bool,
    /// The best action found so far at the root.
    pub best_action: Option<ActionId>,
    /// The evaluation of the best action found so far at the root.
    pub best_evaluation: Option<i32>,
    /// The actions the searcher played in the game and did not take back
    /// yet.
    pub played: Ghost<Seq<ActionId>>,
    /// The children of the node whose actions were searched last (up to
    /// the one that reached beta, if one did): each action with the value
    /// its search returned.
    pub searched_children: Ghost<Seq<(ActionId, i32)>>,
    /// Whether the game answered the last check of the cancel flag with yes.
    pub cancel_seen: Ghost<bool>,
    /// The last lookup in the transposition table: the window and the depth
    /// handed to it and its answer.
    pub last_probe: Ghost<Option<(i32, i32, usize, Option<(ActionId, i32)>)>>,
    /// The last evaluation handed to the transposition table: the depth, the
    /// evaluation, its type and the action.
    pub last_store: Ghost<Option<(usize, i32, EvaluationType, ActionId)>>,
}

/// Whether a lookup was handed the window `[alpha, beta]` and `depth`, and
/// answered with the evaluation `value`.
pub open spec fn table_answered(
    probe: Option<(i32, i32, usize, Option<(ActionId, i32)>)>,
    alpha: i32,
    beta: i32,
    depth: usize,
    value: i32,
) -> bool {
    &&& probe is Some
    &&& probe.unwrap().0 == alpha
    &&& probe.unwrap().1 == beta
    &&& probe.unwrap().2 == depth
    &&& probe.unwrap().3 is Some
    &&& probe.unwrap().3.unwrap().1 == value
}

/// The fail-hard value of a node over the evaluations of its children (as
/// the node sees them): the largest of alpha and the evaluations, brought
/// down to beta.
pub open spec fn fail_hard_value(alpha: i32, beta: i32, evaluations: Seq<(ActionId, i32)>) -> i32 {
    if maximum_evaluation(alpha, evaluations) >= beta {
        beta
    } else {
        maximum_evaluation(alpha, evaluations)
    }
}

impl Searcher {
    /// A searcher with fresh diagnostics and no best action.
    pub fn new(diagnostics: SearchDiagnostics, search_extensions: bool, aspiration_window: bool) -> (searcher: Self)
        ensures
            searcher.diagnostics == diagnostics,
            searcher.search_extensions == search_extensions,
            searcher.aspiration_window == aspiration_window,
            searcher.best_action is None,
            searcher.best_evaluation is None,
            searcher.played@ == Seq::<ActionId>::empty(),
            searcher.searched_children@ == Seq::<(ActionId, i32)>::empty(),
            searcher.last_probe@ is None,
            searcher.last_store@ is None,
    {
        Searcher {
            diagnostics,
            search_extensions,
            aspiration_window,
            best_action: None,
            best_evaluation: None,
            played: Ghost(Seq::empty()),
            searched_children: Ghost(Seq::empty()),
            cancel_seen: Ghost(false),
            last_probe: Ghost(None),
            last_store: Ghost(None),
        }
    }

    /// Asks the game whether the search was canceled, and notes the answer.
    fn canceled<G: SearchGame>(&mut self, game: &G) -> (canceled: bool)
        ensures
            final(self).cancel_seen@ == canceled,
            final(self).diagnostics == old(self).diagnostics,
            final(self).search_extensions == old(self).search_extensions,
            final(self).aspiration_window == old(self).aspiration_window,
            final(self).best_action == old(self).best_action,
            final(self).best_evaluation == old(self).best_evaluation,
            final(self).played == old(self).played,
            final(self).last_probe == old(self).last_probe,
            final(self).last_store == old(self).last_store,
    {
        let canceled = game.search_canceled();
        proof {
            self.cancel_seen@ = canceled;
        }
        canceled
    }

    /// Looks the position up in the transposition table with the window
    /// and the depth, and notes what was handed over and the answer.
    fn probe<G: SearchGame>(&mut self, game: &mut G, alpha: i32, beta: i32, depth: usize) -> (answer: Option<(ActionId, i32)>)
        ensures
            final(self).last_probe@ == Some((alpha, beta, depth, answer)),
            final(self).diagnostics == old(self).diagnostics,
            final(self).search_extensions == old(self).search_extensions,
            final(self).aspiration_window == old(self).aspiration_window,
            final(self).best_action == old(self).best_action,
            final(self).best_evaluation == old(self).best_evaluation,
            final(self).played == old(self).played,
            final(self).last_store == old(self).last_store,
            final(self).cancel_seen == old(self).cancel_seen,
    {
        let answer = game.probe_table(alpha, beta, depth);
        proof {
            self.last_probe@ = Some((alpha, beta, depth, answer));
        }
        answer
    }

    /// Stores an evaluation of the position in the transposition table, and
    /// notes what was handed over.
    fn store<G: SearchGame>(
        &mut self,
        game: &mut G,
        depth: usize,
        evaluation: i32,
        evaluation_type: EvaluationType,
        action: ActionId,
    )
        ensures
            final(self).last_store@ == Some((depth, evaluation, evaluation_type, action)),
            final(self).diagnostics == old(self).diagnostics,
            final(self).search_extensions == old(self).search_extensions,
            final(self).aspiration_window == old(self).aspiration_window,
            final(self).best_action == old(self).best_action,
            final(self).best_evaluation == old(self).best_evaluation,
            final(self).played == old(self).played,
            final(self).last_probe == old(self).last_probe,
            final(self).cancel_seen == old(self).cancel_seen,
            final(self).searched_children == old(self).searched_children,
    {
        game.store_in_table(depth, evaluation, evaluation_type, action);
        proof {
            self.last_store@ = Some((depth, evaluation, evaluation_type, action));
        }
    }

    /// Plays an action in the game; an action that was played is noted as
    /// played.
    fn play<G: SearchGame>(&mut self, game: &mut G, action: ActionId) -> (result: Result<(), G::Error>)
        ensures
            result is Ok ==> final(self).played@ == old(self).played@.push(action),
            result is Err ==> final(self).played@ == old(self).played@,
            final(self).diagnostics == old(self).diagnostics,
            final(self).search_extensions == old(self).search_extensions,
            final(self).aspiration_window == old(self).aspiration_window,
            final(self).best_action == old(self).best_action,
            final(self).best_evaluation == old(self).best_evaluation,
    {
        let result = game.do_action(action);
        if result.is_ok() {
            proof {
                self.played@ = self.played@.push(action);
            }
        }
        result
    }

    /// Takes the action played last back in the game; an action that was
    /// taken back is no longer noted as played.
    fn take_back<G: SearchGame>(&mut self, game: &mut G, action: ActionId) -> (result: Result<(), G::Error>)
        requires
            old(self).played@.len() > 0,
            old(self).played@.last() == action,
        ensures
            result is Ok ==> final(self).played@ == old(self).played@.drop_last(),
            result is Err ==> final(self).played@ == old(self).played@,
            final(self).diagnostics == old(self).diagnostics,
            final(self).search_extensions == old(self).search_extensions,
            final(self).aspiration_window == old(self).aspiration_window,
            final(self).best_action == old(self).best_action,
            final(self).best_evaluation == old(self).best_evaluation,
    {
        let result = game.undo_action(action);
        if result.is_ok() {
            proof {
                self.played@ = self.played@.drop_last();
            }
        }
        result
    }

    /// The search extension of the position after an action, counted in
    /// the diagnostics while the count has room.
    fn extension<G: SearchGame>(&mut self, game: &G, num_extensions: usize) -> (extension: usize)
        ensures
            extension <= 1,
            extension == 1 ==> num_extensions < MAX_SEARCH_EXTENSIONS,
            final(self).search_extensions == old(self).search_extensions,
            final(self).aspiration_window == old(self).aspiration_window,
            final(self).best_action == old(self).best_action,
            final(self).best_evaluation == old(self).best_evaluation,
            extension == 1 ==> old(self).search_extensions,
            extension == 1 && old(self).diagnostics.special_patch_extensions < usize::MAX
                ==> final(self).diagnostics == (SearchDiagnostics {
                special_patch_extensions: (old(self).diagnostics.special_patch_extensions + 1) as usize,
                ..old(self).diagnostics
            }),
            !(extension == 1 && old(self).diagnostics.special_patch_extensions < usize::MAX)
                ==> final(self).diagnostics == old(self).diagnostics,
            final(self).played == old(self).played,
    {
        let special_patch_turn = game.is_special_patch_turn();
        if self.diagnostics.special_patch_extensions < usize::MAX {
            get_search_extension(&mut self.diagnostics, self.search_extensions, num_extensions, special_patch_turn)
        } else if self.search_extensions && num_extensions < MAX_SEARCH_EXTENSIONS && special_patch_turn {
            1
        } else {
            0
        }
    }

    /// The evaluation of a leaf, counted as a searched node.
    fn evaluation<G: SearchGame>(&mut self, game: &mut G) -> (result: Result<i32, G::Error>)
        ensures
            final(self).search_extensions == old(self).search_extensions,
            final(self).aspiration_window == old(self).aspiration_window,
            final(self).best_action == old(self).best_action,
            final(self).best_evaluation == old(self).best_evaluation,
            old(self).diagnostics.nodes_searched < usize::MAX ==> final(self).diagnostics == (SearchDiagnostics {
                nodes_searched: (old(self).diagnostics.nodes_searched + 1) as usize,
                ..old(self).diagnostics
            }),
            old(self).diagnostics.nodes_searched == usize::MAX ==> final(self).diagnostics == old(self).diagnostics,
            final(self).played == old(self).played,
            final(self).last_probe == old(self).last_probe,
            final(self).last_store == old(self).last_store,
            final(self).cancel_seen == old(self).cancel_seen,
    {
        count_node(&mut self.diagnostics);
        game.evaluate()
    }

    /// The fail-hard zero window search with the window `[beta - 1, beta]`:
    /// a searched node returns either `beta - 1` or `beta`.
    pub fn zero_window_search<G: SearchGame>(&mut self, game: &mut G, depth: usize, beta: i32) -> (result: Result<(i32, NodeResult), G::Error>)
        requires
            -WINDOW_LIMIT <= beta <= WINDOW_LIMIT + 1,
        ensures
            result matches Ok((value, NodeResult::Searched)) ==> value == beta || value == beta - 1,
            result matches Ok((value, NodeResult::Canceled)) ==> value == 0,
            result matches Ok((_, kind)) ==> kind is Canceled || kind is Leaf || kind is Searched,
            final(self).search_extensions == old(self).search_extensions,
            final(self).aspiration_window == old(self).aspiration_window,
            final(self).best_action == old(self).best_action,
            final(self).best_evaluation == old(self).best_evaluation,
            result is Ok ==> final(self).played@ == old(self).played@,
            result matches Ok((_, NodeResult::Canceled)) ==> final(self).cancel_seen@,
            result matches Ok((_, NodeResult::Leaf)) ==> !final(self).cancel_seen@,
        decreases depth, 0usize,
    {
        if self.canceled(game) {
            return Ok((0, NodeResult::Canceled));
        }

        if depth == 0 || game.is_terminated() {
            let evaluation = self.evaluation(game)?;
            return Ok((evaluation, NodeResult::Leaf));
        }

        count_node(&mut self.diagnostics);

        let actions = game.valid_actions();
        let mut i: usize = 0;
        while i < actions.len()
            invariant
                self.played@ == old(self).played@,
                0 < depth,
                -WINDOW_LIMIT <= beta <= WINDOW_LIMIT + 1,
                self.search_extensions == old(self).search_extensions,
                self.aspiration_window == old(self).aspiration_window,
                self.best_action == old(self).best_action,
                self.best_evaluation == old(self).best_evaluation,
            decreases actions.len() - i,
        {
            let action = actions[i];
            self.play(game, action)?;

            // do not apply search extensions in the zero window search
            let (child, _) = self.zero_window_search(game, depth - 1, 1 - beta)?;
            let evaluation = negate(child);

            self.take_back(game, action)?;
            proof {
                assert(old(self).played@.push(action).drop_last() =~= old(self).played@);
            }

            if evaluation >= beta {
                return Ok((beta, NodeResult::Searched));  // fail-hard beta-cutoff
            }
            i += 1;
        }
        Ok((beta - 1, NodeResult::Searched))  // fail-hard, return alpha
    }

    /// The principal variation search of a node with the window
    /// `[alpha, beta]` at `depth` plies (plus search extensions) below the
    /// node, which lies `ply_from_root` plies below the root.
    ///
    /// Fail-hard: a searched node returns beta, alpha or a value between
    /// them. At the root the best action and its evaluation are kept.
    ///
    /// The transposition table is asked with the window and the depth, and
    /// its answer is returned as it is. Otherwise a cut-off stores beta as a
    /// lower bound with the action that reached it, and a searched node
    /// stores its value (exact above alpha, an upper bound otherwise) with
    /// the action of its best child (the phantom action when no child raised
    /// alpha).
    #[verifier::rlimit(60)]
    #[verifier::spinoff_prover]
    pub fn principal_variation_search<G: SearchGame>(
        &mut self,
        game: &mut G,
        ply_from_root: usize,
        depth: usize,
        alpha: i32,
        beta: i32,
        num_extensions: usize,
    ) -> (result: Result<(i32, NodeResult), G::Error>)
        requires
            -WINDOW_LIMIT <= alpha <= WINDOW_LIMIT,
            -WINDOW_LIMIT <= beta <= WINDOW_LIMIT,
            num_extensions <= MAX_SEARCH_EXTENSIONS,
            ply_from_root + depth + (MAX_SEARCH_EXTENSIONS - num_extensions) <= usize::MAX,
        ensures
            result matches Ok((value, NodeResult::Searched)) ==> value == beta || value == alpha || (
            alpha < value < beta),
            result matches Ok((value, NodeResult::Canceled)) ==> value == 0,
            result matches Ok((value, NodeResult::SingleAction)) ==> value == POSITIVE_INFINITY
                && ply_from_root == 0,
            final(self).search_extensions == old(self).search_extensions,
            final(self).aspiration_window == old(self).aspiration_window,
            ply_from_root != 0 ==> final(self).best_action == old(self).best_action
                && final(self).best_evaluation == old(self).best_evaluation,
            alpha < beta ==> (result matches Ok((value, NodeResult::Searched)) ==> value == fail_hard_value(
                alpha,
                beta,
                negated_children(final(self).searched_children@),
            )),
            result is Ok ==> final(self).played@ == old(self).played@,
            result matches Ok((_, NodeResult::Canceled)) ==> final(self).cancel_seen@,
            result matches Ok((_, kind)) ==> (kind !is Canceled ==> !final(self).cancel_seen@),
            result matches Ok((value, NodeResult::TableHit)) ==> table_answered(
                final(self).last_probe@,
                alpha,
                beta,
                depth,
                value,
            ),
            result matches Ok((_, kind)) ==> (kind is Leaf || kind is Searched ==> table_missed(
                final(self).last_probe@,
                alpha,
                beta,
                depth,
            )),
            alpha < beta ==> (result matches Ok((value, NodeResult::Searched)) ==> (value == beta && table_stored(
                final(self).last_store@,
                depth,
                beta,
                EvaluationType::LowerBound,
            ) && final(self).searched_children@.len() > 0 && negated(final(self).searched_children@.last().1)
                >= beta && final(self).last_store@.unwrap().3 == final(self).searched_children@.last().0) || (value
                < beta && (best_child_action(alpha, negated_children(final(self).searched_children@)) matches Some(
                action,
            ) ==> final(self).last_store@.unwrap().3 == action) && table_stored(
                final(self).last_store@,
                depth,
                value,
                if value > alpha {
                    EvaluationType::Exact
                } else {
                    EvaluationType::UpperBound
                },
            ))),
        decreases depth, MAX_SEARCH_EXTENSIONS - num_extensions,
    {
        if self.canceled(game) {
            return Ok((0, NodeResult::Canceled));
        }

        if let Some((table_action, table_evaluation)) = self.probe(game, alpha, beta, depth) {
            if ply_from_root == 0 {
                self.best_action = Some(table_action);
                self.best_evaluation = Some(table_evaluation);
            }
            return Ok((table_evaluation, NodeResult::TableHit));
        }

        let ghost node_probe = self.last_probe@;

        if depth == 0 || game.is_terminated() {
            let evaluation = self.evaluation(game)?;
            return Ok((evaluation, NodeResult::Leaf));
        }

        count_node(&mut self.diagnostics);

        let mut actions = game.valid_actions();

        // shortcut for only one available action
        if actions.len() == 1 && ply_from_root == 0 {
            game.cancel_search();
            self.best_action = Some(actions[0]);
            self.best_evaluation = Some(POSITIVE_INFINITY);
            return Ok((POSITIVE_INFINITY, NodeResult::SingleAction));
        }

        let pv_action = if ply_from_root == 0 {
            match self.best_action {
                Some(best) => Some(best),
                None => game.probe_pv_move(),
            }
        } else {
            game.probe_pv_move()
        };
        game.sort_actions(&mut actions, pv_action);

        let mut node = NodeSearch::start(alpha, beta);
        let ghost mut children: Seq<(ActionId, i32)> = Seq::empty();

        let mut i: usize = 0;
        while i < actions.len()
            invariant
                0 < depth,
                -WINDOW_LIMIT <= alpha <= WINDOW_LIMIT,
                -WINDOW_LIMIT <= beta <= WINDOW_LIMIT,
                node.beta == beta,
                node.alpha == alpha || (alpha < node.alpha < beta),
                node.alpha == maximum_evaluation(alpha, negated_children(children)),
                node.best_action == best_child_action(alpha, negated_children(children)),
                node.evaluation_bound == if node.alpha > alpha {
                    EvaluationType::Exact
                } else {
                    EvaluationType::UpperBound
                },
                table_missed(node_probe, alpha, beta, depth),
                !self.cancel_seen@,
                self.played@ == old(self).played@,
                num_extensions <= MAX_SEARCH_EXTENSIONS,
                ply_from_root + depth + (MAX_SEARCH_EXTENSIONS - num_extensions) <= usize::MAX,
                self.search_extensions == old(self).search_extensions,
                self.aspiration_window == old(self).aspiration_window,
                ply_from_root != 0 ==> self.best_action == old(self).best_action
                    && self.best_evaluation == old(self).best_evaluation,
            decreases actions.len() - i,
        {
            let action = actions[i];

            self.play(game, action)?;

            // extend the depth of the search for special patch placements
            let extension = self.extension(game, num_extensions);

            let mut evaluation: i32 = 0;
            let mut raw: i32 = 0;
            if node.is_pv_node {
                // full window search for the pv node
                let (child, _) = self.principal_variation_search(
                    game,
                    ply_from_root + 1,
                    depth - 1 + extension,
                    negate(beta),
                    negate(node.alpha),
                    num_extensions + extension,
                )?;
                raw = child;
                evaluation = negate(child);
            } else {
                count_zero_window_search(&mut self.diagnostics);
                // late move reductions: search later actions with a reduced
                // depth first (search extensions do not apply there)
                let mut needs_full_search = true;
                if extension == 0 && i >= LMR_FULL_DEPTH_ACTIONS && depth >= LMR_REDUCTION_LIMIT {
                    let (child, _) = self.zero_window_search(
                        game,
                        depth - 1 - LMR_REDUCED_BY_DEPTH,
                        negate(node.alpha),
                    )?;
                    raw = child;
                    evaluation = negate(child);
                    needs_full_search = evaluation > node.alpha;
                }

                if needs_full_search {
                    // null window search
                    let (child, _) = self.zero_window_search(game, depth - 1, negate(node.alpha))?;
                    raw = child;
                    evaluation = negate(child);

                    if evaluation > node.alpha && evaluation < beta {
                        count_zero_window_search_fail(&mut self.diagnostics);
                        // the zero window search failed: search again with the full window
                        let (child, _) = self.principal_variation_search(
                            game,
                            ply_from_root + 1,
                            depth - 1 + extension,
                            negate(beta),
                            negate(node.alpha),
                            num_extensions + extension,
                        )?;
                        raw = child;
                        evaluation = negate(child);
                    }
                }
            }

            self.take_back(game, action)?;
            proof {
                assert(old(self).played@.push(action).drop_last() =~= old(self).played@);
            }

            if self.canceled(game) {
                return Ok((0, NodeResult::Canceled));
            }

            // the fail-high is counted while the counts have room
            let verdict = if evaluation < beta || (self.diagnostics.fail_high < usize::MAX
                && self.diagnostics.fail_high_first < usize::MAX) {
                node.record(&mut self.diagnostics, action, evaluation)
            } else {
                NodeVerdict::BetaCutoff
            };
            proof {
                let before = negated_children(children);
                children = children.push((action, raw));
                assert(negated_children(children) =~= before.push((action, negated(raw))));
                assert(before.push((action, negated(raw))).drop_last() =~= before);
            }
            if verdict == NodeVerdict::BetaCutoff {
                self.store(game, depth, beta, EvaluationType::LowerBound, action);
                proof {
                    self.searched_children@ = children;
                    self.last_probe@ = node_probe;
                }
                return Ok((beta, NodeResult::Searched));  // fail-hard beta-cutoff
            }
            i += 1;
        }

        // a node whose actions all failed low stores the phantom action
        let table_action = node.table_action(game.phantom_action());
        self.store(game, depth, node.alpha, node.evaluation_bound, table_action);

        if ply_from_root == 0 {
            self.best_action = node.best_action;
            self.best_evaluation = Some(node.alpha);
        }
        proof {
            self.searched_children@ = children;
            self.last_probe@ = node_probe;
        }

        Ok((node.alpha, NodeResult::Searched))
    }
}

impl Searcher {
    /// The principal variation line of up to `depth` actions: the action the
    /// transposition table stores for the position, then for the position
    /// after it, and so on, until the table has none. The actions are played
    /// to find the next one and taken back before the line is returned.
    pub fn pv_line<G: SearchGame>(&mut self, game: &mut G, depth: usize) -> (result: Result<Vec<ActionId>, G::Error>)
        ensures
            result matches Ok(line) ==> line@.len() <= depth,
            result is Ok ==> final(self).played@ == old(self).played@,
            final(self).diagnostics == old(self).diagnostics,
            final(self).search_extensions == old(self).search_extensions,
            final(self).aspiration_window == old(self).aspiration_window,
            final(self).best_action == old(self).best_action,
            final(self).best_evaluation == old(self).best_evaluation,
    {
        let mut line: Vec<ActionId> = Vec::new();
        let mut i: usize = 0;
        while i < depth
            invariant
                i <= depth,
                line@.len() == i,
                self.played@ == old(self).played@ + line@,
                self.diagnostics == old(self).diagnostics,
                self.search_extensions == old(self).search_extensions,
                self.aspiration_window == old(self).aspiration_window,
                self.best_action == old(self).best_action,
                self.best_evaluation == old(self).best_evaluation,
            decreases depth - i,
        {
            match game.probe_pv_move() {
                Some(action) => {
                    self.play(game, action)?;
                    line.push(action);
                    assert(self.played@ =~= old(self).played@ + line@);
                },
                None => {
                    break;
                },
            }
            i += 1;
        }

        // take the line back, the last action first
        let mut k: usize = line.len();
        assert(line@.subrange(0, k as int) =~= line@);
        while k > 0
            invariant
                k <= line@.len(),
                self.played@ == old(self).played@ + line@.subrange(0, k as int),
                self.diagnostics == old(self).diagnostics,
                self.search_extensions == old(self).search_extensions,
                self.aspiration_window == old(self).aspiration_window,
                self.best_action == old(self).best_action,
                self.best_evaluation == old(self).best_evaluation,
            decreases k,
        {
            let action = line[k - 1];
            assert(self.played@.last() == action);
            self.take_back(game, action)?;
            k -= 1;
            assert(self.played@ =~= old(self).played@ + line@.subrange(0, k as int));
        }
        assert(self.played@ =~= old(self).played@);
        Ok(line)
    }
}

/// How an iteration of the iterative deepening ended.
#[derive(Copy, Clone, Debug, PartialEq, Eq, Hash, Structural)]
pub enum IterationResult {
    /// The search was canceled: stop with the best action found before.
    Canceled,
    /// The aspiration window failed with this evaluation: search the same
    /// depth again with the widened window.
    SearchAgain(i32),
    /// A win (or the only action) was found: stop searching.
    Won,
    /// The search ended inside the window with this evaluation: go on with
    /// the next depth.
    NextDepth(i32),
    /// The window or the evaluation left the range in which the window can
    /// be computed (the arithmetic would overflow).
    OutOfRange,
}

/// Whether a window can be searched: its bounds lie within the window
/// limit.
pub open spec fn window_searchable(window: SearchWindow) -> bool {
    &&& -WINDOW_LIMIT <= window.alpha <= WINDOW_LIMIT
    &&& -WINDOW_LIMIT <= window.beta <= WINDOW_LIMIT
}

/// Whether the window can be updated after a search that returned
/// `evaluation` (see `search_window_updatable`).
fn window_updatable(window: &SearchWindow, evaluation: i32) -> (updatable: bool)
    ensures
        updatable == search_window_updatable(*window, evaluation),
{
    let third = window.delta / 3;
    assert(third == div_toward_zero(window.delta as int, 3));
    let grown = window.delta as i64 + third as i64;
    let grown_fits = i32::MIN as i64 <= grown && grown <= i32::MAX as i64;
    if evaluation <= window.alpha {
        let sum = window.alpha as i64 + window.beta as i64;
        let lowered = evaluation as i64 - window.delta as i64;
        i32::MIN as i64 <= sum && sum <= i32::MAX as i64 && i32::MIN as i64 <= lowered && lowered
            <= i32::MAX as i64 && grown_fits
    } else if evaluation >= window.beta {
        let raised = evaluation as i64 + window.delta as i64;
        i32::MIN as i64 <= raised && raised <= i32::MAX as i64 && grown_fits
    } else {
        i32::MIN < evaluation && evaluation < i32::MAX && window.depth < usize::MAX
    }
}

impl Searcher {
    /// One iteration of the iterative deepening: searches the root at the
    /// depth of the window and decides how to go on. A failed aspiration
    /// window is widened (and counted) for another search at the same
    /// depth; a search inside the window is reported to the game, stops the
    /// search when the best evaluation is a win, and otherwise sets the
    /// window around the evaluation one depth deeper and starts a new
    /// iteration of the diagnostics.
    pub fn search_iteration<G: SearchGame>(&mut self, game: &mut G, window: &mut SearchWindow) -> (result: Result<IterationResult, G::Error>)
        requires
            old(window).depth < MAX_DEPTH,
        ensures
            result matches Ok(IterationResult::SearchAgain(evaluation)) ==> search_outcome(
                *old(window),
                evaluation,
            ) != SearchOutcome::Inside && *final(window) == next_search_window(*old(window), evaluation),
            result matches Ok(IterationResult::NextDepth(evaluation)) ==> search_outcome(
                *old(window),
                evaluation,
            ) == SearchOutcome::Inside && *final(window) == next_search_window(*old(window), evaluation)
                && final(self).best_evaluation != Some(POSITIVE_INFINITY),
            result matches Ok(IterationResult::Won) ==> *final(window) == *old(window)
                && final(self).best_evaluation == Some(POSITIVE_INFINITY),
            result matches Ok(IterationResult::Canceled) ==> *final(window) == *old(window)
                && final(self).cancel_seen@,
            result matches Ok(iteration) ==> (iteration is SearchAgain || iteration is Won
                || iteration is NextDepth ==> !final(self).cancel_seen@),
            result matches Ok(IterationResult::OutOfRange) ==> *final(window) == *old(window),
            final(self).search_extensions == old(self).search_extensions,
            final(self).aspiration_window == old(self).aspiration_window,
    {
        if !(-WINDOW_LIMIT <= window.alpha && window.alpha <= WINDOW_LIMIT && -WINDOW_LIMIT
            <= window.beta && window.beta <= WINDOW_LIMIT) {
            return Ok(IterationResult::OutOfRange);
        }
        let (evaluation, _) = self.principal_variation_search(game, 0, window.depth, window.alpha, window.beta, 0)?;

        if self.canceled(game) {
            return Ok(IterationResult::Canceled);
        }

        if !window_updatable(window, evaluation) {
            return Ok(IterationResult::OutOfRange);
        }

        if evaluation <= window.alpha || evaluation >= window.beta {
            // the aspiration window failed: search the same depth again
            if self.diagnostics.aspiration_window_fail_low == usize::MAX
                || self.diagnostics.aspiration_window_fail_high == usize::MAX {
                return Ok(IterationResult::OutOfRange);
            }
            window.update(evaluation, &mut self.diagnostics);
            return Ok(IterationResult::SearchAgain(evaluation));
        }

        game.iteration_finished(window.depth, &self.diagnostics);

        if self.best_evaluation == Some(POSITIVE_INFINITY) {
            // a winning line was found or only one action is available
            return Ok(IterationResult::Won);
        }

        window.update(evaluation, &mut self.diagnostics);
        self.diagnostics.reset_iterative_deepening_iteration();
        Ok(IterationResult::NextDepth(evaluation))
    }
}

} // verus!
