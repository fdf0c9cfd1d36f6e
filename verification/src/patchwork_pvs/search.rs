use vstd::prelude::*;

use crate::action_id::ActionId;
use crate::evaluation_bounds::{div_toward_zero, POSITIVE_INFINITY};
use crate::patchwork_pvs::search_decisions::{
    get_search_extension, next_window, window_outcome, window_updatable, AspirationWindow, ChildOutcome, NodeState,
    WindowOutcome, LMR_FULL_DEPTH_ACTIONS, LMR_REDUCED_BY_DEPTH, LMR_REDUCTION_LIMIT, MAX_DEPTH,
    MAX_SEARCH_EXTENSIONS,
};
use crate::patchwork_pvs::search_diagnostics::SearchDiagnostics;
use crate::transposition_table::EvaluationType;

verus! {

/// What the search needs of the position it searches and of its
/// surroundings: the actions, the evaluator, the action sorter, the
/// transposition table and the flag that cancels the search. Nothing is
/// assumed of what these answer.
pub trait SearchPosition {
    /// The errors of playing an action.
    type Error;

    /// Whether the search was canceled (the time is up).
    fn search_canceled(&self) -> bool;

    /// Cancels the search.
    fn cancel_search(&mut self);

    /// The answer of the transposition table for the position and the
    /// window, if it decides the window.
    fn probe_table(&mut self, alpha: isize, beta: isize, depth: usize) -> Option<(ActionId, isize)>;

    /// The best action stored in the transposition table for the position.
    fn probe_pv_move(&mut self) -> Option<ActionId>;

    /// Stores an evaluation of the position and its symmetries in the
    /// transposition table.
    fn store_in_table(&mut self, depth: usize, evaluation: isize, evaluation_type: EvaluationType, action: ActionId);

    /// Whether the game is over.
    fn is_terminated(&self) -> bool;

    /// The valid actions in the position.
    fn valid_actions(&self) -> Vec<ActionId>;

    /// A random valid action in the position.
    fn random_action(&mut self) -> ActionId;

    /// Orders the actions, the principal variation action first.
    fn sort_actions(&mut self, actions: &mut Vec<ActionId>, pv_action: Option<ActionId>);

    /// Plays an action.
    fn do_action(&mut self, action: ActionId) -> Result<(), Self::Error>;

    /// Takes an action back.
    fn undo_action(&mut self, action: ActionId) -> Result<(), Self::Error>;

    /// Whether the player to move places a special patch (or is in the
    /// phantom turn before it).
    fn is_special_patch_turn(&self) -> bool;

    /// The evaluation of the position for the player to move (a phantom
    /// turn is played first).
    fn evaluate(&mut self) -> Result<isize, Self::Error>;

    /// The action stored for a position where no action raised alpha.
    fn null_action(&self) -> ActionId;

    /// Called after each finished iteration of the iterative deepening with
    /// its depth and the diagnostics of the search.
    fn iteration_finished(&mut self, depth: usize, diagnostics: &SearchDiagnostics);
}

/// The largest magnitude of a bound of a search window: windows and
/// their negations then stay inside `isize`.
pub open spec fn window_limit() -> int {
    isize::MAX - 1
}

/// How the search of a node came to its value.
#[derive(Copy, Clone, Debug, PartialEq, Eq, Hash, Structural)]
pub enum SearchedBy {
    /// The search was canceled; the value is 0.
    Canceled,
    /// The transposition table answered.
    TableHit,
    /// The depth was used up or the game is over: the position was
    /// evaluated.
    Leaf,
    /// The root had a single action, which is played right away.
    SingleAction,
    /// The actions of the node were searched.
    Actions,
}

/// The negation of an evaluation, wrapping at `isize::MIN` as Rust's
/// release builds negate.
pub open spec fn negation(value: isize) -> isize {
    if value == isize::MIN {
        isize::MIN
    } else {
        (-value) as isize
    }
}

fn negate(value: isize) -> (negated: isize)
    ensures
        negated == negation(value),
{
    if value == isize::MIN {
        value
    } else {
        -value
    }
}

/// Whether a bound lies within the window limit.
fn within_limit(bound: isize) -> (within: bool)
    ensures
        within == (-window_limit() <= bound <= window_limit()),
{
    -(isize::MAX - 1) <= bound && bound <= isize::MAX - 1
}

/// Counts a searched node, saturating at the largest count.
fn count_node(diagnostics: &mut SearchDiagnostics)
    ensures
        old(diagnostics).nodes_searched < usize::MAX ==> *final(diagnostics) == (SearchDiagnostics {
            nodes_searched: (old(diagnostics).nodes_searched + 1) as usize,
            ..*old(diagnostics)
        }),
        old(diagnostics).nodes_searched == usize::MAX ==> *final(diagnostics) == *old(diagnostics),
{
    if diagnostics.nodes_searched < usize::MAX {
        diagnostics.increment_nodes_searched();
    }
}

/// Counts a failed zero window search, saturating at the largest count.
fn count_zero_window_search_fail(diagnostics: &mut SearchDiagnostics)
    ensures
        old(diagnostics).zero_window_search_fail < usize::MAX ==> *final(diagnostics) == (SearchDiagnostics {
            zero_window_search_fail: (old(diagnostics).zero_window_search_fail + 1) as usize,
            ..*old(diagnostics)
        }),
        old(diagnostics).zero_window_search_fail == usize::MAX ==> *final(diagnostics) == *old(diagnostics),
{
    if diagnostics.zero_window_search_fail < usize::MAX {
        diagnostics.increment_zero_window_search_fail();
    }
}

/// The principal variation search of the first player: fail-hard
/// alpha-beta with principal variation and zero window searches, late move
/// reductions, search extensions for special patches, the transposition
/// table and aspiration windows.
pub struct PvsSearch {
    /// The diagnostics of the search.
    pub diagnostics: SearchDiagnostics,
    /// The best action found so far at the root.
    pub best_action: Option<ActionId>,
    /// The evaluation of the best action found so far at the root.
    pub best_evaluation: Option<isize>,
    /// The actions the search played in the position and did not take back
    /// yet.
    pub played: Ghost<Seq<ActionId>>,
    /// The values that the searches of the children of the node whose
    /// actions were searched last returned (up to the child that reached
    /// beta, if one did).
    pub searched_values: Ghost<Seq<isize>>,
    /// The actions of those children, in the same order.
    pub searched_actions: Ghost<Seq<ActionId>>,
    /// Whether the position answered the last check of the cancel flag with
    /// yes.
    pub cancel_seen: Ghost<bool>,
    /// The last lookup in the transposition table: the window and the depth
    /// handed to it and its answer.
    pub last_probe: Ghost<Option<(isize, isize, usize, Option<(ActionId, isize)>)>>,
    /// The last evaluation handed to the transposition table: the depth, the
    /// evaluation, its type and the action.
    pub last_store: Ghost<Option<(usize, isize, EvaluationType, ActionId)>>,
}

/// Whether a lookup was handed the window `[alpha, beta]` and `depth`, and
/// answered with the evaluation `value`.
pub open spec fn probe_answered(
    probe: Option<(isize, isize, usize, Option<(ActionId, isize)>)>,
    alpha: isize,
    beta: isize,
    depth: usize,
    value: isize,
) -> bool {
    &&& probe is Some
    &&& probe.unwrap().0 == alpha
    &&& probe.unwrap().1 == beta
    &&& probe.unwrap().2 == depth
    &&& probe.unwrap().3 is Some
    &&& probe.unwrap().3.unwrap().1 == value
}

/// Whether a lookup was handed the window `[alpha, beta]` and `depth`, and
/// had no answer.
pub open spec fn probe_missed(
    probe: Option<(isize, isize, usize, Option<(ActionId, isize)>)>,
    alpha: isize,
    beta: isize,
    depth: usize,
) -> bool {
    probe == Some((alpha, beta, depth, None::<(ActionId, isize)>))
}

/// Whether the table was handed `evaluation` of type `evaluation_type` at
/// `depth`.
pub open spec fn evaluation_stored(
    store: Option<(usize, isize, EvaluationType, ActionId)>,
    depth: usize,
    evaluation: isize,
    evaluation_type: EvaluationType,
) -> bool {
    &&& store is Some
    &&& store.unwrap().0 == depth
    &&& store.unwrap().1 == evaluation
    &&& store.unwrap().2 == evaluation_type
}

/// The largest of alpha and the values.
pub open spec fn maximum_value(alpha: isize, values: Seq<isize>) -> isize
    decreases values.len(),
{
    if values.len() == 0 {
        alpha
    } else {
        let previous = maximum_value(alpha, values.drop_last());
        if values.last() > previous {
            values.last()
        } else {
            previous
        }
    }
}

/// The position of the first child with the largest value, when that value
/// lies above alpha; `None` when no child's value does.
pub open spec fn best_value_index(alpha: isize, values: Seq<isize>) -> Option<usize>
    decreases values.len(),
{
    if values.len() == 0 {
        None
    } else if values.last() > maximum_value(alpha, values.drop_last()) {
        Some((values.len() - 1) as usize)
    } else {
        best_value_index(alpha, values.drop_last())
    }
}

/// The children's values as the parent sees them: each value negated.
pub open spec fn negated_values(values: Seq<isize>) -> Seq<isize> {
    values.map_values(|value: isize| negation(value))
}

/// The fail-hard value of a node over the evaluations of its children (as
/// the node sees them): the largest of alpha and the evaluations, brought
/// down to beta.
pub open spec fn fail_hard_result(alpha: isize, beta: isize, evaluations: Seq<isize>) -> isize {
    if maximum_value(alpha, evaluations) >= beta {
        beta
    } else {
        maximum_value(alpha, evaluations)
    }
}

impl PvsSearch {
    /// A search with the given diagnostics and no best action.
    pub fn new(diagnostics: SearchDiagnostics) -> (search: Self)
        ensures
            search.diagnostics == diagnostics,
            search.best_action is None,
            search.best_evaluation is None,
            search.played@ == Seq::<ActionId>::empty(),
            search.searched_values@ == Seq::<isize>::empty(),
            search.searched_actions@ == Seq::<ActionId>::empty(),
            search.last_probe@ is None,
            search.last_store@ is None,
    {
        PvsSearch {
            diagnostics,
            best_action: None,
            best_evaluation: None,
            played: Ghost(Seq::empty()),
            searched_values: Ghost(Seq::empty()),
            searched_actions: Ghost(Seq::empty()),
            cancel_seen: Ghost(false),
            last_probe: Ghost(None),
            last_store: Ghost(None),
        }
    }

    /// Asks the position whether the search was canceled, and notes the
    /// answer.
    fn canceled<P: SearchPosition>(&mut self, position: &P) -> (canceled: bool)
        ensures
            final(self).cancel_seen@ == canceled,
            final(self).diagnostics == old(self).diagnostics,
            final(self).best_action == old(self).best_action,
            final(self).best_evaluation == old(self).best_evaluation,
            final(self).played == old(self).played,
            final(self).last_probe == old(self).last_probe,
            final(self).last_store == old(self).last_store,
    {
        let canceled = position.search_canceled();
        proof {
            self.cancel_seen@ = canceled;
        }
        canceled
    }

    /// Looks the position up in the transposition table with the window
    /// and the depth, and notes what was handed over and the answer.
    fn probe<P: SearchPosition>(&mut self, position: &mut P, alpha: isize, beta: isize, depth: usize) -> (answer: Option<(ActionId, isize)>)
        ensures
            final(self).last_probe@ == Some((alpha, beta, depth, answer)),
            final(self).diagnostics == old(self).diagnostics,
            final(self).best_action == old(self).best_action,
            final(self).best_evaluation == old(self).best_evaluation,
            final(self).played == old(self).played,
            final(self).last_store == old(self).last_store,
            final(self).cancel_seen == old(self).cancel_seen,
    {
        let answer = position.probe_table(alpha, beta, depth);
        proof {
            self.last_probe@ = Some((alpha, beta, depth, answer));
        }
        answer
    }

    /// Stores an evaluation of the position in the transposition table, and
    /// notes what was handed over.
    fn store<P: SearchPosition>(
        &mut self,
        position: &mut P,
        depth: usize,
        evaluation: isize,
        evaluation_type: EvaluationType,
        action: ActionId,
    )
        ensures
            final(self).last_store@ == Some((depth, evaluation, evaluation_type, action)),
            final(self).diagnostics == old(self).diagnostics,
            final(self).best_action == old(self).best_action,
            final(self).best_evaluation == old(self).best_evaluation,
            final(self).played == old(self).played,
            final(self).last_probe == old(self).last_probe,
            final(self).cancel_seen == old(self).cancel_seen,
            final(self).searched_values == old(self).searched_values,
    {
        position.store_in_table(depth, evaluation, evaluation_type, action);
        proof {
            self.last_store@ = Some((depth, evaluation, evaluation_type, action));
        }
    }

    /// Plays an action in the position; an action that was played is noted
    /// as played.
    fn play<P: SearchPosition>(&mut self, position: &mut P, action: ActionId) -> (result: Result<(), P::Error>)
        ensures
            result is Ok ==> final(self).played@ == old(self).played@.push(action),
            result is Err ==> final(self).played@ == old(self).played@,
            final(self).diagnostics == old(self).diagnostics,
            final(self).best_action == old(self).best_action,
            final(self).best_evaluation == old(self).best_evaluation,
    {
        let result = position.do_action(action);
        if result.is_ok() {
            proof {
                self.played@ = self.played@.push(action);
            }
        }
        result
    }

    /// Takes the action played last back in the position; an action that
    /// was taken back is no longer noted as played.
    fn take_back<P: SearchPosition>(&mut self, position: &mut P, action: ActionId) -> (result: Result<(), P::Error>)
        requires
            old(self).played@.len() > 0,
            old(self).played@.last() == action,
        ensures
            result is Ok ==> final(self).played@ == old(self).played@.drop_last(),
            result is Err ==> final(self).played@ == old(self).played@,
            final(self).diagnostics == old(self).diagnostics,
            final(self).best_action == old(self).best_action,
            final(self).best_evaluation == old(self).best_evaluation,
    {
        let result = position.undo_action(action);
        if result.is_ok() {
            proof {
                self.played@ = self.played@.drop_last();
            }
        }
        result
    }

    /// The search extension of the position after an action, counted in
    /// the diagnostics while the count has room.
    fn extension<P: SearchPosition>(&mut self, position: &P, num_extensions: usize) -> (extension: usize)
        ensures
            extension <= 1,
            extension == 1 ==> num_extensions < MAX_SEARCH_EXTENSIONS,
            final(self).best_action == old(self).best_action,
            final(self).best_evaluation == old(self).best_evaluation,
            extension == 1 && old(self).diagnostics.special_patch_extensions < usize::MAX
                ==> final(self).diagnostics == (SearchDiagnostics {
                special_patch_extensions: (old(self).diagnostics.special_patch_extensions + 1) as usize,
                ..old(self).diagnostics
            }),
            !(extension == 1 && old(self).diagnostics.special_patch_extensions < usize::MAX)
                ==> final(self).diagnostics == old(self).diagnostics,
            final(self).played == old(self).played,
    {
        let special_patch_turn = position.is_special_patch_turn();
        if self.diagnostics.special_patch_extensions < usize::MAX {
            get_search_extension(&mut self.diagnostics, num_extensions, special_patch_turn)
        } else if num_extensions < MAX_SEARCH_EXTENSIONS && special_patch_turn {
            1
        } else {
            0
        }
    }

    /// The evaluation of a leaf, counted as a searched node.
    fn evaluation<P: SearchPosition>(&mut self, position: &mut P) -> (result: Result<isize, P::Error>)
        ensures
            final(self).best_action == old(self).best_action,
            final(self).best_evaluation == old(self).best_evaluation,
            old(self).diagnostics.nodes_searched < usize::MAX ==> final(self).diagnostics == (SearchDiagnostics {
                nodes_searched: (old(self).diagnostics.nodes_searched + 1) as usize,
                ..old(self).diagnostics
            }),
            old(self).diagnostics.nodes_searched == usize::MAX ==> final(self).diagnostics == old(self).diagnostics,
            final(self).played == old(self).played,
            final(self).last_probe == old(self).last_probe,
            final(self).last_store == old(self).last_store,
            final(self).cancel_seen == old(self).cancel_seen,
    {
        count_node(&mut self.diagnostics);
        position.evaluate()
    }

    /// The fail-hard zero window search with the window `[beta - 1, beta]`:
    /// a node whose actions were searched returns either `beta - 1` or
    /// `beta`.
    pub fn zero_window_search<P: SearchPosition>(&mut self, position: &mut P, depth: usize, beta: isize) -> (result: Result<(isize, SearchedBy), P::Error>)
        requires
            -window_limit() <= beta <= window_limit() + 1,
        ensures
            result matches Ok((value, SearchedBy::Actions)) ==> value == beta || value == beta - 1,
            result matches Ok((value, SearchedBy::Canceled)) ==> value == 0,
            result matches Ok((_, by)) ==> by is Canceled || by is Leaf || by is Actions,
            final(self).best_action == old(self).best_action,
            final(self).best_evaluation == old(self).best_evaluation,
            result is Ok ==> final(self).played@ == old(self).played@,
            result matches Ok((_, SearchedBy::Canceled)) ==> final(self).cancel_seen@,
            result matches Ok((_, SearchedBy::Leaf)) ==> !final(self).cancel_seen@,
        decreases depth, 0usize,
    {
        if self.canceled(position) {
            return Ok((0, SearchedBy::Canceled));
        }

        if depth == 0 || position.is_terminated() {
            let evaluation = self.evaluation(position)?;
            return Ok((evaluation, SearchedBy::Leaf));
        }

        count_node(&mut self.diagnostics);

        let actions = position.valid_actions();
        let mut i: usize = 0;
        while i < actions.len()
            invariant
                self.played@ == old(self).played@,
                0 < depth,
                -window_limit() <= beta <= window_limit() + 1,
                self.best_action == old(self).best_action,
                self.best_evaluation == old(self).best_evaluation,
            decreases actions.len() - i,
        {
            let action = actions[i];
            self.play(position, action)?;

            // do not apply search extensions in the zero window search
            let (child, _) = self.zero_window_search(position, depth - 1, 1 - beta)?;
            let evaluation = negate(child);

            self.take_back(position, action)?;
            proof {
                assert(old(self).played@.push(action).drop_last() =~= old(self).played@);
            }

            if evaluation >= beta {
                return Ok((beta, SearchedBy::Actions));  // fail-hard beta-cutoff
            }
            i += 1;
        }
        Ok((beta - 1, SearchedBy::Actions))  // fail-hard, return alpha
    }

    /// The principal variation search of a node with the window
    /// `[alpha, beta]` at `depth` plies (plus search extensions) below the
    /// node, which lies `ply_from_root` plies below the root.
    ///
    /// Fail-hard: a node whose actions were searched returns beta, alpha or
    /// a value between them. At the root the best action and its evaluation
    /// are kept.
    ///
    /// The transposition table is asked with the window and the depth, and
    /// its answer is returned as it is. Otherwise a cut-off stores beta as a
    /// lower bound with the action that reached it, and a node whose actions
    /// were searched stores its value (exact above alpha, an upper bound
    /// otherwise) with the action of its best child (the null action when no
    /// child raised alpha).
    #[verifier::rlimit(60)]
    #[verifier::spinoff_prover]
    pub fn principal_variation_search<P: SearchPosition>(
        &mut self,
        position: &mut P,
        ply_from_root: usize,
        depth: usize,
        alpha: isize,
        beta: isize,
        num_extensions: usize,
    ) -> (result: Result<(isize, SearchedBy), P::Error>)
        requires
            -window_limit() <= alpha <= window_limit(),
            -window_limit() <= beta <= window_limit(),
            num_extensions <= MAX_SEARCH_EXTENSIONS,
            ply_from_root + depth + (MAX_SEARCH_EXTENSIONS - num_extensions) <= usize::MAX,
        ensures
            result matches Ok((value, SearchedBy::Actions)) ==> value == beta || value == alpha || (
            alpha < value < beta),
            result matches Ok((value, SearchedBy::Canceled)) ==> value == 0,
            result matches Ok((value, SearchedBy::SingleAction)) ==> value == POSITIVE_INFINITY
                && ply_from_root == 0,
            ply_from_root != 0 ==> final(self).best_action == old(self).best_action
                && final(self).best_evaluation == old(self).best_evaluation,
            alpha < beta ==> (result matches Ok((value, SearchedBy::Actions)) ==> value == fail_hard_result(
                alpha,
                beta,
                negated_values(final(self).searched_values@),
            )),
            result is Ok ==> final(self).played@ == old(self).played@,
            result matches Ok((_, SearchedBy::Canceled)) ==> final(self).cancel_seen@,
            result matches Ok((_, by)) ==> (by !is Canceled ==> !final(self).cancel_seen@),
            result matches Ok((value, SearchedBy::TableHit)) ==> probe_answered(
                final(self).last_probe@,
                alpha,
                beta,
                depth,
                value,
            ),
            result matches Ok((_, by)) ==> (by is Leaf || by is Actions ==> probe_missed(
                final(self).last_probe@,
                alpha,
                beta,
                depth,
            )),
            result matches Ok((_, SearchedBy::Actions)) ==> final(self).searched_actions@.len()
                == final(self).searched_values@.len(),
            alpha < beta ==> (result matches Ok((value, SearchedBy::Actions)) ==> (value == beta && evaluation_stored(
                final(self).last_store@,
                depth,
                beta,
                EvaluationType::LowerBound,
            ) && final(self).searched_values@.len() > 0 && negation(final(self).searched_values@.last()) >= beta
                && final(self).last_store@.unwrap().3 == final(self).searched_actions@.last()) || (value < beta
                && (best_value_index(alpha, negated_values(final(self).searched_values@)) matches Some(index)
                ==> final(self).last_store@.unwrap().3 == final(self).searched_actions@[index as int])
                && evaluation_stored(
                final(self).last_store@,
                depth,
                value,
                if value > alpha {
                    EvaluationType::Exact
                } else {
                    EvaluationType::UpperBound
                },
            ))),
        decreases depth, MAX_SEARCH_EXTENSIONS - num_extensions,
    {
        if self.canceled(position) {
            return Ok((0, SearchedBy::Canceled));
        }

        if let Some((table_action, table_evaluation)) = self.probe(position, alpha, beta, depth) {
            if ply_from_root == 0 {
                self.best_action = Some(table_action);
                self.best_evaluation = Some(table_evaluation);
            }
            return Ok((table_evaluation, SearchedBy::TableHit));
        }

        let ghost node_probe = self.last_probe@;

        if depth == 0 || position.is_terminated() {
            let evaluation = self.evaluation(position)?;
            return Ok((evaluation, SearchedBy::Leaf));
        }

        count_node(&mut self.diagnostics);

        let mut actions = position.valid_actions();

        // shortcut for only one available action
        if actions.len() == 1 && ply_from_root == 0 {
            position.cancel_search();
            self.best_action = Some(actions[0]);
            self.best_evaluation = Some(POSITIVE_INFINITY as isize);
            return Ok((POSITIVE_INFINITY as isize, SearchedBy::SingleAction));
        }

        let pv_action = if ply_from_root == 0 {
            match self.best_action {
                Some(best) => Some(best),
                None => position.probe_pv_move(),
            }
        } else {
            position.probe_pv_move()
        };
        position.sort_actions(&mut actions, pv_action);

        let mut node = NodeState::start(alpha, beta);
        let ghost mut values: Seq<isize> = Seq::empty();
        let ghost mut searched: Seq<ActionId> = Seq::empty();

        let mut i: usize = 0;
        while i < actions.len()
            invariant
                0 < depth,
                -window_limit() <= alpha <= window_limit(),
                -window_limit() <= beta <= window_limit(),
                node.beta == beta,
                node.alpha == alpha || (alpha < node.alpha < beta),
                node.alpha == maximum_value(alpha, negated_values(values)),
                node.evaluation_bound == if node.alpha > alpha {
                    EvaluationType::Exact
                } else {
                    EvaluationType::UpperBound
                },
                probe_missed(node_probe, alpha, beta, depth),
                !self.cancel_seen@,
                node.best_action matches Some(index) ==> index < i,
                node.best_action == best_value_index(alpha, negated_values(values)),
                values.len() == i,
                searched == actions@.subrange(0, i as int),
                i <= actions.len(),
                self.played@ == old(self).played@,
                num_extensions <= MAX_SEARCH_EXTENSIONS,
                ply_from_root + depth + (MAX_SEARCH_EXTENSIONS - num_extensions) <= usize::MAX,
                ply_from_root != 0 ==> self.best_action == old(self).best_action
                    && self.best_evaluation == old(self).best_evaluation,
            decreases actions.len() - i,
        {
            let action = actions[i];

            self.play(position, action)?;

            // extend the depth of the search for special patch placements
            let extension = self.extension(position, num_extensions);

            let mut evaluation: isize = 0;
            let mut raw: isize = 0;
            if node.is_pv_node {
                // full window search for the pv node
                let (child, _) = self.principal_variation_search(
                    position,
                    ply_from_root + 1,
                    depth - 1 + extension,
                    negate(beta),
                    negate(node.alpha),
                    num_extensions + extension,
                )?;
                raw = child;
                evaluation = negate(child);
            } else {
                // late move reductions: search later actions with a reduced
                // depth first (search extensions do not apply there)
                let mut needs_full_search = true;
                if extension == 0 && i >= LMR_FULL_DEPTH_ACTIONS && depth >= LMR_REDUCTION_LIMIT {
                    let (child, _) = self.zero_window_search(
                        position,
                        depth - 1 - LMR_REDUCED_BY_DEPTH,
                        negate(node.alpha),
                    )?;
                    raw = child;
                    evaluation = negate(child);
                    needs_full_search = evaluation > node.alpha;
                }

                if needs_full_search {
                    // null window search
                    let (child, _) = self.zero_window_search(position, depth - 1, negate(node.alpha))?;
                    raw = child;
                    evaluation = negate(child);

                    if evaluation > node.alpha && evaluation < beta {
                        count_zero_window_search_fail(&mut self.diagnostics);
                        // the zero window search failed: search again with the full window
                        let (child, _) = self.principal_variation_search(
                            position,
                            ply_from_root + 1,
                            depth - 1 + extension,
                            negate(beta),
                            negate(node.alpha),
                            num_extensions + extension,
                        )?;
                        raw = child;
                        evaluation = negate(child);
                    }
                }
            }

            self.take_back(position, action)?;
            proof {
                assert(old(self).played@.push(action).drop_last() =~= old(self).played@);
            }

            if self.canceled(position) {
                return Ok((0, SearchedBy::Canceled));
            }

            // the fail-high is counted while the counts have room
            let outcome = if evaluation < beta || (self.diagnostics.fail_high < usize::MAX
                && self.diagnostics.fail_high_first < usize::MAX) {
                node.record(&mut self.diagnostics, i, evaluation)
            } else {
                ChildOutcome::Cutoff
            };
            proof {
                let before = negated_values(values);
                searched = searched.push(action);
                assert(searched =~= actions@.subrange(0, i + 1));
                values = values.push(raw);
                assert(negated_values(values) =~= before.push(negation(raw)));
                assert(before.push(negation(raw)).drop_last() =~= before);
            }
            if outcome == ChildOutcome::Cutoff {
                self.store(position, depth, beta, EvaluationType::LowerBound, action);
                proof {
                    self.searched_values@ = values;
                    self.searched_actions@ = searched;
                    self.last_probe@ = node_probe;
                }
                return Ok((beta, SearchedBy::Actions));  // fail-hard beta-cutoff
            }
            i += 1;
        }

        // a node whose actions all failed low stores the null action
        let best_action = match node.best_action {
            Some(index) => Some(actions[index]),
            None => None,
        };
        let table_action = match best_action {
            Some(best) => best,
            None => position.null_action(),
        };
        self.store(position, depth, node.alpha, node.evaluation_bound, table_action);

        if ply_from_root == 0 {
            self.best_action = best_action;
            self.best_evaluation = Some(node.alpha);
        }
        proof {
            self.searched_values@ = values;
            self.searched_actions@ = searched;
            self.last_probe@ = node_probe;
        }

        Ok((node.alpha, SearchedBy::Actions))
    }
}

/// How an iteration of the iterative deepening ended.
#[derive(Copy, Clone, Debug, PartialEq, Eq, Hash, Structural)]
pub enum IterationEnd {
    /// The search was canceled: stop with the best action found before.
    Canceled,
    /// The aspiration window failed with this evaluation: search the same
    /// depth again with the widened window.
    SearchAgain(isize),
    /// A win was found: stop searching.
    Won,
    /// The search ended inside the window with this evaluation: go on with
    /// the next depth.
    NextDepth(isize),
    /// The window or the evaluation left the range in which the window can
    /// be computed (the arithmetic would overflow).
    OutOfRange,
}

/// Whether the window can be updated after a search that returned
/// `evaluation` (see `window_updatable`).
fn can_update(window: &AspirationWindow, evaluation: isize) -> (updatable: bool)
    ensures
        updatable == window_updatable(*window, evaluation),
{
    let third = window.delta / 3;
    assert(third == div_toward_zero(window.delta as int, 3));
    let grown = window.delta as i128 + third as i128;
    let grown_fits = isize::MIN as i128 <= grown && grown <= isize::MAX as i128;
    if evaluation <= window.alpha {
        let sum = window.alpha as i128 + window.beta as i128;
        let lowered = evaluation as i128 - window.delta as i128;
        isize::MIN as i128 <= sum && sum <= isize::MAX as i128 && isize::MIN as i128 <= lowered
            && lowered <= isize::MAX as i128 && grown_fits
    } else if evaluation >= window.beta {
        let raised = evaluation as i128 + window.delta as i128;
        isize::MIN as i128 <= raised && raised <= isize::MAX as i128 && grown_fits
    } else {
        isize::MIN < evaluation && evaluation < isize::MAX && window.depth < usize::MAX
    }
}

impl PvsSearch {
    /// One iteration of the iterative deepening: starts a new iteration of
    /// the diagnostics, searches the root at the depth of the window and
    /// decides how to go on. A failed aspiration window is widened (and
    /// counted) for another search at the same depth; a search inside the
    /// window is reported to the position, stops the search when the best
    /// evaluation is a win, and otherwise sets the window around the
    /// evaluation one depth deeper.
    pub fn search_iteration<P: SearchPosition>(&mut self, position: &mut P, window: &mut AspirationWindow) -> (result: Result<IterationEnd, P::Error>)
        requires
            old(window).depth < MAX_DEPTH,
        ensures
            result matches Ok(IterationEnd::SearchAgain(evaluation)) ==> window_outcome(
                *old(window),
                evaluation,
            ) != WindowOutcome::Inside && *final(window) == next_window(*old(window), evaluation),
            result matches Ok(IterationEnd::NextDepth(evaluation)) ==> window_outcome(
                *old(window),
                evaluation,
            ) == WindowOutcome::Inside && *final(window) == next_window(*old(window), evaluation)
                && final(self).best_evaluation != Some(POSITIVE_INFINITY as isize),
            result matches Ok(IterationEnd::Won) ==> *final(window) == *old(window)
                && final(self).best_evaluation == Some(POSITIVE_INFINITY as isize),
            result matches Ok(IterationEnd::Canceled) ==> *final(window) == *old(window)
                && final(self).cancel_seen@,
            result matches Ok(iteration) ==> (iteration is SearchAgain || iteration is Won
                || iteration is NextDepth ==> !final(self).cancel_seen@),
            result matches Ok(IterationEnd::OutOfRange) ==> *final(window) == *old(window),
    {
        self.diagnostics.reset_iterative_deepening_iteration();

        if !(within_limit(window.alpha) && within_limit(window.beta)) {
            return Ok(IterationEnd::OutOfRange);
        }
        let (evaluation, _) = self.principal_variation_search(position, 0, window.depth, window.alpha, window.beta, 0)?;

        if self.canceled(position) {
            return Ok(IterationEnd::Canceled);
        }

        if !can_update(window, evaluation) {
            return Ok(IterationEnd::OutOfRange);
        }

        if evaluation <= window.alpha || evaluation >= window.beta {
            // the aspiration window failed: search the same depth again
            if self.diagnostics.aspiration_window_fail_low == usize::MAX
                || self.diagnostics.aspiration_window_fail_high == usize::MAX {
                return Ok(IterationEnd::OutOfRange);
            }
            window.update(evaluation, &mut self.diagnostics);
            return Ok(IterationEnd::SearchAgain(evaluation));
        }

        position.iteration_finished(window.depth, &self.diagnostics);

        if self.best_evaluation == Some(POSITIVE_INFINITY as isize) {
            // a winning line was found or only one action is available
            return Ok(IterationEnd::Won);
        }

        window.update(evaluation, &mut self.diagnostics);
        Ok(IterationEnd::NextDepth(evaluation))
    }
}

} // verus!
