use vstd::prelude::*;

use crate::action_id::ActionId;
use crate::evaluation_bounds::POSITIVE_INFINITY;
use crate::lazy_smp_pvs::lmp_flags::{LMPFlags, ScoredAction};
use crate::lazy_smp_pvs::options::PlayerVariant;
use crate::lazy_smp_pvs::search_decisions::{
    extensions_counted, search_extension,
    get_late_move_reduced_depth, get_next_action, get_next_depth, iteration_step,
    iteration_updatable, leaf_evaluation, next_iteration_window, pv_action_source, table_store,
    should_late_move_reduce, IterationStep, IterationWindow, NextAction, PvActionSource,
    TableStore, MAX_DEPTH,
};
use crate::lazy_smp_pvs::search_node::{best_child_action, maximum_evaluation, ChildVerdict, SearchNode};
use crate::lazy_smp_pvs::search_statistics::SearchStatistics;
use crate::principal_variation_search::{negated, WINDOW_LIMIT};
use crate::transposition_table::EvaluationType;

verus! {

/// What a search worker needs of the game it searches and of its
/// surroundings: the position with its actions, the evaluator, the action
/// orderer, the shared transposition table and the flag that cancels the
/// search. Nothing is assumed of what these answer.
pub trait WorkerGame {
    /// The errors of playing an action.
    type Error;

    /// Whether the search was canceled (the time is up).
    fn search_canceled(&self) -> bool;

    /// Whether the player to move is in a phantom turn (which the search
    /// skips by playing the phantom action).
    fn is_phantom_turn(&self) -> bool;

    /// The phantom action.
    fn phantom_action(&self) -> ActionId;

    /// The null action, stored for a node where no action raised alpha.
    fn null_action(&self) -> ActionId;

    /// The answer of the transposition table for the position and the
    /// window, if it decides the window.
    fn probe_table(&mut self, alpha: i32, beta: i32, depth: usize) -> Option<(ActionId, i32)>;

    /// The best action stored in the transposition table for the position.
    fn probe_pv_move(&mut self) -> Option<ActionId>;

    /// Stores an evaluation of the position in the transposition table.
    fn store_in_table(&mut self, depth: usize, evaluation: i32, evaluation_type: EvaluationType, action: ActionId);

    /// Stores an evaluation of the position and of its symmetries in the
    /// transposition table.
    fn store_in_table_with_symmetries(
        &mut self,
        depth: usize,
        evaluation: i32,
        evaluation_type: EvaluationType,
        action: ActionId,
    );

    /// Whether the game is over.
    fn is_terminated(&self) -> bool;

    /// The valid actions of the position with their kinds and the scores
    /// the action orderer gives them (knowing the principal variation
    /// action and the ply from the root).
    fn scored_actions(&mut self, pv_action: Option<ActionId>, ply_from_root: usize) -> Vec<ScoredAction>;

    /// The action the action orderer picks for the `index`-th search from
    /// the scored actions (it may reorder them).
    fn pick_action(&mut self, actions: &mut Vec<ScoredAction>, index: usize) -> ActionId;

    /// Plays an action.
    fn do_action(&mut self, action: ActionId) -> Result<(), Self::Error>;

    /// Takes an action back.
    fn undo_action(&mut self, action: ActionId) -> Result<(), Self::Error>;

    /// Whether the player to move places a special patch.
    fn is_special_patch_placement(&self) -> bool;

    /// Whether the 7×7 special tile was given to a player.
    fn is_special_tile_condition_reached(&self) -> bool;

    /// Whether the first player is to move.
    fn is_player_1(&self) -> bool;

    /// The evaluation of the position for the first player.
    fn evaluate_node(&mut self) -> i32;

    /// Called by the main worker after each finished iteration of the
    /// iterative deepening (and at the end of the search), with the depth
    /// and the statistics of the search.
    fn iteration_finished<const ACTIVE: bool>(&mut self, depth: usize, statistics: &SearchStatistics<ACTIVE>);
}

/// The settings of a search worker: the variant of the player (its
/// switches) and the parameters of late move reductions and pruning, of
/// the search extensions and of the aspiration windows.
#[derive(Copy, Clone, Debug, PartialEq, Eq, Hash, Structural)]
pub struct WorkerSettings {
    /// The transposition table symmetry type and the feature switches.
    pub variant: PlayerVariant,
    /// Whether this is the main worker (which reports its iterations).
    pub main_worker: bool,
    /// The number of actions searched at full depth before late move
    /// reductions apply.
    pub lmr_full_depth_actions: usize,
    /// The number of plies from the root before late move reductions apply.
    pub lmr_apply_after_plys: usize,
    /// The number of actions searched before late move pruning applies.
    pub lmp_non_pruned_actions: usize,
    /// The number of plies from the root before late move pruning applies.
    pub lmp_apply_after_plys: usize,
    /// The maximum number of search extensions along a line.
    pub max_search_extensions: usize,
    /// The lower bound of the first aspiration window.
    pub starting_alpha: i32,
    /// The upper bound of the first aspiration window.
    pub starting_beta: i32,
    /// The minimum delta of an aspiration window.
    pub minimum_delta: i32,
}

impl WorkerSettings {
    /// The symmetry type is one of `d`, `e`, `s`, and the depth budget of
    /// the search extensions fits in a `usize` with the maximum depth.
    pub open spec fn well_formed(&self) -> bool {
        &&& (self.variant.symmetry_type == 'd' || self.variant.symmetry_type == 'e'
            || self.variant.symmetry_type == 's')
        &&& MAX_DEPTH + 4 * self.max_search_extensions <= usize::MAX
    }
}

/// The search extensions that a line may still use.
pub open spec fn extension_budget(max_extensions: usize, num_extensions: usize) -> int {
    if num_extensions >= max_extensions {
        0
    } else {
        max_extensions - num_extensions
    }
}

/// What bounds the search below a node: its depth plus four plies for each
/// search extension the line may still use (a full window search again
/// after a failed zero window search can add an extension twice).
pub open spec fn search_measure(depth: usize, max_extensions: usize, num_extensions: usize) -> int {
    depth + 4 * extension_budget(max_extensions, num_extensions)
}

/// The extension of a position and the statistics after it, for some
/// answers of the game to whether a special patch is placed and whether the
/// special tile is reached: the extension is `search_extension` of them, and
/// the extensions are counted (see `extensions_counted`) when the
/// statistics are kept and their counters have room.
#[verifier::opaque]
pub open spec fn extension_step<const ACTIVE: bool>(
    before: SearchStatistics<ACTIVE>,
    after: SearchStatistics<ACTIVE>,
    extension: usize,
    zero_window_search: bool,
    extensions_enabled: bool,
    num_extensions: usize,
    max_extensions: usize,
    previous_special_tile_condition_reached: bool,
) -> bool {
    exists|special_patch_placement: bool, special_tile_condition_reached: bool|
        #![trigger search_extension(zero_window_search, extensions_enabled, num_extensions, max_extensions, special_patch_placement, previous_special_tile_condition_reached, special_tile_condition_reached)]
        extension == search_extension(
            zero_window_search,
            extensions_enabled,
            num_extensions,
            max_extensions,
            special_patch_placement,
            previous_special_tile_condition_reached,
            special_tile_condition_reached,
        ) && (if ACTIVE && before.special_patch_extensions < usize::MAX
            && before.special_tile_extensions < usize::MAX {
            after == extensions_counted(
                before,
                zero_window_search,
                extensions_enabled,
                num_extensions,
                max_extensions,
                special_patch_placement,
                previous_special_tile_condition_reached,
                special_tile_condition_reached,
            )
        } else {
            after == before
        })
}

/// How the search of a node came to its value.
#[derive(Copy, Clone, Debug, PartialEq, Eq, Hash, Structural)]
pub enum WorkerNode {
    /// The search was canceled; the value is 0.
    Canceled,
    /// The phantom turn was skipped: the value is the negated value of the
    /// position after the phantom action.
    Phantom,
    /// The transposition table answered.
    TableHit,
    /// The depth was used up or the game is over: the position was
    /// evaluated.
    Leaf,
    /// An action reached beta (a beta cut-off).
    Cutoff,
    /// All actions were searched (or the rest pruned) below beta.
    Searched,
}

/// How an iteration of the iterative deepening of a worker ended.
#[derive(Copy, Clone, Debug, PartialEq, Eq, Hash, Structural)]
pub enum WorkerIteration {
    /// The search was canceled: the best result of the previous iterations
    /// stays.
    Canceled,
    /// The aspiration window failed with this evaluation: search the same
    /// depth again with the moved window.
    SearchAgain(i32),
    /// A win was found: stop searching.
    Won,
    /// The search ended with this evaluation: go on with the next depth.
    NextDepth(i32),
    /// The window or the evaluation left the range in which the window can
    /// be computed (the arithmetic would overflow).
    OutOfRange,
}

impl WorkerIteration {
    /// Whether the iterative deepening goes on after this iteration: after a
    /// failed aspiration window or a finished depth, while the window's depth
    /// stays below the maximum depth; a canceled search, a win and a window
    /// out of range end it.
    pub fn continues(&self, window: &IterationWindow) -> (go_on: bool)
        ensures
            go_on == ((*self is SearchAgain || *self is NextDepth) && window.depth < MAX_DEPTH),
    {
        match self {
            WorkerIteration::SearchAgain(_) | WorkerIteration::NextDepth(_) => window.depth < MAX_DEPTH,
            _ => false,
        }
    }
}

/// A search worker of the lazy SMP player: principal variation search with
/// the switches of its variant, the statistics of the search (counted when
/// `ACTIVE` is set) and the best root action found so far with its
/// evaluation. Late move pruning keeps up to `AMOUNT_PER_PATCH` actions per
/// patch.
pub struct Worker<const ACTIVE: bool, const AMOUNT_PER_PATCH: usize> {
    /// The settings of the worker.
    pub settings: WorkerSettings,
    /// The statistics of the search.
    pub statistics: SearchStatistics<ACTIVE>,
    /// The best root action found so far with its evaluation.
    pub best: Option<(ActionId, i32)>,
    /// The actions the worker played in the game and did not take back yet.
    pub played: Ghost<Seq<ActionId>>,
    /// The children of the node whose actions were searched last: each
    /// action with the value its search returned.
    pub searched_children: Ghost<Seq<(ActionId, i32)>>,
    /// Whether the game answered the last check of the cancel flag with yes.
    pub cancel_seen: Ghost<bool>,
    /// The last lookup in the transposition table: the window and the depth
    /// handed to it and its answer.
    pub last_probe: Ghost<Option<(i32, i32, usize, Option<(ActionId, i32)>)>>,
    /// The last evaluation handed to the transposition table: the depth, the
    /// evaluation, its type and the action.
    pub last_store: Ghost<Option<(usize, i32, EvaluationType, ActionId)>>,
}

/// Whether a lookup was handed the window `[alpha, beta]` and `depth`, and
/// its answer, brought into the window (see `window_value`), is `value`.
pub open spec fn table_hit(
    probe: Option<(i32, i32, usize, Option<(ActionId, i32)>)>,
    alpha: i32,
    beta: i32,
    depth: usize,
    value: i32,
    soft_failing_strategy: bool,
) -> bool {
    &&& probe is Some
    &&& probe.unwrap().0 == alpha
    &&& probe.unwrap().1 == beta
    &&& probe.unwrap().2 == depth
    &&& probe.unwrap().3 is Some
    &&& value == window_value(probe.unwrap().3.unwrap().1, alpha, beta, soft_failing_strategy)
}

/// Whether a lookup was handed the window `[alpha, beta]` and `depth`, and
/// had no answer.
pub open spec fn table_missed(
    probe: Option<(i32, i32, usize, Option<(ActionId, i32)>)>,
    alpha: i32,
    beta: i32,
    depth: usize,
) -> bool {
    probe == Some((alpha, beta, depth, None::<(ActionId, i32)>))
}

/// Whether the table was handed `evaluation` of type `evaluation_type` at
/// `depth`.
pub open spec fn table_stored(
    store: Option<(usize, i32, EvaluationType, ActionId)>,
    depth: usize,
    evaluation: i32,
    evaluation_type: EvaluationType,
) -> bool {
    &&& store is Some
    &&& store.unwrap().0 == depth
    &&& store.unwrap().1 == evaluation
    &&& store.unwrap().2 == evaluation_type
}

/// The children's values as the parent sees them: each value negated.
pub open spec fn negated_children(children: Seq<(ActionId, i32)>) -> Seq<(ActionId, i32)> {
    children.map_values(|child: (ActionId, i32)| (child.0, negated(child.1)))
}

/// The value a search returns for a leaf, a table answer or a skipped
/// phantom turn: with the fail-hard strategy it is brought into the window
/// `[alpha, beta]` (the fail-hard strategy never returns a value outside the
/// window), with the fail-soft strategy it is returned as it is.
pub open spec fn window_value(value: i32, alpha: i32, beta: i32, soft_failing_strategy: bool) -> i32 {
    if soft_failing_strategy {
        value
    } else if value < alpha {
        alpha
    } else if value > beta {
        beta
    } else {
        value
    }
}

/// Brings a value into the window for the fail-hard strategy (see
/// `window_value`).
fn bound_to_window(value: i32, alpha: i32, beta: i32, soft_failing_strategy: bool) -> (bounded: i32)
    ensures
        bounded == window_value(value, alpha, beta, soft_failing_strategy),
{
    if soft_failing_strategy {
        value
    } else if value < alpha {
        alpha
    } else if value > beta {
        beta
    } else {
        value
    }
}

/// The negation of an evaluation, wrapping at `i32::MIN` as Rust's
/// release builds negate.
fn negate(value: i32) -> (negation: i32)
    ensures
        negation == negated(value),
{
    if value == i32::MIN {
        value
    } else {
        -value
    }
}

/// Statistics that count nothing: they take the counts of a decision whose
/// counter is full, which are dropped.
fn uncounted() -> (statistics: SearchStatistics<false>)
    ensures
        statistics.counters_zero(),
{
    SearchStatistics::default()
}

/// Counts a searched node while the count has room.
fn count_node<const ACTIVE: bool>(statistics: &mut SearchStatistics<ACTIVE>)
    ensures
        ACTIVE && old(statistics).nodes_searched < usize::MAX ==> *final(statistics) == (SearchStatistics {
            nodes_searched: (old(statistics).nodes_searched + 1) as usize,
            ..*old(statistics)
        }),
        !(ACTIVE && old(statistics).nodes_searched < usize::MAX) ==> *final(statistics) == *old(statistics),
{
    if statistics.nodes_searched < usize::MAX {
        statistics.increment_nodes_searched();
    }
}

/// Counts a zero window search while the count has room.
fn count_zero_window_search<const ACTIVE: bool>(statistics: &mut SearchStatistics<ACTIVE>)
    ensures
        ACTIVE && old(statistics).zero_window_search < usize::MAX ==> *final(statistics) == (SearchStatistics {
            zero_window_search: (old(statistics).zero_window_search + 1) as usize,
            ..*old(statistics)
        }),
        !(ACTIVE && old(statistics).zero_window_search < usize::MAX) ==> *final(statistics) == *old(statistics),
{
    if statistics.zero_window_search < usize::MAX {
        statistics.increment_zero_window_search();
    }
}

/// Counts a failed zero window search while the count has room.
fn count_zero_window_search_fail<const ACTIVE: bool>(statistics: &mut SearchStatistics<ACTIVE>)
    ensures
        ACTIVE && old(statistics).zero_window_search_fail < usize::MAX ==> *final(statistics) == (SearchStatistics {
            zero_window_search_fail: (old(statistics).zero_window_search_fail + 1) as usize,
            ..*old(statistics)
        }),
        !(ACTIVE && old(statistics).zero_window_search_fail < usize::MAX) ==> *final(statistics) == *old(statistics),
{
    if statistics.zero_window_search_fail < usize::MAX {
        statistics.increment_zero_window_search_fail();
    }
}

/// Counts a failed late move reduction while the count has room.
fn count_late_move_reduction_fail<const ACTIVE: bool>(statistics: &mut SearchStatistics<ACTIVE>)
    ensures
        ACTIVE && old(statistics).late_move_reduction_fails < usize::MAX ==> *final(statistics) == (SearchStatistics {
            late_move_reduction_fails: (old(statistics).late_move_reduction_fails + 1) as usize,
            ..*old(statistics)
        }),
        !(ACTIVE && old(statistics).late_move_reduction_fails < usize::MAX) ==> *final(statistics) == *old(statistics),
{
    if statistics.late_move_reduction_fails < usize::MAX {
        statistics.increment_late_move_reduction_fails();
    }
}

impl<const ACTIVE: bool, const AMOUNT_PER_PATCH: usize> Worker<ACTIVE, AMOUNT_PER_PATCH> {
    /// A worker with the given settings, fresh statistics and no best
    /// action.
    pub fn new(settings: WorkerSettings) -> (worker: Self)
        ensures
            worker.settings == settings,
            worker.best is None,
            worker.statistics.counters_zero(),
            worker.played@ == Seq::<ActionId>::empty(),
            worker.searched_children@ == Seq::<(ActionId, i32)>::empty(),
            worker.last_probe@ is None,
            worker.last_store@ is None,
    {
        Worker {
            settings,
            statistics: SearchStatistics::default(),
            best: None,
            played: Ghost(Seq::empty()),
            searched_children: Ghost(Seq::empty()),
            cancel_seen: Ghost(false),
            last_probe: Ghost(None),
            last_store: Ghost(None),
        }
    }

    /// Asks the game whether the search was canceled, and notes the answer.
    fn canceled<G: WorkerGame>(&mut self, game: &G) -> (canceled: bool)
        ensures
            final(self).cancel_seen@ == canceled,
            final(self).settings == old(self).settings,
            final(self).statistics == old(self).statistics,
            final(self).best == old(self).best,
            final(self).played == old(self).played,
            final(self).last_probe == old(self).last_probe,
            final(self).last_store == old(self).last_store,
    {
        let canceled = game.search_canceled();
        proof {
            self.cancel_seen@ = canceled;
        }
        canceled
    }

    /// Looks the position up in the transposition table with the window
    /// and the depth, and notes what was handed over and the answer.
    fn probe<G: WorkerGame>(&mut self, game: &mut G, alpha: i32, beta: i32, depth: usize) -> (answer: Option<(ActionId, i32)>)
        ensures
            final(self).last_probe@ == Some((alpha, beta, depth, answer)),
            final(self).settings == old(self).settings,
            final(self).statistics == old(self).statistics,
            final(self).best == old(self).best,
            final(self).played == old(self).played,
            final(self).last_store == old(self).last_store,
            final(self).cancel_seen == old(self).cancel_seen,
    {
        let answer = game.probe_table(alpha, beta, depth);
        proof {
            self.last_probe@ = Some((alpha, beta, depth, answer));
        }
        answer
    }

    /// Plays an action in the game; an action that was played is noted as
    /// played.
    fn play<G: WorkerGame>(&mut self, game: &mut G, action: ActionId) -> (result: Result<(), G::Error>)
        ensures
            result is Ok ==> final(self).played@ == old(self).played@.push(action),
            result is Err ==> final(self).played@ == old(self).played@,
            final(self).settings == old(self).settings,
            final(self).statistics == old(self).statistics,
            final(self).best == old(self).best,
            final(self).searched_children == old(self).searched_children,
    {
        let result = game.do_action(action);
        if result.is_ok() {
            proof {
                self.played@ = self.played@.push(action);
            }
        }
        result
    }

    /// Takes the action played last back in the game; an action that was
    /// taken back is no longer noted as played.
    fn take_back<G: WorkerGame>(&mut self, game: &mut G, action: ActionId) -> (result: Result<(), G::Error>)
        requires
            old(self).played@.len() > 0,
            old(self).played@.last() == action,
        ensures
            result is Ok ==> final(self).played@ == old(self).played@.drop_last(),
            result is Err ==> final(self).played@ == old(self).played@,
            final(self).settings == old(self).settings,
            final(self).statistics == old(self).statistics,
            final(self).best == old(self).best,
            final(self).searched_children == old(self).searched_children,
    {
        let result = game.undo_action(action);
        if result.is_ok() {
            proof {
                self.played@ = self.played@.drop_last();
            }
        }
        result
    }

    /// Ends the search at `depth`: the main worker reports the statistics
    /// of the search once more (when they are kept), and the best root
    /// action with its evaluation is taken out of the worker.
    pub fn finish_search<G: WorkerGame>(&mut self, game: &mut G, depth: usize) -> (result: Option<(ActionId, i32)>)
        ensures
            result == old(self).best,
            final(self).best is None,
            final(self).settings == old(self).settings,
    {
        if self.settings.main_worker && ACTIVE {
            game.iteration_finished(depth, &self.statistics);
        }
        let result = self.best;
        self.best = None;
        result
    }

    /// The evaluation of a leaf for the player to move, counted as a leaf
    /// node.
    fn evaluation<G: WorkerGame>(&mut self, game: &mut G) -> (value: i32)
        ensures
            final(self).settings == old(self).settings,
            final(self).best == old(self).best,
            final(self).played == old(self).played,
            ACTIVE && old(self).statistics.leaf_nodes_searched < usize::MAX ==> final(self).statistics
                == (SearchStatistics {
                leaf_nodes_searched: (old(self).statistics.leaf_nodes_searched + 1) as usize,
                ..old(self).statistics
            }),
            !(ACTIVE && old(self).statistics.leaf_nodes_searched < usize::MAX) ==> final(self).statistics
                == old(self).statistics,
            final(self).last_probe == old(self).last_probe,
            final(self).last_store == old(self).last_store,
            final(self).cancel_seen == old(self).cancel_seen,
    {
        let is_player_1 = game.is_player_1();
        let evaluation = game.evaluate_node();
        if self.statistics.leaf_nodes_searched < usize::MAX {
            leaf_evaluation(&mut self.statistics, is_player_1, evaluation)
        } else {
            leaf_evaluation(&mut uncounted(), is_player_1, evaluation)
        }
    }

    /// Stores an evaluation in the transposition table as the symmetry type
    /// says (nothing when the table is disabled).
    fn store<G: WorkerGame>(
        &mut self,
        game: &mut G,
        depth: usize,
        evaluation: i32,
        evaluation_type: EvaluationType,
        action: ActionId,
    )
        requires
            old(self).settings.well_formed(),
        ensures
            final(self).last_store@ == if old(self).settings.variant.symmetry_type == 'd' {
                old(self).last_store@
            } else {
                Some((depth, evaluation, evaluation_type, action))
            },
            final(self).settings == old(self).settings,
            final(self).statistics == old(self).statistics,
            final(self).best == old(self).best,
            final(self).played == old(self).played,
            final(self).last_probe == old(self).last_probe,
            final(self).cancel_seen == old(self).cancel_seen,
            final(self).searched_children == old(self).searched_children,
    {
        if self.settings.variant.symmetry_type != 'd' {
            proof {
                self.last_store@ = Some((depth, evaluation, evaluation_type, action));
            }
        }
        match table_store(self.settings.variant.symmetry_type) {
            TableStore::Skip => {},
            TableStore::Plain => game.store_in_table(depth, evaluation, evaluation_type, action),
            TableStore::WithSymmetries => game.store_in_table_with_symmetries(
                depth,
                evaluation,
                evaluation_type,
                action,
            ),
        }
    }

    /// The principal variation action of a node: the best root action found
    /// so far at the root, else the action of the transposition table.
    fn pv_action<G: WorkerGame>(&self, game: &mut G, ply_from_root: usize) -> (pv_action: Option<ActionId>)
        ensures
            ply_from_root == 0 && self.best is Some ==> pv_action == Some(self.best.unwrap().0),
            !(ply_from_root == 0 && self.best is Some) && self.settings.variant.symmetry_type == 'd'
                ==> pv_action is None,
    {
        let best_action = match self.best {
            Some((action, _)) => Some(action),
            None => None,
        };
        match pv_action_source(ply_from_root, best_action, self.settings.variant.symmetry_type != 'd') {
            PvActionSource::Best(action) => Some(action),
            PvActionSource::Table => game.probe_pv_move(),
            PvActionSource::Absent => None,
        }
    }

    /// The depth after an action and its search extension (see
    /// `get_next_depth`), counted while the counts have room.
    fn next_depth<G: WorkerGame>(
        &mut self,
        game: &G,
        depth: usize,
        will_zero_window_search: bool,
        zero_window_search: bool,
        num_extensions: usize,
        previous_special_tile_condition_reached: bool,
    ) -> (next: (usize, usize))
        requires
            depth >= 1,
            num_extensions < old(self).settings.max_search_extensions ==> depth + 1 <= usize::MAX,
        ensures
            will_zero_window_search ==> next == (((depth - 1) as usize, 0usize)),
            next.1 <= 2,
            next.1 > 0 ==> !zero_window_search && num_extensions < old(self).settings.max_search_extensions,
            next.0 == depth - 1 + next.1,
            final(self).settings == old(self).settings,
            final(self).best == old(self).best,
            final(self).played == old(self).played,
            !will_zero_window_search ==> extension_step(
                old(self).statistics,
                final(self).statistics,
                next.1,
                zero_window_search,
                old(self).settings.variant.search_extensions,
                num_extensions,
                old(self).settings.max_search_extensions,
                previous_special_tile_condition_reached,
            ),
            will_zero_window_search ==> final(self).statistics == old(self).statistics,
    {
        proof {
            reveal(extension_step);
        }
        let special_patch_placement = game.is_special_patch_placement();
        let special_tile_condition_reached = game.is_special_tile_condition_reached();
        if self.statistics.special_patch_extensions < usize::MAX
            && self.statistics.special_tile_extensions < usize::MAX {
            get_next_depth(
                &mut self.statistics,
                depth,
                will_zero_window_search,
                zero_window_search,
                self.settings.variant.search_extensions,
                num_extensions,
                self.settings.max_search_extensions,
                special_patch_placement,
                previous_special_tile_condition_reached,
                special_tile_condition_reached,
            )
        } else {
            get_next_depth(
                &mut uncounted(),
                depth,
                will_zero_window_search,
                zero_window_search,
                self.settings.variant.search_extensions,
                num_extensions,
                self.settings.max_search_extensions,
                special_patch_placement,
                previous_special_tile_condition_reached,
                special_tile_condition_reached,
            )
        }
    }

    /// The fail-hard (or fail-soft) zero window search with the window
    /// `[beta - 1, beta]`.
    ///
    /// With the fail-hard strategy a cut-off returns beta and a searched node
    /// returns `beta - 1`.
    pub fn zero_window_search<G: WorkerGame>(
        &mut self,
        game: &mut G,
        ply_from_root: usize,
        depth: usize,
        beta: i32,
        num_extensions: usize,
    ) -> (result: Result<(i32, WorkerNode), G::Error>)
        requires
            old(self).settings.well_formed(),
            AMOUNT_PER_PATCH > 0,
            -WINDOW_LIMIT <= beta <= WINDOW_LIMIT + 1,
            num_extensions <= old(self).settings.max_search_extensions + 1,
            ply_from_root + search_measure(depth, old(self).settings.max_search_extensions, num_extensions)
                <= usize::MAX,
        ensures
            result matches Ok((value, WorkerNode::Canceled)) ==> value == 0,
            result matches Ok((value, WorkerNode::Cutoff)) ==> if old(self).settings.variant.soft_failing_strategy {
                value >= beta
            } else {
                value == beta
            },
            result matches Ok((value, WorkerNode::Searched)) ==> value == beta - 1,
            !old(self).settings.variant.soft_failing_strategy ==> (result matches Ok((value, kind)) ==> (
            kind !is Canceled ==> beta - 1 <= value <= beta)),
            final(self).settings == old(self).settings,
            final(self).best == old(self).best,
            result is Ok ==> final(self).played@ == old(self).played@,
        decreases search_measure(depth, old(self).settings.max_search_extensions, num_extensions), 3int,
    {
        self.search_node(game, ply_from_root, depth, beta - 1, beta, num_extensions, true, false)
    }

    /// The principal variation search of a node with the window
    /// `[alpha, beta]` at `depth` plies (plus search extensions) below the
    /// node, which lies `ply_from_root` plies below the root;
    /// `zero_window_search` marks a node below a zero window search.
    ///
    /// A cut-off returns beta (fail-hard) or the evaluation that reached it
    /// (fail-soft); a searched node returns the largest of alpha and the
    /// negated values of its children. With the fail-hard strategy a leaf, a
    /// table answer or a skipped phantom turn is brought into the window, so
    /// that every value (but that of a canceled search) lies in it. At the
    /// root (outside a zero window search) the best action and its
    /// evaluation are kept. Every action played is taken back.
    ///
    /// With a transposition table the table is asked with the window and the
    /// depth, and an answer ends the search of the node; otherwise a cut-off
    /// stores beta as a lower bound with the action that reached it, and a
    /// searched node stores its value (exact above alpha, an upper bound
    /// otherwise) with the action of its best child (the null action when no
    /// child raised alpha). A canceled search is one whose last look at the
    /// cancel flag found it set.
    pub fn principal_variation_search<G: WorkerGame>(
        &mut self,
        game: &mut G,
        ply_from_root: usize,
        depth: usize,
        alpha: i32,
        beta: i32,
        num_extensions: usize,
        zero_window_search: bool,
    ) -> (result: Result<(i32, WorkerNode), G::Error>)
        requires
            old(self).settings.well_formed(),
            AMOUNT_PER_PATCH > 0,
            -WINDOW_LIMIT - 1 <= alpha <= WINDOW_LIMIT,
            -WINDOW_LIMIT <= beta <= WINDOW_LIMIT + 1,
            num_extensions <= old(self).settings.max_search_extensions + 1,
            ply_from_root + search_measure(depth, old(self).settings.max_search_extensions, num_extensions)
                <= usize::MAX,
        ensures
            result matches Ok((value, WorkerNode::Canceled)) ==> value == 0,
            result matches Ok((value, WorkerNode::Cutoff)) ==> if old(self).settings.variant.soft_failing_strategy {
                value >= beta
            } else {
                value == beta
            },
            result matches Ok((value, WorkerNode::Searched)) ==> value == alpha || (alpha < value < beta),
            zero_window_search ==> (result matches Ok((value, WorkerNode::Searched)) ==> value == alpha),
            final(self).settings == old(self).settings,
            ply_from_root != 0 || zero_window_search ==> final(self).best == old(self).best,
            ply_from_root == 0 && !zero_window_search ==> (result matches Ok((value, kind)) ==> (kind
                is Searched || kind is TableHit ==> has_best_evaluation(final(self).best, value))),
            !old(self).settings.variant.soft_failing_strategy && alpha <= beta ==> (result matches Ok((
                value,
                kind,
            )) ==> (kind !is Canceled ==> alpha <= value <= beta)),
            !zero_window_search ==> (result matches Ok((value, WorkerNode::Searched)) ==> value
                == maximum_evaluation(alpha, negated_children(final(self).searched_children@))),
            result matches Ok((_, WorkerNode::Canceled)) ==> final(self).cancel_seen@,
            result matches Ok((_, kind)) ==> (kind is Leaf || kind is TableHit || kind is Cutoff
                || kind is Searched ==> !final(self).cancel_seen@),
            result matches Ok((value, WorkerNode::TableHit)) ==> old(self).settings.variant.symmetry_type != 'd'
                && table_hit(
                final(self).last_probe@,
                alpha,
                beta,
                depth,
                value,
                old(self).settings.variant.soft_failing_strategy,
            ),
            old(self).settings.variant.symmetry_type != 'd' ==> (result matches Ok((_, kind)) ==> (kind is Leaf
                || kind is Cutoff || kind is Searched ==> table_missed(final(self).last_probe@, alpha, beta, depth))),
            old(self).settings.variant.symmetry_type != 'd' ==> (result matches Ok((_, WorkerNode::Cutoff)) ==> table_stored(
                final(self).last_store@,
                depth,
                beta,
                EvaluationType::LowerBound,
            )),
            result matches Ok((_, WorkerNode::Cutoff)) ==> final(self).searched_children@.len() > 0 && negated(
                final(self).searched_children@.last().1,
            ) >= beta,
            old(self).settings.variant.symmetry_type != 'd' ==> (result matches Ok((_, WorkerNode::Cutoff))
                ==> final(self).last_store@.unwrap().3 == final(self).searched_children@.last().0),
            old(self).settings.variant.symmetry_type != 'd' && !zero_window_search ==> (result matches Ok((
                _,
                WorkerNode::Searched,
            )) ==> (best_child_action(alpha, negated_children(final(self).searched_children@)) matches Some(
                action,
            ) ==> final(self).last_store@.unwrap().3 == action)),
            old(self).settings.variant.symmetry_type != 'd' ==> (result matches Ok((value, WorkerNode::Searched)) ==> table_stored(
                final(self).last_store@,
                depth,
                value,
                if value > alpha {
                    EvaluationType::Exact
                } else {
                    EvaluationType::UpperBound
                },
            )),
            result is Ok ==> final(self).played@ == old(self).played@,
        decreases search_measure(depth, old(self).settings.max_search_extensions, num_extensions), 3int,
    {
        self.search_node(game, ply_from_root, depth, alpha, beta, num_extensions, zero_window_search, false)
    }

    /// Searches the child reached by the action just played: the first
    /// (principal variation) child with the full window, a later child with
    /// a zero window (first with a reduced depth when late move reductions
    /// apply), searched again with the full window when the zero window
    /// search fails. Returns the evaluation of the child for the node and the
    /// value the child's last search returned, whose negation it is.
    fn search_child<G: WorkerGame>(
        &mut self,
        game: &mut G,
        ply_from_root: usize,
        depth: usize,
        beta: i32,
        node_alpha: i32,
        is_pv_node: bool,
        action_index: usize,
        num_extensions: usize,
        zero_window_search: bool,
        previous_special_tile_condition_reached: bool,
    ) -> (result: Result<(i32, i32), G::Error>)
        requires
            old(self).settings.well_formed(),
            AMOUNT_PER_PATCH > 0,
            0 < depth,
            -WINDOW_LIMIT - 1 <= node_alpha <= WINDOW_LIMIT,
            -WINDOW_LIMIT <= beta <= WINDOW_LIMIT + 1,
            num_extensions <= old(self).settings.max_search_extensions + 1,
            ply_from_root + search_measure(depth, old(self).settings.max_search_extensions, num_extensions)
                <= usize::MAX,
        ensures
            result matches Ok((evaluation, raw)) ==> evaluation == negated(raw),
            final(self).settings == old(self).settings,
            final(self).best == old(self).best,
            result is Ok ==> final(self).played@ == old(self).played@,
        decreases search_measure(depth, old(self).settings.max_search_extensions, num_extensions), 0int,
    {
        let (next_depth, extension) = self.next_depth(
            game,
            depth,
            !is_pv_node,
            zero_window_search,
            num_extensions,
            previous_special_tile_condition_reached,
        );

        let mut evaluation: i32 = 0;
        let mut raw: i32 = 0;
        if is_pv_node {
            // full window search for the pv node
            let (child, _) = self.search_node(
                game,
                ply_from_root + 1,
                next_depth,
                negate(beta),
                negate(node_alpha),
                num_extensions + extension,
                zero_window_search,
                false,
            )?;
            raw = child;
            evaluation = negate(child);
        } else {
            count_zero_window_search(&mut self.statistics);
            let mut needs_full_search = true;

            // late move reductions: search later actions with a reduced
            // depth first
            let special_patch_placement = game.is_special_patch_placement();
            if self.settings.variant.late_move_reductions {
                let reduce = if self.statistics.late_move_reductions < usize::MAX {
                    should_late_move_reduce(
                        &mut self.statistics,
                        action_index,
                        ply_from_root,
                        extension,
                        special_patch_placement,
                        self.settings.lmr_full_depth_actions,
                        self.settings.lmr_apply_after_plys,
                    )
                } else {
                    should_late_move_reduce(
                        &mut uncounted(),
                        action_index,
                        ply_from_root,
                        extension,
                        special_patch_placement,
                        self.settings.lmr_full_depth_actions,
                        self.settings.lmr_apply_after_plys,
                    )
                };
                if reduce {
                    let reduced_depth = get_late_move_reduced_depth(next_depth);
                    let (child, _) = self.zero_window_search(
                        game,
                        ply_from_root + 1,
                        reduced_depth,
                        negate(node_alpha),
                        num_extensions + extension,
                    )?;
                    raw = child;
                    evaluation = negate(child);
                    needs_full_search = evaluation > node_alpha;
                    if needs_full_search {
                        count_late_move_reduction_fail(&mut self.statistics);
                    }
                }
            }

            if needs_full_search {
                // null window search at full depth (without search
                // extensions)
                let (child, _) = self.zero_window_search(
                    game,
                    ply_from_root + 1,
                    next_depth,
                    negate(node_alpha),
                    num_extensions + extension,
                )?;
                raw = child;
                evaluation = negate(child);

                if evaluation > node_alpha && evaluation < beta && !zero_window_search {
                    // the zero window search failed: search again with
                    // the full window
                    let (full_depth, full_extension) = self.next_depth(
                        game,
                        depth,
                        false,
                        zero_window_search,
                        num_extensions,
                        previous_special_tile_condition_reached,
                    );
                    count_zero_window_search_fail(&mut self.statistics);
                    let (child, _) = self.search_node(
                        game,
                        ply_from_root + 1,
                        full_depth + full_extension,
                        negate(beta),
                        negate(node_alpha),
                        num_extensions + full_extension,
                        zero_window_search,
                        false,
                    )?;
                    raw = child;
                    evaluation = negate(child);
                }
            }
        }

        Ok((evaluation, raw))
    }

    /// The search of a node; `after_phantom` marks the position right after
    /// a skipped phantom turn, where no second phantom turn is skipped.
    #[verifier::rlimit(100)]
    #[verifier::spinoff_prover]
    fn search_node<G: WorkerGame>(
        &mut self,
        game: &mut G,
        ply_from_root: usize,
        depth: usize,
        alpha: i32,
        beta: i32,
        num_extensions: usize,
        zero_window_search: bool,
        after_phantom: bool,
    ) -> (result: Result<(i32, WorkerNode), G::Error>)
        requires
            old(self).settings.well_formed(),
            AMOUNT_PER_PATCH > 0,
            -WINDOW_LIMIT - 1 <= alpha <= WINDOW_LIMIT,
            -WINDOW_LIMIT <= beta <= WINDOW_LIMIT + 1,
            num_extensions <= old(self).settings.max_search_extensions + 1,
            ply_from_root + search_measure(depth, old(self).settings.max_search_extensions, num_extensions)
                <= usize::MAX,
        ensures
            result matches Ok((value, WorkerNode::Canceled)) ==> value == 0,
            result matches Ok((value, WorkerNode::Cutoff)) ==> if old(self).settings.variant.soft_failing_strategy {
                value >= beta
            } else {
                value == beta
            },
            result matches Ok((value, WorkerNode::Searched)) ==> value == alpha || (alpha < value < beta),
            zero_window_search ==> (result matches Ok((value, WorkerNode::Searched)) ==> value == alpha),
            final(self).settings == old(self).settings,
            ply_from_root != 0 || zero_window_search ==> final(self).best == old(self).best,
            ply_from_root == 0 && !zero_window_search ==> (result matches Ok((value, kind)) ==> (kind
                is Searched || kind is TableHit ==> has_best_evaluation(final(self).best, value))),
            !old(self).settings.variant.soft_failing_strategy && alpha <= beta ==> (result matches Ok((
                value,
                kind,
            )) ==> (kind !is Canceled ==> alpha <= value <= beta)),
            !zero_window_search ==> (result matches Ok((value, WorkerNode::Searched)) ==> value
                == maximum_evaluation(alpha, negated_children(final(self).searched_children@))),
            result is Ok ==> final(self).played@ == old(self).played@,
            result matches Ok((_, WorkerNode::Canceled)) ==> final(self).cancel_seen@,
            result matches Ok((_, kind)) ==> (kind is Leaf || kind is TableHit || kind is Cutoff
                || kind is Searched ==> !final(self).cancel_seen@),
            result matches Ok((value, WorkerNode::TableHit)) ==> old(self).settings.variant.symmetry_type != 'd'
                && table_hit(
                final(self).last_probe@,
                alpha,
                beta,
                depth,
                value,
                old(self).settings.variant.soft_failing_strategy,
            ),
            old(self).settings.variant.symmetry_type != 'd' ==> (result matches Ok((_, kind)) ==> (kind is Leaf
                || kind is Cutoff || kind is Searched ==> table_missed(final(self).last_probe@, alpha, beta, depth))),
            old(self).settings.variant.symmetry_type != 'd' ==> (result matches Ok((_, WorkerNode::Cutoff)) ==> table_stored(
                final(self).last_store@,
                depth,
                beta,
                EvaluationType::LowerBound,
            )),
            result matches Ok((_, WorkerNode::Cutoff)) ==> final(self).searched_children@.len() > 0 && negated(
                final(self).searched_children@.last().1,
            ) >= beta,
            old(self).settings.variant.symmetry_type != 'd' ==> (result matches Ok((_, WorkerNode::Cutoff))
                ==> final(self).last_store@.unwrap().3 == final(self).searched_children@.last().0),
            old(self).settings.variant.symmetry_type != 'd' && !zero_window_search ==> (result matches Ok((
                _,
                WorkerNode::Searched,
            )) ==> (best_child_action(alpha, negated_children(final(self).searched_children@)) matches Some(
                action,
            ) ==> final(self).last_store@.unwrap().3 == action)),
            old(self).settings.variant.symmetry_type != 'd' ==> (result matches Ok((value, WorkerNode::Searched)) ==> table_stored(
                final(self).last_store@,
                depth,
                value,
                if value > alpha {
                    EvaluationType::Exact
                } else {
                    EvaluationType::UpperBound
                },
            )),
        decreases search_measure(depth, old(self).settings.max_search_extensions, num_extensions),
            if after_phantom { 1int } else { 2int },
    {
        count_node(&mut self.statistics);

        // the search was canceled: return as fast as possible
        if self.canceled(game) {
            return Ok((0, WorkerNode::Canceled));
        }

        // skip phantom turns
        if game.is_phantom_turn() && !after_phantom {
            let phantom = game.phantom_action();
            self.play(game, phantom)?;
            let (child, _) = self.search_node(
                game,
                ply_from_root,
                depth,
                alpha,
                beta,
                num_extensions,
                zero_window_search,
                true,
            )?;
            self.take_back(game, phantom)?;
            proof {
                assert(old(self).played@.push(phantom).drop_last() =~= old(self).played@);
            }
            let value = bound_to_window(
                negate(child),
                alpha,
                beta,
                self.settings.variant.soft_failing_strategy,
            );
            return Ok((value, WorkerNode::Phantom));
        }

        // transposition table lookup
        if self.settings.variant.symmetry_type != 'd' {
            if let Some((table_action, table_evaluation)) = self.probe(game, alpha, beta, depth) {
                let value = bound_to_window(
                    table_evaluation,
                    alpha,
                    beta,
                    self.settings.variant.soft_failing_strategy,
                );
                if ply_from_root == 0 && !zero_window_search {
                    self.best = Some((table_action, value));
                }
                return Ok((value, WorkerNode::TableHit));
            }
        }

        let ghost node_probe = self.last_probe@;

        if depth == 0 || game.is_terminated() {
            let evaluation = self.evaluation(game);
            let value = bound_to_window(evaluation, alpha, beta, self.settings.variant.soft_failing_strategy);
            return Ok((value, WorkerNode::Leaf));
        }

        let pv_action = self.pv_action(game, ply_from_root);
        let mut actions = game.scored_actions(pv_action, ply_from_root);
        let action_count = actions.len();
        let mut lmp_flags: LMPFlags<AMOUNT_PER_PATCH> = if self.settings.variant.late_move_pruning {
            LMPFlags::initialize_from(actions.as_slice())
        } else {
            LMPFlags::fake()
        };
        let mut node = SearchNode::new(alpha, beta, game.null_action());
        let ghost mut children: Seq<(ActionId, i32)> = Seq::empty();

        let mut i: usize = 0;
        while i < action_count
            invariant
                0 < depth,
                self.settings == old(self).settings,
                self.settings.well_formed(),
                AMOUNT_PER_PATCH > 0,
                -WINDOW_LIMIT - 1 <= alpha <= WINDOW_LIMIT,
                -WINDOW_LIMIT <= beta <= WINDOW_LIMIT + 1,
                node.beta == beta,
                node.alpha == alpha || (alpha < node.alpha < beta),
                zero_window_search ==> node.alpha == alpha,
                !zero_window_search ==> node.alpha == maximum_evaluation(alpha, negated_children(children)),
                node.evaluation_bound == if node.alpha > alpha {
                    EvaluationType::Exact
                } else {
                    EvaluationType::UpperBound
                },
                self.settings.variant.symmetry_type != 'd' ==> table_missed(node_probe, alpha, beta, depth),
                !zero_window_search ==> (best_child_action(alpha, negated_children(children)) matches Some(
                    best,
                ) ==> node.best_action == best),
                !self.cancel_seen@,
                self.played@ == old(self).played@,
                num_extensions <= self.settings.max_search_extensions + 1,
                ply_from_root + search_measure(depth, self.settings.max_search_extensions, num_extensions)
                    <= usize::MAX,
                ply_from_root != 0 || zero_window_search ==> self.best == old(self).best,
            decreases action_count - i,
        {
            let next = if self.statistics.late_move_pruning < usize::MAX {
                get_next_action(
                    &mut self.statistics,
                    &mut lmp_flags,
                    self.settings.variant.late_move_pruning,
                    ply_from_root,
                    i,
                    self.settings.lmp_apply_after_plys,
                    self.settings.lmp_non_pruned_actions,
                )
            } else {
                get_next_action(
                    &mut uncounted(),
                    &mut lmp_flags,
                    self.settings.variant.late_move_pruning,
                    ply_from_root,
                    i,
                    self.settings.lmp_apply_after_plys,
                    self.settings.lmp_non_pruned_actions,
                )
            };
            let action = match next {
                NextAction::Ordered => game.pick_action(&mut actions, i),
                NextAction::Missing(missing) => missing,
                NextAction::Pruned => {
                    break;
                },
            };

            // save what the search extensions need of the previous state
            let previous_special_tile_condition_reached = game.is_special_tile_condition_reached();

            self.play(game, action)?;

            let (evaluation, raw) = self.search_child(
                game,
                ply_from_root,
                depth,
                beta,
                node.alpha,
                node.is_pv_node,
                i,
                num_extensions,
                zero_window_search,
                previous_special_tile_condition_reached,
            )?;

            self.take_back(game, action)?;
            proof {
                assert(old(self).played@.push(action).drop_last() =~= old(self).played@);
            }

            if self.canceled(game) {
                return Ok((0, WorkerNode::Canceled));
            }

            let verdict = if self.statistics.fail_high < usize::MAX && self.statistics.fail_high_first
                < usize::MAX {
                node.record_child(
                    &mut self.statistics,
                    action,
                    evaluation,
                    self.settings.variant.soft_failing_strategy,
                    zero_window_search,
                )
            } else {
                node.record_child(
                    &mut uncounted(),
                    action,
                    evaluation,
                    self.settings.variant.soft_failing_strategy,
                    zero_window_search,
                )
            };
            if let ChildVerdict::Cutoff { value } = verdict {
                self.store(game, depth, beta, EvaluationType::LowerBound, action);
                proof {
                    self.last_probe@ = node_probe;
                    self.searched_children@ = children.push((action, raw));
                }
                return Ok((value, WorkerNode::Cutoff));
            }
            proof {
                let before = negated_children(children);
                children = children.push((action, raw));
                assert(negated_children(children) =~= before.push((action, negated(raw))));
                assert(before.push((action, negated(raw))).drop_last() =~= before);
            }
            i += 1;
        }

        // a node whose actions all failed low stores the null action, as the
        // true best action is unknown
        self.store(game, depth, node.alpha, node.evaluation_bound, node.best_action);

        if ply_from_root == 0 && !zero_window_search {
            self.best = Some((node.best_action, node.alpha));
        }
        proof {
            self.last_probe@ = node_probe;
            self.searched_children@ = children;
        }

        Ok((node.alpha, WorkerNode::Searched))
    }
}

/// Whether a window can be searched: its bounds lie within the window
/// limits of the search.
pub open spec fn iteration_window_searchable(window: IterationWindow) -> bool {
    &&& -WINDOW_LIMIT - 1 <= window.alpha <= WINDOW_LIMIT
    &&& -WINDOW_LIMIT <= window.beta <= WINDOW_LIMIT + 1
}

/// Whether there is a best root result and its evaluation is `value`.
pub open spec fn has_best_evaluation(best: Option<(ActionId, i32)>, value: i32) -> bool {
    best is Some && best.unwrap().1 == value
}

/// Whether a best root result is a win.
pub open spec fn is_win(best: Option<(ActionId, i32)>) -> bool {
    best matches Some(result) && result.1 == POSITIVE_INFINITY
}

impl<const ACTIVE: bool, const AMOUNT_PER_PATCH: usize> Worker<ACTIVE, AMOUNT_PER_PATCH> {
    /// One iteration of the iterative deepening of the worker: searches the
    /// root with the window and decides how to go on.
    ///
    /// A canceled search keeps the best result of the previous iterations.
    /// With aspiration windows, a search at or below alpha or at or above
    /// beta moves the window (counting the failure) and drops the best
    /// result of the failed search, for another search at the same depth.
    /// Otherwise a winning best result stops the search, and any other
    /// result is reported by the main worker (when statistics are kept), the
    /// window moves one depth deeper (around the evaluation with aspiration
    /// windows) and the statistics of the iteration are reset.
    pub fn search_iteration<G: WorkerGame>(&mut self, game: &mut G, window: &mut IterationWindow) -> (result: Result<WorkerIteration, G::Error>)
        requires
            old(self).settings.well_formed(),
            AMOUNT_PER_PATCH > 0,
            old(window).depth < MAX_DEPTH,
        ensures
            final(self).settings == old(self).settings,
            result matches Ok(WorkerIteration::Canceled) ==> final(self).best == old(self).best
                && *final(window) == *old(window) && final(self).cancel_seen@,
            result matches Ok(iteration) ==> (iteration is SearchAgain || iteration is Won
                || iteration is NextDepth ==> !final(self).cancel_seen@),
            result matches Ok(WorkerIteration::OutOfRange) ==> *final(window) == *old(window),
            result matches Ok(WorkerIteration::SearchAgain(evaluation)) ==> iteration_step(
                *old(window),
                evaluation,
                old(self).settings.variant.aspiration_windows,
                false,
            ) == IterationStep::SearchAgain && *final(window) == next_iteration_window(
                *old(window),
                evaluation,
                old(self).settings.variant.aspiration_windows,
                old(self).settings.minimum_delta,
                false,
            ) && final(self).best == old(self).best,
            result matches Ok(WorkerIteration::Won) ==> is_win(final(self).best) && *final(window)
                == *old(window),
            ACTIVE ==> (result matches Ok(WorkerIteration::NextDepth(_)) ==> final(self).statistics.nodes_searched
                == 0 && final(self).statistics.leaf_nodes_searched == 0 && final(self).statistics.fail_high == 0
                && final(self).statistics.aspiration_window_fail_low == 0
                && final(self).statistics.aspiration_window_fail_high == 0
                && final(self).statistics.zero_window_search == 0),
            result matches Ok(WorkerIteration::NextDepth(evaluation)) ==> iteration_step(
                *old(window),
                evaluation,
                old(self).settings.variant.aspiration_windows,
                false,
            ) == IterationStep::NextDepth && !is_win(final(self).best) && *final(window)
                == next_iteration_window(
                *old(window),
                evaluation,
                old(self).settings.variant.aspiration_windows,
                old(self).settings.minimum_delta,
                false,
            ),
    {
        if !(-WINDOW_LIMIT - 1 <= window.alpha && window.alpha <= WINDOW_LIMIT && -WINDOW_LIMIT
            <= window.beta && window.beta <= WINDOW_LIMIT + 1) {
            return Ok(WorkerIteration::OutOfRange);
        }
        let previous_best = self.best;

        let (evaluation, _) = self.principal_variation_search(
            game,
            0,
            window.depth,
            window.alpha,
            window.beta,
            0,
            false,
        )?;

        if self.canceled(game) {
            self.best = previous_best;
            return Ok(WorkerIteration::Canceled);
        }

        let aspiration_windows = self.settings.variant.aspiration_windows;
        let minimum_delta = self.settings.minimum_delta;
        if !iteration_updatable_now(window, evaluation, aspiration_windows, minimum_delta) {
            return Ok(WorkerIteration::OutOfRange);
        }

        let found_win = match self.best {
            Some((_, best_evaluation)) => best_evaluation == POSITIVE_INFINITY,
            None => false,
        };
        let depth = window.depth;
        let step = if self.statistics.aspiration_window_fail_low < usize::MAX
            && self.statistics.aspiration_window_fail_high < usize::MAX {
            window.after_search(&mut self.statistics, evaluation, aspiration_windows, minimum_delta, found_win)
        } else {
            window.after_search(&mut uncounted(), evaluation, aspiration_windows, minimum_delta, found_win)
        };

        match step {
            IterationStep::SearchAgain => {
                self.best = previous_best;
                Ok(WorkerIteration::SearchAgain(evaluation))
            },
            IterationStep::Stop => Ok(WorkerIteration::Won),
            IterationStep::NextDepth => {
                if self.settings.main_worker && ACTIVE {
                    game.iteration_finished(depth, &self.statistics);
                }
                self.statistics.reset_iterative_deepening_iteration();
                Ok(WorkerIteration::NextDepth(evaluation))
            },
        }
    }
}

/// Whether the window can be moved after a search that returned
/// `evaluation` (see `iteration_updatable`).
fn iteration_updatable_now(
    window: &IterationWindow,
    evaluation: i32,
    aspiration_windows: bool,
    minimum_delta: i32,
) -> (updatable: bool)
    ensures
        updatable == iteration_updatable(*window, evaluation, aspiration_windows, minimum_delta),
{
    let grown = window.delta as i64 + (window.delta / 3) as i64;
    let grown_fits = i32::MIN as i64 <= grown && grown <= i32::MAX as i64;
    if aspiration_windows && evaluation <= window.alpha {
        let sum = window.alpha as i64 + window.beta as i64;
        let lowered = evaluation as i64 - window.delta as i64;
        i32::MIN as i64 <= sum && sum <= i32::MAX as i64 && i32::MIN as i64 <= lowered && lowered
            <= i32::MAX as i64 && grown_fits
    } else if aspiration_windows && evaluation >= window.beta {
        let raised = evaluation as i64 + window.delta as i64;
        i32::MIN as i64 <= raised && raised <= i32::MAX as i64 && grown_fits
    } else if aspiration_windows {
        if evaluation == i32::MIN {
            return false;
        }
        let magnitude: i64 = if evaluation < 0 {
            -(evaluation as i64)
        } else {
            evaluation as i64
        };
        let widened = minimum_delta as i64 + magnitude / 10;
        if !(i32::MIN as i64 <= widened && widened <= i32::MAX as i64) {
            return false;
        }
        let delta: i64 = if widened <= POSITIVE_INFINITY as i64 {
            widened
        } else {
            POSITIVE_INFINITY as i64
        };
        let below = evaluation as i64 - delta;
        let above = evaluation as i64 + delta;
        i32::MIN as i64 <= below && below <= i32::MAX as i64 && i32::MIN as i64 <= above && above
            <= i32::MAX as i64 && window.depth < usize::MAX
    } else {
        window.depth < usize::MAX
    }
}

} // verus!
