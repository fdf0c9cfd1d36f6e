use vstd::prelude::*;

use crate::action_id::ActionId;
use crate::evaluation_bounds::{div_toward_zero, max_int, min_int, NEGATIVE_INFINITY, POSITIVE_INFINITY};
use crate::lazy_smp_pvs::lmp_flags::LMPFlags;
use crate::lazy_smp_pvs::search_statistics::SearchStatistics;
use crate::principal_variation_search::negated;

verus! {

/// The minimum bound for alpha: less than the minimum evaluation, so that the
/// widest window never fails low.
pub const MIN_ALPHA_BOUND: i32 = -1_000_001;

/// The maximum bound for beta: greater than the maximum evaluation, so that
/// the widest window never fails high.
pub const MAX_BETA_BOUND: i32 = 1_000_001;

/// The maximum depth that is searched (including phantom actions). No game
/// lasts longer than 63 · 2 plies.
pub const MAX_DEPTH: usize = 126;

/// The grown delta of an aspiration window after a failed search:
/// `delta + delta / 3`, at most `POSITIVE_INFINITY`.
pub open spec fn grown_delta(delta: i32) -> int {
    min_int(delta + div_toward_zero(delta as int, 3), POSITIVE_INFINITY as int)
}

/// Updates the window after the search failed low (the evaluation is at or
/// below alpha): beta moves to the middle between the old alpha and beta,
/// alpha moves `delta` below the evaluation (but not below
/// `MIN_ALPHA_BOUND`), and delta grows by a third (at most
/// `POSITIVE_INFINITY`). Counts an aspiration window fail-low.
///
/// Returns the new alpha, beta and delta.
pub fn update_aspiration_window_lower_bound<const ACTIVE: bool>(
    statistics: &mut SearchStatistics<ACTIVE>,
    alpha: i32,
    beta: i32,
    evaluation: i32,
    delta: i32,
) -> (window: (i32, i32, i32))
    requires
        i32::MIN <= alpha + beta <= i32::MAX,
        i32::MIN <= evaluation - delta <= i32::MAX,
        i32::MIN <= delta + delta / 3 <= i32::MAX,
        ACTIVE ==> old(statistics).aspiration_window_fail_low < usize::MAX,
    ensures
        window.0 == max_int(evaluation - delta, MIN_ALPHA_BOUND as int),
        window.1 == div_toward_zero(alpha + beta, 2),
        window.2 == grown_delta(delta),
        ACTIVE ==> *final(statistics) == (SearchStatistics {
            aspiration_window_fail_low: (old(statistics).aspiration_window_fail_low + 1) as usize,
            ..*old(statistics)
        }),
        !ACTIVE ==> *final(statistics) == *old(statistics),
{
    // Beta is adjusted into the middle between the old alpha and beta, alpha
    // is adjusted delta away from the evaluation that was returned and delta
    // grows with an exponential backoff.
    let new_beta = (alpha + beta) / 2;
    let lowered = evaluation - delta;
    let new_alpha = if lowered >= MIN_ALPHA_BOUND {
        lowered
    } else {
        MIN_ALPHA_BOUND
    };
    let grown = delta + delta / 3;
    let new_delta = if grown <= POSITIVE_INFINITY {
        grown
    } else {
        POSITIVE_INFINITY
    };

    statistics.increment_aspiration_window_fail_low();

    (new_alpha, new_beta, new_delta)
}

/// Updates the window after the search failed high (the evaluation is at or
/// above beta): beta moves `delta` above the evaluation (but not above
/// `MAX_BETA_BOUND`), alpha stays, and delta grows by a third (at most
/// `POSITIVE_INFINITY`). Counts an aspiration window fail-high.
///
/// Returns the new alpha, beta and delta.
pub fn update_aspiration_window_upper_bound<const ACTIVE: bool>(
    statistics: &mut SearchStatistics<ACTIVE>,
    alpha: i32,
    beta: i32,
    evaluation: i32,
    delta: i32,
) -> (window: (i32, i32, i32))
    requires
        i32::MIN <= evaluation + delta <= i32::MAX,
        i32::MIN <= delta + delta / 3 <= i32::MAX,
        ACTIVE ==> old(statistics).aspiration_window_fail_high < usize::MAX,
    ensures
        window.0 == alpha,
        window.1 == min_int(evaluation + delta, MAX_BETA_BOUND as int),
        window.2 == grown_delta(delta),
        ACTIVE ==> *final(statistics) == (SearchStatistics {
            aspiration_window_fail_high: (old(statistics).aspiration_window_fail_high + 1) as usize,
            ..*old(statistics)
        }),
        !ACTIVE ==> *final(statistics) == *old(statistics),
{
    let raised = evaluation + delta;
    let new_beta = if raised <= MAX_BETA_BOUND {
        raised
    } else {
        MAX_BETA_BOUND
    };
    let grown = delta + delta / 3;
    let new_delta = if grown <= POSITIVE_INFINITY {
        grown
    } else {
        POSITIVE_INFINITY
    };

    statistics.increment_aspiration_window_fail_high();

    (alpha, new_beta, new_delta)
}

/// The delta of a window set around an evaluation after a successful
/// search: the minimum delta plus a tenth of the magnitude of the
/// evaluation, at most `POSITIVE_INFINITY`.
pub open spec fn window_delta(evaluation: i32, minimum_delta: i32) -> int {
    let magnitude = if evaluation < 0 {
        -evaluation
    } else {
        evaluation as int
    };
    min_int(minimum_delta + magnitude / 10, POSITIVE_INFINITY as int)
}

/// Sets the window around the evaluation of a successful search: the delta
/// is the minimum delta plus a tenth of the magnitude of the evaluation (at
/// most `POSITIVE_INFINITY`), and alpha and beta lie delta below and above
/// the evaluation.
///
/// Returns the new alpha, beta and delta.
pub fn reset_aspiration_window(evaluation: i32, minimum_delta: i32) -> (window: (i32, i32, i32))
    requires
        evaluation != i32::MIN,
        i32::MIN <= minimum_delta + (if evaluation < 0 {
            -evaluation
        } else {
            evaluation as int
        }) / 10 <= i32::MAX,
        i32::MIN <= evaluation - window_delta(evaluation, minimum_delta) <= i32::MAX,
        i32::MIN <= evaluation + window_delta(evaluation, minimum_delta) <= i32::MAX,
    ensures
        window.2 == window_delta(evaluation, minimum_delta),
        window.0 == evaluation - window.2,
        window.1 == evaluation + window.2,
{
    let magnitude = if evaluation < 0 {
        -evaluation
    } else {
        evaluation
    };
    let widened = minimum_delta + magnitude / 10;
    let delta = if widened <= POSITIVE_INFINITY {
        widened
    } else {
        POSITIVE_INFINITY
    };

    (evaluation - delta, evaluation + delta, delta)
}

/// The reduced depth for late move reductions: a third less for depths of
/// at least 6, otherwise one less (never below zero).
pub open spec fn late_move_reduced_depth(depth: usize) -> int {
    if depth >= 6 {
        depth - depth / 3
    } else if depth >= 1 {
        depth - 1
    } else {
        0
    }
}

/// Gets the reduced depth for late move reductions (LMR).
pub fn get_late_move_reduced_depth(depth: usize) -> (reduced: usize)
    ensures
        reduced == late_move_reduced_depth(depth),
        reduced <= depth,
        depth > 0 ==> reduced < depth,
{
    if depth >= 6 {
        return depth.saturating_sub(depth / 3);
    }

    depth.saturating_sub(1)
}

/// Whether late move reductions apply to the action at `action_index`: not
/// for the first `full_depth_actions` actions, not before
/// `apply_after_plys` plies, and only when no search extension applies or
/// the only one is the extension for a special patch placement.
pub open spec fn late_move_reduces(
    action_index: usize,
    ply_from_root: usize,
    search_extensions: usize,
    special_patch_placement: bool,
    full_depth_actions: usize,
    apply_after_plys: usize,
) -> bool {
    &&& action_index >= full_depth_actions
    &&& ply_from_root >= apply_after_plys
    &&& (search_extensions == 0 || (search_extensions == 1 && special_patch_placement))
}

/// Determines if late move reductions (LMR) should be applied to the action
/// at `action_index`, and counts it when they do.
///
/// `special_patch_placement` tells whether the game is in a special patch
/// placement turn.
pub fn should_late_move_reduce<const ACTIVE: bool>(
    statistics: &mut SearchStatistics<ACTIVE>,
    action_index: usize,
    ply_from_root: usize,
    search_extensions: usize,
    special_patch_placement: bool,
    full_depth_actions: usize,
    apply_after_plys: usize,
) -> (reduce: bool)
    requires
        ACTIVE ==> old(statistics).late_move_reductions < usize::MAX,
    ensures
        reduce == late_move_reduces(
            action_index,
            ply_from_root,
            search_extensions,
            special_patch_placement,
            full_depth_actions,
            apply_after_plys,
        ),
        ACTIVE && reduce ==> *final(statistics) == (SearchStatistics {
            late_move_reductions: (old(statistics).late_move_reductions + 1) as usize,
            ..*old(statistics)
        }),
        !(ACTIVE && reduce) ==> *final(statistics) == *old(statistics),
{
    if action_index < full_depth_actions {
        return false;
    }

    if ply_from_root < apply_after_plys {
        return false;
    }

    if search_extensions == 0 {
        statistics.increment_late_move_reductions();
        return true;
    }

    if search_extensions == 1 && special_patch_placement {
        // the special patch search extension is not relevant for late move reductions
        statistics.increment_late_move_reductions();
        return true;
    }

    false
}

/// The search extension for the position after an action: none in a zero
/// window search, without the feature or after `max_extensions` extensions;
/// otherwise one for a special patch placement and one when the 7×7 special
/// tile was just reached.
pub open spec fn search_extension(
    zero_window_search: bool,
    extensions_enabled: bool,
    num_extensions: usize,
    max_extensions: usize,
    special_patch_placement: bool,
    previous_special_tile_condition_reached: bool,
    special_tile_condition_reached: bool,
) -> int {
    if zero_window_search || !extensions_enabled || num_extensions >= max_extensions {
        0
    } else {
        (if special_patch_placement {
            1int
        } else {
            0int
        }) + (if !previous_special_tile_condition_reached && special_tile_condition_reached {
            1int
        } else {
            0int
        })
    }
}

/// The statistics after the search extensions of a position are counted:
/// a special patch extension and a special tile extension each add one to
/// its counter when it applies (see `search_extension`).
pub open spec fn extensions_counted<const ACTIVE: bool>(
    statistics: SearchStatistics<ACTIVE>,
    zero_window_search: bool,
    extensions_enabled: bool,
    num_extensions: usize,
    max_extensions: usize,
    special_patch_placement: bool,
    previous_special_tile_condition_reached: bool,
    special_tile_condition_reached: bool,
) -> SearchStatistics<ACTIVE> {
    let applies = !zero_window_search && extensions_enabled && num_extensions < max_extensions;
    SearchStatistics {
        special_patch_extensions: (statistics.special_patch_extensions + if applies
            && special_patch_placement {
            1int
        } else {
            0int
        }) as usize,
        special_tile_extensions: (statistics.special_tile_extensions + if applies
            && !previous_special_tile_condition_reached && special_tile_condition_reached {
            1int
        } else {
            0int
        }) as usize,
        ..statistics
    }
}

/// Extends the depth of the search in interesting cases: special patch
/// placements and reaching the 7×7 special tile. Counts each extension.
pub fn get_search_extension<const ACTIVE: bool>(
    statistics: &mut SearchStatistics<ACTIVE>,
    zero_window_search: bool,
    extensions_enabled: bool,
    num_extensions: usize,
    max_extensions: usize,
    special_patch_placement: bool,
    previous_special_tile_condition_reached: bool,
    special_tile_condition_reached: bool,
) -> (extension: usize)
    requires
        ACTIVE ==> old(statistics).special_patch_extensions < usize::MAX,
        ACTIVE ==> old(statistics).special_tile_extensions < usize::MAX,
    ensures
        extension == search_extension(
            zero_window_search,
            extensions_enabled,
            num_extensions,
            max_extensions,
            special_patch_placement,
            previous_special_tile_condition_reached,
            special_tile_condition_reached,
        ),
        extension <= 2,
        previous_special_tile_condition_reached || !special_tile_condition_reached ==> extension == if !zero_window_search
            && extensions_enabled && num_extensions < max_extensions && special_patch_placement {
            1usize
        } else {
            0usize
        },
        ACTIVE && (previous_special_tile_condition_reached || !special_tile_condition_reached)
            ==> final(statistics).special_tile_extensions == old(statistics).special_tile_extensions,
        !previous_special_tile_condition_reached && special_tile_condition_reached && !zero_window_search
            && extensions_enabled && num_extensions < max_extensions ==> extension == if special_patch_placement {
            2usize
        } else {
            1usize
        },
        ACTIVE ==> *final(statistics) == extensions_counted(
            *old(statistics),
            zero_window_search,
            extensions_enabled,
            num_extensions,
            max_extensions,
            special_patch_placement,
            previous_special_tile_condition_reached,
            special_tile_condition_reached,
        ),
        !ACTIVE ==> *final(statistics) == *old(statistics),
{
    if zero_window_search {
        return 0;
    }

    if !extensions_enabled {
        return 0;
    }

    if num_extensions >= max_extensions {
        return 0;
    }

    let mut extension: usize = 0;

    // Extend the depth of search for special patch placements
    if special_patch_placement {
        statistics.increment_special_patch_extensions();
        extension += 1;
    }

    // Extend the depth of search if the 7×7 special tile was given
    if !previous_special_tile_condition_reached && special_tile_condition_reached {
        statistics.increment_special_tile_extensions();
        extension += 1;
    }

    extension
}

/// The special tile extension is given once, in the ply in which the 7×7
/// special tile is reached: when it was reached before the action, or is
/// not reached after it, the extension is one exactly for a special patch
/// placement (where extensions apply) and the special tile extensions are
/// not counted; in the ply that reaches it, the extension is one more.
pub proof fn lemma_special_tile_extended_once<const ACTIVE: bool>(
    statistics: SearchStatistics<ACTIVE>,
    zero_window_search: bool,
    extensions_enabled: bool,
    num_extensions: usize,
    max_extensions: usize,
    special_patch_placement: bool,
    previous_special_tile_condition_reached: bool,
    special_tile_condition_reached: bool,
)
    requires
        statistics.special_patch_extensions < usize::MAX,
        statistics.special_tile_extensions < usize::MAX,
    ensures
        ({
            let applies = !zero_window_search && extensions_enabled && num_extensions < max_extensions;
            let extension = search_extension(
                zero_window_search,
                extensions_enabled,
                num_extensions,
                max_extensions,
                special_patch_placement,
                previous_special_tile_condition_reached,
                special_tile_condition_reached,
            );
            let counted = extensions_counted(
                statistics,
                zero_window_search,
                extensions_enabled,
                num_extensions,
                max_extensions,
                special_patch_placement,
                previous_special_tile_condition_reached,
                special_tile_condition_reached,
            );
            &&& previous_special_tile_condition_reached || !special_tile_condition_reached ==> (extension == 1
                <==> applies && special_patch_placement) && extension <= 1
                && counted.special_tile_extensions == statistics.special_tile_extensions
            &&& !previous_special_tile_condition_reached && special_tile_condition_reached && applies
                ==> extension >= 1 && counted.special_tile_extensions == statistics.special_tile_extensions + 1
        }),
{
}

/// Picks the best action of the results of the search workers: the action of
/// the first result with the highest evaluation above `i32::MIN`, or `None`
/// when no worker returned an action with such an evaluation.
pub fn extract_best_worker_result(results: &[Option<(ActionId, i32)>]) -> (best: Option<ActionId>)
    ensures
        best is None <==> forall|i: int|
            0 <= i < results@.len() ==> (#[trigger] results@[i] is None || results@[i].unwrap().1 == i32::MIN),
        best matches Some(action) ==> exists|i: int|
            0 <= i < results@.len() && #[trigger] results@[i] == Some((action, results@[i].unwrap().1))
                && results@[i].unwrap().1 > i32::MIN && (forall|j: int|
                0 <= j < results@.len() && results@[j] is Some ==> results@[j].unwrap().1 <= results@[i].unwrap().1)
                && (forall|j: int|
                0 <= j < i && results@[j] is Some ==> results@[j].unwrap().1 < results@[i].unwrap().1),
{
    let mut best_action: Option<ActionId> = None;
    let mut best_evaluation: i32 = i32::MIN;
    let ghost mut best_index: int = -1;

    for index in 0..results.len()
        invariant
            -1 <= best_index < index,
            best_index == -1 <==> best_action is None,
            best_index == -1 ==> best_evaluation == i32::MIN,
            best_index == -1 ==> forall|j: int|
                0 <= j < index ==> (#[trigger] results@[j] is None || results@[j].unwrap().1 == i32::MIN),
            best_index >= 0 ==> results@[best_index] == Some((best_action.unwrap(), best_evaluation)),
            best_index >= 0 ==> best_evaluation > i32::MIN,
            forall|j: int|
                0 <= j < index && #[trigger] results@[j] is Some ==> results@[j].unwrap().1 <= best_evaluation,
            best_index >= 0 ==> forall|j: int|
                0 <= j < best_index && #[trigger] results@[j] is Some ==> results@[j].unwrap().1 < best_evaluation,
    {
        match results[index] {
            None => {},
            Some((action, evaluation)) => {
                if evaluation > best_evaluation {
                    best_evaluation = evaluation;
                    best_action = Some(action);
                    proof {
                        best_index = index as int;
                    }
                }
            },
        }
    }

    best_action
}

/// The window of the iterative deepening of a worker: the bounds, the delta
/// of the aspiration window and the depth to search next.
#[derive(Copy, Clone, Debug, PartialEq, Eq, Hash, Structural)]
pub struct IterationWindow {
    /// The lower bound of the window.
    pub alpha: i32,
    /// The upper bound of the window.
    pub beta: i32,
    /// The delta of the aspiration window.
    pub delta: i32,
    /// The depth to search next.
    pub depth: usize,
}

/// What the iterative deepening does after a finished search.
#[derive(Copy, Clone, Debug, PartialEq, Eq, Hash, Structural)]
pub enum IterationStep {
    /// The aspiration window failed: search the same depth again with the
    /// widened window (the best action of the failed search is dropped).
    SearchAgain,
    /// A winning line was found: stop searching.
    Stop,
    /// Go on with the next depth.
    NextDepth,
}

/// Whether the window can be moved after a search that returned
/// `evaluation` without an arithmetic overflow.
pub open spec fn iteration_updatable(
    window: IterationWindow,
    evaluation: i32,
    aspiration_windows: bool,
    minimum_delta: i32,
) -> bool {
    if aspiration_windows && evaluation <= window.alpha {
        &&& i32::MIN <= window.alpha + window.beta <= i32::MAX
        &&& i32::MIN <= evaluation - window.delta <= i32::MAX
        &&& i32::MIN <= window.delta + window.delta / 3 <= i32::MAX
    } else if aspiration_windows && evaluation >= window.beta {
        &&& i32::MIN <= evaluation + window.delta <= i32::MAX
        &&& i32::MIN <= window.delta + window.delta / 3 <= i32::MAX
    } else if aspiration_windows {
        &&& evaluation != i32::MIN
        &&& i32::MIN <= minimum_delta + (if evaluation < 0 {
            -evaluation
        } else {
            evaluation as int
        }) / 10 <= i32::MAX
        &&& i32::MIN <= evaluation - window_delta(evaluation, minimum_delta) <= i32::MAX
        &&& i32::MIN <= evaluation + window_delta(evaluation, minimum_delta) <= i32::MAX
        &&& window.depth < usize::MAX
    } else {
        window.depth < usize::MAX
    }
}

/// The step after a search that returned `evaluation`: with aspiration
/// windows a fail-low or fail-high searches again; otherwise a found win
/// stops the search, and anything else goes on with the next depth.
pub open spec fn iteration_step(
    window: IterationWindow,
    evaluation: i32,
    aspiration_windows: bool,
    found_win: bool,
) -> IterationStep {
    if aspiration_windows && (evaluation <= window.alpha || evaluation >= window.beta) {
        IterationStep::SearchAgain
    } else if found_win {
        IterationStep::Stop
    } else {
        IterationStep::NextDepth
    }
}

/// The window after a search that returned `evaluation`: a fail-low or
/// fail-high moves the window as `update_aspiration_window_lower_bound` and
/// `update_aspiration_window_upper_bound` do; a search inside the window
/// (that found no win) sets the window around the evaluation when aspiration
/// windows are used and goes one depth deeper.
pub open spec fn next_iteration_window(
    window: IterationWindow,
    evaluation: i32,
    aspiration_windows: bool,
    minimum_delta: i32,
    found_win: bool,
) -> IterationWindow {
    if aspiration_windows && evaluation <= window.alpha {
        IterationWindow {
            alpha: max_int(evaluation - window.delta, MIN_ALPHA_BOUND as int) as i32,
            beta: div_toward_zero(window.alpha + window.beta, 2) as i32,
            delta: grown_delta(window.delta) as i32,
            depth: window.depth,
        }
    } else if aspiration_windows && evaluation >= window.beta {
        IterationWindow {
            alpha: window.alpha,
            beta: min_int(evaluation + window.delta, MAX_BETA_BOUND as int) as i32,
            delta: grown_delta(window.delta) as i32,
            depth: window.depth,
        }
    } else if found_win {
        window
    } else if aspiration_windows {
        IterationWindow {
            alpha: (evaluation - window_delta(evaluation, minimum_delta)) as i32,
            beta: (evaluation + window_delta(evaluation, minimum_delta)) as i32,
            delta: window_delta(evaluation, minimum_delta) as i32,
            depth: (window.depth + 1) as usize,
        }
    } else {
        IterationWindow { depth: (window.depth + 1) as usize, ..window }
    }
}

impl IterationWindow {
    /// The window of the first iteration at depth 1: the starting window
    /// with aspiration windows, `[MIN_ALPHA_BOUND, MAX_BETA_BOUND]` without;
    /// the delta starts at the minimum delta.
    pub fn initial(
        aspiration_windows: bool,
        starting_alpha: i32,
        starting_beta: i32,
        minimum_delta: i32,
    ) -> (window: Self)
        ensures
            window == if aspiration_windows {
                IterationWindow {
                    alpha: starting_alpha,
                    beta: starting_beta,
                    delta: minimum_delta,
                    depth: 1,
                }
            } else {
                IterationWindow {
                    alpha: MIN_ALPHA_BOUND,
                    beta: MAX_BETA_BOUND,
                    delta: minimum_delta,
                    depth: 1,
                }
            },
    {
        if aspiration_windows {
            IterationWindow { alpha: starting_alpha, beta: starting_beta, delta: minimum_delta, depth: 1 }
        } else {
            IterationWindow {
                alpha: MIN_ALPHA_BOUND,
                beta: MAX_BETA_BOUND,
                delta: minimum_delta,
                depth: 1,
            }
        }
    }

    /// Whether the iterative deepening goes on with this window.
    pub fn should_continue(&self) -> (go_on: bool)
        ensures
            go_on == (self.depth < MAX_DEPTH),
    {
        self.depth < MAX_DEPTH
    }

    /// Takes the evaluation of a finished (not canceled) search and decides
    /// the next step (see `iteration_step` and `next_iteration_window`); a
    /// failed aspiration window is counted once in the statistics.
    pub fn after_search<const ACTIVE: bool>(
        &mut self,
        statistics: &mut SearchStatistics<ACTIVE>,
        evaluation: i32,
        aspiration_windows: bool,
        minimum_delta: i32,
        found_win: bool,
    ) -> (step: IterationStep)
        requires
            iteration_updatable(*old(self), evaluation, aspiration_windows, minimum_delta),
            ACTIVE ==> old(statistics).aspiration_window_fail_low < usize::MAX,
            ACTIVE ==> old(statistics).aspiration_window_fail_high < usize::MAX,
        ensures
            step == iteration_step(*old(self), evaluation, aspiration_windows, found_win),
            *final(self) == next_iteration_window(
                *old(self),
                evaluation,
                aspiration_windows,
                minimum_delta,
                found_win,
            ),
            ACTIVE && aspiration_windows && evaluation <= old(self).alpha ==> *final(statistics)
                == (SearchStatistics {
                aspiration_window_fail_low: (old(statistics).aspiration_window_fail_low
                    + 1) as usize,
                ..*old(statistics)
            }),
            ACTIVE && aspiration_windows && old(self).alpha < evaluation && evaluation >= old(
                self,
            ).beta ==> *final(statistics) == (SearchStatistics {
                aspiration_window_fail_high: (old(statistics).aspiration_window_fail_high
                    + 1) as usize,
                ..*old(statistics)
            }),
            !(aspiration_windows && (evaluation <= old(self).alpha || evaluation >= old(
                self,
            ).beta)) || !ACTIVE ==> *final(statistics) == *old(statistics),
    {
        if aspiration_windows && evaluation <= self.alpha {
            let (alpha, beta, delta) = update_aspiration_window_lower_bound(
                statistics,
                self.alpha,
                self.beta,
                evaluation,
                self.delta,
            );
            *self = IterationWindow { alpha, beta, delta, depth: self.depth };
            return IterationStep::SearchAgain;
        } else if aspiration_windows && evaluation >= self.beta {
            let (alpha, beta, delta) = update_aspiration_window_upper_bound(
                statistics,
                self.alpha,
                self.beta,
                evaluation,
                self.delta,
            );
            *self = IterationWindow { alpha, beta, delta, depth: self.depth };
            return IterationStep::SearchAgain;
        }
        if found_win {
            return IterationStep::Stop;
        }
        if aspiration_windows {
            let (alpha, beta, delta) = reset_aspiration_window(evaluation, minimum_delta);
            *self = IterationWindow { alpha, beta, delta, depth: self.depth + 1 };
        } else {
            self.depth = self.depth + 1;
        }
        IterationStep::NextDepth
    }
}

/// The depth of the search after an action and the extension applied to
/// it: one ply less, plus the search extension unless the child is searched
/// with a zero window.
pub fn get_next_depth<const ACTIVE: bool>(
    statistics: &mut SearchStatistics<ACTIVE>,
    depth: usize,
    will_zero_window_search: bool,
    zero_window_search: bool,
    extensions_enabled: bool,
    num_extensions: usize,
    max_extensions: usize,
    special_patch_placement: bool,
    previous_special_tile_condition_reached: bool,
    special_tile_condition_reached: bool,
) -> (next: (usize, usize))
    requires
        depth >= 1,
        !will_zero_window_search ==> depth - 1 + search_extension(
            zero_window_search,
            extensions_enabled,
            num_extensions,
            max_extensions,
            special_patch_placement,
            previous_special_tile_condition_reached,
            special_tile_condition_reached,
        ) <= usize::MAX,
        ACTIVE ==> old(statistics).special_patch_extensions < usize::MAX,
        ACTIVE ==> old(statistics).special_tile_extensions < usize::MAX,
    ensures
        will_zero_window_search ==> next == (((depth - 1) as usize, 0usize)),
        !will_zero_window_search ==> next.1 == search_extension(
            zero_window_search,
            extensions_enabled,
            num_extensions,
            max_extensions,
            special_patch_placement,
            previous_special_tile_condition_reached,
            special_tile_condition_reached,
        ) && next.0 == depth - 1 + next.1,
        will_zero_window_search ==> *final(statistics) == *old(statistics),
        !will_zero_window_search && ACTIVE ==> *final(statistics) == extensions_counted(
            *old(statistics),
            zero_window_search,
            extensions_enabled,
            num_extensions,
            max_extensions,
            special_patch_placement,
            previous_special_tile_condition_reached,
            special_tile_condition_reached,
        ),
        !ACTIVE ==> *final(statistics) == *old(statistics),
{
    let depth = depth - 1;
    if will_zero_window_search {
        return (depth, 0);
    }
    let extension = get_search_extension(
        statistics,
        zero_window_search,
        extensions_enabled,
        num_extensions,
        max_extensions,
        special_patch_placement,
        previous_special_tile_condition_reached,
        special_tile_condition_reached,
    );
    (depth + extension, extension)
}

/// Where the next action of a node comes from.
#[derive(Copy, Clone, Debug, PartialEq, Eq, Hash, Structural)]
pub enum NextAction {
    /// Pick the best remaining action of the ordered action list.
    Ordered,
    /// Late move pruning: search this action of a type that was not tried
    /// yet.
    Missing(ActionId),
    /// Late move pruning: every action type was tried, prune the rest.
    Pruned,
}

/// Decides where the next action of a node comes from: with late move
/// pruning, after `apply_after_plys` plies and `non_pruned_actions`
/// actions, only the actions of types not tried yet are searched (the rest
/// is pruned, which is counted); otherwise the ordered list is followed.
pub fn get_next_action<const ACTIVE: bool, const AMOUNT_PER_PATCH: usize>(
    statistics: &mut SearchStatistics<ACTIVE>,
    lmp_flags: &mut LMPFlags<AMOUNT_PER_PATCH>,
    late_move_pruning: bool,
    ply_from_root: usize,
    action_index: usize,
    apply_after_plys: usize,
    non_pruned_actions: usize,
) -> (next: NextAction)
    requires
        ACTIVE ==> old(statistics).late_move_pruning < usize::MAX,
    ensures
        !(late_move_pruning && ply_from_root >= apply_after_plys && action_index
            >= non_pruned_actions) ==> next == NextAction::Ordered && *final(lmp_flags) == *old(
            lmp_flags,
        ) && *final(statistics) == *old(statistics),
        late_move_pruning && ply_from_root >= apply_after_plys && action_index >= non_pruned_actions
            ==> (next is Missing || next is Pruned),
        next matches NextAction::Missing(action) ==> *final(statistics) == *old(statistics) && (
        old(lmp_flags).spec_walking() == Some(action) || old(lmp_flags).spec_patch1().contains(
            action,
        ) || old(lmp_flags).spec_patch2().contains(action) || old(
            lmp_flags,
        ).spec_patch3().contains(action)),
        next is Pruned ==> old(lmp_flags).spec_walking() is None && old(
            lmp_flags,
        ).spec_patch1().len() == 0 && old(lmp_flags).spec_patch2().len() == 0 && old(
            lmp_flags,
        ).spec_patch3().len() == 0 && (ACTIVE ==> *final(statistics) == (SearchStatistics {
            late_move_pruning: (old(statistics).late_move_pruning + 1) as usize,
            ..*old(statistics)
        })) && (!ACTIVE ==> *final(statistics) == *old(statistics)),
{
    if late_move_pruning && ply_from_root >= apply_after_plys && action_index >= non_pruned_actions {
        let action = lmp_flags.get_next_missing();
        match action {
            Some(missing) => NextAction::Missing(missing),
            None => {
                statistics.increment_late_move_pruning();
                NextAction::Pruned
            },
        }
    } else {
        NextAction::Ordered
    }
}

/// Where the principal variation action of a node comes from.
#[derive(Copy, Clone, Debug, PartialEq, Eq, Hash, Structural)]
pub enum PvActionSource {
    /// The best action found so far at the root.
    Best(ActionId),
    /// The action stored in the transposition table for the position.
    Table,
    /// There is none.
    Absent,
}

/// The principal variation action of a node: the best action found so far
/// at the root, else the action of the transposition table when it is
/// enabled.
pub fn pv_action_source(ply_from_root: usize, best_action: Option<ActionId>, transposition_table: bool) -> (source: PvActionSource)
    ensures
        source == if ply_from_root == 0 && best_action is Some {
            PvActionSource::Best(best_action.unwrap())
        } else if transposition_table {
            PvActionSource::Table
        } else {
            PvActionSource::Absent
        },
{
    if ply_from_root == 0 {
        if let Some(pv_action) = best_action {
            return PvActionSource::Best(pv_action);
        }
    }
    if transposition_table {
        return PvActionSource::Table;
    }
    PvActionSource::Absent
}

/// How an evaluation is stored in the transposition table.
#[derive(Copy, Clone, Debug, PartialEq, Eq, Hash, Structural)]
pub enum TableStore {
    /// The table is disabled: nothing is stored.
    Skip,
    /// The evaluation is stored for the position.
    Plain,
    /// The evaluation is stored for the position and its symmetries.
    WithSymmetries,
}

/// How evaluations are stored for a transposition table symmetry type
/// (`d` disabled, `e` enabled, `s` with symmetries).
pub fn table_store(symmetry_type: char) -> (store: TableStore)
    requires
        symmetry_type == 'd' || symmetry_type == 'e' || symmetry_type == 's',
    ensures
        store == if symmetry_type == 'd' {
            TableStore::Skip
        } else if symmetry_type == 'e' {
            TableStore::Plain
        } else {
            TableStore::WithSymmetries
        },
{
    if symmetry_type == 'd' {
        TableStore::Skip
    } else if symmetry_type == 'e' {
        TableStore::Plain
    } else {
        TableStore::WithSymmetries
    }
}

/// The evaluation of a leaf from the view of the player to move: the
/// evaluation (for the first player) negated on the second player's turn,
/// wrapping at `i32::MIN` as the multiplication by -1 of a release build
/// does. Counts the leaf node.
pub fn leaf_evaluation<const ACTIVE: bool>(
    statistics: &mut SearchStatistics<ACTIVE>,
    is_player_1: bool,
    evaluation: i32,
) -> (value: i32)
    requires
        ACTIVE ==> old(statistics).leaf_nodes_searched < usize::MAX,
    ensures
        value == if is_player_1 {
            evaluation
        } else {
            negated(evaluation)
        },
        ACTIVE ==> *final(statistics) == (SearchStatistics {
            leaf_nodes_searched: (old(statistics).leaf_nodes_searched + 1) as usize,
            ..*old(statistics)
        }),
        !ACTIVE ==> *final(statistics) == *old(statistics),
{
    statistics.increment_leaf_nodes_searched();
    if is_player_1 {
        evaluation
    } else if evaluation == i32::MIN {
        evaluation
    } else {
        -evaluation
    }
}

} // verus!
