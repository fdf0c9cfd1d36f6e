use vstd::prelude::*;

use crate::action_id::ActionId;
use crate::evaluation_bounds::{div_toward_zero, min_int, NEGATIVE_INFINITY, POSITIVE_INFINITY};
use crate::principal_variation_search::search_diagnostics::SearchDiagnostics;
use crate::transposition_table::EvaluationType;

verus! {

/// The depth by which a late move is reduced.
pub const LMR_REDUCED_BY_DEPTH: usize = 1;

/// The number of actions of a node that are always searched to full depth.
pub const LMR_FULL_DEPTH_ACTIONS: usize = 4;

/// The minimum depth at which late moves are reduced.
pub const LMR_REDUCTION_LIMIT: usize = 3;

/// The maximum number of search extensions along one line.
pub const MAX_SEARCH_EXTENSIONS: usize = 16;

/// The maximum depth of the iterative deepening (an upper bound that no game
/// reaches).
pub const MAX_DEPTH: usize = 256;

/// The lower bound of the first aspiration window.
pub const STARTING_ALPHA: i32 = -60;

/// The upper bound of the first aspiration window.
pub const STARTING_BETA: i32 = 60;

/// The minimum delta of an aspiration window.
pub const MINIMUM_DELTA: i32 = 1;

/// The window of the iterative deepening: the bounds alpha and beta, the
/// delta by which it grows and the depth to search next.
#[derive(Copy, Clone, Debug, PartialEq, Eq, Hash, Structural)]
pub struct SearchWindow {
    /// The lower bound of the window.
    pub alpha: i32,
    /// The upper bound of the window.
    pub beta: i32,
    /// The delta by which the window is set around an evaluation.
    pub delta: i32,
    /// The depth to search next.
    pub depth: usize,
}

/// How a search with the window ended.
#[derive(Copy, Clone, Debug, PartialEq, Eq, Hash, Structural)]
pub enum SearchOutcome {
    /// The evaluation was at or below alpha: search the same depth again.
    FailLow,
    /// The evaluation was at or above beta: search the same depth again.
    FailHigh,
    /// The evaluation lay inside the window: go on with the next depth.
    Inside,
}

/// The grown delta after a failed search: `delta + delta / 3`, at most
/// `POSITIVE_INFINITY`.
pub open spec fn widened(delta: i32) -> int {
    min_int(delta + div_toward_zero(delta as int, 3), POSITIVE_INFINITY as int)
}

/// Whether the window can be updated after a search that returned
/// `evaluation` without an arithmetic overflow.
pub open spec fn search_window_updatable(window: SearchWindow, evaluation: i32) -> bool {
    if evaluation <= window.alpha {
        &&& i32::MIN <= window.alpha + window.beta <= i32::MAX
        &&& i32::MIN <= evaluation - window.delta <= i32::MAX
        &&& i32::MIN <= window.delta + div_toward_zero(window.delta as int, 3) <= i32::MAX
    } else if evaluation >= window.beta {
        &&& i32::MIN <= evaluation + window.delta <= i32::MAX
        &&& i32::MIN <= window.delta + div_toward_zero(window.delta as int, 3) <= i32::MAX
    } else {
        &&& i32::MIN < evaluation < i32::MAX
        &&& window.depth < usize::MAX
    }
}

/// The outcome of a search with the window that returned `evaluation`.
pub open spec fn search_outcome(window: SearchWindow, evaluation: i32) -> SearchOutcome {
    if evaluation <= window.alpha {
        SearchOutcome::FailLow
    } else if evaluation >= window.beta {
        SearchOutcome::FailHigh
    } else {
        SearchOutcome::Inside
    }
}

/// The window after a search that returned `evaluation`.
///
/// A fail-low moves beta to the middle between alpha and beta and alpha to
/// `min(evaluation - delta, NEGATIVE_INFINITY)`; a fail-high moves beta to
/// `min(evaluation + delta, POSITIVE_INFINITY)`; both grow delta and keep
/// the depth. An evaluation inside the window sets the window
/// `MINIMUM_DELTA` around it and goes one depth deeper.
pub open spec fn next_search_window(window: SearchWindow, evaluation: i32) -> SearchWindow {
    if evaluation <= window.alpha {
        SearchWindow {
            alpha: min_int(evaluation - window.delta, NEGATIVE_INFINITY as int) as i32,
            beta: div_toward_zero(window.alpha + window.beta, 2) as i32,
            delta: widened(window.delta) as i32,
            depth: window.depth,
        }
    } else if evaluation >= window.beta {
        SearchWindow {
            alpha: window.alpha,
            beta: min_int(evaluation + window.delta, POSITIVE_INFINITY as int) as i32,
            delta: widened(window.delta) as i32,
            depth: window.depth,
        }
    } else {
        SearchWindow {
            alpha: (evaluation - MINIMUM_DELTA) as i32,
            beta: (evaluation + MINIMUM_DELTA) as i32,
            delta: MINIMUM_DELTA,
            depth: (window.depth + 1) as usize,
        }
    }
}

impl SearchWindow {
    /// The window of the first iteration at depth 1 with `MINIMUM_DELTA`:
    /// `[STARTING_ALPHA, STARTING_BETA]` with aspiration windows,
    /// `[NEGATIVE_INFINITY, POSITIVE_INFINITY]` without.
    pub fn initial(aspiration_window: bool) -> (window: Self)
        ensures
            window == if aspiration_window {
                SearchWindow { alpha: STARTING_ALPHA, beta: STARTING_BETA, delta: MINIMUM_DELTA, depth: 1 }
            } else {
                SearchWindow {
                    alpha: NEGATIVE_INFINITY,
                    beta: POSITIVE_INFINITY,
                    delta: MINIMUM_DELTA,
                    depth: 1,
                }
            },
    {
        if aspiration_window {
            SearchWindow { alpha: STARTING_ALPHA, beta: STARTING_BETA, delta: MINIMUM_DELTA, depth: 1 }
        } else {
            SearchWindow {
                alpha: NEGATIVE_INFINITY,
                beta: POSITIVE_INFINITY,
                delta: MINIMUM_DELTA,
                depth: 1,
            }
        }
    }

    /// Whether the iterative deepening goes on with this window.
    pub fn should_continue(&self) -> (go_on: bool)
        ensures
            go_on == (self.depth < MAX_DEPTH),
    {
        self.depth < MAX_DEPTH
    }

    /// Updates the window with the evaluation of a finished search (see
    /// `next_search_window`) and counts a failed aspiration window in the
    /// diagnostics.
    pub fn update(&mut self, evaluation: i32, diagnostics: &mut SearchDiagnostics) -> (outcome:
        SearchOutcome)
        requires
            search_window_updatable(*old(self), evaluation),
            evaluation <= old(self).alpha ==> old(diagnostics).aspiration_window_fail_low
                < usize::MAX,
            old(self).alpha < evaluation && evaluation >= old(self).beta ==> old(
                diagnostics,
            ).aspiration_window_fail_high < usize::MAX,
        ensures
            outcome == search_outcome(*old(self), evaluation),
            *final(self) == next_search_window(*old(self), evaluation),
            *final(diagnostics) == (match outcome {
                SearchOutcome::FailLow => SearchDiagnostics {
                    aspiration_window_fail_low: (old(diagnostics).aspiration_window_fail_low
                        + 1) as usize,
                    ..*old(diagnostics)
                },
                SearchOutcome::FailHigh => SearchDiagnostics {
                    aspiration_window_fail_high: (old(diagnostics).aspiration_window_fail_high
                        + 1) as usize,
                    ..*old(diagnostics)
                },
                SearchOutcome::Inside => *old(diagnostics),
            }),
    {
        if evaluation <= self.alpha {
            let beta = (self.alpha + self.beta) / 2;
            let lowered = evaluation - self.delta;
            let alpha = if lowered < NEGATIVE_INFINITY {
                lowered
            } else {
                NEGATIVE_INFINITY
            };
            let delta = self.widened_delta();
            *self = SearchWindow { alpha, beta, delta, depth: self.depth };
            diagnostics.increment_aspiration_window_fail_low();
            SearchOutcome::FailLow
        } else if evaluation >= self.beta {
            let raised = evaluation + self.delta;
            let beta = if raised < POSITIVE_INFINITY {
                raised
            } else {
                POSITIVE_INFINITY
            };
            let delta = self.widened_delta();
            *self = SearchWindow { alpha: self.alpha, beta, delta, depth: self.depth };
            diagnostics.increment_aspiration_window_fail_high();
            SearchOutcome::FailHigh
        } else {
            *self = SearchWindow {
                alpha: evaluation - MINIMUM_DELTA,
                beta: evaluation + MINIMUM_DELTA,
                delta: MINIMUM_DELTA,
                depth: self.depth + 1,
            };
            SearchOutcome::Inside
        }
    }

    /// `delta + delta / 3`, at most `POSITIVE_INFINITY`.
    fn widened_delta(&self) -> (delta: i32)
        requires
            i32::MIN <= self.delta + div_toward_zero(self.delta as int, 3) <= i32::MAX,
        ensures
            delta == widened(self.delta),
    {
        let third = self.delta / 3;
        assert(third == div_toward_zero(self.delta as int, 3));
        let sum = self.delta + third;
        if sum < POSITIVE_INFINITY {
            sum
        } else {
            POSITIVE_INFINITY
        }
    }
}

/// The search extension of a child: one ply for special patch placements
/// (and their phantom turns) when search extensions are enabled and fewer
/// than `MAX_SEARCH_EXTENSIONS` were applied along the line, none otherwise.
pub open spec fn extension_of(enabled: bool, num_extensions: usize, special_patch_turn: bool) -> usize {
    if enabled && num_extensions < MAX_SEARCH_EXTENSIONS && special_patch_turn {
        1
    } else {
        0
    }
}

/// Extends the depth of the search for special patch placements when search
/// extensions are enabled; an extension is counted in the diagnostics.
pub fn get_search_extension(
    diagnostics: &mut SearchDiagnostics,
    enabled: bool,
    num_extensions: usize,
    special_patch_turn: bool,
) -> (extension: usize)
    requires
        enabled && num_extensions < MAX_SEARCH_EXTENSIONS && special_patch_turn ==> old(
            diagnostics,
        ).special_patch_extensions < usize::MAX,
    ensures
        extension == extension_of(enabled, num_extensions, special_patch_turn),
        *final(diagnostics) == if extension == 1 {
            SearchDiagnostics {
                special_patch_extensions: (old(diagnostics).special_patch_extensions
                    + 1) as usize,
                ..*old(diagnostics)
            }
        } else {
            *old(diagnostics)
        },
{
    if !enabled {
        return 0;
    }
    if num_extensions >= MAX_SEARCH_EXTENSIONS {
        return 0;
    }
    let mut extension: usize = 0;
    if special_patch_turn {
        diagnostics.increment_special_patch_extensions();
        extension = 1;
    }
    extension
}

/// Whether the `index`-th action of a node (no pv node) is first searched
/// with a depth reduced by `LMR_REDUCED_BY_DEPTH`: it has no search
/// extension, it is not among the first `LMR_FULL_DEPTH_ACTIONS` actions and
/// the depth is at least `LMR_REDUCTION_LIMIT`.
pub fn should_late_move_reduce(extension: usize, index: usize, depth: usize) -> (reduce: bool)
    ensures
        reduce == (extension == 0 && index >= LMR_FULL_DEPTH_ACTIONS && depth
            >= LMR_REDUCTION_LIMIT),
        reduce ==> depth - 1 - LMR_REDUCED_BY_DEPTH >= 1,
{
    extension == 0 && index >= LMR_FULL_DEPTH_ACTIONS && depth >= LMR_REDUCTION_LIMIT
}

/// The state of the fail-hard alpha-beta loop over the actions of one node.
#[derive(Copy, Clone, Debug, PartialEq, Eq, Hash, Structural)]
pub struct NodeSearch {
    /// The lower bound of the window; acts like the maximum in minimax.
    pub alpha: i32,
    /// The upper bound of the window.
    pub beta: i32,
    /// The action that raised alpha last, if any.
    pub best_action: Option<ActionId>,
    /// `Exact` once an action raised alpha, `UpperBound` before.
    pub evaluation_bound: EvaluationType,
    /// Whether the next action is the first one (searched with the full
    /// window).
    pub is_pv_node: bool,
}

/// What the search of a node does after the evaluation of a child.
#[derive(Copy, Clone, Debug, PartialEq, Eq, Hash, Structural)]
pub enum NodeVerdict {
    /// Fail-hard beta cut-off: store beta as lower bound with the action and
    /// return beta.
    BetaCutoff,
    /// Go on with the next action.
    Proceed,
}

impl NodeSearch {
    /// Starts the loop over the actions of a node with the window
    /// `[alpha, beta]`.
    pub fn start(alpha: i32, beta: i32) -> (node: Self)
        ensures
            node == (NodeSearch {
                alpha,
                beta,
                best_action: None,
                evaluation_bound: EvaluationType::UpperBound,
                is_pv_node: true,
            }),
    {
        NodeSearch {
            alpha,
            beta,
            best_action: None,
            evaluation_bound: EvaluationType::UpperBound,
            is_pv_node: true,
        }
    }

    /// Takes the evaluation of the child reached by `action`: at or above
    /// beta it is a fail-high (counted, as first when it is the pv node) and
    /// a cut-off; above alpha it raises alpha, makes the bound exact and the
    /// action the best one. After the first action the node is no pv node.
    pub fn record(&mut self, diagnostics: &mut SearchDiagnostics, action: ActionId, evaluation: i32) -> (verdict: NodeVerdict)
        requires
            evaluation >= old(self).beta ==> old(diagnostics).fail_high < usize::MAX,
            evaluation >= old(self).beta && old(self).is_pv_node ==> old(
                diagnostics,
            ).fail_high_first < usize::MAX,
        ensures
            evaluation >= old(self).beta ==> verdict == NodeVerdict::BetaCutoff && *final(self)
                == *old(self) && *final(diagnostics) == (SearchDiagnostics {
                fail_high: (old(diagnostics).fail_high + 1) as usize,
                fail_high_first: if old(self).is_pv_node {
                    (old(diagnostics).fail_high_first + 1) as usize
                } else {
                    old(diagnostics).fail_high_first
                },
                ..*old(diagnostics)
            }),
            evaluation < old(self).beta ==> verdict == NodeVerdict::Proceed && *final(diagnostics)
                == *old(diagnostics) && *final(self) == if evaluation > old(self).alpha {
                NodeSearch {
                    alpha: evaluation,
                    best_action: Some(action),
                    evaluation_bound: EvaluationType::Exact,
                    is_pv_node: false,
                    ..*old(self)
                }
            } else {
                NodeSearch { is_pv_node: false, ..*old(self) }
            },
            // alpha acts like the maximum in minimax: it never decreases
            old(self).alpha <= final(self).alpha,
    {
        if evaluation >= self.beta {
            diagnostics.increment_fail_high(self.is_pv_node);
            return NodeVerdict::BetaCutoff;
        }
        if evaluation > self.alpha {
            self.evaluation_bound = EvaluationType::Exact;
            self.alpha = evaluation;
            self.best_action = Some(action);
        }
        self.is_pv_node = false;
        NodeVerdict::Proceed
    }

    /// The action stored in the transposition table when the loop ends: the
    /// best action, or the phantom action when no action raised alpha.
    pub fn table_action(&self, phantom_action: ActionId) -> (action: ActionId)
        ensures
            action == match self.best_action {
                Some(best) => best,
                None => phantom_action,
            },
    {
        match self.best_action {
            Some(best) => best,
            None => phantom_action,
        }
    }
}

} // verus!
