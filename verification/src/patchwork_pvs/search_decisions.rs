use vstd::prelude::*;

use crate::evaluation_bounds::{div_toward_zero, min_int, NEGATIVE_INFINITY, POSITIVE_INFINITY};
use crate::patchwork_pvs::search_diagnostics::SearchDiagnostics;
use crate::transposition_table::EvaluationType;

verus! {

/// The depth by which a late move is reduced.
pub const LMR_REDUCED_BY_DEPTH: usize = 1;

/// The number of actions of a node that are always searched to full depth.
pub const LMR_FULL_DEPTH_ACTIONS: usize = 4;

/// The minimum depth at which late moves are reduced.
pub const LMR_REDUCTION_LIMIT: usize = 3;

/// The maximum number of search extensions along one line.
pub const MAX_SEARCH_EXTENSIONS: usize = 16;

/// The maximum depth of the iterative deepening (an upper bound that no game
/// reaches).
pub const MAX_DEPTH: usize = 256;

/// The lower bound of the first aspiration window.
pub const STARTING_ALPHA: isize = -5;

/// The upper bound of the first aspiration window.
pub const STARTING_BETA: isize = 5;

/// The minimum delta of an aspiration window.
pub const MINIMUM_DELTA: isize = 1;

/// The aspiration window of the iterative deepening: the bounds alpha and
/// beta, the delta by which it grows and the depth to search next.
#[derive(Copy, Clone, Debug, PartialEq, Eq, Hash, Structural)]
pub struct AspirationWindow {
    /// The lower bound of the window.
    pub alpha: isize,
    /// The upper bound of the window.
    pub beta: isize,
    /// The delta by which the window is set around an evaluation.
    pub delta: isize,
    /// The depth to search next.
    pub depth: usize,
}

/// How a search with an aspiration window ended.
#[derive(Copy, Clone, Debug, PartialEq, Eq, Hash, Structural)]
pub enum WindowOutcome {
    /// The evaluation was at or below alpha: search the same depth again.
    FailLow,
    /// The evaluation was at or above beta: search the same depth again.
    FailHigh,
    /// The evaluation lay inside the window: go on with the next depth.
    Inside,
}

/// Whether the window can be updated after a search that returned
/// `evaluation` without an arithmetic overflow.
pub open spec fn window_updatable(window: AspirationWindow, evaluation: isize) -> bool {
    if evaluation <= window.alpha {
        &&& isize::MIN <= window.alpha + window.beta <= isize::MAX
        &&& isize::MIN <= evaluation - window.delta <= isize::MAX
        &&& window.delta + div_toward_zero(window.delta as int, 3) <= isize::MAX
        &&& window.delta + div_toward_zero(window.delta as int, 3) >= isize::MIN
    } else if evaluation >= window.beta {
        &&& isize::MIN <= evaluation + window.delta <= isize::MAX
        &&& window.delta + div_toward_zero(window.delta as int, 3) <= isize::MAX
        &&& window.delta + div_toward_zero(window.delta as int, 3) >= isize::MIN
    } else {
        &&& isize::MIN < evaluation < isize::MAX
        &&& window.depth < usize::MAX
    }
}

/// The grown delta after a failed search: `delta + delta / 3`, at most
/// `POSITIVE_INFINITY`.
pub open spec fn grown(delta: isize) -> int {
    min_int(delta + div_toward_zero(delta as int, 3), POSITIVE_INFINITY as int)
}

/// The window after a search that returned `evaluation`.
///
/// A fail-low moves beta to the middle between alpha and beta and alpha to
/// `min(evaluation - delta, NEGATIVE_INFINITY)`; a fail-high moves beta to
/// `min(evaluation + delta, POSITIVE_INFINITY)`; both grow delta and keep
/// the depth. An evaluation inside the window sets the window
/// `MINIMUM_DELTA` around it and goes one depth deeper.
pub open spec fn next_window(window: AspirationWindow, evaluation: isize) -> AspirationWindow {
    if evaluation <= window.alpha {
        AspirationWindow {
            alpha: min_int(evaluation - window.delta, NEGATIVE_INFINITY as int) as isize,
            beta: div_toward_zero(window.alpha + window.beta, 2) as isize,
            delta: grown(window.delta) as isize,
            depth: window.depth,
        }
    } else if evaluation >= window.beta {
        AspirationWindow {
            alpha: window.alpha,
            beta: min_int(evaluation + window.delta, POSITIVE_INFINITY as int) as isize,
            delta: grown(window.delta) as isize,
            depth: window.depth,
        }
    } else {
        AspirationWindow {
            alpha: (evaluation - MINIMUM_DELTA) as isize,
            beta: (evaluation + MINIMUM_DELTA) as isize,
            delta: MINIMUM_DELTA,
            depth: (window.depth + 1) as usize,
        }
    }
}

/// The outcome of a search with the window that returned `evaluation`.
pub open spec fn window_outcome(window: AspirationWindow, evaluation: isize) -> WindowOutcome {
    if evaluation <= window.alpha {
        WindowOutcome::FailLow
    } else if evaluation >= window.beta {
        WindowOutcome::FailHigh
    } else {
        WindowOutcome::Inside
    }
}

impl AspirationWindow {
    /// The window of the first iteration: `[STARTING_ALPHA, STARTING_BETA]`
    /// with `MINIMUM_DELTA` at depth 1.
    pub fn initial() -> (window: Self)
        ensures
            window == (AspirationWindow {
                alpha: STARTING_ALPHA,
                beta: STARTING_BETA,
                delta: MINIMUM_DELTA,
                depth: 1,
            }),
    {
        AspirationWindow { alpha: STARTING_ALPHA, beta: STARTING_BETA, delta: MINIMUM_DELTA, depth: 1 }
    }

    /// Whether the iterative deepening goes on with this window.
    pub fn should_continue(&self) -> (go_on: bool)
        ensures
            go_on == (self.depth < MAX_DEPTH),
    {
        self.depth < MAX_DEPTH
    }

    /// Updates the window with the evaluation of a finished search (see
    /// `next_window`) and counts a failed aspiration window in the
    /// diagnostics.
    pub fn update(&mut self, evaluation: isize, diagnostics: &mut SearchDiagnostics) -> (outcome:
        WindowOutcome)
        requires
            window_updatable(*old(self), evaluation),
            evaluation <= old(self).alpha ==> old(diagnostics).aspiration_window_fail_low
                < usize::MAX,
            old(self).alpha < evaluation && evaluation >= old(self).beta ==> old(
                diagnostics,
            ).aspiration_window_fail_high < usize::MAX,
        ensures
            outcome == window_outcome(*old(self), evaluation),
            *final(self) == next_window(*old(self), evaluation),
            *final(diagnostics) == (match outcome {
                WindowOutcome::FailLow => SearchDiagnostics {
                    aspiration_window_fail_low: (old(diagnostics).aspiration_window_fail_low
                        + 1) as usize,
                    ..*old(diagnostics)
                },
                WindowOutcome::FailHigh => SearchDiagnostics {
                    aspiration_window_fail_high: (old(diagnostics).aspiration_window_fail_high
                        + 1) as usize,
                    ..*old(diagnostics)
                },
                WindowOutcome::Inside => *old(diagnostics),
            }),
    {
        if evaluation <= self.alpha {
            let beta = (self.alpha + self.beta) / 2;
            let lowered = evaluation - self.delta;
            let alpha = if lowered < NEGATIVE_INFINITY as isize {
                lowered
            } else {
                NEGATIVE_INFINITY as isize
            };
            let delta = self.grown_delta();
            *self = AspirationWindow { alpha, beta, delta, depth: self.depth };
            diagnostics.increment_aspiration_window_fail_low();
            WindowOutcome::FailLow
        } else if evaluation >= self.beta {
            let raised = evaluation + self.delta;
            let beta = if raised < POSITIVE_INFINITY as isize {
                raised
            } else {
                POSITIVE_INFINITY as isize
            };
            let delta = self.grown_delta();
            *self = AspirationWindow { alpha: self.alpha, beta, delta, depth: self.depth };
            diagnostics.increment_aspiration_window_fail_high();
            WindowOutcome::FailHigh
        } else {
            *self = AspirationWindow {
                alpha: evaluation - MINIMUM_DELTA,
                beta: evaluation + MINIMUM_DELTA,
                delta: MINIMUM_DELTA,
                depth: self.depth + 1,
            };
            WindowOutcome::Inside
        }
    }

    /// `delta + delta / 3`, at most `POSITIVE_INFINITY`.
    fn grown_delta(&self) -> (delta: isize)
        requires
            self.delta + div_toward_zero(self.delta as int, 3) <= isize::MAX,
            self.delta + div_toward_zero(self.delta as int, 3) >= isize::MIN,
        ensures
            delta == grown(self.delta),
    {
        let third = self.delta / 3;
        assert(third == div_toward_zero(self.delta as int, 3));
        let sum = self.delta + third;
        if sum < POSITIVE_INFINITY as isize {
            sum
        } else {
            POSITIVE_INFINITY as isize
        }
    }
}

/// The search extension of a child: one ply for special patch placements
/// (and their phantom turns) while fewer than `MAX_SEARCH_EXTENSIONS` were
/// applied along the line, none otherwise.
pub open spec fn search_extension_of(num_extensions: usize, special_patch_turn: bool) -> usize {
    if num_extensions < MAX_SEARCH_EXTENSIONS && special_patch_turn {
        1
    } else {
        0
    }
}

/// Extends the depth of the search for special patch placements; an
/// extension is counted in the diagnostics.
pub fn get_search_extension(
    diagnostics: &mut SearchDiagnostics,
    num_extensions: usize,
    special_patch_turn: bool,
) -> (extension: usize)
    requires
        num_extensions < MAX_SEARCH_EXTENSIONS && special_patch_turn ==> old(
            diagnostics,
        ).special_patch_extensions < usize::MAX,
    ensures
        extension == search_extension_of(num_extensions, special_patch_turn),
        *final(diagnostics) == if extension == 1 {
            SearchDiagnostics {
                special_patch_extensions: (old(diagnostics).special_patch_extensions
                    + 1) as usize,
                ..*old(diagnostics)
            }
        } else {
            *old(diagnostics)
        },
{
    if num_extensions >= MAX_SEARCH_EXTENSIONS {
        return 0;
    }
    let mut extension: usize = 0;
    if special_patch_turn {
        diagnostics.increment_special_patch_extensions();
        extension = 1;
    }
    extension
}

/// Whether the `index`-th action of a node (no pv node) is first searched
/// with a depth reduced by `LMR_REDUCED_BY_DEPTH`: it has no search
/// extension, it is not among the first `LMR_FULL_DEPTH_ACTIONS` actions and
/// the depth is at least `LMR_REDUCTION_LIMIT`.
pub fn should_late_move_reduce(extension: usize, index: usize, depth: usize) -> (reduce: bool)
    ensures
        reduce == (extension == 0 && index >= LMR_FULL_DEPTH_ACTIONS && depth
            >= LMR_REDUCTION_LIMIT),
        reduce ==> depth - 1 - LMR_REDUCED_BY_DEPTH >= 1,
{
    extension == 0 && index >= LMR_FULL_DEPTH_ACTIONS && depth >= LMR_REDUCTION_LIMIT
}

/// Whether a child that a zero window search evaluated above alpha is
/// searched again with the full window (it failed the zero window search):
/// its evaluation lies strictly between alpha and beta.
pub fn needs_research(evaluation: isize, alpha: isize, beta: isize) -> (research: bool)
    ensures
        research == (alpha < evaluation && evaluation < beta),
{
    evaluation > alpha && evaluation < beta
}

/// The state of the fail-hard alpha-beta loop over the actions of one node;
/// actions are named by their index in the sorted action list.
#[derive(Copy, Clone, Debug, PartialEq, Eq, Hash, Structural)]
pub struct NodeState {
    /// The lower bound of the window; acts like the maximum in minimax.
    pub alpha: isize,
    /// The upper bound of the window.
    pub beta: isize,
    /// The index of the action that raised alpha last, if any.
    pub best_action: Option<usize>,
    /// `Exact` once an action raised alpha, `UpperBound` before.
    pub evaluation_bound: EvaluationType,
    /// Whether the next action is the first one (searched with the full
    /// window).
    pub is_pv_node: bool,
}

/// What the search of a node does after the evaluation of a child.
#[derive(Copy, Clone, Debug, PartialEq, Eq, Hash, Structural)]
pub enum ChildOutcome {
    /// Fail-hard beta cut-off: store beta as lower bound with the action and
    /// return beta.
    Cutoff,
    /// Go on with the next action.
    Next,
}

impl NodeState {
    /// Starts the loop over the actions of a node with the window
    /// `[alpha, beta]`.
    pub fn start(alpha: isize, beta: isize) -> (node: Self)
        ensures
            node == (NodeState {
                alpha,
                beta,
                best_action: None,
                evaluation_bound: EvaluationType::UpperBound,
                is_pv_node: true,
            }),
    {
        NodeState {
            alpha,
            beta,
            best_action: None,
            evaluation_bound: EvaluationType::UpperBound,
            is_pv_node: true,
        }
    }

    /// Takes the evaluation of the child reached by the `index`-th action:
    /// at or above beta it is a fail-high (counted, as first when it is the
    /// pv node) and a cut-off; above alpha it raises alpha, makes the bound
    /// exact and the action the best one. After the first action the node
    /// is no pv node.
    pub fn record(&mut self, diagnostics: &mut SearchDiagnostics, index: usize, evaluation: isize) -> (outcome: ChildOutcome)
        requires
            evaluation >= old(self).beta ==> old(diagnostics).fail_high < usize::MAX,
            evaluation >= old(self).beta && old(self).is_pv_node ==> old(
                diagnostics,
            ).fail_high_first < usize::MAX,
        ensures
            evaluation >= old(self).beta ==> outcome == ChildOutcome::Cutoff && *final(self)
                == *old(self) && *final(diagnostics) == (SearchDiagnostics {
                fail_high: (old(diagnostics).fail_high + 1) as usize,
                fail_high_first: if old(self).is_pv_node {
                    (old(diagnostics).fail_high_first + 1) as usize
                } else {
                    old(diagnostics).fail_high_first
                },
                ..*old(diagnostics)
            }),
            evaluation < old(self).beta ==> outcome == ChildOutcome::Next && *final(diagnostics)
                == *old(diagnostics) && *final(self) == if evaluation > old(self).alpha {
                NodeState {
                    alpha: evaluation,
                    best_action: Some(index),
                    evaluation_bound: EvaluationType::Exact,
                    is_pv_node: false,
                    ..*old(self)
                }
            } else {
                NodeState { is_pv_node: false, ..*old(self) }
            },
            // alpha acts like the maximum in minimax: it never decreases
            old(self).alpha <= final(self).alpha,
    {
        if evaluation >= self.beta {
            diagnostics.increment_fail_high(self.is_pv_node);
            return ChildOutcome::Cutoff;
        }
        if evaluation > self.alpha {
            self.evaluation_bound = EvaluationType::Exact;
            self.alpha = evaluation;
            self.best_action = Some(index);
        }
        self.is_pv_node = false;
        ChildOutcome::Next
    }
}

} // verus!
