use vstd::prelude::*;

use crate::action_id::ActionId;
use crate::lazy_smp_pvs::search_statistics::SearchStatistics;
use crate::transposition_table::EvaluationType;

verus! {

/// What the search of a node does after the evaluation of a child.
#[derive(Copy, Clone, Debug, PartialEq, Eq, Hash, Structural)]
pub enum ChildVerdict {
    /// Beta cut-off: store `beta` as lower bound with the action in the
    /// transposition table and return `value` from the node.
    Cutoff {
        /// The value the node returns.
        value: i32,
    },
    /// Go on with the next action.
    Continue,
}

/// The state of the alpha-beta loop over the actions of one node of the
/// principal variation search.
#[derive(Copy, Clone, Debug, PartialEq, Eq, Hash, Structural)]
pub struct SearchNode {
    /// The lower bound of the window; acts like the maximum in minimax.
    pub alpha: i32,
    /// The upper bound of the window.
    pub beta: i32,
    /// The action that raised alpha last (the null action before).
    pub best_action: ActionId,
    /// `Exact` once an action raised alpha, `UpperBound` before.
    pub evaluation_bound: EvaluationType,
    /// Whether the next action is the first one (searched with the full
    /// window).
    pub is_pv_node: bool,
}

/// The node after a child below beta: an evaluation above alpha (outside a
/// zero window search) raises alpha, makes the bound exact and the action
/// the best one; after the first child the node is no pv node.
pub open spec fn after_child(node: SearchNode, action: ActionId, evaluation: i32, zero_window_search: bool) -> SearchNode {
    if evaluation > node.alpha && !zero_window_search {
        SearchNode {
            alpha: evaluation,
            best_action: action,
            evaluation_bound: EvaluationType::Exact,
            is_pv_node: false,
            ..node
        }
    } else {
        SearchNode { is_pv_node: false, ..node }
    }
}

/// The node after a sequence of children (actions with their evaluations)
/// that all stayed below beta, searched with a full window.
pub open spec fn after_children(node: SearchNode, children: Seq<(ActionId, i32)>) -> SearchNode
    decreases children.len(),
{
    if children.len() == 0 {
        node
    } else {
        after_child(
            after_children(node, children.drop_last()),
            children.last().0,
            children.last().1,
            false,
        )
    }
}

/// The largest of alpha and the evaluations of the children.
pub open spec fn maximum_evaluation(alpha: i32, children: Seq<(ActionId, i32)>) -> i32
    decreases children.len(),
{
    if children.len() == 0 {
        alpha
    } else {
        let previous = maximum_evaluation(alpha, children.drop_last());
        if children.last().1 > previous {
            children.last().1
        } else {
            previous
        }
    }
}

/// The action of the first child with the largest evaluation, when that
/// evaluation lies above alpha; `None` when no child's evaluation does.
pub open spec fn best_child_action(alpha: i32, children: Seq<(ActionId, i32)>) -> Option<ActionId>
    decreases children.len(),
{
    if children.len() == 0 {
        None
    } else if children.last().1 > maximum_evaluation(alpha, children.drop_last()) {
        Some(children.last().0)
    } else {
        best_child_action(alpha, children.drop_last())
    }
}

impl SearchNode {
    /// Starts the loop over the actions of a node with the window
    /// `[alpha, beta]`; `null_action` is the action stored when no action
    /// raises alpha.
    pub fn new(alpha: i32, beta: i32, null_action: ActionId) -> (node: Self)
        ensures
            node == (SearchNode {
                alpha,
                beta,
                best_action: null_action,
                evaluation_bound: EvaluationType::UpperBound,
                is_pv_node: true,
            }),
    {
        SearchNode {
            alpha,
            beta,
            best_action: null_action,
            evaluation_bound: EvaluationType::UpperBound,
            is_pv_node: true,
        }
    }

    /// Takes the evaluation of the child reached by `action`.
    ///
    /// An evaluation at or above beta is a cut-off (counted as fail-high,
    /// on the first node when it is the pv node): the node returns the
    /// evaluation with the soft failing strategy and beta with the hard one.
    /// Otherwise an evaluation above alpha (outside a zero window search)
    /// raises alpha, makes the bound exact and the action the best one; after
    /// the first action the node is no pv node any more.
    pub fn record_child<const ACTIVE: bool>(
        &mut self,
        statistics: &mut SearchStatistics<ACTIVE>,
        action: ActionId,
        evaluation: i32,
        soft_failing_strategy: bool,
        zero_window_search: bool,
    ) -> (verdict: ChildVerdict)
        requires
            ACTIVE ==> old(statistics).fail_high < usize::MAX,
            ACTIVE ==> old(statistics).fail_high_first < usize::MAX,
        ensures
            evaluation >= old(self).beta ==> verdict == (ChildVerdict::Cutoff {
                value: if soft_failing_strategy {
                    evaluation
                } else {
                    old(self).beta
                },
            }) && *final(self) == *old(self),
            evaluation >= old(self).beta && ACTIVE ==> final(statistics).fail_high
                == old(statistics).fail_high + 1 && final(statistics).fail_high_first == if old(
                self,
            ).is_pv_node {
                old(statistics).fail_high_first + 1
            } else {
                old(statistics).fail_high_first as int
            },
            evaluation < old(self).beta ==> verdict == ChildVerdict::Continue && *final(statistics)
                == *old(statistics),
            evaluation < old(self).beta ==> *final(self) == after_child(
                *old(self),
                action,
                evaluation,
                zero_window_search,
            ),
            // alpha acts like the maximum in minimax: it never decreases
            old(self).alpha <= final(self).alpha,
    {
        if evaluation >= self.beta {
            statistics.increment_fail_high(self.is_pv_node);

            return if soft_failing_strategy {
                ChildVerdict::Cutoff { value: evaluation }  // fail-soft beta-cutoff

            } else {
                ChildVerdict::Cutoff { value: self.beta }  // fail-hard beta-cutoff

            };
        }
        // Cannot happen in a zero window search anyways since alpha = beta - 1

        if evaluation > self.alpha && !zero_window_search {
            self.evaluation_bound = EvaluationType::Exact;
            self.alpha = evaluation;
            self.best_action = action;
        }
        self.is_pv_node = false;
        ChildVerdict::Continue
    }
}

/// Alpha acts like the maximum in minimax: after a sequence of children
/// below beta, alpha is the largest of the starting alpha and the
/// evaluations; when a child raised it, the bound is exact and the best
/// action is the first child with that evaluation, otherwise the node keeps
/// its bound and action.
pub proof fn lemma_alpha_is_maximum(node: SearchNode, children: Seq<(ActionId, i32)>)
    ensures
        after_children(node, children).alpha == maximum_evaluation(node.alpha, children),
        after_children(node, children).beta == node.beta,
        maximum_evaluation(node.alpha, children) == node.alpha ==> after_children(node, children).best_action
            == node.best_action && after_children(node, children).evaluation_bound
            == node.evaluation_bound,
        maximum_evaluation(node.alpha, children) > node.alpha ==> after_children(node, children).evaluation_bound
            == EvaluationType::Exact && exists|i: int| 0 <= i < children.len()
            && children[i] == (after_children(node, children).best_action, maximum_evaluation(node.alpha, children))
            && forall|j: int| 0 <= j < i ==> #[trigger] children[j].1 < maximum_evaluation(node.alpha, children),
    decreases children.len(),
{
    if children.len() > 0 {
        let rest = children.drop_last();
        lemma_alpha_is_maximum(node, rest);
        let previous = after_children(node, rest);
        let maximum = maximum_evaluation(node.alpha, rest);
        assert(maximum >= node.alpha) by {
            lemma_maximum_at_least_alpha(node.alpha, rest);
        }
        if children.last().1 > maximum {
            let last = children.len() - 1;
            assert(children[last] == (children.last().0, children.last().1));
            assert forall|j: int| 0 <= j < last implies #[trigger] children[j].1 < maximum_evaluation(node.alpha, children) by {
                lemma_maximum_bounds(node.alpha, rest, j);
                assert(rest[j] == children[j]);
            }
        } else if maximum > node.alpha {
            let i = choose|i: int| 0 <= i < rest.len()
                && rest[i] == (previous.best_action, maximum)
                && forall|j: int| 0 <= j < i ==> #[trigger] rest[j].1 < maximum;
            assert(children[i] == rest[i]);
            assert forall|j: int| 0 <= j < i implies #[trigger] children[j].1 < maximum_evaluation(node.alpha, children) by {
                assert(children[j] == rest[j]);
            }
        }
    }
}

/// The maximum is at least the starting alpha.
proof fn lemma_maximum_at_least_alpha(alpha: i32, children: Seq<(ActionId, i32)>)
    ensures
        maximum_evaluation(alpha, children) >= alpha,
    decreases children.len(),
{
    if children.len() > 0 {
        lemma_maximum_at_least_alpha(alpha, children.drop_last());
    }
}

/// The maximum is at least every evaluation.
proof fn lemma_maximum_bounds(alpha: i32, children: Seq<(ActionId, i32)>, j: int)
    requires
        0 <= j < children.len(),
    ensures
        children[j].1 <= maximum_evaluation(alpha, children),
    decreases children.len(),
{
    let rest = children.drop_last();
    if j < children.len() - 1 {
        lemma_maximum_bounds(alpha, rest, j);
        assert(rest[j] == children[j]);
    }
}

} // verus!
