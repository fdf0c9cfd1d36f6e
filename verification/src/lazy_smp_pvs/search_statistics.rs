use vstd::prelude::*;

use crate::clock::now;

verus! {

/// The statistics of a search; only counted when `ACTIVE` is set.
#[derive(Debug, Clone, PartialEq, Eq, Hash)]
pub struct SearchStatistics<const ACTIVE: bool> {
    /// The number of nodes searched in the previous iteration.
    pub nodes_searched_previous_iteration: usize,
    /// The number of nodes searched.
    pub nodes_searched: usize,
    /// The number of leaf nodes searched.
    pub leaf_nodes_searched: usize,
    /// The time when the search started.
    pub start_time: std::time::Instant,
    /// The number of times the search failed high.
    pub fail_high: usize,
    /// The number of times the search failed high on the first node.
    pub fail_high_first: usize,
    /// The number of times the aspiration window failed low.
    pub aspiration_window_fail_low: usize,
    /// The number of times the aspiration window failed high.
    pub aspiration_window_fail_high: usize,
    /// The number of times the zero window search was performed.
    pub zero_window_search: usize,
    /// The number of times the zero window search failed.
    pub zero_window_search_fail: usize,
    /// The number of times a special patch extension was made.
    pub special_patch_extensions: usize,
    /// The number of times a special tile (7x7) extension was made.
    pub special_tile_extensions: usize,
    /// The number of times late move reductions were performed.
    pub late_move_reductions: usize,
    /// The number of times late move reductions were performed and failed.
    pub late_move_reduction_fails: usize,
    /// The number of times late move pruning was performed.
    pub late_move_pruning: usize,
}

impl<const ACTIVE: bool> SearchStatistics<ACTIVE> {
    /// Whether every counter is zero.
    pub open spec fn counters_zero(&self) -> bool {
        self.nodes_searched_previous_iteration == 0
        && self.nodes_searched == 0
        && self.leaf_nodes_searched == 0
        && self.fail_high == 0
        && self.fail_high_first == 0
        && self.aspiration_window_fail_low == 0
        && self.aspiration_window_fail_high == 0
        && self.zero_window_search == 0
        && self.zero_window_search_fail == 0
        && self.special_patch_extensions == 0
        && self.special_tile_extensions == 0
        && self.late_move_reductions == 0
        && self.late_move_reduction_fails == 0
        && self.late_move_pruning == 0
    }
}

impl<const ACTIVE: bool> Default for SearchStatistics<ACTIVE> {
    /// Statistics with all counters at zero, started now.
    fn default() -> (statistics: Self)
        ensures
            statistics.counters_zero(),
    {
        Self {
            nodes_searched_previous_iteration: 0,
            nodes_searched: 0,
            leaf_nodes_searched: 0,
            start_time: now(),
            fail_high: 0,
            fail_high_first: 0,
            aspiration_window_fail_low: 0,
            aspiration_window_fail_high: 0,
            zero_window_search: 0,
            zero_window_search_fail: 0,
            special_patch_extensions: 0,
            special_tile_extensions: 0,
            late_move_reductions: 0,
            late_move_reduction_fails: 0,
            late_move_pruning: 0,
        }
    }
}

impl<const ACTIVE: bool> SearchStatistics<ACTIVE> {
    /// Resets all counters and restarts the clock of the search.
    pub fn reset(&mut self)
        ensures
            ACTIVE ==> final(self).counters_zero(),
            !ACTIVE ==> *final(self) == *old(self),
    {
        if !ACTIVE {
            return;
        }
        self.nodes_searched_previous_iteration = 0;
        self.nodes_searched = 0;
        self.leaf_nodes_searched = 0;
        self.start_time = now();
        self.fail_high = 0;
        self.fail_high_first = 0;
        self.aspiration_window_fail_low = 0;
        self.aspiration_window_fail_high = 0;
        self.zero_window_search = 0;
        self.zero_window_search_fail = 0;
        self.special_patch_extensions = 0;
        self.special_tile_extensions = 0;
        self.late_move_reductions = 0;
        self.late_move_reduction_fails = 0;
        self.late_move_pruning = 0;
    }

    /// Resets the statistics after one iteration of iterative deepening:
    /// the number of nodes searched moves to the previous iteration, all
    /// other counters are reset and the clock restarts.
    pub fn reset_iterative_deepening_iteration(&mut self)
        ensures
            ACTIVE ==> (final(self).nodes_searched_previous_iteration == old(self).nodes_searched
                && final(self).nodes_searched == 0
                && final(self).leaf_nodes_searched == 0
                && final(self).fail_high == 0
                && final(self).fail_high_first == 0
                && final(self).aspiration_window_fail_low == 0
                && final(self).aspiration_window_fail_high == 0
                && final(self).zero_window_search == 0
                && final(self).zero_window_search_fail == 0
                && final(self).special_patch_extensions == 0
                && final(self).special_tile_extensions == 0
                && final(self).late_move_reductions == 0
                && final(self).late_move_reduction_fails == 0
                && final(self).late_move_pruning == 0),
            !ACTIVE ==> *final(self) == *old(self),
    {
        if !ACTIVE {
            return;
        }
        self.nodes_searched_previous_iteration = self.nodes_searched;
        self.nodes_searched = 0;
        self.leaf_nodes_searched = 0;
        self.start_time = now();
        self.fail_high = 0;
        self.fail_high_first = 0;
        self.aspiration_window_fail_low = 0;
        self.aspiration_window_fail_high = 0;
        self.zero_window_search = 0;
        self.zero_window_search_fail = 0;
        self.special_patch_extensions = 0;
        self.special_tile_extensions = 0;
        self.late_move_reductions = 0;
        self.late_move_reduction_fails = 0;
        self.late_move_pruning = 0;
    }

    /// Increments the number of nodes searched.
    pub fn increment_nodes_searched(&mut self)
        requires
            ACTIVE ==> old(self).nodes_searched < usize::MAX,
        ensures
            if ACTIVE {
                *final(self) == (Self { nodes_searched: (old(self).nodes_searched + 1) as usize, ..*old(self) })
            } else {
                *final(self) == *old(self)
            },
    {
        if !ACTIVE {
            return;
        }
        self.nodes_searched += 1;
    }

    /// Increments the number of leaf nodes searched.
    pub fn increment_leaf_nodes_searched(&mut self)
        requires
            ACTIVE ==> old(self).leaf_nodes_searched < usize::MAX,
        ensures
            if ACTIVE {
                *final(self) == (Self { leaf_nodes_searched: (old(self).leaf_nodes_searched + 1) as usize, ..*old(self) })
            } else {
                *final(self) == *old(self)
            },
    {
        if !ACTIVE {
            return;
        }
        self.leaf_nodes_searched += 1;
    }

    /// Increments the number of times the search failed high, and the number
    /// of times it failed high on the first (pv) node when `first` is set.
    pub fn increment_fail_high(&mut self, first: bool)
        requires
            ACTIVE ==> old(self).fail_high < usize::MAX,
            ACTIVE && first ==> old(self).fail_high_first < usize::MAX,
        ensures
            if ACTIVE {
                *final(self) == (Self {
                    fail_high: (old(self).fail_high + 1) as usize,
                    fail_high_first: if first {
                        (old(self).fail_high_first + 1) as usize
                    } else {
                        old(self).fail_high_first
                    },
                    ..*old(self)
                })
            } else {
                *final(self) == *old(self)
            },
    {
        if !ACTIVE {
            return;
        }
        if first {
            self.fail_high_first += 1;
        }
        self.fail_high += 1;
    }

    /// Increments the number of times the aspiration window failed low.
    pub fn increment_aspiration_window_fail_low(&mut self)
        requires
            ACTIVE ==> old(self).aspiration_window_fail_low < usize::MAX,
        ensures
            if ACTIVE {
                *final(self) == (Self { aspiration_window_fail_low: (old(self).aspiration_window_fail_low + 1) as usize, ..*old(self) })
            } else {
                *final(self) == *old(self)
            },
    {
        if !ACTIVE {
            return;
        }
        self.aspiration_window_fail_low += 1;
    }

    /// Increments the number of times the aspiration window failed high.
    pub fn increment_aspiration_window_fail_high(&mut self)
        requires
            ACTIVE ==> old(self).aspiration_window_fail_high < usize::MAX,
        ensures
            if ACTIVE {
                *final(self) == (Self { aspiration_window_fail_high: (old(self).aspiration_window_fail_high + 1) as usize, ..*old(self) })
            } else {
                *final(self) == *old(self)
            },
    {
        if !ACTIVE {
            return;
        }
        self.aspiration_window_fail_high += 1;
    }

    /// Increments the number of times the zero window search was performed.
    pub fn increment_zero_window_search(&mut self)
        requires
            ACTIVE ==> old(self).zero_window_search < usize::MAX,
        ensures
            if ACTIVE {
                *final(self) == (Self { zero_window_search: (old(self).zero_window_search + 1) as usize, ..*old(self) })
            } else {
                *final(self) == *old(self)
            },
    {
        if !ACTIVE {
            return;
        }
        self.zero_window_search += 1;
    }

    /// Increments the number of times the zero window search failed.
    pub fn increment_zero_window_search_fail(&mut self)
        requires
            ACTIVE ==> old(self).zero_window_search_fail < usize::MAX,
        ensures
            if ACTIVE {
                *final(self) == (Self { zero_window_search_fail: (old(self).zero_window_search_fail + 1) as usize, ..*old(self) })
            } else {
                *final(self) == *old(self)
            },
    {
        if !ACTIVE {
            return;
        }
        self.zero_window_search_fail += 1;
    }

    /// Increments the number of times a special patch extension was made.
    pub fn increment_special_patch_extensions(&mut self)
        requires
            ACTIVE ==> old(self).special_patch_extensions < usize::MAX,
        ensures
            if ACTIVE {
                *final(self) == (Self { special_patch_extensions: (old(self).special_patch_extensions + 1) as usize, ..*old(self) })
            } else {
                *final(self) == *old(self)
            },
    {
        if !ACTIVE {
            return;
        }
        self.special_patch_extensions += 1;
    }

    /// Increments the number of times a special tile extension was made.
    pub fn increment_special_tile_extensions(&mut self)
        requires
            ACTIVE ==> old(self).special_tile_extensions < usize::MAX,
        ensures
            if ACTIVE {
                *final(self) == (Self { special_tile_extensions: (old(self).special_tile_extensions + 1) as usize, ..*old(self) })
            } else {
                *final(self) == *old(self)
            },
    {
        if !ACTIVE {
            return;
        }
        self.special_tile_extensions += 1;
    }

    /// Increments the number of times late move reductions were performed.
    pub fn increment_late_move_reductions(&mut self)
        requires
            ACTIVE ==> old(self).late_move_reductions < usize::MAX,
        ensures
            if ACTIVE {
                *final(self) == (Self { late_move_reductions: (old(self).late_move_reductions + 1) as usize, ..*old(self) })
            } else {
                *final(self) == *old(self)
            },
    {
        if !ACTIVE {
            return;
        }
        self.late_move_reductions += 1;
    }

    /// Increments the number of times late move pruning was performed.
    pub fn increment_late_move_pruning(&mut self)
        requires
            ACTIVE ==> old(self).late_move_pruning < usize::MAX,
        ensures
            if ACTIVE {
                *final(self) == (Self { late_move_pruning: (old(self).late_move_pruning + 1) as usize, ..*old(self) })
            } else {
                *final(self) == *old(self)
            },
    {
        if !ACTIVE {
            return;
        }
        self.late_move_pruning += 1;
    }

    /// Increments the number of times late move reductions were performed and failed.
    pub fn increment_late_move_reduction_fails(&mut self)
        requires
            ACTIVE ==> old(self).late_move_reduction_fails < usize::MAX,
        ensures
            if ACTIVE {
                *final(self) == (Self { late_move_reduction_fails: (old(self).late_move_reduction_fails + 1) as usize, ..*old(self) })
            } else {
                *final(self) == *old(self)
            },
    {
        if !ACTIVE {
            return;
        }
        self.late_move_reduction_fails += 1;
    }

}

} // verus!
