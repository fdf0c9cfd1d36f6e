use vstd::prelude::*;

use crate::clock::now;

verus! {

/// The diagnostics of a search.
#[derive(Debug, Clone, PartialEq, Eq, Hash)]
pub struct SearchDiagnostics {
    /// The number of nodes searched.
    pub nodes_searched: usize,
    /// The time when the search started.
    pub start_time: std::time::Instant,
    /// The number of times the search failed high.
    pub fail_high: usize,
    /// The number of times the search failed high on the first node.
    pub fail_high_first: usize,
    /// The number of times the aspiration window failed low.
    pub aspiration_window_fail_low: usize,
    /// The number of times the aspiration window failed high.
    pub aspiration_window_fail_high: usize,
    /// The number of times the zero window search failed.
    pub zero_window_search_fail: usize,
    /// The number of times a special patch extension was made.
    pub special_patch_extensions: usize,
}

impl Default for SearchDiagnostics {
    /// Diagnostics with all counters at zero, started now.
    fn default() -> (diagnostics: Self)
        ensures
            diagnostics.nodes_searched == 0,
            diagnostics.fail_high == 0,
            diagnostics.fail_high_first == 0,
            diagnostics.aspiration_window_fail_low == 0,
            diagnostics.aspiration_window_fail_high == 0,
            diagnostics.zero_window_search_fail == 0,
            diagnostics.special_patch_extensions == 0,
    {
        Self {
            nodes_searched: 0,
            start_time: now(),
            fail_high: 0,
            fail_high_first: 0,
            aspiration_window_fail_low: 0,
            aspiration_window_fail_high: 0,
            zero_window_search_fail: 0,
            special_patch_extensions: 0,
        }
    }
}

impl SearchDiagnostics {
    /// Increments the number of nodes searched.
    pub fn increment_nodes_searched(&mut self)
        requires
            old(self).nodes_searched < usize::MAX,
        ensures
            *final(self) == (Self { nodes_searched: (old(self).nodes_searched + 1) as usize, ..*old(self) }),
    {
        self.nodes_searched += 1;
    }

    /// Resets some diagnostics after one iteration of iterative deepening:
    /// the number of nodes searched and the numbers of times the aspiration
    /// window failed low and high.
    pub fn reset_iterative_deepening_iteration(&mut self)
        ensures
            *final(self) == (Self {
                nodes_searched: 0,
                aspiration_window_fail_low: 0,
                aspiration_window_fail_high: 0,
                ..*old(self)
            }),
    {
        self.nodes_searched = 0;
        self.aspiration_window_fail_low = 0;
        self.aspiration_window_fail_high = 0;
    }

    /// Increments the number of times the search failed high, and the number
    /// of times it failed high on the first (pv) node when `first` is set.
    pub fn increment_fail_high(&mut self, first: bool)
        requires
            old(self).fail_high < usize::MAX,
            first ==> old(self).fail_high_first < usize::MAX,
        ensures
            *final(self) == (Self {
                fail_high: (old(self).fail_high + 1) as usize,
                fail_high_first: if first {
                    (old(self).fail_high_first + 1) as usize
                } else {
                    old(self).fail_high_first
                },
                ..*old(self)
            }),
    {
        if first {
            self.fail_high_first += 1;
        }
        self.fail_high += 1;
    }

    /// Increments the number of times the aspiration window failed low.
    pub fn increment_aspiration_window_fail_low(&mut self)
        requires
            old(self).aspiration_window_fail_low < usize::MAX,
        ensures
            *final(self) == (Self {
                aspiration_window_fail_low: (old(self).aspiration_window_fail_low + 1) as usize,
                ..*old(self)
            }),
    {
        self.aspiration_window_fail_low += 1;
    }

    /// Increments the number of times the aspiration window failed high.
    pub fn increment_aspiration_window_fail_high(&mut self)
        requires
            old(self).aspiration_window_fail_high < usize::MAX,
        ensures
            *final(self) == (Self {
                aspiration_window_fail_high: (old(self).aspiration_window_fail_high + 1) as usize,
                ..*old(self)
            }),
    {
        self.aspiration_window_fail_high += 1;
    }

    /// Increments the number of times the zero window search failed.
    pub fn increment_zero_window_search_fail(&mut self)
        requires
            old(self).zero_window_search_fail < usize::MAX,
        ensures
            *final(self) == (Self {
                zero_window_search_fail: (old(self).zero_window_search_fail + 1) as usize,
                ..*old(self)
            }),
    {
        self.zero_window_search_fail += 1;
    }

    /// Increments the number of times a special patch extension was made.
    pub fn increment_special_patch_extensions(&mut self)
        requires
            old(self).special_patch_extensions < usize::MAX,
        ensures
            *final(self) == (Self {
                special_patch_extensions: (old(self).special_patch_extensions + 1) as usize,
                ..*old(self)
            }),
    {
        self.special_patch_extensions += 1;
    }
}

} // verus!
