use vstd::prelude::*;

use crate::transposition_table::Size;

verus! {

/// Different options for the failing strategy.
///
/// The failing strategy determines how the search behaves when a fail-high
/// or fail-low occurs.
#[derive(Copy, Clone, Debug, PartialEq, Eq, Hash, Structural)]
pub enum FailingStrategy {
    /// Fail-soft: the returned evaluation might be outside the bounds (an
    /// upper bound less than alpha at all-nodes, a lower bound greater than
    /// beta at cut-nodes).
    FailSoft,
    /// Fail-hard: the returned evaluation always lies within the window
    /// (alpha <= evaluation <= beta).
    FailHard,
}

/// Different options for the transposition table feature.
#[derive(Copy, Clone, Debug, PartialEq, Eq, Hash, Structural)]
pub enum TranspositionTableFeature {
    /// The transposition table is disabled.
    Disabled,
    /// The transposition table is enabled with the given size.
    Enabled { size: Size, strategy: FailingStrategy },
    /// The transposition table is enabled and for a position all symmetric
    /// positions are stored in the table as well.
    SymmetryEnabled { size: Size, strategy: FailingStrategy },
}

impl Default for TranspositionTableFeature {
    /// The symmetric transposition table of 10 MiB with the fail-hard
    /// strategy.
    fn default() -> (feature: Self)
        ensures
            feature == (TranspositionTableFeature::SymmetryEnabled {
                size: Size::MiB(10),
                strategy: FailingStrategy::FailHard,
            }),
    {
        TranspositionTableFeature::SymmetryEnabled { size: Size::MiB(10), strategy: FailingStrategy::FailHard }
    }
}

/// Different options for the diagnostics feature. Where diagnostics are
/// written is up to the caller, which holds the writer beside the options.
#[derive(Copy, Clone, Debug, PartialEq, Eq, Hash, Structural)]
pub enum DiagnosticsFeature {
    /// No diagnostics are printed.
    Disabled,
    /// Diagnostics are printed to the writer.
    Enabled,
    /// Verbose diagnostics are printed to the writer, including 100 entries
    /// of the transposition table when the transposition table is enabled.
    Verbose,
}

impl DiagnosticsFeature {
    /// The default diagnostics: enabled in builds with debug assertions,
    /// disabled otherwise.
    pub fn default_for_build(debug_assertions: bool) -> (feature: Self)
        ensures
            feature == if debug_assertions {
                DiagnosticsFeature::Enabled
            } else {
                DiagnosticsFeature::Disabled
            },
    {
        if debug_assertions {
            DiagnosticsFeature::Enabled
        } else {
            DiagnosticsFeature::Disabled
        }
    }

    /// Whether diagnostics are written at all.
    pub fn writes_diagnostics(&self) -> (writes: bool)
        ensures
            writes == !(*self is Disabled),
    {
        !matches!(self, DiagnosticsFeature::Disabled)
    }

    /// Whether the entries of the transposition table are written too.
    pub fn is_verbose(&self) -> (verbose: bool)
        ensures
            verbose == (*self is Verbose),
    {
        matches!(self, DiagnosticsFeature::Verbose)
    }
}

/// Different features that can be enabled or disabled for the pvs player.
#[derive(Copy, Clone, Debug, PartialEq, Eq, Hash, Structural)]
pub struct PVSFeatures {
    /// The failing strategy to use.
    pub failing_strategy: FailingStrategy,
    /// If aspiration windows should be used.
    pub aspiration_window: bool,
    /// If a transposition table should be used.
    pub transposition_table: TranspositionTableFeature,
    /// If late move reductions should be used.
    pub late_move_reductions: bool,
    /// If late move pruning should be used.
    pub late_move_pruning: bool,
    /// If extensions should be used for special patches.
    pub search_extensions: bool,
    /// If diagnostics should be printed.
    pub diagnostics: DiagnosticsFeature,
}

impl PVSFeatures {
    /// The default features: fail-hard, no aspiration windows, the default
    /// transposition table, late move reductions, late move pruning and
    /// search extensions, with the default diagnostics of the build.
    pub fn default_for_build(debug_assertions: bool) -> (features: Self)
        ensures
            features == (PVSFeatures {
                failing_strategy: FailingStrategy::FailHard,
                aspiration_window: false,
                transposition_table: TranspositionTableFeature::SymmetryEnabled {
                    size: Size::MiB(10),
                    strategy: FailingStrategy::FailHard,
                },
                late_move_reductions: true,
                late_move_pruning: true,
                search_extensions: true,
                diagnostics: if debug_assertions {
                    DiagnosticsFeature::Enabled
                } else {
                    DiagnosticsFeature::Disabled
                },
            }),
    {
        PVSFeatures {
            failing_strategy: FailingStrategy::FailHard,
            aspiration_window: false,
            transposition_table: TranspositionTableFeature::default(),
            late_move_reductions: true,
            late_move_pruning: true,
            search_extensions: true,
            diagnostics: DiagnosticsFeature::default_for_build(debug_assertions),
        }
    }
}

} // verus!
