use vstd::prelude::*;
use vstd::string::StringExecFns;

use crate::principal_variation_search::FailingStrategy;
use crate::transposition_table::Size;

verus! {

impl FailingStrategy {
    /// The short name of the strategy: `Soft` or `Hard`.
    pub fn label(&self) -> (label: &'static str)
        ensures
            label@ == if *self is FailSoft {
                "Soft"@
            } else {
                "Hard"@
            },
    {
        match self {
            FailingStrategy::FailSoft => "Soft",
            FailingStrategy::FailHard => "Hard",
        }
    }
}

/// Different options for the lazy symmetric multiprocessing (Lazy SMP)
/// feature.
///
/// Lazy SMP parallelizes the search by sharing the transposition table
/// between several workers, so it can only be enabled together with the
/// transposition table feature.
#[derive(Copy, Clone, Debug, PartialEq, Eq, Hash, Structural)]
pub enum LazySMPFeature {
    /// Lazy SMP is disabled.
    No,
    /// Lazy SMP is enabled with the given (non-zero) parallelism.
    Yes(usize),
}

impl LazySMPFeature {
    /// Whether the parallelism of an enabled feature is not zero.
    pub open spec fn well_formed(self) -> bool {
        self matches LazySMPFeature::Yes(parallelism) ==> parallelism > 0
    }

    /// Lazy SMP with the given parallelism; `None` for a parallelism of zero.
    pub fn with_parallelism(parallelism: usize) -> (feature: Option<Self>)
        ensures
            feature == if parallelism == 0 {
                None
            } else {
                Some(LazySMPFeature::Yes(parallelism))
            },
    {
        if parallelism == 0 {
            None
        } else {
            Some(LazySMPFeature::Yes(parallelism))
        }
    }

    /// The default feature for a machine with the given available
    /// parallelism (`None` when it is unknown): half of it, or disabled when
    /// that is zero or unknown.
    pub fn from_available_parallelism(available: Option<usize>) -> (feature: Self)
        ensures
            feature.well_formed(),
            feature == match available {
                Some(n) => if n / 2 > 0 {
                    LazySMPFeature::Yes(n / 2)
                } else {
                    LazySMPFeature::No
                },
                None => LazySMPFeature::No,
            },
    {
        match available {
            Some(n) => {
                if n / 2 > 0 {
                    LazySMPFeature::Yes(n / 2)
                } else {
                    LazySMPFeature::No
                }
            },
            None => LazySMPFeature::No,
        }
    }

    /// The number of workers that search beside the main worker.
    pub fn helper_workers(&self) -> (count: usize)
        requires
            self.well_formed(),
        ensures
            count == match *self {
                LazySMPFeature::No => 0,
                LazySMPFeature::Yes(parallelism) => (parallelism - 1) as usize,
            },
    {
        match self {
            LazySMPFeature::No => 0,
            LazySMPFeature::Yes(parallelism) => *parallelism - 1,
        }
    }
}

/// Different options for the transposition table feature.
#[derive(Copy, Clone, Debug, PartialEq, Eq, Hash, Structural)]
pub enum TranspositionTableFeature {
    /// The transposition table is disabled.
    Disabled,
    /// The transposition table is enabled with the given size.
    Enabled { size: Size, strategy: FailingStrategy },
    /// The transposition table is enabled and for a position all symmetric
    /// positions are stored in the table as well.
    SymmetryEnabled { size: Size, strategy: FailingStrategy },
}

/// The default size of the transposition table.
pub open spec fn default_table_size() -> Size {
    Size::MiB(250)
}

/// The feature of a symmetry type letter (either case) with the default
/// size and strategy; `None` for any other letter.
pub open spec fn table_feature_of(letter: char) -> Option<TranspositionTableFeature> {
    if letter == 'd' || letter == 'D' {
        Some(TranspositionTableFeature::Disabled)
    } else if letter == 'e' || letter == 'E' {
        Some(
            TranspositionTableFeature::Enabled {
                size: default_table_size(),
                strategy: FailingStrategy::FailHard,
            },
        )
    } else if letter == 's' || letter == 'S' {
        Some(
            TranspositionTableFeature::SymmetryEnabled {
                size: default_table_size(),
                strategy: FailingStrategy::FailHard,
            },
        )
    } else {
        None
    }
}

impl TranspositionTableFeature {
    /// The default size of the transposition table: 250 MiB.
    pub fn default_size() -> (size: Size)
        ensures
            size == default_table_size(),
    {
        Size::MiB(250)
    }

    /// The default failing strategy of the transposition table: fail-hard.
    pub fn default_strategy() -> (strategy: FailingStrategy)
        ensures
            strategy == FailingStrategy::FailHard,
    {
        FailingStrategy::FailHard
    }

    /// The size of the table to create and whether it follows the
    /// fail-soft strategy; `None` when the table is disabled (the player
    /// then uses an empty table).
    pub fn table_parameters(&self) -> (parameters: Option<(Size, bool)>)
        ensures
            parameters == match *self {
                TranspositionTableFeature::Disabled => None,
                TranspositionTableFeature::Enabled { size, strategy } => Some(
                    (size, strategy == FailingStrategy::FailSoft),
                ),
                TranspositionTableFeature::SymmetryEnabled { size, strategy } => Some(
                    (size, strategy == FailingStrategy::FailSoft),
                ),
            },
    {
        match self {
            TranspositionTableFeature::Disabled => None,
            TranspositionTableFeature::Enabled { size, strategy } => Some(
                (*size, matches!(strategy, FailingStrategy::FailSoft)),
            ),
            TranspositionTableFeature::SymmetryEnabled { size, strategy } => Some(
                (*size, matches!(strategy, FailingStrategy::FailSoft)),
            ),
        }
    }

    /// The letter of the symmetry type that selects the player variant:
    /// `d` for disabled, `e` for enabled and `s` for symmetry enabled.
    pub fn symmetry_type(&self) -> (letter: char)
        ensures
            letter == match *self {
                TranspositionTableFeature::Disabled => 'd',
                TranspositionTableFeature::Enabled { .. } => 'e',
                TranspositionTableFeature::SymmetryEnabled { .. } => 's',
            },
    {
        match self {
            TranspositionTableFeature::Disabled => 'd',
            TranspositionTableFeature::Enabled { .. } => 'e',
            TranspositionTableFeature::SymmetryEnabled { .. } => 's',
        }
    }

    /// The feature of a symmetry type letter (either case) with the default
    /// size and strategy; `None` for any other letter.
    pub fn from_symmetry_type(letter: char) -> (feature: Option<Self>)
        ensures
            feature == table_feature_of(letter),
    {
        if letter == 'd' || letter == 'D' {
            Some(TranspositionTableFeature::Disabled)
        } else if letter == 'e' || letter == 'E' {
            Some(
                TranspositionTableFeature::Enabled {
                    size: Self::default_size(),
                    strategy: Self::default_strategy(),
                },
            )
        } else if letter == 's' || letter == 'S' {
            Some(
                TranspositionTableFeature::SymmetryEnabled {
                    size: Self::default_size(),
                    strategy: Self::default_strategy(),
                },
            )
        } else {
            None
        }
    }
}

impl Default for TranspositionTableFeature {
    /// The symmetric transposition table with the default size and strategy.
    fn default() -> (feature: Self)
        ensures
            feature == (TranspositionTableFeature::SymmetryEnabled {
                size: default_table_size(),
                strategy: FailingStrategy::FailHard,
            }),
    {
        TranspositionTableFeature::SymmetryEnabled {
            size: Self::default_size(),
            strategy: Self::default_strategy(),
        }
    }
}

/// Different features that can be enabled or disabled for the pvs player.
#[derive(Copy, Clone, Debug, PartialEq, Eq, Hash, Structural)]
pub struct PVSFeatures {
    /// The failing strategy to use.
    pub failing_strategy: FailingStrategy,
    /// If aspiration windows should be used.
    pub aspiration_window: bool,
    /// If late move reductions should be used.
    pub late_move_reductions: bool,
    /// If late move pruning should be used.
    pub late_move_pruning: bool,
    /// If extensions should be used for special patches.
    pub search_extensions: bool,
    /// If a transposition table should be used.
    pub transposition_table: TranspositionTableFeature,
    /// If lazy SMP should be used; requires the transposition table.
    pub lazy_smp: LazySMPFeature,
}

/// Features that cannot be used together.
#[derive(Copy, Clone, Debug, PartialEq, Eq, Hash, Structural)]
pub enum FeatureConflict {
    /// Lazy SMP is enabled while the transposition table is disabled.
    LazySMPWithoutTranspositionTable,
}

/// The variant of the player that a set of features selects: the letter of
/// the transposition table symmetry type and one switch per feature.
#[derive(Copy, Clone, Debug, PartialEq, Eq, Hash, Structural)]
pub struct PlayerVariant {
    /// `d`, `e` or `s` (see `TranspositionTableFeature::symmetry_type`).
    pub symmetry_type: char,
    /// Whether the fail-soft strategy is used.
    pub soft_failing_strategy: bool,
    /// Whether late move reductions are used.
    pub late_move_reductions: bool,
    /// Whether late move pruning is used.
    pub late_move_pruning: bool,
    /// Whether aspiration windows are used.
    pub aspiration_windows: bool,
    /// Whether search extensions are used.
    pub search_extensions: bool,
    /// Whether search statistics are kept (when logging is enabled).
    pub search_statistics: bool,
}

impl PVSFeatures {
    /// The default features with the given lazy SMP feature: fail-hard,
    /// aspiration windows, the default transposition table, late move
    /// reductions, late move pruning and search extensions.
    pub fn default_with(lazy_smp: LazySMPFeature) -> (features: Self)
        ensures
            features == (PVSFeatures {
                failing_strategy: FailingStrategy::FailHard,
                aspiration_window: true,
                late_move_reductions: true,
                late_move_pruning: true,
                search_extensions: true,
                transposition_table: TranspositionTableFeature::SymmetryEnabled {
                    size: default_table_size(),
                    strategy: FailingStrategy::FailHard,
                },
                lazy_smp,
            }),
    {
        PVSFeatures {
            failing_strategy: FailingStrategy::FailHard,
            aspiration_window: true,
            late_move_reductions: true,
            late_move_pruning: true,
            search_extensions: true,
            transposition_table: TranspositionTableFeature::default(),
            lazy_smp,
        }
    }

    /// Checks that the features can be used together: lazy SMP needs the
    /// transposition table.
    pub fn check_combination(&self) -> (result: Result<(), FeatureConflict>)
        ensures
            result is Err <==> (self.lazy_smp is Yes && self.transposition_table is Disabled),
            result matches Err(conflict) ==> conflict
                == FeatureConflict::LazySMPWithoutTranspositionTable,
    {
        if matches!(self.lazy_smp, LazySMPFeature::Yes(_)) && matches!(
            self.transposition_table,
            TranspositionTableFeature::Disabled
        ) {
            Err(FeatureConflict::LazySMPWithoutTranspositionTable)
        } else {
            Ok(())
        }
    }

    /// The player variant these features select, with search statistics
    /// exactly when logging is enabled.
    pub fn player_variant(&self, logging_enabled: bool) -> (variant: PlayerVariant)
        ensures
            variant == (PlayerVariant {
                symmetry_type: match self.transposition_table {
                    TranspositionTableFeature::Disabled => 'd',
                    TranspositionTableFeature::Enabled { .. } => 'e',
                    TranspositionTableFeature::SymmetryEnabled { .. } => 's',
                },
                soft_failing_strategy: self.failing_strategy == FailingStrategy::FailSoft,
                late_move_reductions: self.late_move_reductions,
                late_move_pruning: self.late_move_pruning,
                aspiration_windows: self.aspiration_window,
                search_extensions: self.search_extensions,
                search_statistics: logging_enabled,
            }),
    {
        PlayerVariant {
            symmetry_type: self.transposition_table.symmetry_type(),
            soft_failing_strategy: matches!(self.failing_strategy, FailingStrategy::FailSoft),
            late_move_reductions: self.late_move_reductions,
            late_move_pruning: self.late_move_pruning,
            aspiration_windows: self.aspiration_window,
            search_extensions: self.search_extensions,
            search_statistics: logging_enabled,
        }
    }
}

impl PlayerVariant {
    /// The features of a player variant (its default options): the
    /// switches of the variant, the transposition table of its symmetry
    /// type with the default size and strategy, and the given lazy SMP
    /// feature; `None` when the symmetry type letter is not one of
    /// `d`, `e`, `s` (in either case).
    pub fn default_features(&self, lazy_smp: LazySMPFeature) -> (features: Option<PVSFeatures>)
        ensures
            features is None <==> table_feature_of(self.symmetry_type) is None,
            features matches Some(f) ==> f.failing_strategy == (if self.soft_failing_strategy {
                FailingStrategy::FailSoft
            } else {
                FailingStrategy::FailHard
            }) && f.aspiration_window == self.aspiration_windows && f.late_move_reductions
                == self.late_move_reductions && f.late_move_pruning == self.late_move_pruning
                && f.search_extensions == self.search_extensions && f.lazy_smp == lazy_smp
                && Some(f.transposition_table) == table_feature_of(self.symmetry_type),
    {
        match TranspositionTableFeature::from_symmetry_type(self.symmetry_type) {
            None => None,
            Some(transposition_table) => Some(
                PVSFeatures {
                    failing_strategy: if self.soft_failing_strategy {
                        FailingStrategy::FailSoft
                    } else {
                        FailingStrategy::FailHard
                    },
                    aspiration_window: self.aspiration_windows,
                    late_move_reductions: self.late_move_reductions,
                    late_move_pruning: self.late_move_pruning,
                    search_extensions: self.search_extensions,
                    transposition_table,
                    lazy_smp,
                },
            ),
        }
    }
}

/// The short names of the features a player variant uses, in the order
/// they are listed: aspiration windows, the transposition table (with
/// symmetries), late move reductions, late move pruning and search
/// extensions.
pub open spec fn feature_names(variant: PlayerVariant) -> Seq<Seq<char>> {
    (if variant.aspiration_windows {
        seq!["AW"@]
    } else {
        Seq::empty()
    }) + (if variant.symmetry_type == 'e' {
        seq!["TT"@]
    } else if variant.symmetry_type == 's' {
        seq!["TT(S)"@]
    } else {
        Seq::empty()
    }) + (if variant.late_move_reductions {
        seq!["LMR"@]
    } else {
        Seq::empty()
    }) + (if variant.late_move_pruning {
        seq!["LMP"@]
    } else {
        Seq::empty()
    }) + (if variant.search_extensions {
        seq!["SE"@]
    } else {
        Seq::empty()
    })
}

impl PlayerVariant {
    /// The short names of the features the variant uses (see
    /// `feature_names`).
    pub fn feature_labels(&self) -> (labels: Vec<String>)
        ensures
            labels.deep_view() == feature_names(*self),
    {
        let mut labels: Vec<String> = Vec::new();
        if self.aspiration_windows {
            labels.push(String::from_str("AW"));
        }
        if self.symmetry_type == 'e' {
            labels.push(String::from_str("TT"));
        } else if self.symmetry_type == 's' {
            labels.push(String::from_str("TT(S)"));
        }
        if self.late_move_reductions {
            labels.push(String::from_str("LMR"));
        }
        if self.late_move_pruning {
            labels.push(String::from_str("LMP"));
        }
        if self.search_extensions {
            labels.push(String::from_str("SE"));
        }
        assert(labels.deep_view() =~= feature_names(*self));
        labels
    }
}

} // verus!
