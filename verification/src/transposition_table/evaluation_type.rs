use vstd::prelude::*;

verus! {

/// The type of node in the transposition table.
#[derive(Copy, Clone, Debug, PartialEq, Eq, Hash, Structural)]
pub enum EvaluationType {
    /// PV-Node: The value for this position is the exact evaluation.
    Exact,
    /// All-Node (fail-low / alpha cut-off): no action was better than alpha,
    /// so the stored evaluation is an upper bound of the real evaluation.
    UpperBound,
    /// Cut-Node (fail-high / beta cut-off): an action was too good, so the
    /// stored evaluation is a lower bound of the real evaluation.
    LowerBound,
}

impl EvaluationType {
    /// The two bits that encode this evaluation type in a packed entry.
    pub open spec fn code(self) -> u64 {
        match self {
            EvaluationType::Exact => 0,
            EvaluationType::UpperBound => 1,
            EvaluationType::LowerBound => 2,
        }
    }

    /// The two bits that encode this evaluation type in a packed entry.
    pub fn as_bits(self) -> (bits: u64)
        ensures
            bits == self.code(),
            bits < 3,
    {
        match self {
            EvaluationType::Exact => 0,
            EvaluationType::UpperBound => 1,
            EvaluationType::LowerBound => 2,
        }
    }
}

} // verus!
