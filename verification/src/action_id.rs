use vstd::prelude::*;

verus! {

/// The identifier of a game action as the game engine encodes it: an opaque
/// bit pattern that the search stores and hands back unchanged.
#[derive(Copy, Clone, Debug, PartialEq, Eq, Hash, Structural)]
pub struct ActionId {
    pub bits: u32,
}

impl ActionId {
    /// The bit pattern of this action.
    pub open spec fn spec_bits(self) -> u32 {
        self.bits
    }

    /// Creates an action identifier from its bit pattern.
    pub fn from_bits(bits: u32) -> (action: ActionId)
        ensures
            action.spec_bits() == bits,
    {
        ActionId { bits }
    }

    /// The bit pattern of this action.
    pub fn as_bits(self) -> (bits: u32)
        ensures
            bits == self.spec_bits(),
    {
        self.bits
    }

    /// Two actions are the same exactly when their bit patterns are.
    pub proof fn lemma_bits_determine_action(a: ActionId, b: ActionId)
        ensures
            a.spec_bits() == b.spec_bits() <==> a == b,
    {
    }
}

} // verus!
