//! The principal variation table: the best line of actions found so far,
//! one action per ply.
use vstd::prelude::*;

use crate::action_id::ActionId;

verus! {

/// A principal variation table (stored like a triangular PV table, as one
/// list of actions).
///
/// An insertion past the end grows the table; the gap is filled with the
/// null action the table was created with.
#[derive(Debug, Clone, PartialEq, Eq, Hash)]
pub struct PVTable {
    /// The actions of the table.
    table: Vec<ActionId>,
    /// The action that fills the gaps (the null action of the engine).
    null_action: ActionId,
}

/// The table after writing `action` at `index`: the action replaces the
/// one at the index, or the table grows to the index, filled with
/// `filler`, and ends with the action.
pub open spec fn inserted(table: Seq<ActionId>, index: nat, action: ActionId, filler: ActionId) -> Seq<ActionId> {
    if index < table.len() {
        table.update(index as int, action)
    } else {
        table + Seq::new((index - table.len()) as nat, |i: int| filler) + seq![action]
    }
}

impl View for PVTable {
    type V = Seq<ActionId>;

    /// The actions of the table by index.
    closed spec fn view(&self) -> Seq<ActionId> {
        self.table@
    }
}

impl PVTable {
    /// The action that fills the gaps.
    pub closed spec fn spec_null_action(&self) -> ActionId {
        self.null_action
    }

    /// Creates an empty table whose gaps are filled with `null_action`.
    pub fn new(null_action: ActionId) -> (table: Self)
        ensures
            table@ == Seq::<ActionId>::empty(),
            table.spec_null_action() == null_action,
    {
        PVTable { table: Vec::new(), null_action }
    }

    /// Writes the action at the given index of the principal variation,
    /// growing the table when the index lies past its end.
    pub fn insert(&mut self, index: usize, action: ActionId)
        requires
            index < usize::MAX,
        ensures
            final(self)@ == inserted(old(self)@, index as nat, action, old(self).spec_null_action()),
            final(self).spec_null_action() == old(self).spec_null_action(),
    {
        if index >= self.table.len() {
            let ghost previous = self.table@;
            let filler = self.null_action;
            while self.table.len() < index
                invariant
                    previous.len() <= self.table@.len() <= index,
                    filler == self.null_action,
                    self.table@ == previous + Seq::new(
                        (self.table@.len() - previous.len()) as nat,
                        |i: int| filler,
                    ),
                decreases index - self.table@.len(),
            {
                self.table.push(filler);
                assert(self.table@ =~= previous + Seq::new(
                    (self.table@.len() - previous.len()) as nat,
                    |i: int| filler,
                ));
            }
            self.table.push(action);
            assert(self.table@ =~= inserted(previous, index as nat, action, filler));
        } else {
            self.table.set(index, action);
        }
    }

    /// The action at the given index of the principal variation; `None`
    /// past the end of the table.
    pub fn get(&self, index: usize) -> (action: Option<ActionId>)
        ensures
            action == if index < self@.len() {
                Some(self@[index as int])
            } else {
                None
            },
    {
        if index < self.table.len() {
            Some(self.table[index])
        } else {
            None
        }
    }
}

/// Reading an index after writing an action there gives the action back,
/// and the other indices of the table keep their actions.
pub proof fn lemma_get_after_insert(
    table: Seq<ActionId>,
    index: nat,
    action: ActionId,
    filler: ActionId,
    other: nat,
)
    ensures
        inserted(table, index, action, filler)[index as int] == action,
        inserted(table, index, action, filler).len() == if index < table.len() {
            table.len()
        } else {
            index + 1
        },
        other != index && other < table.len() ==> inserted(table, index, action, filler)[other as int]
            == table[other as int],
        table.len() <= other < index ==> inserted(table, index, action, filler)[other as int]
            == filler,
{
}

} // verus!
