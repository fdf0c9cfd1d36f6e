use vstd::prelude::*;

use crate::transposition_table::entry::Entry;

verus! {

/// The value of a counter after one more event: counters wrap around like
/// the atomic counters they model.
pub open spec fn counter_after_increment(count: usize) -> usize {
    vstd::wrapping::usize_specs::wrapping_add(count, 1)
}

/// Diagnostics for the transposition table.
#[derive(Debug, Clone, PartialEq, Eq, Hash, Structural)]
pub struct TranspositionTableDiagnostics {
    /// The capacity of the transposition table (in entries).
    pub capacity: usize,
    /// The amount of entries in the transposition table.
    pub entries: usize,
    /// The amount of accesses to the transposition table.
    pub accesses: usize,
    /// The amount of misses of the transposition table.
    pub misses: usize,
    /// The amount of overwrites in the transposition table.
    pub overwrites: usize,
}

impl TranspositionTableDiagnostics {
    /// Creates new diagnostics for a table with the given capacity (in
    /// entries); all counters start at zero.
    pub fn new(capacity_in_entries: usize) -> (diagnostics: Self)
        ensures
            diagnostics.capacity == capacity_in_entries,
            diagnostics.entries == 0,
            diagnostics.accesses == 0,
            diagnostics.misses == 0,
            diagnostics.overwrites == 0,
    {
        Self { capacity: capacity_in_entries, entries: 0, accesses: 0, misses: 0, overwrites: 0 }
    }

    /// Gets the amount of transposition table hits: the accesses that were
    /// not misses.
    pub fn hits(&self) -> (hits: usize)
        requires
            self.misses <= self.accesses,
        ensures
            hits == self.accesses - self.misses,
    {
        self.accesses - self.misses
    }

    /// Increments the amount of entries in the transposition table.
    /// This should only be called when an entry is stored.
    pub fn increment_entries(&mut self)
        ensures
            *final(self) == (Self { entries: counter_after_increment(old(self).entries), ..*old(self) }),
    no_unwind
    {
        self.entries = if self.entries == usize::MAX {
            0
        } else {
            self.entries + 1
        };
    }

    /// Increments the amount of accesses to the transposition table.
    pub fn increment_accesses(&mut self)
        ensures
            *final(self) == (Self { accesses: counter_after_increment(old(self).accesses), ..*old(self) }),
    no_unwind
    {
        self.accesses = if self.accesses == usize::MAX {
            0
        } else {
            self.accesses + 1
        };
    }

    /// Increments the amount of misses of the transposition table.
    /// This should only be called when an entry is not found.
    pub fn increment_misses(&mut self)
        ensures
            *final(self) == (Self { misses: counter_after_increment(old(self).misses), ..*old(self) }),
    no_unwind
    {
        self.misses = if self.misses == usize::MAX {
            0
        } else {
            self.misses + 1
        };
    }

    /// Increments the amount of overwrites in the transposition table.
    /// This should only be called when an entry is overwritten.
    pub fn increment_overwrites(&mut self)
        ensures
            *final(self) == (Self {
                overwrites: counter_after_increment(old(self).overwrites),
                ..*old(self)
            }),
    no_unwind
    {
        self.overwrites = if self.overwrites == usize::MAX {
            0
        } else {
            self.overwrites + 1
        };
    }

    /// Resets the counters of the diagnostics; the capacity is kept.
    pub fn reset_diagnostics(&mut self)
        ensures
            *final(self) == (Self {
                capacity: old(self).capacity,
                entries: 0,
                accesses: 0,
                misses: 0,
                overwrites: 0,
            }),
    no_unwind
    {
        self.entries = 0;
        self.accesses = 0;
        self.misses = 0;
        self.overwrites = 0;
    }
}

/// The indices of the occupied entries (a key other than zero) among the
/// first `n` entries of the table, in order.
pub open spec fn occupied_indices(entries: Seq<Entry>, n: nat) -> Seq<usize>
    decreases n,
{
    if n == 0 {
        Seq::empty()
    } else if entries[n - 1].key != 0 {
        occupied_indices(entries, (n - 1) as nat).push((n - 1) as usize)
    } else {
        occupied_indices(entries, (n - 1) as nat)
    }
}

/// The occupied indices of a shorter prefix start the occupied indices of
/// a longer one.
proof fn lemma_occupied_prefix(entries: Seq<Entry>, n: nat, m: nat)
    requires
        n <= m,
    ensures
        occupied_indices(entries, n).len() <= occupied_indices(entries, m).len(),
        occupied_indices(entries, m).subrange(0, occupied_indices(entries, n).len() as int)
            == occupied_indices(entries, n),
    decreases m,
{
    if n < m {
        lemma_occupied_prefix(entries, n, (m - 1) as nat);
        let shorter = occupied_indices(entries, (m - 1) as nat);
        let prefix = occupied_indices(entries, n);
        if entries[m - 1].key != 0 {
            assert(shorter.push((m - 1) as usize).subrange(0, prefix.len() as int)
                =~= shorter.subrange(0, prefix.len() as int));
        }
    } else {
        assert(occupied_indices(entries, m).subrange(0, occupied_indices(entries, m).len() as int)
            =~= occupied_indices(entries, m));
    }
}

/// The indices of the entries that a printout of the table shows: the
/// occupied entries in order, at most `max_entries` of them when a maximum
/// is given; and whether occupied entries were left out.
pub open spec fn printed_entries(entries: Seq<Entry>, max_entries: Option<usize>) -> (Seq<usize>, bool) {
    let occupied = occupied_indices(entries, entries.len());
    match max_entries {
        None => (occupied, false),
        Some(max) => if occupied.len() > max {
            (occupied.subrange(0, max as int), true)
        } else {
            (occupied, false)
        },
    }
}

/// Chooses the entries that a printout of the table shows (see
/// `printed_entries`): the indices of the occupied entries and whether the
/// printout ends with a line for left-out entries.
pub fn entries_to_print(entries: &[Entry], max_entries: Option<usize>) -> (printed: (Vec<usize>, bool))
    ensures
        (printed.0@, printed.1) == printed_entries(entries@, max_entries),
{
    let max_entries_value: usize = match max_entries {
        Some(max) => max,
        None => 0,
    };
    let mut indices: Vec<usize> = Vec::new();
    let mut written_entries: usize = 0;
    let mut truncated = false;
    let mut index: usize = 0;
    while index < entries.len()
        invariant_except_break
            index <= entries@.len(),
            indices@ == occupied_indices(entries@, index as nat),
            written_entries == indices@.len(),
            written_entries <= index,
            max_entries is Some ==> written_entries <= max_entries_value,
            max_entries_value == match max_entries {
                Some(max) => max,
                None => 0usize,
            },
            !truncated,
        ensures
            truncated ==> max_entries is Some && written_entries == max_entries_value
                && occupied_indices(entries@, entries@.len()).len() > max_entries_value
                && indices@ == occupied_indices(entries@, entries@.len()).subrange(
                0,
                max_entries_value as int,
            ),
            !truncated ==> indices@ == occupied_indices(entries@, entries@.len()) && (
            max_entries is Some ==> indices@.len() <= max_entries_value),
        decreases entries@.len() - index,
    {
        if entries[index].key != 0 {
            if max_entries.is_some() && written_entries >= max_entries_value {
                proof {
                    let n = (index + 1) as nat;
                    assert(occupied_indices(entries@, n) == indices@.push(index));
                    lemma_occupied_prefix(entries@, n, entries@.len());
                    lemma_occupied_prefix(entries@, index as nat, entries@.len());
                }
                truncated = true;
                break;
            } else {
                indices.push(index);
                written_entries += 1;
            }
        }
        index += 1;
    }
    (indices, truncated)
}

} // verus!
