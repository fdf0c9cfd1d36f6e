use vstd::prelude::*;

use crate::action_id::ActionId;
use crate::transposition_table::diagnostics::{counter_after_increment, TranspositionTableDiagnostics};
use crate::transposition_table::entry::{
    data_action_bits, data_depth, data_evaluation, data_evaluation_readable, data_evaluation_type,
    data_type_code, evaluation_packable, packed_data, Entry,
};
use crate::transposition_table::evaluation_type::EvaluationType;
use crate::transposition_table::size::Size;
use crate::transposition_table::zobrist_hash::{game_hashable, HashGameState, ZobristHash};

verus! {

/// An entry that holds nothing: zero key, zero data, age zero.
pub open spec fn empty_entry() -> Entry {
    Entry { key: 0, data: 0, age: 0 }
}

/// Whether an entry holds data that can be unpacked: a valid evaluation type
/// and an evaluation that fits an `i32`.
pub open spec fn entry_readable(entry: Entry) -> bool {
    data_type_code(entry.data) != 3 && data_evaluation_readable(entry.data)
}

/// The index of the bucket of a hash in a table of `len` entries.
pub open spec fn bucket_index(hash: u64, len: nat) -> int {
    (hash % (len as u64)) as int
}

/// The action stored in a data word.
pub open spec fn data_action(data: u64) -> ActionId {
    ActionId { bits: data_action_bits(data) as u32 }
}

/// Whether an entry was written for the given hash (lockless XOR check).
pub open spec fn entry_matches(entry: Entry, hash: u64) -> bool {
    entry.key == hash ^ entry.data
}

/// What a probe of the transposition table answers for an entry: the stored
/// action and evaluation when the entry belongs to the hash, was searched at
/// least as deep as asked, and its bound decides the window; otherwise
/// nothing. An upper bound at or below alpha answers alpha, a lower bound at
/// or above beta answers beta.
pub open spec fn probe_outcome(entry: Entry, hash: u64, alpha: i32, beta: i32, depth: usize) -> Option<
    (ActionId, i32),
> {
    if !entry_matches(entry, hash) {
        None
    } else if data_depth(entry.data) < depth {
        None
    } else {
        let evaluation = data_evaluation(entry.data);
        let action = data_action(entry.data);
        match data_evaluation_type(entry.data) {
            EvaluationType::Exact => Some((action, evaluation as i32)),
            EvaluationType::UpperBound => if evaluation <= alpha {
                Some((action, alpha))
            } else {
                None
            },
            EvaluationType::LowerBound => if evaluation >= beta {
                Some((action, beta))
            } else {
                None
            },
        }
    }
}

/// The principal variation action a probe finds in an entry: the stored
/// action when the entry belongs to the hash.
pub open spec fn pv_move_outcome(entry: Entry, hash: u64) -> Option<ActionId> {
    if entry_matches(entry, hash) {
        Some(data_action(entry.data))
    } else {
        None
    }
}

/// Whether a store replaces the entry already in the bucket: an empty
/// bucket, an entry of an older search, or an entry searched at most as deep.
pub open spec fn replaces(entry: Entry, current_age: usize, depth: usize) -> bool {
    entry.key == 0 || entry.age < current_age || data_depth(entry.data) <= depth
}

/// The entry a store writes.
pub open spec fn stored_entry(
    hash: u64,
    depth: usize,
    evaluation: i32,
    evaluation_type: EvaluationType,
    action: ActionId,
    age: usize,
) -> Entry {
    let data = packed_data(depth, evaluation, evaluation_type, action);
    Entry { key: hash ^ data, data, age }
}

/// Whether a store with these values keeps every entry readable.
pub open spec fn storable(depth: usize, evaluation: i32, action: ActionId) -> bool {
    depth < 256 && action.bits < 0x20000 && evaluation_packable(evaluation)
}

/// The XOR of the hash and the data is the key exactly for the hash that
/// was used to write it.
proof fn lemma_xor_key(stored_hash: u64, hash: u64, data: u64)
    by (bit_vector)
    ensures
        ((stored_hash ^ data) == (hash ^ data)) == (stored_hash == hash),
{
}

/// The XOR of a hash with two data words is the same exactly when the data
/// words are.
proof fn lemma_xor_data(hash: u64, data: u64, other: u64)
    by (bit_vector)
    ensures
        ((hash ^ data) == (hash ^ other)) == (data == other),
{
}

/// What probing a freshly stored entry answers: nothing when more depth is
/// asked than was stored, otherwise the stored action with the stored
/// evaluation (exact), or with alpha (an upper bound at or below alpha), or
/// with beta (a lower bound at or above beta), and nothing for a bound that
/// does not decide the window.
pub open spec fn expected_probe(
    depth: usize,
    evaluation: i32,
    evaluation_type: EvaluationType,
    action: ActionId,
    alpha: i32,
    beta: i32,
    probe_depth: usize,
) -> Option<(ActionId, i32)> {
    if depth < probe_depth {
        None
    } else {
        match evaluation_type {
            EvaluationType::Exact => Some((action, evaluation)),
            EvaluationType::UpperBound => if evaluation <= alpha {
                Some((action, alpha))
            } else {
                None
            },
            EvaluationType::LowerBound => if evaluation >= beta {
                Some((action, beta))
            } else {
                None
            },
        }
    }
}

/// A probe of a position gives back what the last replacing store for that
/// position wrote: the stored evaluation and action as the window allows,
/// and the stored action as principal variation move.
pub proof fn lemma_probe_after_store(
    hash: u64,
    depth: usize,
    evaluation: i32,
    evaluation_type: EvaluationType,
    action: ActionId,
    age: usize,
    alpha: i32,
    beta: i32,
    probe_depth: usize,
)
    requires
        storable(depth, evaluation, action),
    ensures
        probe_outcome(
            stored_entry(hash, depth, evaluation, evaluation_type, action, age),
            hash,
            alpha,
            beta,
            probe_depth,
        ) == expected_probe(depth, evaluation, evaluation_type, action, alpha, beta, probe_depth),
        pv_move_outcome(stored_entry(hash, depth, evaluation, evaluation_type, action, age), hash)
            == Some(action),
{
    Entry::lemma_pack_unpack(depth, evaluation, evaluation_type, action);
    let entry = stored_entry(hash, depth, evaluation, evaluation_type, action, age);
    lemma_xor_key(hash, hash, entry.data);
    assert(data_action(entry.data) == action);
}

/// A store never replaces an entry of the current search that was searched
/// deeper than the new depth; an empty entry, an entry of an older search
/// and an entry searched at most as deep are replaced.
pub proof fn lemma_deeper_entry_of_current_search_kept(entry: Entry, current_age: usize, depth: usize)
    ensures
        entry.key != 0 && entry.age >= current_age && data_depth(entry.data) > depth ==> !replaces(
            entry,
            current_age,
            depth,
        ),
        entry.key == 0 || entry.age < current_age || data_depth(entry.data) <= depth ==> replaces(
            entry,
            current_age,
            depth,
        ),
{
}

/// A store followed, in the same search, by a shallower store for the same
/// position keeps the first entry: the later store does not replace it, so
/// a probe still answers what the first store stored.
pub proof fn lemma_shallower_store_keeps_deeper_entry(
    hash: u64,
    depth: usize,
    evaluation: i32,
    evaluation_type: EvaluationType,
    action: ActionId,
    age: usize,
    later_depth: usize,
)
    requires
        storable(depth, evaluation, action),
        later_depth < depth,
        stored_entry(hash, depth, evaluation, evaluation_type, action, age).key != 0,
    ensures
        !replaces(stored_entry(hash, depth, evaluation, evaluation_type, action, age), age, later_depth),
{
    Entry::lemma_pack_unpack(depth, evaluation, evaluation_type, action);
}

/// An entry stored for one hash is never read for another hash: the
/// lockless key check rejects it.
pub proof fn lemma_probe_other_hash(
    stored_hash: u64,
    hash: u64,
    depth: usize,
    evaluation: i32,
    evaluation_type: EvaluationType,
    action: ActionId,
    age: usize,
    alpha: i32,
    beta: i32,
    probe_depth: usize,
)
    requires
        stored_hash != hash,
    ensures
        probe_outcome(
            stored_entry(stored_hash, depth, evaluation, evaluation_type, action, age),
            hash,
            alpha,
            beta,
            probe_depth,
        ) is None,
        pv_move_outcome(stored_entry(stored_hash, depth, evaluation, evaluation_type, action, age), hash) is None,
{
    let entry = stored_entry(stored_hash, depth, evaluation, evaluation_type, action, age);
    lemma_xor_key(stored_hash, hash, entry.data);
}

/// The data word of an entry's key with another data word beside it (two
/// searches wrote the key and the data of one entry at once) matches no
/// hash that the key was written for: such an entry is never read for it.
pub proof fn lemma_torn_entry_misses(
    hash: u64,
    written_data: u64,
    entry: Entry,
    alpha: i32,
    beta: i32,
    depth: usize,
)
    requires
        entry.key == hash ^ written_data,
        entry.data != written_data,
    ensures
        !entry_matches(entry, hash),
        probe_outcome(entry, hash, alpha, beta, depth) is None,
        pv_move_outcome(entry, hash) is None,
{
    lemma_xor_data(hash, written_data, entry.data);
}

/// An empty entry only matches the hash zero.
pub proof fn lemma_empty_entry_matches(hash: u64)
    ensures
        entry_matches(empty_entry(), hash) == (hash == 0),
{
    assert((0u64 == (hash ^ 0u64)) == (hash == 0)) by (bit_vector);
}

proof fn lemma_empty_entry_readable()
    ensures
        entry_readable(empty_entry()),
{
    assert(0u64 & 3 == 0) by (bit_vector);
    assert((0u64 >> 27u64) & 0x1F_FFFF_FFFF == 0) by (bit_vector);
}

/// A transposition table for storing evaluations of positions so that they
/// do not have to be recalculated when a position is reached again.
///
/// The table uses lockless hashing: every entry stores the key XORed with
/// its data so that a torn entry does not match.
#[derive(Debug)]
pub struct TranspositionTable {
    pub(crate) entries: Vec<Entry>,
    pub(crate) zobrist_hash: ZobristHash,
    pub(crate) current_age: usize,
    pub(crate) diagnostics: TranspositionTableDiagnostics,
}

impl TranspositionTable {
    /// Every entry can be unpacked.
    #[verifier::type_invariant]
    spec fn well_formed(self) -> bool {
        forall|i: int| 0 <= i < self.entries@.len() ==> entry_readable(#[trigger] self.entries@[i])
    }

    /// The entries of the table.
    pub closed spec fn spec_entries(&self) -> Seq<Entry> {
        self.entries@
    }

    /// The age of the current search.
    pub closed spec fn spec_current_age(&self) -> usize {
        self.current_age
    }

    /// The diagnostics of the table.
    pub closed spec fn spec_diagnostics(&self) -> TranspositionTableDiagnostics {
        self.diagnostics
    }

    /// The Zobrist hash the table hashes positions with.
    pub closed spec fn spec_zobrist_hash(&self) -> ZobristHash {
        self.zobrist_hash
    }

    /// The hash of a position under this table's Zobrist hash.
    pub open spec fn hash_of(&self, game: HashGameState) -> u64 {
        self.spec_zobrist_hash().hash_of(game)
    }

    /// The bucket a position falls into.
    pub open spec fn bucket_of(&self, game: HashGameState) -> int {
        bucket_index(self.hash_of(game), self.spec_entries().len())
    }

    /// Creates a new transposition table that fills the given size with empty
    /// entries.
    pub fn new(size: Size) -> (table: Self)
        requires
            size.bytes() <= usize::MAX,
        ensures
            vstd::layout::size_of::<Entry>() > 0 ==> table.spec_entries().len() == size.bytes()
                / (vstd::layout::size_of::<Entry>() as int),
            forall|i: int|
                0 <= i < table.spec_entries().len() ==> #[trigger] table.spec_entries()[i] == empty_entry(),
            table.spec_current_age() == 0,
            table.spec_diagnostics() == (TranspositionTableDiagnostics {
                capacity: table.spec_entries().len() as usize,
                entries: 0,
                accesses: 0,
                misses: 0,
                overwrites: 0,
            }),
    {
        let bytes = size.in_bytes();
        let entry_size = std::mem::size_of::<Entry>();
        // an entry is never zero-sized
        let amount_of_entries = if entry_size == 0 {
            0
        } else {
            bytes / entry_size
        };

        let mut entries: Vec<Entry> = Vec::new();
        for _i in 0..amount_of_entries
            invariant
                entries@.len() == _i,
                forall|j: int| 0 <= j < entries@.len() ==> #[trigger] entries@[j] == empty_entry(),
        {
            entries.push(Entry::empty());
        }
        proof {
            lemma_empty_entry_readable();
        }

        Self {
            entries,
            zobrist_hash: ZobristHash::new(),
            current_age: 0,
            diagnostics: TranspositionTableDiagnostics::new(amount_of_entries),
        }
    }

    /// The entries of the table.
    pub fn entries(&self) -> (entries: &Vec<Entry>)
        ensures
            entries@ == self.spec_entries(),
    {
        &self.entries
    }

    /// The age of the current search.
    pub fn current_age(&self) -> (age: usize)
        ensures
            age == self.spec_current_age(),
    {
        self.current_age
    }

    /// The diagnostics of the table.
    pub fn diagnostics(&self) -> (diagnostics: &TranspositionTableDiagnostics)
        ensures
            *diagnostics == self.spec_diagnostics(),
    {
        &self.diagnostics
    }

    /// The Zobrist hash the table hashes positions with.
    pub fn zobrist_hash(&self) -> (zobrist_hash: &ZobristHash)
        ensures
            *zobrist_hash == self.spec_zobrist_hash(),
    {
        &self.zobrist_hash
    }

    /// Gets the size of the transposition table in bytes.
    pub fn size(&self) -> (bytes: usize)
        requires
            vstd::layout::size_of::<Entry>() * self.spec_entries().len() <= usize::MAX,
        ensures
            bytes == vstd::layout::size_of::<Entry>() * self.spec_entries().len(),
    {
        std::mem::size_of::<Entry>() * self.entries.len()
    }

    /// Probes the transposition table for an evaluation of the position.
    ///
    /// Answers the stored action and evaluation when the entry of the
    /// position's bucket belongs to the position, was searched at least to
    /// `depth`, and is exact or a bound that already decides the window
    /// `[alpha, beta]` (then the bound of the window is answered).
    /// Counts an access, and a miss when nothing is answered.
    pub fn probe_hash_entry(
        &mut self,
        game: &HashGameState,
        alpha: i32,
        beta: i32,
        depth: usize,
    ) -> (result: Option<(ActionId, i32)>)
        requires
            old(self).spec_entries().len() > 0,
            game_hashable(*game),
        ensures
            0 <= old(self).bucket_of(*game) < old(self).spec_entries().len(),
            result == probe_outcome(
                old(self).spec_entries()[old(self).bucket_of(*game)],
                old(self).hash_of(*game),
                alpha,
                beta,
                depth,
            ),
            final(self).spec_entries() == old(self).spec_entries(),
            final(self).spec_zobrist_hash() == old(self).spec_zobrist_hash(),
            final(self).spec_current_age() == old(self).spec_current_age(),
            final(self).spec_diagnostics() == (TranspositionTableDiagnostics {
                accesses: counter_after_increment(old(self).spec_diagnostics().accesses),
                misses: if result is Some {
                    old(self).spec_diagnostics().misses
                } else {
                    counter_after_increment(old(self).spec_diagnostics().misses)
                },
                ..old(self).spec_diagnostics()
            }),
    {
        proof {
            use_type_invariant(&*self);
        }
        self.diagnostics.increment_accesses();

        let hash = self.zobrist_hash.hash(game);
        let index = (hash % self.entries.len() as u64) as usize;

        let data = self.entries[index].data;

        // If key and data were written simultaneously by different searches
        // the check fails, except for the rare case of key collisions.
        let test_key = hash ^ data;
        if self.entries[index].key != test_key {
            self.diagnostics.increment_misses();
            return None;
        }

        proof {
            assert(entry_readable(self.entries@[index as int]));
        }
        let (table_depth, table_evaluation, table_evaluation_type, table_action) = Entry::unpack_data(
            data,
        );
        assert(table_action == data_action(data));

        // Only use the stored evaluation if it has been searched to at least
        // the same depth as would be searched now
        if table_depth < depth {
            self.diagnostics.increment_misses();
            return None;
        }

        match table_evaluation_type {
            EvaluationType::Exact => Some((table_action, table_evaluation)),
            EvaluationType::UpperBound => {
                if table_evaluation <= alpha {
                    Some((table_action, alpha))
                } else {
                    self.diagnostics.increment_misses();
                    None
                }
            },
            EvaluationType::LowerBound => {
                if table_evaluation >= beta {
                    Some((table_action, beta))
                } else {
                    self.diagnostics.increment_misses();
                    None
                }
            },
        }
    }

    /// Stores an evaluation of the position in its bucket.
    ///
    /// The entry in the bucket is replaced when the bucket is empty (counted
    /// as a new entry), when it was stored by an older search or searched at
    /// most as deep (both counted as overwrites); otherwise nothing changes.
    pub fn store_evaluation(
        &mut self,
        game: &HashGameState,
        depth: usize,
        evaluation: i32,
        evaluation_type: EvaluationType,
        action: ActionId,
    )
        requires
            old(self).spec_entries().len() > 0,
            game_hashable(*game),
            storable(depth, evaluation, action),
        ensures
            0 <= old(self).bucket_of(*game) < old(self).spec_entries().len(),
            ({
                let previous = old(self).spec_entries()[old(self).bucket_of(*game)];
                previous.key != 0 && previous.age >= old(self).spec_current_age() && data_depth(previous.data)
                    > depth ==> final(self).spec_entries() == old(self).spec_entries()
            }),
            ({
                let index = old(self).bucket_of(*game);
                let previous = old(self).spec_entries()[index];
                previous.key == 0 || previous.age < old(self).spec_current_age() || data_depth(previous.data)
                    <= depth ==> final(self).spec_entries()[index] == stored_entry(
                    old(self).hash_of(*game),
                    depth,
                    evaluation,
                    evaluation_type,
                    action,
                    old(self).spec_current_age(),
                ) && final(self).spec_entries().len() == old(self).spec_entries().len()
            }),
            ({
                let index = old(self).bucket_of(*game);
                let previous = old(self).spec_entries()[index];
                let replaced = replaces(previous, old(self).spec_current_age(), depth);
                &&& final(self).spec_entries() == if replaced {
                    old(self).spec_entries().update(
                        index,
                        stored_entry(
                            old(self).hash_of(*game),
                            depth,
                            evaluation,
                            evaluation_type,
                            action,
                            old(self).spec_current_age(),
                        ),
                    )
                } else {
                    old(self).spec_entries()
                }
                &&& final(self).spec_diagnostics() == if previous.key == 0 {
                    TranspositionTableDiagnostics {
                        entries: counter_after_increment(old(self).spec_diagnostics().entries),
                        ..old(self).spec_diagnostics()
                    }
                } else if replaced {
                    TranspositionTableDiagnostics {
                        overwrites: counter_after_increment(old(self).spec_diagnostics().overwrites),
                        ..old(self).spec_diagnostics()
                    }
                } else {
                    old(self).spec_diagnostics()
                }
            }),
            final(self).spec_zobrist_hash() == old(self).spec_zobrist_hash(),
            final(self).spec_current_age() == old(self).spec_current_age(),
    {
        proof {
            use_type_invariant(&*self);
        }
        let hash = self.zobrist_hash.hash(game);

        let index = (hash % self.entries.len() as u64) as usize;

        let replace = if self.entries[index].key == 0 {
            // first entry in the key bucket
            self.diagnostics.increment_entries();
            true
        } else if self.entries[index].age < self.current_age {
            // override older entries
            self.diagnostics.increment_overwrites();
            true
        } else if Entry::get_depth(self.entries[index].data) <= depth {
            // override entries with smaller depth
            self.diagnostics.increment_overwrites();
            true
        } else {
            false
        };

        if !replace {
            return;
        }

        let data = Entry::pack_data(depth, evaluation, evaluation_type, action);
        let key = hash ^ data;
        proof {
            Entry::lemma_pack_unpack(depth, evaluation, evaluation_type, action);
        }

        let entry = Entry { key, data, age: self.current_age };
        assert(entry_readable(entry));
        let mut entries: Vec<Entry> = Vec::new();
        std::mem::swap(&mut entries, &mut self.entries);
        entries.set(index, entry);
        std::mem::swap(&mut entries, &mut self.entries);
    }

    /// Increments the age of the transposition table, so that entries of
    /// earlier searches can be overwritten.
    pub fn increment_age(&mut self)
        ensures
            final(self).spec_current_age() == counter_after_increment(old(self).spec_current_age()),
            final(self).spec_entries() == old(self).spec_entries(),
            final(self).spec_zobrist_hash() == old(self).spec_zobrist_hash(),
            final(self).spec_diagnostics() == old(self).spec_diagnostics(),
    {
        proof {
            use_type_invariant(&*self);
        }
        self.current_age = self.current_age.wrapping_add(1);
    }

    /// Probes the transposition table for the principal variation action of
    /// the position: the stored action when the entry of the position's
    /// bucket belongs to the position.
    pub fn probe_pv_move(&self, game: &HashGameState) -> (action: Option<ActionId>)
        requires
            self.spec_entries().len() > 0,
            game_hashable(*game),
        ensures
            action == pv_move_outcome(self.spec_entries()[self.bucket_of(*game)], self.hash_of(*game)),
    {
        let hash = self.zobrist_hash.hash(game);
        let index = (hash % self.entries.len() as u64) as usize;
        let data = self.entries[index].data;
        let test_key = hash ^ data;

        if self.entries[index].key != test_key {
            return None;
        }

        Some(Entry::get_action_id(data))
    }

    /// Clears the transposition table between games: all entries are empty,
    /// the age starts over and the diagnostics are reset.
    pub fn clear(&mut self)
        ensures
            final(self).spec_entries().len() == old(self).spec_entries().len(),
            forall|i: int|
                0 <= i < final(self).spec_entries().len() ==> #[trigger] final(self).spec_entries()[i]
                    == empty_entry(),
            final(self).spec_current_age() == 0,
            final(self).spec_zobrist_hash() == old(self).spec_zobrist_hash(),
            final(self).spec_diagnostics() == (TranspositionTableDiagnostics {
                capacity: old(self).spec_diagnostics().capacity,
                entries: 0,
                accesses: 0,
                misses: 0,
                overwrites: 0,
            }),
    {
        proof {
            use_type_invariant(&*self);
            lemma_empty_entry_readable();
        }
        let length = self.entries.len();
        let mut entries: Vec<Entry> = Vec::new();
        for _i in 0..length
            invariant
                entries@.len() == _i,
                forall|j: int| 0 <= j < entries@.len() ==> #[trigger] entries@[j] == empty_entry(),
        {
            entries.push(Entry::empty());
        }
        self.entries = entries;
        self.current_age = 0;

        self.diagnostics.reset_diagnostics();
    }

    /// Resets the diagnostics for a new search, keeping the count of entries.
    pub fn reset_diagnostics(&mut self)
        ensures
            final(self).spec_entries() == old(self).spec_entries(),
            final(self).spec_current_age() == old(self).spec_current_age(),
            final(self).spec_zobrist_hash() == old(self).spec_zobrist_hash(),
            final(self).spec_diagnostics() == (TranspositionTableDiagnostics {
                capacity: old(self).spec_diagnostics().capacity,
                entries: old(self).spec_diagnostics().entries,
                accesses: 0,
                misses: 0,
                overwrites: 0,
            }),
    {
        proof {
            use_type_invariant(&*self);
        }
        let entries = self.diagnostics.entries;
        self.diagnostics.reset_diagnostics();
        self.diagnostics.entries = entries;
    }
}

/// A placement of a patch as the game lists it among the transformations of
/// the patch: the row and column of its top left corner, its rotation
/// (`0` to `3`, quarter turns) and whether it is flipped.
#[derive(Copy, Clone, Debug, PartialEq, Eq, Hash, Structural)]
pub struct PatchTransformation {
    /// The row of the top left corner.
    pub row: u8,
    /// The column of the top left corner.
    pub column: u8,
    /// The rotation in quarter turns.
    pub rotation: u8,
    /// Whether the patch is flipped.
    pub flipped: bool,
}

/// The rotation a symmetry applies to a patch: when the patch is flipped the
/// rotation of the symmetry acts in the other direction.
pub open spec fn corrected_rotation(patch_orientation: bool, applied_rotation: u8) -> int {
    if patch_orientation {
        (4 - applied_rotation) % 4
    } else {
        applied_rotation as int
    }
}

/// Whether a transformation is the placement at `row`, `column` with the
/// given rotation and orientation.
pub open spec fn transformation_matches(
    transformation: PatchTransformation,
    row: u8,
    column: u8,
    rotation: int,
    flipped: bool,
) -> bool {
    &&& transformation.row == row
    &&& transformation.column == column
    &&& transformation.rotation == rotation
    &&& transformation.flipped == flipped
}

/// The index of the first transformation from `from` on that is the
/// placement at `row`, `column` with the given rotation and orientation, or
/// the length of the list when there is none.
pub open spec fn first_matching_transformation(
    transformations: Seq<PatchTransformation>,
    row: u8,
    column: u8,
    rotation: int,
    flipped: bool,
    from: int,
) -> int
    decreases transformations.len() - from,
{
    if from < 0 || from >= transformations.len() {
        transformations.len() as int
    } else if transformation_matches(transformations[from], row, column, rotation, flipped) {
        from
    } else {
        first_matching_transformation(transformations, row, column, rotation, flipped, from + 1)
    }
}

/// Applies a symmetry (a rotation and a flip of the quilt board) to a patch
/// placement and looks up the resulting transformation among the
/// transformations of the patch.
///
/// `row` and `column` are the already transformed position. The rotation
/// of the symmetry is applied in the other direction to a flipped patch, the
/// orientations compose by exclusive or. Returns the index (as `u16`) of the
/// first transformation with that position, rotation and orientation, or
/// `None` if the patch has no such transformation.
pub fn apply_patch_rotation(
    transformations: &[PatchTransformation],
    row: u8,
    column: u8,
    patch_rotation: u8,
    patch_orientation: bool,
    applied_rotation: u8,
    applied_orientation: bool,
) -> (index: Option<u16>)
    requires
        patch_orientation ==> applied_rotation <= 4,
        patch_rotation + corrected_rotation(patch_orientation, applied_rotation) <= u8::MAX,
    ensures
        ({
            let first = first_matching_transformation(
                transformations@,
                row,
                column,
                (patch_rotation + corrected_rotation(patch_orientation, applied_rotation)) % 4,
                applied_orientation != patch_orientation,
                0,
            );
            if first < transformations@.len() {
                index == Some((first % 0x10000) as u16)
            } else {
                index is None
            }
        }),
{
    let ghost rotation = (patch_rotation + corrected_rotation(patch_orientation, applied_rotation)) % 4;
    let ghost orientation = applied_orientation != patch_orientation;
    let ghost first = first_matching_transformation(transformations@, row, column, rotation, orientation, 0);
    let mut applied = applied_rotation;

    // Flip and rotation operations are not commutative:
    // correct the applied rotation to account for the flip
    if patch_orientation {
        applied = (4 - applied) % 4;
    }
    let new_orientation = applied_orientation != patch_orientation;
    let new_rotation = (patch_rotation + applied) % 4;
    assert(new_rotation == rotation);

    let mut position: usize = 0;
    while position < transformations.len()
        invariant
            position <= transformations@.len(),
            new_rotation as int == rotation,
            new_orientation == orientation,
            rotation == (patch_rotation + corrected_rotation(patch_orientation, applied_rotation)) % 4,
            orientation == (applied_orientation != patch_orientation),
            first == first_matching_transformation(transformations@, row, column, rotation, orientation, 0),
            first == first_matching_transformation(
                transformations@,
                row,
                column,
                rotation,
                orientation,
                position as int,
            ),
        decreases transformations@.len() - position,
    {
        let transformation = transformations[position];
        if transformation.row == row && transformation.column == column && transformation.rotation
            == new_rotation && transformation.flipped == new_orientation {
            // the index as `u16`, keeping its low 16 bits
            let found = (position % 0x10000) as u16;
            return Some(found);
        }
        position += 1;
    }
    None
}

/// The symmetry with the given number (0 to 63) of the two quilt boards:
/// the rotation (0 to 3) and flip (0 or 1) of the first player's board and
/// then of the second player's board, counted with the second player's flip
/// fastest.
pub open spec fn symmetry_of_number(number: int) -> (u8, u8, u8, u8) {
    ((number / 16) as u8, ((number / 8) % 2) as u8, ((number / 2) % 4) as u8, (number % 2) as u8)
}

/// The 64 symmetries of the two quilt boards under which an evaluation is
/// stored: every rotation and flip of the first player's board combined
/// with every rotation and flip of the second player's board.
pub fn board_symmetries() -> (symmetries: Vec<(u8, u8, u8, u8)>)
    ensures
        symmetries@.len() == 64,
        forall|i: int| 0 <= i < 64 ==> #[trigger] symmetries@[i] == symmetry_of_number(i),
{
    let mut symmetries: Vec<(u8, u8, u8, u8)> = Vec::new();
    let mut player_1_rotation: u8 = 0;
    while player_1_rotation <= 3
        invariant
            player_1_rotation <= 4,
            symmetries@.len() == 16 * player_1_rotation,
            forall|i: int| 0 <= i < symmetries@.len() ==> #[trigger] symmetries@[i] == symmetry_of_number(i),
        decreases 4 - player_1_rotation,
    {
        let mut player_1_flip: u8 = 0;
        while player_1_flip <= 1
            invariant
                player_1_rotation <= 3,
                player_1_flip <= 2,
                symmetries@.len() == 16 * player_1_rotation + 8 * player_1_flip,
                forall|i: int| 0 <= i < symmetries@.len() ==> #[trigger] symmetries@[i] == symmetry_of_number(i),
            decreases 2 - player_1_flip,
        {
            let mut player_2_rotation: u8 = 0;
            while player_2_rotation <= 3
                invariant
                    player_1_rotation <= 3,
                    player_1_flip <= 1,
                    player_2_rotation <= 4,
                    symmetries@.len() == 16 * player_1_rotation + 8 * player_1_flip + 2 * player_2_rotation,
                    forall|i: int| 0 <= i < symmetries@.len() ==> #[trigger] symmetries@[i] == symmetry_of_number(i),
                decreases 4 - player_2_rotation,
            {
                let mut player_2_flip: u8 = 0;
                while player_2_flip <= 1
                    invariant
                        player_1_rotation <= 3,
                        player_1_flip <= 1,
                        player_2_rotation <= 3,
                        player_2_flip <= 2,
                        symmetries@.len() == 16 * player_1_rotation + 8 * player_1_flip + 2
                            * player_2_rotation + player_2_flip,
                        forall|i: int| 0 <= i < symmetries@.len() ==> #[trigger] symmetries@[i] == symmetry_of_number(i),
                    decreases 2 - player_2_flip,
                {
                    let ghost n = symmetries@.len() as int;
                    assert(symmetry_of_number(n) == (player_1_rotation, player_1_flip, player_2_rotation, player_2_flip)) by (nonlinear_arith)
                        requires
                            n == 16 * player_1_rotation + 8 * player_1_flip + 2 * player_2_rotation + player_2_flip,
                            player_1_rotation <= 3,
                            player_1_flip <= 1,
                            player_2_rotation <= 3,
                            player_2_flip <= 1,
                    ;
                    symmetries.push((player_1_rotation, player_1_flip, player_2_rotation, player_2_flip));
                    player_2_flip += 1;
                }
                player_2_rotation += 1;
            }
            player_1_flip += 1;
        }
        player_1_rotation += 1;
    }
    symmetries
}

/// The rotation and flip that a symmetry applies to the board of the
/// player to move, or `None` when it leaves that board as it is (the action
/// is then stored unchanged).
pub open spec fn applied_symmetry_of(
    is_player_1: bool,
    symmetry: (u8, u8, u8, u8),
) -> Option<(u8, bool)> {
    let (player_1_rotation, player_1_flip, player_2_rotation, player_2_flip) = symmetry;
    if (player_1_rotation == 0 && player_1_flip == 0 && is_player_1) || (player_2_rotation == 0
        && player_2_flip == 0 && !is_player_1) {
        None
    } else if is_player_1 {
        Some((player_1_rotation, player_1_flip != 0))
    } else {
        Some((player_2_rotation, player_2_flip != 0))
    }
}

/// The rotation and flip that a symmetry applies to the board of the
/// player to move (see `applied_symmetry_of`).
pub fn applied_symmetry(is_player_1: bool, symmetry: (u8, u8, u8, u8)) -> (applied: Option<(u8, bool)>)
    ensures
        applied == applied_symmetry_of(is_player_1, symmetry),
{
    let (player_1_rotation, player_1_flip, player_2_rotation, player_2_flip) = symmetry;
    if (player_1_rotation == 0 && player_1_flip == 0 && is_player_1) || (player_2_rotation == 0
        && player_2_flip == 0 && !is_player_1) {
        return None;
    }
    let rotation = if is_player_1 {
        player_1_rotation
    } else {
        player_2_rotation
    };
    let flip = (if is_player_1 {
        player_1_flip
    } else {
        player_2_flip
    }) != 0;
    Some((rotation, flip))
}

} // verus!
