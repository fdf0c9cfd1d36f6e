use vstd::prelude::*;

use crate::evaluation_bounds::NEGATIVE_INFINITY;
use crate::transposition_table::EvaluationType;

verus! {

/// An entry of the transposition table of the first principal variation
/// search player, with lockless hashing (the key is the Zobrist hash XORed
/// with the data).
///
/// The data is stored as
/// `MSB evaluation(43 Bits)|action_id(11 Bits)|depth(8 Bits)|evaluation_type(2 Bits) LSB`,
/// the evaluation shifted by `NEGATIVE_INFINITY` so that it is not negative.
#[derive(Copy, Clone, Debug, PartialEq, Eq, Hash, Structural)]
pub struct Entry {
    /// The zobrist hash of the position XORed with the data.
    pub key: u64,
    /// The packed depth, evaluation, evaluation type and best action id.
    pub data: u64,
    /// The age of the search that stored this entry.
    pub age: usize,
}

/// The shifted evaluation as the 64 bits of its two's complement.
pub open spec fn adjusted_evaluation_bits(evaluation: isize) -> u64 {
    ((evaluation - NEGATIVE_INFINITY) as i64) as u64
}

/// Whether an evaluation can be shifted by `NEGATIVE_INFINITY` without
/// leaving the range of `isize`.
pub open spec fn evaluation_packable(evaluation: isize) -> bool {
    isize::MIN <= evaluation - NEGATIVE_INFINITY <= isize::MAX
}

/// The data word for the given depth, evaluation, evaluation type and
/// action id.
pub open spec fn packed_data(
    depth: usize,
    evaluation: isize,
    evaluation_type: EvaluationType,
    action_id: usize,
) -> u64 {
    evaluation_type.code() | ((depth as u64) << 2u64) | ((action_id as u64) << 10u64) | (
    adjusted_evaluation_bits(evaluation) << 21u64)
}

/// The evaluation type stored in a data word (only meaningful when its code
/// is not 3).
pub open spec fn data_evaluation_type(data: u64) -> EvaluationType {
    if data & 3 == 0 {
        EvaluationType::Exact
    } else if data & 3 == 1 {
        EvaluationType::UpperBound
    } else {
        EvaluationType::LowerBound
    }
}

/// The depth stored in a data word.
pub open spec fn data_depth(data: u64) -> u64 {
    (data >> 2u64) & 0xFF
}

/// The action id stored in a data word.
pub open spec fn data_action_id(data: u64) -> u64 {
    (data >> 10u64) & 0x7FF
}

/// The 43 evaluation bits stored in a data word.
pub open spec fn data_evaluation_bits(data: u64) -> u64 {
    (data >> 21u64) & 0x7FF_FFFF_FFFF
}

/// The evaluation stored in a data word, shifted back by
/// `NEGATIVE_INFINITY`.
pub open spec fn data_evaluation(data: u64) -> int {
    ((data_evaluation_bits(data) as i64) as isize) + NEGATIVE_INFINITY
}

/// Whether the evaluation of a data word can be shifted back without leaving
/// the range of `isize`.
pub open spec fn data_evaluation_readable(data: u64) -> bool {
    isize::MIN <= data_evaluation(data) <= isize::MAX
}

proof fn lemma_packed_fields(t: u64, d: u64, a: u64, x: u64)
    by (bit_vector)
    requires
        t < 3,
        d < 256,
        a < 0x800,
    ensures
        (t | (d << 2u64) | (a << 10u64) | (x << 21u64)) & 3 == t,
        ((t | (d << 2u64) | (a << 10u64) | (x << 21u64)) >> 2u64) & 0xFF == d,
        ((t | (d << 2u64) | (a << 10u64) | (x << 21u64)) >> 10u64) & 0x7FF == a,
        ((t | (d << 2u64) | (a << 10u64) | (x << 21u64)) >> 21u64) & 0x7FF_FFFF_FFFF == x
            & 0x7FF_FFFF_FFFF,
{
}

proof fn lemma_evaluation_bits_round_trip(adjusted: i64)
    by (bit_vector)
    requires
        0 <= adjusted < 0x800_0000_0000,
    ensures
        ((adjusted as u64) & 0x7FF_FFFF_FFFF) as i64 == adjusted,
{
}

proof fn lemma_field_widths(data: u64)
    by (bit_vector)
    ensures
        data & 3 < 4,
        (data >> 2u64) & 0xFF < 256,
        (data >> 10u64) & 0x7FF < 0x800,
{
}

impl Entry {
    /// Extracts the evaluation type from the data field.
    pub fn get_evaluation_type(data: u64) -> (evaluation_type: EvaluationType)
        requires
            data & 3 != 3,
        ensures
            evaluation_type == data_evaluation_type(data),
    {
        let code = data & 0b11;
        if code == 0 {
            EvaluationType::Exact
        } else if code == 1 {
            EvaluationType::UpperBound
        } else {
            EvaluationType::LowerBound
        }
    }

    /// Extracts the depth from the data field.
    pub fn get_depth(data: u64) -> (depth: usize)
        ensures
            depth as u64 == data_depth(data),
    {
        proof {
            lemma_field_widths(data);
        }
        ((data >> 2) & 0xFF) as usize
    }

    /// Extracts the action id from the data field.
    pub fn get_action_id(data: u64) -> (action_id: usize)
        ensures
            action_id as u64 == data_action_id(data),
    {
        proof {
            lemma_field_widths(data);
        }
        ((data >> 10) & 0x7FF) as usize
    }

    /// Extracts the evaluation from the data field.
    pub fn get_evaluation(data: u64) -> (evaluation: isize)
        requires
            data_evaluation_readable(data),
        ensures
            evaluation == data_evaluation(data),
    {
        let extracted = (data >> 21) & 0x7FF_FFFF_FFFF;
        (extracted as i64) as isize + NEGATIVE_INFINITY as isize
    }

    /// Unpacks the data field into the depth, evaluation, evaluation type and
    /// action id (the action itself is rebuilt by the game from the id and
    /// the extra data stored beside the entry).
    pub fn unpack_fields(data: u64) -> (unpacked: (usize, isize, EvaluationType, usize))
        requires
            data & 3 != 3,
            data_evaluation_readable(data),
        ensures
            unpacked.0 as u64 == data_depth(data),
            unpacked.1 == data_evaluation(data),
            unpacked.2 == data_evaluation_type(data),
            unpacked.3 as u64 == data_action_id(data),
    {
        let evaluation_type = Self::get_evaluation_type(data);
        let depth = Self::get_depth(data);
        let action_id = Self::get_action_id(data);
        let evaluation = Self::get_evaluation(data);
        (depth, evaluation, evaluation_type, action_id)
    }

    /// Packs the evaluation, evaluation type, depth and action id into the
    /// data field.
    pub fn pack_data(
        depth: usize,
        evaluation: isize,
        evaluation_type: EvaluationType,
        action_id: usize,
    ) -> (data: u64)
        requires
            evaluation_packable(evaluation),
        ensures
            data == packed_data(depth, evaluation, evaluation_type, action_id),
    {
        let adjusted_evaluation = (evaluation - NEGATIVE_INFINITY as isize) as i64;
        let mut data = 0u64;
        data = data | evaluation_type.as_bits();
        data = data | ((depth as u64) << 2);
        data = data | ((action_id as u64) << 10);
        data = data | ((adjusted_evaluation as u64) << 21);
        proof {
            assert(0u64 | evaluation_type.code() == evaluation_type.code()) by (bit_vector);
        }
        data
    }

    /// Unpacking a packed word gives back the depth, evaluation, evaluation
    /// type and action id, as long as the depth fits in 8 bits, the action id
    /// in 11 bits and the shifted evaluation in 43 bits.
    pub proof fn lemma_pack_unpack(
        depth: usize,
        evaluation: isize,
        evaluation_type: EvaluationType,
        action_id: usize,
    )
        requires
            depth < 256,
            action_id < 0x800,
            0 <= evaluation - NEGATIVE_INFINITY < 0x800_0000_0000,
            evaluation_packable(evaluation),
        ensures
            ({
                let data = packed_data(depth, evaluation, evaluation_type, action_id);
                &&& data & 3 != 3
                &&& data_evaluation_readable(data)
                &&& data_depth(data) == depth as u64
                &&& data_evaluation(data) == evaluation
                &&& data_evaluation_type(data) == evaluation_type
                &&& data_action_id(data) == action_id as u64
            }),
    {
        let t = evaluation_type.code();
        let d = depth as u64;
        let a = action_id as u64;
        let x = adjusted_evaluation_bits(evaluation);
        lemma_packed_fields(t, d, a, x);
        let adjusted = (evaluation - NEGATIVE_INFINITY) as i64;
        lemma_evaluation_bits_round_trip(adjusted);
        assert(x == adjusted as u64);
    }
}

} // verus!
