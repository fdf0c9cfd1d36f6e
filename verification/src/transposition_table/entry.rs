use vstd::prelude::*;

use crate::action_id::ActionId;
use crate::evaluation_bounds::NEGATIVE_INFINITY;
use crate::transposition_table::evaluation_type::EvaluationType;

verus! {

/// Mask of the 8 depth bits (after shifting them down).
pub const DEPTH_MASK: u64 = 0xFF;

/// Mask of the 17 action bits (after shifting them down).
pub const ACTION_MASK: u64 = 0x1FFFF;

/// Mask of the 37 evaluation bits (after shifting them down).
pub const EVALUATION_MASK: u64 = 0x1F_FFFF_FFFF;

/// An entry in the transposition table. The table uses lockless hashing with
/// XOR: the key is the Zobrist hash of the position XORed with the data.
///
/// The data is stored as
/// `MSB evaluation(37 Bits)|action_id(17 Bits)|depth(8 Bits)|evaluation_type(2 Bits) LSB`,
/// where the evaluation is stored shifted by `NEGATIVE_INFINITY` so that it is
/// not negative.
///
/// Furthermore an age is stored to determine when to overwrite entries from
/// searching previous positions during the game.
#[derive(Copy, Clone, Debug, PartialEq, Eq, Hash, Structural)]
pub struct Entry {
    /// The zobrist hash of the position XORed with the data.
    pub key: u64,
    /// The packed depth, evaluation, evaluation type and best action.
    pub data: u64,
    /// The age of the search that stored this entry.
    pub age: usize,
}

/// The evaluation shifted by `NEGATIVE_INFINITY`, as the 64 bits of its two's
/// complement representation.
pub open spec fn adjusted_evaluation_bits(evaluation: i32) -> u64 {
    ((evaluation - NEGATIVE_INFINITY) as i64) as u64
}

/// Whether an evaluation can be shifted by `NEGATIVE_INFINITY` without leaving
/// the range of `i32`.
pub open spec fn evaluation_packable(evaluation: i32) -> bool {
    i32::MIN <= evaluation - NEGATIVE_INFINITY <= i32::MAX
}

/// The data word for the given depth, evaluation, evaluation type and action.
pub open spec fn packed_data(
    depth: usize,
    evaluation: i32,
    evaluation_type: EvaluationType,
    action_id: ActionId,
) -> u64 {
    evaluation_type.code() | ((depth as u64) << 2u64) | ((action_id.spec_bits() as u64) << 10u64)
        | (adjusted_evaluation_bits(evaluation) << 27u64)
}

/// The evaluation type code stored in a data word.
pub open spec fn data_type_code(data: u64) -> u64 {
    data & 3
}

/// The evaluation type stored in a data word (only meaningful when its code
/// is not 3).
pub open spec fn data_evaluation_type(data: u64) -> EvaluationType {
    if data & 3 == 0 {
        EvaluationType::Exact
    } else if data & 3 == 1 {
        EvaluationType::UpperBound
    } else {
        EvaluationType::LowerBound
    }
}

/// The depth stored in a data word.
pub open spec fn data_depth(data: u64) -> u64 {
    (data >> 2u64) & DEPTH_MASK
}

/// The bits of the action stored in a data word.
pub open spec fn data_action_bits(data: u64) -> u64 {
    (data >> 10u64) & ACTION_MASK
}

/// The 37 evaluation bits stored in a data word.
pub open spec fn data_evaluation_bits(data: u64) -> u64 {
    (data >> 27u64) & EVALUATION_MASK
}

/// The evaluation stored in a data word: the evaluation bits read as an
/// `i32` (keeping their low 32 bits) and shifted back by `NEGATIVE_INFINITY`.
pub open spec fn data_evaluation(data: u64) -> int {
    ((data_evaluation_bits(data) as i64) as i32) + NEGATIVE_INFINITY
}

/// Whether the evaluation of a data word can be shifted back without leaving
/// the range of `i32`.
pub open spec fn data_evaluation_readable(data: u64) -> bool {
    i32::MIN <= data_evaluation(data) <= i32::MAX
}

/// Reading the fields of a packed word gives back what was packed.
proof fn lemma_packed_fields(t: u64, d: u64, a: u64, x: u64)
    by (bit_vector)
    requires
        t < 3,
        d < 256,
        a < 0x20000,
    ensures
        (t | (d << 2u64) | (a << 10u64) | (x << 27u64)) & 3 == t,
        ((t | (d << 2u64) | (a << 10u64) | (x << 27u64)) >> 2u64) & 0xFF == d,
        ((t | (d << 2u64) | (a << 10u64) | (x << 27u64)) >> 10u64) & 0x1FFFF == a,
        ((t | (d << 2u64) | (a << 10u64) | (x << 27u64)) >> 27u64) & 0x1F_FFFF_FFFF == x
            & 0x1F_FFFF_FFFF,
{
}

/// The 37 low bits of a sign-extended `i32` give back the `i32`.
proof fn lemma_evaluation_bits_round_trip(adjusted: i32)
    by (bit_vector)
    ensures
        ((((adjusted as i64) as u64) & 0x1F_FFFF_FFFF) as i64) as i32 == adjusted,
{
}

/// The masked fields of a data word are within their widths.
proof fn lemma_field_widths(data: u64)
    by (bit_vector)
    ensures
        data & 3 < 4,
        (data >> 2u64) & 0xFF < 256,
        (data >> 10u64) & 0x1FFFF < 0x20000,
{
}

impl Entry {
    /// An empty entry: zero key, zero data and age zero.
    pub fn empty() -> (entry: Entry)
        ensures
            entry.key == 0,
            entry.data == 0,
            entry.age == 0,
    {
        Entry { key: 0, data: 0, age: 0 }
    }

    /// Extracts the evaluation type from the data field.
    pub fn get_evaluation_type(data: u64) -> (evaluation_type: EvaluationType)
        requires
            data_type_code(data) != 3,
        ensures
            evaluation_type == data_evaluation_type(data),
            evaluation_type.code() == data_type_code(data),
    {
        let code = data & 0b11;
        if code == 0 {
            EvaluationType::Exact
        } else if code == 1 {
            EvaluationType::UpperBound
        } else {
            proof {
                lemma_field_widths(data);
            }
            EvaluationType::LowerBound
        }
    }

    /// Extracts the depth from the data field.
    pub fn get_depth(data: u64) -> (depth: usize)
        ensures
            depth as u64 == data_depth(data),
            depth < 256,
    {
        proof {
            lemma_field_widths(data);
        }
        ((data >> 2) & 0xFF) as usize
    }

    /// Extracts the action id from the data field.
    pub fn get_action_id(data: u64) -> (action_id: ActionId)
        ensures
            action_id.spec_bits() as u64 == data_action_bits(data),
    {
        proof {
            lemma_field_widths(data);
        }
        ActionId::from_bits(((data >> 10) & 0x1FFFF) as u32)
    }

    /// Extracts the evaluation from the data field.
    pub fn get_evaluation(data: u64) -> (evaluation: i32)
        requires
            data_evaluation_readable(data),
        ensures
            evaluation == data_evaluation(data),
    {
        let extracted = (data >> 27) & 0x1F_FFFF_FFFF;
        (extracted as i64) as i32 + NEGATIVE_INFINITY
    }

    /// Whether the data field can be unpacked: its evaluation type is known
    /// and its evaluation can be shifted back.
    pub fn unpackable(data: u64) -> (readable: bool)
        ensures
            readable == (data_type_code(data) != 3 && data_evaluation_readable(data)),
    {
        let extracted = ((data >> 27) & 0x1F_FFFF_FFFF) as i64 as i32;
        data & 3 != 3 && extracted.checked_add(NEGATIVE_INFINITY).is_some()
    }

    /// Unpacks the data field into the depth, evaluation, evaluation type and
    /// action.
    pub fn unpack_data(data: u64) -> (unpacked: (usize, i32, EvaluationType, ActionId))
        requires
            data_type_code(data) != 3,
            data_evaluation_readable(data),
        ensures
            unpacked.0 as u64 == data_depth(data),
            unpacked.1 == data_evaluation(data),
            unpacked.2 == data_evaluation_type(data),
            unpacked.3.spec_bits() as u64 == data_action_bits(data),
    {
        let evaluation_type = Self::get_evaluation_type(data);
        let depth = Self::get_depth(data);
        let action_id = Self::get_action_id(data);
        let evaluation = Self::get_evaluation(data);

        (depth, evaluation, evaluation_type, action_id)
    }

    /// Packs the evaluation, evaluation type, depth and action into the data
    /// field. The evaluation is shifted by `NEGATIVE_INFINITY` to make it
    /// non-negative for every evaluation the search produces.
    pub fn pack_data(
        depth: usize,
        evaluation: i32,
        evaluation_type: EvaluationType,
        action_id: ActionId,
    ) -> (data: u64)
        requires
            evaluation_packable(evaluation),
        ensures
            data == packed_data(depth, evaluation, evaluation_type, action_id),
    {
        let adjusted_evaluation = (evaluation - NEGATIVE_INFINITY) as i64;
        let mut data = 0u64;
        data = data | evaluation_type.as_bits();
        data = data | ((depth as u64) << 2);
        data = data | ((action_id.as_bits() as u64) << 10);
        data = data | ((adjusted_evaluation as u64) << 27);
        proof {
            assert(0u64 | evaluation_type.code() == evaluation_type.code()) by (bit_vector);
        }
        data
    }

    /// Unpacking a packed word gives back the depth, evaluation, evaluation
    /// type and action that were packed, as long as the depth fits in 8 bits
    /// and the action in 17 bits.
    pub proof fn lemma_pack_unpack(
        depth: usize,
        evaluation: i32,
        evaluation_type: EvaluationType,
        action_id: ActionId,
    )
        requires
            depth < 256,
            action_id.spec_bits() < 0x20000,
            evaluation_packable(evaluation),
        ensures
            ({
                let data = packed_data(depth, evaluation, evaluation_type, action_id);
                &&& data_type_code(data) != 3
                &&& data_evaluation_readable(data)
                &&& data_depth(data) == depth as u64
                &&& data_evaluation(data) == evaluation
                &&& data_evaluation_type(data) == evaluation_type
                &&& data_action_bits(data) == action_id.spec_bits() as u64
            }),
    {
        let t = evaluation_type.code();
        let d = depth as u64;
        let a = action_id.spec_bits() as u64;
        let x = adjusted_evaluation_bits(evaluation);
        lemma_packed_fields(t, d, a, x);
        let adjusted = (evaluation - NEGATIVE_INFINITY) as i32;
        lemma_evaluation_bits_round_trip(adjusted);
        assert(x == (adjusted as i64) as u64);
    }
}

} // verus!
