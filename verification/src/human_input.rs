//! What a human player types: the choice of an action, the rotation and
//! orientation of a patch and the position on the quilt board. The prompts
//! and the reading of a line stay with the caller.
use vstd::prelude::*;
use vstd::string::StrSliceExecFns;
use vstd::string::StringExecFns;

use regex::Regex;

use crate::text::{chars_of, lowercase_of, spells, to_lowercase, trim, trimmed};
use crate::transposition_table::{QUILT_BOARD_COLUMNS, QUILT_BOARD_ROWS};

verus! {

/// Whether a character separates fields: a comma or a space.
pub open spec fn is_separator(c: char) -> bool {
    c == ',' || c == ' '
}

/// The fields of a line split at every run of commas and spaces, as
/// `regex` splits it with the pattern `[, ]+`: the text before the first
/// run, between two runs and after the last run each make a field, so a
/// line that starts or ends with a separator has an empty first or last
/// field, and an empty line is one empty field.
pub open spec fn separator_split_of(text: Seq<char>) -> Seq<Seq<char>>
    decreases text.len(),
{
    if text.len() == 0 {
        seq![Seq::<char>::empty()]
    } else {
        let before = separator_split_of(text.drop_last());
        let c = text.last();
        if !is_separator(c) {
            before.update(before.len() - 1, before.last().push(c))
        } else if text.len() >= 2 && is_separator(text[text.len() - 2]) {
            before
        } else {
            before.push(Seq::<char>::empty())
        }
    }
}

/// Splits the line with the `regex` pattern `[, ]+` (`Regex::split`): the
/// parts between the matches, which are the maximal runs of commas and
/// spaces, and the part after the last match.
#[verifier::external_body]
fn split_fields(text: &str) -> (fields: Vec<String>)
    ensures
        fields.deep_view() == separator_split_of(text@),
{
    Regex::new(r"[, ]+").unwrap().split(text).map(|field| field.to_string()).collect()
}

/// Whether a character is one of the decimal digits `0` to `9`.
pub open spec fn is_decimal_digit(c: char) -> bool {
    '0' as int <= c as int <= '9' as int
}

/// The value of a sequence of decimal digits.
pub open spec fn digits_value(digits: Seq<char>) -> int
    decreases digits.len(),
{
    if digits.len() == 0 {
        0
    } else {
        digits_value(digits.drop_last()) * 10 + (digits.last() as int - '0' as int)
    }
}

/// The number that `usize`'s `FromStr` reads from a text: an optional `+`
/// followed by at least one decimal digit and nothing else, whose value fits
/// in a `usize`; `None` for anything else.
pub open spec fn decimal_number(text: Seq<char>) -> Option<usize> {
    digits_number(unsigned_part(text))
}

/// A text without the `+` it starts with, if any.
pub open spec fn unsigned_part(text: Seq<char>) -> Seq<char> {
    if text.len() > 0 && text[0] == '+' {
        text.drop_first()
    } else {
        text
    }
}

/// The number that a text of at least one decimal digit and nothing else
/// names, if it fits in a `usize`; `None` for any other text.
pub open spec fn digits_number(digits: Seq<char>) -> Option<usize> {
    if digits.len() > 0 && (forall|i: int| 0 <= i < digits.len() ==> is_decimal_digit(#[trigger] digits[i]))
        && digits_value(digits) <= usize::MAX {
        Some(digits_value(digits) as usize)
    } else {
        None
    }
}

/// The value of digits grows with every digit that follows them.
proof fn lemma_digits_value_grows(digits: Seq<char>, n: int)
    requires
        0 <= n <= digits.len(),
        forall|i: int| 0 <= i < digits.len() ==> is_decimal_digit(#[trigger] digits[i]),
    ensures
        0 <= digits_value(digits.subrange(0, n)) <= digits_value(digits),
    decreases digits.len(),
{
    if digits.len() > 0 {
        let before = digits.drop_last();
        if n < digits.len() {
            assert(before.subrange(0, n) =~= digits.subrange(0, n));
            lemma_digits_value_grows(before, n);
        } else {
            assert(digits.subrange(0, n) =~= digits);
            lemma_digits_value_grows(before, before.len() as int);
            assert(before.subrange(0, before.len() as int) =~= before);
        }
    } else {
        assert(digits.subrange(0, n) =~= digits);
    }
}

/// Reads a number as `str::parse::<usize>` does (see `decimal_number`);
/// `None` where it fails.
fn parse_number(text: &str) -> (number: Option<usize>)
    ensures
        number == decimal_number(text@),
{
    let len = text.unicode_len();
    let start: usize = if len > 0 && text.get_char(0) == '+' {
        1
    } else {
        0
    };
    let ghost digits = text@.subrange(start as int, len as int);
    proof {
        if start == 1 {
            assert(digits =~= text@.drop_first());
        } else {
            assert(digits =~= text@);
        }
        assert(digits == unsigned_part(text@));
    }
    if start == len {
        return None;
    }
    let mut value: usize = 0;
    let mut i: usize = start;
    while i < len
        invariant
            start <= i <= len,
            len == text@.len(),
            digits == text@.subrange(start as int, len as int),
            digits == unsigned_part(text@),
            forall|j: int| 0 <= j < i - start ==> is_decimal_digit(#[trigger] digits[j]),
            value == digits_value(digits.subrange(0, i - start)),
        decreases len - i,
    {
        let c = text.get_char(i);
        assert(c == digits[i - start]);
        if !('0' <= c && c <= '9') {
            proof {
                assert(!is_decimal_digit(digits[i - start]));
            }
            return None;
        }
        let digit = (c as u32 - '0' as u32) as usize;
        let ghost prefix = digits.subrange(0, i - start + 1);
        proof {
            assert(prefix.drop_last() =~= digits.subrange(0, i - start));
            assert(prefix.last() == c);
            assert(digit == c as int - '0' as int);
            assert(digits_value(prefix) == value * 10 + digit);
        }
        if value > (usize::MAX - digit) / 10 {
            proof {
                assert forall|j: int| 0 <= j < prefix.len() implies is_decimal_digit(#[trigger] prefix[j]) by {
                    assert(prefix[j] == digits[j]);
                }
                assert(value * 10 + digit > usize::MAX) by (nonlinear_arith)
                    requires
                        value > (usize::MAX - digit) / 10,
                        digit <= 9,
                ;
                if forall|j: int| 0 <= j < digits.len() ==> is_decimal_digit(#[trigger] digits[j]) {
                    lemma_digits_value_grows(digits, i - start + 1);
                }
            }
            return None;
        }
        value = value * 10 + digit;
        i += 1;
    }
    proof {
        assert(digits.subrange(0, len - start) =~= digits);
    }
    Some(value)
}

/// Reads a character as `str::parse::<char>` does: the only character of
/// a text of length one, `None` for any other text.
fn parse_char(text: &str) -> (c: Option<char>)
    ensures
        c == if text@.len() == 1 {
            Some(text@[0])
        } else {
            None
        },
{
    if text.unicode_len() == 1 {
        Some(text.get_char(0))
    } else {
        None
    }
}

/// The line as it is compared: trimmed and in lowercase.
pub fn normalize_input(raw: &str) -> (input: String)
    ensures
        input@ == lowercase_of(trimmed(raw@)),
{
    to_lowercase(trim(raw))
}

/// Whether the (normalized) line asks to leave the game.
pub fn is_exit_request(input: &str) -> (exit: bool)
    ensures
        exit == (input@ == "exit"@),
{
    let chars = chars_of(input);
    spells(chars.as_slice(), "exit")
}

/// Whether the (normalized) line asks for a random valid action.
pub fn is_skip_request(input: &str) -> (skip: bool)
    ensures
        skip == (input@ == "skip"@),
{
    let chars = chars_of(input);
    spells(chars.as_slice(), "skip")
}

/// The choice of a human player for a normal turn.
#[derive(Copy, Clone, Debug, PartialEq, Eq, Hash, Structural)]
pub enum NormalActionChoice {
    /// Take a random valid action.
    Skip,
    /// Walk on the time board.
    Walk,
    /// Take the patch with this index (0, 1 or 2) of the next three.
    TakePatch(usize),
    /// Nothing valid was entered: ask again.
    Invalid,
}

/// The choice that a (normalized) line makes when the first, second and
/// third patch can be taken as given.
pub open spec fn normal_action_choice(
    input: Seq<char>,
    first: bool,
    second: bool,
    third: bool,
) -> NormalActionChoice {
    if input == "skip"@ {
        NormalActionChoice::Skip
    } else if input == "walk"@ {
        NormalActionChoice::Walk
    } else if input == "take 1"@ && first {
        NormalActionChoice::TakePatch(0)
    } else if input == "take 2"@ && second {
        NormalActionChoice::TakePatch(1)
    } else if input == "take 3"@ && third {
        NormalActionChoice::TakePatch(2)
    } else {
        NormalActionChoice::Invalid
    }
}

/// Reads the choice of a normal turn: `skip`, `walk`, or `take 1` to
/// `take 3` for a patch that can be taken.
pub fn choose_normal_action(input: &str, first: bool, second: bool, third: bool) -> (choice:
    NormalActionChoice)
    ensures
        choice == normal_action_choice(input@, first, second, third),
{
    let chars = chars_of(input);
    if spells(chars.as_slice(), "skip") {
        NormalActionChoice::Skip
    } else if spells(chars.as_slice(), "walk") {
        NormalActionChoice::Walk
    } else if spells(chars.as_slice(), "take 1") && first {
        NormalActionChoice::TakePatch(0)
    } else if spells(chars.as_slice(), "take 2") && second {
        NormalActionChoice::TakePatch(1)
    } else if spells(chars.as_slice(), "take 3") && third {
        NormalActionChoice::TakePatch(2)
    } else {
        NormalActionChoice::Invalid
    }
}

/// The labels of the actions offered in a normal turn, quoted and sorted:
/// the patches that can be taken, then walking.
pub open spec fn offered_labels(first: bool, second: bool, third: bool) -> Seq<Seq<char>> {
    (if first {
        seq!["'take 1'"@]
    } else {
        Seq::empty()
    }) + (if second {
        seq!["'take 2'"@]
    } else {
        Seq::empty()
    }) + (if third {
        seq!["'take 3'"@]
    } else {
        Seq::empty()
    }) + seq!["'walk'"@]
}

/// The quoted labels of the actions offered in a normal turn, sorted.
pub fn action_labels(first: bool, second: bool, third: bool) -> (labels: Vec<String>)
    ensures
        labels.deep_view() == offered_labels(first, second, third),
{
    let mut labels: Vec<String> = Vec::new();
    if first {
        labels.push(String::from_str("'take 1'"));
    }
    if second {
        labels.push(String::from_str("'take 2'"));
    }
    if third {
        labels.push(String::from_str("'take 3'"));
    }
    labels.push(String::from_str("'walk'"));
    assert(labels.deep_view() =~= offered_labels(first, second, third));
    labels
}

/// Why a position could not be read.
#[derive(Copy, Clone, Debug, PartialEq, Eq, Hash, Structural)]
pub enum PositionInputError {
    /// The line does not have exactly two fields.
    WrongFieldCount,
    /// A field is not a number.
    InvalidNumber,
    /// The row or the column lies outside the quilt board.
    OutOfRange,
}

/// The (one-based) row and column that two fields name: both must be
/// numbers from one up to the number of rows and columns.
pub open spec fn position_of_fields(fields: Seq<Seq<char>>) -> Result<
    (usize, usize),
    PositionInputError,
> {
    if fields.len() != 2 {
        Err(PositionInputError::WrongFieldCount)
    } else {
        match (decimal_number(fields[0]), decimal_number(fields[1])) {
            (Some(row), Some(column)) => {
                if row > QUILT_BOARD_ROWS || column > QUILT_BOARD_COLUMNS || row == 0 || column
                    == 0 {
                    Err(PositionInputError::OutOfRange)
                } else {
                    Ok((row, column))
                }
            },
            _ => Err(PositionInputError::InvalidNumber),
        }
    }
}

/// Reads the one-based row and column from the fields of a line (see
/// `position_of_fields`).
pub fn parse_position(fields: &Vec<String>) -> (position: Result<
    (usize, usize),
    PositionInputError,
>)
    ensures
        position == position_of_fields(fields.deep_view()),
        position matches Ok((row, column)) ==> fields.deep_view().len() == 2 && decimal_number(
            fields.deep_view()[0],
        ) == Some(row) && decimal_number(fields.deep_view()[1]) == Some(column),
{
    if fields.len() != 2 {
        return Err(PositionInputError::WrongFieldCount);
    }
    let row = parse_number(fields[0].as_str());
    let column = parse_number(fields[1].as_str());
    match (row, column) {
        (Some(row), Some(column)) => {
            if row > QUILT_BOARD_ROWS || column > QUILT_BOARD_COLUMNS || row == 0 || column == 0 {
                Err(PositionInputError::OutOfRange)
            } else {
                Ok((row, column))
            }
        },
        _ => Err(PositionInputError::InvalidNumber),
    }
}

/// Reads the one-based row and column from a (normalized) line: it is
/// split at commas and spaces and the two fields are read with
/// `parse_position`.
pub fn parse_position_input(input: &str) -> (position: Result<
    (usize, usize),
    PositionInputError,
>)
    ensures
        position == position_of_fields(separator_split_of(input@)),
        position matches Ok((row, column)) ==> separator_split_of(input@).len() == 2 && decimal_number(
            separator_split_of(input@)[0],
        ) == Some(row) && decimal_number(separator_split_of(input@)[1]) == Some(column),
{
    let fields = split_fields(input);
    parse_position(&fields)
}

/// The index of the first valid (zero-based) position that the one-based
/// row and column name; `None` when no valid position matches.
pub fn position_index(valid_positions: &[(usize, usize)], row: usize, column: usize) -> (index: Option<usize>)
    requires
        row >= 1,
        column >= 1,
    ensures
        index matches Some(i) ==> i < valid_positions@.len() && valid_positions@[i as int] == (
        (row - 1) as usize, (column - 1) as usize) && forall|j: int|
            0 <= j < i ==> valid_positions@[j] != ((row - 1) as usize, (column - 1) as usize),
        index is None ==> forall|j: int|
            0 <= j < valid_positions@.len() ==> valid_positions@[j] != ((row - 1) as usize, (
            column - 1) as usize),
{
    let wanted = (row - 1, column - 1);
    let mut i: usize = 0;
    while i < valid_positions.len()
        invariant
            i <= valid_positions@.len(),
            wanted == ((row - 1) as usize, (column - 1) as usize),
            forall|j: int| 0 <= j < i ==> valid_positions@[j] != wanted,
        decreases valid_positions@.len() - i,
    {
        let (valid_row, valid_column) = valid_positions[i];
        if valid_row == wanted.0 && valid_column == wanted.1 {
            return Some(i);
        }
        i += 1;
    }
    None
}

/// A rotation of a patch.
#[derive(Copy, Clone, Debug, PartialEq, Eq, Hash, Structural)]
pub enum Rotation {
    /// Not rotated.
    Degrees0,
    /// Rotated by 90 degrees.
    Degrees90,
    /// Rotated by 180 degrees.
    Degrees180,
    /// Rotated by 270 degrees.
    Degrees270,
}

/// The rotation in quarter turns, as the game numbers the rotations of a
/// patch placement.
pub open spec fn quarter_turns_of(rotation: Rotation) -> u8 {
    match rotation {
        Rotation::Degrees0 => 0,
        Rotation::Degrees90 => 1,
        Rotation::Degrees180 => 2,
        Rotation::Degrees270 => 3,
    }
}

/// The rotation in quarter turns (see `quarter_turns_of`).
pub fn quarter_turns(rotation: Rotation) -> (turns: u8)
    ensures
        turns == quarter_turns_of(rotation),
{
    match rotation {
        Rotation::Degrees0 => 0,
        Rotation::Degrees90 => 1,
        Rotation::Degrees180 => 2,
        Rotation::Degrees270 => 3,
    }
}

/// Whether the rotation and orientation are those of one of the valid
/// placements, given as (rotation in quarter turns, flipped) pairs.
pub fn transformation_valid(valid: &[(u8, bool)], rotation: Rotation, flipped: bool) -> (found: bool)
    ensures
        found <==> exists|j: int|
            0 <= j < valid@.len() && #[trigger] valid@[j] == (quarter_turns_of(rotation), flipped),
{
    let wanted = quarter_turns(rotation);
    let mut i: usize = 0;
    while i < valid.len()
        invariant
            i <= valid@.len(),
            wanted == quarter_turns_of(rotation),
            forall|j: int| 0 <= j < i ==> #[trigger] valid@[j] != (wanted, flipped),
        decreases valid@.len() - i,
    {
        let (turns, valid_flipped) = valid[i];
        if turns == wanted && valid_flipped == flipped {
            assert(valid@[i as int] == (wanted, flipped));
            return true;
        }
        i += 1;
    }
    false
}

/// Why a rotation and orientation could not be read.
#[derive(Copy, Clone, Debug, PartialEq, Eq, Hash, Structural)]
pub enum TransformationInputError {
    /// The line does not have exactly two fields.
    WrongFieldCount,
    /// The rotation is not one of 0, 90, 180 and 270.
    InvalidRotation,
    /// The orientation is neither `y` nor `n`.
    InvalidOrientation,
}

/// The rotation and whether the patch is flipped that two fields name: a
/// number of degrees (0, 90, 180 or 270) and `y` (flipped) or `n`. A field
/// that is not a number is an invalid rotation before the orientation is
/// looked at; another number of degrees only after it.
pub open spec fn transformation_of_fields(fields: Seq<Seq<char>>) -> Result<
    (Rotation, bool),
    TransformationInputError,
> {
    if fields.len() != 2 {
        Err(TransformationInputError::WrongFieldCount)
    } else {
        match decimal_number(fields[0]) {
            None => Err(TransformationInputError::InvalidRotation),
            Some(degrees) => {
                let orientation = if fields[1].len() == 1 {
                    fields[1][0]
                } else {
                    'x'
                };
                if orientation != 'y' && orientation != 'n' {
                    Err(TransformationInputError::InvalidOrientation)
                } else if degrees == 0 {
                    Ok((Rotation::Degrees0, orientation == 'y'))
                } else if degrees == 90 {
                    Ok((Rotation::Degrees90, orientation == 'y'))
                } else if degrees == 180 {
                    Ok((Rotation::Degrees180, orientation == 'y'))
                } else if degrees == 270 {
                    Ok((Rotation::Degrees270, orientation == 'y'))
                } else {
                    Err(TransformationInputError::InvalidRotation)
                }
            },
        }
    }
}

/// Reads the rotation and whether the patch is flipped from the fields of
/// a line (see `transformation_of_fields`).
pub fn parse_transformation(fields: &Vec<String>) -> (transformation: Result<
    (Rotation, bool),
    TransformationInputError,
>)
    ensures
        transformation == transformation_of_fields(fields.deep_view()),
        transformation matches Ok((rotation, flipped)) ==> fields.deep_view().len() == 2 && decimal_number(
            fields.deep_view()[0],
        ) == Some((quarter_turns_of(rotation) * 90) as usize) && flipped == (fields.deep_view()[1] == seq![
            'y',
        ]),
{
    if fields.len() != 2 {
        return Err(TransformationInputError::WrongFieldCount);
    }
    let degrees = match parse_number(fields[0].as_str()) {
        Some(degrees) => degrees,
        None => return Err(TransformationInputError::InvalidRotation),
    };
    let orientation = match parse_char(fields[1].as_str()) {
        Some(c) => c,
        None => 'x',
    };
    if orientation != 'y' && orientation != 'n' {
        return Err(TransformationInputError::InvalidOrientation);
    }
    let flipped = orientation == 'y';
    proof {
        let second = fields.deep_view()[1];
        assert(second == fields@[1]@);
        if flipped {
            assert(second =~= seq!['y']);
        } else {
            assert(second != seq!['y'] || second[0] != 'y');
        }
    }
    if degrees == 0 {
        Ok((Rotation::Degrees0, flipped))
    } else if degrees == 90 {
        Ok((Rotation::Degrees90, flipped))
    } else if degrees == 180 {
        Ok((Rotation::Degrees180, flipped))
    } else if degrees == 270 {
        Ok((Rotation::Degrees270, flipped))
    } else {
        Err(TransformationInputError::InvalidRotation)
    }
}

/// Reads the rotation and orientation from a (normalized) line: it is split
/// at commas and spaces and the two fields are read with
/// `parse_transformation`.
pub fn parse_transformation_input(input: &str) -> (transformation: Result<
    (Rotation, bool),
    TransformationInputError,
>)
    ensures
        transformation == transformation_of_fields(separator_split_of(input@)),
        transformation matches Ok((rotation, flipped)) ==> separator_split_of(input@).len() == 2
            && decimal_number(separator_split_of(input@)[0]) == Some((quarter_turns_of(rotation) * 90) as usize)
            && flipped == (separator_split_of(input@)[1] == seq!['y']),
{
    let fields = split_fields(input);
    parse_transformation(&fields)
}

/// A position that was read lies on the quilt board: both coordinates are
/// between one and the number of rows and columns.
pub proof fn lemma_positions_on_board(fields: Seq<Seq<char>>)
    ensures
        position_of_fields(fields) matches Ok((row, column)) ==> 1 <= row <= QUILT_BOARD_ROWS
            && 1 <= column <= QUILT_BOARD_COLUMNS,
{
}

/// The rotation read from two fields is the one their number of degrees
/// names: a number of degrees that is a multiple of 90 up to 270, followed
/// by `y` or `n`, is read as the rotation of that many quarter turns
/// (flipped exactly for `y`), and any other number is an invalid rotation.
pub proof fn lemma_rotation_read_from_degrees(fields: Seq<Seq<char>>)
    requires
        fields.len() == 2,
        decimal_number(fields[0]) is Some,
        fields[1] == seq!['y'] || fields[1] == seq!['n'],
    ensures
        ({
            let degrees = decimal_number(fields[0]).unwrap();
            &&& degrees % 90 == 0 && degrees <= 270 ==> (transformation_of_fields(fields) matches Ok((
                rotation,
                flipped,
            )) && quarter_turns_of(rotation) == degrees / 90 && flipped == (fields[1] == seq!['y']))
            &&& !(degrees % 90 == 0 && degrees <= 270) ==> transformation_of_fields(fields) == Err::<
                (Rotation, bool),
                TransformationInputError,
            >(TransformationInputError::InvalidRotation)
        }),
{
    assert(seq!['y'] != seq!['n']) by {
        assert(seq!['y'][0] != seq!['n'][0]);
    }
}

/// The position read from two fields is the row and the column that the
/// two numbers name, in that order, exactly when both lie on the quilt
/// board (from one up to the number of rows and of columns).
pub proof fn lemma_position_read_from_numbers(fields: Seq<Seq<char>>, row: usize, column: usize)
    requires
        fields.len() == 2,
        decimal_number(fields[0]) == Some(row),
        decimal_number(fields[1]) == Some(column),
    ensures
        position_of_fields(fields) is Ok <==> 1 <= row <= QUILT_BOARD_ROWS && 1 <= column
            <= QUILT_BOARD_COLUMNS,
        position_of_fields(fields) is Ok ==> position_of_fields(fields) == Ok::<
            (usize, usize),
            PositionInputError,
        >((row, column)),
{
}

} // verus!
