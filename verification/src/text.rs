//! Text handling shared by the interfaces of the engine: whitespace,
//! trimming, lowercasing and words.
use vstd::prelude::*;
use vstd::string::StrSliceExecFns;

verus! {

/// Whether a character has the Unicode `White_Space` property, which
/// `char::is_whitespace` answers: the control characters from U+0009 to
/// U+000D, the space, U+0085, the no-break space U+00A0, the Ogham space
/// mark U+1680, the spaces from U+2000 to U+200A, the line and paragraph
/// separators U+2028 and U+2029, the narrow no-break space U+202F, the
/// medium mathematical space U+205F and the ideographic space U+3000.
pub open spec fn whitespace_char(c: char) -> bool {
    let code = c as u32;
    ||| 0x09 <= code <= 0x0D
    ||| code == 0x20
    ||| code == 0x85
    ||| code == 0xA0
    ||| code == 0x1680
    ||| 0x2000 <= code <= 0x200A
    ||| code == 0x2028
    ||| code == 0x2029
    ||| code == 0x202F
    ||| code == 0x205F
    ||| code == 0x3000
}

/// The lowercase mapping of a text, as `str::to_lowercase` computes it.
pub uninterp spec fn lowercase_of(text: Seq<char>) -> Seq<char>;

/// Whether the character has the Unicode `White_Space` property, as
/// `char::is_whitespace` answers it.
pub(crate) fn is_whitespace(c: char) -> (white: bool)
    ensures
        white == whitespace_char(c),
{
    let code = c as u32;
    (0x09 <= code && code <= 0x0D) || code == 0x20 || code == 0x85 || code == 0xA0 || code == 0x1680
        || (0x2000 <= code && code <= 0x200A) || code == 0x2028 || code == 0x2029 || code == 0x202F
        || code == 0x205F || code == 0x3000
}

/// `str::to_lowercase`: the lowercase mapping of the text (named, not
/// written out).
#[verifier::external_body]
pub(crate) fn to_lowercase(text: &str) -> (lower: String)
    ensures
        lower@ == lowercase_of(text@),
{
    text.to_lowercase()
}

/// The text without its leading whitespace.
pub open spec fn without_leading_whitespace(text: Seq<char>) -> Seq<char>
    decreases text.len(),
{
    if text.len() > 0 && whitespace_char(text[0]) {
        without_leading_whitespace(text.drop_first())
    } else {
        text
    }
}

/// The text without its trailing whitespace.
pub open spec fn without_trailing_whitespace(text: Seq<char>) -> Seq<char>
    decreases text.len(),
{
    if text.len() > 0 && whitespace_char(text.last()) {
        without_trailing_whitespace(text.drop_last())
    } else {
        text
    }
}

/// The text without leading and trailing whitespace.
pub open spec fn trimmed(text: Seq<char>) -> Seq<char> {
    without_trailing_whitespace(without_leading_whitespace(text))
}

/// Leading whitespace ends at the first character that is not whitespace.
proof fn lemma_leading_whitespace_ends(text: Seq<char>, k: int)
    requires
        0 <= k <= text.len(),
        forall|j: int| 0 <= j < k ==> whitespace_char(#[trigger] text[j]),
        k == text.len() || !whitespace_char(text[k]),
    ensures
        without_leading_whitespace(text) == text.subrange(k, text.len() as int),
    decreases k,
{
    if k == 0 {
        assert(text.subrange(0, text.len() as int) =~= text);
    } else {
        let rest = text.drop_first();
        assert forall|j: int| 0 <= j < k - 1 implies whitespace_char(#[trigger] rest[j]) by {
            assert(rest[j] == text[j + 1]);
        }
        lemma_leading_whitespace_ends(rest, k - 1);
        assert(rest.subrange(k - 1, rest.len() as int) =~= text.subrange(k, text.len() as int));
    }
}

/// Trailing whitespace starts after the last character that is not
/// whitespace.
proof fn lemma_trailing_whitespace_starts(text: Seq<char>, e: int)
    requires
        0 <= e <= text.len(),
        forall|j: int| e <= j < text.len() ==> whitespace_char(#[trigger] text[j]),
        e == 0 || !whitespace_char(text[e - 1]),
    ensures
        without_trailing_whitespace(text) == text.subrange(0, e),
    decreases text.len() - e,
{
    if e == text.len() {
        assert(text.subrange(0, e) =~= text);
    } else {
        let rest = text.drop_last();
        assert(whitespace_char(text[text.len() - 1]));
        assert forall|j: int| e <= j < rest.len() implies whitespace_char(#[trigger] rest[j]) by {
            assert(rest[j] == text[j]);
        }
        lemma_trailing_whitespace_starts(rest, e);
        assert(rest.subrange(0, e) =~= text.subrange(0, e));
    }
}

/// The text without leading and trailing whitespace, as `str::trim`
/// computes it (by the same `White_Space` property as
/// `char::is_whitespace`).
pub(crate) fn trim(text: &str) -> (inner: &str)
    ensures
        inner@ == trimmed(text@),
{
    let length = text.unicode_len();
    let mut start: usize = 0;
    while start < length && is_whitespace(text.get_char(start))
        invariant
            length == text@.len(),
            start <= length,
            forall|j: int| 0 <= j < start ==> whitespace_char(#[trigger] text@[j]),
        decreases length - start,
    {
        start += 1;
    }
    let mut end: usize = length;
    while end > start && is_whitespace(text.get_char(end - 1))
        invariant
            length == text@.len(),
            start <= end <= length,
            forall|j: int| end <= j < length ==> whitespace_char(#[trigger] text@[j]),
        decreases end,
    {
        end -= 1;
    }
    proof {
        lemma_leading_whitespace_ends(text@, start as int);
        let rest = text@.subrange(start as int, length as int);
        assert forall|j: int| end - start <= j < rest.len() implies whitespace_char(#[trigger] rest[j]) by {
            assert(rest[j] == text@[start + j]);
        }
        if end > start {
            assert(rest[end - start - 1] == text@[end - 1]);
        }
        lemma_trailing_whitespace_starts(rest, end - start);
        assert(rest.subrange(0, end - start) =~= text@.subrange(start as int, end as int));
    }
    text.substring_char(start, end)
}

/// The characters up to the first whitespace character.
pub open spec fn leading_word(text: Seq<char>) -> Seq<char>
    decreases text.len(),
{
    if text.len() == 0 || whitespace_char(text[0]) {
        Seq::empty()
    } else {
        seq![text[0]] + leading_word(text.drop_first())
    }
}

/// The first whitespace-separated word of a text, if it has one.
pub open spec fn first_word(text: Seq<char>) -> Option<Seq<char>> {
    let rest = without_leading_whitespace(text);
    if rest.len() == 0 {
        None
    } else {
        Some(leading_word(rest))
    }
}

/// The characters of a text.
pub(crate) fn chars_of(text: &str) -> (chars: Vec<char>)
    ensures
        chars@ == text@,
{
    let length = text.unicode_len();
    let mut chars: Vec<char> = Vec::new();
    let mut i: usize = 0;
    while i < length
        invariant
            length == text@.len(),
            i <= length,
            chars@ == text@.subrange(0, i as int),
        decreases length - i,
    {
        let c = text.get_char(i);
        chars.push(c);
        i += 1;
        assert(chars@ =~= text@.subrange(0, i as int));
    }
    assert(chars@ =~= text@);
    chars
}

/// Whether the characters spell the text.
pub(crate) fn spells(chars: &[char], text: &str) -> (equal: bool)
    ensures
        equal == (chars@ == text@),
{
    let length = text.unicode_len();
    if chars.len() != length {
        return false;
    }
    let mut i: usize = 0;
    while i < length
        invariant
            length == text@.len(),
            length == chars@.len(),
            i <= length,
            chars@.subrange(0, i as int) == text@.subrange(0, i as int),
        decreases length - i,
    {
        if chars[i] != text.get_char(i) {
            assert(chars@[i as int] != text@[i as int]);
            return false;
        }
        i += 1;
        assert(chars@.subrange(0, i as int) =~= text@.subrange(0, i as int));
    }
    assert(chars@ =~= chars@.subrange(0, length as int));
    assert(text@ =~= text@.subrange(0, length as int));
    true
}

proof fn lemma_skip_whitespace(text: Seq<char>, i: int)
    requires
        0 <= i < text.len(),
        whitespace_char(text[i]),
    ensures
        without_leading_whitespace(text.subrange(i, text.len() as int))
            == without_leading_whitespace(text.subrange(i + 1, text.len() as int)),
{
    let rest = text.subrange(i, text.len() as int);
    assert(rest.drop_first() =~= text.subrange(i + 1, text.len() as int));
}

proof fn lemma_word_step(text: Seq<char>, start: int, i: int)
    requires
        0 <= start <= i < text.len(),
        !whitespace_char(text[i]),
        leading_word(text.subrange(start, text.len() as int)) == text.subrange(start, i)
            + leading_word(text.subrange(i, text.len() as int)),
    ensures
        leading_word(text.subrange(start, text.len() as int)) == text.subrange(start, i + 1)
            + leading_word(text.subrange(i + 1, text.len() as int)),
{
    let rest = text.subrange(i, text.len() as int);
    assert(rest.drop_first() =~= text.subrange(i + 1, text.len() as int));
    assert(text.subrange(start, i + 1) =~= text.subrange(start, i) + seq![text[i]]);
    assert(leading_word(rest) == seq![text[i]] + leading_word(text.subrange(i + 1, text.len() as int)));
    assert((text.subrange(start, i) + seq![text[i]]) + leading_word(text.subrange(i + 1, text.len() as int))
        =~= text.subrange(start, i) + (seq![text[i]] + leading_word(text.subrange(i + 1, text.len() as int))));
}

/// The first whitespace-separated word of the characters, if there is one.
pub(crate) fn first_word_of(chars: &Vec<char>) -> (word: Option<Vec<char>>)
    ensures
        word matches Some(w) ==> first_word(chars@) == Some(w@),
        word is None ==> first_word(chars@) is None,
{
    let length = chars.len();
    let mut start: usize = 0;
    assert(chars@.subrange(0, length as int) =~= chars@);
    while start < length && is_whitespace(chars[start])
        invariant
            length == chars@.len(),
            start <= length,
            without_leading_whitespace(chars@) == without_leading_whitespace(
                chars@.subrange(start as int, length as int),
            ),
        decreases length - start,
    {
        proof {
            lemma_skip_whitespace(chars@, start as int);
        }
        start += 1;
    }
    if start == length {
        assert(chars@.subrange(start as int, length as int).len() == 0);
        return None;
    }
    let ghost rest = chars@.subrange(start as int, length as int);
    assert(rest.len() > 0 && !whitespace_char(rest[0]));
    assert(without_leading_whitespace(rest) == rest);
    let mut word: Vec<char> = Vec::new();
    let mut i: usize = start;
    assert(chars@.subrange(start as int, start as int) =~= Seq::<char>::empty());
    assert(leading_word(rest) == chars@.subrange(start as int, i as int) + leading_word(
        chars@.subrange(i as int, length as int),
    ));
    while i < length && !is_whitespace(chars[i])
        invariant
            length == chars@.len(),
            start <= i <= length,
            rest == chars@.subrange(start as int, length as int),
            word@ == chars@.subrange(start as int, i as int),
            leading_word(rest) == chars@.subrange(start as int, i as int) + leading_word(
                chars@.subrange(i as int, length as int),
            ),
        decreases length - i,
    {
        proof {
            lemma_word_step(chars@, start as int, i as int);
        }
        word.push(chars[i]);
        i += 1;
        assert(word@ =~= chars@.subrange(start as int, i as int));
    }
    assert(leading_word(chars@.subrange(i as int, length as int)) =~= Seq::<char>::empty());
    assert(leading_word(rest) =~= word@);
    Some(word)
}

} // verus!
