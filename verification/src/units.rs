//! Code-unit arithmetic on sequences of Unicode scalar values.
//!
//! A text is modelled as a `Seq<char>`. A position in it is a number of
//! scalar values; this module says how many UTF-8 bytes and how many
//! UTF-16 code units lie before such a position, and proves the facts
//! about those counts that resolving entities relies on.

use vstd::prelude::*;
use vstd::utf8::*;

verus! {

/// Number of bytes of the UTF-8 encoding of `c`.
pub open spec fn utf8_width(c: char) -> nat {
    encode_scalar(c as u32).len()
}

/// Number of code units of the UTF-16 encoding of `c`: two for a scalar
/// value outside the Basic Multilingual Plane, one otherwise.
pub open spec fn utf16_width(c: char) -> nat {
    if (c as u32) < 0x10000 {
        1
    } else {
        2
    }
}

/// Number of bytes of the UTF-8 encoding of `s`.
pub open spec fn utf8_len(s: Seq<char>) -> nat {
    encode_utf8(s).len()
}

/// Number of code units of the UTF-16 encoding of `s`.
pub open spec fn utf16_len(s: Seq<char>) -> nat
    decreases s.len(),
{
    if s.len() == 0 {
        0
    } else {
        utf16_width(s[0]) + utf16_len(s.drop_first())
    }
}

/// `char::len_utf8` returns the number of bytes that the UTF-8 encoding
/// of the character takes.
pub assume_specification[ char::len_utf8 ](c: char) -> (n: usize)
    ensures
        n == utf8_width(c),
;

/// `char::len_utf16` returns the number of 16-bit code units that the
/// UTF-16 encoding of the character takes: one inside the Basic
/// Multilingual Plane, two outside it.
pub assume_specification[ char::len_utf16 ](c: char) -> (n: usize)
    ensures
        n == utf16_width(c),
;

/// A scalar value takes one to four bytes in UTF-8, and never fewer
/// bytes than it takes code units in UTF-16.
pub proof fn lemma_widths(c: char)
    ensures
        1 <= utf16_width(c) <= 2,
        1 <= utf8_width(c) <= 4,
        utf16_width(c) <= utf8_width(c),
        utf16_width(c) == 2 <==> utf8_width(c) == 4,
{
    char_is_scalar(c);
}

/// Encoding a concatenation is concatenating the encodings.
pub proof fn lemma_encode_utf8_concat(a: Seq<char>, b: Seq<char>)
    ensures
        encode_utf8(a + b) == encode_utf8(a) + encode_utf8(b),
    decreases a.len(),
{
    if a.len() == 0 {
        assert(a + b =~= b);
        assert(encode_utf8(a) + encode_utf8(b) =~= encode_utf8(b));
    } else {
        lemma_encode_utf8_concat(a.drop_first(), b);
        assert((a + b).drop_first() =~= a.drop_first() + b);
        assert((a + b)[0] == a[0]);
        assert(encode_utf8(a + b) =~= encode_scalar(a[0] as u32) + (encode_utf8(a.drop_first())
            + encode_utf8(b)));
        assert(encode_utf8(a + b) =~= encode_utf8(a) + encode_utf8(b));
    }
}

/// The UTF-8 length of a concatenation is the sum of the lengths.
pub proof fn lemma_utf8_len_concat(a: Seq<char>, b: Seq<char>)
    ensures
        utf8_len(a + b) == utf8_len(a) + utf8_len(b),
{
    lemma_encode_utf8_concat(a, b);
}

/// The UTF-16 length of a concatenation is the sum of the lengths.
pub proof fn lemma_utf16_len_concat(a: Seq<char>, b: Seq<char>)
    ensures
        utf16_len(a + b) == utf16_len(a) + utf16_len(b),
    decreases a.len(),
{
    if a.len() == 0 {
        assert(a + b =~= b);
    } else {
        lemma_utf16_len_concat(a.drop_first(), b);
        assert((a + b).drop_first() =~= a.drop_first() + b);
        assert((a + b)[0] == a[0]);
    }
}

/// The lengths of a single scalar value are its widths.
pub proof fn lemma_len_single(c: char)
    ensures
        utf8_len(seq![c]) == utf8_width(c),
        utf16_len(seq![c]) == utf16_width(c),
{
    let s = seq![c];
    assert(s.drop_first() =~= Seq::<char>::empty());
    assert(encode_utf8(s) =~= encode_scalar(c as u32) + encode_utf8(s.drop_first()));
    assert(encode_utf8(s.drop_first()) =~= Seq::<u8>::empty());
    assert(utf16_len(s) == utf16_width(s[0]) + utf16_len(s.drop_first()));
    assert(utf16_len(s.drop_first()) == 0);
}

/// Moving a position one scalar value forward adds that value's widths
/// to both counts.
pub proof fn lemma_prefix_step(text: Seq<char>, k: int)
    requires
        0 <= k < text.len(),
    ensures
        utf8_len(text.take(k + 1)) == utf8_len(text.take(k)) + utf8_width(text[k]),
        utf16_len(text.take(k + 1)) == utf16_len(text.take(k)) + utf16_width(text[k]),
{
    assert(text.take(k + 1) =~= text.take(k) + seq![text[k]]);
    lemma_utf8_len_concat(text.take(k), seq![text[k]]);
    lemma_utf16_len_concat(text.take(k), seq![text[k]]);
    lemma_len_single(text[k]);
}

/// A text has no more UTF-16 code units than UTF-8 bytes.
pub proof fn lemma_utf16_len_le_utf8_len(s: Seq<char>)
    ensures
        utf16_len(s) <= utf8_len(s),
    decreases s.len(),
{
    if s.len() > 0 {
        lemma_utf16_len_le_utf8_len(s.drop_first());
        lemma_widths(s[0]);
        assert(encode_utf8(s) =~= encode_scalar(s[0] as u32) + encode_utf8(s.drop_first()));
    }
}

/// Both counts grow with the position, the UTF-16 count strictly, and a
/// later position is at least as many code units further as it is
/// scalar values further.
pub proof fn lemma_prefix_monotonic(text: Seq<char>, i: int, j: int)
    requires
        0 <= i <= j <= text.len(),
    ensures
        utf8_len(text.take(i)) <= utf8_len(text.take(j)),
        utf16_len(text.take(i)) + (j - i) <= utf16_len(text.take(j)),
        utf8_len(text.take(j)) - utf8_len(text.take(i)) == utf8_len(text.subrange(i, j)),
        utf16_len(text.take(j)) - utf16_len(text.take(i)) == utf16_len(text.subrange(i, j)),
    decreases j - i,
{
    assert(text.take(j) =~= text.take(i) + text.subrange(i, j));
    lemma_utf8_len_concat(text.take(i), text.subrange(i, j));
    lemma_utf16_len_concat(text.take(i), text.subrange(i, j));
    if i < j {
        lemma_prefix_monotonic(text, i, j - 1);
        lemma_prefix_step(text, j - 1);
        lemma_widths(text[j - 1]);
    }
}

/// The bytes before a position end on a character boundary of the
/// encoded text.
pub proof fn lemma_prefix_is_char_boundary(text: Seq<char>, k: int)
    requires
        0 <= k <= text.len(),
    ensures
        is_char_boundary(encode_utf8(text), utf8_len(text.take(k)) as int),
        utf8_len(text.take(k)) <= utf8_len(text),
    decreases k,
{
    lemma_prefix_monotonic(text, k, text.len() as int);
    assert(text.take(text.len() as int) =~= text);
    encode_utf8_valid_utf8(text);
    if k > 0 {
        let bytes = encode_utf8(text);
        let rest = text.drop_first();
        encode_utf8_first_scalar(text);
        assert(pop_first_scalar(bytes) =~= encode_utf8(rest));
        lemma_prefix_is_char_boundary(rest, k - 1);
        assert(text.take(k) =~= seq![text[0]] + rest.take(k - 1));
        lemma_utf8_len_concat(seq![text[0]], rest.take(k - 1));
        lemma_len_single(text[0]);
        lemma_widths(text[0]);
    }
}

/// The bytes between two positions are the encoding of the scalar
/// values between them.
pub proof fn lemma_encoded_subrange(text: Seq<char>, i: int, j: int)
    requires
        0 <= i <= j <= text.len(),
    ensures
        utf8_len(text.take(i)) <= utf8_len(text.take(j)) <= utf8_len(text),
        encode_utf8(text).subrange(utf8_len(text.take(i)) as int, utf8_len(text.take(j)) as int)
            == encode_utf8(text.subrange(i, j)),
{
    let a = text.take(i);
    let b = text.subrange(i, j);
    let c = text.skip(j);
    assert(text =~= a + b + c);
    assert(text.take(j) =~= a + b);
    lemma_encode_utf8_concat(a, b);
    lemma_encode_utf8_concat(a + b, c);
    assert((encode_utf8(a) + encode_utf8(b) + encode_utf8(c)).subrange(
        encode_utf8(a).len() as int,
        (encode_utf8(a) + encode_utf8(b)).len() as int,
    ) =~= encode_utf8(b));
}

/// A character boundary of a text that lies inside a prefix of it,
/// itself cut at a character boundary, is a boundary of that prefix.
pub proof fn lemma_boundary_in_prefix(bytes: Seq<u8>, start: int, end: int)
    requires
        valid_utf8(bytes),
        0 <= start <= end <= bytes.len(),
        is_char_boundary(bytes, start),
        is_char_boundary(bytes, end),
    ensures
        valid_utf8(bytes.subrange(0, end)),
        is_char_boundary(bytes.subrange(0, end), start),
{
    valid_utf8_split(bytes, end);
    let prefix = bytes.subrange(0, end);
    if start < end {
        is_char_boundary_iff_not_is_continuation_byte(bytes, start);
        is_char_boundary_iff_not_is_continuation_byte(prefix, start);
    } else {
        is_char_boundary_start_end_of_seq(prefix);
    }
}

/// Of a text of ASCII characters alone, every scalar value is one byte
/// and one code unit.
pub proof fn lemma_ascii_lengths(s: Seq<char>)
    requires
        is_ascii_chars(s),
    ensures
        utf8_len(s) == s.len(),
        utf16_len(s) == s.len(),
    decreases s.len(),
{
    is_ascii_chars_encode_utf8(s);
    if s.len() > 0 {
        lemma_ascii_lengths(s.drop_first());
    }
}

} // verus!
