//! Byte offsets into UTF-8 text: how positions counted in characters and
//! positions counted in bytes answer to each other.

use vstd::prelude::*;
use vstd::utf8::*;

verus! {

/// The byte offset at which the character with index `pos` starts in the
/// UTF-8 encoding of `text`; for `pos == text.len()`, the encoding's length.
pub open spec fn offset_of(text: Seq<char>, pos: int) -> int {
    encode_utf8(text.take(pos)).len() as int
}

/// The number of characters that end at or before byte `offset` of the
/// encoding of `text`.
pub open spec fn chars_before(text: Seq<char>, offset: int) -> int {
    decode_utf8(encode_utf8(text).subrange(0, offset)).len() as int
}

/// The encoding of a concatenation is the concatenation of the encodings.
pub proof fn lemma_encode_concat(a: Seq<char>, b: Seq<char>)
    ensures
        encode_utf8(a + b) == encode_utf8(a) + encode_utf8(b),
    decreases a.len(),
{
    if a.len() > 0 {
        lemma_encode_concat(a.drop_first(), b);
        assert((a + b).drop_first() == a.drop_first() + b);
    }
}

/// Text is determined by its encoding.
pub proof fn lemma_encode_injective(a: Seq<char>, b: Seq<char>)
    requires
        encode_utf8(a) == encode_utf8(b),
    ensures
        a == b,
{
    encode_utf8_decode_utf8(a);
    encode_utf8_decode_utf8(b);
}

/// Every character takes between one and four bytes.
pub proof fn lemma_scalar_len(c: char)
    ensures
        1 <= encode_scalar(c as u32).len() <= 4,
        encode_utf8(seq![c]) == encode_scalar(c as u32),
{
    let s = seq![c];
    assert(encode_utf8(s.drop_first()) == Seq::<u8>::empty()) by {
        reveal_with_fuel(encode_utf8, 1);
    }
    assert(encode_utf8(s) == encode_scalar(c as u32) + encode_utf8(s.drop_first())) by {
        reveal_with_fuel(encode_utf8, 1);
    }
}

/// Where two valid encodings meet is a character boundary of the whole.
proof fn lemma_boundary_at_concat(x: Seq<u8>, y: Seq<u8>)
    requires
        valid_utf8(x),
        valid_utf8(y),
    ensures
        valid_utf8(x + y),
        is_char_boundary(x + y, x.len() as int),
{
    valid_utf8_concat(x, y);
    if y.len() == 0 {
        is_char_boundary_start_end_of_seq(x);
    } else {
        is_char_boundary_iff_is_leading_byte(x + y, x.len() as int);
    }
}

/// The start of every character is a character boundary of the encoding, and
/// the encoding splits there into the encodings of the two parts.
pub proof fn lemma_offset_is_boundary(text: Seq<char>, pos: int)
    requires
        0 <= pos <= text.len(),
    ensures
        0 <= offset_of(text, pos) <= encode_utf8(text).len(),
        is_char_boundary(encode_utf8(text), offset_of(text, pos)),
        encode_utf8(text).subrange(0, offset_of(text, pos)) == encode_utf8(text.take(pos)),
        encode_utf8(text).subrange(offset_of(text, pos), encode_utf8(text).len() as int)
            == encode_utf8(text.skip(pos)),
        chars_before(text, offset_of(text, pos)) == pos,
{
    let a = text.take(pos);
    let b = text.skip(pos);
    assert(text == a + b);
    lemma_encode_concat(a, b);
    encode_utf8_valid_utf8(a);
    encode_utf8_valid_utf8(b);
    lemma_boundary_at_concat(encode_utf8(a), encode_utf8(b));
    encode_utf8_decode_utf8(a);
}

/// A character boundary of the encoding is the start of a character, or the
/// end of the text.
pub proof fn lemma_boundary_is_offset(text: Seq<char>, offset: int)
    requires
        is_char_boundary(encode_utf8(text), offset),
    ensures
        0 <= chars_before(text, offset) <= text.len(),
        offset_of(text, chars_before(text, offset)) == offset,
        0 <= offset <= encode_utf8(text).len(),
{
    let enc = encode_utf8(text);
    encode_utf8_valid_utf8(text);
    assert(0 <= offset <= enc.len()) by {
        reveal_with_fuel(is_char_boundary, 1);
    }
    valid_utf8_split(enc, offset);
    decode_utf8_split(enc, offset);
    encode_utf8_decode_utf8(text);
    let a = decode_utf8(enc.subrange(0, offset));
    assert(text.take(a.len() as int) == a);
    decode_utf8_encode_utf8(enc.subrange(0, offset));
}

/// A character's encoding starts before it ends, and no character boundary
/// lies inside it.
pub proof fn lemma_no_boundary_inside(text: Seq<char>, pos: int, i: int)
    requires
        0 <= pos < text.len(),
    ensures
        offset_of(text, pos) < offset_of(text, pos + 1),
        offset_of(text, pos + 1) == offset_of(text, pos) + encode_scalar(text[pos] as u32).len(),
        offset_of(text, pos) < i < offset_of(text, pos + 1) ==> !is_char_boundary(
            encode_utf8(text),
            i,
        ),
{
    let enc = encode_utf8(text);
    let a = offset_of(text, pos);
    let b = offset_of(text, pos + 1);
    lemma_offset_is_boundary(text, pos);
    encode_utf8_valid_utf8(text);
    assert(text.take(pos + 1) == text.take(pos) + seq![text[pos]]);
    lemma_encode_concat(text.take(pos), seq![text[pos]]);
    lemma_scalar_len(text[pos]);
    if a < i < b {
        let tail = text.skip(pos);
        let y = encode_utf8(tail);
        encode_utf8_valid_utf8(tail);
        encode_utf8_first_scalar(tail);
        assert(!is_char_boundary(y, i - a)) by {
            reveal_with_fuel(is_char_boundary, 2);
        }
        is_char_boundary_iff_is_leading_byte(enc, i);
    }
}

} // verus!
