//! White space in UTF-8 text.

use vstd::prelude::*;
use vstd::string::StringSliceAdditionalSpecFns;
use vstd::utf8::{
    decode_utf8, encode_scalar, encode_utf8, is_char_boundary,
    is_char_boundary_iff_not_is_continuation_byte, is_char_boundary_start_end_of_seq,
    is_continuation_byte, length_of_first_scalar, pop_first_scalar, valid_utf8, valid_utf8_split,
};

verus! {

/// Whether a character is white space, as Unicode defines it (`White_Space`).
pub open spec fn is_white_space(c: char) -> bool {
    let v = c as u32;
    ||| 0x09 <= v <= 0x0d
    ||| v == 0x20
    ||| v == 0x85
    ||| v == 0xa0
    ||| v == 0x1680
    ||| 0x2000 <= v <= 0x200a
    ||| v == 0x2028
    ||| v == 0x2029
    ||| v == 0x202f
    ||| v == 0x205f
    ||| v == 0x3000
}

/// `text` without the white space at its end.
pub open spec fn without_space_at_end(text: Seq<char>) -> Seq<char>
    decreases text.len(),
{
    if text.len() > 0 && is_white_space(text.last()) {
        without_space_at_end(text.drop_last())
    } else {
        text
    }
}

/// `text` without the white space at its start.
pub open spec fn without_space_at_start(text: Seq<char>) -> Seq<char>
    decreases text.len(),
{
    if text.len() > 0 && is_white_space(text.first()) {
        without_space_at_start(text.drop_first())
    } else {
        text
    }
}

/// `text` without the white space at its start and at its end.
pub open spec fn without_space_around(text: Seq<char>) -> Seq<char> {
    without_space_at_start(without_space_at_end(text))
}

/// Whether a byte encodes one of the white-space characters up to U+0020.
pub open spec fn is_ascii_space(b: u8) -> bool {
    0x09 <= b <= 0x0d || b == 0x20
}

/// Whether `a b` encodes U+0085 or U+00A0.
pub open spec fn is_space_of_two(a: u8, b: u8) -> bool {
    a == 0xc2 && (b == 0x85 || b == 0xa0)
}

/// Whether `a b c` encodes one of the white-space characters from U+1680 on.
pub open spec fn is_space_of_three(a: u8, b: u8, c: u8) -> bool {
    ||| a == 0xe1 && b == 0x9a && c == 0x80
    ||| a == 0xe2 && b == 0x80 && (0x80 <= c <= 0x8a || c == 0xa8 || c == 0xa9 || c == 0xaf)
    ||| a == 0xe2 && b == 0x81 && c == 0x9f
    ||| a == 0xe3 && b == 0x80 && c == 0x80
}

/// The byte of a character up to U+007F is the character's number.
proof fn lemma_bytes_of_one(v: u32)
    by (bit_vector)
    requires
        v <= 0x7f,
    ensures
        ((v & 0x7f) as u8) as u32 == v,
{
}

/// The two bytes of a character from U+0080 to U+07FF, and which characters
/// the encodings of white space in two bytes stand for.
proof fn lemma_bytes_of_two(v: u32)
    by (bit_vector)
    requires
        0x80 <= v <= 0x7ff,
    ensures
        0xc0 <= (0xc0 | ((v >> 6) & 0x1f) as u8) <= 0xdf,
        0x80 <= (0x80 | (v & 0x3f) as u8) <= 0xbf,
        ((0xc0 | ((v >> 6) & 0x1f) as u8) == 0xc2 && (0x80 | (v & 0x3f) as u8) == 0x85) <==> v
            == 0x85,
        ((0xc0 | ((v >> 6) & 0x1f) as u8) == 0xc2 && (0x80 | (v & 0x3f) as u8) == 0xa0) <==> v
            == 0xa0,
{
}

/// The three bytes of a character from U+0800 to U+FFFF, and which characters
/// the encodings of white space in three bytes stand for.
proof fn lemma_bytes_of_three(v: u32)
    by (bit_vector)
    requires
        0x800 <= v <= 0xffff,
    ensures
        0xe0 <= (0xe0 | ((v >> 12) & 0x0f) as u8) <= 0xef,
        0x80 <= (0x80 | ((v >> 6) & 0x3f) as u8) <= 0xbf,
        0x80 <= (0x80 | (v & 0x3f) as u8) <= 0xbf,
        ((0xe0 | ((v >> 12) & 0x0f) as u8) == 0xe1 && (0x80 | ((v >> 6) & 0x3f) as u8) == 0x9a && (
        0x80 | (v & 0x3f) as u8) == 0x80) <==> v == 0x1680,
        ((0xe0 | ((v >> 12) & 0x0f) as u8) == 0xe2 && (0x80 | ((v >> 6) & 0x3f) as u8) == 0x80
            && 0x80 <= (0x80 | (v & 0x3f) as u8) <= 0x8a) <==> 0x2000 <= v <= 0x200a,
        ((0xe0 | ((v >> 12) & 0x0f) as u8) == 0xe2 && (0x80 | ((v >> 6) & 0x3f) as u8) == 0x80 && (
        0x80 | (v & 0x3f) as u8) == 0xa8) <==> v == 0x2028,
        ((0xe0 | ((v >> 12) & 0x0f) as u8) == 0xe2 && (0x80 | ((v >> 6) & 0x3f) as u8) == 0x80 && (
        0x80 | (v & 0x3f) as u8) == 0xa9) <==> v == 0x2029,
        ((0xe0 | ((v >> 12) & 0x0f) as u8) == 0xe2 && (0x80 | ((v >> 6) & 0x3f) as u8) == 0x80 && (
        0x80 | (v & 0x3f) as u8) == 0xaf) <==> v == 0x202f,
        ((0xe0 | ((v >> 12) & 0x0f) as u8) == 0xe2 && (0x80 | ((v >> 6) & 0x3f) as u8) == 0x81 && (
        0x80 | (v & 0x3f) as u8) == 0x9f) <==> v == 0x205f,
        ((0xe0 | ((v >> 12) & 0x0f) as u8) == 0xe3 && (0x80 | ((v >> 6) & 0x3f) as u8) == 0x80 && (
        0x80 | (v & 0x3f) as u8) == 0x80) <==> v == 0x3000,
{
}

/// The four bytes of a character from U+10000 on.
proof fn lemma_bytes_of_four(v: u32)
    by (bit_vector)
    requires
        0x10000 <= v <= 0x10ffff,
    ensures
        0xf0 <= (0xf0 | ((v >> 18) & 0x7) as u8) <= 0xf7,
        0x80 <= (0x80 | ((v >> 12) & 0x3f) as u8) <= 0xbf,
        0x80 <= (0x80 | ((v >> 6) & 0x3f) as u8) <= 0xbf,
        0x80 <= (0x80 | (v & 0x3f) as u8) <= 0xbf,
{
}

/// Whether the bytes are the encoding of a white-space character.
pub open spec fn is_space_encoding(e: Seq<u8>) -> bool {
    ||| e.len() == 1 && is_ascii_space(e[0])
    ||| e.len() == 2 && is_space_of_two(e[0], e[1])
    ||| e.len() == 3 && is_space_of_three(e[0], e[1], e[2])
}

/// The encoding of a character is a leading byte with up to three
/// continuation bytes behind it, and it is one of the encodings of white
/// space exactly if the character is white space.
pub proof fn lemma_encoding_of_char(c: char)
    ensures
        1 <= encode_scalar(c as u32).len() <= 4,
        !is_continuation_byte(encode_scalar(c as u32)[0]),
        encode_scalar(c as u32)[0] >= 0x80 <==> encode_scalar(c as u32).len() > 1,
        encode_scalar(c as u32).len() == 2 <==> 0xc0 <= encode_scalar(c as u32)[0] <= 0xdf,
        encode_scalar(c as u32).len() == 3 <==> 0xe0 <= encode_scalar(c as u32)[0] <= 0xef,
        forall|i: int|
            1 <= i < encode_scalar(c as u32).len() ==> is_continuation_byte(
                #[trigger] encode_scalar(c as u32)[i],
            ),
        is_white_space(c) <==> is_space_encoding(encode_scalar(c as u32)),
{
    let v = c as u32;
    vstd::utf8::char_is_scalar(c);
    if vstd::utf8::has_width_1_encoding(v) {
        lemma_bytes_of_one(v);
    } else if vstd::utf8::has_width_2_encoding(v) {
        lemma_bytes_of_two(v);
    } else if vstd::utf8::has_width_3_encoding(v) {
        lemma_bytes_of_three(v);
    } else {
        lemma_bytes_of_four(v);
    }
}

/// The number of bytes of the white-space character that `s` ends with; 0 if
/// it ends with none.
pub open spec fn space_width_at_end(s: Seq<u8>) -> int {
    let n = s.len() as int;
    if n >= 1 && is_ascii_space(s[n - 1]) {
        1
    } else if n >= 2 && is_space_of_two(s[n - 2], s[n - 1]) {
        2
    } else if n >= 3 && is_space_of_three(s[n - 3], s[n - 2], s[n - 1]) {
        3
    } else {
        0
    }
}

/// The number of bytes of the white-space character that `s` starts with; 0
/// if it starts with none.
pub open spec fn space_width_at_start(s: Seq<u8>) -> int {
    if s.len() >= 1 && is_ascii_space(s[0]) {
        1
    } else if s.len() >= 2 && is_space_of_two(s[0], s[1]) {
        2
    } else if s.len() >= 3 && is_space_of_three(s[0], s[1], s[2]) {
        3
    } else {
        0
    }
}

/// The bytes without the encoded white space at their end.
pub open spec fn trimmed_end(s: Seq<u8>) -> Seq<u8>
    decreases s.len(),
{
    let w = space_width_at_end(s);
    if w == 0 {
        s
    } else {
        trimmed_end(s.take(s.len() - w))
    }
}

/// The bytes without the encoded white space at their start.
pub open spec fn trimmed_start(s: Seq<u8>) -> Seq<u8>
    decreases s.len(),
{
    let w = space_width_at_start(s);
    if w == 0 {
        s
    } else {
        trimmed_start(s.skip(w))
    }
}

/// The encoding of two texts in a row is their encodings in a row.
pub proof fn lemma_encoding_of_concat(a: Seq<char>, b: Seq<char>)
    ensures
        encode_utf8(a + b) == encode_utf8(a) + encode_utf8(b),
    decreases a.len(),
{
    if a.len() == 0 {
        assert(a + b =~= b);
    } else {
        assert((a + b).drop_first() =~= a.drop_first() + b);
        lemma_encoding_of_concat(a.drop_first(), b);
    }
    assert(encode_utf8(a + b) =~= encode_utf8(a) + encode_utf8(b));
}

/// Leaving off the encoded white space at the end of an encoded text leaves
/// the encoding of the text without the white space at its end.
pub proof fn lemma_trimmed_end_of_text(text: Seq<char>)
    ensures
        trimmed_end(encode_utf8(text)) == encode_utf8(without_space_at_end(text)),
    decreases text.len(),
{
    let bytes = encode_utf8(text);
    if text.len() > 0 {
        let c = text.last();
        let rest = text.drop_last();
        let e = encode_scalar(c as u32);
        assert(text =~= rest + seq![c]);
        lemma_encoding_of_concat(rest, seq![c]);
        assert(encode_utf8(seq![c]) =~= e) by {
            reveal_with_fuel(encode_utf8, 2);
        }
        lemma_encoding_of_char(c);
        let n = bytes.len() as int;
        assert(forall|i: int| 0 <= i < e.len() ==> bytes[n - e.len() + i] == e[i]);
        if is_white_space(c) {
            assert(space_width_at_end(bytes) == e.len());
            assert(bytes.take(n - e.len()) =~= encode_utf8(rest));
            lemma_trimmed_end_of_text(rest);
        } else {
            assert(space_width_at_end(bytes) == 0);
        }
    }
}

/// Leaving off the encoded white space at the start of an encoded text leaves
/// the encoding of the text without the white space at its start.
pub proof fn lemma_trimmed_start_of_text(text: Seq<char>)
    ensures
        trimmed_start(encode_utf8(text)) == encode_utf8(without_space_at_start(text)),
    decreases text.len(),
{
    let bytes = encode_utf8(text);
    if text.len() > 0 {
        let c = text.first();
        let rest = text.drop_first();
        let e = encode_scalar(c as u32);
        lemma_encoding_of_char(c);
        assert(forall|i: int| 0 <= i < e.len() ==> bytes[i] == e[i]);
        if is_white_space(c) {
            assert(space_width_at_start(bytes) == e.len());
            assert(bytes.skip(e.len() as int) =~= encode_utf8(rest));
            lemma_trimmed_start_of_text(rest);
        } else {
            assert(space_width_at_start(bytes) == 0);
        }
    }
}

/// In well-formed UTF-8 the character that begins at `i` ends at a character
/// boundary.
pub proof fn lemma_boundary_after_scalar(bytes: Seq<u8>, i: int)
    requires
        valid_utf8(bytes),
        0 <= i < bytes.len(),
        !is_continuation_byte(bytes[i]),
    ensures
        i + length_of_first_scalar(bytes.subrange(i, bytes.len() as int)) <= bytes.len(),
        is_char_boundary(bytes, i + length_of_first_scalar(bytes.subrange(i, bytes.len() as int))),
{
    is_char_boundary_iff_not_is_continuation_byte(bytes, i);
    valid_utf8_split(bytes, i);
    let tail = bytes.subrange(i, bytes.len() as int);
    let w = length_of_first_scalar(tail);
    let rest = pop_first_scalar(tail);
    assert(valid_utf8(rest));
    if i + w == bytes.len() {
        is_char_boundary_start_end_of_seq(bytes);
    } else {
        assert(rest[0] == bytes[i + w]);
        is_char_boundary_iff_not_is_continuation_byte(bytes, i + w);
    }
}

/// In well-formed UTF-8 a character begins at each byte below 0x80, and one
/// ends behind it.
pub proof fn lemma_boundaries_at_ascii(bytes: Seq<u8>, i: int)
    requires
        valid_utf8(bytes),
        0 <= i < bytes.len(),
        bytes[i] < 0x80,
    ensures
        is_char_boundary(bytes, i),
        is_char_boundary(bytes, i + 1),
{
    is_char_boundary_iff_not_is_continuation_byte(bytes, i);
    lemma_boundary_after_scalar(bytes, i);
    assert(bytes.subrange(i, bytes.len() as int)[0] == bytes[i]);
}

/// The part of a text between two character boundaries is well-formed.
pub proof fn lemma_part_is_valid(bytes: Seq<u8>, from: int, to: int)
    requires
        valid_utf8(bytes),
        0 <= from <= to <= bytes.len(),
        is_char_boundary(bytes, from),
        is_char_boundary(bytes, to),
    ensures
        valid_utf8(bytes.subrange(from, to)),
        is_char_boundary(bytes.subrange(0, to), from),
{
    valid_utf8_split(bytes, to);
    let head = bytes.subrange(0, to);
    is_char_boundary_start_end_of_seq(head);
    if from < to {
        is_char_boundary_iff_not_is_continuation_byte(bytes, from);
        assert(head[from] == bytes[from]);
        is_char_boundary_iff_not_is_continuation_byte(head, from);
    }
    valid_utf8_split(head, from);
    assert(head.subrange(from, to) =~= bytes.subrange(from, to));
}

fn ascii_space(b: u8) -> (space: bool)
    ensures
        space == is_ascii_space(b),
{
    (0x09 <= b && b <= 0x0d) || b == 0x20
}

fn space_of_two(a: u8, b: u8) -> (space: bool)
    ensures
        space == is_space_of_two(a, b),
{
    a == 0xc2 && (b == 0x85 || b == 0xa0)
}

fn space_of_three(a: u8, b: u8, c: u8) -> (space: bool)
    ensures
        space == is_space_of_three(a, b, c),
{
    (a == 0xe1 && b == 0x9a && c == 0x80) || (a == 0xe2 && b == 0x80 && ((0x80 <= c && c <= 0x8a)
        || c == 0xa8 || c == 0xa9 || c == 0xaf)) || (a == 0xe2 && b == 0x81 && c == 0x9f) || (a
        == 0xe3 && b == 0x80 && c == 0x80)
}

/// Where the bytes between `from` and `to` end once the white space at their
/// end is left off.
fn find_trimmed_end(bytes: &[u8], from: usize, to: usize) -> (end: usize)
    requires
        from <= to <= bytes@.len(),
    ensures
        from <= end <= to,
        bytes@.subrange(from as int, end as int) == trimmed_end(
            bytes@.subrange(from as int, to as int),
        ),
        end == to || !is_continuation_byte(bytes@[end as int]),
{
    let mut end: usize = to;
    loop
        invariant
            from <= end <= to <= bytes@.len(),
            trimmed_end(bytes@.subrange(from as int, end as int)) == trimmed_end(
                bytes@.subrange(from as int, to as int),
            ),
            end == to || !is_continuation_byte(bytes@[end as int]),
        decreases end,
    {
        let ghost s = bytes@.subrange(from as int, end as int);
        let n: usize = end - from;
        let w: usize = if n >= 1 && ascii_space(bytes[end - 1]) {
            1
        } else if n >= 2 && space_of_two(bytes[end - 2], bytes[end - 1]) {
            2
        } else if n >= 3 && space_of_three(bytes[end - 3], bytes[end - 2], bytes[end - 1]) {
            3
        } else {
            0
        };
        assert(w == space_width_at_end(s));
        if w == 0 {
            return end;
        }
        assert(s.take(s.len() - w) == bytes@.subrange(from as int, end - w));
        end -= w;
    }
}

/// Where the bytes between `from` and `to` begin once the white space at
/// their start is left off.
fn find_trimmed_start(bytes: &[u8], from: usize, to: usize) -> (start: usize)
    requires
        from <= to <= bytes@.len(),
        valid_utf8(bytes@),
        from == to || !is_continuation_byte(bytes@[from as int]),
    ensures
        from <= start <= to,
        bytes@.subrange(start as int, to as int) == trimmed_start(
            bytes@.subrange(from as int, to as int),
        ),
        start == to || !is_continuation_byte(bytes@[start as int]),
{
    let mut start: usize = from;
    loop
        invariant
            from <= start <= to <= bytes@.len(),
            valid_utf8(bytes@),
            trimmed_start(bytes@.subrange(start as int, to as int)) == trimmed_start(
                bytes@.subrange(from as int, to as int),
            ),
            start == to || !is_continuation_byte(bytes@[start as int]),
        decreases to - start,
    {
        let ghost s = bytes@.subrange(start as int, to as int);
        let n: usize = to - start;
        let w: usize = if n >= 1 && ascii_space(bytes[start]) {
            1
        } else if n >= 2 && space_of_two(bytes[start], bytes[start + 1]) {
            2
        } else if n >= 3 && space_of_three(bytes[start], bytes[start + 1], bytes[start + 2]) {
            3
        } else {
            0
        };
        assert(w == space_width_at_start(s));
        if w == 0 {
            return start;
        }
        proof {
            assert(s.skip(w as int) == bytes@.subrange(start + w, to as int));
            lemma_boundary_after_scalar(bytes@, start as int);
            let tail = bytes@.subrange(start as int, bytes@.len() as int);
            assert(tail[0] == bytes@[start as int]);
            assert(length_of_first_scalar(tail) == w);
            if start + w < bytes@.len() {
                is_char_boundary_iff_not_is_continuation_byte(bytes@, start + w);
            }
        }
        start += w;
    }
}

/// The part of `text` between two byte offsets that are character boundaries.
pub fn slice<'a>(text: &'a str, from: usize, to: usize) -> (part: &'a str)
    requires
        from <= to <= text.spec_bytes().len(),
        is_char_boundary(text.spec_bytes(), from as int),
        is_char_boundary(text.spec_bytes(), to as int),
    ensures
        part.spec_bytes() == text.spec_bytes().subrange(from as int, to as int),
        part@ == decode_utf8(text.spec_bytes().subrange(from as int, to as int)),
{
    broadcast use {vstd::utf8::encode_utf8_valid_utf8, vstd::utf8::encode_utf8_decode_utf8};

    proof {
        lemma_part_is_valid(text.spec_bytes(), from as int, to as int);
    }
    let (head, _) = text.split_at(to);
    let (_, part) = head.split_at(from);
    assert(part.spec_bytes() =~= text.spec_bytes().subrange(from as int, to as int));
    assert(decode_utf8(encode_utf8(part@)) == part@);
    part
}

/// `text` without the white space at its start and at its end.
pub fn trim<'a>(text: &'a str) -> (trimmed: &'a str)
    ensures
        trimmed@ == without_space_around(text@),
{
    broadcast use {vstd::utf8::encode_utf8_valid_utf8, vstd::utf8::encode_utf8_decode_utf8};

    let bytes = text.as_bytes();
    let end = find_trimmed_end(bytes, 0, bytes.len());
    proof {
        assert(bytes@.subrange(0, bytes@.len() as int) == bytes@);
        is_char_boundary_start_end_of_seq(bytes@);
        if bytes@.len() > 0 {
            is_char_boundary_iff_not_is_continuation_byte(bytes@, 0);
        }
    }
    let start = find_trimmed_start(bytes, 0, end);
    proof {
        if end < bytes@.len() {
            is_char_boundary_iff_not_is_continuation_byte(bytes@, end as int);
        }
        if start < end {
            is_char_boundary_iff_not_is_continuation_byte(bytes@, start as int);
        }
        lemma_trimmed_end_of_text(text@);
        lemma_trimmed_start_of_text(without_space_at_end(text@));
    }
    let trimmed = slice(text, start, end);
    assert(encode_utf8(trimmed@) == encode_utf8(without_space_around(text@)));
    assert(decode_utf8(encode_utf8(trimmed@)) == trimmed@);
    trimmed
}

} // verus!
