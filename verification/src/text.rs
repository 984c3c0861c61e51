//! Comparisons on string slices.
//!
//! The comparisons are decided here, on the bytes of the texts, and proved to
//! say what they say of the characters. Trimming is handed to std.

use vstd::prelude::*;
use vstd::utf8::{
    char_is_scalar, char_u32_cast, decode_utf8, decode_utf8_encode_utf8, encode_scalar,
    encode_utf8, encode_utf8_decode_utf8, encode_utf8_valid_utf8, has_width_1_encoding,
    is_char_boundary, is_char_boundary_iff_not_is_continuation_byte,
    is_char_boundary_start_end_of_seq, is_continuation_byte, is_scalar,
    last_continuation_byte, leading_byte_width_1, leading_byte_width_2, leading_byte_width_3,
    leading_byte_width_4, partial_valid_partial_invalid_utf8, second_last_continuation_byte,
    third_last_continuation_byte, valid_first_scalar, valid_utf8,
};

verus! {

/// The text of an optional string slice.
pub open spec fn opt_str_view(text: Option<&str>) -> Option<Seq<char>> {
    match text {
        Some(text) => Some(text@),
        None => None,
    }
}

/// Whether two string slices hold the same text.
pub(crate) fn str_eq(a: &str, b: &str) -> (res: bool)
    ensures
        res == (a@ == b@),
{
    let x = a.as_bytes();
    let y = b.as_bytes();
    proof {
        // Two texts with the same encoding are the same text
        encode_utf8_decode_utf8(a@);
        encode_utf8_decode_utf8(b@);
    }
    if x.len() != y.len() {
        return false;
    }
    let mut i: usize = 0;
    while i < x.len()
        invariant
            i <= x.len(),
            x@.len() == y@.len(),
            x@ == encode_utf8(a@),
            y@ == encode_utf8(b@),
            forall|j: int| 0 <= j < i ==> x@[j] == y@[j],
        decreases x.len() - i,
    {
        if x[i] != y[i] {
            return false;
        }
        i += 1;
    }
    assert(x@ =~= y@);
    true
}

/// The encoding of two texts in a row is the encoding of the first followed
/// by the encoding of the second.
proof fn lemma_encode_concat(a: Seq<char>, b: Seq<char>)
    ensures
        encode_utf8(a + b) == encode_utf8(a) + encode_utf8(b),
    decreases a.len(),
{
    if a.len() == 0 {
        assert(a + b =~= b);
        assert(encode_utf8(a) + encode_utf8(b) =~= encode_utf8(b));
    } else {
        assert((a + b)[0] == a[0]);
        assert((a + b).drop_first() =~= a.drop_first() + b);
        lemma_encode_concat(a.drop_first(), b);
        assert(encode_utf8(a + b) =~= encode_utf8(a) + encode_utf8(b));
    }
}

/// A text begins with a prefix exactly when its encoding begins with the
/// encoding of the prefix. What follows the prefix in the text is then
/// encoded by what follows in the bytes, and begins at a character of the
/// text.
proof fn lemma_prefix(prefix: Seq<char>, text: Seq<char>)
    ensures
        prefix.is_prefix_of(text) <==> encode_utf8(prefix).is_prefix_of(encode_utf8(text)),
        prefix.is_prefix_of(text) ==> {
            &&& encode_utf8(text.skip(prefix.len() as int)) == encode_utf8(text).skip(
                encode_utf8(prefix).len() as int,
            )
            &&& is_char_boundary(encode_utf8(text), encode_utf8(prefix).len() as int)
        },
{
    let p = encode_utf8(prefix);
    let t = encode_utf8(text);
    encode_utf8_valid_utf8(prefix);
    encode_utf8_valid_utf8(text);
    if prefix.is_prefix_of(text) {
        let rest = text.skip(prefix.len() as int);
        assert(text =~= prefix + rest);
        lemma_encode_concat(prefix, rest);
        assert(p =~= t.subrange(0, p.len() as int));
        assert(encode_utf8(rest) =~= t.skip(p.len() as int));
        encode_utf8_valid_utf8(rest);
        lemma_boundary(t, p.len() as int);
    }
    if p.is_prefix_of(t) {
        let k = p.len() as int;
        let tail = t.subrange(k, t.len() as int);
        assert(t.subrange(0, k) =~= p);
        if !valid_utf8(tail) {
            partial_valid_partial_invalid_utf8(t, k);
        }
        decode_utf8_encode_utf8(tail);
        let rest = decode_utf8(tail);
        lemma_encode_concat(prefix, rest);
        assert(t =~= p + tail);
        encode_utf8_decode_utf8(text);
        encode_utf8_decode_utf8(prefix + rest);
        assert(text == prefix + rest);
        assert(prefix =~= text.subrange(0, prefix.len() as int));
    }
}

/// Where the bytes before and the bytes from an index on are both texts, the
/// index is where a character of the whole text begins, or its end.
proof fn lemma_boundary(bytes: Seq<u8>, index: int)
    requires
        0 <= index <= bytes.len(),
        valid_utf8(bytes),
        valid_utf8(bytes.subrange(index, bytes.len() as int)),
    ensures
        is_char_boundary(bytes, index),
{
    if index == bytes.len() {
        is_char_boundary_start_end_of_seq(bytes);
    } else {
        let tail = bytes.subrange(index, bytes.len() as int);
        assert(tail[0] == bytes[index]);
        assert(valid_first_scalar(tail));
        assert(!is_continuation_byte(tail[0]));
        is_char_boundary_iff_not_is_continuation_byte(bytes, index);
    }
}

/// Whether `text` begins with `prefix`.
pub(crate) fn str_starts_with(text: &str, prefix: &str) -> (res: bool)
    ensures
        res == prefix@.is_prefix_of(text@),
{
    let t = text.as_bytes();
    let p = prefix.as_bytes();
    proof {
        lemma_prefix(prefix@, text@);
    }
    if p.len() > t.len() {
        return false;
    }
    let mut i: usize = 0;
    while i < p.len()
        invariant
            i <= p.len() <= t.len(),
            p@ == encode_utf8(prefix@),
            t@ == encode_utf8(text@),
            forall|j: int| 0 <= j < i ==> p@[j] == t@[j],
        decreases p.len() - i,
    {
        if p[i] != t[i] {
            proof {
                lemma_prefix(prefix@, text@);
                assert(t@.subrange(0, p@.len() as int)[i as int] == t@[i as int]);
            }
            return false;
        }
        i += 1;
    }
    proof {
        lemma_prefix(prefix@, text@);
        assert(p@ =~= t@.subrange(0, p@.len() as int));
    }
    true
}

/// What follows `prefix` in `text`, if `text` begins with it.
pub(crate) fn str_strip_prefix<'a>(text: &'a str, prefix: &str) -> (res: Option<&'a str>)
    ensures
        res is Some <==> prefix@.is_prefix_of(text@),
        res matches Some(rest) ==> rest@ == text@.skip(prefix@.len() as int),
{
    if !str_starts_with(text, prefix) {
        return None;
    }
    let at = prefix.as_bytes().len();
    proof {
        lemma_prefix(prefix@, text@);
    }
    let (_, rest) = text.split_at(at);
    proof {
        let tail = text@.skip(prefix@.len() as int);
        assert(encode_utf8(text@).skip(at as int) =~= encode_utf8(text@).subrange(
            at as int,
            encode_utf8(text@).len() as int,
        ));
        assert(encode_utf8(rest@) == encode_utf8(tail));
        encode_utf8_decode_utf8(rest@);
        encode_utf8_decode_utf8(tail);
    }
    Some(rest)
}

/// A character below 128 is encoded by itself, and by no byte of another
/// character.
proof fn lemma_scalar_bytes(scalar: u32, c: u8)
    requires
        is_scalar(scalar),
        c < 0x80,
    ensures
        encode_utf8(seq![scalar as char]).len() > 0,
        encode_scalar(scalar).contains(c) <==> scalar == c,
{
    let bytes = encode_scalar(scalar);
    if has_width_1_encoding(scalar) {
        assert(leading_byte_width_1(scalar) == scalar) by (bit_vector)
            requires
                scalar <= 0x7f,
        ;
        assert(bytes[0] == scalar);
    } else {
        assert(leading_byte_width_2(scalar) >= 0x80 && leading_byte_width_3(scalar) >= 0x80
            && leading_byte_width_4(scalar) >= 0x80 && last_continuation_byte(scalar) >= 0x80
            && second_last_continuation_byte(scalar) >= 0x80 && third_last_continuation_byte(
            scalar,
        ) >= 0x80) by (bit_vector);
        assert(forall|i: int| 0 <= i < bytes.len() ==> bytes[i] >= 0x80);
    }
}

/// A character below 128 occurs in a text exactly when its byte occurs in
/// the encoding of the text.
proof fn lemma_contains(text: Seq<char>, c: u8)
    requires
        c < 0x80,
    ensures
        encode_utf8(text).contains(c) <==> text.contains(c as char),
    decreases text.len(),
{
    if text.len() > 0 {
        let first = text[0] as u32;
        let head = encode_scalar(first);
        let tail = encode_utf8(text.drop_first());
        char_is_scalar(text[0]);
        lemma_scalar_bytes(first, c);
        lemma_contains(text.drop_first(), c);
        char_u32_cast(text[0], first);
        assert(encode_utf8(text) == head + tail);
        if head.contains(c) {
            let i = choose|i: int| 0 <= i < head.len() && head[i] == c;
            assert((head + tail)[i] == c);
            assert(text[0] == c as char);
        }
        if tail.contains(c) {
            let i = choose|i: int| 0 <= i < tail.len() && tail[i] == c;
            assert((head + tail)[head.len() + i] == c);
            let j = choose|j: int|
                0 <= j < text.drop_first().len() && text.drop_first()[j] == c as char;
            assert(text[j + 1] == c as char);
        }
        if (head + tail).contains(c) {
            let i = choose|i: int| 0 <= i < (head + tail).len() && (head + tail)[i] == c;
            if i < head.len() {
                assert(head[i] == c);
            } else {
                assert(tail[i - head.len()] == c);
            }
        }
        if text.contains(c as char) {
            let j = choose|j: int| 0 <= j < text.len() && text[j] == c as char;
            if j == 0 {
                assert(first == c);
            } else {
                assert(text.drop_first()[j - 1] == c as char);
            }
        }
    }
}

/// Whether the character with this code, which is below 128, occurs in the
/// text.
pub(crate) fn str_contains_ascii(text: &str, c: u8) -> (res: bool)
    requires
        c < 0x80,
    ensures
        res == text@.contains(c as char),
{
    let bytes = text.as_bytes();
    proof {
        lemma_contains(text@, c);
    }
    let mut i: usize = 0;
    while i < bytes.len()
        invariant
            i <= bytes.len(),
            c < 0x80,
            bytes@ == encode_utf8(text@),
            forall|j: int| 0 <= j < i ==> bytes@[j] != c,
        decreases bytes.len() - i,
    {
        if bytes[i] == c {
            proof {
                lemma_contains(text@, c);
            }
            return true;
        }
        i += 1;
    }
    proof {
        lemma_contains(text@, c);
    }
    false
}

/// The text without the white space at its start and its end.
pub uninterp spec fn trimmed(text: Seq<char>) -> Seq<char>;

/// The text without leading and trailing white space.
///
/// Calls `str::trim` of std. Assumed: what is left depends on the text alone.
#[verifier::external_body]
pub(crate) fn str_trim(text: &str) -> (res: &str)
    ensures
        res@ == trimmed(text@),
{
    text.trim()
}

} // verus!
