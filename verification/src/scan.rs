//! Finding a separator byte in a text, and the facts about UTF-8 that let a
//! text be cut next to it.

use vstd::prelude::*;
use vstd::string::*;
use vstd::utf8::*;

verus! {

/// The first position at or after `from` where `items` holds `sep`, or the
/// length of `items` where it holds none there.
pub open spec fn position_of<T>(items: Seq<T>, sep: T, from: int) -> int
    decreases items.len() - from,
{
    if from < 0 || from >= items.len() {
        items.len() as int
    } else if items[from] == sep {
        from
    } else {
        position_of(items, sep, from + 1)
    }
}

/// `position_of` lies between `from` and the end, skips no separator, and
/// stops on one unless it reached the end.
pub proof fn lemma_position_of<T>(items: Seq<T>, sep: T, from: int)
    requires
        0 <= from <= items.len(),
    ensures
        from <= position_of(items, sep, from) <= items.len(),
        forall|j: int| from <= j < position_of(items, sep, from) ==> items[j] != sep,
        position_of(items, sep, from) < items.len() ==> items[position_of(items, sep, from)] == sep,
    decreases items.len() - from,
{
    if from < items.len() && items[from] != sep {
        lemma_position_of(items, sep, from + 1);
    }
}

/// Whatever position has these three properties is `position_of`.
pub proof fn lemma_position_of_unique<T>(items: Seq<T>, sep: T, from: int, at: int)
    requires
        0 <= from <= at <= items.len(),
        forall|j: int| from <= j < at ==> items[j] != sep,
        at < items.len() ==> items[at] == sep,
    ensures
        at == position_of(items, sep, from),
    decreases at - from,
{
    if from < at {
        lemma_position_of_unique(items, sep, from + 1, at);
    }
}

/// Looks for `sep` from position `from` on.
pub fn find_byte(bytes: &[u8], sep: u8, from: usize) -> (at: usize)
    ensures
        at == position_of(bytes@, sep, from as int),
{
    if from > bytes.len() {
        return bytes.len();
    }
    let mut i: usize = from;
    while i < bytes.len()
        invariant
            from <= i <= bytes@.len(),
            forall|j: int| from <= j < i ==> bytes@[j] != sep,
        decreases bytes@.len() - i,
    {
        if bytes[i] == sep {
            proof {
                lemma_position_of_unique(bytes@, sep, from as int, i as int);
            }
            return i;
        }
        i += 1;
    }
    proof {
        lemma_position_of_unique(bytes@, sep, from as int, i as int);
    }
    i
}

/// In well-formed UTF-8 a byte below `0x80` is a character of its own: a
/// character starts at it, and another one, or nothing, right after it.
pub proof fn lemma_boundaries_around_ascii(bytes: Seq<u8>, i: int)
    requires
        valid_utf8(bytes),
        0 <= i < bytes.len(),
        bytes[i] < 0x80,
    ensures
        is_char_boundary(bytes, i),
        is_char_boundary(bytes, i + 1),
    decreases bytes.len(),
{
    is_char_boundary_iff_not_is_continuation_byte(bytes, i);
    let width = length_of_first_scalar(bytes);
    let rest = pop_first_scalar(bytes);
    if i < width {
        assert(i == 0);
        assert(width == 1);
        assert(is_char_boundary(rest, 0));
        reveal_with_fuel(is_char_boundary, 2);
    } else {
        assert(rest[i - width] == bytes[i]);
        lemma_boundaries_around_ascii(rest, i - width);
        reveal_with_fuel(is_char_boundary, 2);
    }
}

/// Encoding a text piece by piece gives the encoding of the whole.
pub proof fn lemma_encode_concat(a: Seq<char>, b: Seq<char>)
    ensures
        encode_utf8(a + b) == encode_utf8(a) + encode_utf8(b),
    decreases a.len(),
{
    if a.len() == 0 {
        assert(a + b == b);
        assert(encode_utf8(a) + encode_utf8(b) == encode_utf8(b));
    } else {
        lemma_encode_concat(a.drop_first(), b);
        assert((a + b).drop_first() == a.drop_first() + b);
        assert(encode_utf8(a + b) == encode_scalar(a[0] as u32) + (encode_utf8(a.drop_first())
            + encode_utf8(b)));
        assert(encode_utf8(a + b) == encode_utf8(a) + encode_utf8(b));
    }
}

/// A character below `0x80` is encoded as the one byte of its own value,
/// and no other character's encoding holds that byte.
pub proof fn lemma_ascii_in_first_scalar(chars: Seq<char>, c: char)
    requires
        chars.len() > 0,
        (c as u32) < 0x80,
    ensures
        chars[0] == c ==> encode_utf8(chars)[0] == c as u8,
        chars[0] != c ==> forall|j: int|
            0 <= j < encode_scalar(chars[0] as u32).len() ==> encode_utf8(chars)[j] != c as u8,
{
    let bytes = encode_utf8(chars);
    let first = bytes[0];
    encode_utf8_first_scalar(chars);
    assert(bytes.len() >= encode_scalar(chars[0] as u32).len());
    if is_leading_byte_width_1(first) {
        assert((first & 0x7F) as u32 == first as u32) by (bit_vector)
            requires
                first <= 0x7f,
        ;
        assert(first as u32 == chars[0] as u32);
        if first == c as u8 {
            char_u32_cast(chars[0], first as u32);
            char_u32_cast(c, first as u32);
        }
    } else {
        if chars[0] == c {
            assert(has_width_1_encoding(c as u32));
            assert(encode_scalar(c as u32).len() == 1);
        }
    }
}

/// A text without a given character below `0x80` is encoded without that
/// character's byte.
pub proof fn lemma_ascii_absent(chars: Seq<char>, c: char)
    requires
        (c as u32) < 0x80,
        forall|i: int| 0 <= i < chars.len() ==> chars[i] != c,
    ensures
        forall|j: int| 0 <= j < encode_utf8(chars).len() ==> encode_utf8(chars)[j] != c as u8,
    decreases chars.len(),
{
    if chars.len() > 0 {
        let rest = chars.drop_first();
        let first = encode_scalar(chars[0] as u32);
        lemma_ascii_in_first_scalar(chars, c);
        assert forall|i: int| 0 <= i < rest.len() implies rest[i] != c by {
            assert(rest[i] == chars[i + 1]);
        }
        lemma_ascii_absent(rest, c);
        assert forall|j: int| 0 <= j < encode_utf8(chars).len() implies encode_utf8(chars)[j]
            != c as u8 by {
            if j >= first.len() {
                assert(encode_utf8(chars)[j] == encode_utf8(rest)[j - first.len()]);
            }
        }
    }
}

/// Where a character below `0x80` first stands in a text, its byte first
/// stands in the encoding: the encoding of what comes before the character
/// is what comes before the byte, and likewise after.
pub proof fn lemma_ascii_position(chars: Seq<char>, c: char)
    requires
        (c as u32) < 0x80,
    ensures
        position_of(encode_utf8(chars), c as u8, 0) == encode_utf8(
            chars.take(position_of(chars, c, 0)),
        ).len(),
        encode_utf8(chars).take(position_of(encode_utf8(chars), c as u8, 0)) == encode_utf8(
            chars.take(position_of(chars, c, 0)),
        ),
        position_of(chars, c, 0) < chars.len() <==> position_of(encode_utf8(chars), c as u8, 0)
            < encode_utf8(chars).len(),
        position_of(chars, c, 0) < chars.len() ==> encode_utf8(chars).skip(
            position_of(encode_utf8(chars), c as u8, 0) + 1,
        ) == encode_utf8(chars.skip(position_of(chars, c, 0) + 1)),
{
    let k = position_of(chars, c, 0);
    lemma_position_of(chars, c, 0);
    let before = chars.take(k);
    let from = chars.skip(k);
    let bytes = encode_utf8(chars);
    let head = encode_utf8(before);
    assert(chars == before + from);
    lemma_encode_concat(before, from);
    lemma_ascii_absent(before, c);
    if k < chars.len() {
        lemma_ascii_in_first_scalar(from, c);
        assert(from[0] == c);
        assert(bytes[head.len() as int] == encode_utf8(from)[0]);
        assert(from.drop_first() == chars.skip(k + 1));
        assert(encode_scalar(c as u32).len() == 1);
        assert(bytes.skip(head.len() as int + 1) == encode_utf8(chars.skip(k + 1)));
    } else {
        assert(from.len() == 0);
        assert(bytes == head);
    }
    assert forall|j: int| 0 <= j < head.len() implies bytes[j] != c as u8 by {
        assert(bytes[j] == head[j]);
    }
    lemma_position_of_unique(bytes, c as u8, 0, head.len() as int);
    assert(bytes.take(head.len() as int) == head);
}

/// The part of `text` before its first `sep`, or all of it where it holds
/// none. The separator is a character below `0x80`, given as its byte.
pub(crate) fn text_before(text: &str, sep: u8) -> (head: &str)
    requires
        sep < 0x80,
    ensures
        head@ == text@.take(position_of(text@, sep as char, 0)),
{
    let bytes = text.as_bytes();
    let end = find_byte(bytes, sep, 0);
    proof {
        lemma_position_of(bytes@, sep, 0);
        lemma_ascii_position(text@, sep as char);
        encode_utf8_valid_utf8(text@);
        if end < bytes@.len() {
            lemma_boundaries_around_ascii(bytes@, end as int);
        } else {
            is_char_boundary_start_end_of_seq(bytes@);
        }
    }
    let (head, _) = text.split_at(end);
    proof {
        assert(head.spec_bytes() == bytes@.take(end as int));
        encode_utf8_decode_utf8(head@);
        encode_utf8_decode_utf8(text@.take(position_of(text@, sep as char, 0)));
    }
    head
}

/// The part of `text` after its first `sep`, where it holds one. The
/// separator is a character below `0x80`, given as its byte.
pub(crate) fn text_after(text: &str, sep: u8) -> (tail: Option<&str>)
    requires
        sep < 0x80,
    ensures
        tail is None <==> position_of(text@, sep as char, 0) == text@.len(),
        tail matches Some(rest) ==> rest@ == text@.skip(position_of(text@, sep as char, 0) + 1),
{
    let bytes = text.as_bytes();
    let at = find_byte(bytes, sep, 0);
    proof {
        lemma_position_of(bytes@, sep, 0);
        lemma_position_of(text@, sep as char, 0);
        lemma_ascii_position(text@, sep as char);
    }
    if at == bytes.len() {
        return None;
    }
    proof {
        encode_utf8_valid_utf8(text@);
        lemma_boundaries_around_ascii(bytes@, at as int);
    }
    let (_, rest) = text.split_at(at + 1);
    proof {
        assert(rest.spec_bytes() == bytes@.skip(at + 1));
        encode_utf8_decode_utf8(rest@);
        encode_utf8_decode_utf8(text@.skip(position_of(text@, sep as char, 0) + 1));
    }
    Some(rest)
}

} // verus!
