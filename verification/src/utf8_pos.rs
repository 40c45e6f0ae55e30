//! Byte positions in the UTF-8 encoding of a text, and the characters they
//! fall on.
//!
//! A `String` is indexed by bytes; a byte position lies on a character
//! boundary when it is the number of bytes taken by some prefix of the
//! characters.
use vstd::prelude::*;
use vstd::utf8::{encode_scalar, encode_utf8, is_ascii_chars, is_ascii_chars_encode_utf8};

verus! {

/// Length in bytes of the UTF-8 encoding of `text`.
pub open spec fn byte_len(text: Seq<char>) -> nat {
    encode_utf8(text).len()
}

/// Number of bytes that encode `c`.
pub open spec fn char_bytes(c: char) -> nat {
    encode_scalar(c as u32).len()
}

/// Number of bytes taken by the first `ci` characters of `text`.
pub open spec fn prefix_bytes(text: Seq<char>, ci: int) -> nat {
    byte_len(text.take(ci))
}

/// Byte position `b` lies on a character boundary of `text` (the end
/// included).
pub open spec fn on_char(text: Seq<char>, b: int) -> bool {
    exists|ci: int| 0 <= ci <= text.len() && #[trigger] prefix_bytes(text, ci) == b
}

/// The index of the character that starts at byte `b` (the number of
/// characters before `b`), where `b` lies on a boundary.
pub open spec fn char_at(text: Seq<char>, b: int) -> int {
    choose|ci: int| 0 <= ci <= text.len() && #[trigger] prefix_bytes(text, ci) == b
}

/// The encoding of two texts one after the other is the encodings one after
/// the other.
pub proof fn lemma_encode_concat(a: Seq<char>, b: Seq<char>)
    ensures
        encode_utf8(a + b) == encode_utf8(a) + encode_utf8(b),
    decreases a.len(),
{
    if a.len() == 0 {
        assert(a + b =~= b);
        assert(encode_utf8(a) =~= Seq::<u8>::empty());
        assert(encode_utf8(a) + encode_utf8(b) =~= encode_utf8(b));
    } else {
        assert((a + b).drop_first() =~= a.drop_first() + b);
        assert((a + b)[0] == a[0]);
        lemma_encode_concat(a.drop_first(), b);
        assert(encode_utf8(a + b) =~= encode_utf8(a) + encode_utf8(b));
    }
}

/// One character takes one to four bytes.
pub proof fn lemma_char_bytes(c: char)
    ensures
        1 <= char_bytes(c) <= 4,
        encode_utf8(seq![c]).len() == char_bytes(c),
{
    assert(seq![c].drop_first() =~= Seq::<char>::empty());
    assert(encode_utf8(seq![c]) =~= encode_scalar(c as u32) + encode_utf8(Seq::<char>::empty()));
}

/// Bytes of texts one after the other add up.
pub proof fn lemma_byte_len_concat(a: Seq<char>, b: Seq<char>)
    ensures
        byte_len(a + b) == byte_len(a) + byte_len(b),
{
    lemma_encode_concat(a, b);
}

/// The prefix of `ci + 1` characters takes the bytes of `ci` characters and
/// those of character `ci`.
pub proof fn lemma_prefix_step(text: Seq<char>, ci: int)
    requires
        0 <= ci < text.len(),
    ensures
        prefix_bytes(text, ci + 1) == prefix_bytes(text, ci) + char_bytes(text[ci]),
{
    assert(text.take(ci + 1) =~= text.take(ci) + seq![text[ci]]);
    lemma_byte_len_concat(text.take(ci), seq![text[ci]]);
    lemma_char_bytes(text[ci]);
}

/// Longer prefixes take more bytes.
pub proof fn lemma_prefix_mono(text: Seq<char>, i: int, j: int)
    requires
        0 <= i < j <= text.len(),
    ensures
        prefix_bytes(text, i) < prefix_bytes(text, j),
    decreases j - i,
{
    lemma_prefix_step(text, j - 1);
    lemma_char_bytes(text[j - 1]);
    if i < j - 1 {
        lemma_prefix_mono(text, i, j - 1);
    }
}

/// All characters take all the bytes.
pub proof fn lemma_prefix_all(text: Seq<char>)
    ensures
        prefix_bytes(text, text.len() as int) == byte_len(text),
{
    assert(text.take(text.len() as int) =~= text);
}

/// The bytes of the first `ci` characters are a boundary, and the character
/// found there is character `ci`.
pub proof fn lemma_char_at(text: Seq<char>, ci: int)
    requires
        0 <= ci <= text.len(),
    ensures
        on_char(text, prefix_bytes(text, ci) as int),
        char_at(text, prefix_bytes(text, ci) as int) == ci,
{
    let b = prefix_bytes(text, ci) as int;
    assert(on_char(text, b));
    let k = char_at(text, b);
    if k < ci {
        lemma_prefix_mono(text, k, ci);
    } else if k > ci {
        lemma_prefix_mono(text, ci, k);
    }
}

/// A boundary is at most the length, and the character found there is
/// within the text (before its end when the boundary is before the end).
pub proof fn lemma_on_char(text: Seq<char>, b: int)
    requires
        on_char(text, b),
    ensures
        0 <= char_at(text, b) <= text.len(),
        prefix_bytes(text, char_at(text, b)) == b,
        0 <= b <= byte_len(text),
        b < byte_len(text) ==> char_at(text, b) < text.len(),
{
    let k = char_at(text, b);
    lemma_prefix_all(text);
    if k < text.len() {
        lemma_prefix_mono(text, k, text.len() as int);
    }
}

/// Removing character `ci` takes away its bytes and keeps the prefixes
/// before it.
pub proof fn lemma_remove_bytes(text: Seq<char>, ci: int)
    requires
        0 <= ci < text.len(),
    ensures
        byte_len(text.remove(ci)) + char_bytes(text[ci]) == byte_len(text),
        forall|k: int| 0 <= k <= ci ==> #[trigger] prefix_bytes(text.remove(ci), k) == prefix_bytes(text, k),
{
    let r = text.remove(ci);
    let head = text.take(ci);
    let tail = text.skip(ci + 1);
    assert(r =~= head + tail);
    assert(text =~= head + seq![text[ci]] + tail);
    lemma_byte_len_concat(head, tail);
    lemma_byte_len_concat(head + seq![text[ci]], tail);
    lemma_byte_len_concat(head, seq![text[ci]]);
    lemma_char_bytes(text[ci]);
    assert forall|k: int| 0 <= k <= ci implies #[trigger] prefix_bytes(r, k) == prefix_bytes(text, k) by {
        assert(r.take(k) =~= text.take(k));
    }
}

/// Inserting `c` before character `ci` adds its bytes, keeps the prefixes
/// up to `ci`, and the prefix through `c` takes its bytes more.
pub proof fn lemma_insert_bytes(text: Seq<char>, ci: int, c: char)
    requires
        0 <= ci <= text.len(),
    ensures
        byte_len(text.insert(ci, c)) == byte_len(text) + char_bytes(c),
        forall|k: int| 0 <= k <= ci ==> #[trigger] prefix_bytes(text.insert(ci, c), k) == prefix_bytes(text, k),
        prefix_bytes(text.insert(ci, c), ci + 1) == prefix_bytes(text, ci) + char_bytes(c),
{
    let r = text.insert(ci, c);
    let head = text.take(ci);
    let tail = text.skip(ci);
    assert(r =~= head + seq![c] + tail);
    assert(text =~= head + tail);
    lemma_byte_len_concat(head + seq![c], tail);
    lemma_byte_len_concat(head, seq![c]);
    lemma_byte_len_concat(head, tail);
    lemma_char_bytes(c);
    assert(r.take(ci + 1) =~= head + seq![c]);
    assert forall|k: int| 0 <= k <= ci implies #[trigger] prefix_bytes(r, k) == prefix_bytes(text, k) by {
        assert(r.take(k) =~= text.take(k));
    }
}

/// Removing characters `a..b` takes away their bytes and keeps the prefixes
/// up to `a`.
pub proof fn lemma_cut_bytes(text: Seq<char>, a: int, b: int)
    requires
        0 <= a <= b <= text.len(),
    ensures
        byte_len(text.subrange(0, a) + text.subrange(b, text.len() as int)) + prefix_bytes(text, b)
            == byte_len(text) + prefix_bytes(text, a),
        forall|k: int| 0 <= k <= a ==> #[trigger] prefix_bytes(text.subrange(0, a) + text.subrange(b, text.len() as int), k)
            == prefix_bytes(text, k),
{
    let r = text.subrange(0, a) + text.subrange(b, text.len() as int);
    let tail = text.subrange(b, text.len() as int);
    assert(text.subrange(0, a) =~= text.take(a));
    assert(text =~= text.take(b) + tail);
    lemma_byte_len_concat(text.take(a), tail);
    lemma_byte_len_concat(text.take(b), tail);
    assert forall|k: int| 0 <= k <= a implies #[trigger] prefix_bytes(r, k) == prefix_bytes(text, k) by {
        assert(r.take(k) =~= text.take(k));
    }
}

/// In ASCII text every character takes one byte: a prefix of `ci`
/// characters takes `ci` bytes.
pub proof fn lemma_ascii_prefix(text: Seq<char>, ci: int)
    requires
        is_ascii_chars(text),
        0 <= ci <= text.len(),
    ensures
        prefix_bytes(text, ci) == ci,
        on_char(text, ci),
        char_at(text, ci) == ci,
{
    assert(is_ascii_chars(text.take(ci)));
    is_ascii_chars_encode_utf8(text.take(ci));
    lemma_char_at(text, ci);
}

/// ASCII text has as many bytes as characters.
pub proof fn lemma_ascii_byte_len(text: Seq<char>)
    requires
        is_ascii_chars(text),
    ensures
        byte_len(text) == text.len(),
{
    is_ascii_chars_encode_utf8(text);
}

} // verus!
