//! Looking a key up in a URL query string such as `?RUST_LOG=debug&x=1`.
//!
//! The lookup works on the UTF-8 bytes of the query. The delimiters `?`, `&`
//! and `=` are ASCII, so a byte equal to one of them is that character.
use vstd::prelude::*;
use vstd::string::StringSliceAdditionalSpecFns;
use vstd::utf8::*;

verus! {

/// The byte `?`.
pub const QUESTION: u8 = 0x3f;
/// The byte `&`.
pub const AMPERSAND: u8 = 0x26;
/// The byte `=`.
pub const EQUALS: u8 = 0x3d;

/// Index of the first `b` in `q[from..to]`, or `to` if there is none.
pub open spec fn find_from(q: Seq<u8>, from: int, to: int, b: u8) -> int
    decreases to - from,
{
    if from >= to {
        to
    } else if q[from] == b {
        from
    } else {
        find_from(q, from + 1, to, b)
    }
}

/// `find_from` lands in `from..=to`, on a `b` unless it is `to`, and passes no `b`.
pub proof fn lemma_find_from(q: Seq<u8>, from: int, to: int, b: u8)
    requires
        from <= to,
    ensures
        from <= find_from(q, from, to, b) <= to,
        find_from(q, from, to, b) < to ==> q[find_from(q, from, to, b)] == b,
        forall|j: int| from <= j < find_from(q, from, to, b) ==> q[j] != b,
    decreases to - from,
{
    if from < to && q[from] != b {
        lemma_find_from(q, from + 1, to, b);
    }
}

/// The value range of `key` among the `&`-separated pairs of `q` that start
/// at byte `pos`: the first pair whose key (the text before its first `=`)
/// is `key` gives the text between its first and its second `=` (or its
/// end). Pairs without `=` have no value and are passed over.
pub open spec fn lookup_from(q: Seq<u8>, pos: int, key: Seq<u8>) -> Option<(int, int)>
    decreases q.len() - pos,
{
    if pos < 0 || pos > q.len() {
        None
    } else {
        let e = find_from(q, pos, q.len() as int, AMPERSAND);
        let k = find_from(q, pos, e, EQUALS);
        proof {
            lemma_find_from(q, pos, q.len() as int, AMPERSAND);
        }
        if k < e && q.subrange(pos, k) == key {
            Some((k + 1, find_from(q, k + 1, e, EQUALS)))
        } else if e >= q.len() {
            None
        } else {
            lookup_from(q, e + 1, key)
        }
    }
}

/// The byte range of the value of `key` in the query string `q`, which must
/// start with `?`.
pub open spec fn query_lookup(q: Seq<u8>, key: Seq<u8>) -> Option<(int, int)> {
    if q.len() > 0 && q[0] == QUESTION {
        lookup_from(q, 1, key)
    } else {
        None
    }
}

/// An ASCII byte of a valid UTF-8 sequence starts a character.
proof fn lemma_ascii_boundary(bytes: Seq<u8>, i: int)
    requires
        valid_utf8(bytes),
        0 <= i < bytes.len(),
        bytes[i] < 0x80,
    ensures
        is_char_boundary(bytes, i),
{
    is_char_boundary_iff_not_is_continuation_byte(bytes, i);
}

/// The byte after a leading ASCII byte starts a character.
proof fn lemma_after_ascii_head(bytes: Seq<u8>)
    requires
        valid_utf8(bytes),
        bytes.len() > 0,
        bytes[0] < 0x80,
    ensures
        is_char_boundary(bytes, 1),
{
    reveal_with_fuel(is_char_boundary, 2);
    assert(is_leading_byte_width_1(bytes[0]));
}

/// `q[from..to]` equals `key`, compared byte by byte.
fn bytes_equal(q: &[u8], from: usize, to: usize, key: &[u8]) -> (b: bool)
    requires
        from <= to <= q@.len(),
    ensures
        b == (q@.subrange(from as int, to as int) == key@),
{
    if to - from != key.len() {
        proof {
            assert(q@.subrange(from as int, to as int).len() != key@.len());
        }
        return false;
    }
    let mut i: usize = 0;
    while i < key.len()
        invariant
            from <= to <= q@.len(),
            to - from == key@.len(),
            i <= key@.len(),
            forall|j: int| 0 <= j < i ==> q@[from + j] == key@[j],
        decreases key@.len() - i,
    {
        if q[from + i] != key[i] {
            proof {
                assert(q@.subrange(from as int, to as int)[i as int] != key@[i as int]);
            }
            return false;
        }
        i += 1;
    }
    proof {
        assert(q@.subrange(from as int, to as int) =~= key@);
    }
    true
}

/// Index of the first `b` in `q[from..to]`, or `to`.
fn find_byte(q: &[u8], from: usize, to: usize, b: u8) -> (r: usize)
    requires
        from <= to <= q@.len(),
    ensures
        r == find_from(q@, from as int, to as int, b),
{
    let mut i = from;
    while i < to && q[i] != b
        invariant
            from <= i <= to <= q@.len(),
            find_from(q@, from as int, to as int, b) == find_from(q@, i as int, to as int, b),
        decreases to - i,
    {
        i += 1;
    }
    i
}

/// The part of `s` from byte `from` to byte `to`, where the byte before
/// `from` is `=` and byte `to` is ASCII or the end.
fn slice_after_equals<'a>(s: &'a str, from: usize, to: usize) -> (r: &'a str)
    requires
        1 <= from <= to <= s.spec_bytes().len(),
        s.spec_bytes()[from - 1] == EQUALS,
        to < s.spec_bytes().len() ==> s.spec_bytes()[to as int] < 0x80,
    ensures
        r.spec_bytes() == s.spec_bytes().subrange(from as int, to as int),
{
    let ghost q = s.spec_bytes();
    proof {
        encode_utf8_valid_utf8(s@);
        lemma_ascii_boundary(q, from - 1);
    }
    let (_, r1) = s.split_at(from - 1);
    let ghost b1 = r1.spec_bytes();
    proof {
        encode_utf8_valid_utf8(r1@);
        assert(b1[0] == q[from - 1]);
        lemma_after_ascii_head(b1);
    }
    let (_, r2) = r1.split_at(1);
    let ghost b2 = r2.spec_bytes();
    proof {
        encode_utf8_valid_utf8(r2@);
        assert(b2 =~= q.subrange(from as int, q.len() as int));
        if to < q.len() {
            assert(b2[to - from] == q[to as int]);
            lemma_ascii_boundary(b2, to - from);
        } else {
            is_char_boundary_start_end_of_seq(b2);
        }
    }
    let (r, _) = r2.split_at(to - from);
    proof {
        assert(r.spec_bytes() =~= q.subrange(from as int, to as int));
    }
    r
}

/// Parse the query string as returned by `web_sys::window()?.location().search()?` and get a
/// specific key out of it.
pub fn parse_url_query_string<'a>(query: &'a str, search_key: &str) -> (r: Option<&'a str>)
    ensures
        r is Some <==> query_lookup(query.spec_bytes(), search_key.spec_bytes()) is Some,
        r matches Some(v) ==> {
            let (a, b) = query_lookup(query.spec_bytes(), search_key.spec_bytes())->0;
            v.spec_bytes() == query.spec_bytes().subrange(a, b)
        },
{
    let q = query.as_bytes();
    let key = search_key.as_bytes();
    let n = q.len();
    if n == 0 || q[0] != QUESTION {
        return None;
    }
    let mut pos: usize = 1;
    while pos <= n
        invariant
            q@ == query.spec_bytes(),
            key@ == search_key.spec_bytes(),
            n == q@.len(),
            1 <= pos,
            q@.len() > 0 && q@[0] == QUESTION,
            query_lookup(q@, key@) == lookup_from(q@, pos as int, key@),
        decreases n + 1 - pos,
    {
        let e = find_byte(q, pos, n, AMPERSAND);
        proof {
            lemma_find_from(q@, pos as int, n as int, AMPERSAND);
        }
        let k = find_byte(q, pos, e, EQUALS);
        proof {
            lemma_find_from(q@, pos as int, e as int, EQUALS);
        }
        if k < e && bytes_equal(q, pos, k, key) {
            let v_end = find_byte(q, k + 1, e, EQUALS);
            proof {
                lemma_find_from(q@, k + 1, e as int, EQUALS);
            }
            let v = slice_after_equals(query, k + 1, v_end);
            return Some(v);
        }
        if e >= n {
            return None;
        }
        pos = e + 1;
    }
    None
}

} // verus!
