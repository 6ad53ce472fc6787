//! Names of charts and files: the order in which `String`s compare (byte by
//! byte over their UTF-8 encoding) and the last segment of a `/`-separated path.

use vstd::prelude::*;
use vstd::utf8::*;

verus! {

/// Lexicographic order on byte sequences: the order `Ord` gives `[u8]`.
pub open spec fn bytes_less(a: Seq<u8>, b: Seq<u8>) -> bool
    decreases a.len(),
{
    if a.len() == 0 {
        b.len() > 0
    } else if b.len() == 0 {
        false
    } else if a[0] != b[0] {
        a[0] < b[0]
    } else {
        bytes_less(a.drop_first(), b.drop_first())
    }
}

/// `a < b` for strings with these characters, as `Ord for str` decides it:
/// by comparing their UTF-8 encodings byte by byte.
pub open spec fn name_less(a: Seq<char>, b: Seq<char>) -> bool {
    bytes_less(encode_utf8(a), encode_utf8(b))
}

/// No byte sequence is below itself.
pub proof fn lemma_bytes_less_irreflexive(a: Seq<u8>)
    ensures
        !bytes_less(a, a),
    decreases a.len(),
{
    if a.len() > 0 {
        lemma_bytes_less_irreflexive(a.drop_first());
    }
}

/// Two different byte sequences are ordered one way, and only one way.
pub proof fn lemma_bytes_less_total(a: Seq<u8>, b: Seq<u8>)
    ensures
        a != b ==> bytes_less(a, b) || bytes_less(b, a),
        !(bytes_less(a, b) && bytes_less(b, a)),
    decreases a.len(),
{
    if a.len() > 0 && b.len() > 0 && a[0] == b[0] {
        lemma_bytes_less_total(a.drop_first(), b.drop_first());
        if a != b {
            assert(a =~= seq![a[0]] + a.drop_first());
            assert(b =~= seq![b[0]] + b.drop_first());
        }
    } else if a.len() == 0 && b.len() == 0 {
        assert(a =~= b);
    }
}

/// The byte order is transitive.
pub proof fn lemma_bytes_less_transitive(a: Seq<u8>, b: Seq<u8>, c: Seq<u8>)
    requires
        bytes_less(a, b),
        bytes_less(b, c),
    ensures
        bytes_less(a, c),
    decreases a.len(),
{
    if a.len() > 0 && b.len() > 0 && c.len() > 0 && a[0] == b[0] && b[0] == c[0] {
        lemma_bytes_less_transitive(a.drop_first(), b.drop_first(), c.drop_first());
    }
}

/// Different strings have different encodings, so one of them is below the other.
pub proof fn lemma_name_less_total(a: Seq<char>, b: Seq<char>)
    ensures
        a != b ==> name_less(a, b) || name_less(b, a),
        !(name_less(a, b) && name_less(b, a)),
        !name_less(a, a),
{
    encode_utf8_decode_utf8(a);
    encode_utf8_decode_utf8(b);
    lemma_bytes_less_total(encode_utf8(a), encode_utf8(b));
    lemma_bytes_less_irreflexive(encode_utf8(a));
}

/// The order on strings is transitive.
pub proof fn lemma_name_less_transitive(a: Seq<char>, b: Seq<char>, c: Seq<char>)
    requires
        name_less(a, b),
        name_less(b, c),
    ensures
        name_less(a, c),
{
    lemma_bytes_less_transitive(encode_utf8(a), encode_utf8(b), encode_utf8(c));
}

/// Whether `a` sorts before `b`, as `a < b` decides it for `str`.
pub fn name_precedes(a: &str, b: &str) -> (r: bool)
    ensures
        r == name_less(a@, b@),
{
    let x = a.as_bytes();
    let y = b.as_bytes();
    let ghost xs = x@;
    let ghost ys = y@;
    let mut i: usize = 0;
    assert(xs.skip(0) =~= xs);
    assert(ys.skip(0) =~= ys);
    while i < x.len() && i < y.len() && x[i] == y[i]
        invariant
            xs == x@,
            ys == y@,
            xs == encode_utf8(a@),
            ys == encode_utf8(b@),
            i <= x@.len(),
            i <= y@.len(),
            bytes_less(xs, ys) == bytes_less(xs.skip(i as int), ys.skip(i as int)),
        decreases x.len() - i,
    {
        assert(xs.skip(i as int).drop_first() =~= xs.skip(i + 1));
        assert(ys.skip(i as int).drop_first() =~= ys.skip(i + 1));
        i = i + 1;
    }
    if i == x.len() {
        i < y.len()
    } else if i == y.len() {
        false
    } else {
        x[i] < y[i]
    }
}

/// The part of `s` after its last `/`; all of `s` when it has none.
pub open spec fn last_segment(s: Seq<char>) -> Seq<char>
    decreases s.len(),
{
    if s.len() == 0 {
        s
    } else if s.last() == '/' {
        Seq::empty()
    } else {
        last_segment(s.drop_last()).push(s.last())
    }
}

/// The last segment is the tail of `s` that starts after the last `/`.
proof fn lemma_last_segment_tail(s: Seq<char>, p: int)
    requires
        0 <= p <= s.len(),
        forall|i: int| p <= i < s.len() ==> s[i] != '/',
        p == 0 || s[p - 1] == '/',
    ensures
        last_segment(s) == s.subrange(p, s.len() as int),
    decreases s.len(),
{
    if s.len() == p {
        if p > 0 {
            assert(s.last() == '/');
        }
        assert(s.subrange(p, p) =~= Seq::<char>::empty());
    } else {
        lemma_last_segment_tail(s.drop_last(), p);
        assert(s.subrange(p, s.len() as int) =~= s.drop_last().subrange(p, s.len() - 1).push(
            s.last(),
        ));
    }
}

/// The name a replay list shows for a chart path: the text after the last
/// `/` (what `path.split('/').last()` yields).
pub fn display_name(path: &str) -> (r: String)
    ensures
        r@ == last_segment(path@),
{
    let n = path.unicode_len();
    let mut p: usize = n;
    while p > 0 && path.get_char(p - 1) != '/'
        invariant
            n == path@.len(),
            p <= n,
            forall|i: int| p <= i < n ==> path@[i] != '/',
        decreases p,
    {
        p = p - 1;
    }
    proof {
        lemma_last_segment_tail(path@, p as int);
    }
    let tail = path.substring_char(p, n);
    tail.to_owned()
}

} // verus!
