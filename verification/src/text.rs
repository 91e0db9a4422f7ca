//! The order of strings, and helpers to compare and copy them.
//!
//! Names are ordered as Rust orders `str` values: lexicographically by the
//! bytes of their UTF-8 encoding.

use vstd::prelude::*;
use vstd::slice::*;
use vstd::string::*;
use vstd::utf8::*;

verus! {

/// `k` is the first position at which `a` falls below `b`: the two agree
/// before `k`, and there `a` ends or holds the smaller byte.
pub open spec fn falls_below_at(a: Seq<u8>, b: Seq<u8>, k: int) -> bool {
    &&& 0 <= k <= a.len()
    &&& k < b.len()
    &&& forall|i: int| 0 <= i < k ==> a[i] == b[i]
    &&& (k < a.len() ==> a[k] < b[k])
}

/// Lexicographic "strictly less" on byte sequences.
pub open spec fn bytes_less(a: Seq<u8>, b: Seq<u8>) -> bool {
    exists|k: int| falls_below_at(a, b, k)
}

/// "Strictly less" on strings: the order of their UTF-8 encodings.
pub open spec fn str_less(a: Seq<char>, b: Seq<char>) -> bool {
    bytes_less(encode_utf8(a), encode_utf8(b))
}

/// A sequence of strings in strictly increasing order.
pub open spec fn increasing(s: Seq<Seq<char>>) -> bool {
    forall|i: int, j: int| 0 <= i < j < s.len() ==> str_less(s[i], s[j])
}

pub proof fn lemma_bytes_less_transitive(a: Seq<u8>, b: Seq<u8>, c: Seq<u8>)
    requires
        bytes_less(a, b),
        bytes_less(b, c),
    ensures
        bytes_less(a, c),
{
    let k1 = choose|k: int| falls_below_at(a, b, k);
    let k2 = choose|k: int| falls_below_at(b, c, k);
    let k = if k1 <= k2 { k1 } else { k2 };
    assert(falls_below_at(a, c, k));
}

proof fn lemma_bytes_differ_from(a: Seq<u8>, b: Seq<u8>, k: int)
    requires
        a != b,
        0 <= k <= a.len(),
        k <= b.len(),
        forall|i: int| 0 <= i < k ==> a[i] == b[i],
    ensures
        bytes_less(a, b) || bytes_less(b, a),
    decreases a.len() - k,
{
    if k == a.len() {
        if k == b.len() {
            assert(a =~= b);
        } else {
            assert(falls_below_at(a, b, k));
        }
    } else if k == b.len() {
        assert(falls_below_at(b, a, k));
    } else if a[k] < b[k] {
        assert(falls_below_at(a, b, k));
    } else if b[k] < a[k] {
        assert(falls_below_at(b, a, k));
    } else {
        lemma_bytes_differ_from(a, b, k + 1);
    }
}

/// Two different byte sequences are ordered one way or the other.
pub proof fn lemma_bytes_less_total(a: Seq<u8>, b: Seq<u8>)
    requires
        a != b,
    ensures
        bytes_less(a, b) || bytes_less(b, a),
{
    lemma_bytes_differ_from(a, b, 0);
}

/// Strings with the same encoding are the same string.
pub proof fn lemma_encoding_injective(a: Seq<char>, b: Seq<char>)
    requires
        encode_utf8(a) == encode_utf8(b),
    ensures
        a == b,
{
    encode_utf8_decode_utf8(a);
    encode_utf8_decode_utf8(b);
}

pub proof fn lemma_str_less_irreflexive(a: Seq<char>)
    ensures
        !str_less(a, a),
{
}

pub proof fn lemma_str_less_transitive(a: Seq<char>, b: Seq<char>, c: Seq<char>)
    requires
        str_less(a, b),
        str_less(b, c),
    ensures
        str_less(a, c),
{
    lemma_bytes_less_transitive(encode_utf8(a), encode_utf8(b), encode_utf8(c));
}

/// Two different strings are ordered one way or the other.
pub proof fn lemma_str_less_total(a: Seq<char>, b: Seq<char>)
    requires
        a != b,
    ensures
        str_less(a, b) || str_less(b, a),
{
    if encode_utf8(a) == encode_utf8(b) {
        lemma_encoding_injective(a, b);
    } else {
        lemma_bytes_less_total(encode_utf8(a), encode_utf8(b));
    }
}

/// Whether `a` comes strictly before `b`.
pub fn str_lt(a: &str, b: &str) -> (r: bool)
    ensures
        r == str_less(a@, b@),
{
    let x = a.as_bytes();
    let y = b.as_bytes();
    let mut i: usize = 0;
    while i < x.len() && i < y.len()
        invariant
            i <= x.len(),
            i <= y.len(),
            x@ == encode_utf8(a@),
            y@ == encode_utf8(b@),
            forall|j: int| 0 <= j < i ==> x@[j] == y@[j],
        decreases x.len() - i,
    {
        if x[i] != y[i] {
            if x[i] < y[i] {
                assert(falls_below_at(x@, y@, i as int));
            }
            return x[i] < y[i];
        }
        i += 1;
    }
    if x.len() < y.len() {
        assert(falls_below_at(x@, y@, i as int));
    }
    x.len() < y.len()
}

/// Whether `a` and `b` are the same string.
pub fn str_eq(a: &str, b: &str) -> (r: bool)
    ensures
        r == (a@ == b@),
{
    let x = a.as_bytes();
    let y = b.as_bytes();
    if x.len() != y.len() {
        return false;
    }
    let mut i: usize = 0;
    while i < x.len()
        invariant
            i <= x.len(),
            x.len() == y.len(),
            x@ == encode_utf8(a@),
            y@ == encode_utf8(b@),
            forall|j: int| 0 <= j < i ==> x@[j] == y@[j],
        decreases x.len() - i,
    {
        if x[i] != y[i] {
            return false;
        }
        i += 1;
    }
    proof {
        assert(x@ =~= y@);
        lemma_encoding_injective(a@, b@);
    }
    true
}

/// Whether `needle` occurs in `hay` at position `i`.
pub open spec fn occurs_at(hay: Seq<u8>, needle: Seq<u8>, i: int) -> bool {
    &&& 0 <= i
    &&& i + needle.len() <= hay.len()
    &&& hay.subrange(i, i + needle.len()) == needle
}

/// Whether the string `needle` occurs in the string `hay`, as `str::contains`
/// has it: the UTF-8 encoding of the one occurs in that of the other.
pub open spec fn text_contains(hay: Seq<char>, needle: Seq<char>) -> bool {
    exists|i: int| occurs_at(encode_utf8(hay), encode_utf8(needle), i)
}

/// Whether the string `hay` ends in the string `tail`.
pub open spec fn text_ends_with(hay: Seq<char>, tail: Seq<char>) -> bool {
    let h = encode_utf8(hay);
    let t = encode_utf8(tail);
    occurs_at(h, t, h.len() - t.len())
}

/// Whether the string `hay` begins with the string `head`.
pub open spec fn text_starts_with(hay: Seq<char>, head: Seq<char>) -> bool {
    occurs_at(encode_utf8(hay), encode_utf8(head), 0)
}

/// Whether `needle` occurs in `hay` at position `i`.
fn bytes_match_at(hay: &[u8], needle: &[u8], i: usize) -> (r: bool)
    requires
        i + needle@.len() <= hay@.len(),
    ensures
        r == occurs_at(hay@, needle@, i as int),
{
    let mut j: usize = 0;
    while j < needle.len()
        invariant
            j <= needle.len(),
            needle.len() == needle@.len(),
            hay.len() == hay@.len(),
            i + needle@.len() <= hay@.len(),
            forall|k: int| 0 <= k < j ==> hay@[i + k] == needle@[k],
        decreases needle.len() - j,
    {
        if hay[i + j] != needle[j] {
            assert(hay@.subrange(i as int, i + needle@.len())[j as int] == hay@[i + j]);
            return false;
        }
        j += 1;
    }
    assert(hay@.subrange(i as int, i + needle@.len()) =~= needle@);
    true
}

/// Whether `needle` occurs in `hay`.
pub fn str_contains(hay: &str, needle: &str) -> (r: bool)
    ensures
        r == text_contains(hay@, needle@),
{
    let h = hay.as_bytes();
    let n = needle.as_bytes();
    if n.len() > h.len() {
        return false;
    }
    let last: usize = h.len() - n.len();
    let mut i: usize = 0;
    loop
        invariant
            i <= last,
            last == h@.len() - n@.len(),
            h@ == encode_utf8(hay@),
            n@ == encode_utf8(needle@),
            forall|k: int| 0 <= k < i ==> !occurs_at(h@, n@, k),
        decreases last - i,
    {
        if bytes_match_at(h, n, i) {
            return true;
        }
        if i == last {
            return false;
        }
        i += 1;
    }
}

/// Whether `hay` ends in `tail`.
pub fn str_ends_with(hay: &str, tail: &str) -> (r: bool)
    ensures
        r == text_ends_with(hay@, tail@),
{
    let h = hay.as_bytes();
    let t = tail.as_bytes();
    if t.len() > h.len() {
        return false;
    }
    bytes_match_at(h, t, h.len() - t.len())
}

/// Whether `hay` begins with `head`.
pub fn str_starts_with(hay: &str, head: &str) -> (r: bool)
    ensures
        r == text_starts_with(hay@, head@),
{
    let h = hay.as_bytes();
    let t = head.as_bytes();
    if t.len() > h.len() {
        return false;
    }
    bytes_match_at(h, t, 0)
}

/// Whether one of `items` is the string `name`.
pub fn strings_contain(items: &Vec<String>, name: &str) -> (r: bool)
    ensures
        r == items@.map_values(|s: String| s@).contains(name@),
{
    let mut i: usize = 0;
    while i < items.len()
        invariant
            i <= items.len(),
            forall|k: int| 0 <= k < i ==> (#[trigger] items@[k])@ != name@,
        decreases items.len() - i,
    {
        if str_eq(items[i].as_str(), name) {
            assert(items@.map_values(|s: String| s@)[i as int] == name@);
            return true;
        }
        i += 1;
    }
    proof {
        let t = items@.map_values(|s: String| s@);
        if t.contains(name@) {
            let k = choose|k: int| 0 <= k < t.len() && t[k] == name@;
            assert(items@[k]@ == name@);
        }
    }
    false
}

} // verus!
