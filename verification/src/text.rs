//! Byte-level text helpers: substring search and equality on the UTF-8
//! bytes of string slices.
use vstd::prelude::*;
use vstd::string::StringSliceAdditionalSpecFns;

verus! {

broadcast use vstd::slice::group_slice_axioms;

/// Whether `needle` occurs in `hay` at byte `i`.
pub open spec fn occurs_at(hay: Seq<u8>, needle: Seq<u8>, i: int) -> bool {
    0 <= i && i + needle.len() <= hay.len() && hay.subrange(i, i + needle.len()) == needle
}

/// Whether `needle` occurs anywhere in `hay`.
pub open spec fn occurs_in(hay: Seq<u8>, needle: Seq<u8>) -> bool {
    exists|i: int| #[trigger] occurs_at(hay, needle, i)
}

fn bytes_match_at(hay: &[u8], needle: &[u8], i: usize) -> (r: bool)
    requires
        i + needle@.len() <= hay@.len(),
    ensures
        r == occurs_at(hay@, needle@, i as int),
{
    let hay_len = hay.len();
    let needle_len = needle.len();
    let mut j: usize = 0;
    while j < needle_len
        invariant
            hay_len == hay@.len(),
            needle_len == needle@.len(),
            i + needle@.len() <= hay@.len(),
            j <= needle@.len(),
            forall|k: int| 0 <= k < j ==> #[trigger] hay@[i + k] == needle@[k],
        decreases needle@.len() - j,
    {
        if hay[i + j] != needle[j] {
            assert(hay@.subrange(i as int, i + needle@.len())[j as int] != needle@[j as int]);
            return false;
        }
        j = j + 1;
    }
    assert forall|k: int| 0 <= k < needle@.len() implies
        #[trigger] hay@.subrange(i as int, i + needle@.len())[k] == needle@[k] by {
        assert(hay@[i + k] == needle@[k]);
    }
    assert(hay@.subrange(i as int, i + needle@.len()) =~= needle@);
    true
}

/// Whether `needle` occurs in `hay`, as bytes.
pub fn str_contains(hay: &str, needle: &str) -> (r: bool)
    ensures
        r == occurs_in(hay.spec_bytes(), needle.spec_bytes()),
{
    let h = hay.as_bytes();
    let n = needle.as_bytes();
    if n.len() > h.len() {
        assert forall|i: int| !#[trigger] occurs_at(h@, n@, i) by {}
        return false;
    }
    let last = h.len() - n.len();
    let mut i: usize = 0;
    while i < last
        invariant
            h@ == hay.spec_bytes(),
            n@ == needle.spec_bytes(),
            last == h@.len() - n@.len(),
            i <= last,
            forall|k: int| 0 <= k < i ==> !#[trigger] occurs_at(h@, n@, k),
        decreases last - i,
    {
        if bytes_match_at(h, n, i) {
            assert(occurs_at(h@, n@, i as int));
            return true;
        }
        i = i + 1;
    }
    if bytes_match_at(h, n, last) {
        assert(occurs_at(h@, n@, last as int));
        return true;
    }
    assert forall|k: int| !#[trigger] occurs_at(h@, n@, k) by {}
    false
}

/// Whether `a` and `b` hold the same bytes.
pub fn str_eq(a: &str, b: &str) -> (r: bool)
    ensures
        r == (a.spec_bytes() == b.spec_bytes()),
{
    let x = a.as_bytes();
    let y = b.as_bytes();
    if x.len() != y.len() {
        return false;
    }
    let m = bytes_match_at(x, y, 0);
    assert(x@.subrange(0, y@.len() as int) =~= x@);
    m
}

} // verus!
