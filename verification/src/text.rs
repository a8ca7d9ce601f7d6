//! Character-sequence utilities shared by the rest of the library:
//! substring search, prefix and suffix tests, and conversions between
//! `&str` and `Vec<char>`.

use vstd::prelude::*;

verus! {

/// `n` occurs in `h` starting at position `i`.
pub open spec fn matches_at(h: Seq<char>, n: Seq<char>, i: int) -> bool {
    0 <= i && i + n.len() <= h.len() && h.subrange(i, i + n.len()) == n
}

/// `n` occurs somewhere in `h`.
pub open spec fn has_substring(h: Seq<char>, n: Seq<char>) -> bool {
    exists|i: int| matches_at(h, n, i)
}

/// `h` ends with `suffix`.
pub open spec fn ends_with(h: Seq<char>, suffix: Seq<char>) -> bool {
    suffix.len() <= h.len() && h.subrange(h.len() - suffix.len(), h.len() as int) == suffix
}

/// `h` starts with `prefix`.
pub open spec fn starts_with(h: Seq<char>, prefix: Seq<char>) -> bool {
    prefix.len() <= h.len() && h.subrange(0, prefix.len() as int) == prefix
}

/// The characters of `s`, one by one.
pub fn to_chars(s: &str) -> (v: Vec<char>)
    ensures
        v@ == s@,
{
    let len = s.unicode_len();
    let mut v: Vec<char> = Vec::new();
    let mut i: usize = 0;
    while i < len
        invariant
            i <= len,
            len == s@.len(),
            v@ == s@.subrange(0, i as int),
        decreases len - i,
    {
        let c = s.get_char(i);
        v.push(c);
        assert(v@ =~= s@.subrange(0, i + 1));
        i = i + 1;
    }
    assert(v@ =~= s@);
    v
}

/// The characters `v[from..to]` as a fresh vector.
pub fn subvec(v: &Vec<char>, from: usize, to: usize) -> (r: Vec<char>)
    requires
        from <= to <= v@.len(),
    ensures
        r@ == v@.subrange(from as int, to as int),
{
    let mut r: Vec<char> = Vec::new();
    let mut i: usize = from;
    while i < to
        invariant
            from <= i <= to <= v@.len(),
            r@ == v@.subrange(from as int, i as int),
        decreases to - i,
    {
        r.push(v[i]);
        assert(r@ =~= v@.subrange(from as int, i + 1));
        i = i + 1;
    }
    r
}

/// Whether `n` occurs in `h` at position `i`.
pub fn chars_match_at(h: &Vec<char>, n: &Vec<char>, i: usize) -> (b: bool)
    requires
        i + n@.len() <= h@.len(),
    ensures
        b == matches_at(h@, n@, i as int),
{
    let hl: usize = h.len();
    let mut j: usize = 0;
    while j < n.len()
        invariant
            j <= n@.len(),
            i + n@.len() <= h@.len(),
            h@.len() == hl,
            forall|k: int| 0 <= k < j ==> h@[i + k] == n@[k],
        decreases n@.len() - j,
    {
        if h[i + j] != n[j] {
            assert(h@.subrange(i as int, i + n@.len())[j as int] != n@[j as int]);
            return false;
        }
        j = j + 1;
    }
    assert(h@.subrange(i as int, i + n@.len()) =~= n@);
    true
}

/// Substring search; the contract characterises both outcomes exactly.
pub fn chars_contain(h: &Vec<char>, n: &Vec<char>) -> (b: bool)
    ensures
        b == has_substring(h@, n@),
{
    if n.len() > h.len() {
        assert(forall|i: int| !matches_at(h@, n@, i));
        return false;
    }
    if n.len() == 0 {
        assert(h@.subrange(0, 0) =~= n@);
        assert(matches_at(h@, n@, 0));
        return true;
    }
    let stop = h.len() - n.len();
    let mut i: usize = 0;
    loop
        invariant
            i <= stop + 1,
            stop == h@.len() - n@.len(),
            0 < n@.len() <= h@.len(),
            stop < usize::MAX,
            forall|k: int| 0 <= k < i ==> !matches_at(h@, n@, k),
        decreases stop + 1 - i,
    {
        if i > stop {
            assert(forall|k: int| !matches_at(h@, n@, k));
            return false;
        }
        if chars_match_at(h, n, i) {
            return true;
        }
        i = i + 1;
    }
}

/// Suffix test with an exact contract.
pub fn chars_end_with(h: &Vec<char>, suffix: &Vec<char>) -> (b: bool)
    ensures
        b == ends_with(h@, suffix@),
{
    if suffix.len() > h.len() {
        return false;
    }
    chars_match_at(h, suffix, h.len() - suffix.len())
}

/// Prefix test with an exact contract.
pub fn chars_start_with(h: &Vec<char>, prefix: &Vec<char>) -> (b: bool)
    ensures
        b == starts_with(h@, prefix@),
{
    if prefix.len() > h.len() {
        return false;
    }
    chars_match_at(h, prefix, 0)
}

/// String-slice equality with an exact contract.
pub fn str_eq(a: &str, b: &str) -> (r: bool)
    ensures
        r == (a@ == b@),
{
    let av = to_chars(a);
    let bv = to_chars(b);
    chars_eq(&av, &bv)
}

/// Character-sequence equality with an exact contract.
pub fn chars_eq(a: &Vec<char>, b: &Vec<char>) -> (r: bool)
    ensures
        r == (a@ == b@),
{
    if a.len() != b.len() {
        return false;
    }
    let eq = chars_match_at(a, b, 0);
    assert(a@.subrange(0, b@.len() as int) =~= a@);
    eq
}

} // verus!
