//! Component-wise comparison of dot-separated version strings.
//!
//! A version tag is read by stripping its leading run of non-digit
//! characters, splitting the rest on `'.'`, and giving each segment a
//! numeric value (a segment that is empty or not made of digits alone
//! counts as zero). Two versions are compared component by component,
//! left to right, with missing components read as zero; the first
//! differing component decides.

use vstd::prelude::*;
use crate::text::subvec;
use crate::text::to_chars;

verus! {

/// `c` is a decimal digit.
pub open spec fn is_digit(c: char) -> bool {
    '0' <= c && c <= '9'
}

/// The numeric value of a digit character.
pub open spec fn digit_val(c: char) -> nat {
    (c as int - '0' as int) as nat
}

/// Every character of `s` is a decimal digit.
pub open spec fn all_digits(s: Seq<char>) -> bool {
    forall|i: int| 0 <= i < s.len() ==> is_digit(s[i])
}

/// Ten to the power `n`.
pub open spec fn pow10(n: nat) -> nat
    decreases n,
{
    if n == 0 {
        1
    } else {
        10 * pow10((n - 1) as nat)
    }
}

/// The number written by the digit string `s`, most significant first.
pub open spec fn digits_val(s: Seq<char>) -> nat
    decreases s.len(),
{
    if s.len() == 0 {
        0
    } else {
        digit_val(s[0]) * pow10((s.len() - 1) as nat) + digits_val(s.drop_first())
    }
}

/// The numeric reading of one version segment: its digit value if it is a
/// non-empty digit string, zero otherwise.
pub open spec fn seg_value(s: Seq<char>) -> nat {
    if s.len() > 0 && all_digits(s) {
        digits_val(s)
    } else {
        0
    }
}

/// Length of the leading run of non-digit characters of `s`.
pub open spec fn prefix_len(s: Seq<char>) -> nat
    decreases s.len(),
{
    if s.len() > 0 && !is_digit(s[0]) {
        1 + prefix_len(s.drop_first())
    } else {
        0
    }
}

/// `s` with its leading run of non-digit characters removed.
pub open spec fn strip_prefix(s: Seq<char>) -> Seq<char> {
    s.subrange(prefix_len(s) as int, s.len() as int)
}

/// Position of the first `'.'` in `s`, or `s.len()` if there is none.
pub open spec fn dot_pos(s: Seq<char>) -> nat
    decreases s.len(),
{
    if s.len() == 0 {
        0
    } else if s[0] == '.' {
        0
    } else {
        1 + dot_pos(s.drop_first())
    }
}

/// The dot-separated segments of `s`. The empty string has one empty
/// segment, as splitting does in the running code.
pub open spec fn components(s: Seq<char>) -> Seq<Seq<char>>
    decreases s.len(),
{
    if dot_pos(s) >= s.len() {
        seq![s]
    } else {
        seq![s.subrange(0, dot_pos(s) as int)] + components(
            s.subrange(dot_pos(s) as int + 1, s.len() as int),
        )
    }
}

/// The numeric readings of a list of segments.
pub open spec fn vals_of(segs: Seq<Seq<char>>) -> Seq<nat> {
    segs.map_values(|c: Seq<char>| seg_value(c))
}

/// The component values of a version string.
pub open spec fn component_values(s: Seq<char>) -> Seq<nat> {
    vals_of(components(strip_prefix(s)))
}

/// The rest of a component list, or the empty list if it is already empty.
pub open spec fn tail_or_empty(a: Seq<nat>) -> Seq<nat> {
    if a.len() > 0 {
        a.drop_first()
    } else {
        a
    }
}

/// Component list `a` reads as strictly newer than component list `b`:
/// the first differing component, missing ones read as zero, decides.
pub open spec fn values_newer(a: Seq<nat>, b: Seq<nat>) -> bool
    decreases a.len() + b.len(),
{
    if a.len() == 0 && b.len() == 0 {
        false
    } else {
        let x: nat = if a.len() > 0 {
            a[0]
        } else {
            0
        };
        let y: nat = if b.len() > 0 {
            b[0]
        } else {
            0
        };
        if x > y {
            true
        } else if x < y {
            false
        } else {
            values_newer(tail_or_empty(a), tail_or_empty(b))
        }
    }
}

/// Version string `latest` reads as strictly newer than `current`.
pub open spec fn version_newer(latest: Seq<char>, current: Seq<char>) -> bool {
    values_newer(component_values(latest), component_values(current))
}

// ---------------------------------------------------------------------------
// Characterisations of the scan positions used by the running code.
// ---------------------------------------------------------------------------

proof fn lemma_prefix_len(s: Seq<char>)
    ensures
        prefix_len(s) <= s.len(),
        forall|k: int| 0 <= k < prefix_len(s) ==> !is_digit(s[k]),
        prefix_len(s) < s.len() ==> is_digit(s[prefix_len(s) as int]),
    decreases s.len(),
{
    if s.len() > 0 && !is_digit(s[0]) {
        lemma_prefix_len(s.drop_first());
        assert forall|k: int| 0 <= k < prefix_len(s) implies !is_digit(s[k]) by {
            if k > 0 {
                assert(s[k] == s.drop_first()[k - 1]);
            }
        }
        if prefix_len(s) < s.len() {
            assert(s[prefix_len(s) as int] == s.drop_first()[prefix_len(s.drop_first()) as int]);
        }
    }
}

proof fn lemma_dot_pos(s: Seq<char>)
    ensures
        dot_pos(s) <= s.len(),
        forall|k: int| 0 <= k < dot_pos(s) ==> s[k] != '.',
        dot_pos(s) < s.len() ==> s[dot_pos(s) as int] == '.',
    decreases s.len(),
{
    if s.len() > 0 && s[0] != '.' {
        lemma_dot_pos(s.drop_first());
        assert forall|k: int| 0 <= k < dot_pos(s) implies s[k] != '.' by {
            if k > 0 {
                assert(s[k] == s.drop_first()[k - 1]);
            }
        }
        if dot_pos(s) < s.len() {
            assert(s[dot_pos(s) as int] == s.drop_first()[dot_pos(s.drop_first()) as int]);
        }
    }
}

/// Length of the leading run of `'0'` characters of `s`.
pub open spec fn zeros_len(s: Seq<char>) -> nat
    decreases s.len(),
{
    if s.len() > 0 && s[0] == '0' {
        1 + zeros_len(s.drop_first())
    } else {
        0
    }
}

proof fn lemma_zeros_len(s: Seq<char>)
    ensures
        zeros_len(s) <= s.len(),
        forall|k: int| 0 <= k < zeros_len(s) ==> s[k] == '0',
        zeros_len(s) < s.len() ==> s[zeros_len(s) as int] != '0',
    decreases s.len(),
{
    if s.len() > 0 && s[0] == '0' {
        lemma_zeros_len(s.drop_first());
        assert forall|k: int| 0 <= k < zeros_len(s) implies s[k] == '0' by {
            if k > 0 {
                assert(s[k] == s.drop_first()[k - 1]);
            }
        }
        if zeros_len(s) < s.len() {
            assert(s[zeros_len(s) as int] == s.drop_first()[zeros_len(s.drop_first()) as int]);
        }
    }
}

/// The digit string `s` with its leading zeros removed; the empty string
/// where `s` is not a non-empty digit string.
pub open spec fn canonical(s: Seq<char>) -> Seq<char> {
    if s.len() > 0 && all_digits(s) {
        s.subrange(zeros_len(s) as int, s.len() as int)
    } else {
        Seq::empty()
    }
}

// ---------------------------------------------------------------------------
// Arithmetic facts about digit strings.
// ---------------------------------------------------------------------------

proof fn lemma_pow10_pos(n: nat)
    ensures
        pow10(n) >= 1,
    decreases n,
{
    if n > 0 {
        lemma_pow10_pos((n - 1) as nat);
    }
}

proof fn lemma_pow10_mono(m: nat, n: nat)
    requires
        m <= n,
    ensures
        pow10(m) <= pow10(n),
    decreases n,
{
    if m < n {
        lemma_pow10_mono(m, (n - 1) as nat);
        lemma_pow10_pos((n - 1) as nat);
    }
}

proof fn lemma_digits_val_upper(s: Seq<char>)
    requires
        all_digits(s),
    ensures
        digits_val(s) < pow10(s.len()),
    decreases s.len(),
{
    if s.len() > 0 {
        let t = s.drop_first();
        assert(all_digits(t)) by {
            assert forall|i: int| 0 <= i < t.len() implies is_digit(t[i]) by {
                assert(t[i] == s[i + 1]);
            }
        }
        lemma_digits_val_upper(t);
        let p = pow10((s.len() - 1) as nat);
        let d = digit_val(s[0]);
        assert(is_digit(s[0]));
        assert(d <= 9);
        assert(d * p + p == (d + 1) * p) by (nonlinear_arith);
        assert((d + 1) * p <= 10 * p) by (nonlinear_arith)
            requires
                d + 1 <= 10,
                p >= 0,
        ;
        assert(pow10(s.len()) == 10 * p);
    }
}

proof fn lemma_digits_val_lower(s: Seq<char>)
    requires
        all_digits(s),
        s.len() > 0,
        s[0] != '0',
    ensures
        digits_val(s) >= pow10((s.len() - 1) as nat),
    decreases s.len(),
{
    let p = pow10((s.len() - 1) as nat);
    let d = digit_val(s[0]);
    assert(is_digit(s[0]));
    assert(d >= 1);
    assert(d * p >= 1 * p) by (nonlinear_arith)
        requires
            d >= 1,
            p >= 0,
    ;
}

/// Removing the leading zeros of a digit string does not change its value.
proof fn lemma_canonical_value(s: Seq<char>)
    requires
        all_digits(s),
    ensures
        digits_val(s.subrange(zeros_len(s) as int, s.len() as int)) == digits_val(s),
    decreases s.len(),
{
    lemma_zeros_len(s);
    if s.len() > 0 && s[0] == '0' {
        let t = s.drop_first();
        assert(all_digits(t)) by {
            assert forall|i: int| 0 <= i < t.len() implies is_digit(t[i]) by {
                assert(t[i] == s[i + 1]);
            }
        }
        lemma_canonical_value(t);
        lemma_zeros_len(t);
        assert(s.subrange(zeros_len(s) as int, s.len() as int) =~= t.subrange(
            zeros_len(t) as int,
            t.len() as int,
        ));
        assert(digit_val('0') == 0);
        assert(digits_val(s) == 0 * pow10((s.len() - 1) as nat) + digits_val(t));
    } else {
        assert(s.subrange(zeros_len(s) as int, s.len() as int) =~= s);
    }
}

/// What the canonical form of a segment guarantees: all digits, no leading
/// zero, and the same numeric reading as the segment itself.
proof fn lemma_canonical_shape(s: Seq<char>)
    ensures
        all_digits(canonical(s)),
        canonical(s).len() > 0 ==> canonical(s)[0] != '0',
        digits_val(canonical(s)) == seg_value(s),
{
    lemma_zeros_len(s);
    if s.len() > 0 && all_digits(s) {
        let c = canonical(s);
        assert(all_digits(c)) by {
            assert forall|i: int| 0 <= i < c.len() implies is_digit(c[i]) by {
                assert(c[i] == s[i + zeros_len(s)]);
            }
        }
        lemma_canonical_value(s);
    }
}

/// Digit strings of equal length compare by their first differing digit.
proof fn lemma_digits_lex(a: Seq<char>, b: Seq<char>, k: int)
    requires
        all_digits(a),
        all_digits(b),
        a.len() == b.len(),
        0 <= k < a.len(),
        forall|j: int| 0 <= j < k ==> a[j] == b[j],
        digit_val(a[k]) > digit_val(b[k]),
    ensures
        digits_val(a) > digits_val(b),
    decreases k,
{
    let p = pow10((a.len() - 1) as nat);
    let ta = a.drop_first();
    let tb = b.drop_first();
    assert(all_digits(ta) && all_digits(tb)) by {
        assert forall|i: int| 0 <= i < ta.len() implies is_digit(ta[i]) && is_digit(tb[i]) by {
            assert(ta[i] == a[i + 1] && tb[i] == b[i + 1]);
        }
    }
    if k == 0 {
        lemma_digits_val_upper(tb);
        let da = digit_val(a[0]);
        let db = digit_val(b[0]);
        assert(db * p + p == (db + 1) * p) by (nonlinear_arith);
        assert((db + 1) * p <= da * p) by (nonlinear_arith)
            requires
                db + 1 <= da,
                p >= 0,
        ;
    } else {
        assert(forall|j: int| 0 <= j < k - 1 ==> ta[j] == tb[j]) by {
            assert forall|j: int| 0 <= j < k - 1 implies ta[j] == tb[j] by {
                assert(ta[j] == a[j + 1] && tb[j] == b[j + 1]);
            }
        }
        assert(ta[k - 1] == a[k] && tb[k - 1] == b[k]);
        lemma_digits_lex(ta, tb, k - 1);
        assert(digit_val(a[0]) == digit_val(b[0]));
    }
}

/// The shorter of two canonical digit strings reads as the smaller number.
proof fn lemma_digits_len_cmp(a: Seq<char>, b: Seq<char>)
    requires
        all_digits(a),
        all_digits(b),
        a.len() < b.len(),
        b[0] != '0',
    ensures
        digits_val(a) < digits_val(b),
{
    lemma_digits_val_upper(a);
    lemma_digits_val_lower(b);
    lemma_pow10_mono(a.len(), (b.len() - 1) as nat);
}

// ---------------------------------------------------------------------------
// Consistency of the ordering (the law behind the comparison).
// ---------------------------------------------------------------------------

proof fn lemma_values_newer_asym(a: Seq<nat>, b: Seq<nat>)
    ensures
        !(values_newer(a, b) && values_newer(b, a)),
    decreases a.len() + b.len(),
{
    if !(a.len() == 0 && b.len() == 0) {
        lemma_values_newer_asym(tail_or_empty(a), tail_or_empty(b));
    }
}

proof fn lemma_values_newer_irrefl(a: Seq<nat>)
    ensures
        !values_newer(a, a),
    decreases a.len(),
{
    if a.len() > 0 {
        lemma_values_newer_irrefl(tail_or_empty(a));
    }
}

/// Comparing two version strings in either direction never yields a
/// contradictory answer, and a string is never newer than itself.
pub proof fn lemma_version_order_consistent(a: Seq<char>, b: Seq<char>)
    ensures
        !(version_newer(a, b) && version_newer(b, a)),
        a == b ==> !version_newer(a, b),
{
    lemma_values_newer_asym(component_values(a), component_values(b));
    if a == b {
        lemma_values_newer_irrefl(component_values(a));
    }
}

// ---------------------------------------------------------------------------
// The running comparison.
// ---------------------------------------------------------------------------

enum SegOrder {
    Lt,
    Eq,
    Gt,
}

/// Decides whether `c` is a decimal digit.
pub fn char_is_digit(c: char) -> (b: bool)
    ensures
        b == is_digit(c),
{
    (c as u32) >= ('0' as u32) && (c as u32) <= ('9' as u32)
}

/// `v` is a non-empty digit string.
fn is_numeric(v: &Vec<char>) -> (b: bool)
    ensures
        b == (v@.len() > 0 && all_digits(v@)),
{
    if v.len() == 0 {
        return false;
    }
    let mut i: usize = 0;
    while i < v.len()
        invariant
            i <= v@.len(),
            forall|k: int| 0 <= k < i ==> is_digit(v@[k]),
        decreases v@.len() - i,
    {
        if !char_is_digit(v[i]) {
            return false;
        }
        i = i + 1;
    }
    true
}

/// The canonical digit string of one segment: leading zeros removed, or
/// empty where the segment does not read as a number.
fn canonical_digits(v: &Vec<char>) -> (r: Vec<char>)
    ensures
        r@ == canonical(v@),
{
    proof {
        lemma_zeros_len(v@);
    }
    if !is_numeric(v) {
        let r: Vec<char> = Vec::new();
        assert(r@ =~= canonical(v@));
        return r;
    }
    let mut z: usize = 0;
    while z < v.len() && v[z] == '0'
        invariant
            z <= v@.len(),
            forall|k: int| 0 <= k < z ==> v@[k] == '0',
        decreases v@.len() - z,
    {
        z = z + 1;
    }
    proof {
        lemma_zeros_len(v@);
        assert(zeros_len(v@) == z);
    }
    subvec(v, z, v.len())
}

/// Compares two canonical digit strings as numbers.
fn cmp_canonical(a: &Vec<char>, b: &Vec<char>) -> (o: SegOrder)
    requires
        all_digits(a@),
        all_digits(b@),
        a@.len() > 0 ==> a@[0] != '0',
        b@.len() > 0 ==> b@[0] != '0',
    ensures
        (o is Gt) == (digits_val(a@) > digits_val(b@)),
        (o is Lt) == (digits_val(a@) < digits_val(b@)),
        (o is Eq) == (digits_val(a@) == digits_val(b@)),
{
    if a.len() < b.len() {
        proof {
            lemma_digits_len_cmp(a@, b@);
        }
        return SegOrder::Lt;
    }
    if a.len() > b.len() {
        proof {
            lemma_digits_len_cmp(b@, a@);
        }
        return SegOrder::Gt;
    }
    let mut k: usize = 0;
    while k < a.len()
        invariant
            a@.len() == b@.len(),
            k <= a@.len(),
            all_digits(a@),
            all_digits(b@),
            forall|j: int| 0 <= j < k ==> a@[j] == b@[j],
        decreases a@.len() - k,
    {
        let ca = a[k];
        let cb = b[k];
        if (ca as u32) > (cb as u32) {
            proof {
                lemma_digits_lex(a@, b@, k as int);
            }
            return SegOrder::Gt;
        }
        if (ca as u32) < (cb as u32) {
            proof {
                lemma_digits_lex(b@, a@, k as int);
            }
            return SegOrder::Lt;
        }
        k = k + 1;
    }
    assert(a@ =~= b@);
    SegOrder::Eq
}

/// Compares the numeric readings of two segments.
fn cmp_seg(a: &Vec<char>, b: &Vec<char>) -> (o: SegOrder)
    ensures
        (o is Gt) == (seg_value(a@) > seg_value(b@)),
        (o is Lt) == (seg_value(a@) < seg_value(b@)),
        (o is Eq) == (seg_value(a@) == seg_value(b@)),
{
    let ca = canonical_digits(a);
    let cb = canonical_digits(b);
    proof {
        lemma_canonical_shape(a@);
        lemma_canonical_shape(b@);
    }
    cmp_canonical(&ca, &cb)
}

/// The dot-separated segments of `v[from..]`.
fn split_segments(v: &Vec<char>, from: usize) -> (segs: Vec<Vec<char>>)
    requires
        from <= v@.len(),
    ensures
        segs.deep_view() == components(v@.subrange(from as int, v@.len() as int)),
    decreases v@.len() - from,
{
    let ghost sub = v@.subrange(from as int, v@.len() as int);
    proof {
        lemma_dot_pos(sub);
    }
    let len = v.len();
    let mut j: usize = from;
    while j < len && v[j] != '.'
        invariant
            from <= j <= len,
            len == v@.len(),
            forall|k: int| from <= k < j ==> v@[k] != '.',
        decreases len - j,
    {
        j = j + 1;
    }
    proof {
        assert forall|k: int| 0 <= k < j - from implies sub[k] != '.' by {
            assert(sub[k] == v@[k + from]);
        }
        if j < len {
            assert(sub[j - from] == v@[j as int]);
        }
        assert(dot_pos(sub) == j - from);
    }
    if j == len {
        let seg = subvec(v, from, len);
        let mut segs: Vec<Vec<char>> = Vec::new();
        segs.push(seg);
        assert(segs.deep_view() =~~= seq![sub]);
        segs
    } else {
        let seg = subvec(v, from, j);
        let mut rest = split_segments(v, j + 1);
        let ghost rest_view = rest.deep_view();
        let mut segs: Vec<Vec<char>> = Vec::new();
        segs.push(seg);
        segs.append(&mut rest);
        proof {
            assert(sub.subrange(0, dot_pos(sub) as int) =~= v@.subrange(from as int, j as int));
            assert(sub.subrange(dot_pos(sub) as int + 1, sub.len() as int) =~= v@.subrange(
                j + 1,
                v@.len() as int,
            ));
            assert(segs.deep_view() =~~= seq![v@.subrange(from as int, j as int)] + rest_view);
        }
        segs
    }
}

/// The component segments of a version string: prefix stripped, split on
/// dots.
fn version_segments(v: &Vec<char>) -> (segs: Vec<Vec<char>>)
    ensures
        segs.deep_view() == components(strip_prefix(v@)),
{
    proof {
        lemma_prefix_len(v@);
    }
    let len = v.len();
    let mut p: usize = 0;
    while p < len && !char_is_digit(v[p])
        invariant
            p <= len,
            len == v@.len(),
            forall|k: int| 0 <= k < p ==> !is_digit(v@[k]),
        decreases len - p,
    {
        p = p + 1;
    }
    proof {
        assert(prefix_len(v@) == p);
    }
    split_segments(v, p)
}

/// The suffix of `a` from `i`, or the empty list once `i` runs past the end.
spec fn skip_or_empty(a: Seq<nat>, i: int) -> Seq<nat> {
    if i <= a.len() {
        a.skip(i)
    } else {
        Seq::empty()
    }
}

proof fn lemma_skip_step(a: Seq<nat>, i: int)
    requires
        0 <= i,
    ensures
        skip_or_empty(a, i + 1) =~= tail_or_empty(skip_or_empty(a, i)),
{
}

/// Compares two segment lists component-wise, missing components read as
/// zero.
fn cmp_components(a: &Vec<Vec<char>>, b: &Vec<Vec<char>>) -> (newer: bool)
    ensures
        newer == values_newer(vals_of(a.deep_view()), vals_of(b.deep_view())),
{
    let ghost va = vals_of(a.deep_view());
    let ghost vb = vals_of(b.deep_view());
    let empty: Vec<char> = Vec::new();
    let n = if a.len() > b.len() {
        a.len()
    } else {
        b.len()
    };
    let mut i: usize = 0;
    proof {
        assert(skip_or_empty(va, 0) =~= va);
        assert(skip_or_empty(vb, 0) =~= vb);
    }
    while i < n
        invariant
            i <= n,
            n == if a@.len() > b@.len() {
                a@.len()
            } else {
                b@.len()
            },
            va == vals_of(a.deep_view()),
            vb == vals_of(b.deep_view()),
            va.len() == a@.len() && vb.len() == b@.len(),
            empty@.len() == 0,
            values_newer(va, vb) == values_newer(
                skip_or_empty(va, i as int),
                skip_or_empty(vb, i as int),
            ),
        decreases n - i,
    {
        let sa = if i < a.len() {
            &a[i]
        } else {
            &empty
        };
        let sb = if i < b.len() {
            &b[i]
        } else {
            &empty
        };
        proof {
            if i < a.len() {
                assert(a.deep_view()[i as int] == a@[i as int]@);
            }
            if i < b.len() {
                assert(b.deep_view()[i as int] == b@[i as int]@);
            }
            lemma_skip_step(va, i as int);
            lemma_skip_step(vb, i as int);
        }
        match cmp_seg(sa, sb) {
            SegOrder::Gt => {
                return true;
            },
            SegOrder::Lt => {
                return false;
            },
            SegOrder::Eq => {
                i = i + 1;
            },
        }
    }
    assert(skip_or_empty(va, i as int) =~= Seq::<nat>::empty());
    assert(skip_or_empty(vb, i as int) =~= Seq::<nat>::empty());
    false
}

/// Compares two version strings, given as character vectors.
fn chars_version_newer(latest: &Vec<char>, current: &Vec<char>) -> (newer: bool)
    ensures
        newer == version_newer(latest@, current@),
{
    let ls = version_segments(latest);
    let cs = version_segments(current);
    cmp_components(&ls, &cs)
}

/// `latest` reads as strictly newer than `current` under the
/// component-wise rule.
pub fn is_version_newer(latest: &str, current: &str) -> (newer: bool)
    ensures
        newer == version_newer(latest@, current@),
{
    let lc = to_chars(latest);
    let cc = to_chars(current);
    chars_version_newer(&lc, &cc)
}

} // verus!
