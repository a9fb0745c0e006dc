//! Character-level utilities: conversions between strings and character
//! vectors, ASCII case folding, whitespace trimming, and small comparison
//! helpers.  Everything downstream of the HTML-to-Markdown conversion works
//! over `Vec<char>`, so these are the shared vocabulary of the cleaning pass.

use vstd::prelude::*;
use vstd::std_specs::iter::IteratorSpec;
use vstd::string::StrSliceExecFns;

verus! {

broadcast use vstd::string::group_string_axioms;

/// The views of a vector of strings.
pub open spec fn str_views(rs: Seq<String>) -> Seq<Seq<char>> {
    rs.map_values(|s: String| s@)
}

/// The views of a vector of string slices.
pub open spec fn ref_views(rs: Seq<&str>) -> Seq<Seq<char>> {
    rs.map_values(|s: &str| s@)
}

/// The whitespace characters this library trims: space, tab, carriage
/// return and newline (the forms that survive the cleaning passes).
pub open spec fn is_space_char(c: char) -> bool {
    c == ' ' || c == '\t' || c == '\r' || c == '\n'
}

/// ASCII lowercase folding of one character; everything else is unchanged.
pub open spec fn lower_char(c: char) -> char {
    if 'A' <= c && c <= 'Z' {
        (((c as u8) + 32) as char)
    } else {
        c
    }
}

/// ASCII lowercase folding of a whole sequence.
pub open spec fn lower(s: Seq<char>) -> Seq<char> {
    s.map_values(|c: char| lower_char(c))
}

/// `p` is a prefix of `s`.
pub open spec fn has_prefix(s: Seq<char>, p: Seq<char>) -> bool {
    p.len() <= s.len() && s.subrange(0, p.len() as int) == p
}

/// Every character of `s` is whitespace.
pub open spec fn is_blank_spec(s: Seq<char>) -> bool {
    forall|i: int| 0 <= i < s.len() ==> is_space_char(#[trigger] s[i])
}

/// Length of the whitespace run of `s` that starts at index `i`.
pub open spec fn leading_spaces(s: Seq<char>, i: int) -> int
    decreases s.len() - i,
{
    if 0 <= i < s.len() && is_space_char(s[i]) {
        1 + leading_spaces(s, i + 1)
    } else {
        0
    }
}

/// Length of the whitespace run of `s` that ends just before index `j`.
pub open spec fn trailing_spaces(s: Seq<char>, j: int) -> int
    decreases j,
{
    if 0 < j <= s.len() && is_space_char(s[j - 1]) {
        1 + trailing_spaces(s, j - 1)
    } else {
        0
    }
}

/// `s` without its leading and trailing whitespace.
pub open spec fn trim_spec(s: Seq<char>) -> Seq<char> {
    let h = leading_spaces(s, 0);
    if h == s.len() {
        Seq::empty()
    } else {
        s.subrange(h, s.len() - trailing_spaces(s, s.len() as int))
    }
}

proof fn lemma_leading_at(s: Seq<char>, a: int, i: int)
    requires
        0 <= a <= i <= s.len(),
        forall|k: int| a <= k < i ==> is_space_char(#[trigger] s[k]),
        i == s.len() || !is_space_char(s[i]),
    ensures
        leading_spaces(s, a) == i - a,
    decreases i - a,
{
    if a < i {
        lemma_leading_at(s, a + 1, i);
    }
}

proof fn lemma_trailing_at(s: Seq<char>, j: int, t: int)
    requires
        0 <= t <= j <= s.len(),
        forall|k: int| t <= k < j ==> is_space_char(#[trigger] s[k]),
        t == 0 || !is_space_char(s[t - 1]),
    ensures
        trailing_spaces(s, j) == j - t,
    decreases j - t,
{
    if t < j {
        lemma_trailing_at(s, j - 1, t);
    }
}

proof fn lemma_leading_shape(s: Seq<char>, i: int)
    requires
        0 <= i <= s.len(),
    ensures
        0 <= leading_spaces(s, i) <= s.len() - i,
        forall|k: int| i <= k < i + leading_spaces(s, i) ==> is_space_char(#[trigger] s[k]),
        i + leading_spaces(s, i) < s.len() ==> !is_space_char(s[i + leading_spaces(s, i)]),
    decreases s.len() - i,
{
    if i < s.len() && is_space_char(s[i]) {
        lemma_leading_shape(s, i + 1);
    }
}

proof fn lemma_trailing_shape(s: Seq<char>, j: int)
    requires
        0 <= j <= s.len(),
    ensures
        0 <= trailing_spaces(s, j) <= j,
        forall|k: int| j - trailing_spaces(s, j) <= k < j ==> is_space_char(#[trigger] s[k]),
        j - trailing_spaces(s, j) > 0 ==> !is_space_char(s[j - trailing_spaces(s, j) - 1]),
    decreases j,
{
    if 0 < j && is_space_char(s[j - 1]) {
        lemma_trailing_shape(s, j - 1);
    }
}

/// Trimming is idempotent: trimming an already trimmed text changes
/// nothing.
pub proof fn lemma_trim_idempotent(s: Seq<char>)
    ensures
        trim_spec(trim_spec(s)) == trim_spec(s),
{
    lemma_leading_shape(s, 0);
    let h = leading_spaces(s, 0);
    if h == s.len() {
        assert(trim_spec(s) =~= Seq::<char>::empty());
        assert(trim_spec(trim_spec(s)) =~= Seq::<char>::empty());
    } else {
        lemma_trailing_shape(s, s.len() as int);
        let tk = trailing_spaces(s, s.len() as int);
        // The trailing run cannot reach past the non-space character at h.
        assert(s.len() - tk > h) by {
            if s.len() - tk <= h {
                assert(is_space_char(s[h]));
            }
        }
        let t = trim_spec(s);
        assert(t == s.subrange(h, s.len() - tk));
        assert(!is_space_char(t[0]));
        assert(!is_space_char(t[t.len() - 1]));
        assert(leading_spaces(t, 0) == 0);
        assert(trailing_spaces(t, t.len() as int) == 0);
        assert(trim_spec(t) =~= t);
    }
}

/// Relies on `String::push`: appends the one character at the end of the
/// string.
#[verifier::external_body]
pub(crate) fn push_char(s: &mut String, c: char)
    ensures
        final(s)@ == old(s)@.push(c),
{
    s.push(c);
}

/// The characters of `s`, in order, as a vector.
pub fn to_chars(s: &str) -> (r: Vec<char>)
    ensures
        r@ == s@,
{
    let mut it = s.chars();
    let mut r: Vec<char> = Vec::new();
    loop
        invariant
            it.obeys_prophetic_iter_laws(),
            it.decrease() is Some,
            r@ + it.remaining() == s@,
        ensures
            r@ == s@,
        decreases it.decrease()->0,
    {
        let ghost prev = it.remaining();
        match it.next() {
            None => {
                proof {
                    assert(r@ + prev =~= r@);
                }
                break ;
            },
            Some(c) => {
                r.push(c);
                proof {
                    assert(r@ + it.remaining() =~= s@);
                }
            },
        }
    }
    r
}

/// The string spelled by the characters of `v`, in order.
pub fn from_chars(v: &Vec<char>) -> (r: String)
    ensures
        r@ == v@,
{
    let mut r = String::new();
    let mut i: usize = 0;
    while i < v.len()
        invariant
            i <= v.len(),
            r@ == v@.take(i as int),
        decreases v.len() - i,
    {
        push_char(&mut r, v[i]);
        proof {
            assert(v@.take(i as int).push(v@[i as int]) =~= v@.take(i + 1 as int));
        }
        i += 1;
    }
    proof {
        assert(v@.take(v@.len() as int) =~= v@);
    }
    r
}

/// A copy of `v[a..b]`.
pub fn subvec(v: &Vec<char>, a: usize, b: usize) -> (r: Vec<char>)
    requires
        a <= b <= v@.len(),
    ensures
        r@ == v@.subrange(a as int, b as int),
{
    let mut r: Vec<char> = Vec::new();
    let mut i: usize = a;
    while i < b
        invariant
            a <= i <= b <= v@.len(),
            r@ == v@.subrange(a as int, i as int),
        decreases b - i,
    {
        r.push(v[i]);
        proof {
            assert(v@.subrange(a as int, i as int).push(v@[i as int]) =~= v@.subrange(
                a as int,
                i + 1 as int,
            ));
        }
        i += 1;
    }
    r
}

fn is_space_exec(c: char) -> (r: bool)
    ensures
        r == is_space_char(c),
{
    c == ' ' || c == '\t' || c == '\r' || c == '\n'
}

/// ASCII-lowercases every character of `v`.
pub fn to_lower(v: &Vec<char>) -> (r: Vec<char>)
    ensures
        r@ == lower(v@),
{
    let mut r: Vec<char> = Vec::new();
    let mut i: usize = 0;
    while i < v.len()
        invariant
            i <= v.len(),
            r@ == lower(v@.take(i as int)),
        decreases v.len() - i,
    {
        let c = v[i];
        let lc = if 'A' <= c && c <= 'Z' {
            ((c as u8) + 32) as char
        } else {
            c
        };
        r.push(lc);
        proof {
            assert(lower(v@.take(i + 1 as int)) =~= lower(v@.take(i as int)).push(
                lower_char(v@[i as int]),
            ));
        }
        i += 1;
    }
    proof {
        assert(v@.take(v@.len() as int) =~= v@);
    }
    r
}

/// Whether every character of `v` is whitespace.
pub fn is_blank(v: &Vec<char>) -> (r: bool)
    ensures
        r == is_blank_spec(v@),
{
    let mut i: usize = 0;
    while i < v.len()
        invariant
            i <= v.len(),
            forall|k: int| 0 <= k < i ==> is_space_char(#[trigger] v@[k]),
        decreases v.len() - i,
    {
        if !is_space_exec(v[i]) {
            return false;
        }
        i += 1;
    }
    true
}

/// `v` without its leading and trailing whitespace.
pub fn trim(v: &Vec<char>) -> (r: Vec<char>)
    ensures
        r@ == trim_spec(v@),
{
    let n = v.len();
    let mut h: usize = 0;
    while h < n && is_space_exec(v[h])
        invariant
            h <= n == v@.len(),
            forall|k: int| 0 <= k < h ==> is_space_char(#[trigger] v@[k]),
        decreases n - h,
    {
        h += 1;
    }
    proof {
        lemma_leading_at(v@, 0, h as int);
    }
    if h == n {
        return Vec::new();
    }
    let mut t: usize = n;
    while t > h + 1 && is_space_exec(v[t - 1])
        invariant
            h < t <= n == v@.len(),
            forall|k: int| t <= k < n ==> is_space_char(#[trigger] v@[k]),
        decreases t,
    {
        t -= 1;
    }
    proof {
        lemma_trailing_at(v@, n as int, t as int);
    }
    subvec(v, h, t)
}

/// Whether `v` spells exactly the literal `lit`.
pub fn eq_lit(v: &Vec<char>, lit: &str) -> (r: bool)
    ensures
        r == (v@ == lit@),
{
    let n = lit.unicode_len();
    if v.len() != n {
        return false;
    }
    let mut i: usize = 0;
    while i < n
        invariant
            i <= n == v@.len(),
            lit@.len() == n,
            forall|k: int| 0 <= k < i ==> v@[k] == lit@[k],
        decreases n - i,
    {
        if v[i] != lit.get_char(i) {
            return false;
        }
        i += 1;
    }
    proof {
        assert(v@ =~= lit@);
    }
    true
}

/// Whether `v` starts with the literal `lit`.
pub fn starts_with_lit(v: &Vec<char>, lit: &str) -> (r: bool)
    ensures
        r == has_prefix(v@, lit@),
{
    let n = lit.unicode_len();
    if v.len() < n {
        return false;
    }
    let mut i: usize = 0;
    while i < n
        invariant
            i <= n <= v@.len(),
            lit@.len() == n,
            forall|k: int| 0 <= k < i ==> v@[k] == lit@[k],
        decreases n - i,
    {
        if v[i] != lit.get_char(i) {
            proof {
                assert(v@.subrange(0, n as int)[i as int] != lit@[i as int]);
            }
            return false;
        }
        i += 1;
    }
    proof {
        assert(v@.subrange(0, n as int) =~= lit@);
    }
    true
}

/// Whether `v` contains the character `c`.
pub fn contains_char(v: &Vec<char>, c: char) -> (r: bool)
    ensures
        r == v@.contains(c),
{
    let mut i: usize = 0;
    while i < v.len()
        invariant
            i <= v.len(),
            forall|k: int| 0 <= k < i ==> v@[k] != c,
        decreases v.len() - i,
    {
        if v[i] == c {
            return true;
        }
        i += 1;
    }
    false
}

} // verus!
