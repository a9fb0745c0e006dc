//! URL discovery in free text.
//!
//! A URL match is `http://` or `https://` followed by a non-empty run of
//! path-safe characters (alphanumerics and `._/%+()-`), optionally followed
//! by `?` and a run of query characters (the path set plus `=` and `&`).
//! This is a recall-favouring heuristic, not the full URL grammar: matches
//! are found left to right, without overlap, duplicates preserved.
//!
//! Each match is then normalized: a trailing run of sentence punctuation
//! (`. , ; ! ? ] }`) is stripped, and a trailing `)` is stripped only when
//! the parentheses inside the match do not balance, so a Wikipedia-style
//! path ending in `)` survives while a sentence's closing parenthesis does
//! not.

use vstd::prelude::*;

use crate::chars::from_chars;
use crate::chars::str_views;
use crate::chars::subvec;
use crate::chars::to_chars;

verus! {

/// Characters allowed in the path part of a URL match.
pub open spec fn is_url_char(c: char) -> bool {
    ||| ('a' <= c && c <= 'z')
    ||| ('A' <= c && c <= 'Z')
    ||| ('0' <= c && c <= '9')
    ||| c == '.'
    ||| c == '_'
    ||| c == '/'
    ||| c == '%'
    ||| c == '+'
    ||| c == '('
    ||| c == ')'
    ||| c == '-'
}

/// Characters allowed in the query part of a URL match.
pub open spec fn is_query_char(c: char) -> bool {
    is_url_char(c) || c == '=' || c == '&'
}

/// `http://` occurs at index `i` of `t`.
pub open spec fn http_at(t: Seq<char>, i: int) -> bool {
    &&& i + 7 <= t.len()
    &&& t[i] == 'h'
    &&& t[i + 1] == 't'
    &&& t[i + 2] == 't'
    &&& t[i + 3] == 'p'
    &&& t[i + 4] == ':'
    &&& t[i + 5] == '/'
    &&& t[i + 6] == '/'
}

/// `https://` occurs at index `i` of `t`.
pub open spec fn https_at(t: Seq<char>, i: int) -> bool {
    &&& i + 8 <= t.len()
    &&& t[i] == 'h'
    &&& t[i + 1] == 't'
    &&& t[i + 2] == 't'
    &&& t[i + 3] == 'p'
    &&& t[i + 4] == 's'
    &&& t[i + 5] == ':'
    &&& t[i + 6] == '/'
    &&& t[i + 7] == '/'
}

/// Length of the scheme prefix of a match starting at `i`, if one starts
/// there.
pub open spec fn scheme_len_at(t: Seq<char>, i: int) -> Option<int> {
    if https_at(t, i) {
        Some(8int)
    } else if http_at(t, i) {
        Some(7int)
    } else {
        None
    }
}

/// Length of the run of path characters starting at `i`.
pub open spec fn url_run(t: Seq<char>, i: int) -> int
    decreases t.len() - i,
{
    if 0 <= i < t.len() && is_url_char(t[i]) {
        1 + url_run(t, i + 1)
    } else {
        0
    }
}

/// Length of the run of query characters starting at `i`.
pub open spec fn query_run(t: Seq<char>, i: int) -> int
    decreases t.len() - i,
{
    if 0 <= i < t.len() && is_query_char(t[i]) {
        1 + query_run(t, i + 1)
    } else {
        0
    }
}

/// Length of the URL match starting at index `i`, if one starts there: a
/// scheme, at least one path character, and an optional `?`-led query.
pub open spec fn match_len_at(t: Seq<char>, i: int) -> Option<int> {
    match scheme_len_at(t, i) {
        None => None,
        Some(s) => {
            let m = url_run(t, i + s);
            if m == 0 {
                None
            } else {
                let e = i + s + m;
                if e < t.len() && t[e] == '?' {
                    Some(s + m + 1 + query_run(t, e + 1))
                } else {
                    Some(s + m)
                }
            }
        },
    }
}

proof fn lemma_url_run_bounds(t: Seq<char>, i: int)
    requires
        0 <= i <= t.len(),
    ensures
        0 <= url_run(t, i) <= t.len() - i,
    decreases t.len() - i,
{
    if i < t.len() && is_url_char(t[i]) {
        lemma_url_run_bounds(t, i + 1);
    }
}

proof fn lemma_query_run_bounds(t: Seq<char>, i: int)
    requires
        0 <= i <= t.len(),
    ensures
        0 <= query_run(t, i) <= t.len() - i,
    decreases t.len() - i,
{
    if i < t.len() && is_query_char(t[i]) {
        lemma_query_run_bounds(t, i + 1);
    }
}

proof fn lemma_match_len_bounds(t: Seq<char>, i: int)
    requires
        0 <= i <= t.len(),
    ensures
        match match_len_at(t, i) {
            Some(l) => 7 <= l && i + l <= t.len(),
            None => true,
        },
{
    if scheme_len_at(t, i) is Some {
        let s = scheme_len_at(t, i)->0;
        lemma_url_run_bounds(t, i + s);
        let m = url_run(t, i + s);
        if m != 0 && i + s + m < t.len() && t[i + s + m] == '?' {
            lemma_query_run_bounds(t, i + s + m + 1);
        }
    }
}

/// Number of occurrences of `c` in `s` at or after index `i`.
pub open spec fn count_char_from(s: Seq<char>, c: char, i: int) -> int
    decreases s.len() - i,
{
    if 0 <= i < s.len() {
        (if s[i] == c {
            1int
        } else {
            0int
        }) + count_char_from(s, c, i + 1)
    } else {
        0
    }
}

/// The parentheses of `s` balance by count.
pub open spec fn parens_balanced(s: Seq<char>) -> bool {
    count_char_from(s, '(', 0) == count_char_from(s, ')', 0)
}

/// Punctuation stripped from the end of a match; `)` only when the match's
/// parentheses do not balance.
pub open spec fn is_trim_punct(c: char, strip_paren: bool) -> bool {
    ||| c == '.'
    ||| c == ','
    ||| c == ';'
    ||| c == '!'
    ||| c == '?'
    ||| c == ']'
    ||| c == '}'
    ||| (strip_paren && c == ')')
}

/// Length of the punctuation run ending just before index `j`.
pub open spec fn punct_run_back(s: Seq<char>, j: int, strip_paren: bool) -> int
    decreases j,
{
    if 0 < j <= s.len() && is_trim_punct(s[j - 1], strip_paren) {
        1 + punct_run_back(s, j - 1, strip_paren)
    } else {
        0
    }
}

/// A matched URL with its trailing punctuation stripped.
pub open spec fn normalize_url(s: Seq<char>) -> Seq<char> {
    let strip_paren = !parens_balanced(s);
    s.take(s.len() - punct_run_back(s, s.len() as int, strip_paren))
}

/// The normalized URLs of all matches of `t` at or after index `i`, in
/// match order.
pub open spec fn url_matches_from(t: Seq<char>, i: int) -> Seq<Seq<char>>
    decreases t.len() - i,
    via url_matches_from_decreases
{
    if 0 <= i < t.len() {
        match match_len_at(t, i) {
            Some(l) => seq![normalize_url(t.subrange(i, i + l))] + url_matches_from(t, i + l),
            None => url_matches_from(t, i + 1),
        }
    } else {
        Seq::empty()
    }
}

#[via_fn]
proof fn url_matches_from_decreases(t: Seq<char>, i: int) {
    if 0 <= i < t.len() {
        lemma_match_len_bounds(t, i);
    }
}

/// The normalized URLs found in `t`, in order of their first character,
/// duplicates preserved.
pub open spec fn extracted_urls(t: Seq<char>) -> Seq<Seq<char>> {
    url_matches_from(t, 0)
}

proof fn lemma_count_zero(s: Seq<char>, c: char, i: int)
    requires
        0 <= i <= s.len(),
        forall|k: int| i <= k < s.len() ==> s[k] != c,
    ensures
        count_char_from(s, c, i) == 0,
    decreases s.len() - i,
{
    if i < s.len() {
        lemma_count_zero(s, c, i + 1);
    }
}

proof fn lemma_count_take(s: Seq<char>, c: char, m: int, i: int)
    requires
        0 <= i <= m <= s.len(),
        forall|k: int| m <= k < s.len() ==> s[k] != c,
    ensures
        count_char_from(s, c, i) == count_char_from(s.take(m), c, i),
    decreases m - i,
{
    if i == m {
        lemma_count_zero(s, c, i);
    } else {
        lemma_count_take(s, c, m, i + 1);
    }
}

proof fn lemma_punct_run_shape(s: Seq<char>, j: int, strip_paren: bool)
    requires
        0 <= j <= s.len(),
    ensures
        0 <= punct_run_back(s, j, strip_paren) <= j,
        j - punct_run_back(s, j, strip_paren) > 0 ==> !is_trim_punct(
            s[j - punct_run_back(s, j, strip_paren) - 1],
            strip_paren,
        ),
        forall|k: int|
            j - punct_run_back(s, j, strip_paren) <= k < j ==> is_trim_punct(
                #[trigger] s[k],
                strip_paren,
            ),
    decreases j,
{
    if 0 < j && is_trim_punct(s[j - 1], strip_paren) {
        lemma_punct_run_shape(s, j - 1, strip_paren);
    }
}

proof fn lemma_punct_run_at(s: Seq<char>, j: int, t: int, strip_paren: bool)
    requires
        0 <= t <= j <= s.len(),
        forall|k: int| t <= k < j ==> is_trim_punct(#[trigger] s[k], strip_paren),
        t == 0 || !is_trim_punct(s[t - 1], strip_paren),
    ensures
        punct_run_back(s, j, strip_paren) == j - t,
    decreases j - t,
{
    if t < j {
        lemma_punct_run_at(s, j - 1, t, strip_paren);
    }
}

/// Normalization is idempotent: stripping a second time changes nothing.
pub proof fn lemma_normalize_idempotent(s: Seq<char>)
    ensures
        normalize_url(normalize_url(s)) == normalize_url(s),
{
    let sp = !parens_balanced(s);
    let k = punct_run_back(s, s.len() as int, sp);
    lemma_punct_run_shape(s, s.len() as int, sp);
    let r = s.take(s.len() - k);
    assert(r == normalize_url(s));
    let sp2 = !parens_balanced(r);
    if !sp {
        // The stripped characters are never parentheses, so the result
        // stays balanced.
        assert(forall|kk: int|
            s.len() - k <= kk < s.len() ==> #[trigger] s[kk] != '(' && s[kk] != ')');
        lemma_count_take(s, '(', s.len() - k, 0);
        lemma_count_take(s, ')', s.len() - k, 0);
        assert(!sp2);
    }
    if r.len() > 0 {
        assert(r.last() == s[s.len() - k - 1]);
        assert(!is_trim_punct(r.last(), sp));
        // Whatever the new balance, the stripped set is no larger.
        assert(!is_trim_punct(r.last(), sp2));
    }
    assert(punct_run_back(r, r.len() as int, sp2) == 0) by {
        if r.len() > 0 {
            lemma_punct_run_at(r, r.len() as int, r.len() as int, sp2);
        }
    }
    assert(normalize_url(r) =~= r);
}

fn is_url_char_exec(c: char) -> (r: bool)
    ensures
        r == is_url_char(c),
{
    ('a' <= c && c <= 'z') || ('A' <= c && c <= 'Z') || ('0' <= c && c <= '9') || c == '.' || c
        == '_' || c == '/' || c == '%' || c == '+' || c == '(' || c == ')' || c == '-'
}

fn is_query_char_exec(c: char) -> (r: bool)
    ensures
        r == is_query_char(c),
{
    is_url_char_exec(c) || c == '=' || c == '&'
}

fn is_trim_punct_exec(c: char, strip_paren: bool) -> (r: bool)
    ensures
        r == is_trim_punct(c, strip_paren),
{
    c == '.' || c == ',' || c == ';' || c == '!' || c == '?' || c == ']' || c == '}' || (
    strip_paren && c == ')')
}

fn count_char_exec(v: &Vec<char>, c: char) -> (r: usize)
    ensures
        r == count_char_from(v@, c, 0),
{
    let mut acc: usize = 0;
    let mut i: usize = 0;
    while i < v.len()
        invariant
            i <= v.len(),
            acc <= i,
            acc + count_char_from(v@, c, i as int) == count_char_from(v@, c, 0),
        decreases v.len() - i,
    {
        if v[i] == c {
            acc += 1;
        }
        i += 1;
    }
    acc
}

/// Strips the trailing punctuation of one match, per the normalization
/// rule.
fn normalize_chars(v: &Vec<char>) -> (r: Vec<char>)
    ensures
        r@ == normalize_url(v@),
{
    let opens = count_char_exec(v, '(');
    let closes = count_char_exec(v, ')');
    let strip_paren = opens != closes;
    let n = v.len();
    let mut t: usize = n;
    while t > 0 && is_trim_punct_exec(v[t - 1], strip_paren)
        invariant
            t <= n == v@.len(),
            forall|k: int| t <= k < n ==> is_trim_punct(#[trigger] v@[k], strip_paren),
        decreases t,
    {
        t -= 1;
    }
    proof {
        lemma_punct_run_at(v@, n as int, t as int, strip_paren);
    }
    subvec(v, 0, t)
}

/// The URL found at `url`, normalized: trailing sentence punctuation
/// stripped, a trailing `)` stripped only when the parentheses inside do
/// not balance.
pub fn clean_url(url: &str) -> (r: String)
    ensures
        r@ == normalize_url(url@),
{
    let v = to_chars(url);
    let w = normalize_chars(&v);
    from_chars(&w)
}

/// Scans text for URL matches and returns them normalized, in match order.
pub fn extract_urls(text: &str) -> (r: Vec<String>)
    ensures
        str_views(r@) == extracted_urls(text@),
{
    let v = to_chars(text);
    let n = v.len();
    let mut r: Vec<String> = Vec::new();
    let mut i: usize = 0;
    proof {
        assert(str_views(r@) + url_matches_from(v@, 0) =~= url_matches_from(v@, 0));
    }
    while i < n
        invariant
            i <= n == v@.len(),
            v@ == text@,
            url_matches_from(v@, 0) == str_views(r@) + url_matches_from(v@, i as int),
        decreases n - i,
    {
        let ghost r0 = r@;
        let s: usize = if n - i >= 8 && v[i] == 'h' && v[i + 1] == 't' && v[i + 2] == 't' && v[i
            + 3] == 'p' && v[i + 4] == 's' && v[i + 5] == ':' && v[i + 6] == '/' && v[i + 7]
            == '/' {
            8
        } else if n - i >= 7 && v[i] == 'h' && v[i + 1] == 't' && v[i + 2] == 't' && v[i + 3]
            == 'p' && v[i + 4] == ':' && v[i + 5] == '/' && v[i + 6] == '/' {
            7
        } else {
            0
        };
        if s == 0 {
            proof {
                assert(scheme_len_at(v@, i as int) is None);
                assert(url_matches_from(v@, i as int) == url_matches_from(v@, i as int + 1));
            }
            i += 1;
        } else {
            proof {
                assert(scheme_len_at(v@, i as int) == Some(s as int));
            }
            let mut j: usize = i + s;
            while j < n && is_url_char_exec(v[j])
                invariant
                    i + s <= j <= n == v@.len(),
                    forall|k: int| i + s <= k < j ==> is_url_char(#[trigger] v@[k]),
                decreases n - j,
            {
                j += 1;
            }
            proof {
                lemma_run_at(v@, i as int + s as int, j as int);
            }
            if j == i + s {
                proof {
                    assert(match_len_at(v@, i as int) is None);
                    assert(url_matches_from(v@, i as int) == url_matches_from(v@, i as int + 1));
                }
                i += 1;
            } else {
                let mut e: usize = j;
                if e < n && v[e] == '?' {
                    e += 1;
                    while e < n && is_query_char_exec(v[e])
                        invariant
                            j + 1 <= e <= n == v@.len(),
                            forall|k: int| j + 1 <= k < e ==> is_query_char(#[trigger] v@[k]),
                        decreases n - e,
                    {
                        e += 1;
                    }
                    proof {
                        lemma_query_run_at(v@, j as int + 1, e as int);
                    }
                }
                proof {
                    assert(match_len_at(v@, i as int) == Some(e as int - i as int));
                }
                let piece = subvec(&v, i, e);
                let norm = normalize_chars(&piece);
                let url = from_chars(&norm);
                r.push(url);
                proof {
                    assert(str_views(r@) =~= str_views(r0) + seq![norm@]);
                    assert(url_matches_from(v@, i as int) == seq![
                        normalize_url(v@.subrange(i as int, e as int)),
                    ] + url_matches_from(v@, e as int));
                    assert(str_views(r@) + url_matches_from(v@, e as int) =~= str_views(r0)
                        + url_matches_from(v@, i as int));
                }
                i = e;
            }
        }
    }
    proof {
        assert(url_matches_from(v@, i as int) =~= Seq::<Seq<char>>::empty());
        assert(str_views(r@) + url_matches_from(v@, i as int) =~= str_views(r@));
    }
    r
}

/// Every URL the scanner returns is already normalized: stripping its
/// trailing punctuation a second time changes nothing.
pub proof fn lemma_extracted_urls_normalized(t: Seq<char>)
    ensures
        forall|i: int|
            0 <= i < extracted_urls(t).len() ==> normalize_url(
                #[trigger] extracted_urls(t)[i],
            ) == extracted_urls(t)[i],
{
    lemma_matches_normalized(t, 0);
}

proof fn lemma_matches_normalized(t: Seq<char>, j: int)
    requires
        0 <= j <= t.len(),
    ensures
        forall|i: int|
            0 <= i < url_matches_from(t, j).len() ==> normalize_url(
                #[trigger] url_matches_from(t, j)[i],
            ) == url_matches_from(t, j)[i],
    decreases t.len() - j,
{
    if j < t.len() {
        match match_len_at(t, j) {
            Some(l) => {
                lemma_match_len_bounds(t, j);
                lemma_matches_normalized(t, j + l);
                let head = normalize_url(t.subrange(j, j + l));
                lemma_normalize_idempotent(t.subrange(j, j + l));
                let rest = url_matches_from(t, j + l);
                assert(url_matches_from(t, j) == seq![head] + rest);
                assert forall|i: int|
                    0 <= i < url_matches_from(t, j).len() implies normalize_url(
                    #[trigger] url_matches_from(t, j)[i],
                ) == url_matches_from(t, j)[i] by {
                    if i == 0 {
                        assert(url_matches_from(t, j)[0] == head);
                        assert(normalize_url(head) == head);
                    } else {
                        assert(url_matches_from(t, j)[i] == rest[i - 1]);
                        assert(normalize_url(rest[i - 1]) == rest[i - 1]);
                    }
                }
            },
            None => {
                lemma_matches_normalized(t, j + 1);
                assert(url_matches_from(t, j) == url_matches_from(t, j + 1));
            },
        }
    } else {
        assert(url_matches_from(t, j) =~= Seq::<Seq<char>>::empty());
    }
}

/// No URL scheme starts at index `i` of `t`.
pub open spec fn no_scheme_at(t: Seq<char>, i: int) -> bool {
    !http_at(t, i) && !https_at(t, i)
}

/// A text in which no scheme prefix occurs holds no URLs at all: the
/// absence of links is an ordinary empty result, not an error.
pub proof fn lemma_no_scheme_no_urls(t: Seq<char>)
    requires
        forall|i: int| 0 <= i < t.len() ==> #[trigger] no_scheme_at(t, i),
    ensures
        extracted_urls(t) == Seq::<Seq<char>>::empty(),
{
    lemma_no_scheme_from(t, 0);
}

proof fn lemma_no_scheme_from(t: Seq<char>, i: int)
    requires
        0 <= i <= t.len(),
        forall|k: int| 0 <= k < t.len() ==> #[trigger] no_scheme_at(t, k),
    ensures
        url_matches_from(t, i) == Seq::<Seq<char>>::empty(),
    decreases t.len() - i,
{
    if i < t.len() {
        assert(no_scheme_at(t, i));
        assert(match_len_at(t, i) is None);
        lemma_no_scheme_from(t, i + 1);
    }
}

/// Component responsible for URL discovery in text; the fetching itself
/// is the caller's.
pub struct HttpClient {}

impl HttpClient {
    /// Creates a new `HttpClient` instance.
    pub fn new() -> (r: Self) {
        HttpClient {  }
    }

    /// The normalized URLs found in `text`, in match order, duplicates
    /// preserved.
    pub fn extract_urls(&self, text: &str) -> (r: Vec<String>)
        ensures
            str_views(r@) == extracted_urls(text@),
    {
        extract_urls(text)
    }
}

impl Default for HttpClient {
    fn default() -> Self {
        HttpClient {  }
    }
}

proof fn lemma_run_at(t: Seq<char>, a: int, j: int)
    requires
        0 <= a <= j <= t.len(),
        forall|k: int| a <= k < j ==> is_url_char(#[trigger] t[k]),
        j == t.len() || !is_url_char(t[j]),
    ensures
        url_run(t, a) == j - a,
    decreases j - a,
{
    if a < j {
        lemma_run_at(t, a + 1, j);
    }
}

proof fn lemma_query_run_at(t: Seq<char>, a: int, j: int)
    requires
        0 <= a <= j <= t.len(),
        forall|k: int| a <= k < j ==> is_query_char(#[trigger] t[k]),
        j == t.len() || !is_query_char(t[j]),
    ensures
        query_run(t, a) == j - a,
    decreases j - a,
{
    if a < j {
        lemma_query_run_at(t, a + 1, j);
    }
}

} // verus!
