//! Line-level cleanup of converted Markdown: splitting a document into
//! lines, dropping lines that look like navigation or metadata rather than
//! prose, and joining the survivors back together.

use vstd::prelude::*;

use crate::chars::contains_char;
use crate::chars::eq_lit;
use crate::chars::has_prefix;
use crate::chars::lower;
use crate::chars::starts_with_lit;
use crate::chars::subvec;
use crate::chars::to_lower;
use crate::chars::trim;
use crate::chars::trim_spec;

verus! {

/// Single words that mark a line as site navigation when they stand alone.
pub open spec fn is_nav_term(w: Seq<char>) -> bool {
    ||| w == "home"@
    ||| w == "about"@
    ||| w == "contact"@
    ||| w == "menu"@
    ||| w == "search"@
    ||| w == "login"@
    ||| w == "register"@
    ||| w == "subscribe"@
    ||| w == "share"@
    ||| w == "follow"@
    ||| w == "back"@
    ||| w == "next"@
    ||| w == "prev"@
    ||| w == "more"@
    ||| w == "advertisement"@
    ||| w == "ads"@
    ||| w == "sponsored"@
    ||| w == "cookie"@
    ||| w == "privacy"@
    ||| w == "terms"@
}

/// Lines that are dropped when they consist of exactly this word.
pub open spec fn is_structural_term(w: Seq<char>) -> bool {
    ||| w == "menu"@
    ||| w == "navigation"@
    ||| w == "nav"@
    ||| w == "footer"@
    ||| w == "header"@
    ||| w == "sidebar"@
}

/// Whether a line of converted Markdown is kept by the cleanup pass.
///
/// Heading lines and blank lines are always kept; lines of a single
/// character are dropped; a single word is dropped only when it is a known
/// navigation term; lines starting with `http`, containing `@`, or equal to
/// a structural term are dropped; everything else is kept.
pub open spec fn keep_line(line: Seq<char>) -> bool {
    let t = trim_spec(line);
    if t.len() > 0 && t[0] == '#' {
        true
    } else if t.len() == 0 {
        true
    } else if t.len() < 2 {
        false
    } else {
        let lo = lower(t);
        if !t.contains(' ') && is_nav_term(lo) {
            false
        } else if has_prefix(lo, "http"@) || lo.contains('@') || is_structural_term(lo) {
            false
        } else {
            true
        }
    }
}

/// The subsequence of `ls` whose lines are kept.
pub open spec fn kept_lines(ls: Seq<Seq<char>>) -> Seq<Seq<char>>
    decreases ls.len(),
{
    if ls.len() == 0 {
        Seq::empty()
    } else if keep_line(ls.first()) {
        seq![ls.first()] + kept_lines(ls.drop_first())
    } else {
        kept_lines(ls.drop_first())
    }
}

/// Every line of `kept_lines(ls)` satisfies `keep_line`.
proof fn lemma_kept_lines_all_kept(ls: Seq<Seq<char>>)
    ensures
        forall|i: int|
            0 <= i < kept_lines(ls).len() ==> keep_line(#[trigger] kept_lines(ls)[i]),
    decreases ls.len(),
{
    if ls.len() > 0 {
        lemma_kept_lines_all_kept(ls.drop_first());
        let rest = kept_lines(ls.drop_first());
        if keep_line(ls.first()) {
            assert forall|i: int|
                0 <= i < kept_lines(ls).len() implies keep_line(
                #[trigger] kept_lines(ls)[i],
            ) by {
                if i > 0 {
                    assert(kept_lines(ls)[i] == rest[i - 1]);
                }
            }
        }
    }
}

/// If every line of `ls` is kept, the filter leaves `ls` unchanged.
proof fn lemma_kept_lines_of_kept(ls: Seq<Seq<char>>)
    requires
        forall|i: int| 0 <= i < ls.len() ==> keep_line(#[trigger] ls[i]),
    ensures
        kept_lines(ls) == ls,
    decreases ls.len(),
{
    if ls.len() > 0 {
        assert(keep_line(ls.first()));
        lemma_kept_lines_of_kept(ls.drop_first());
        assert(seq![ls.first()] + ls.drop_first() =~= ls);
    } else {
        assert(kept_lines(ls) =~= ls);
    }
}

/// The line filter is idempotent: filtering already filtered lines changes
/// nothing.  This is the part of the cleaning pass whose stability is
/// provable without reference to the text substitutions around it.
pub proof fn lemma_kept_lines_idempotent(ls: Seq<Seq<char>>)
    ensures
        kept_lines(kept_lines(ls)) == kept_lines(ls),
{
    lemma_kept_lines_all_kept(ls);
    lemma_kept_lines_of_kept(kept_lines(ls));
}

/// Index of the first newline at or after `i`, or the length of `s`.
pub open spec fn line_end(s: Seq<char>, i: int) -> int
    decreases s.len() - i,
{
    if 0 <= i < s.len() {
        if s[i] == '\n' {
            i
        } else {
            line_end(s, i + 1)
        }
    } else {
        s.len() as int
    }
}

proof fn lemma_line_end_bounds(s: Seq<char>, i: int)
    requires
        0 <= i <= s.len(),
    ensures
        i <= line_end(s, i) <= s.len(),
        line_end(s, i) < s.len() ==> s[line_end(s, i)] == '\n',
        forall|k: int| i <= k < line_end(s, i) ==> s[k] != '\n',
    decreases s.len() - i,
{
    if i < s.len() && s[i] != '\n' {
        lemma_line_end_bounds(s, i + 1);
    }
}

proof fn lemma_line_end_at(s: Seq<char>, a: int, j: int)
    requires
        0 <= a <= j <= s.len(),
        forall|k: int| a <= k < j ==> s[k] != '\n',
        j == s.len() || s[j] == '\n',
    ensures
        line_end(s, a) == j,
    decreases j - a,
{
    if a < j {
        lemma_line_end_at(s, a + 1, j);
    }
}

/// A line without its trailing carriage return, if it has one.
pub open spec fn strip_cr(l: Seq<char>) -> Seq<char> {
    if l.len() > 0 && l.last() == '\r' {
        l.drop_last()
    } else {
        l
    }
}

/// The lines of `s`, split at newlines, each without a trailing carriage
/// return; a final newline does not open an empty last line.
pub open spec fn split_lines_spec(s: Seq<char>) -> Seq<Seq<char>>
    decreases s.len(),
    via split_lines_spec_decreases
{
    if s.len() == 0 {
        Seq::empty()
    } else {
        let j = line_end(s, 0);
        if j == s.len() {
            seq![strip_cr(s.take(j))]
        } else {
            seq![strip_cr(s.take(j))] + split_lines_spec(s.skip(j + 1))
        }
    }
}

#[via_fn]
proof fn split_lines_spec_decreases(s: Seq<char>) {
    if s.len() > 0 {
        lemma_line_end_bounds(s, 0);
    }
}

/// The lines from index `i` on, joined with single newlines between
/// them.
pub open spec fn join_from(ls: Seq<Seq<char>>, i: int) -> Seq<char>
    decreases ls.len() - i,
{
    if 0 <= i < ls.len() {
        if i == ls.len() - 1 {
            ls[i]
        } else {
            ls[i] + seq!['\n'] + join_from(ls, i + 1)
        }
    } else {
        Seq::empty()
    }
}

pub open spec fn join_lines_spec(ls: Seq<Seq<char>>) -> Seq<char> {
    join_from(ls, 0)
}

/// The views of a vector of character vectors.
pub open spec fn views(ls: Seq<Vec<char>>) -> Seq<Seq<char>> {
    ls.map_values(|l: Vec<char>| l@)
}

/// Splits `v` into its lines.
pub fn split_lines(v: &Vec<char>) -> (r: Vec<Vec<char>>)
    ensures
        views(r@) == split_lines_spec(v@),
{
    let n = v.len();
    let mut r: Vec<Vec<char>> = Vec::new();
    let mut pos: usize = 0;
    proof {
        assert(v@.skip(0) =~= v@);
        assert(views(r@) + split_lines_spec(v@) =~= split_lines_spec(v@));
    }
    while pos < n
        invariant
            pos <= n == v@.len(),
            split_lines_spec(v@) == views(r@) + split_lines_spec(v@.skip(pos as int)),
        decreases n - pos,
    {
        let ghost p0 = pos as int;
        let ghost t = v@.skip(p0);
        let ghost r0 = r@;
        let mut j: usize = pos;
        while j < n && v[j] != '\n'
            invariant
                pos <= j <= n == v@.len(),
                forall|k: int| pos <= k < j ==> v@[k] != '\n',
            decreases n - j,
        {
            j += 1;
        }
        proof {
            assert forall|k: int| 0 <= k < j - p0 implies t[k] != '\n' by {
                assert(t[k] == v@[p0 + k]);
            }
            if (j as int) - p0 < t.len() {
                assert(t[j - p0] == v@[j as int]);
            }
            lemma_line_end_at(t, 0, j as int - p0);
        }
        let mut end: usize = j;
        if end > pos && v[end - 1] == '\r' {
            end -= 1;
        }
        let line = subvec(v, pos, end);
        proof {
            let piece = t.take(j as int - p0);
            assert(piece =~= v@.subrange(p0, j as int));
            assert(piece.len() > 0 ==> piece.last() == v@[j as int - 1]);
            if j as int > p0 && v@[j as int - 1] == '\r' {
                assert(piece.drop_last() =~= v@.subrange(p0, j as int - 1));
            }
            assert(line@ == strip_cr(piece));
        }
        r.push(line);
        proof {
            assert(views(r@) =~= views(r0) + seq![line@]);
            assert(t.len() > 0);
            assert(line_end(t, 0) == j as int - p0);
        }
        if j < n {
            proof {
                assert(split_lines_spec(t) == seq![line@] + split_lines_spec(
                    t.skip(j as int - p0 + 1),
                ));
                assert(t.skip(j as int - p0 + 1) =~= v@.skip(j as int + 1));
                assert(views(r0) + split_lines_spec(t) =~= (views(r0) + seq![line@])
                    + split_lines_spec(v@.skip(j as int + 1)));
            }
            pos = j + 1;
        } else {
            proof {
                assert(j as int - p0 == t.len());
                assert(split_lines_spec(t) == seq![line@]);
                assert(v@.skip(n as int) =~= Seq::<char>::empty());
                assert(views(r0) + split_lines_spec(t) =~= (views(r0) + seq![line@])
                    + split_lines_spec(v@.skip(n as int)));
            }
            pos = j;
        }
    }
    proof {
        assert(v@.skip(pos as int) =~= Seq::<char>::empty());
        assert(views(r@) + split_lines_spec(v@.skip(pos as int)) =~= views(r@));
    }
    r
}

/// Appends the characters of `src` to `out`.
pub fn extend_chars(out: &mut Vec<char>, src: &Vec<char>)
    ensures
        final(out)@ == old(out)@ + src@,
{
    let mut i: usize = 0;
    while i < src.len()
        invariant
            i <= src.len(),
            out@ == old(out)@ + src@.take(i as int),
        decreases src.len() - i,
    {
        out.push(src[i]);
        proof {
            assert(old(out)@ + src@.take(i as int + 1) =~= (old(out)@ + src@.take(i as int)).push(
                src@[i as int],
            ));
        }
        i += 1;
    }
    proof {
        assert(old(out)@ + src@.take(src@.len() as int) =~= old(out)@ + src@);
    }
}

/// Joins lines with single newlines.
pub fn join_lines(ls: &Vec<Vec<char>>) -> (r: Vec<char>)
    ensures
        r@ == join_lines_spec(views(ls@)),
{
    let ghost l = views(ls@);
    let mut r: Vec<char> = Vec::new();
    let mut i: usize = 0;
    while i < ls.len()
        invariant
            i <= ls.len(),
            l == views(ls@),
            l.len() == ls@.len(),
            join_from(l, 0) == r@ + join_from(l, i as int),
        decreases ls.len() - i,
    {
        extend_chars(&mut r, &ls[i]);
        proof {
            assert(l[i as int] == ls@[i as int]@);
        }
        if i + 1 < ls.len() {
            r.push('\n');
            proof {
                assert(join_from(l, i as int) == l[i as int] + seq!['\n'] + join_from(
                    l,
                    i as int + 1,
                ));
                assert((r@ + join_from(l, i + 1 as int)) =~= join_from(l, 0));
            }
        } else {
            proof {
                assert(join_from(l, i as int) == l[i as int]);
                assert((r@ + join_from(l, i + 1 as int)) =~= join_from(l, 0));
            }
        }
        i += 1;
    }
    proof {
        assert(r@ + join_from(l, i as int) =~= r@);
    }
    r
}

/// Whether one line is kept, executably.
pub fn keep_line_exec(line: &Vec<char>) -> (r: bool)
    ensures
        r == keep_line(line@),
{
    let t = trim(line);
    if t.len() > 0 && t[0] == '#' {
        return true;
    }
    if t.len() == 0 {
        return true;
    }
    if t.len() < 2 {
        return false;
    }
    let lo = to_lower(&t);
    if !contains_char(&t, ' ') {
        let nav = eq_lit(&lo, "home") || eq_lit(&lo, "about")
            || eq_lit(&lo, "contact") || eq_lit(&lo, "menu")
            || eq_lit(&lo, "search") || eq_lit(&lo, "login")
            || eq_lit(&lo, "register") || eq_lit(&lo, "subscribe")
            || eq_lit(&lo, "share") || eq_lit(&lo, "follow")
            || eq_lit(&lo, "back") || eq_lit(&lo, "next")
            || eq_lit(&lo, "prev") || eq_lit(&lo, "more")
            || eq_lit(&lo, "advertisement") || eq_lit(&lo, "ads")
            || eq_lit(&lo, "sponsored") || eq_lit(&lo, "cookie")
            || eq_lit(&lo, "privacy") || eq_lit(&lo, "terms");
        if nav {
            return false;
        }
    }
    if starts_with_lit(&lo, "http") {
        return false;
    }
    if contains_char(&lo, '@') {
        return false;
    }
    let structural = eq_lit(&lo, "menu") || eq_lit(&lo, "navigation")
        || eq_lit(&lo, "nav") || eq_lit(&lo, "footer")
        || eq_lit(&lo, "header") || eq_lit(&lo, "sidebar");
    if structural {
        return false;
    }
    true
}

/// Keeps exactly the lines that pass the cleanup filter, in order.
pub fn filter_lines(ls: &Vec<Vec<char>>) -> (r: Vec<Vec<char>>)
    ensures
        views(r@) == kept_lines(views(ls@)),
{
    let ghost l = views(ls@);
    let mut r: Vec<Vec<char>> = Vec::new();
    let mut i: usize = 0;
    proof {
        assert(l.skip(0) =~= l);
        assert(views(r@) + kept_lines(l) =~= kept_lines(l));
    }
    while i < ls.len()
        invariant
            i <= ls.len(),
            l == views(ls@),
            l.len() == ls@.len(),
            kept_lines(l) == views(r@) + kept_lines(l.skip(i as int)),
        decreases ls.len() - i,
    {
        let ghost rest = l.skip(i as int);
        proof {
            assert(rest.len() > 0);
            assert(rest.first() == l[i as int]);
            assert(rest.drop_first() =~= l.skip(i as int + 1));
            assert(l[i as int] == ls@[i as int]@);
        }
        if keep_line_exec(&ls[i]) {
            let line = crate::chars::subvec(&ls[i], 0, ls[i].len());
            proof {
                assert(line@ =~= ls@[i as int]@);
            }
            r.push(line);
            proof {
                assert(views(r@) =~= views(r@.drop_last()) + seq![line@]);
                assert(kept_lines(rest) == seq![rest.first()] + kept_lines(rest.drop_first()));
                assert(views(r@) + kept_lines(l.skip(i as int + 1)) =~= views(r@.drop_last())
                    + kept_lines(rest));
            }
        } else {
            proof {
                assert(kept_lines(rest) == kept_lines(rest.drop_first()));
            }
        }
        i += 1;
    }
    proof {
        assert(l.skip(i as int) =~= Seq::<Seq<char>>::empty());
        assert(views(r@) + kept_lines(l.skip(i as int)) =~= views(r@));
    }
    r
}

} // verus!
