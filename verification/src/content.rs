//! The content pipeline for one page: select the body, strip noise
//! elements, pick the main content, convert to Markdown, and clean the
//! Markdown.  The order of the passes is fixed; later passes assume the
//! noise the earlier ones remove is already gone.

use vstd::prelude::*;
use vstd::string::StringExecFns;

use crate::chars::from_chars;
use crate::chars::is_blank;
use crate::chars::is_blank_spec;
use crate::chars::push_char;
use crate::chars::ref_views;
use crate::chars::str_views;
use crate::chars::subvec;
use crate::chars::to_chars;
use crate::chars::trim;
use crate::chars::trim_spec;
use crate::lines::filter_lines;
use crate::lines::join_lines;
use crate::lines::join_lines_spec;
use crate::lines::keep_line_exec;
use crate::lines::kept_lines;
use crate::lines::split_lines;
use crate::lines::split_lines_spec;
use crate::outside::html_to_md;
use crate::outside::markdown_of;
use crate::outside::regex_replace_all;
use crate::outside::replaced;
use crate::outside::select_fragments;
use crate::outside::selected;
use crate::patterns::additional_cleanup;
use crate::patterns::additional_cleanup_list;
use crate::patterns::content_selector_list;
use crate::patterns::content_selectors;
use crate::patterns::media_elements;
use crate::patterns::media_pattern_list;
use crate::patterns::text_selector_list;
use crate::patterns::text_selectors;
use crate::patterns::unwanted_elements;
use crate::patterns::unwanted_pattern_list;
use crate::patterns::unwanted_text_list;
use crate::patterns::unwanted_text_patterns;

verus! {

/// The text after the patterns from index `k` on have been applied in
/// order, each replacing its matches with the empty string.
pub open spec fn strip_from(pats: Seq<Seq<char>>, k: int, s: Seq<char>) -> Seq<char>
    decreases pats.len() - k,
{
    if 0 <= k < pats.len() {
        strip_from(pats, k + 1, replaced(pats[k], ""@, s))
    } else {
        s
    }
}

/// The text after every pattern of the list has been applied in order.
pub open spec fn strip_all(pats: Seq<Seq<char>>, s: Seq<char>) -> Seq<char> {
    strip_from(pats, 0, s)
}

/// The fragments from index `m` on, each followed by a newline,
/// concatenated.
pub open spec fn fragments_joined_from(frags: Seq<Seq<char>>, m: int) -> Seq<char>
    decreases frags.len() - m,
{
    if 0 <= m < frags.len() {
        frags[m] + seq!['\n'] + fragments_joined_from(frags, m + 1)
    } else {
        Seq::empty()
    }
}

/// The matches of the selectors from index `k` on, in selector order,
/// each fragment followed by a newline, concatenated.
pub open spec fn collected_from(html: Seq<char>, sels: Seq<Seq<char>>, k: int) -> Seq<char>
    decreases sels.len() - k,
{
    if 0 <= k < sels.len() {
        fragments_joined_from(selected(html, sels[k]), 0) + collected_from(html, sels, k + 1)
    } else {
        Seq::empty()
    }
}

/// Whether any selector from index `k` on matches at least one element.
pub open spec fn any_selected_from(html: Seq<char>, sels: Seq<Seq<char>>, k: int) -> bool
    decreases sels.len() - k,
{
    if 0 <= k < sels.len() {
        selected(html, sels[k]).len() > 0 || any_selected_from(html, sels, k + 1)
    } else {
        false
    }
}

/// The first tiers of the pre-conversion cleaning: scripts and styles out,
/// media elements out, structural noise out.
pub open spec fn stripped_body(body: Seq<char>) -> Seq<char> {
    let s1 = replaced(r"(?i)<script[^>]*>[\s\S]*?</script>"@, ""@, body);
    let s2 = replaced(r"(?i)<style[^>]*>[\s\S]*?</style>"@, ""@, s1);
    let s3 = strip_all(media_pattern_list(), s2);
    strip_all(unwanted_pattern_list(), s3)
}

/// The whole pre-conversion cleaning of a body fragment: noise removal,
/// then a finer content selection on the cleaned fragment (content
/// containers first, text-bearing elements second, the entire cleaned
/// fragment if both come up blank), then the decorative-element sweep.
pub open spec fn clear_body_spec(body: Seq<char>) -> Seq<char> {
    let cleaned = stripped_body(body);
    let wrapped = "<html><body>"@ + cleaned + "</body></html>"@;
    let candidate = if any_selected_from(wrapped, content_selector_list(), 0) {
        collected_from(wrapped, content_selector_list(), 0)
    } else {
        collected_from(wrapped, text_selector_list(), 0)
    };
    let relevant = if is_blank_spec(candidate) {
        cleaned
    } else {
        candidate
    };
    strip_all(additional_cleanup_list(), relevant)
}

/// The post-conversion cleaning of the Markdown: leftover tags out, links
/// to their labels, bare URLs and code fences out, whitespace collapsed,
/// boilerplate phrases out, navigation-looking lines dropped, and the
/// document trimmed.
pub open spec fn final_clean_spec(md: Seq<char>) -> Seq<char> {
    let s1 = replaced(r"<[^>]+>"@, ""@, md);
    let s2 = replaced(r"\[([^\]]+)\]\([^)]+\)"@, r"$1"@, s1);
    let s3 = replaced(r"https?://[^\s]+"@, ""@, s2);
    let s4 = replaced(r"```[\s\S]*?```"@, ""@, s3);
    let s5 = replaced(r"[ \t]+"@, " "@, s4);
    let s6 = replaced(r"\n{3,}"@, "\n\n"@, s5);
    let s7 = strip_all(unwanted_text_list(), s6);
    let s8 = replaced(r"\n\s*\n\s*\n"@, "\n\n"@, s7);
    let s9 = join_lines_spec(kept_lines(split_lines_spec(s8)));
    let s10 = replaced(r"\n{4,}"@, "\n\n\n"@, s9);
    trim_spec(s10)
}

/// The Markdown produced for one page: empty when the document has no
/// body element, otherwise the body run through both cleaning passes
/// around the conversion.
pub open spec fn html_to_markdown_spec(html: Seq<char>) -> Seq<char> {
    let bodies = selected(html, "body"@);
    if bodies.len() == 0 {
        Seq::empty()
    } else {
        final_clean_spec(markdown_of(clear_body_spec(bodies[0])))
    }
}

/// The first fragment of the first selector from index `k` on that
/// matches anything.
pub open spec fn first_selected_from(html: Seq<char>, sels: Seq<Seq<char>>, k: int) -> Option<
    Seq<char>,
>
    decreases sels.len() - k,
{
    if 0 <= k < sels.len() {
        if selected(html, sels[k]).len() > 0 {
            Some(selected(html, sels[k])[0])
        } else {
            first_selected_from(html, sels, k + 1)
        }
    } else {
        None
    }
}

/// The main-content cascade: the first element matching a content
/// selector, in priority order; failing all of them, the body element;
/// failing that, nothing.
pub open spec fn select_main_spec(html: Seq<char>) -> Seq<char> {
    match first_selected_from(html, content_selector_list(), 0) {
        Some(fragment) => fragment,
        None => {
            let bodies = selected(html, "body"@);
            if bodies.len() > 0 {
                bodies[0]
            } else {
                Seq::empty()
            }
        },
    }
}

/// Selector priority: when the document holds an element matching
/// `article`, the cascade returns the first such element, whatever else
/// matches.
pub proof fn lemma_select_main_prefers_article(html: Seq<char>)
    requires
        selected(html, "article"@).len() > 0,
    ensures
        select_main_spec(html) == selected(html, "article"@)[0],
{
    assert(content_selector_list()[0] == "article"@);
}

/// Selector priority: with no `article` element, an element matching
/// `main` is returned.
pub proof fn lemma_select_main_uses_main(html: Seq<char>)
    requires
        selected(html, "article"@).len() == 0,
        selected(html, "main"@).len() > 0,
    ensures
        select_main_spec(html) == selected(html, "main"@)[0],
{
    let l = content_selector_list();
    assert(l[0] == "article"@);
    assert(l[1] == "main"@);
    assert(first_selected_from(html, l, 0) == first_selected_from(html, l, 1));
    assert(first_selected_from(html, l, 1) == Some(selected(html, "main"@)[0]));
}

/// Selector priority: when no content selector matches anything, the
/// cascade falls back to the body element's fragment.
pub proof fn lemma_select_main_body_fallback(html: Seq<char>)
    requires
        forall|k: int|
            0 <= k < content_selector_list().len() ==> selected(
                html,
                #[trigger] content_selector_list()[k],
            ).len() == 0,
        selected(html, "body"@).len() > 0,
    ensures
        select_main_spec(html) == selected(html, "body"@)[0],
{
    lemma_first_selected_none(html, content_selector_list(), 0);
}

proof fn lemma_first_selected_none(html: Seq<char>, sels: Seq<Seq<char>>, k: int)
    requires
        0 <= k <= sels.len(),
        forall|j: int| 0 <= j < sels.len() ==> selected(html, #[trigger] sels[j]).len() == 0,
    ensures
        first_selected_from(html, sels, k) is None,
    decreases sels.len() - k,
{
    if k < sels.len() {
        lemma_first_selected_none(html, sels, k + 1);
    }
}

/// Applies each pattern of `pats` in order, replacing its matches with
/// the empty string.
fn apply_patterns<const N: usize>(pats: &[&'static str; N], text: String) -> (r: String)
    ensures
        r@ == strip_all(pats@.map_values(|p: &'static str| p@), text@),
{
    let ghost l = pats@.map_values(|p: &'static str| p@);
    let ghost t0 = text@;
    let mut cur = text;
    let mut k: usize = 0;
    while k < N
        invariant
            k <= N,
            l == pats@.map_values(|p: &'static str| p@),
            l.len() == N,
            strip_from(l, 0, t0) == strip_from(l, k as int, cur@),
        decreases N - k,
    {
        cur = regex_replace_all(pats[k], "", cur.as_str());
        k += 1;
    }
    cur
}

/// Collects, for each selector in order, the HTML of every matching
/// element followed by a newline; also reports whether anything matched.
fn collect_fragments<const N: usize>(html: &str, sels: &[&'static str; N]) -> (r: (String, bool))
    ensures
        r.0@ == collected_from(html@, sels@.map_values(|p: &'static str| p@), 0),
        r.1 == any_selected_from(html@, sels@.map_values(|p: &'static str| p@), 0),
{
    let ghost l = sels@.map_values(|p: &'static str| p@);
    let mut acc = String::new();
    let mut found = false;
    let mut k: usize = 0;
    while k < N
        invariant
            k <= N,
            l == sels@.map_values(|p: &'static str| p@),
            l.len() == N,
            collected_from(html@, l, 0) == acc@ + collected_from(html@, l, k as int),
            any_selected_from(html@, l, 0) == (found || any_selected_from(html@, l, k as int)),
        decreases N - k,
    {
        let frags = select_fragments(html, sels[k]);
        let ghost f = str_views(frags@);
        proof {
            assert(f == selected(html@, l[k as int]));
        }
        if frags.len() > 0 {
            found = true;
        }
        let ghost acc0 = acc@;
        let mut m: usize = 0;
        while m < frags.len()
            invariant
                m <= frags.len(),
                f == str_views(frags@),
                f.len() == frags@.len(),
                acc@ + fragments_joined_from(f, m as int) == acc0 + fragments_joined_from(f, 0),
            decreases frags.len() - m,
        {
            let ghost a0 = acc@;
            acc.append(frags[m].as_str());
            push_char(&mut acc, '\n');
            proof {
                assert(f[m as int] == frags@[m as int]@);
                assert(fragments_joined_from(f, m as int) == f[m as int] + seq!['\n']
                    + fragments_joined_from(f, m + 1 as int));
                assert(acc@ + fragments_joined_from(f, m + 1 as int) =~= a0
                    + fragments_joined_from(f, m as int));
            }
            m += 1;
        }
        proof {
            assert(fragments_joined_from(f, f.len() as int) =~= Seq::<char>::empty());
            assert(acc@ =~= acc@ + fragments_joined_from(f, f.len() as int));
            assert(collected_from(html@, l, k as int) == fragments_joined_from(f, 0)
                + collected_from(html@, l, k + 1 as int));
            assert(acc@ + collected_from(html@, l, k + 1 as int) =~= acc0 + collected_from(
                html@,
                l,
                k as int,
            ));
        }
        k += 1;
    }
    proof {
        assert(collected_from(html@, l, N as int) =~= Seq::<char>::empty());
        assert(acc@ + collected_from(html@, l, N as int) =~= acc@);
    }
    (acc, found)
}

/// The pre-conversion cleaning pass on one body fragment.
fn clear_body(body_html: String) -> (r: String)
    ensures
        r@ == clear_body_spec(body_html@),
{
    let s1 = regex_replace_all(r"(?i)<script[^>]*>[\s\S]*?</script>", "", body_html.as_str());
    let s2 = regex_replace_all(r"(?i)<style[^>]*>[\s\S]*?</style>", "", s1.as_str());
    let media = media_elements();
    let s3 = apply_patterns(&media, s2);
    let unwanted = unwanted_elements();
    let cleaned = apply_patterns(&unwanted, s3);
    let mut wrapped = String::from_str("<html><body>");
    wrapped.append(cleaned.as_str());
    wrapped.append("</body></html>");
    proof {
        assert(wrapped@ == "<html><body>"@ + cleaned@ + "</body></html>"@);
    }
    let content_sels = content_selectors();
    let (main_html, found) = collect_fragments(wrapped.as_str(), &content_sels);
    let candidate = if found {
        main_html
    } else {
        let text_sels = text_selectors();
        let (text_html, _) = collect_fragments(wrapped.as_str(), &text_sels);
        text_html
    };
    let cv = to_chars(candidate.as_str());
    let relevant = if is_blank(&cv) {
        cleaned
    } else {
        candidate
    };
    let extra = additional_cleanup();
    apply_patterns(&extra, relevant)
}

/// The post-conversion cleaning pass on converted Markdown: leftover
/// tags out, links to their labels, bare URLs and code fences out,
/// whitespace collapsed, boilerplate phrases out, navigation-looking
/// lines dropped, the document trimmed.
pub fn final_clean_from_markdown(markdown_content: String) -> (r: String)
    ensures
        r@ == final_clean_spec(markdown_content@),
{
    let s1 = regex_replace_all(r"<[^>]+>", "", markdown_content.as_str());
    let s2 = regex_replace_all(r"\[([^\]]+)\]\([^)]+\)", r"$1", s1.as_str());
    let s3 = regex_replace_all(r"https?://[^\s]+", "", s2.as_str());
    let s4 = regex_replace_all(r"```[\s\S]*?```", "", s3.as_str());
    let s5 = regex_replace_all(r"[ \t]+", " ", s4.as_str());
    let s6 = regex_replace_all(r"\n{3,}", "\n\n", s5.as_str());
    let phrases = unwanted_text_patterns();
    let s7 = apply_patterns(&phrases, s6);
    let s8 = regex_replace_all(r"\n\s*\n\s*\n", "\n\n", s7.as_str());
    let v = to_chars(s8.as_str());
    let ls = split_lines(&v);
    let kept = filter_lines(&ls);
    let joined = join_lines(&kept);
    let s9 = from_chars(&joined);
    let s10 = regex_replace_all(r"\n{4,}", "\n\n\n", s9.as_str());
    let tv = to_chars(s10.as_str());
    let trimmed = trim(&tv);
    from_chars(&trimmed)
}

/// Keeps exactly the lines of converted Markdown that do not look like
/// navigation or metadata, in order: heading and blank lines always stay,
/// single-character lines go, single navigation words go, and lines
/// starting with `http`, containing `@` or equal to a structural term go.
pub fn remove_lines_metadata_or_navigation<'a>(lines: Vec<&'a str>) -> (r: Vec<&'a str>)
    ensures
        ref_views(r@) == kept_lines(ref_views(lines@)),
{
    let ghost l = ref_views(lines@);
    let mut r: Vec<&'a str> = Vec::new();
    let mut i: usize = 0;
    proof {
        assert(l.skip(0) =~= l);
        assert(ref_views(r@) + kept_lines(l) =~= kept_lines(l));
    }
    while i < lines.len()
        invariant
            i <= lines.len(),
            l == ref_views(lines@),
            l.len() == lines@.len(),
            kept_lines(l) == ref_views(r@) + kept_lines(l.skip(i as int)),
        decreases lines.len() - i,
    {
        let ghost rest = l.skip(i as int);
        proof {
            assert(rest.first() == l[i as int]);
            assert(rest.drop_first() =~= l.skip(i as int + 1));
            assert(l[i as int] == lines@[i as int]@);
        }
        let line = lines[i];
        let lv = to_chars(line);
        if keep_line_exec(&lv) {
            let ghost r0 = r@;
            r.push(line);
            proof {
                assert(ref_views(r@) =~= ref_views(r0) + seq![line@]);
                assert(kept_lines(rest) == seq![rest.first()] + kept_lines(rest.drop_first()));
                assert(ref_views(r@) + kept_lines(l.skip(i as int + 1)) =~= ref_views(r0)
                    + kept_lines(rest));
            }
        } else {
            proof {
                assert(kept_lines(rest) == kept_lines(rest.drop_first()));
            }
        }
        i += 1;
    }
    proof {
        assert(l.skip(i as int) =~= Seq::<Seq<char>>::empty());
        assert(ref_views(r@) + kept_lines(l.skip(i as int)) =~= ref_views(r@));
    }
    r
}

/// The main-content cascade on a whole document: the first element
/// matching `article`, `main`, `[role='main']`, `.content`, `.article`,
/// `.post` or `.entry`, in that order; the body element if none matches;
/// the empty string if the document has no body.
pub fn select_main(html: &str) -> (r: String)
    ensures
        r@ == select_main_spec(html@),
{
    let sels = content_selectors();
    let ghost l = content_selector_list();
    let mut k: usize = 0;
    while k < 7
        invariant
            k <= 7,
            l == content_selector_list(),
            sels@.map_values(|p: &'static str| p@) == l,
            first_selected_from(html@, l, 0) == first_selected_from(html@, l, k as int),
        decreases 7 - k,
    {
        let frags = select_fragments(html, sels[k]);
        proof {
            assert(str_views(frags@) == selected(html@, l[k as int]));
        }
        if frags.len() > 0 {
            proof {
                assert(frags@[0]@ == selected(html@, l[k as int])[0]);
            }
            return frags[0].clone();
        }
        k += 1;
    }
    let bodies = select_fragments(html, "body");
    if bodies.len() > 0 {
        proof {
            assert(bodies@[0]@ == selected(html@, "body"@)[0]);
        }
        bodies[0].clone()
    } else {
        String::new()
    }
}

/// Component responsible for HTML cleaning and Markdown conversion.
pub struct ContentProcessor {}

impl ContentProcessor {
    /// Creates a new `ContentProcessor` instance.
    pub fn new() -> (r: Self) {
        ContentProcessor {  }
    }

    /// Converts one page's HTML to clean Markdown: body selection, the
    /// pre-conversion cleaning, the conversion, and the post-conversion
    /// cleaning, in that order.
    pub fn html_to_markdown(&self, html: &str) -> (r: String)
        ensures
            r@ == html_to_markdown_spec(html@),
    {
        let bodies = select_fragments(html, "body");
        if bodies.len() == 0 {
            return String::new();
        }
        proof {
            assert(bodies@[0]@ == selected(html@, "body"@)[0]);
        }
        let body_html = bodies[0].clone();
        let relevant_html = clear_body(body_html);
        let markdown_content = html_to_md(relevant_html.as_str());
        final_clean_from_markdown(markdown_content)
    }
}

impl Default for ContentProcessor {
    fn default() -> Self {
        ContentProcessor {  }
    }
}

} // verus!
