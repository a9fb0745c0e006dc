//! The library's trusted boundary: thin wrappers around the outside crates
//! it builds on, each with the contract the verified code relies on.
//!
//! Results that are functions of the arguments alone but too involved to
//! state (a regex substitution, a CSS selection, a Markdown rendering, a
//! chunking) are given names as bodiless spec functions; the wrappers'
//! contracts speak of those names and nothing more.

use vstd::prelude::*;

use crate::chars::str_views;

verus! {

/// What `regex::Regex::replace_all` returns for this pattern, replacement
/// and text: the text with every non-overlapping match of the pattern
/// replaced.
pub uninterp spec fn replaced(pattern: Seq<char>, replacement: Seq<char>, text: Seq<char>) -> Seq<
    char,
>;

/// Relies on `regex::Regex::new` and `regex::Regex::replace_all`: replaces
/// every non-overlapping match of `pattern` in `text` with `replacement`.
/// Every pattern this library passes is valid; an invalid one would leave
/// the text unchanged.
#[verifier::external_body]
pub(crate) fn regex_replace_all(pattern: &str, replacement: &str, text: &str) -> (r: String)
    ensures
        r@ == replaced(pattern@, replacement@, text@),
{
    match regex::Regex::new(pattern) {
        Ok(re) => re.replace_all(text, replacement).into_owned(),
        Err(_) => text.to_string(),
    }
}

/// The outer HTML of the elements matching the CSS selector `selector` in
/// the document parsed from `html`, in document order.
pub uninterp spec fn selected(html: Seq<char>, selector: Seq<char>) -> Seq<Seq<char>>;

/// Relies on `scraper::Html::parse_document`, `scraper::Selector::parse`,
/// `scraper::Html::select` and `scraper::ElementRef::html`: parses the
/// document and returns each matching element's HTML, in document order.
/// Every selector this library passes is valid; an invalid one would
/// yield no matches.
#[verifier::external_body]
pub(crate) fn select_fragments(html: &str, selector: &str) -> (r: Vec<String>)
    ensures
        str_views(r@) == selected(html@, selector@),
{
    let document = scraper::Html::parse_document(html);
    match scraper::Selector::parse(selector) {
        Ok(sel) => document.select(&sel).map(|e| e.html()).collect(),
        Err(_) => Vec::new(),
    }
}

/// What `html2md::parse_html` returns for this HTML fragment: its Markdown
/// rendering, a function of the fragment alone.
pub uninterp spec fn markdown_of(html: Seq<char>) -> Seq<char>;

/// Relies on `html2md::parse_html`: converts an HTML fragment to Markdown,
/// with no side effects.
#[verifier::external_body]
pub(crate) fn html_to_md(html: &str) -> (r: String)
    ensures
        r@ == markdown_of(html@),
{
    html2md::parse_html(html)
}

/// What the Markdown splitter yields for this text, chunk capacity and
/// overlap: the chunks, in text order.
pub uninterp spec fn chunks_of(markdown: Seq<char>, size: int, overlap: int) -> Seq<Seq<char>>;

/// Relies on `text_splitter::ChunkConfig::new`,
/// `text_splitter::ChunkConfig::with_overlap`,
/// `text_splitter::MarkdownSplitter::new` and
/// `text_splitter::MarkdownSplitter::chunks`: splits Markdown at semantic
/// boundaries into chunks of at most `size` characters overlapping by
/// `overlap`.  `with_overlap` refuses an overlap at or above the capacity,
/// so that case is excluded here.
#[verifier::external_body]
pub(crate) fn splitter_chunks(markdown: &str, size: usize, overlap: usize) -> (r: Vec<String>)
    requires
        overlap < size,
    ensures
        str_views(r@) == chunks_of(markdown@, size as int, overlap as int),
{
    let config = match text_splitter::ChunkConfig::new(size).with_overlap(overlap) {
        Ok(config) => config,
        Err(_) => return Vec::new(),
    };
    let splitter = text_splitter::MarkdownSplitter::new(config);
    splitter.chunks(markdown).map(|chunk| chunk.to_string()).collect()
}

/// Relies on `rand::random_range`: a uniformly random index below `n` from
/// the thread-local generator.  Nothing is promised about which one comes
/// back.
#[verifier::external_body]
pub(crate) fn random_below(n: usize) -> (r: usize)
    requires
        n > 0,
    ensures
        r < n,
{
    rand::random_range(0..n)
}

} // verus!
