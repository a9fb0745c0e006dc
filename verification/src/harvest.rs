//! The per-page half of the harvest: turning fetched `(url, html)` pairs
//! into `(url, markdown)` records, and optionally chunking each record.
//!
//! Fetching itself is I/O and stays with the caller; these functions are
//! deterministic and total, so one page's bad HTML can never disturb the
//! records of its siblings: there is exactly one output record per input
//! page, in input order.

use vstd::prelude::*;

use crate::chars::str_views;
use crate::chunks::overlap_value;
use crate::chunks::split_markdown;
use crate::chunks::valid_chunking;
use crate::content::html_to_markdown_spec;
use crate::content::ContentProcessor;
use crate::outside::chunks_of;
use crate::urls::extract_urls;
use crate::urls::extracted_urls;

verus! {

/// What a harvest of one text must do next: report that the text holds
/// no URL at all (the streaming form then signals its caller exactly
/// once), or fetch the listed URLs, in order.
pub enum HarvestPlan {
    /// The text holds no URL; nothing is fetched.
    NoUrls,
    /// The normalized URLs to fetch, in match order, duplicates
    /// preserved.
    Fetch(Vec<String>),
}

/// Decides the next step of a harvest from the input text alone: the
/// no-URL signal exactly when the text holds no URL, otherwise the full
/// match list.
pub fn plan_harvest(text: &str) -> (p: HarvestPlan)
    ensures
        match p {
            HarvestPlan::NoUrls => extracted_urls(text@).len() == 0,
            HarvestPlan::Fetch(urls) => str_views(urls@) == extracted_urls(text@) && urls@.len()
                > 0,
        },
{
    let urls = extract_urls(text);
    if urls.len() == 0 {
        HarvestPlan::NoUrls
    } else {
        HarvestPlan::Fetch(urls)
    }
}

/// Main entry point for turning fetched web content into clean Markdown.
pub struct MarkdownHarvester {}

impl MarkdownHarvester {
    /// Converts each fetched page to a Markdown record: one record per
    /// page, same order, same URL, the content run through the cleaning
    /// pipeline.
    pub fn pages_to_markdown(pages: Vec<(String, String)>) -> (r: Vec<(String, String)>)
        ensures
            r@.len() == pages@.len(),
            forall|i: int|
                0 <= i < pages@.len() ==> (#[trigger] r@[i]).0@ == pages@[i].0@ && r@[i].1@
                    == html_to_markdown_spec(pages@[i].1@),
    {
        let content_processor = ContentProcessor::new();
        let mut r: Vec<(String, String)> = Vec::new();
        let mut i: usize = 0;
        while i < pages.len()
            invariant
                i <= pages.len(),
                r@.len() == i,
                forall|j: int|
                    0 <= j < i ==> (#[trigger] r@[j]).0@ == pages@[j].0@ && r@[j].1@
                        == html_to_markdown_spec(pages@[j].1@),
            decreases pages.len() - i,
        {
            let url = pages[i].0.clone();
            let markdown_content = content_processor.html_to_markdown(pages[i].1.as_str());
            r.push((url, markdown_content));
            i += 1;
        }
        r
    }

    /// Converts each Markdown record into a record of chunks: one record
    /// per page, same order, same URL, the Markdown split with the given
    /// size and overlap.  Invalid chunking parameters yield an empty
    /// result, not a crash.
    pub fn pages_to_chunks(
        pages: Vec<(String, String)>,
        chunk_size: usize,
        chunk_overlap: Option<usize>,
    ) -> (r: Vec<(String, Vec<String>)>)
        ensures
            !valid_chunking(chunk_size, chunk_overlap) ==> r@.len() == 0,
            valid_chunking(chunk_size, chunk_overlap) ==> r@.len() == pages@.len() && forall|
                i: int,
            |
                0 <= i < pages@.len() ==> (#[trigger] r@[i]).0@ == pages@[i].0@ && str_views(
                    r@[i].1@,
                ) == chunks_of(pages@[i].1@, chunk_size as int, overlap_value(chunk_overlap)),
    {
        if chunk_size == 0 {
            return Vec::new();
        }
        if let Some(overlap) = chunk_overlap {
            if overlap >= chunk_size {
                return Vec::new();
            }
        }
        let mut r: Vec<(String, Vec<String>)> = Vec::new();
        let mut i: usize = 0;
        while i < pages.len()
            invariant
                i <= pages.len(),
                valid_chunking(chunk_size, chunk_overlap),
                r@.len() == i,
                forall|j: int|
                    0 <= j < i ==> (#[trigger] r@[j]).0@ == pages@[j].0@ && str_views(r@[j].1@)
                        == chunks_of(
                        pages@[j].1@,
                        chunk_size as int,
                        overlap_value(chunk_overlap),
                    ),
            decreases pages.len() - i,
        {
            let url = pages[i].0.clone();
            let chunks = split_markdown(pages[i].1.as_str(), chunk_size, chunk_overlap);
            r.push((url, chunks));
            i += 1;
        }
        r
    }
}

impl Default for MarkdownHarvester {
    fn default() -> Self {
        MarkdownHarvester {  }
    }
}

} // verus!
