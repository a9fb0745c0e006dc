//! Extracts hyperlinks from free text, and turns the linked pages' HTML
//! into clean Markdown suitable for retrieval pipelines.
//!
//! The library holds the whole content pipeline: URL discovery and
//! normalization, main-content selection, the two cleaning passes around
//! the HTML-to-Markdown conversion, and chunk splitting with parameter
//! validation.  Network fetching is I/O and is left to the caller, who
//! hands each page's HTML in as a plain string and gets `(url, markdown)`
//! records back.

mod chars;
mod chunks;
mod content;
mod harvest;
mod headers;
mod http_config;
mod lines;
mod outside;
mod patterns;
mod urls;
mod user_agent;

pub use chars::has_prefix;
pub use chars::is_blank_spec;
pub use chars::is_space_char;
pub use chars::lemma_trim_idempotent;
pub use chars::lower;
pub use chars::lower_char;
pub use chars::ref_views;
pub use chars::str_views;
pub use chars::trim_spec;
pub use chunks::overlap_value;
pub use chunks::split_markdown;
pub use chunks::valid_chunking;
pub use content::any_selected_from;
pub use content::clear_body_spec;
pub use content::collected_from;
pub use content::final_clean_from_markdown;
pub use content::lemma_select_main_body_fallback;
pub use content::lemma_select_main_prefers_article;
pub use content::lemma_select_main_uses_main;
pub use content::final_clean_spec;
pub use content::first_selected_from;
pub use content::fragments_joined_from;
pub use content::html_to_markdown_spec;
pub use content::remove_lines_metadata_or_navigation;
pub use content::select_main;
pub use content::select_main_spec;
pub use content::strip_all;
pub use content::strip_from;
pub use content::stripped_body;
pub use content::ContentProcessor;
pub use harvest::plan_harvest;
pub use harvest::HarvestPlan;
pub use harvest::MarkdownHarvester;
pub use headers::browser_header_list;
pub use headers::browser_headers;
pub use http_config::HttpConfig;
pub use http_config::HttpConfigBuilder;
pub use lines::is_nav_term;
pub use lines::is_structural_term;
pub use lines::join_from;
pub use lines::join_lines_spec;
pub use lines::keep_line;
pub use lines::kept_lines;
pub use lines::lemma_kept_lines_idempotent;
pub use lines::line_end;
pub use lines::split_lines_spec;
pub use lines::strip_cr;
pub use outside::chunks_of;
pub use outside::markdown_of;
pub use outside::replaced;
pub use outside::selected;
pub use patterns::additional_cleanup;
pub use patterns::additional_cleanup_list;
pub use patterns::content_selector_list;
pub use patterns::content_selectors;
pub use patterns::media_elements;
pub use patterns::media_pattern_list;
pub use patterns::text_selector_list;
pub use patterns::text_selectors;
pub use patterns::unwanted_elements;
pub use patterns::unwanted_pattern_list;
pub use patterns::unwanted_text_list;
pub use patterns::unwanted_text_patterns;
pub use urls::clean_url;
pub use urls::count_char_from;
pub use urls::extract_urls;
pub use urls::extracted_urls;
pub use urls::http_at;
pub use urls::https_at;
pub use urls::is_query_char;
pub use urls::is_trim_punct;
pub use urls::is_url_char;
pub use urls::lemma_extracted_urls_normalized;
pub use urls::lemma_no_scheme_no_urls;
pub use urls::lemma_normalize_idempotent;
pub use urls::match_len_at;
pub use urls::no_scheme_at;
pub use urls::normalize_url;
pub use urls::parens_balanced;
pub use urls::punct_run_back;
pub use urls::query_run;
pub use urls::scheme_len_at;
pub use urls::url_matches_from;
pub use urls::url_run;
pub use urls::HttpClient;
pub use user_agent::UserAgent;
