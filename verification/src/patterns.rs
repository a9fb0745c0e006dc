//! The fixed vocabulary of the cleaning pipeline: regular-expression
//! patterns for noise removal and CSS selectors for content discovery,
//! applied in a fixed order that later stages depend on.

use vstd::prelude::*;

verus! {

/// Patterns matching media and embed elements, in application order.
pub open spec fn media_pattern_list() -> Seq<Seq<char>> {
    seq![
        r"(?i)<img[^>]*>"@,
        r"(?i)<iframe[^>]*>[\s\S]*?</iframe>"@,
        r"(?i)<iframe[^>]*/>"@,
        r"(?i)<video[^>]*>[\s\S]*?</video>"@,
        r"(?i)<audio[^>]*>[\s\S]*?</audio>"@,
        r"(?i)<canvas[^>]*>[\s\S]*?</canvas>"@,
        r"(?i)<svg[^>]*>[\s\S]*?</svg>"@,
        r"(?i)<embed[^>]*>"@,
        r"(?i)<object[^>]*>[\s\S]*?</object>"@,
    ]
}

/// Regex patterns for removing media elements from HTML content: images,
/// iframes, video, audio, canvas, SVG, embeds and objects.
pub fn media_elements() -> (r: [&'static str; 9])
    ensures
        r@.map_values(|p: &'static str| p@) == media_pattern_list(),
{
    let r: [&'static str; 9] = [
        r"(?i)<img[^>]*>",
        r"(?i)<iframe[^>]*>[\s\S]*?</iframe>",
        r"(?i)<iframe[^>]*/>",
        r"(?i)<video[^>]*>[\s\S]*?</video>",
        r"(?i)<audio[^>]*>[\s\S]*?</audio>",
        r"(?i)<canvas[^>]*>[\s\S]*?</canvas>",
        r"(?i)<svg[^>]*>[\s\S]*?</svg>",
        r"(?i)<embed[^>]*>",
        r"(?i)<object[^>]*>[\s\S]*?</object>",
    ];
    proof {
        assert(r@.map_values(|p: &'static str| p@) =~= media_pattern_list());
    }
    r
}

/// Patterns matching structural noise: navigation, headers, footers,
/// asides, and containers whose class or id names boilerplate.
pub open spec fn unwanted_pattern_list() -> Seq<Seq<char>> {
    seq![
        r"(?i)<nav[^>]*>[\s\S]*?</nav>"@,
        r"(?i)<header[^>]*>[\s\S]*?</header>"@,
        r"(?i)<footer[^>]*>[\s\S]*?</footer>"@,
        r"(?i)<aside[^>]*>[\s\S]*?</aside>"@,
        r"(?i)<div[^>]*class=[^>]*(?:nav|menu|sidebar|advertisement|ad|sponsor|cookie|privacy|social|share|comment|related|avatar|wp-image)[^>]*>[\s\S]*?</div>"@,
        r"(?i)<div[^>]*id=[^>]*(?:nav|menu|sidebar|advertisement|ad|sponsor|cookie|privacy|social|share|comment|related)[^>]*>[\s\S]*?</div>"@,
        r"(?i)<section[^>]*class=[^>]*(?:nav|menu|sidebar|advertisement|ad|sponsor|cookie|privacy|social|share|comment|related)[^>]*>[\s\S]*?</section>"@,
    ]
}

/// Regex patterns for removing unwanted structural elements from HTML:
/// navigation bars, headers, footers, sidebars and advertisement blocks.
pub fn unwanted_elements() -> (r: [&'static str; 7])
    ensures
        r@.map_values(|p: &'static str| p@) == unwanted_pattern_list(),
{
    let r: [&'static str; 7] = [
        r"(?i)<nav[^>]*>[\s\S]*?</nav>",
        r"(?i)<header[^>]*>[\s\S]*?</header>",
        r"(?i)<footer[^>]*>[\s\S]*?</footer>",
        r"(?i)<aside[^>]*>[\s\S]*?</aside>",
        r"(?i)<div[^>]*class=[^>]*(?:nav|menu|sidebar|advertisement|ad|sponsor|cookie|privacy|social|share|comment|related|avatar|wp-image)[^>]*>[\s\S]*?</div>",
        r"(?i)<div[^>]*id=[^>]*(?:nav|menu|sidebar|advertisement|ad|sponsor|cookie|privacy|social|share|comment|related)[^>]*>[\s\S]*?</div>",
        r"(?i)<section[^>]*class=[^>]*(?:nav|menu|sidebar|advertisement|ad|sponsor|cookie|privacy|social|share|comment|related)[^>]*>[\s\S]*?</section>",
    ];
    proof {
        assert(r@.map_values(|p: &'static str| p@) =~= unwanted_pattern_list());
    }
    r
}

/// CSS selectors likely to hold a page's main content, in priority order.
pub open spec fn content_selector_list() -> Seq<Seq<char>> {
    seq!["article"@, "main"@, "[role='main']"@, ".content"@, ".article"@, ".post"@, ".entry"@]
}

/// CSS selectors for identifying main content areas in HTML, in priority
/// order: semantic containers first, then common content class names.
pub fn content_selectors() -> (r: [&'static str; 7])
    ensures
        r@.map_values(|p: &'static str| p@) == content_selector_list(),
{
    let r: [&'static str; 7] = [
        "article",
        "main",
        "[role='main']",
        ".content",
        ".article",
        ".post",
        ".entry",
    ];
    proof {
        assert(r@.map_values(|p: &'static str| p@) =~= content_selector_list());
    }
    r
}

/// CSS selectors for individual text-bearing elements, used when no main
/// content container is found.
pub open spec fn text_selector_list() -> Seq<Seq<char>> {
    seq!["h1, h2, h3, h4, h5, h6"@, "p"@, "ul, ol"@, "blockquote"@, "pre"@, "table"@]
}

/// CSS selectors for text content elements: headings, paragraphs, lists,
/// quotes, preformatted blocks and tables.
pub fn text_selectors() -> (r: [&'static str; 6])
    ensures
        r@.map_values(|p: &'static str| p@) == text_selector_list(),
{
    let r: [&'static str; 6] = ["h1, h2, h3, h4, h5, h6", "p", "ul, ol", "blockquote", "pre", "table"];
    proof {
        assert(r@.map_values(|p: &'static str| p@) =~= text_selector_list());
    }
    r
}

/// Patterns for the last pre-conversion sweep: decorative anchors and
/// spans, and elements hidden with inline styles.
pub open spec fn additional_cleanup_list() -> Seq<Seq<char>> {
    seq![
        r"(?i)<a[^>]*class=[^>]*(?:avatar|wp-image|button|btn)[^>]*>[\s\S]*?</a>"@,
        r"(?i)<span[^>]*class=[^>]*(?:avatar|wp-image|social|share)[^>]*>[\s\S]*?</span>"@,
        r"(?i)<div[^>]*style=[^>]*(?:display:\s*none|visibility:\s*hidden)[^>]*>[\s\S]*?</div>"@,
    ]
}

/// Regex patterns for final cleanup of HTML elements before the Markdown
/// conversion: decorative anchors and spans, and hidden blocks.
pub fn additional_cleanup() -> (r: [&'static str; 3])
    ensures
        r@.map_values(|p: &'static str| p@) == additional_cleanup_list(),
{
    let r: [&'static str; 3] = [
        r"(?i)<a[^>]*class=[^>]*(?:avatar|wp-image|button|btn)[^>]*>[\s\S]*?</a>",
        r"(?i)<span[^>]*class=[^>]*(?:avatar|wp-image|social|share)[^>]*>[\s\S]*?</span>",
        r"(?i)<div[^>]*style=[^>]*(?:display:\s*none|visibility:\s*hidden)[^>]*>[\s\S]*?</div>",
    ];
    proof {
        assert(r@.map_values(|p: &'static str| p@) =~= additional_cleanup_list());
    }
    r
}

/// Patterns for boilerplate phrases removed from the converted Markdown,
/// including several localized variants and photo-credit lines.
pub open spec fn unwanted_text_list() -> Seq<Seq<char>> {
    seq![
        r"(?i)\b(advertisement|sponsored|cookie policy|privacy policy|terms of service|subscribe|newsletter|follow us|share this|related articles|recommended|créditos|tópicos|inscreva-se|mantenha-se informado|acesso livre|editor/a)\b"@,
        r"(?i)\bclick here\b"@,
        r"(?i)\bread more\b"@,
        r"(?i)\bsee also\b"@,
        r"(?i)\bver tópicos\b"@,
        r"(?i)\bimagem do banner\b"@,
        r"(?i)\bfoto:\b.*$"@,
    ]
}

/// Regex patterns for removing advertising and navigation phrases from the
/// converted Markdown while preserving line structure.
pub fn unwanted_text_patterns() -> (r: [&'static str; 7])
    ensures
        r@.map_values(|p: &'static str| p@) == unwanted_text_list(),
{
    let r: [&'static str; 7] = [
        r"(?i)\b(advertisement|sponsored|cookie policy|privacy policy|terms of service|subscribe|newsletter|follow us|share this|related articles|recommended|créditos|tópicos|inscreva-se|mantenha-se informado|acesso livre|editor/a)\b",
        r"(?i)\bclick here\b",
        r"(?i)\bread more\b",
        r"(?i)\bsee also\b",
        r"(?i)\bver tópicos\b",
        r"(?i)\bimagem do banner\b",
        r"(?i)\bfoto:\b.*$",
    ];
    proof {
        assert(r@.map_values(|p: &'static str| p@) =~= unwanted_text_list());
    }
    r
}

} // verus!
