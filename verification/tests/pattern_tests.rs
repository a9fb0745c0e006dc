use markdown_harvest::{
    additional_cleanup, browser_headers, content_selectors, extract_urls, media_elements,
    text_selectors, unwanted_elements, unwanted_text_patterns,
};

#[test]
fn test_pattern_lists_have_expected_sizes() {
    assert_eq!(media_elements().len(), 9);
    assert_eq!(unwanted_elements().len(), 7);
    assert_eq!(content_selectors().len(), 7);
    assert_eq!(text_selectors().len(), 6);
    assert_eq!(additional_cleanup().len(), 3);
    assert_eq!(unwanted_text_patterns().len(), 7);
}

#[test]
fn test_regex_patterns_all_compile() {
    // Every pattern the cleaning pipeline passes to the regex engine is a
    // valid expression; an invalid one would silently skip its pass.
    for pattern in media_elements()
        .iter()
        .chain(unwanted_elements().iter())
        .chain(additional_cleanup().iter())
        .chain(unwanted_text_patterns().iter())
    {
        assert!(regex::Regex::new(pattern).is_ok());
    }
}

#[test]
fn test_css_selectors_all_parse() {
    // Every selector the content cascade uses is valid CSS; an invalid
    // one would match nothing.
    for selector in content_selectors().iter().chain(text_selectors().iter()) {
        assert!(scraper::Selector::parse(selector).is_ok());
    }
}

#[test]
fn test_media_elements_remove_media() {
    let mut html = "<div>Text content <img src=\"image.jpg\"> more text</div>".to_string();
    for pattern in media_elements().iter() {
        let regex = regex::Regex::new(pattern).unwrap();
        html = regex.replace_all(&html, "").to_string();
    }
    assert!(!html.contains("<img"));
    assert!(html.contains("Text content"));
}

#[test]
fn test_unwanted_elements_remove_structure() {
    let mut html =
        "<nav>Navigation</nav><div>Main content</div><footer>Footer</footer>".to_string();
    for pattern in unwanted_elements().iter() {
        let regex = regex::Regex::new(pattern).unwrap();
        html = regex.replace_all(&html, "").to_string();
    }
    assert!(!html.contains("<nav>"));
    assert!(!html.contains("<footer>"));
    assert!(html.contains("Main content"));
}

#[test]
fn test_browser_headers_fixed_set() {
    let headers = browser_headers();
    assert_eq!(headers.len(), 11);
    assert_eq!(headers[0].0, "Accept");
    assert_eq!(headers[1], ("Accept-Language", "en-US,en;q=0.5"));
    assert!(headers.iter().any(|(name, value)| *name == "DNT" && *value == "1"));
    assert!(headers.iter().all(|(name, _)| *name != "User-Agent"));
}

#[test]
fn test_extract_urls_stops_at_non_ascii() {
    // Characters outside the path-safe set end the match.
    let urls = extract_urls("voir https://exemple.fr/page\u{00e9}suite et fin");
    assert_eq!(urls, vec!["https://exemple.fr/page".to_string()]);
}
