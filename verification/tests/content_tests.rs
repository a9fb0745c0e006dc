use markdown_harvest::final_clean_from_markdown;
use markdown_harvest::remove_lines_metadata_or_navigation;
use markdown_harvest::select_main;
use markdown_harvest::ContentProcessor;

#[test]
fn content_processor_test_new() {
    let processor = ContentProcessor::new();
    assert_eq!(std::mem::size_of_val(&processor), 0);
}

#[test]
fn test_extract_and_clean_body_with_empty_html() {
    let processor = ContentProcessor::new();
    let empty_html = "";
    let result = processor.html_to_markdown(empty_html);
    assert_eq!(result, "");
}

#[test]
fn test_extract_and_clean_body_with_no_body() {
    let processor = ContentProcessor::new();
    let html_without_body = "<html><head><title>Test</title></head></html>";
    let result = processor.html_to_markdown(html_without_body);
    assert_eq!(result, "");
}

#[test]
fn test_extract_and_clean_body_with_simple_content() {
    let processor = ContentProcessor::new();
    let simple_html = "<html><body><h1>Test Title</h1><p>Test paragraph content.</p></body></html>";
    let result = processor.html_to_markdown(simple_html);

    assert!(result.contains("Test Title"));
    assert!(result.contains("Test paragraph content"));
    assert!(!result.contains("<h1>"));
    assert!(!result.contains("<p>"));
}

#[test]
fn test_html_to_markdown() {
    let processor = ContentProcessor::new();
    let html = "<html><body><h1>Title</h1><p>Content</p></body></html>";
    let result = processor.html_to_markdown(html);

    assert!(result.contains("Title"));
    assert!(result.contains("Content"));
    assert!(!result.contains("<html>"));
    assert!(!result.contains("<body>"));
}

#[test]
fn test_html_to_markdown_strips_scripts_and_styles() {
    let processor = ContentProcessor::new();
    let html = "<html><body><script>var secret = 1;</script><style>p { color: red; }</style><p>Visible paragraph text.</p></body></html>";
    let result = processor.html_to_markdown(html);

    assert!(result.contains("Visible paragraph text"));
    assert!(!result.contains("var secret"));
    assert!(!result.contains("color: red"));
}

#[test]
fn test_html_to_markdown_drops_links_keeps_labels() {
    let processor = ContentProcessor::new();
    let html = "<html><body><p>Follow the project documentation at <a href=\"https://example.com/docs\">the manual pages</a> for details.</p></body></html>";
    let result = processor.html_to_markdown(html);

    assert!(result.contains("the manual pages"));
    assert!(!result.contains("https://example.com/docs"));
}

#[test]
fn test_html_to_markdown_excludes_navigation() {
    // A <nav> inside <body> must not reappear through the body fallback.
    let processor = ContentProcessor::new();
    let html = "<html><body><nav>Site navigation links everywhere</nav><p>Actual article prose, long enough to stay.</p></body></html>";
    let result = processor.html_to_markdown(html);

    assert!(result.contains("Actual article prose"));
    assert!(!result.contains("Site navigation links"));
}

#[test]
fn test_html_to_markdown_renders_heading_markup() {
    // The conversion step really produces Markdown: heading markup
    // appears, not just the stripped text.
    let processor = ContentProcessor::new();
    let result = processor.html_to_markdown(
        "<html><body><h1>Top Heading</h1><h3>Sub Heading</h3><p>Paragraph words here.</p></body></html>",
    );
    assert!(result.contains("Top Heading"));
    assert!(result.contains("=========="));
    assert!(result.contains("### Sub Heading"));
}

#[test]
fn test_select_main_prefers_article_over_nav() {
    let html = "<html><body><nav>menu one two three</nav><article><p>The real content of the page.</p></article></body></html>";
    let result = select_main(html);

    assert!(result.contains("The real content of the page."));
    assert!(!result.contains("menu one two three"));
}

#[test]
fn test_select_main_uses_main_without_article() {
    let html = "<html><body><main><p>Main element content here.</p></main><div>Other text</div></body></html>";
    let result = select_main(html);

    assert!(result.contains("Main element content here."));
    assert!(!result.contains("Other text"));
}

#[test]
fn test_select_main_falls_back_to_body() {
    let html = "<html><body><p>Just body level prose.</p></body></html>";
    let result = select_main(html);

    assert!(result.contains("Just body level prose."));
}

#[test]
fn test_select_main_first_article_wins() {
    let html = "<html><body><article><p>First article body.</p></article><article><p>Second article body.</p></article></body></html>";
    let result = select_main(html);

    assert!(result.contains("First article body."));
    assert!(!result.contains("Second article body."));
}

#[test]
fn test_remove_lines_keeps_headings_and_prose() {
    let lines = vec![
        "# Heading stays",
        "",
        "Ordinary prose with several words stays too.",
        "Home",
        "mailto@example",
        "http://leftover.example",
        "nav",
        "x",
    ];
    let kept = remove_lines_metadata_or_navigation(lines);
    assert_eq!(
        kept,
        vec!["# Heading stays", "", "Ordinary prose with several words stays too."]
    );
}

#[test]
fn test_remove_lines_single_word_content_stays() {
    // A single word is dropped only when it is a known navigation term.
    let lines = vec!["Rust", "subscribe", "More", "Concurrency"];
    let kept = remove_lines_metadata_or_navigation(lines);
    assert_eq!(kept, vec!["Rust", "Concurrency"]);
}

#[test]
fn test_clean_markdown_is_stable_on_cleaned_output() {
    // Running the post-conversion pass again over a page's finished
    // Markdown leaves it unchanged.
    let processor = ContentProcessor::new();
    let pages = [
        "<html><body><article><h1>A Study</h1><p>First paragraph of prose, long enough to matter.</p><p>Second paragraph with more words in it.</p></article></body></html>",
        "<html><body><nav>home about contact</nav><main><h2>Notes</h2><ul><li>alpha item</li><li>beta item</li></ul><p>Closing remark sentence.</p></main></body></html>",
        "<html><body><p>Loose body prose with an <a href=\"https://example.com/x\">inline link label</a> and a tail.</p></body></html>",
        "<html><body><script>var x = 3;</script><p>Paragraph that survives the sweep.</p></body></html>",
    ];
    for html in pages.iter() {
        let once = processor.html_to_markdown(html);
        let twice = final_clean_from_markdown(once.clone());
        assert_eq!(twice, once);
    }
}

#[test]
fn test_final_clean_drops_noise() {
    let md = "# Title\n\nSome prose line that stays here.\n\nhttp://bare.example/link\n\n```\ncode fence goes away\n```\n\nsubscribe\n\nLast line of prose.".to_string();
    let cleaned = final_clean_from_markdown(md);
    assert!(cleaned.contains("# Title"));
    assert!(cleaned.contains("Some prose line that stays here."));
    assert!(cleaned.contains("Last line of prose."));
    assert!(!cleaned.contains("bare.example"));
    assert!(!cleaned.contains("code fence"));
    assert!(!cleaned.contains("subscribe"));
}
