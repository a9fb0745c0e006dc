use markdown_harvest::plan_harvest;
use markdown_harvest::split_markdown;
use markdown_harvest::HarvestPlan;
use markdown_harvest::MarkdownHarvester;
use markdown_harvest::UserAgent;

#[test]
fn test_markdown_harvester_new() {
    let harvester = MarkdownHarvester::default();
    assert_eq!(std::mem::size_of_val(&harvester), 0);
}

#[test]
fn test_pages_to_markdown_empty() {
    let results = MarkdownHarvester::pages_to_markdown(Vec::new());
    assert!(results.is_empty());
}

#[test]
fn test_pages_to_markdown_one_record_per_page() {
    // One record per fetched page, same order, same URL; a page of
    // garbage does not disturb its siblings.
    let pages = vec![
        (
            "https://example.com/a".to_string(),
            "<html><body><p>First page prose content.</p></body></html>".to_string(),
        ),
        ("https://example.com/b".to_string(), "%%% not html at all %%%".to_string()),
        (
            "https://example.com/c".to_string(),
            "<html><body><p>Third page prose content.</p></body></html>".to_string(),
        ),
    ];
    let results = MarkdownHarvester::pages_to_markdown(pages);
    assert_eq!(results.len(), 3);
    assert_eq!(results[0].0, "https://example.com/a");
    assert_eq!(results[1].0, "https://example.com/b");
    assert_eq!(results[2].0, "https://example.com/c");
    assert!(results[0].1.contains("First page prose content."));
    assert!(results[2].1.contains("Third page prose content."));
}

#[test]
fn test_chunk_overlap_invalid_values() {
    // An overlap at or above the chunk size is a configuration error:
    // the result is empty, not a crash.
    let page = (
        "https://example.com".to_string(),
        "Some markdown content that might have been split.".to_string(),
    );
    for overlap in [500usize, 600, 1000] {
        let results = MarkdownHarvester::pages_to_chunks(vec![page.clone()], 500, Some(overlap));
        assert!(results.is_empty());
    }
}

#[test]
fn test_chunk_overlap_validation() {
    // Valid overlaps below the chunk size produce one record per page.
    let long_line = "This sentence repeats to give the splitter enough text to cut. ".repeat(40);
    let page = ("https://example.com".to_string(), long_line);
    for overlap in [50usize, 100, 200, 500, 999] {
        let results = MarkdownHarvester::pages_to_chunks(vec![page.clone()], 1000, Some(overlap));
        assert_eq!(results.len(), 1);
        assert_eq!(results[0].0, "https://example.com");
        assert!(results[0].1.iter().all(|chunk| !chunk.is_empty()));
    }
}

#[test]
fn test_markdown_chunk_size_validation() {
    // Chunks respect the configured size, with a margin for semantic
    // boundary preservation.
    let text = "A paragraph of steady prose that gives the splitter material. ".repeat(60);
    for chunk_size in [100usize, 500, 1000, 2000, 5000] {
        let chunks = split_markdown(&text, chunk_size, None);
        assert!(!chunks.is_empty());
        assert!(chunks.iter().all(|chunk| chunk.len() <= chunk_size * 2));
    }
}

#[test]
fn test_split_markdown_equal_size_and_overlap() {
    let text = "Markdown body with enough words to be split into pieces.";
    let chunks = split_markdown(text, 500, Some(500));
    assert!(chunks.is_empty());
}

#[test]
fn test_split_markdown_valid_overlap_produces_chunks() {
    let text = "Sentences that fill several chunks worth of text in a row. ".repeat(30);
    let chunks = split_markdown(&text, 500, Some(100));
    assert!(chunks.len() >= 2);
    assert!(chunks.iter().all(|chunk| chunk.len() <= 1000));
    assert!(chunks.iter().all(|chunk| !chunk.is_empty()));
}

#[test]
fn test_split_markdown_zero_size() {
    let chunks = split_markdown("any text", 0, None);
    assert!(chunks.is_empty());
}

#[test]
fn test_plan_harvest_no_urls() {
    // A text without links plans the one-shot no-URL signal, not a fetch.
    assert!(matches!(plan_harvest("plain text, no links"), HarvestPlan::NoUrls));
    assert!(matches!(plan_harvest(""), HarvestPlan::NoUrls));
}

#[test]
fn test_plan_harvest_with_urls() {
    match plan_harvest("see https://example.com/a and https://example.com/b.") {
        HarvestPlan::Fetch(urls) => {
            assert_eq!(
                urls,
                vec!["https://example.com/a".to_string(), "https://example.com/b".to_string()]
            );
        }
        HarvestPlan::NoUrls => panic!("expected a fetch plan"),
    }
}

#[test]
fn test_user_agent_to_string() {
    let chrome = UserAgent::WindowsChrome;
    let user_agent_string = chrome.to_string();
    assert!(user_agent_string.contains("Chrome"));
    assert!(user_agent_string.contains("Windows"));

    let firefox = UserAgent::LinuxFirefox;
    let user_agent_string = firefox.to_string();
    assert!(user_agent_string.contains("Firefox"));
    assert!(user_agent_string.contains("Linux"));
}

#[test]
fn test_user_agent_random_is_from_pool() {
    for _ in 0..20 {
        let agent = UserAgent::random();
        let s = agent.to_string();
        assert!(s.starts_with("Mozilla/5.0"));
    }
}
