use markdown_harvest::clean_url;
use markdown_harvest::extract_urls;
use markdown_harvest::HttpClient;

#[test]
fn http_client_test_new() {
    let client = HttpClient::new();
    assert_eq!(std::mem::size_of_val(&client), 0);
}

#[test]
fn test_extract_urls() {
    let client = HttpClient::new();

    let text = "Check out https://example.com and https://test.org for more info";
    let urls = client.extract_urls(text);
    assert_eq!(urls.len(), 2);
    assert!(urls.contains(&"https://example.com".to_string()));
    assert!(urls.contains(&"https://test.org".to_string()));

    let text = "This text has no URLs";
    let urls = client.extract_urls(text);
    assert_eq!(urls.len(), 0);
}

#[test]
fn test_extract_urls_with_query_strings() {
    let client = HttpClient::new();

    let text = "Cavafy lived in England for much of his adolescence, and developed both a command of the English language and a preference for the writings of William Shakespeare http://www.poetryfoundation.org/archive/poet.html?id=6176 and Oscar Wilde http://www.poetryfoundation.org/archive/poet.html?id=7425. Cavafy's older brothers mismanaged the family business in Liverpool, and Cavafy's mother was ultimately compelled to move the family back to Alexandria, where they lived until 1882.";
    let urls = client.extract_urls(text);
    assert_eq!(urls.len(), 2);
    assert!(urls.contains(&"http://www.poetryfoundation.org/archive/poet.html?id=6176".to_string()));
    assert!(urls.contains(&"http://www.poetryfoundation.org/archive/poet.html?id=7425".to_string()));

    let text = "Rust is a general-purpose https://en.wikipedia.org/wiki/General-purpose_programming_language programming language https://en.wikipedia.org/wiki/Programming_language emphasizing performance https://en.wikipedia.org/wiki/Computer_performance, type safety https://en.wikipedia.org/wiki/Type_safety, and concurrency https://en.wikipedia.org/wiki/Concurrency_(computer_science). It enforces memory safety https://en.wikipedia.org/wiki/Memory_safety, meaning that all references point to valid memory.";
    let urls = client.extract_urls(text);
    assert_eq!(urls.len(), 6);
    assert!(
        urls.contains(&"https://en.wikipedia.org/wiki/General-purpose_programming_language".to_string())
    );
    assert!(urls.contains(&"https://en.wikipedia.org/wiki/Programming_language".to_string()));
    assert!(urls.contains(&"https://en.wikipedia.org/wiki/Computer_performance".to_string()));
    assert!(urls.contains(&"https://en.wikipedia.org/wiki/Type_safety".to_string()));
    assert!(urls.contains(&"https://en.wikipedia.org/wiki/Concurrency_(computer_science)".to_string()));
    assert!(urls.contains(&"https://en.wikipedia.org/wiki/Memory_safety".to_string()));

    let text = "A language empowering everyone https://www.rust-lang.org/ to build reliable and efficient software.";
    let urls = client.extract_urls(text);
    assert_eq!(urls.len(), 1);
    assert!(urls.contains(&"https://www.rust-lang.org/".to_string()));
}

#[test]
fn test_clean_url() {
    assert_eq!(clean_url("https://example.com."), "https://example.com");
    assert_eq!(clean_url("https://example.com,"), "https://example.com");
    assert_eq!(clean_url("https://example.com!"), "https://example.com");
    assert_eq!(clean_url("https://example.com"), "https://example.com");

    // Balanced parentheses are preserved.
    assert_eq!(
        clean_url("https://en.wikipedia.org/wiki/Concurrency_(computer_science)"),
        "https://en.wikipedia.org/wiki/Concurrency_(computer_science)"
    );

    // An unbalanced closing parenthesis is stripped.
    assert_eq!(clean_url("https://example.com)"), "https://example.com");
}

#[test]
fn test_clean_url_idempotent() {
    // Normalizing twice gives the same string as normalizing once.
    let samples = [
        "https://example.com.",
        "https://example.com)",
        "https://en.wikipedia.org/wiki/Concurrency_(computer_science).",
        "https://example.com/a(b))...",
        "https://example.com,;!?]}",
        "https://example.com",
    ];
    for s in samples.iter() {
        let once = clean_url(s);
        let twice = clean_url(&once);
        assert_eq!(once, twice);
    }
}

#[test]
fn test_clean_url_balanced_paren_then_dot() {
    // The trailing dot goes; the balancing parenthesis stays.
    assert_eq!(
        clean_url("https://en.wikipedia.org/wiki/Concurrency_(computer_science)."),
        "https://en.wikipedia.org/wiki/Concurrency_(computer_science)"
    );
}

#[test]
fn test_extract_urls_order_and_duplicates() {
    // Left-to-right order, duplicates preserved.
    let text = "a https://one.example/x b https://two.example/y c https://one.example/x d";
    let urls = extract_urls(text);
    assert_eq!(
        urls,
        vec![
            "https://one.example/x".to_string(),
            "https://two.example/y".to_string(),
            "https://one.example/x".to_string(),
        ]
    );
}

#[test]
fn test_extract_urls_no_url_input() {
    // Text without links yields an empty sequence, not an error.
    let urls = extract_urls("plain text, no links");
    assert!(urls.is_empty());
}

#[test]
fn test_extract_urls_scheme_without_host() {
    // A bare scheme with nothing after it is not a URL.
    let urls = extract_urls("see http:// and https:// alone");
    assert!(urls.is_empty());
}

#[test]
fn test_extract_urls_trailing_sentence_punctuation() {
    let urls = extract_urls("Read https://example.com/docs. Then stop.");
    assert_eq!(urls, vec!["https://example.com/docs".to_string()]);
}
