use searxng_search::response::SearxngResult;
use searxng_search::tool::SearxngSearchTool;

fn tool() -> SearxngSearchTool {
    SearxngSearchTool::new(
        "http://127.0.0.1:8080".into(),
        10,
        "en".into(),
        "general".into(),
        10,
    )
}

fn result(title: Option<&str>, url: &str, content: Option<&str>, date: Option<&str>) -> SearxngResult {
    SearxngResult {
        title: title.map(String::from),
        url: url.into(),
        content: content.map(String::from),
        engine: None,
        published_date: date.map(String::from),
        score_bits: None,
    }
}

fn numbered(count: usize) -> Vec<SearxngResult> {
    (1..=count)
        .map(|i| SearxngResult {
            title: Some(format!("Result {i}")),
            url: format!("https://example.com/{i}"),
            content: None,
            engine: None,
            published_date: None,
            score_bits: None,
        })
        .collect()
}

#[test]
fn test_format_results_empty() {
    let result = tool().format_results(&[], "test query", 10);
    assert!(result.contains("No results found"));
}

#[test]
fn test_format_results_with_data() {
    let results = vec![
        SearxngResult {
            title: Some("SearXNG Docs".into()),
            url: "https://docs.searxng.org".into(),
            content: Some("SearXNG is a free meta-search engine.".into()),
            engine: Some("duckduckgo".into()),
            published_date: None,
            score_bits: Some(1.0f64.to_bits()),
        },
        SearxngResult {
            title: Some("GitHub SearXNG".into()),
            url: "https://github.com/searxng/searxng".into(),
            content: None,
            engine: Some("google".into()),
            published_date: Some("2024-01-15".into()),
            score_bits: Some(0.9f64.to_bits()),
        },
    ];

    let result = tool().format_results(&results, "searxng", 10);
    assert!(result.contains("via SearXNG"));
    assert!(result.contains("SearXNG Docs"));
    assert!(result.contains("https://docs.searxng.org"));
    assert!(result.contains("SearXNG is a free meta-search engine."));
    assert!(result.contains("Published: 2024-01-15"));
}

#[test]
fn test_format_results_respects_max_results() {
    let t = SearxngSearchTool::new(
        "http://localhost:8080".into(),
        2,
        "en".into(),
        "general".into(),
        10,
    );
    let results: Vec<SearxngResult> = (1..=5)
        .map(|i| SearxngResult {
            title: Some(format!("Result {i}")),
            url: format!("https://example.com/{i}"),
            content: None,
            engine: None,
            published_date: None,
            score_bits: None,
        })
        .collect();

    let output = t.format_results(&results, "q", 2);
    assert!(output.contains("Result 1"));
    assert!(output.contains("Result 2"));
    assert!(!output.contains("Result 3"));
}

#[test]
fn test_format_results_handles_missing_title() {
    let results = vec![SearxngResult {
        title: None,
        url: "https://example.com".into(),
        content: Some("Some content".into()),
        engine: None,
        published_date: None,
        score_bits: None,
    }];
    let output = tool().format_results(&results, "q", 10);
    assert!(output.contains("No title"));
}

#[test]
fn test_format_results_truncates_long_content() {
    let long_content = "x".repeat(600);
    let results = vec![SearxngResult {
        title: Some("T".into()),
        url: "https://example.com".into(),
        content: Some(long_content),
        engine: None,
        published_date: None,
        score_bits: None,
    }];
    let output = tool().format_results(&results, "q", 10);
    assert!(output.contains("..."));
    let line = output.lines().find(|l| l.trim().starts_with('x')).unwrap();
    // 500 chars + "..." = 503 at most, plus the "   " indent prefix
    assert!(line.trim().len() <= 503);
}

#[test]
fn plain_text_is_exact() {
    let results = vec![
        result(Some(" A "), " http://a ", Some(" text \n"), Some(" 2024 ")),
        result(Some("  "), "http://b", Some(" "), Some("\t")),
    ];
    assert_eq!(
        tool().format_results(&results, "q w", 10),
        "Search results for: q w (via SearXNG)\n\
         1. A\n   http://a\n   Published: 2024\n   text\n\
         2. No title\n   http://b"
    );
    assert_eq!(tool().format_results(&[], "q w", 10), "No results found for: q w");
}

#[test]
fn markdown_is_exact() {
    let results = vec![
        result(Some(" A "), " http://a ", Some(" text \n"), Some(" 2024 ")),
        result(None, "http://b", None, None),
    ];
    assert_eq!(
        tool().render_results_markdown(&results, "q w", 10),
        "# Search results: `q w` (SearXNG)\n\
         \n## [A](http://a)\n_Published: 2024_\n\n> text\n\
         \n## [Untitled](http://b)\n"
    );
    assert_eq!(tool().render_results_markdown(&[], "q w", 10), "_No results for `q w`._");
}

#[test]
fn long_snippets_are_cut_in_both_forms() {
    let content = "é".repeat(501);
    let cut = format!("{}...", "é".repeat(500));
    let results = vec![result(Some("T"), "u", Some(&content), None)];
    assert_eq!(
        tool().format_results(&results, "q", 1),
        format!("Search results for: q (via SearXNG)\n1. T\n   u\n   {cut}")
    );
    assert_eq!(
        tool().render_results_markdown(&results, "q", 1),
        format!("# Search results: `q` (SearXNG)\n\n## [T](u)\n> {cut}\n")
    );
    let whole = "é".repeat(500);
    let results = vec![result(Some("T"), "u", Some(&whole), None)];
    assert!(tool().format_results(&results, "q", 1).ends_with(&format!("   {whole}")));
}

#[test]
fn results_past_the_limit_change_nothing() {
    let t = tool();
    assert_eq!(t.format_results(&numbered(12), "q", 10), t.format_results(&numbered(10), "q", 10));
    assert_eq!(
        t.render_results_markdown(&numbered(12), "q", 10),
        t.render_results_markdown(&numbered(10), "q", 10)
    );
    assert!(t.format_results(&numbered(12), "q", 10).contains("10. Result 10\n"));
    assert_eq!(
        t.format_results(&numbered(3), "q", 0),
        "Search results for: q (via SearXNG)"
    );
    assert_eq!(t.render_results_markdown(&numbered(3), "q", 0), "# Search results: `q` (SearXNG)\n");
}

#[test]
fn engine_and_score_are_not_shown() {
    let plain = vec![result(Some("A"), "u", None, None)];
    let mut scored = vec![result(Some("A"), "u", None, None)];
    scored[0].engine = Some("google".into());
    scored[0].score_bits = Some(2.5f64.to_bits());
    assert_eq!(tool().format_results(&plain, "q", 5), tool().format_results(&scored, "q", 5));
    assert_eq!(
        tool().render_results_markdown(&plain, "q", 5),
        tool().render_results_markdown(&scored, "q", 5)
    );
}

#[test]
fn a_blank_title_is_replaced() {
    let results = vec![result(Some(" \u{2003}"), "u", None, None)];
    assert!(tool().format_results(&results, "q", 5).contains("1. No title\n"));
    assert!(tool().render_results_markdown(&results, "q", 5).contains("## [Untitled](u)"));
}
