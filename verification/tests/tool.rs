use searxng_search::fingerprint::{fingerprint_of_digest, query_fingerprint};
use searxng_search::tool::{clamp_results, SearxngSearchTool};

fn tool() -> SearxngSearchTool {
    SearxngSearchTool::new(
        "http://127.0.0.1:8080".into(),
        10,
        "en".into(),
        "general".into(),
        10,
    )
}

#[test]
fn test_tool_name() {
    assert_eq!(tool().name(), "searxng_search_tool");
}

#[test]
fn test_tool_description_mentions_searxng() {
    assert!(tool().description().contains("SearXNG"));
}

#[test]
fn test_parameters_schema_has_required_query() {
    let schema = tool().parameters_schema();
    assert_eq!(schema.kind, "object");
    assert!(schema.properties.iter().any(|p| p.name == "query"));
    let required = schema.required;
    assert!(required.iter().any(|v| *v == "query"));
}

#[test]
fn the_schema_is_exact() {
    let schema = tool().parameters_schema();
    let told: Vec<(&str, &str, &str, Option<usize>, Option<usize>)> = schema
        .properties
        .iter()
        .map(|p| (p.name, p.kind, p.description, p.minimum, p.maximum))
        .collect();
    assert_eq!(
        told,
        vec![
            (
                "query",
                "string",
                "The search query. Be specific for better results.",
                None,
                None
            ),
            (
                "categories",
                "string",
                "Comma-separated SearXNG categories. Valid values: general, news, images, videos, science, social_media, files. Defaults to config value.",
                None,
                None
            ),
            (
                "language",
                "string",
                "Language code for results, e.g. \"en\", \"de\". Defaults to config value.",
                None,
                None
            ),
            (
                "max_results",
                "integer",
                "Maximum results to return (1-50). Defaults to config value.",
                Some(1),
                Some(50)
            ),
        ]
    );
    assert_eq!(schema.required, vec!["query"]);
}

#[test]
fn the_tool_describes_itself() {
    assert!(tool().supports_markdown());
    assert_eq!(
        tool().description(),
        "Search the web via a self-hosted SearXNG instance. Returns results with titles, \
         URLs, and snippets. Supports categories (general, news, images, videos, science, \
         social_media, files) and language filtering. Requires a configured SearXNG base_url."
    );
}

#[test]
fn settings_are_brought_within_bounds() {
    let t = SearxngSearchTool::new("http://h//".into(), 0, " en ".into(), "".into(), 0);
    assert_eq!(t.base_url(), "http://h");
    assert_eq!(t.max_results(), 1);
    assert_eq!(t.default_language(), " en ");
    assert_eq!(t.default_categories(), "");
    assert_eq!(t.timeout_secs(), 1);
    let t = SearxngSearchTool::new("http://h".into(), 51, "en".into(), "news".into(), 7);
    assert_eq!(t.base_url(), "http://h");
    assert_eq!(t.max_results(), 50);
    assert_eq!(t.timeout_secs(), 7);
    assert_eq!(SearxngSearchTool::new("///".into(), 5, "".into(), "".into(), 1).base_url(), "");
    assert_eq!(clamp_results(1), 1);
    assert_eq!(clamp_results(50), 50);
    assert_eq!(clamp_results(usize::MAX), 50);
}

#[test]
fn fingerprints_are_heads_of_digests() {
    assert_eq!(query_fingerprint("abc"), "ba7816bf8f01cfea");
    assert_eq!(query_fingerprint(""), "e3b0c44298fc1c14");
    let mut digest = [0xffu8; 32];
    digest[0] = 0x01;
    digest[7] = 0xa0;
    assert_eq!(fingerprint_of_digest(&digest), "01ffffffffffffa0");
}
