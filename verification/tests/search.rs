use searxng_search::args::SearchArgs;
use searxng_search::base_url::BaseUrlError;
use searxng_search::error::SearchError;
use searxng_search::exchange::{SearchEvent, SearchState, ToolCallOptions, ToolResult};
use searxng_search::request::SearchRequest;
use searxng_search::response::{SearxngResponse, SearxngResult};
use searxng_search::tool::SearxngSearchTool;

fn tool() -> SearxngSearchTool {
    SearxngSearchTool::new(
        "http://127.0.0.1:8080".into(),
        10,
        "en".into(),
        "general".into(),
        10,
    )
}

fn json(text: &str) -> serde_json::Value {
    serde_json::from_str(text).unwrap()
}

fn response(results: Vec<SearxngResult>) -> SearxngResponse {
    SearxngResponse {
        results,
        query: None,
        number_of_results: None,
    }
}

fn sending(state: SearchState) -> SearchRequest {
    match state {
        SearchState::Sending(request) => request,
        _ => panic!("nothing is sent"),
    }
}

fn outcome(state: SearchState) -> Result<ToolResult, SearchError> {
    match state {
        SearchState::Finished(outcome) => outcome,
        _ => panic!("the search is not over"),
    }
}

/// A search that the instance answers with `status` and, where the body is asked for, `body`.
fn run(
    t: &SearxngSearchTool,
    args: &str,
    options: ToolCallOptions,
    status: u16,
    body: SearchEvent,
) -> Result<ToolResult, SearchError> {
    let state = t.begin(&json(args));
    let state = t.advance(state, SearchEvent::Responded(status), options);
    outcome(t.advance(state, body, options))
}

#[test]
fn test_execute_missing_query() {
    let result = outcome(tool().begin(&json("{}")));
    assert!(result.is_err());
    assert!(result.unwrap_err().message().contains("query"));
}

#[test]
fn test_execute_empty_query() {
    let result = outcome(tool().begin(&json(r#"{"query": "  "}"#)));
    assert!(result.is_err());
}

#[test]
fn test_execute_returns_error_on_non_2xx() {
    let t = SearxngSearchTool::new("http://127.0.0.1:1".into(), 5, "en".into(), "general".into(), 5);
    let result = run(
        &t,
        r#"{"query": "test"}"#,
        ToolCallOptions::default(),
        503,
        SearchEvent::BodyFailed("service unavailable".into()),
    );
    assert!(result.is_err());
    assert!(result.unwrap_err().message().contains("non-2xx status"));
}

#[test]
fn test_execute_returns_error_on_malformed_json() {
    let t = SearxngSearchTool::new("http://127.0.0.1:1".into(), 5, "en".into(), "general".into(), 5);
    let result = run(
        &t,
        r#"{"query": "test"}"#,
        ToolCallOptions::default(),
        200,
        SearchEvent::BodyFailed("not-valid-json".into()),
    );
    assert!(result.is_err());
    assert!(result.unwrap_err().message().contains("parse SearXNG response"));
}

#[test]
fn test_execute_success_full_results() {
    let t = SearxngSearchTool::new("http://127.0.0.1:1".into(), 5, "en".into(), "general".into(), 10);
    let request = sending(t.begin(&json(r#"{ "query": "searxng privacy" }"#)));
    assert!(request.params().contains(&("format", "json")));
    assert!(request.params().contains(&("q", "searxng privacy")));

    let body = SearxngResponse {
        results: vec![SearxngResult {
            title: Some("SearXNG Home".into()),
            url: "https://searxng.org".into(),
            content: Some("Privacy-respecting metasearch engine.".into()),
            engine: Some("duckduckgo".into()),
            published_date: Some("2024-06-01".into()),
            score_bits: Some(1.0f64.to_bits()),
        }],
        query: Some("searxng privacy".into()),
        number_of_results: Some(1),
    };
    let result = run(
        &t,
        r#"{ "query": "searxng privacy" }"#,
        ToolCallOptions::default(),
        200,
        SearchEvent::BodyParsed(body),
    )
    .unwrap();
    assert!(result.output().contains("SearXNG Home"));
    assert!(result.output().contains("https://searxng.org"));
    assert!(result.output().contains("Privacy-respecting metasearch engine."));
    assert!(result.output().contains("Published: 2024-06-01"));
}

#[test]
fn test_execute_success_empty_results() {
    let t = SearxngSearchTool::new("http://127.0.0.1:1".into(), 5, "en".into(), "general".into(), 10);
    let result = run(
        &t,
        r#"{"query": "obscure query"}"#,
        ToolCallOptions::default(),
        200,
        SearchEvent::BodyParsed(response(vec![])),
    )
    .unwrap();
    assert!(result.output().contains("No results found"));
}

#[test]
fn test_execute_respects_max_results_param() {
    let results: Vec<SearxngResult> = (1..=10)
        .map(|i| SearxngResult {
            title: Some(format!("Result {i}")),
            url: format!("https://example.com/{i}"),
            content: None,
            engine: Some("test".into()),
            published_date: None,
            score_bits: None,
        })
        .collect();
    let t = SearxngSearchTool::new("http://127.0.0.1:1".into(), 5, "en".into(), "general".into(), 10);
    let result = run(
        &t,
        r#"{"query": "test", "max_results": 3}"#,
        ToolCallOptions::default(),
        200,
        SearchEvent::BodyParsed(response(results)),
    )
    .unwrap();
    let output = result.output();
    assert!(output.contains("Result 1"));
    assert!(output.contains("Result 2"));
    assert!(output.contains("Result 3"));
    assert!(!output.contains("Result 4"));
}

#[test]
fn test_execute_markdown_output() {
    let t = SearxngSearchTool::new("http://127.0.0.1:1".into(), 5, "en".into(), "general".into(), 10);
    let body = response(vec![SearxngResult {
        title: Some("Test Page".into()),
        url: "https://test.example.com".into(),
        content: Some("A short snippet.".into()),
        engine: Some("google".into()),
        published_date: None,
        score_bits: None,
    }]);
    let result = run(
        &t,
        r#"{"query": "test"}"#,
        ToolCallOptions { prefer_markdown: true },
        200,
        SearchEvent::BodyParsed(body),
    )
    .unwrap();
    let md = result
        .markdown_formatted
        .as_deref()
        .expect("markdown_formatted should be set");
    assert!(md.contains("## [Test Page]"));
    assert!(md.contains("A short snippet."));
    assert_eq!(
        result.output(),
        "Search results for: test (via SearXNG)\n1. Test Page\n   https://test.example.com\n   A short snippet."
    );
}

#[test]
fn markdown_is_given_only_where_it_is_wanted() {
    let result = run(
        &tool(),
        r#"{"query": "test"}"#,
        ToolCallOptions::default(),
        299,
        SearchEvent::BodyParsed(response(vec![])),
    )
    .unwrap();
    assert!(result.markdown_formatted.is_none());
    let result = run(
        &tool(),
        r#"{"query": "test"}"#,
        ToolCallOptions { prefer_markdown: true },
        200,
        SearchEvent::BodyParsed(response(vec![])),
    )
    .unwrap();
    assert_eq!(result.output(), "No results found for: test");
    assert_eq!(result.markdown_formatted.as_deref(), Some("_No results for `test`._"));
}

#[test]
fn a_request_is_made_of_arguments_and_defaults() {
    let t = SearxngSearchTool::new(
        "https://s.example/searx/".into(),
        7,
        "en".into(),
        "general".into(),
        20,
    );
    let request = sending(t.begin(&json(r#"{"query": " a b "}"#)));
    assert_eq!(request.url, "https://s.example/searx/search");
    assert_eq!(
        request.params(),
        vec![
            ("q", "a b"),
            ("format", "json"),
            ("categories", "general"),
            ("language", "en"),
            ("pageno", "1"),
        ]
    );
    assert_eq!(request.max_results, 7);
    assert_eq!(request.timeout_secs, 20);

    let request = sending(t.begin(&json(
        r#"{"query": "q", "categories": "news, x", "language": " de ", "max_results": 12}"#,
    )));
    assert_eq!(
        request.params(),
        vec![
            ("q", "q"),
            ("format", "json"),
            ("categories", "news"),
            ("language", "de"),
            ("pageno", "1"),
        ]
    );
    assert_eq!(request.max_results, 12);
}

#[test]
fn the_number_of_results_is_brought_within_bounds() {
    for (asked, shown) in [("0", 1), ("1", 1), ("50", 50), ("51", 50), ("1000000", 50)] {
        let args = format!(r#"{{"query": "q", "max_results": {asked}}}"#);
        assert_eq!(sending(tool().begin(&json(&args))).max_results, shown);
    }
    for unfit in ["-1", "2.0", "\"3\"", "null"] {
        let args = format!(r#"{{"query": "q", "max_results": {unfit}}}"#);
        assert_eq!(sending(tool().begin(&json(&args))).max_results, 10);
    }
}

#[test]
fn arguments_of_another_type_count_as_absent() {
    let args = SearchArgs::from_json(&json(
        r#"{"query": "q", "categories": ["news"], "language": 3, "max_results": 18446744073709551615}"#,
    ));
    assert_eq!(args.query.as_deref(), Some("q"));
    assert!(args.categories.is_none());
    assert!(args.language.is_none());
    assert_eq!(args.max_results, Some(u64::MAX));
    for value in ["[]", "\"query\"", "null", "[{\"query\": \"q\"}]"] {
        let args = SearchArgs::from_json(&json(value));
        assert!(args.query.is_none());
        assert!(args.max_results.is_none());
    }
    assert!(outcome(tool().begin(&json(r#"{"query": 5}"#))).is_err());
}

#[test]
fn a_blank_language_counts_as_absent() {
    let request = sending(tool().begin(&json(r#"{"query": "q", "language": " \t"}"#)));
    assert_eq!(request.language, "en");
}

#[test]
fn a_missing_query_is_reported_before_a_refused_base_url() {
    let t = SearxngSearchTool::new("ftp://h".into(), 5, "en".into(), "general".into(), 5);
    assert!(matches!(outcome(t.begin(&json("{}"))), Err(SearchError::MissingQuery)));
    let refused = outcome(t.begin(&json(r#"{"query": "q"}"#))).unwrap_err();
    assert!(matches!(refused, SearchError::BaseUrl(BaseUrlError::Scheme)));
    assert_eq!(
        refused.message(),
        "SearXNG base_url must start with http:// or https://"
    );
}

#[test]
fn each_failure_has_its_message() {
    let options = ToolCallOptions::default();
    let t = tool();
    assert_eq!(
        outcome(t.begin(&json("{}"))).unwrap_err().message(),
        "Missing or empty required parameter: query"
    );
    let args = json(r#"{"query": "q"}"#);
    let failed = |event: SearchEvent| {
        outcome(t.advance(t.begin(&args), event, options)).unwrap_err().message()
    };
    assert_eq!(failed(SearchEvent::ClientFailed("no TLS".into())), "no TLS");
    assert_eq!(
        failed(SearchEvent::RequestFailed("timed out".into())),
        "SearXNG request failed: timed out"
    );
    assert_eq!(
        failed(SearchEvent::Responded(503)),
        "SearXNG returned non-2xx status: 503 Service Unavailable (check that the instance is running and the base_url is correct)"
    );
    assert_eq!(
        failed(SearchEvent::Responded(999)),
        "SearXNG returned non-2xx status: 999 <unknown status code> (check that the instance is running and the base_url is correct)"
    );
    let malformed = run(
        &t,
        r#"{"query": "q"}"#,
        options,
        200,
        SearchEvent::BodyFailed("expected value".into()),
    );
    assert_eq!(
        malformed.unwrap_err().message(),
        "Failed to parse SearXNG response: expected value"
    );
}

#[test]
fn success_is_a_status_from_200_to_299() {
    let t = tool();
    for status in [200, 204, 299] {
        let state = t.advance(
            t.begin(&json(r#"{"query": "q"}"#)),
            SearchEvent::Responded(status),
            ToolCallOptions::default(),
        );
        assert!(matches!(state, SearchState::Reading(_)));
    }
    for status in [100, 199, 300, 404, 999] {
        let state = t.advance(
            t.begin(&json(r#"{"query": "q"}"#)),
            SearchEvent::Responded(status),
            ToolCallOptions::default(),
        );
        assert!(matches!(state, SearchState::Finished(Err(SearchError::Status(_)))));
    }
}

#[test]
fn events_out_of_turn_change_nothing() {
    let t = tool();
    let options = ToolCallOptions::default();
    let state = t.begin(&json(r#"{"query": "q"}"#));
    let state = t.advance(state, SearchEvent::BodyParsed(response(vec![])), options);
    assert!(matches!(state, SearchState::Sending(_)));
    let state = t.advance(state, SearchEvent::Responded(200), options);
    let state = t.advance(state, SearchEvent::RequestFailed("late".into()), options);
    assert!(matches!(state, SearchState::Reading(_)));
    let state = t.advance(state, SearchEvent::BodyParsed(response(vec![])), options);
    let state = t.advance(state, SearchEvent::Responded(500), options);
    assert_eq!(outcome(state).unwrap().output(), "No results found for: q");
}
