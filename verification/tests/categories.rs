use searxng_search::categories::is_known_category;
use searxng_search::tool::SearxngSearchTool;

fn tool() -> SearxngSearchTool {
    SearxngSearchTool::new(
        "http://127.0.0.1:8080".into(),
        10,
        "en".into(),
        "general".into(),
        10,
    )
}

#[test]
fn test_parse_categories_defaults_on_empty() {
    let t = SearxngSearchTool::new(
        "http://localhost:8080".into(),
        5,
        "en".into(),
        "general".into(),
        10,
    );
    assert_eq!(t.parse_categories(None), "general");
    assert_eq!(t.parse_categories(Some("")), "general");
}

#[test]
fn test_parse_categories_passes_valid() {
    let t = tool();
    assert_eq!(t.parse_categories(Some("news")), "news");
    assert_eq!(t.parse_categories(Some("news,science")), "news,science");
}

#[test]
fn test_parse_categories_filters_invalid() {
    let t = tool();
    assert_eq!(
        t.parse_categories(Some("news,movies")),
        "news",
        "invalid category should be stripped"
    );
}

#[test]
fn test_parse_categories_all_invalid_falls_back() {
    let t = tool();
    assert_eq!(t.parse_categories(Some("movies,audio")), "general");
}

#[test]
fn categories_keep_their_order_and_repetitions() {
    let t = tool();
    assert_eq!(
        t.parse_categories(Some(" files ,\tnews,files,, IMAGES,social_media\n")),
        "files,news,files,social_media"
    );
}

#[test]
fn the_default_is_given_as_it_is_configured() {
    let t = SearxngSearchTool::new("http://h".into(), 5, "en".into(), " movies ".into(), 10);
    assert_eq!(t.parse_categories(Some(" , ,")), " movies ");
    assert_eq!(t.parse_categories(Some("  \u{2003} ")), " movies ");
    assert_eq!(t.parse_categories(Some("generals")), " movies ");
}

#[test]
fn chosen_categories_are_chosen_again() {
    let t = tool();
    let once = t.parse_categories(Some("x, videos ,general , images,science"));
    assert_eq!(once, "videos,general,images,science");
    assert_eq!(t.parse_categories(Some(&once)), once);
}

#[test]
fn seven_categories_are_known() {
    for name in ["general", "news", "images", "videos", "science", "social_media", "files"] {
        assert!(is_known_category(name));
    }
    for name in ["", "General", "new", "newss", "social media", " news"] {
        assert!(!is_known_category(name));
    }
}
