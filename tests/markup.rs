use asuka_core::markup::{body_region, normalize_text};
use asuka_core::site::{strip_markup, SiteLoader, SiteLoaderError};

#[test]
fn body_is_isolated() {
    assert_eq!(
        body_region("<html><head>x</head><body class=\"a\">hi</body></html>"),
        "<body class=\"a\">hi</body>"
    );
}

#[test]
fn missing_body_markers_keep_the_whole_page() {
    assert_eq!(body_region("<p>no body</p>"), "<p>no body</p>");
    assert_eq!(body_region("<body>open only"), "<body>open only");
}

#[test]
fn entities_are_decoded_in_order() {
    assert_eq!(normalize_text("a&nbsp;b &amp; c &lt;d&gt;"), "a b & c <d>");
    assert_eq!(normalize_text("&amp;lt;"), "&lt;");
    assert_eq!(normalize_text("&lt;b&gt; &amp;amp;"), "<b> &amp;");
}

#[test]
fn whitespace_runs_collapse_and_ends_trim() {
    assert_eq!(normalize_text("  a \n\n b\tc  "), "a b\tc");
    assert_eq!(normalize_text("x\ny"), "x\ny");
    assert_eq!(normalize_text(""), "");
    assert_eq!(normalize_text(" \t\n "), "");
}

#[test]
fn markup_stripping_drops_scripts_styles_and_tags() {
    let html = "<html><head><title>t</title></head><body><script type=\"text/javascript\">var x = 1 < 2;</script><style>p { color: red; }</style><p>Tom &amp; Jerry</p>\n\n<div>Ends</div></body></html>";
    let text = strip_markup(html).unwrap();
    assert_eq!(text, "Tom & Jerry Ends");
    assert!(!text.contains('<') && !text.contains('>'));
    assert!(!text.contains("var x") && !text.contains("color"));
}

#[test]
fn site_cache_paths_follow_host_and_path() {
    let site = SiteLoader::new("https://example.com/blog/post/".to_string(), ".sources").unwrap();
    assert_eq!(site.host.as_deref(), Some("example.com"));
    assert_eq!(site.get_site_dir(), ".sources/sites/example.com/blog/post");
    assert_eq!(site.html_path(), ".sources/sites/example.com/blog/post/index.html");
    assert_eq!(site.content_path(), ".sources/sites/example.com/blog/post/content.txt");
    let root = SiteLoader::new("https://example.com".to_string(), "cache").unwrap();
    assert_eq!(root.get_site_dir(), "cache/sites/example.com");
}

#[test]
fn site_without_host_uses_unknown() {
    let site = SiteLoader::new("file:///tmp/page.html".to_string(), "c").unwrap();
    assert_eq!(site.get_site_dir(), "c/sites/unknown/tmp/page.html");
}

#[test]
fn malformed_url_fails_at_construction() {
    assert!(matches!(
        SiteLoader::new("example.com/no-scheme".to_string(), ".sources"),
        Err(SiteLoaderError::UrlError(_))
    ));
}

#[test]
fn prepared_text_is_the_stripped_page() {
    let site = SiteLoader::new("https://example.com".to_string(), ".sources").unwrap();
    assert_eq!(site.prepare_text("<body><b>Bold</b>  text</body>").unwrap(), "Bold text");
}

#[test]
fn unicode_whitespace_is_trimmed_and_collapsed() {
    assert_eq!(normalize_text("\u{3000}a\u{A0}\u{2003}b\u{2028}"), "a b");
    assert_eq!(normalize_text("a\u{A0}b"), "a\u{A0}b");
}
