use asuka_core::document::Document;
use asuka_core::loader::{
    gather_outcomes, parse_source, site_document, LoaderError, plan_sources, source_documents, DocumentMetadata, MultiLoader,
    MultiLoaderConfig, SkipReason, SourceDescriptor, SourceStatus, SourceType,
};
use asuka_core::site::SiteLoaderError;

fn strings(v: &[&str]) -> Vec<String> {
    v.iter().map(|s| s.to_string()).collect()
}

fn doc(id: &str) -> Document {
    Document {
        id: id.to_string(),
        source_id: "github:orgX".to_string(),
        content: "c".to_string(),
        created_at: None,
        metadata: None,
    }
}

#[test]
fn dispatcher_skips_unknown_and_malformed_sources() {
    let plan = plan_sources(&strings(&["bogus", "github:orgX", "nope:1"]));
    assert_eq!(plan.sources.len(), 1);
    assert_eq!(plan.sources[0].kind, SourceType::Github);
    assert_eq!(plan.sources[0].locator, "orgX");
    assert_eq!(
        plan.skipped,
        vec![
            ("bogus".to_string(), SkipReason::MissingColon),
            ("nope:1".to_string(), SkipReason::UnknownType)
        ]
    );
    let outcomes = vec![Ok(vec![doc("github:repo:orgX/a")])];
    let report = gather_outcomes(plan, outcomes);
    assert_eq!(report.documents.len(), 1);
    assert!(report.documents.iter().all(|d| d.source_id == "github:orgX"));
    assert!(matches!(report.statuses[0], SourceStatus::Loaded(1)));
}

#[test]
fn locator_keeps_its_colons() {
    let d = parse_source("site:https://example.com:8080/a").unwrap();
    assert_eq!(d.kind, SourceType::Site);
    assert_eq!(d.locator, "https://example.com:8080/a");
}

#[test]
fn all_known_kinds_parse() {
    assert_eq!(parse_source("file:docs/*.md").unwrap().kind, SourceType::File);
    assert_eq!(parse_source("pdf:papers/*.pdf").unwrap().kind, SourceType::Pdf);
    assert_eq!(parse_source("github:acme").unwrap().kind, SourceType::Github);
    assert!(matches!(parse_source("GitHub:acme"), Err(SkipReason::UnknownType)));
    assert!(matches!(parse_source(""), Err(SkipReason::MissingColon)));
}

#[test]
fn kind_names_are_canonical() {
    assert_eq!(SourceType::Github.as_str(), "github");
    assert_eq!(SourceType::from_name("pdf"), Some(SourceType::Pdf));
    assert_eq!(SourceType::from_name("web"), None);
}

#[test]
fn failing_source_does_not_stop_the_others() {
    let plan = plan_sources(&strings(&["github:a", "site:https://x.test", "github:b"]));
    let outcomes = vec![
        Ok(vec![doc("1"), doc("2")]),
        Err(LoaderError::SiteError(SiteLoaderError::RequestError(
            "connection refused".to_string(),
        ))),
        Ok(vec![doc("3")]),
    ];
    let report = gather_outcomes(plan, outcomes);
    let ids: Vec<&str> = report.documents.iter().map(|d| d.id.as_str()).collect();
    assert_eq!(ids, vec!["1", "2", "3"]);
    assert!(matches!(report.statuses[0], SourceStatus::Loaded(2)));
    match &report.statuses[1] {
        SourceStatus::Failed(LoaderError::SiteError(SiteLoaderError::RequestError(m))) => {
            assert_eq!(m, "connection refused")
        }
        _ => panic!("expected a failure"),
    }
    assert!(matches!(report.statuses[2], SourceStatus::Loaded(1)));
    assert!(report.skipped.is_empty());
}

#[test]
fn file_items_become_records() {
    let d = SourceDescriptor { kind: SourceType::File, locator: "notes/*.md".to_string() };
    let items = vec![
        ("notes/a.md".to_string(), "alpha".to_string()),
        ("notes/b.md".to_string(), "beta".to_string()),
    ];
    let docs = source_documents(&d, &items);
    assert_eq!(docs.len(), 2);
    assert_eq!(docs[0].id, "notes/a.md");
    assert_eq!(docs[1].content, "beta");
    assert_eq!(docs[0].source_id, "file:notes/*.md");
    assert_eq!(docs[0].created_at, None);
    assert_eq!(
        docs[0].metadata.as_deref(),
        Some("{\"source_type\":\"file\",\"source_url\":\"notes/*.md\"}")
    );
}

#[test]
fn metadata_escapes_the_locator() {
    let m = DocumentMetadata {
        source_type: SourceType::Site,
        source_url: "https://example.com/\"q\"".to_string(),
    };
    assert_eq!(
        m.to_json(),
        "{\"source_type\":\"site\",\"source_url\":\"https://example.com/\\\"q\\\"\"}"
    );
}

#[test]
fn loader_builds_site_extractors_under_its_root() {
    let loader = MultiLoader::new(MultiLoaderConfig { sources_path: ".sources".to_string() });
    let site = loader.site_loader("https://example.com/a/b".to_string()).unwrap();
    assert_eq!(site.get_site_dir(), ".sources/sites/example.com/a/b");
    assert!(matches!(
        loader.site_loader("not a url".to_string()),
        Err(SiteLoaderError::UrlError(_))
    ));
}

#[test]
fn site_record_is_keyed_by_its_url() {
    let d = parse_source("site:https://example.com:8080/p").unwrap();
    let doc = site_document(&d, "main text".to_string());
    assert_eq!(doc.id, "https://example.com:8080/p");
    assert_eq!(doc.source_id, "site:https://example.com:8080/p");
    assert_eq!(doc.content, "main text");
    assert_eq!(doc.created_at, None);
    assert_eq!(
        doc.metadata.as_deref(),
        Some("{\"source_type\":\"site\",\"source_url\":\"https://example.com:8080/p\"}")
    );
}

#[test]
fn metadata_escapes_control_characters() {
    let m = DocumentMetadata {
        source_type: SourceType::File,
        source_url: "a\u{1}b\tc\\d\u{1f}é".to_string(),
    };
    assert_eq!(
        m.to_json(),
        "{\"source_type\":\"file\",\"source_url\":\"a\\u0001b\\tc\\\\d\\u001fé\"}"
    );
}
