use asuka_core::github::{
    commit_documents, github_target, issue_documents, GitHubTarget, org_activity_documents, plan_repo_fetches,
    pull_documents, repo_documents, CommitSummary, GitHubError, IssueSummary, PullSummary,
    RepoActivity, RepoRef, RepoSummary,
};
use asuka_core::time::Timestamp;

fn at(seconds: i64) -> Timestamp {
    Timestamp::new(seconds, 0)
}

const SINCE: i64 = 1704067200; // 2024-01-01T00:00:00Z

fn repo(full_name: Option<&str>, name: &str) -> RepoSummary {
    RepoSummary {
        name: name.to_string(),
        full_name: full_name.map(|s| s.to_string()),
        description: None,
        html_url: Some("https://github.com/acme/widget".to_string()),
        created_at: Some(at(SINCE - 86400)),
        updated_at: Some(at(SINCE + 3600)),
        payload: "{\"name\":\"widget\"}".to_string(),
    }
}

fn pull(number: u64, updated: Option<i64>) -> PullSummary {
    PullSummary {
        number,
        title: Some("Add gears".to_string()),
        author: Some("octo".to_string()),
        state: Some("Open".to_string()),
        html_url: Some(format!("https://github.com/acme/widget/pull/{}", number)),
        created_at: Some(at(SINCE - 10)),
        updated_at: updated.map(at),
        body: Some("Body".to_string()),
        payload: "{}".to_string(),
    }
}

fn issue(number: u64, updated: i64, is_pull_request: bool) -> IssueSummary {
    IssueSummary {
        number,
        title: "Broken".to_string(),
        author: "octo".to_string(),
        state: "Closed".to_string(),
        html_url: format!("https://github.com/acme/widget/issues/{}", number),
        created_at: at(SINCE - 10),
        updated_at: at(updated),
        body: None,
        is_pull_request,
        payload: "{}".to_string(),
    }
}

#[test]
fn repository_record_has_its_shape() {
    let docs = repo_documents("acme", &vec![repo(Some("acme/widget"), "widget")]);
    assert_eq!(docs.len(), 1);
    assert_eq!(docs[0].id, "github:repo:acme/widget");
    assert_eq!(docs[0].source_id, "github:acme");
    assert_eq!(
        docs[0].content,
        "Repository: acme/widget\nDescription: No description\nURL: https://github.com/acme/widget\nCreated: 2023-12-31 00:00:00 UTC\nLast Updated: 2024-01-01 01:00:00 UTC"
    );
    assert_eq!(docs[0].created_at, Some(at(SINCE - 86400)));
    assert_eq!(docs[0].metadata.as_deref(), Some("{\"name\":\"widget\"}"));
}

#[test]
fn repository_without_full_name_uses_its_name() {
    let docs = repo_documents("acme", &vec![repo(None, "widget")]);
    assert_eq!(docs[0].id, "github:repo:widget");
}

#[test]
fn pulls_are_filtered_by_watermark() {
    let pulls = vec![
        pull(7, Some(SINCE + 5)),
        pull(6, Some(SINCE)),
        pull(5, Some(SINCE - 1)),
        pull(4, None),
    ];
    let docs = pull_documents("acme", "acme", "widget", at(SINCE), &pulls);
    let ids: Vec<&str> = docs.iter().map(|d| d.id.as_str()).collect();
    assert_eq!(ids, vec!["github:pr:acme:acme/widget/7", "github:pr:acme:acme/widget/6"]);
    assert_eq!(
        docs[0].content,
        "Pull Request: #7 - Add gears\nAuthor: @octo\nState: Open\nURL: https://github.com/acme/widget/pull/7\nCreated: 2023-12-31 23:59:50 UTC\nLast Updated: 2024-01-01 00:00:05 UTC\n\nBody"
    );
}

#[test]
fn pull_without_state_reads_unknown() {
    let mut p = pull(1, Some(SINCE));
    p.state = None;
    p.title = None;
    p.author = None;
    p.body = None;
    let docs = pull_documents("acme", "acme", "widget", at(SINCE), &vec![p]);
    assert!(docs[0].content.starts_with("Pull Request: #1 - \nAuthor: @\nState: unknown\n"));
    assert!(docs[0].content.ends_with("\n\n"));
}

#[test]
fn issues_leave_out_pull_requests_and_old_ones() {
    let issues = vec![issue(3, SINCE + 1, false), issue(2, SINCE + 1, true), issue(1, SINCE - 1, false)];
    let docs = issue_documents("acme", "acme", "widget", at(SINCE), &issues);
    assert_eq!(docs.len(), 1);
    assert_eq!(docs[0].id, "github:issue:acme:acme/widget/3");
    assert_eq!(docs[0].source_id, "github:acme");
    assert_eq!(docs[0].created_at, Some(at(SINCE - 10)));
    assert!(docs[0].content.starts_with("Issue: #3 - Broken\nAuthor: @octo\nState: Closed\n"));
}

#[test]
fn commit_author_prefers_linked_login() {
    let linked = CommitSummary {
        sha: "abc123".to_string(),
        author_login: Some("octo".to_string()),
        author_name: Some("Octo Cat".to_string()),
        author_date: Some(at(SINCE)),
        html_url: "https://github.com/acme/widget/commit/abc123".to_string(),
        message: "Fix".to_string(),
        payload: "{}".to_string(),
    };
    let mut unlinked = linked.clone();
    unlinked.sha = "def456".to_string();
    unlinked.author_login = None;
    let docs = commit_documents("acme", "acme", "widget", &vec![linked, unlinked]);
    assert_eq!(docs[0].id, "github:commit:acme:acme/widget/abc123");
    assert_eq!(
        docs[0].content,
        "Commit: abc123\nAuthor: @octo\nDate: 2024-01-01 00:00:00 UTC\nURL: https://github.com/acme/widget/commit/abc123\n\nFix"
    );
    assert!(docs[1].content.contains("\nAuthor: Octo Cat\n"));
}

#[test]
fn repository_name_without_owner_fails_the_sync() {
    let repos = vec![repo(Some("acme/widget"), "widget"), repo(None, "gizmo")];
    match plan_repo_fetches(&repos) {
        Err(GitHubError::InvalidRepoName(n)) => assert_eq!(n, "gizmo"),
        Ok(_) => panic!("expected an error"),
    }
}

#[test]
fn plan_splits_owner_and_name() {
    let refs = plan_repo_fetches(&vec![repo(Some("acme/widget"), "widget")]).unwrap();
    assert_eq!(refs.len(), 1);
    assert_eq!(refs[0].owner, "acme");
    assert_eq!(refs[0].name, "widget");
}

fn acme_sync() -> Vec<asuka_core::document::Document> {
    let repos = vec![repo(Some("acme/widget"), "widget")];
    let refs = plan_repo_fetches(&repos).unwrap();
    let activity = vec![RepoActivity {
        repo: RepoRef { owner: refs[0].owner.clone(), name: refs[0].name.clone() },
        pulls: vec![pull(42, Some(SINCE + 60))],
        issues: vec![issue(42, SINCE + 60, true)],
        commits: vec![],
    }];
    org_activity_documents("acme", at(SINCE), &repos, &activity)
}

#[test]
fn end_to_end_organization_sync() {
    let docs = acme_sync();
    let ids: Vec<&str> = docs.iter().map(|d| d.id.as_str()).collect();
    assert_eq!(ids, vec!["github:repo:acme/widget", "github:pr:acme:acme/widget/42"]);
    assert!(docs.iter().all(|d| d.source_id == "github:acme"));
}

#[test]
fn resync_yields_identical_records() {
    let a = acme_sync();
    let b = acme_sync();
    assert_eq!(a.len(), b.len());
    for (x, y) in a.iter().zip(b.iter()) {
        assert_eq!(x.id, y.id);
        assert_eq!(x.content, y.content);
        assert_eq!(x.source_id, y.source_id);
    }
}

#[test]
fn activity_records_carry_the_sync_source() {
    let docs = pull_documents("acme/widget", "acme", "widget", at(SINCE), &vec![pull(1, Some(SINCE))]);
    assert_eq!(docs[0].source_id, "github:acme/widget");
    assert_eq!(docs[0].id, "github:pr:acme:acme/widget/1");
}

#[test]
fn github_locator_names_an_organization_or_a_repository() {
    match github_target("acme") {
        GitHubTarget::Organization(o) => assert_eq!(o, "acme"),
        _ => panic!("expected an organization"),
    }
    match github_target("acme/widget") {
        GitHubTarget::Repository(r) => {
            assert_eq!(r.owner, "acme");
            assert_eq!(r.name, "widget");
        }
        _ => panic!("expected a repository"),
    }
}
