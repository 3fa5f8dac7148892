//! Normalization of an organization's GitHub activity into records.
//!
//! The provider's entities arrive as plain summaries. Pull requests and issues
//! are filtered here against the watermark `since` (the provider's own time
//! filter is not relied on for them); commits arrive already filtered by the
//! provider. Every GitHub record of an organization sync carries the source id
//! `github:<owner>`, so that a whole organization can be retrieved or pruned
//! as one source.

use crate::document::{
    lemma_filter_map_step, lemma_map_step, lemma_views_add, lemma_views_push, views, Document,
    DocumentView,
};
use crate::text::{decimal, render_u64, split_once, split_once_spec};
use crate::time::{render_or_epoch, rendered_or_epoch, Timestamp};
use vstd::prelude::*;

verus! {

/// A repository as the provider lists it.
#[derive(Clone, Debug)]
pub struct RepoSummary {
    pub name: String,
    pub full_name: Option<String>,
    pub description: Option<String>,
    pub html_url: Option<String>,
    pub created_at: Option<Timestamp>,
    pub updated_at: Option<Timestamp>,
    /// The provider's payload, as JSON text.
    pub payload: String,
}

/// A pull request as the provider lists it.
#[derive(Clone, Debug)]
pub struct PullSummary {
    pub number: u64,
    pub title: Option<String>,
    pub author: Option<String>,
    pub state: Option<String>,
    pub html_url: Option<String>,
    pub created_at: Option<Timestamp>,
    pub updated_at: Option<Timestamp>,
    pub body: Option<String>,
    pub payload: String,
}

/// An issue as the provider lists it; the issues listing also returns pull
/// requests, which carry a pull-request link (`is_pull_request`).
#[derive(Clone, Debug)]
pub struct IssueSummary {
    pub number: u64,
    pub title: String,
    pub author: String,
    pub state: String,
    pub html_url: String,
    pub created_at: Timestamp,
    pub updated_at: Timestamp,
    pub body: Option<String>,
    pub is_pull_request: bool,
    pub payload: String,
}

/// A commit as the provider lists it.
#[derive(Clone, Debug)]
pub struct CommitSummary {
    pub sha: String,
    /// The login of the linked account, if the commit is linked to one.
    pub author_login: Option<String>,
    /// The author name recorded in the commit itself.
    pub author_name: Option<String>,
    pub author_date: Option<Timestamp>,
    pub html_url: String,
    pub message: String,
    pub payload: String,
}

/// A repository split into its owner and its name.
#[derive(Clone, Debug)]
pub struct RepoRef {
    pub owner: String,
    pub name: String,
}

/// What was fetched for one repository since the watermark.
#[derive(Clone, Debug)]
pub struct RepoActivity {
    pub repo: RepoRef,
    pub pulls: Vec<PullSummary>,
    pub issues: Vec<IssueSummary>,
    pub commits: Vec<CommitSummary>,
}

#[derive(Clone, Debug)]
pub enum GitHubError {
    /// A repository's qualified name has no `owner/` part.
    InvalidRepoName(String),
}

pub open spec fn text_or(o: Option<String>, default: Seq<char>) -> Seq<char> {
    match o {
        Some(s) => s@,
        None => default,
    }
}

fn str_or<'a>(o: &'a Option<String>, default: &'a str) -> (r: &'a str)
    ensures
        r@ == text_or(*o, default@),
{
    match o {
        Some(s) => s.as_str(),
        None => default,
    }
}

/// The id of a repository entity: `github:<kind>:<owner>:<owner>/<repo>/<key>`.
pub open spec fn entity_id(kind: Seq<char>, owner: Seq<char>, repo: Seq<char>, key: Seq<char>) -> Seq<char> {
    "github:"@ + kind + ":"@ + owner + ":"@ + owner + "/"@ + repo + "/"@ + key
}

fn make_entity_id(kind: &str, owner: &str, repo: &str, key: &str) -> (r: String)
    ensures
        r@ == entity_id(kind@, owner@, repo@, key@),
{
    let mut r = String::from_str("github:");
    r.append(kind);
    r.append(":");
    r.append(owner);
    r.append(":");
    r.append(owner);
    r.append("/");
    r.append(repo);
    r.append("/");
    r.append(key);
    r
}

/// The source id shared by all records of an organization.
pub open spec fn org_source_id(org: Seq<char>) -> Seq<char> {
    "github:"@ + org
}

fn make_org_source_id(org: &str) -> (r: String)
    ensures
        r@ == org_source_id(org@),
{
    let mut r = String::from_str("github:");
    r.append(org);
    r
}

// ---------------------------------------------------------------- repositories

/// The full `owner/name` of a repository, or its bare name where the
/// provider gave no full name.
pub open spec fn qualified_name(r: RepoSummary) -> Seq<char> {
    text_or(r.full_name, r.name@)
}

pub open spec fn repo_content(r: RepoSummary) -> Seq<char> {
    "Repository: "@ + qualified_name(r) + "\nDescription: "@ + text_or(
        r.description,
        "No description"@,
    ) + "\nURL: "@ + text_or(r.html_url, ""@) + "\nCreated: "@ + rendered_or_epoch(r.created_at)
        + "\nLast Updated: "@ + rendered_or_epoch(r.updated_at)
}

pub open spec fn repo_record(org: Seq<char>, r: RepoSummary) -> DocumentView {
    DocumentView {
        id: "github:repo:"@ + qualified_name(r),
        source_id: org_source_id(org),
        content: repo_content(r),
        created_at: r.created_at,
        metadata: Some(r.payload@),
    }
}

pub open spec fn repo_record_of(org: Seq<char>) -> spec_fn(RepoSummary) -> DocumentView {
    |r: RepoSummary| repo_record(org, r)
}

/// The record of one repository of organization `org`.
pub fn repo_document(org: &str, repo: &RepoSummary) -> (d: Document)
    ensures
        d@ == repo_record(org@, *repo),
{
    let name = str_or(&repo.full_name, repo.name.as_str());
    let mut id = String::from_str("github:repo:");
    id.append(name);
    let mut content = String::from_str("Repository: ");
    content.append(name);
    content.append("\nDescription: ");
    content.append(str_or(&repo.description, "No description"));
    content.append("\nURL: ");
    content.append(str_or(&repo.html_url, ""));
    content.append("\nCreated: ");
    content.append(render_or_epoch(repo.created_at).as_str());
    content.append("\nLast Updated: ");
    content.append(render_or_epoch(repo.updated_at).as_str());
    Document {
        id,
        source_id: make_org_source_id(org),
        content,
        created_at: repo.created_at,
        metadata: Some(repo.payload.clone()),
    }
}

/// One record per repository of organization `org`, in listing order.
pub fn repo_documents(org: &str, repos: &Vec<RepoSummary>) -> (r: Vec<Document>)
    ensures
        views(r@) == repos@.map_values(repo_record_of(org@)),
{
    let mut out: Vec<Document> = Vec::new();
    for i in 0..repos.len()
        invariant
            views(out@) == repos@.take(i as int).map_values(repo_record_of(org@)),
    {
        proof {
            lemma_map_step(repos@, i as int, repo_record_of(org@));
        }
        let d = repo_document(org, &repos[i]);
        proof {
            lemma_views_push(out@, d);
        }
        out.push(d);
    }
    proof {
        assert(repos@.take(repos@.len() as int) =~= repos@);
    }
    out
}

// ---------------------------------------------------------------- pull requests

/// A pull request is kept when it was updated at or after the watermark.
pub open spec fn pull_kept(since: Timestamp) -> spec_fn(PullSummary) -> bool {
    |p: PullSummary|
        match p.updated_at {
            Some(u) => since.spec_le(u),
            None => false,
        }
}

pub open spec fn pull_content(p: PullSummary) -> Seq<char> {
    "Pull Request: #"@ + decimal(p.number as nat) + " - "@ + text_or(p.title, ""@)
        + "\nAuthor: @"@ + text_or(p.author, ""@) + "\nState: "@ + text_or(p.state, "unknown"@)
        + "\nURL: "@ + text_or(p.html_url, ""@) + "\nCreated: "@ + rendered_or_epoch(p.created_at)
        + "\nLast Updated: "@ + rendered_or_epoch(p.updated_at) + "\n\n"@ + text_or(p.body, ""@)
}

pub open spec fn pull_record(
    source: Seq<char>,
    owner: Seq<char>,
    repo: Seq<char>,
    p: PullSummary,
) -> DocumentView {
    DocumentView {
        id: entity_id("pr"@, owner, repo, decimal(p.number as nat)),
        source_id: org_source_id(source),
        content: pull_content(p),
        created_at: p.created_at,
        metadata: Some(p.payload@),
    }
}

pub open spec fn pull_record_of(source: Seq<char>, owner: Seq<char>, repo: Seq<char>) -> spec_fn(
    PullSummary,
) -> DocumentView {
    |p: PullSummary| pull_record(source, owner, repo, p)
}

/// The records of the pull requests kept under the watermark, in the order listed.
pub open spec fn pull_records(
    source: Seq<char>,
    owner: Seq<char>,
    repo: Seq<char>,
    since: Timestamp,
    pulls: Seq<PullSummary>,
) -> Seq<DocumentView> {
    pulls.filter(pull_kept(since)).map_values(pull_record_of(source, owner, repo))
}

/// The record of one pull request of `owner/repo`.
pub fn pull_document(source: &str, owner: &str, repo: &str, pull: &PullSummary) -> (d: Document)
    ensures
        d@ == pull_record(source@, owner@, repo@, *pull),
{
    let number = render_u64(pull.number);
    let mut content = String::from_str("Pull Request: #");
    content.append(number.as_str());
    content.append(" - ");
    content.append(str_or(&pull.title, ""));
    content.append("\nAuthor: @");
    content.append(str_or(&pull.author, ""));
    content.append("\nState: ");
    content.append(str_or(&pull.state, "unknown"));
    content.append("\nURL: ");
    content.append(str_or(&pull.html_url, ""));
    content.append("\nCreated: ");
    content.append(render_or_epoch(pull.created_at).as_str());
    content.append("\nLast Updated: ");
    content.append(render_or_epoch(pull.updated_at).as_str());
    content.append("\n\n");
    content.append(str_or(&pull.body, ""));
    Document {
        id: make_entity_id("pr", owner, repo, number.as_str()),
        source_id: make_org_source_id(source),
        content,
        created_at: pull.created_at,
        metadata: Some(pull.payload.clone()),
    }
}

/// The records of the pull requests of `owner/repo` updated at or after
/// `since`, in the order listed.
pub fn pull_documents(source: &str, owner: &str, repo: &str, since: Timestamp, pulls: &Vec<PullSummary>) -> (r: Vec<
    Document,
>)
    ensures
        views(r@) == pull_records(source@, owner@, repo@, since, pulls@),
{
    let mut out: Vec<Document> = Vec::new();
    for i in 0..pulls.len()
        invariant
            views(out@) == pulls@.take(i as int).filter(pull_kept(since)).map_values(
                pull_record_of(source@, owner@, repo@),
            ),
    {
        proof {
            lemma_filter_map_step(pulls@, i as int, pull_kept(since), pull_record_of(source@, owner@, repo@));
        }
        let p = &pulls[i];
        let keep = match p.updated_at {
            Some(u) => u.is_at_or_after(&since),
            None => false,
        };
        if keep {
            let d = pull_document(source, owner, repo, p);
            proof {
                lemma_views_push(out@, d);
            }
            out.push(d);
        }
    }
    proof {
        assert(pulls@.take(pulls@.len() as int) =~= pulls@);
    }
    out
}

// ---------------------------------------------------------------- issues

/// An issue is kept when it was updated at or after the watermark and is not
/// a pull request.
pub open spec fn issue_kept(since: Timestamp) -> spec_fn(IssueSummary) -> bool {
    |i: IssueSummary| since.spec_le(i.updated_at) && !i.is_pull_request
}

pub open spec fn issue_content(i: IssueSummary) -> Seq<char> {
    "Issue: #"@ + decimal(i.number as nat) + " - "@ + i.title@ + "\nAuthor: @"@ + i.author@
        + "\nState: "@ + i.state@ + "\nURL: "@ + i.html_url@ + "\nCreated: "@ + rendered_or_epoch(
        Some(i.created_at),
    ) + "\nLast Updated: "@ + rendered_or_epoch(Some(i.updated_at)) + "\n\n"@ + text_or(
        i.body,
        ""@,
    )
}

pub open spec fn issue_record(
    source: Seq<char>,
    owner: Seq<char>,
    repo: Seq<char>,
    i: IssueSummary,
) -> DocumentView {
    DocumentView {
        id: entity_id("issue"@, owner, repo, decimal(i.number as nat)),
        source_id: org_source_id(source),
        content: issue_content(i),
        created_at: Some(i.created_at),
        metadata: Some(i.payload@),
    }
}

pub open spec fn issue_record_of(source: Seq<char>, owner: Seq<char>, repo: Seq<char>) -> spec_fn(
    IssueSummary,
) -> DocumentView {
    |i: IssueSummary| issue_record(source, owner, repo, i)
}

/// The records of the issues kept under the watermark, in the order listed.
pub open spec fn issue_records(
    source: Seq<char>,
    owner: Seq<char>,
    repo: Seq<char>,
    since: Timestamp,
    issues: Seq<IssueSummary>,
) -> Seq<DocumentView> {
    issues.filter(issue_kept(since)).map_values(issue_record_of(source, owner, repo))
}

/// The record of one issue of `owner/repo`.
pub fn issue_document(source: &str, owner: &str, repo: &str, issue: &IssueSummary) -> (d: Document)
    ensures
        d@ == issue_record(source@, owner@, repo@, *issue),
{
    let number = render_u64(issue.number);
    let mut content = String::from_str("Issue: #");
    content.append(number.as_str());
    content.append(" - ");
    content.append(issue.title.as_str());
    content.append("\nAuthor: @");
    content.append(issue.author.as_str());
    content.append("\nState: ");
    content.append(issue.state.as_str());
    content.append("\nURL: ");
    content.append(issue.html_url.as_str());
    content.append("\nCreated: ");
    content.append(render_or_epoch(Some(issue.created_at)).as_str());
    content.append("\nLast Updated: ");
    content.append(render_or_epoch(Some(issue.updated_at)).as_str());
    content.append("\n\n");
    content.append(str_or(&issue.body, ""));
    Document {
        id: make_entity_id("issue", owner, repo, number.as_str()),
        source_id: make_org_source_id(source),
        content,
        created_at: Some(issue.created_at),
        metadata: Some(issue.payload.clone()),
    }
}

/// The records of the issues of `owner/repo` updated at or after `since`,
/// leaving out the pull requests that the issues listing also returns.
pub fn issue_documents(source: &str, owner: &str, repo: &str, since: Timestamp, issues: &Vec<IssueSummary>) -> (r:
    Vec<Document>)
    ensures
        views(r@) == issue_records(source@, owner@, repo@, since, issues@),
{
    let mut out: Vec<Document> = Vec::new();
    for i in 0..issues.len()
        invariant
            views(out@) == issues@.take(i as int).filter(issue_kept(since)).map_values(
                issue_record_of(source@, owner@, repo@),
            ),
    {
        proof {
            lemma_filter_map_step(issues@, i as int, issue_kept(since), issue_record_of(source@, owner@, repo@));
        }
        let it = &issues[i];
        if it.updated_at.is_at_or_after(&since) && !it.is_pull_request {
            let d = issue_document(source, owner, repo, it);
            proof {
                lemma_views_push(out@, d);
            }
            out.push(d);
        }
    }
    proof {
        assert(issues@.take(issues@.len() as int) =~= issues@);
    }
    out
}

// ---------------------------------------------------------------- commits

/// `@login` of the linked account, else the name recorded in the commit.
pub open spec fn commit_author(c: CommitSummary) -> Seq<char> {
    match c.author_login {
        Some(l) => "@"@ + l@,
        None => text_or(c.author_name, ""@),
    }
}

pub open spec fn commit_content(c: CommitSummary) -> Seq<char> {
    "Commit: "@ + c.sha@ + "\nAuthor: "@ + commit_author(c) + "\nDate: "@ + rendered_or_epoch(
        c.author_date,
    ) + "\nURL: "@ + c.html_url@ + "\n\n"@ + c.message@
}

pub open spec fn commit_record(
    source: Seq<char>,
    owner: Seq<char>,
    repo: Seq<char>,
    c: CommitSummary,
) -> DocumentView {
    DocumentView {
        id: entity_id("commit"@, owner, repo, c.sha@),
        source_id: org_source_id(source),
        content: commit_content(c),
        created_at: c.author_date,
        metadata: Some(c.payload@),
    }
}

pub open spec fn commit_record_of(source: Seq<char>, owner: Seq<char>, repo: Seq<char>) -> spec_fn(
    CommitSummary,
) -> DocumentView {
    |c: CommitSummary| commit_record(source, owner, repo, c)
}

/// The record of one commit of `owner/repo`.
pub fn commit_document(source: &str, owner: &str, repo: &str, commit: &CommitSummary) -> (d: Document)
    ensures
        d@ == commit_record(source@, owner@, repo@, *commit),
{
    let mut content = String::from_str("Commit: ");
    content.append(commit.sha.as_str());
    let author = match &commit.author_login {
        Some(l) => {
            let mut a = String::from_str("@");
            a.append(l.as_str());
            a
        },
        None => String::from_str(str_or(&commit.author_name, "")),
    };
    content.append("\nAuthor: ");
    content.append(author.as_str());
    content.append("\nDate: ");
    content.append(render_or_epoch(commit.author_date).as_str());
    content.append("\nURL: ");
    content.append(commit.html_url.as_str());
    content.append("\n\n");
    content.append(commit.message.as_str());
    Document {
        id: make_entity_id("commit", owner, repo, commit.sha.as_str()),
        source_id: make_org_source_id(source),
        content,
        created_at: commit.author_date,
        metadata: Some(commit.payload.clone()),
    }
}

/// One record per commit of `owner/repo`; the provider has already applied
/// the watermark to commits.
pub fn commit_documents(source: &str, owner: &str, repo: &str, commits: &Vec<CommitSummary>) -> (r: Vec<Document>)
    ensures
        views(r@) == commits@.map_values(commit_record_of(source@, owner@, repo@)),
{
    let mut out: Vec<Document> = Vec::new();
    for i in 0..commits.len()
        invariant
            views(out@) == commits@.take(i as int).map_values(commit_record_of(source@, owner@, repo@)),
    {
        proof {
            lemma_map_step(commits@, i as int, commit_record_of(source@, owner@, repo@));
        }
        let d = commit_document(source, owner, repo, &commits[i]);
        proof {
            lemma_views_push(out@, d);
        }
        out.push(d);
    }
    proof {
        assert(commits@.take(commits@.len() as int) =~= commits@);
    }
    out
}

// ---------------------------------------------------------------- organization sync

/// The owner and name of a repository, split at the first `/` of its
/// qualified name.
pub open spec fn repo_split(r: RepoSummary) -> Option<(Seq<char>, Seq<char>)> {
    split_once_spec(qualified_name(r), '/')
}

/// Which repositories to fetch activity for, in listing order. A repository
/// whose qualified name has no `/` fails the whole sync.
pub fn plan_repo_fetches(repos: &Vec<RepoSummary>) -> (r: Result<Vec<RepoRef>, GitHubError>)
    ensures
        r is Ok <==> forall|i: int| 0 <= i < repos@.len() ==> repo_split(#[trigger] repos@[i]) is Some,
        r matches Ok(refs) ==> refs@.len() == repos@.len() && forall|i: int|
            0 <= i < repos@.len() ==> repo_split(#[trigger] repos@[i]) == Some(
                (refs@[i].owner@, refs@[i].name@),
            ),
        r matches Err(GitHubError::InvalidRepoName(n)) ==> exists|i: int|
            0 <= i < repos@.len() && repo_split(#[trigger] repos@[i]) is None && n@ == qualified_name(
                repos@[i],
            ),
{
    let mut refs: Vec<RepoRef> = Vec::new();
    for i in 0..repos.len()
        invariant
            refs@.len() == i,
            forall|j: int| 0 <= j < i ==> repo_split(#[trigger] repos@[j]) == Some(
                (refs@[j].owner@, refs@[j].name@),
            ),
    {
        let repo = &repos[i];
        let name = str_or(&repo.full_name, repo.name.as_str());
        match split_once(name, '/') {
            Some((owner, rest)) => {
                refs.push(RepoRef { owner, name: rest });
            },
            None => {
                return Err(GitHubError::InvalidRepoName(String::from_str(name)));
            },
        }
    }
    Ok(refs)
}

/// What a `github:` locator names: an organization, or with a `/` a single
/// repository `owner/repo` (split at the first `/`).
#[derive(Clone, Debug)]
pub enum GitHubTarget {
    Organization(String),
    Repository(RepoRef),
}

/// Decides what a `github:` locator names.
pub fn github_target(locator: &str) -> (r: GitHubTarget)
    ensures
        match split_once_spec(locator@, '/') {
            None => r matches GitHubTarget::Organization(o) && o@ == locator@,
            Some((owner, name)) => r matches GitHubTarget::Repository(rr) && rr.owner@ == owner
                && rr.name@ == name,
        },
{
    match split_once(locator, '/') {
        None => GitHubTarget::Organization(String::from_str(locator)),
        Some((owner, name)) => GitHubTarget::Repository(RepoRef { owner, name }),
    }
}

/// The records of one repository's activity: its pull requests, then its
/// issues, then its commits.
pub open spec fn repo_activity_records(source: Seq<char>, since: Timestamp, a: RepoActivity) -> Seq<
    DocumentView,
> {
    pull_records(source, a.repo.owner@, a.repo.name@, since, a.pulls@) + issue_records(
        source,
        a.repo.owner@,
        a.repo.name@,
        since,
        a.issues@,
    ) + a.commits@.map_values(commit_record_of(source, a.repo.owner@, a.repo.name@))
}

/// The activity records of each repository in turn.
pub open spec fn activity_records(source: Seq<char>, since: Timestamp, acts: Seq<RepoActivity>) -> Seq<
    DocumentView,
>
    decreases acts.len(),
{
    if acts.len() == 0 {
        Seq::empty()
    } else {
        activity_records(source, since, acts.drop_last()) + repo_activity_records(
            source,
            since,
            acts.last(),
        )
    }
}

/// What an organization sync yields: one record per repository, in listing
/// order, then the activity of each repository in turn.
pub open spec fn org_records(
    org: Seq<char>,
    since: Timestamp,
    repos: Seq<RepoSummary>,
    acts: Seq<RepoActivity>,
) -> Seq<DocumentView> {
    repos.map_values(repo_record_of(org)) + activity_records(org, since, acts)
}

/// The records of one repository's activity since the watermark, all under
/// the source id `github:<source>`.
pub fn repo_activity_documents(source: &str, since: Timestamp, activity: &RepoActivity) -> (r: Vec<
    Document,
>)
    ensures
        views(r@) == repo_activity_records(source@, since, *activity),
{
    let owner = activity.repo.owner.as_str();
    let name = activity.repo.name.as_str();
    let mut out = pull_documents(source, owner, name, since, &activity.pulls);
    let mut issues = issue_documents(source, owner, name, since, &activity.issues);
    let mut commits = commit_documents(source, owner, name, &activity.commits);
    proof {
        lemma_views_add(out@, issues@);
    }
    out.append(&mut issues);
    proof {
        lemma_views_add(out@, commits@);
    }
    out.append(&mut commits);
    out
}

/// The records of an organization sync: the repositories of `org`, then
/// the activity fetched for each of them, in the order given.
pub fn org_activity_documents(
    org: &str,
    since: Timestamp,
    repos: &Vec<RepoSummary>,
    activity: &Vec<RepoActivity>,
) -> (r: Vec<Document>)
    ensures
        views(r@) == org_records(org@, since, repos@, activity@),
{
    let mut out = repo_documents(org, repos);
    let ghost head = views(out@);
    for i in 0..activity.len()
        invariant
            head == repos@.map_values(repo_record_of(org@)),
            views(out@) == head + activity_records(org@, since, activity@.take(i as int)),
    {
        let mut more = repo_activity_documents(org, since, &activity[i]);
        proof {
            let t = activity@.take(i as int + 1);
            assert(t.drop_last() =~= activity@.take(i as int));
            assert(t.last() == activity@[i as int]);
            lemma_views_add(out@, more@);
            assert(head + activity_records(org@, since, t) =~= head + activity_records(
                org@,
                since,
                activity@.take(i as int),
            ) + repo_activity_records(org@, since, activity@[i as int]));
        }
        out.append(&mut more);
    }
    proof {
        assert(activity@.take(activity@.len() as int) =~= activity@);
    }
    out
}

// ---------------------------------------------------------------- laws

/// `d` is a record of repository activity `a`: of a listed pull request
/// updated at or after `since`, of a listed issue updated at or after
/// `since` that carries no pull-request link, or of a listed commit; its
/// source id is `github:<source>`.
pub open spec fn from_activity(source: Seq<char>, since: Timestamp, a: RepoActivity, d: DocumentView) -> bool {
    ||| exists|j: int|
        0 <= j < a.pulls@.len() && (a.pulls@[j].updated_at matches Some(u) && since.spec_le(u)) && d
            == pull_record(source, a.repo.owner@, a.repo.name@, a.pulls@[j])
    ||| exists|j: int|
        0 <= j < a.issues@.len() && since.spec_le(a.issues@[j].updated_at)
            && !a.issues@[j].is_pull_request && d == issue_record(
            source,
            a.repo.owner@,
            a.repo.name@,
            a.issues@[j],
        )
    ||| exists|j: int|
        0 <= j < a.commits@.len() && d == commit_record(
            source,
            a.repo.owner@,
            a.repo.name@,
            a.commits@[j],
        )
}

/// Watermark, for one repository: each of its activity records stems from a
/// pull request or issue kept under the watermark, or from a listed commit.
pub proof fn lemma_repo_watermark(source: Seq<char>, since: Timestamp, a: RepoActivity)
    ensures
        forall|k: int|
            0 <= k < repo_activity_records(source, since, a).len() ==> from_activity(
                source,
                since,
                a,
                #[trigger] repo_activity_records(source, since, a)[k],
            ),
{
    let owner = a.repo.owner@;
    let repo = a.repo.name@;
    let pulls = a.pulls@;
    let issues = a.issues@;
    let pr = pull_records(source, owner, repo, since, pulls);
    let ir = issue_records(source, owner, repo, since, issues);
    let cr = a.commits@.map_values(commit_record_of(source, owner, repo));
    let fp = pulls.filter(pull_kept(since));
    let fi = issues.filter(issue_kept(since));
    assert forall|k: int| 0 <= k < repo_activity_records(source, since, a).len() implies from_activity(
        source,
        since,
        a,
        #[trigger] repo_activity_records(source, since, a)[k],
    ) by {
        let d = repo_activity_records(source, since, a)[k];
        if k < pr.len() {
            assert(d == pr[k]);
            pulls.lemma_filter_pred(pull_kept(since), k);
            assert(fp.contains(fp[k]));
            pulls.lemma_filter_contains_rev(pull_kept(since), fp[k]);
            let j = choose|j: int| 0 <= j < pulls.len() && pulls[j] == fp[k];
            assert(d == pull_record(source, owner, repo, pulls[j]));
        } else if k < pr.len() + ir.len() {
            let k2 = k - pr.len();
            assert(d == ir[k2]);
            issues.lemma_filter_pred(issue_kept(since), k2);
            assert(fi.contains(fi[k2]));
            issues.lemma_filter_contains_rev(issue_kept(since), fi[k2]);
            let j = choose|j: int| 0 <= j < issues.len() && issues[j] == fi[k2];
            assert(d == issue_record(source, owner, repo, issues[j]));
        } else {
            let k3 = k - pr.len() - ir.len();
            assert(d == cr[k3]);
            assert(d == commit_record(source, owner, repo, a.commits@[k3]));
        }
    }
}

/// Watermark, for a whole sync: every activity record stems from one of the
/// fetched repositories, and from a pull request or issue of it updated at
/// or after `since` (never an issue that is a pull request), or from a
/// commit listed for it.
pub proof fn lemma_watermark(source: Seq<char>, since: Timestamp, acts: Seq<RepoActivity>)
    ensures
        forall|k: int|
            0 <= k < activity_records(source, since, acts).len() ==> exists|r: int|
                0 <= r < acts.len() && from_activity(
                    source,
                    since,
                    acts[r],
                    #[trigger] activity_records(source, since, acts)[k],
                ),
    decreases acts.len(),
{
    if acts.len() > 0 {
        let init = acts.drop_last();
        lemma_watermark(source, since, init);
        lemma_repo_watermark(source, since, acts.last());
        let front = activity_records(source, since, init);
        let back = repo_activity_records(source, since, acts.last());
        assert forall|k: int| 0 <= k < activity_records(source, since, acts).len() implies exists|r: int|
            0 <= r < acts.len() && from_activity(
                source,
                since,
                acts[r],
                #[trigger] activity_records(source, since, acts)[k],
            ) by {
            let d = activity_records(source, since, acts)[k];
            if k < front.len() {
                assert(d == front[k]);
                let r = choose|r: int| 0 <= r < init.len() && from_activity(source, since, init[r], front[k]);
                assert(init[r] == acts[r]);
            } else {
                assert(d == back[k - front.len()]);
                assert(acts.last() == acts[acts.len() - 1]);
                assert(from_activity(source, since, acts[acts.len() - 1], d));
            }
        }
    }
}

/// One source id per sync: every record of an organization sync, the
/// repositories' and their activity's alike, carries `github:<org>`.
pub proof fn lemma_org_source_id(
    org: Seq<char>,
    since: Timestamp,
    repos: Seq<RepoSummary>,
    acts: Seq<RepoActivity>,
)
    ensures
        forall|k: int|
            0 <= k < org_records(org, since, repos, acts).len() ==> (#[trigger] org_records(
                org,
                since,
                repos,
                acts,
            )[k]).source_id == org_source_id(org),
{
    lemma_watermark(org, since, acts);
    let head = repos.map_values(repo_record_of(org));
    let tail = activity_records(org, since, acts);
    assert forall|k: int| 0 <= k < org_records(org, since, repos, acts).len() implies (
    #[trigger] org_records(org, since, repos, acts)[k]).source_id == org_source_id(org) by {
        if k < head.len() {
            assert(org_records(org, since, repos, acts)[k] == head[k]);
        } else {
            let d = tail[k - head.len()];
            assert(org_records(org, since, repos, acts)[k] == d);
            let r = choose|r: int| 0 <= r < acts.len() && from_activity(org, since, acts[r], d);
        }
    }
}

/// A sync of an organization with a single repository, whose only pull
/// request was updated at or after the watermark, whose issues all fall
/// before it (or are pull requests), and with no commit since it, yields
/// exactly the repository's record and that pull request's record.
pub proof fn lemma_single_repository_sync(
    org: Seq<char>,
    since: Timestamp,
    repo: RepoSummary,
    a: RepoActivity,
)
    requires
        a.pulls@.len() == 1,
        a.pulls@[0].updated_at matches Some(u) && since.spec_le(u),
        forall|j: int|
            0 <= j < a.issues@.len() ==> !(since.spec_le(#[trigger] a.issues@[j].updated_at)
                && !a.issues@[j].is_pull_request),
        a.commits@.len() == 0,
    ensures
        org_records(org, since, seq![repo], seq![a]) == seq![
            repo_record(org, repo),
            pull_record(org, a.repo.owner@, a.repo.name@, a.pulls@[0]),
        ],
{
    let pulls = a.pulls@;
    reveal_with_fuel(Seq::filter, 2);
    assert(pulls.drop_last() =~= Seq::<PullSummary>::empty());
    assert(pulls.filter(pull_kept(since)) =~= pulls);
    assert(a.issues@.all(|x: IssueSummary| !issue_kept(since)(x))) by {
        assert forall|j: int| 0 <= j < a.issues@.len() implies !issue_kept(since)(
            #[trigger] a.issues@[j],
        ) by {
            assert(!(since.spec_le(a.issues@[j].updated_at) && !a.issues@[j].is_pull_request));
        }
    }
    a.issues@.lemma_all_neg_filter_empty(issue_kept(since));
    let owner = a.repo.owner@;
    let name = a.repo.name@;
    let pr = pull_records(org, owner, name, since, pulls);
    assert(pr =~= seq![pull_record(org, owner, name, pulls[0])]);
    assert(issue_records(org, owner, name, since, a.issues@) =~= Seq::<DocumentView>::empty());
    assert(a.commits@.map_values(commit_record_of(org, owner, name)) =~= Seq::<DocumentView>::empty());
    assert(repo_activity_records(org, since, a) =~= pr);
    let acts = seq![a];
    assert(acts.last() == a);
    assert(activity_records(org, since, acts.drop_last()) =~= Seq::<DocumentView>::empty());
    assert(activity_records(org, since, acts) =~= Seq::<DocumentView>::empty() + pr);
    assert(Seq::<DocumentView>::empty() + pr =~= pr);
    assert(acts.drop_last() =~= Seq::<RepoActivity>::empty());
    assert(seq![repo].map_values(repo_record_of(org)) =~= seq![repo_record(org, repo)]);
    assert(org_records(org, since, seq![repo], acts) =~= seq![
        repo_record(org, repo),
        pull_record(org, a.repo.owner@, a.repo.name@, a.pulls@[0]),
    ]);
}

/// Stable ids: re-ingesting an entity yields the id it had before, whatever
/// else about it changed since (title, state, body, timestamps, payload).
pub proof fn lemma_ids_stable(
    source: Seq<char>,
    owner: Seq<char>,
    repo: Seq<char>,
    repo_a: RepoSummary,
    repo_b: RepoSummary,
    pull_a: PullSummary,
    pull_b: PullSummary,
    issue_a: IssueSummary,
    issue_b: IssueSummary,
    commit_a: CommitSummary,
    commit_b: CommitSummary,
)
    ensures
        qualified_name(repo_a) == qualified_name(repo_b) ==> repo_record(source, repo_a).id
            == repo_record(source, repo_b).id,
        pull_a.number == pull_b.number ==> pull_record(source, owner, repo, pull_a).id
            == pull_record(source, owner, repo, pull_b).id,
        issue_a.number == issue_b.number ==> issue_record(source, owner, repo, issue_a).id
            == issue_record(source, owner, repo, issue_b).id,
        commit_a.sha@ == commit_b.sha@ ==> commit_record(source, owner, repo, commit_a).id
            == commit_record(source, owner, repo, commit_b).id,
{
}

} // verus!
