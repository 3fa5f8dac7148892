//! Source descriptors (`<type>:<locator>`) and the decisions of a
//! multi-source load: which sources run, how their records are shaped, and
//! how their outcomes are gathered so that one failing source does not
//! prevent the others.

use crate::document::{opt_text_view, lemma_views_add, lemma_views_push, views, Document, DocumentView};
use crate::site::{url_parts, SiteLoader, SiteLoaderError};
use crate::text::{split_once, split_once_spec, str_eq};
use vstd::prelude::*;

verus! {

/// The kinds of source a descriptor can name.
#[derive(Clone, Copy, Debug, PartialEq, Eq, Structural)]
pub enum SourceType {
    Github,
    Site,
    File,
    Pdf,
}

impl SourceType {
    pub open spec fn spec_name(self) -> Seq<char> {
        match self {
            SourceType::Github => "github"@,
            SourceType::Site => "site"@,
            SourceType::File => "file"@,
            SourceType::Pdf => "pdf"@,
        }
    }

    /// The canonical name of the kind, as descriptors write it.
    pub fn as_str(&self) -> (r: &'static str)
        ensures
            r@ == self.spec_name(),
    {
        match self {
            SourceType::Github => "github",
            SourceType::Site => "site",
            SourceType::File => "file",
            SourceType::Pdf => "pdf",
        }
    }

    /// The kind a descriptor's type names, if it names one.
    pub fn from_name(name: &str) -> (r: Option<SourceType>)
        ensures
            r == source_type_of(name@),
    {
        if str_eq(name, "github") {
            Some(SourceType::Github)
        } else if str_eq(name, "site") {
            Some(SourceType::Site)
        } else if str_eq(name, "file") {
            Some(SourceType::File)
        } else if str_eq(name, "pdf") {
            Some(SourceType::Pdf)
        } else {
            None
        }
    }
}

pub open spec fn source_type_of(name: Seq<char>) -> Option<SourceType> {
    if name == "github"@ {
        Some(SourceType::Github)
    } else if name == "site"@ {
        Some(SourceType::Site)
    } else if name == "file"@ {
        Some(SourceType::File)
    } else if name == "pdf"@ {
        Some(SourceType::Pdf)
    } else {
        None
    }
}

/// Where a multi-source load keeps what it caches.
#[derive(Clone, Debug)]
pub struct MultiLoaderConfig {
    pub sources_path: String,
}

/// The configuration of a multi-source load. Running the sources (network,
/// files, the language model) is left to the caller; what to run and how
/// the outcomes combine is decided here.
#[derive(Clone, Debug)]
pub struct MultiLoader {
    pub config: MultiLoaderConfig,
}

impl MultiLoader {
    pub fn new(config: MultiLoaderConfig) -> (r: MultiLoader)
        ensures
            r.config == config,
    {
        MultiLoader { config }
    }

    /// The extractor of a `site` source, caching under the configured root.
    pub fn site_loader(&self, url: String) -> (r: Result<SiteLoader, SiteLoaderError>)
        ensures
            match url_parts(url@) {
                None => r matches Err(SiteLoaderError::UrlError(_)),
                Some((h, p)) => r matches Ok(l) && l.url@ == url@ && opt_text_view(l.host) == h
                    && l.path@ == p && l.base_path@ == self.config.sources_path@ + "/sites"@,
            },
    {
        SiteLoader::new(url, self.config.sources_path.as_str())
    }
}

/// A recognized source: its kind and its locator (an organization, a URL, a
/// glob pattern).
#[derive(Clone, Debug)]
pub struct SourceDescriptor {
    pub kind: SourceType,
    pub locator: String,
}

/// Why a descriptor string was skipped.
#[derive(Clone, Copy, Debug, PartialEq, Eq, Structural)]
pub enum SkipReason {
    /// The string has no `:`.
    MissingColon,
    /// The text before the first `:` names no known kind.
    UnknownType,
}

/// What parsing a descriptor string gives: its kind and locator, or why it
/// is skipped. The string is split at its first `:` only, so a locator may
/// hold colons of its own.
pub open spec fn parse_spec(s: Seq<char>) -> Result<(SourceType, Seq<char>), SkipReason> {
    match split_once_spec(s, ':') {
        None => Err(SkipReason::MissingColon),
        Some((t, loc)) => match source_type_of(t) {
            None => Err(SkipReason::UnknownType),
            Some(k) => Ok((k, loc)),
        },
    }
}

/// Parses one `<type>:<locator>` string.
pub fn parse_source(s: &str) -> (r: Result<SourceDescriptor, SkipReason>)
    ensures
        match (r, parse_spec(s@)) {
            (Ok(d), Ok((k, loc))) => d.kind == k && d.locator@ == loc,
            (Err(e), Err(f)) => e == f,
            _ => false,
        },
{
    match split_once(s, ':') {
        None => Err(SkipReason::MissingColon),
        Some((t, loc)) => match SourceType::from_name(t.as_str()) {
            None => Err(SkipReason::UnknownType),
            Some(kind) => Ok(SourceDescriptor { kind, locator: loc }),
        },
    }
}

/// A descriptor as plain values.
pub open spec fn descriptor_view(d: SourceDescriptor) -> (SourceType, Seq<char>) {
    (d.kind, d.locator@)
}

/// The recognized descriptors among `sources`, in their order.
pub open spec fn planned(sources: Seq<String>) -> Seq<(SourceType, Seq<char>)>
    decreases sources.len(),
{
    if sources.len() == 0 {
        Seq::empty()
    } else {
        let rest = planned(sources.drop_last());
        match parse_spec(sources.last()@) {
            Ok(d) => rest.push(d),
            Err(_) => rest,
        }
    }
}

/// The strings among `sources` that are skipped, each with its reason, in
/// their order.
pub open spec fn skipped(sources: Seq<String>) -> Seq<(Seq<char>, SkipReason)>
    decreases sources.len(),
{
    if sources.len() == 0 {
        Seq::empty()
    } else {
        let rest = skipped(sources.drop_last());
        match parse_spec(sources.last()@) {
            Ok(_) => rest,
            Err(e) => rest.push((sources.last()@, e)),
        }
    }
}

/// The sources of a load: those to run, and those skipped with a reason.
#[derive(Clone, Debug)]
pub struct SourcePlan {
    pub sources: Vec<SourceDescriptor>,
    pub skipped: Vec<(String, SkipReason)>,
}

pub open spec fn skipped_view(v: Seq<(String, SkipReason)>) -> Seq<(Seq<char>, SkipReason)> {
    v.map_values(|p: (String, SkipReason)| (p.0@, p.1))
}

/// Sorts the descriptor strings of a load into the sources to run, in
/// their order, and those skipped (no colon, or an unknown type).
pub fn plan_sources(sources: &Vec<String>) -> (r: SourcePlan)
    ensures
        r.sources@.map_values(|d: SourceDescriptor| descriptor_view(d)) == planned(sources@),
        skipped_view(r.skipped@) == skipped(sources@),
{
    let mut run: Vec<SourceDescriptor> = Vec::new();
    let mut skip: Vec<(String, SkipReason)> = Vec::new();
    for i in 0..sources.len()
        invariant
            run@.map_values(|d: SourceDescriptor| descriptor_view(d)) == planned(
                sources@.take(i as int),
            ),
            skipped_view(skip@) == skipped(sources@.take(i as int)),
    {
        let s = &sources[i];
        let ghost t = sources@.take(i as int + 1);
        proof {
            assert(t.drop_last() =~= sources@.take(i as int));
            assert(t.last() == sources@[i as int]);
        }
        match parse_source(s.as_str()) {
            Ok(d) => {
                proof {
                    assert(run@.push(d).map_values(|d: SourceDescriptor| descriptor_view(d))
                        =~= run@.map_values(|d: SourceDescriptor| descriptor_view(d)).push(
                        descriptor_view(d),
                    ));
                }
                run.push(d);
            },
            Err(e) => {
                let entry = (s.clone(), e);
                proof {
                    assert(skipped_view(skip@.push(entry)) =~= skipped_view(skip@).push(
                        (s@, e),
                    ));
                }
                skip.push(entry);
            },
        }
    }
    proof {
        assert(sources@.take(sources@.len() as int) =~= sources@);
    }
    SourcePlan { sources: run, skipped: skip }
}

// ---------------------------------------------------------------- records of a source

/// A lowercase hexadecimal digit.
pub open spec fn hex_digit(d: int) -> char {
    "0123456789abcdef"@[d]
}

/// How serde_json writes one character inside a string literal: `"` and
/// `\` behind a backslash; backspace, tab, line feed, form feed and carriage
/// return as `\b \t \n \f \r`; the other control characters below U+0020 as
/// `\u00` and two lowercase hex digits; every other character as itself.
pub open spec fn json_char(c: char) -> Seq<char> {
    let u = c as u32;
    if c == '"' {
        seq!['\\', '"']
    } else if c == '\\' {
        seq!['\\', '\\']
    } else if u == 0x08 {
        seq!['\\', 'b']
    } else if u == 0x09 {
        seq!['\\', 't']
    } else if u == 0x0A {
        seq!['\\', 'n']
    } else if u == 0x0C {
        seq!['\\', 'f']
    } else if u == 0x0D {
        seq!['\\', 'r']
    } else if u < 0x20 {
        seq!['\\', 'u', '0', '0', hex_digit(u as int / 16), hex_digit(u as int % 16)]
    } else {
        seq![c]
    }
}

/// The characters of `s`, each written as serde_json writes it.
pub open spec fn json_escaped(s: Seq<char>) -> Seq<char>
    decreases s.len(),
{
    if s.len() == 0 {
        Seq::empty()
    } else {
        json_escaped(s.drop_last()) + json_char(s.last())
    }
}

/// The JSON string literal of a text: its escaped characters in quotes.
pub open spec fn json_string(s: Seq<char>) -> Seq<char> {
    seq!['"'] + json_escaped(s) + seq!['"']
}

/// Relies on `serde_json::to_string` applied to a `str`: the text in quotes,
/// escaped as `format_escaped_str` does (its `ESCAPE` table and
/// `write_char_escape`); serializing a `str` does not fail.
#[verifier::external_body]
fn json_quote(s: &str) -> (r: String)
    ensures
        r@ == json_string(s@),
{
    serde_json::to_string(s).unwrap_or_default()
}

/// Where a record came from: the kind of its source and the locator.
#[derive(Clone, Debug)]
pub struct DocumentMetadata {
    pub source_type: SourceType,
    pub source_url: String,
}

/// `{"source_type":"<kind>","source_url":<locator as a JSON string>}`.
pub open spec fn metadata_json(kind: SourceType, locator: Seq<char>) -> Seq<char> {
    "{\"source_type\":\""@ + kind.spec_name() + "\",\"source_url\":"@ + json_string(locator) + "}"@
}

impl DocumentMetadata {
    /// The metadata as a JSON object.
    pub fn to_json(&self) -> (r: String)
        ensures
            r@ == metadata_json(self.source_type, self.source_url@),
    {
        let mut r = String::from_str("{\"source_type\":\"");
        r.append(self.source_type.as_str());
        r.append("\",\"source_url\":");
        r.append(json_quote(self.source_url.as_str()).as_str());
        r.append("}");
        r
    }
}

/// The source id of the records of a descriptor: `<kind>:<locator>`.
pub open spec fn descriptor_source_id(kind: SourceType, locator: Seq<char>) -> Seq<char> {
    kind.spec_name() + ":"@ + locator
}

/// A record of a site, file or pdf source: its id is the page's URL or the
/// file's path.
pub open spec fn source_record(
    kind: SourceType,
    locator: Seq<char>,
    id: Seq<char>,
    content: Seq<char>,
) -> DocumentView {
    DocumentView {
        id,
        source_id: descriptor_source_id(kind, locator),
        content,
        created_at: None,
        metadata: Some(metadata_json(kind, locator)),
    }
}

/// The record of one item (a page, a file) read from a source.
pub fn source_document(d: &SourceDescriptor, id: String, content: String) -> (r: Document)
    ensures
        r@ == source_record(d.kind, d.locator@, id@, content@),
{
    let mut source_id = String::from_str(d.kind.as_str());
    source_id.append(":");
    source_id.append(d.locator.as_str());
    let meta = DocumentMetadata { source_type: d.kind, source_url: d.locator.clone() };
    Document { id, source_id, content, created_at: None, metadata: Some(meta.to_json()) }
}

/// The record of a `site` source: its id is the page's URL, the locator.
pub fn site_document(d: &SourceDescriptor, content: String) -> (r: Document)
    ensures
        r@ == source_record(d.kind, d.locator@, d.locator@, content@),
{
    source_document(d, d.locator.clone(), content)
}

pub open spec fn item_record_of(kind: SourceType, locator: Seq<char>) -> spec_fn((String, String)) -> DocumentView {
    |item: (String, String)| source_record(kind, locator, item.0@, item.1@)
}

/// One record per `(path, content)` item read from a source, in order.
pub fn source_documents(d: &SourceDescriptor, items: &Vec<(String, String)>) -> (r: Vec<Document>)
    ensures
        views(r@) == items@.map_values(item_record_of(d.kind, d.locator@)),
{
    let mut out: Vec<Document> = Vec::new();
    for i in 0..items.len()
        invariant
            views(out@) == items@.take(i as int).map_values(item_record_of(d.kind, d.locator@)),
    {
        proof {
            crate::document::lemma_map_step(items@, i as int, item_record_of(d.kind, d.locator@));
        }
        let doc = source_document(d, items[i].0.clone(), items[i].1.clone());
        proof {
            lemma_views_push(out@, doc);
        }
        out.push(doc);
    }
    proof {
        assert(items@.take(items@.len() as int) =~= items@);
    }
    out
}

// ---------------------------------------------------------------- outcomes of a load

/// Why one source failed; each carries the originating cause.
#[derive(Debug)]
pub enum LoaderError {
    /// Reading the files of a `file` or `pdf` source failed.
    FileError(String),
    /// The GitHub sync failed; the text names the failing operation.
    GitError(String),
    /// Extracting a site's content failed.
    SiteError(SiteLoaderError),
    /// No loader for this kind of source is available.
    Unsupported(SourceType),
}

/// What became of one source that was run.
#[derive(Debug)]
pub enum SourceStatus {
    /// The source yielded this many records.
    Loaded(usize),
    /// The source failed and contributed no records.
    Failed(LoaderError),
}

/// The records of the sources that succeeded, concatenated in source order.
pub open spec fn gathered(outcomes: Seq<Result<Vec<Document>, LoaderError>>) -> Seq<DocumentView>
    decreases outcomes.len(),
{
    if outcomes.len() == 0 {
        Seq::empty()
    } else {
        let rest = gathered(outcomes.drop_last());
        match outcomes.last() {
            Ok(v) => rest + views(v@),
            Err(_) => rest,
        }
    }
}

/// `status` reports `outcome`.
pub open spec fn reports(outcome: Result<Vec<Document>, LoaderError>, status: SourceStatus) -> bool {
    match (outcome, status) {
        (Ok(v), SourceStatus::Loaded(n)) => n == v@.len(),
        (Err(e), SourceStatus::Failed(f)) => f == e,
        _ => false,
    }
}

/// The result of a multi-source load: the records gathered, what became of
/// each source that was run, and the descriptor strings that were skipped.
#[derive(Debug)]
pub struct LoadReport {
    pub documents: Vec<Document>,
    pub statuses: Vec<SourceStatus>,
    pub skipped: Vec<(String, SkipReason)>,
}

/// Gathers the outcomes of the sources of `plan`, one per source in plan
/// order: a failed source contributes no records and is reported, and the
/// others still contribute theirs.
pub fn gather_outcomes(plan: SourcePlan, outcomes: Vec<Result<Vec<Document>, LoaderError>>) -> (r:
    LoadReport)
    ensures
        views(r.documents@) == gathered(outcomes@),
        r.statuses@.len() == outcomes@.len(),
        forall|i: int| 0 <= i < outcomes@.len() ==> reports(outcomes@[i], #[trigger] r.statuses@[i]),
        r.skipped@ == plan.skipped@,
{
    let ghost all = outcomes@;
    let mut documents: Vec<Document> = Vec::new();
    let mut statuses: Vec<SourceStatus> = Vec::new();
    for o in it: outcomes.into_iter()
        invariant
            it.seq() == all,
            views(documents@) == gathered(all.take(it.index() as int)),
            statuses@.len() == it.index(),
            forall|j: int| 0 <= j < it.index() ==> reports(all[j], #[trigger] statuses@[j]),
    {
        let ghost k = it.index() as int;
        proof {
            let t = all.take(k + 1);
            assert(t.drop_last() =~= all.take(k));
            assert(t.last() == all[k]);
        }
        match o {
            Ok(mut v) => {
                statuses.push(SourceStatus::Loaded(v.len()));
                proof {
                    lemma_views_add(documents@, v@);
                }
                documents.append(&mut v);
            },
            Err(e) => {
                statuses.push(SourceStatus::Failed(e));
            },
        }
    }
    proof {
        assert(all.take(all.len() as int) =~= all);
    }
    LoadReport { documents, statuses, skipped: plan.skipped }
}

} // verus!
