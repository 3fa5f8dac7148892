//! The unit of ingestion: a uniquely identified record.

use crate::time::Timestamp;
use vstd::prelude::*;

verus! {

/// One ingested record. `content` is the only field fed to embedding;
/// `metadata` keeps the provider's payload as JSON text.
#[derive(Clone, Debug)]
pub struct Document {
    pub id: String,
    pub source_id: String,
    pub content: String,
    pub created_at: Option<Timestamp>,
    pub metadata: Option<String>,
}

/// A record as plain values.
pub struct DocumentView {
    pub id: Seq<char>,
    pub source_id: Seq<char>,
    pub content: Seq<char>,
    pub created_at: Option<Timestamp>,
    pub metadata: Option<Seq<char>>,
}

pub open spec fn opt_text_view(o: Option<String>) -> Option<Seq<char>> {
    match o {
        Some(s) => Some(s@),
        None => None,
    }
}

impl View for Document {
    type V = DocumentView;

    open spec fn view(&self) -> DocumentView {
        DocumentView {
            id: self.id@,
            source_id: self.source_id@,
            content: self.content@,
            created_at: self.created_at,
            metadata: opt_text_view(self.metadata),
        }
    }
}

/// The views of a sequence of records.
pub open spec fn views(docs: Seq<Document>) -> Seq<DocumentView> {
    docs.map_values(|d: Document| d@)
}

pub proof fn lemma_views_push(docs: Seq<Document>, d: Document)
    ensures
        views(docs.push(d)) == views(docs).push(d@),
{
    assert(views(docs.push(d)) =~= views(docs).push(d@));
}

pub proof fn lemma_views_add(a: Seq<Document>, b: Seq<Document>)
    ensures
        views(a + b) == views(a) + views(b),
{
    assert(views(a + b) =~= views(a) + views(b));
}

/// Filtering a prefix one element longer, then mapping it, adds that
/// element's image exactly when the element is kept.
pub proof fn lemma_filter_map_step<A, B>(
    s: Seq<A>,
    i: int,
    keep: spec_fn(A) -> bool,
    f: spec_fn(A) -> B,
)
    requires
        0 <= i < s.len(),
    ensures
        s.take(i + 1).filter(keep).map_values(f) == if keep(s[i]) {
            s.take(i).filter(keep).map_values(f).push(f(s[i]))
        } else {
            s.take(i).filter(keep).map_values(f)
        },
{
    let t = s.take(i + 1);
    assert(t.drop_last() =~= s.take(i));
    assert(t.last() == s[i]);
    reveal_with_fuel(Seq::filter, 1);
    if keep(s[i]) {
        let u = s.take(i).filter(keep);
        assert(u.push(s[i]).map_values(f) =~= u.map_values(f).push(f(s[i])));
    }
}

/// Mapping the first `i + 1` elements is mapping the first `i` and one more.
pub proof fn lemma_map_step<A, B>(s: Seq<A>, i: int, f: spec_fn(A) -> B)
    requires
        0 <= i < s.len(),
    ensures
        s.take(i + 1).map_values(f) == s.take(i).map_values(f).push(f(s[i])),
{
    assert(s.take(i + 1).map_values(f) =~= s.take(i).map_values(f).push(f(s[i])));
}

} // verus!
