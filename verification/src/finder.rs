//! The search index over one catalog: it is rebuilt whole and asked for the
//! best matches of a query.

use crate::engine::{
    abandon, arranged, commit_writer, committed, create_index, exact_hits, genuine, kinds, matching,
    nothing_held,
    open_searcher, open_writer, placed, published, ranked, read, stage, staged,
    text_view, top_hits, two_kinds, two_texts, visible, writer_kinds, Doc, Lookup, Opened, Slot,
    TERM_LIMIT,
};
use crate::error::CatalogError;
use crate::nub::{join_tags, records, row_of, Nub, NubView, Row};
use vstd::prelude::*;
use vstd::string::*;

verus! {

/// The most rows that one search returns.
pub const RESULT_LIMIT: usize = 10;

/// The memory that a rebuild may use, in bytes.
pub const WRITER_BUDGET: usize = 100_000_000;

/// One search result: the two stored texts of a document.
#[derive(Clone, Debug)]
pub struct Found {
    pub source: String,
    pub tags: String,
}

impl View for Found {
    type V = Row;

    open spec fn view(&self) -> Row {
        (self.source@, self.tags@)
    }
}

/// The two texts read from one stored document, each absent where the
/// document has no text under that field.
pub type Stored = (Option<String>, Option<String>);

/// What a `Stored` stands for.
pub type StoredView = (Option<Seq<char>>, Option<Seq<char>>);

/// The texts that a list of stored texts stands for.
pub open spec fn stored_views(stored: Seq<Stored>) -> Seq<StoredView> {
    Seq::new(stored.len(), |i: int| (text_view(stored[i].0), text_view(stored[i].1)))
}

/// The rows that a list of results stands for.
pub open spec fn found_rows(found: Seq<Found>) -> Seq<Row> {
    Seq::new(found.len(), |i: int| found[i]@)
}

/// What the outcome of a search stands for.
pub open spec fn outcome_view(out: Result<Vec<Found>, CatalogError>) -> Result<Seq<Row>, CatalogError> {
    match out {
        Ok(found) => Ok(found_rows(found@)),
        Err(e) => Err(e),
    }
}

/// The document that holds the two texts of a row under the two fields.
pub open spec fn doc_of(url: u32, keywords: u32, row: Row) -> Doc {
    two_texts(url, keywords, row.0, row.1)
}

/// The documents of a catalog, one for each record, in order.
pub open spec fn docs_of(nubs: Seq<NubView>, url: u32, keywords: u32) -> Seq<Doc> {
    Seq::new(nubs.len(), |i: int| doc_of(url, keywords, row_of(nubs[i])))
}

/// The two texts of the document at each of the places.
pub open spec fn texts_at(held: Map<Slot, Doc>, places: Seq<Slot>, url: u32, keywords: u32) -> Seq<
    StoredView,
> {
    Seq::new(places.len(), |i: int| (held[places[i]].get(url), held[places[i]].get(keywords)))
}

/// The rows of the stored texts that have both, in order.
pub open spec fn complete_rows(stored: Seq<StoredView>) -> Seq<Row>
    decreases stored.len(),
{
    if stored.len() == 0 {
        Seq::empty()
    } else {
        let rest = complete_rows(stored.drop_last());
        match stored.last() {
            (Some(source), Some(tags)) => rest.push((source, tags)),
            _ => rest,
        }
    }
}

/// The places of `ranked` that are not among `exact`, in order.
pub open spec fn fresh(ranked: Seq<Slot>, exact: Seq<Slot>) -> Seq<Slot>
    decreases ranked.len(),
{
    if ranked.len() == 0 {
        Seq::empty()
    } else {
        let rest = fresh(ranked.drop_last(), exact);
        if exact.contains(ranked.last()) {
            rest
        } else {
            rest.push(ranked.last())
        }
    }
}

/// The places to show: those of the exact matches first, then the ranked
/// ones that are not among them, and no more than `limit` in all.
pub open spec fn merged(exact: Seq<Slot>, ranked: Seq<Slot>, limit: usize) -> Seq<Slot> {
    let all = exact + fresh(ranked, exact);
    if all.len() <= limit {
        all
    } else {
        all.take(limit as int)
    }
}

/// The places to show, given the places of the documents whose source is the
/// query text itself and the engine's answer to the text as a query (nothing
/// where its parser refused it). A text that the parser refuses and that is
/// no document's source is refused.
pub open spec fn plan(exact: Seq<Slot>, ranked: Option<Seq<Slot>>, limit: usize) -> Option<Seq<Slot>> {
    match ranked {
        Some(hits) => Some(merged(exact, hits, limit)),
        None => if exact.len() > 0 {
            Some(merged(exact, Seq::empty(), limit))
        } else {
            None
        },
    }
}

/// The places to show for the outcomes of the two lookups; nothing where one
/// of them failed or the text is refused.
pub open spec fn places_for(exact: Lookup, ranked: Lookup, limit: usize) -> Option<Seq<Slot>> {
    match (exact, ranked) {
        (Lookup::Hits(e), Lookup::Hits(r)) => plan(e@, Some(r@), limit),
        (Lookup::Hits(e), Lookup::Rejected) => plan(e@, None, limit),
        _ => None,
    }
}

/// What a search returns for the texts that were read at the places to show;
/// `None` stands for a place that could not be read, or for no places.
pub open spec fn finish_spec(stored: Option<Seq<StoredView>>) -> Result<Seq<Row>, CatalogError> {
    match stored {
        Some(texts) => Ok(complete_rows(texts)),
        None => Err(CatalogError::Query),
    }
}

/// The texts that an optional list of stored texts stands for.
pub open spec fn reads_view(stored: Option<Vec<Stored>>) -> Option<Seq<StoredView>> {
    match stored {
        Some(list) => Some(stored_views(list@)),
        None => None,
    }
}

/// The places that an optional list of places stands for.
pub open spec fn places_view(places: Option<Vec<Slot>>) -> Option<Seq<Slot>> {
    match places {
        Some(list) => Some(list@),
        None => None,
    }
}

/// There are no more complete rows than stored texts.
pub proof fn lemma_complete_rows_len(stored: Seq<StoredView>)
    ensures
        complete_rows(stored).len() <= stored.len(),
    decreases stored.len(),
{
    if stored.len() > 0 {
        lemma_complete_rows_len(stored.drop_last());
    }
}

/// Every complete row comes from one of the stored texts that has both.
pub proof fn lemma_complete_rows_origin(stored: Seq<StoredView>, k: int)
    requires
        0 <= k < complete_rows(stored).len(),
    ensures
        exists|j: int|
            0 <= j < stored.len() && #[trigger] stored[j] == (
                Some(complete_rows(stored)[k].0),
                Some(complete_rows(stored)[k].1),
            ),
    decreases stored.len(),
{
    let front = stored.drop_last();
    let rest = complete_rows(front);
    if k < rest.len() {
        lemma_complete_rows_origin(front, k);
        let j = choose|j: int|
            0 <= j < front.len() && #[trigger] front[j] == (Some(rest[k].0), Some(rest[k].1));
        assert(stored[j] == front[j]);
    } else {
        assert(stored[stored.len() - 1] == stored.last());
    }
}

/// Where every stored text has both, each gives its row, in order.
pub proof fn lemma_complete_rows_all(stored: Seq<StoredView>)
    requires
        forall|j: int| 0 <= j < stored.len() ==> (#[trigger] stored[j]).0 is Some && stored[j].1 is Some,
    ensures
        complete_rows(stored).len() == stored.len(),
        forall|j: int|
            0 <= j < stored.len() ==> #[trigger] complete_rows(stored)[j] == (
                stored[j].0.unwrap(),
                stored[j].1.unwrap(),
            ),
    decreases stored.len(),
{
    if stored.len() > 0 {
        let front = stored.drop_last();
        assert forall|j: int| 0 <= j < front.len() implies (#[trigger] front[j]).0 is Some
            && front[j].1 is Some by {
            assert(front[j] == stored[j]);
        }
        lemma_complete_rows_all(front);
        assert(stored[stored.len() - 1] == stored.last());
        assert forall|j: int| 0 <= j < stored.len() implies #[trigger] complete_rows(stored)[j] == (
            stored[j].0.unwrap(),
            stored[j].1.unwrap(),
        ) by {
            if j < front.len() {
                assert(front[j] == stored[j]);
                assert(complete_rows(stored)[j] == complete_rows(front)[j]);
            }
        }
    }
}

/// A stored text that has both gives a row among the complete ones.
pub proof fn lemma_complete_rows_has(stored: Seq<StoredView>, j: int)
    requires
        0 <= j < stored.len(),
        stored[j].0 is Some,
        stored[j].1 is Some,
    ensures
        complete_rows(stored).contains((stored[j].0.unwrap(), stored[j].1.unwrap())),
    decreases stored.len(),
{
    let front = stored.drop_last();
    let rest = complete_rows(front);
    let row = (stored[j].0.unwrap(), stored[j].1.unwrap());
    if j == stored.len() - 1 {
        assert(stored.last() == stored[j]);
        assert(complete_rows(stored) == rest.push(row));
        assert(rest.push(row)[rest.len() as int] == row);
    } else {
        assert(front[j] == stored[j]);
        lemma_complete_rows_has(front, j);
        let k = choose|k: int| 0 <= k < rest.len() && rest[k] == row;
        assert(complete_rows(stored)[k] == row);
    }
}

/// Every place of `fresh` is one of `ranked`.
pub proof fn lemma_fresh_members(ranked: Seq<Slot>, exact: Seq<Slot>, k: int)
    requires
        0 <= k < fresh(ranked, exact).len(),
    ensures
        ranked.contains(fresh(ranked, exact)[k]),
        fresh(ranked, exact).len() <= ranked.len(),
    decreases ranked.len(),
{
    let front = ranked.drop_last();
    let rest = fresh(front, exact);
    if rest.len() > 0 {
        lemma_fresh_members(front, exact, 0);
    }
    if k < rest.len() {
        lemma_fresh_members(front, exact, k);
        let j = choose|j: int| 0 <= j < front.len() && front[j] == rest[k];
        assert(ranked[j] == front[j]);
    } else {
        assert(ranked[ranked.len() - 1] == ranked.last());
    }
}

/// The merged places begin with the exact ones, as far as the limit lets
/// them, and every one of them is an exact or a ranked place.
pub proof fn lemma_merged(exact: Seq<Slot>, ranked: Seq<Slot>, limit: usize)
    ensures
        merged(exact, ranked, limit).len() <= limit,
        forall|k: int|
            0 <= k < merged(exact, ranked, limit).len() && k < exact.len() ==> #[trigger] merged(
                exact,
                ranked,
                limit,
            )[k] == exact[k],
        exact.len() <= limit ==> merged(exact, ranked, limit).len() >= exact.len(),
        forall|k: int|
            0 <= k < merged(exact, ranked, limit).len() ==> exact.contains(
                #[trigger] merged(exact, ranked, limit)[k],
            ) || ranked.contains(merged(exact, ranked, limit)[k]),
{
    let rest = fresh(ranked, exact);
    let all = exact + rest;
    assert forall|k: int| 0 <= k < merged(exact, ranked, limit).len() implies exact.contains(
        #[trigger] merged(exact, ranked, limit)[k],
    ) || ranked.contains(merged(exact, ranked, limit)[k]) by {
        assert(merged(exact, ranked, limit)[k] == all[k]);
        if k < exact.len() {
            assert(all[k] == exact[k]);
        } else {
            assert(all[k] == rest[k - exact.len()]);
            lemma_fresh_members(ranked, exact, k - exact.len());
        }
    }
}

/// Whether the place is in the list.
pub fn holds_place(list: &Vec<Slot>, at: Slot) -> (out: bool)
    ensures
        out == list@.contains(at),
{
    let mut i: usize = 0;
    while i < list.len()
        invariant
            i <= list.len(),
            forall|k: int| 0 <= k < i ==> list@[k] != at,
        decreases list.len() - i,
    {
        let here = list[i];
        if here.0 == at.0 && here.1 == at.1 {
            return true;
        }
        i += 1;
    }
    false
}

/// The places to show: the exact ones first, then the ranked ones that are
/// not among them, and no more than `limit` in all.
pub fn merge(exact: &Vec<Slot>, ranked: &Vec<Slot>, limit: usize) -> (out: Vec<Slot>)
    ensures
        out@ == merged(exact@, ranked@, limit),
{
    let mut rest: Vec<Slot> = Vec::new();
    let mut i: usize = 0;
    while i < ranked.len()
        invariant
            i <= ranked.len(),
            rest@ == fresh(ranked@.take(i as int), exact@),
        decreases ranked.len() - i,
    {
        proof {
            assert(ranked@.take(i as int + 1).drop_last() =~= ranked@.take(i as int));
            assert(ranked@.take(i as int + 1).last() == ranked@[i as int]);
        }
        if !holds_place(exact, ranked[i]) {
            rest.push(ranked[i]);
        }
        i += 1;
    }
    proof {
        assert(ranked@.take(ranked@.len() as int) =~= ranked@);
    }
    let ghost all = exact@ + rest@;
    let mut out: Vec<Slot> = Vec::new();
    let mut j: usize = 0;
    while j < exact.len() && out.len() < limit
        invariant
            j <= exact.len(),
            out@.len() == j,
            out@.len() <= limit,
            all == exact@ + rest@,
            out@ == all.take(j as int),
        decreases exact.len() - j,
    {
        out.push(exact[j]);
        proof {
            assert(all[j as int] == exact@[j as int]);
            assert(out@ =~= all.take(j as int + 1));
        }
        j += 1;
    }
    let mut k: usize = 0;
    while k < rest.len() && out.len() < limit
        invariant
            k <= rest.len(),
            j <= exact.len(),
            out@.len() <= limit,
            all == exact@ + rest@,
            j < exact.len() ==> k == 0 && out@.len() == limit,
            out@.len() == j + k,
            out@ == all.take(j + k),
        decreases rest.len() - k,
    {
        out.push(rest[k]);
        proof {
            assert(all[j + k] == rest@[k as int]);
            assert(out@ =~= all.take(j + k + 1));
        }
        k += 1;
    }
    proof {
        if all.len() <= limit {
            assert(out@ =~= all);
        } else {
            assert(out@.len() == limit);
        }
    }
    out
}

/// The places to show for the outcomes of the two lookups; nothing where one
/// of them failed or the text is refused.
pub fn choose_places(exact: &Lookup, ranked: &Lookup, limit: usize) -> (out: Option<Vec<Slot>>)
    ensures
        places_view(out) == places_for(*exact, *ranked, limit),
{
    match exact {
        Lookup::Hits(e) => match ranked {
            Lookup::Hits(r) => Some(merge(e, r, limit)),
            Lookup::Rejected => {
                if e.len() > 0 {
                    let none: Vec<Slot> = Vec::new();
                    proof {
                        assert(none@ =~= Seq::<Slot>::empty());
                    }
                    Some(merge(e, &none, limit))
                } else {
                    None
                }
            },
            Lookup::Failed => None,
        },
        _ => None,
    }
}

/// Keeps the stored texts that have both a source and tags, in order.
pub fn gather(stored: &Vec<Stored>) -> (out: Vec<Found>)
    ensures
        found_rows(out@) == complete_rows(stored_views(stored@)),
{
    let mut out: Vec<Found> = Vec::new();
    let mut i: usize = 0;
    while i < stored.len()
        invariant
            i <= stored.len(),
            found_rows(out@) == complete_rows(stored_views(stored@).take(i as int)),
        decreases stored.len() - i,
    {
        let ghost before = out@;
        proof {
            let views = stored_views(stored@);
            assert(views.take(i as int + 1).drop_last() =~= views.take(i as int));
            assert(views.take(i as int + 1).last() == views[i as int]);
        }
        match &stored[i] {
            (Some(source), Some(tags)) => {
                out.push(Found { source: source.clone(), tags: tags.clone() });
                proof {
                    assert(found_rows(out@) =~= found_rows(before).push((source@, tags@)));
                }
            },
            _ => {},
        }
        i += 1;
    }
    proof {
        let views = stored_views(stored@);
        assert(views.take(views.len() as int) =~= views);
    }
    out
}

/// What a search returns for the texts that were read at the places to show:
/// the complete rows among them, or a refusal where there is nothing to read
/// or a place could not be read.
pub fn finish(stored: Option<Vec<Stored>>) -> (out: Result<Vec<Found>, CatalogError>)
    ensures
        outcome_view(out) == finish_spec(reads_view(stored)),
{
    match stored {
        Some(list) => Ok(gather(&list)),
        None => Err(CatalogError::Query),
    }
}

/// A search index in memory over one catalog.
///
/// Each record of the catalog is one document with two stored texts: the
/// source, which is indexed whole, and the joined tags, which are indexed
/// word by word. Records are not merged: two records with the same source
/// are two documents, and a search may return both.
///
/// A rebuild takes the index exclusively and a search shares it, so no search
/// on one finder runs while it is rebuilt. To answer searches during a
/// rebuild, build a second finder and put it in the place of the first.
pub struct NubFinder {
    index: Option<tantivy::Index>,
    url: u32,
    keywords: u32,
}

impl NubFinder {
    #[verifier::type_invariant]
    spec fn well_formed(self) -> bool {
        &&& self.url != self.keywords
        &&& match self.index {
            Some(ix) => kinds(ix) == two_kinds(self.url, self.keywords),
            None => true,
        }
    }

    /// The documents that the index holds, each under its place.
    pub closed spec fn corpus(&self) -> Map<Slot, Doc> {
        match self.index {
            Some(ix) => committed(ix),
            None => nothing_held(),
        }
    }

    /// Whether the index holds exactly the catalog: one document for each
    /// record, with the record's source as it is and its tags joined, twice
    /// where a record stands twice, and no other document.
    pub closed spec fn holds(&self, nubs: Seq<NubView>) -> bool {
        &&& self.index is Some
        &&& self.url != self.keywords
        &&& arranged(self.corpus(), docs_of(nubs, self.url, self.keywords))
    }

    /// The two texts of the document that the index holds at a place.
    pub closed spec fn texts_of(&self, at: Slot) -> StoredView {
        (self.corpus()[at].get(self.url), self.corpus()[at].get(self.keywords))
    }

    /// Whether the searcher is one that the engine opens on this index as it
    /// stands: it sees the documents that the index holds.
    pub closed spec fn serves(&self, searcher: tantivy::Searcher) -> bool {
        &&& self.index is Some
        &&& visible(searcher) == self.corpus()
    }

    /// The places of the documents whose source is the text itself, as the
    /// engine gives them. A text too long for the engine's index is no source.
    pub closed spec fn exact_part(&self, searcher: tantivy::Searcher, q: Seq<char>) -> Seq<Slot> {
        if q.len() <= TERM_LIMIT {
            matching(searcher, self.url, q, RESULT_LIMIT)
        } else {
            Seq::empty()
        }
    }

    /// What the engine keeps to in answering: its exact matches are places of
    /// documents with that source, and all of them where they are fewer than
    /// the limit; its ranked matches are places of documents, no more than
    /// the limit.
    pub closed spec fn sound(&self, searcher: tantivy::Searcher, q: Seq<char>) -> bool {
        &&& genuine(visible(searcher), self.url, q, RESULT_LIMIT, self.exact_part(searcher, q))
            || q.len() > TERM_LIMIT
        &&& match ranked(searcher, self.url, self.keywords, q, RESULT_LIMIT) {
            Some(hits) => hits.len() <= RESULT_LIMIT && forall|i: int|
                0 <= i < hits.len() ==> visible(searcher).dom().contains(#[trigger] hits[i]),
            None => true,
        }
    }

    /// The places whose documents a search for the text shows, best first:
    /// the exact matches, then the engine's ranked matches for the text as a
    /// query. Nothing where the engine's parser refuses the text and no
    /// document has it as its source.
    pub closed spec fn shown(&self, searcher: tantivy::Searcher, q: Seq<char>) -> Option<Seq<Slot>> {
        plan(
            self.exact_part(searcher, q),
            ranked(searcher, self.url, self.keywords, q, RESULT_LIMIT),
            RESULT_LIMIT,
        )
    }

    /// The rows that a search for the text returns through the searcher:
    /// those of the documents at the places shown.
    pub closed spec fn answer(&self, searcher: tantivy::Searcher, q: Seq<char>) -> Option<Seq<Row>> {
        match self.shown(searcher, q) {
            Some(places) => Some(
                complete_rows(texts_at(visible(searcher), places, self.url, self.keywords)),
            ),
            None => None,
        }
    }

    /// What holds of a search for `q` that ended in `out`. A search that
    /// succeeds was for a text that is not empty, and returns exactly the rows
    /// that the engine's answers on the index as it stands give, no more than
    /// ten. A search fails with `Query` and no other error.
    pub open spec fn search_post(&self, q: Seq<char>, out: Result<Seq<Row>, CatalogError>) -> bool {
        match out {
            Ok(rows) => q.len() > 0 && rows.len() <= RESULT_LIMIT && exists|
                searcher: tantivy::Searcher,
            |
                #[trigger] self.serves(searcher) && self.sound(searcher, q) && self.answer(
                    searcher,
                    q,
                ) == Some(rows),
            Err(e) => e == CatalogError::Query,
        }
    }

    /// An index that holds no document yet.
    pub fn new() -> (out: Result<NubFinder, CatalogError>)
        ensures
            out matches Ok(finder) && finder.holds(Seq::empty()),
    {
        proof {
            reveal_strlit("url");
            reveal_strlit("keywords");
        }
        let (index, url, keywords) = create_index("url", "keywords");
        let finder = NubFinder { index: Some(index), url, keywords };
        proof {
            let docs = docs_of(Seq::<NubView>::empty(), url, keywords);
            assert(placed(finder.corpus(), docs, Seq::<Slot>::empty()));
        }
        Ok(finder)
    }

    /// Replaces the index's documents by one document for each record: its
    /// source as it is and its tags joined. Either the index holds exactly
    /// the new catalog afterwards, or the call fails and the index holds what
    /// it held.
    pub fn commit(&mut self, nubs: Vec<Nub>) -> (out: Result<(), CatalogError>)
        ensures
            match out {
                Ok(_) => final(self).holds(records(nubs@)),
                Err(e) => e == CatalogError::IndexWrite && final(self).corpus() == old(
                    self,
                ).corpus(),
            },
    {
        proof {
            use_type_invariant(&*self);
        }
        let url = self.url;
        let keywords = self.keywords;
        let mut taken: Option<tantivy::Index> = None;
        core::mem::swap(&mut self.index, &mut taken);
        let index = match taken {
            Some(index) => index,
            None => {
                return Err(CatalogError::IndexWrite);
            },
        };
        let mut writer = match open_writer(index, 1, WRITER_BUDGET) {
            Opened::Ready(writer) => writer,
            Opened::Refused(back) => {
                self.index = Some(back);
                return Err(CatalogError::IndexWrite);
            },
        };
        let ghost docs = docs_of(records(nubs@), url, keywords);
        let mut i: usize = 0;
        while i < nubs.len()
            invariant
                i <= nubs.len(),
                url != keywords,
                url == self.url,
                keywords == self.keywords,
                self.index is None,
                docs == docs_of(records(nubs@), url, keywords),
                staged(writer) == docs.take(i as int),
                published(writer) == old(self).corpus(),
                writer_kinds(writer) == two_kinds(url, keywords),
            decreases nubs.len() - i,
        {
            let nub = &nubs[i];
            let tags = join_tags(&nub.tags);
            let staging = stage(&mut writer, url, keywords, nub.source.as_str(), tags.as_str());
            if staging.is_err() {
                let back = abandon(writer);
                self.index = Some(back);
                return Err(CatalogError::IndexWrite);
            }
            proof {
                assert(records(nubs@)[i as int] == nubs@[i as int]@);
                assert(docs.take(i as int).push(docs[i as int]) =~= docs.take(i as int + 1));
            }
            i += 1;
        }
        proof {
            assert(docs.take(nubs@.len() as int) =~= docs);
        }
        let (after, done) = commit_writer(writer);
        self.index = Some(after);
        if done {
            Ok(())
        } else {
            Err(CatalogError::IndexWrite)
        }
    }

    /// The best matches of a text, at most ten, best first: the records whose
    /// source is the text itself, then the engine's ranked matches for the
    /// text as a query. An empty text is refused, and so is a text that the
    /// engine's parser does not accept and that is no record's source.
    pub fn search(&self, q: &str) -> (out: Result<Vec<Found>, CatalogError>)
        ensures
            self.search_post(q@, outcome_view(out)),
    {
        proof {
            use_type_invariant(self);
        }
        if q.is_empty() {
            return Err(CatalogError::Query);
        }
        let index = match &self.index {
            Some(index) => index,
            None => {
                return Err(CatalogError::Query);
            },
        };
        let searcher = match open_searcher(index) {
            Ok(searcher) => searcher,
            Err(_) => {
                return Err(CatalogError::Query);
            },
        };
        let exact = if q.unicode_len() <= TERM_LIMIT {
            exact_hits(&searcher, self.url, q, RESULT_LIMIT)
        } else {
            Lookup::Hits(Vec::new())
        };
        let ranking = top_hits(&searcher, self.url, self.keywords, q, RESULT_LIMIT);
        let places = match choose_places(&exact, &ranking, RESULT_LIMIT) {
            Some(places) => places,
            None => {
                return Err(CatalogError::Query);
            },
        };
        proof {
            let e = self.exact_part(searcher, q@);
            let r = ranked(searcher, self.url, self.keywords, q@, RESULT_LIMIT);
            assert(exact matches Lookup::Hits(hits) && hits@ =~= e);
            assert(self.shown(searcher, q@) == Some(places@));
            assert(self.sound(searcher, q@));
            match r {
                Some(hits) => lemma_merged(e, hits, RESULT_LIMIT),
                None => lemma_merged(e, Seq::empty(), RESULT_LIMIT),
            }
            assert forall|k: int| 0 <= k < places@.len() implies visible(searcher).dom().contains(
                #[trigger] places@[k],
            ) by {
                let at = places@[k];
                if e.contains(at) {
                    let j = choose|j: int| 0 <= j < e.len() && e[j] == at;
                    assert(visible(searcher).dom().contains(e[j]));
                } else {
                    let hits = r.unwrap();
                    let j = choose|j: int| 0 <= j < hits.len() && hits[j] == at;
                    assert(visible(searcher).dom().contains(hits[j]));
                }
            }
        }
        let mut stored: Vec<Stored> = Vec::new();
        let mut i: usize = 0;
        while i < places.len()
            invariant
                i <= places.len(),
                stored@.len() == i,
                forall|k: int|
                    0 <= k < places@.len() ==> visible(searcher).dom().contains(
                        #[trigger] places@[k],
                    ),
                forall|k: int|
                    0 <= k < i ==> text_view((#[trigger] stored@[k]).0) == visible(
                        searcher,
                    )[places@[k]].get(self.url) && text_view(stored@[k].1) == visible(
                        searcher,
                    )[places@[k]].get(self.keywords),
            decreases places.len() - i,
        {
            let ghost before = stored@;
            match read(&searcher, places[i], self.url, self.keywords) {
                Ok(texts) => {
                    stored.push(texts);
                    proof {
                        assert forall|k: int| 0 <= k < i implies stored@[k] == before[k] by {}
                    }
                },
                Err(_) => {
                    return finish(None);
                },
            }
            i += 1;
        }
        let ghost texts = texts_at(visible(searcher), places@, self.url, self.keywords);
        proof {
            assert(stored_views(stored@) =~= texts);
            lemma_complete_rows_len(texts);
            lemma_merged(
                self.exact_part(searcher, q@),
                Seq::<Slot>::empty(),
                RESULT_LIMIT,
            );
        }
        let out = finish(Some(stored));
        proof {
            assert(self.serves(searcher));
            assert(self.answer(searcher, q@) == Some(complete_rows(texts)));
        }
        out
    }
}

/// In an index that holds a catalog, the document at a place is that of one
/// of the records.
proof fn lemma_held_at(held: Map<Slot, Doc>, nubs: Seq<NubView>, url: u32, keywords: u32, at: Slot)
    requires
        arranged(held, docs_of(nubs, url, keywords)),
        held.dom().contains(at),
    ensures
        exists|i: int|
            0 <= i < nubs.len() && held[at] == doc_of(url, keywords, row_of(#[trigger] nubs[i])),
{
    let docs = docs_of(nubs, url, keywords);
    let places = choose|places: Seq<Slot>| placed(held, docs, places);
    assert(places.contains(at));
    let i = choose|i: int| 0 <= i < places.len() && places[i] == at;
    assert(held[places[i]] == docs[i]);
    assert(held[at] == doc_of(url, keywords, row_of(nubs[i])));
}

/// In an index that holds a catalog, every record has its document at some
/// place.
proof fn lemma_held_of(held: Map<Slot, Doc>, nubs: Seq<NubView>, url: u32, keywords: u32, i: int)
    requires
        arranged(held, docs_of(nubs, url, keywords)),
        0 <= i < nubs.len(),
    ensures
        exists|at: Slot|
            #[trigger] held.dom().contains(at) && held[at] == doc_of(
                url,
                keywords,
                row_of(nubs[i]),
            ),
{
    let docs = docs_of(nubs, url, keywords);
    let places = choose|places: Seq<Slot>| placed(held, docs, places);
    let at = places[i];
    assert(places.contains(at));
    assert(held[places[i]] == docs[i]);
    assert(held.dom().contains(at) && held[at] == doc_of(url, keywords, row_of(nubs[i])));
}

/// What a rebuild leaves: as many documents as the catalog has records, each
/// at a place of its own and with the texts of its record, a record that
/// stands twice being there twice, and no other document.
pub proof fn lemma_rebuild_leaves_catalog(finder: NubFinder, nubs: Seq<NubView>)
    requires
        finder.holds(nubs),
    ensures
        exists|places: Seq<Slot>|
            {
                &&& #[trigger] places.len() == nubs.len()
                &&& places.no_duplicates()
                &&& forall|at: Slot| finder.corpus().dom().contains(at) <==> places.contains(at)
                &&& forall|i: int|
                    0 <= i < nubs.len() ==> finder.texts_of(#[trigger] places[i]) == (
                        Some(row_of(nubs[i]).0),
                        Some(row_of(nubs[i]).1),
                    )
            },
{
    let docs = docs_of(nubs, finder.url, finder.keywords);
    let places = choose|places: Seq<Slot>| placed(finder.corpus(), docs, places);
    assert forall|i: int| 0 <= i < nubs.len() implies finder.texts_of(#[trigger] places[i]) == (
        Some(row_of(nubs[i]).0),
        Some(row_of(nubs[i]).1),
    ) by {
        assert(finder.corpus()[places[i]] == docs[i]);
    }
    assert(places.len() == nubs.len());
}

/// After a rebuild nothing of an earlier catalog is left to find: every row
/// that a search returns is the source of one of the records that the index
/// was rebuilt from, as it is, with that record's tags joined.
pub proof fn lemma_no_stale_rows(
    finder: NubFinder,
    latest: Seq<NubView>,
    q: Seq<char>,
    rows: Seq<Row>,
    k: int,
)
    requires
        finder.holds(latest),
        finder.search_post(q, Ok(rows)),
        0 <= k < rows.len(),
    ensures
        exists|i: int| 0 <= i < latest.len() && rows[k] == row_of(#[trigger] latest[i]),
{
    let searcher = choose|searcher: tantivy::Searcher|
        #[trigger] finder.serves(searcher) && finder.sound(searcher, q) && finder.answer(
            searcher,
            q,
        ) == Some(rows);
    let held = visible(searcher);
    let e = finder.exact_part(searcher, q);
    let r = ranked(searcher, finder.url, finder.keywords, q, RESULT_LIMIT);
    let places = finder.shown(searcher, q).unwrap();
    let texts = texts_at(held, places, finder.url, finder.keywords);
    lemma_complete_rows_origin(texts, k);
    let j = choose|j: int|
        0 <= j < texts.len() && #[trigger] texts[j] == (Some(rows[k].0), Some(rows[k].1));
    let at = places[j];
    match r {
        Some(hits) => lemma_merged(e, hits, RESULT_LIMIT),
        None => lemma_merged(e, Seq::empty(), RESULT_LIMIT),
    }
    assert(held.dom().contains(at)) by {
        if e.contains(at) {
            let n = choose|n: int| 0 <= n < e.len() && e[n] == at;
            assert(held.dom().contains(e[n]));
        } else {
            let hits = r.unwrap();
            let n = choose|n: int| 0 <= n < hits.len() && hits[n] == at;
            assert(held.dom().contains(hits[n]));
        }
    }
    lemma_held_at(held, latest, finder.url, finder.keywords, at);
    let i = choose|i: int|
        0 <= i < latest.len() && held[at] == doc_of(
            finder.url,
            finder.keywords,
            row_of(#[trigger] latest[i]),
        );
    assert(rows[k] == row_of(latest[i]));
}

/// A record is found by its own source. In an index that holds a catalog, a
/// search for the source of one of its records, as it is, returns that
/// record's row, whatever the text looks like to the engine's parser. The one
/// exception: where ten or more records have that very source, the search
/// returns ten of them.
pub proof fn lemma_exact_source_found(
    finder: NubFinder,
    latest: Seq<NubView>,
    i: int,
    rows: Seq<Row>,
)
    requires
        finder.holds(latest),
        0 <= i < latest.len(),
        0 < latest[i].source.len() <= TERM_LIMIT,
        finder.search_post(latest[i].source, Ok(rows)),
    ensures
        rows.contains(row_of(latest[i])) || (rows.len() == RESULT_LIMIT && forall|k: int|
            0 <= k < rows.len() ==> (#[trigger] rows[k]).0 == latest[i].source),
{
    let q = latest[i].source;
    let searcher = choose|searcher: tantivy::Searcher|
        #[trigger] finder.serves(searcher) && finder.sound(searcher, q) && finder.answer(
            searcher,
            q,
        ) == Some(rows);
    let held = visible(searcher);
    let url = finder.url;
    let keywords = finder.keywords;
    let e = finder.exact_part(searcher, q);
    let r = ranked(searcher, url, keywords, q, RESULT_LIMIT);
    let places = finder.shown(searcher, q).unwrap();
    let texts = texts_at(held, places, url, keywords);
    lemma_held_of(held, latest, url, keywords, i);
    let at = choose|at: Slot|
        #[trigger] held.dom().contains(at) && held[at] == doc_of(url, keywords, row_of(latest[i]));
    assert(held[at].get(url) == Some(q));
    match r {
        Some(hits) => lemma_merged(e, hits, RESULT_LIMIT),
        None => lemma_merged(e, Seq::empty(), RESULT_LIMIT),
    }
    if e.len() < RESULT_LIMIT {
        assert(e.contains(at));
        let n = choose|n: int| 0 <= n < e.len() && e[n] == at;
        assert(places[n] == e[n]);
        assert(texts[n] == (Some(q), Some(row_of(latest[i]).1)));
        lemma_complete_rows_has(texts, n);
    } else {
        assert(places.len() == RESULT_LIMIT);
        assert forall|n: int| 0 <= n < texts.len() implies (#[trigger] texts[n]).0 == Some(q)
            && texts[n].1 is Some by {
            assert(places[n] == e[n]);
            assert(held.dom().contains(e[n]) && held[e[n]].get(url) == Some(q));
            lemma_held_at(held, latest, url, keywords, e[n]);
            let m = choose|m: int|
                0 <= m < latest.len() && held[e[n]] == doc_of(
                    url,
                    keywords,
                    row_of(#[trigger] latest[m]),
                );
            assert(held[e[n]].get(keywords) is Some);
        }
        lemma_complete_rows_all(texts);
        assert forall|k: int| 0 <= k < rows.len() implies (#[trigger] rows[k]).0 == q by {
            assert(rows[k] == (texts[k].0.unwrap(), texts[k].1.unwrap()));
        }
    }
}

} // verus!
