//! The boundary with the tantivy search engine.
//!
//! Everything in this file is believed, not proved: the declarations make the
//! engine's types known, the uninterpreted functions name what an index, a
//! writer and a searcher hold, and each wrapper states what the engine calls
//! in its body do to those contents.
//!
//! The engine shares one index between all its handles and changes it behind
//! them. Here a handle is never shared: a writer takes the handle of its index
//! and hands it back when it is closed, with what the index then holds.

use tantivy::schema::Value;
use vstd::prelude::*;

verus! {

/// A stored document as far as the catalog reads it: under the number of each
/// field, the first value stored there, where that value is a text.
pub type Doc = Map<u32, Seq<char>>;

/// The place of a document inside one searcher: its segment and its number there.
pub type Slot = (u32, u32);

/// For the number of each field of a schema, whether the field is indexed
/// whole (`true`) or word by word.
pub type Kinds = Map<u32, bool>;

/// The most places that one lookup may be asked for: the engine sets aside
/// room for twice as many.
pub const LOOKUP_LIMIT: usize = 1000;

/// The longest text, in characters, that is looked up as a whole: the engine
/// does not index a longer one.
pub const TERM_LIMIT: usize = 16000;

#[verifier::external_type_specification]
#[verifier::external_body]
pub struct ExIndex(tantivy::Index);

/// The engine's writer, together with the handle of the index that it writes
/// to. The writer's type is generic over a trait of the engine, so it is held
/// here and not declared.
#[verifier::external_body]
pub struct Writer {
    inner: tantivy::IndexWriter,
    index: tantivy::Index,
}

#[verifier::external_type_specification]
#[verifier::external_body]
pub struct ExSearcher(tantivy::Searcher);

#[verifier::external_type_specification]
#[verifier::external_body]
pub struct ExTantivyError(tantivy::TantivyError);

/// The documents that the index holds committed, each under the place at
/// which a reader opened now finds it.
pub uninterp spec fn committed(index: tantivy::Index) -> Map<Slot, Doc>;

/// The fields of the schema of the index.
pub uninterp spec fn kinds(index: tantivy::Index) -> Kinds;

/// The documents that the writer's index holds committed.
pub uninterp spec fn published(writer: Writer) -> Map<Slot, Doc>;

/// The documents that were handed to the writer since it was opened, in order.
pub uninterp spec fn staged(writer: Writer) -> Seq<Doc>;

/// The fields of the schema of the writer's index.
pub uninterp spec fn writer_kinds(writer: Writer) -> Kinds;

/// The documents of the snapshot that the searcher holds, each under its place.
pub uninterp spec fn visible(searcher: tantivy::Searcher) -> Map<Slot, Doc>;

/// The fields of the schema behind the searcher.
pub uninterp spec fn searcher_kinds(searcher: tantivy::Searcher) -> Kinds;

/// What the engine answers to a query text on the searcher's snapshot, the
/// two fields being those searched where the text names none: the places of
/// the best matches, best first, or nothing where its parser refuses the text.
pub uninterp spec fn ranked(
    searcher: tantivy::Searcher,
    url: u32,
    keywords: u32,
    q: Seq<char>,
    limit: usize,
) -> Option<Seq<Slot>>;

/// The places that the engine gives for the documents of the searcher's
/// snapshot that hold exactly this text under the field.
pub uninterp spec fn matching(
    searcher: tantivy::Searcher,
    url: u32,
    source: Seq<char>,
    limit: usize,
) -> Seq<Slot>;

/// Whether the documents are held one at each of as many different places,
/// and nothing else is held.
pub open spec fn arranged(held: Map<Slot, Doc>, docs: Seq<Doc>) -> bool {
    exists|places: Seq<Slot>| placed(held, docs, places)
}

/// Whether `places` says where each of the documents is held: one place for
/// each, no place twice, and no other place holds a document.
pub open spec fn placed(held: Map<Slot, Doc>, docs: Seq<Doc>, places: Seq<Slot>) -> bool {
    &&& places.len() == docs.len()
    &&& places.no_duplicates()
    &&& forall|at: Slot| held.dom().contains(at) <==> places.contains(at)
    &&& forall|i: int| 0 <= i < docs.len() ==> held[#[trigger] places[i]] == docs[i]
}

/// Whether `hits` are places of documents that hold exactly the text under
/// the field, no place twice and no more than `limit`, and all such places
/// where they are fewer than `limit`.
pub open spec fn genuine(
    held: Map<Slot, Doc>,
    url: u32,
    source: Seq<char>,
    limit: usize,
    hits: Seq<Slot>,
) -> bool {
    &&& hits.len() <= limit
    &&& hits.no_duplicates()
    &&& forall|i: int|
        0 <= i < hits.len() ==> held.dom().contains(#[trigger] hits[i]) && held[hits[i]].get(url)
            == Some(source)
    &&& hits.len() < limit ==> forall|at: Slot|
        held.dom().contains(at) && #[trigger] held[at].get(url) == Some(source) ==> hits.contains(
            at,
        )
}

/// An index without documents.
pub open spec fn nothing_held() -> Map<Slot, Doc> {
    Map::empty()
}

/// The schema of two fields, the first indexed whole and the second word by
/// word.
pub open spec fn two_kinds(whole: u32, words: u32) -> Kinds {
    Map::<u32, bool>::empty().insert(whole, true).insert(words, false)
}

/// The document that holds one text under each of two fields.
pub open spec fn two_texts(url: u32, keywords: u32, source: Seq<char>, tags: Seq<char>) -> Doc {
    Map::<u32, Seq<char>>::empty().insert(url, source).insert(keywords, tags)
}

/// How opening a writer ended.
pub enum Opened {
    Ready(Writer),
    /// The engine gave no writer; the index comes back as it was.
    Refused(tantivy::Index),
}

/// How a lookup ended.
pub enum Lookup {
    /// The places of the matches, best first.
    Hits(Vec<Slot>),
    /// The engine's parser did not accept the query text.
    Rejected,
    /// The engine failed while running the query.
    Failed,
}

/// The text that a value read from the engine stands for.
pub open spec fn text_view(text: Option<String>) -> Option<Seq<char>> {
    match text {
        Some(s) => Some(s@),
        None => None,
    }
}

/// Builds a schema of two stored text fields, the first indexed whole and the
/// second word by word, and calls `tantivy::Index::create_in_ram` on it. The
/// new index holds no document, and the two numbers returned are its fields.
/// The engine panics on an empty name, on one that starts with a hyphen and
/// on a name used twice.
#[verifier::external_body]
pub(crate) fn create_index(exact: &str, tokenized: &str) -> (out: (tantivy::Index, u32, u32))
    requires
        exact@.len() > 0,
        tokenized@.len() > 0,
        exact@[0] != '-',
        tokenized@[0] != '-',
        exact@ != tokenized@,
    ensures
        committed(out.0) == nothing_held(),
        out.1 != out.2,
        kinds(out.0) == two_kinds(out.1, out.2),
{
    let mut builder = tantivy::schema::Schema::builder();
    let url = builder.add_text_field(exact, tantivy::schema::STRING | tantivy::schema::STORED);
    let keywords = builder.add_text_field(tokenized, tantivy::schema::TEXT | tantivy::schema::STORED);
    (tantivy::Index::create_in_ram(builder.build()), url.field_id(), keywords.field_id())
}

/// Calls `tantivy::Index::writer_with_num_threads` and, on the new writer,
/// `tantivy::IndexWriter::delete_all_documents`: the next commit leaves
/// nothing of what the index holds. Nothing is staged yet, and until the
/// commit the index holds what it held. The engine divides by the number of
/// threads, so that number is not zero.
#[verifier::external_body]
pub(crate) fn open_writer(index: tantivy::Index, threads: usize, budget: usize) -> (out: Opened)
    requires
        threads > 0,
    ensures
        match out {
            Opened::Ready(writer) => staged(writer) == Seq::<Doc>::empty() && published(writer)
                == committed(index) && writer_kinds(writer) == kinds(index),
            Opened::Refused(back) => committed(back) == committed(index) && kinds(back) == kinds(
                index,
            ),
        },
{
    match index.writer_with_num_threads(threads, budget) {
        Ok(inner) => match inner.delete_all_documents() {
            Ok(_) => Opened::Ready(Writer { inner, index }),
            Err(_) => Opened::Refused(index),
        },
        Err(_) => Opened::Refused(index),
    }
}

/// Makes a document of two texts, one under each field, and calls
/// `tantivy::IndexWriter::add_document` on it. Nothing is published by that.
#[verifier::external_body]
pub(crate) fn stage(
    writer: &mut Writer,
    url: u32,
    keywords: u32,
    source: &str,
    tags: &str,
) -> (out: Result<u64, tantivy::TantivyError>)
    requires
        url != keywords,
    ensures
        out is Ok ==> staged(*final(writer)) == staged(*old(writer)).push(
            two_texts(url, keywords, source@, tags@),
        ),
        published(*final(writer)) == published(*old(writer)),
        writer_kinds(*final(writer)) == writer_kinds(*old(writer)),
{
    let mut document = tantivy::TantivyDocument::new();
    document.add_text(tantivy::schema::Field::from_field_id(url), source);
    document.add_text(tantivy::schema::Field::from_field_id(keywords), tags);
    writer.inner.add_document(document)
}

/// Calls `tantivy::IndexWriter::commit`, closes the writer and hands the
/// index back. Where the commit succeeded (`true`) the index holds the staged
/// documents, each at a place of its own, and nothing else; where it failed,
/// nothing was published and the index holds what it held.
#[verifier::external_body]
pub(crate) fn commit_writer(writer: Writer) -> (out: (tantivy::Index, bool))
    ensures
        out.1 ==> arranged(committed(out.0), staged(writer)),
        !out.1 ==> committed(out.0) == published(writer),
        kinds(out.0) == writer_kinds(writer),
{
    let Writer { mut inner, index } = writer;
    let done = inner.commit().is_ok();
    (index, done)
}

/// Closes the writer without a commit (`Drop for tantivy::IndexWriter`) and
/// hands the index back: what was staged is discarded, and the index holds
/// what it held.
#[verifier::external_body]
pub(crate) fn abandon(writer: Writer) -> (out: tantivy::Index)
    ensures
        committed(out) == published(writer),
        kinds(out) == writer_kinds(writer),
{
    let Writer { inner, index } = writer;
    drop(inner);
    index
}

/// Calls `tantivy::Index::reader` and then `tantivy::IndexReader::searcher`.
/// The searcher holds the documents that the index holds committed at that
/// moment, and its schema is that of the index.
#[verifier::external_body]
pub(crate) fn open_searcher(index: &tantivy::Index) -> (out: Result<tantivy::Searcher, tantivy::TantivyError>)
    ensures
        out matches Ok(searcher) ==> visible(searcher) == committed(*index) && searcher_kinds(
            searcher,
        ) == kinds(*index),
{
    Ok(index.reader()?.searcher())
}

/// Parses the text with `tantivy::query::QueryParser::parse_query`, the two
/// fields being those searched where the text names none, and runs the query
/// with `tantivy::Searcher::search` and a `TopDocs` collector ordered by score.
/// On one searcher the same text gives the same answer. It holds at most
/// `limit` places, each of a document that the searcher holds. The collector
/// panics on a limit of zero, the parser on a field that the schema lacks.
/// The parsed query is a trait object of the engine, which verified code
/// cannot hold, so the two calls stand in one wrapper.
#[verifier::external_body]
pub(crate) fn top_hits(searcher: &tantivy::Searcher, url: u32, keywords: u32, q: &str, limit: usize) -> (out:
    Lookup)
    requires
        0 < limit <= LOOKUP_LIMIT,
        searcher_kinds(*searcher).dom().contains(url),
        searcher_kinds(*searcher).dom().contains(keywords),
    ensures
        match out {
            Lookup::Hits(hits) => ranked(*searcher, url, keywords, q@, limit) == Some(hits@)
                && hits@.len() <= limit && forall|i: int|
                0 <= i < hits@.len() ==> visible(*searcher).dom().contains(#[trigger] hits@[i]),
            Lookup::Rejected => ranked(*searcher, url, keywords, q@, limit) is None,
            Lookup::Failed => true,
        },
{
    let fields = vec![tantivy::schema::Field::from_field_id(url), tantivy::schema::Field::from_field_id(keywords)];
    let parser = tantivy::query::QueryParser::for_index(searcher.index(), fields);
    let query = match parser.parse_query(q) {
        Ok(query) => query,
        Err(_) => return Lookup::Rejected,
    };
    let collector = tantivy::collector::TopDocs::with_limit(limit).order_by_score();
    match searcher.search(&query, &collector) {
        Ok(hits) => Lookup::Hits(hits.into_iter().map(|(_, at)| (at.segment_ord, at.doc_id)).collect()),
        Err(_) => Lookup::Failed,
    }
}

/// Runs a `tantivy::query::TermQuery` for the whole text on a field that is
/// indexed whole, with `tantivy::Searcher::search` and a `TopDocs` collector.
/// On one searcher the same text gives the same answer. The places are those
/// of documents that hold exactly this text under the field (each document
/// holding one text there, as `stage` makes them), and all of them where they
/// are fewer than `limit`. No parser is asked, so the answer is never
/// `Rejected`. The text is not empty and no longer than the engine indexes a
/// text whole; the engine panics on a field that the schema lacks.
#[verifier::external_body]
pub(crate) fn exact_hits(searcher: &tantivy::Searcher, url: u32, source: &str, limit: usize) -> (out: Lookup)
    requires
        0 < limit <= LOOKUP_LIMIT,
        0 < source@.len() <= TERM_LIMIT,
        searcher_kinds(*searcher).dom().contains(url),
        searcher_kinds(*searcher)[url],
    ensures
        match out {
            Lookup::Hits(hits) => matching(*searcher, url, source@, limit) == hits@ && genuine(
                visible(*searcher),
                url,
                source@,
                limit,
                hits@,
            ),
            Lookup::Rejected => false,
            Lookup::Failed => true,
        },
{
    let term = tantivy::Term::from_field_text(tantivy::schema::Field::from_field_id(url), source);
    let query = tantivy::query::TermQuery::new(term, tantivy::schema::IndexRecordOption::Basic);
    let collector = tantivy::collector::TopDocs::with_limit(limit).order_by_score();
    match searcher.search(&query, &collector) {
        Ok(hits) => Lookup::Hits(hits.into_iter().map(|(_, at)| (at.segment_ord, at.doc_id)).collect()),
        Err(_) => Lookup::Failed,
    }
}

/// Calls `tantivy::Searcher::doc` and reads the first text under each of the
/// two fields with `TantivyDocument::get_first`. The engine indexes its
/// segments by the place, so the place is one of the searcher's.
#[verifier::external_body]
pub(crate) fn read(searcher: &tantivy::Searcher, at: Slot, url: u32, keywords: u32) -> (out: Result<
    (Option<String>, Option<String>),
    tantivy::TantivyError,
>)
    requires
        visible(*searcher).dom().contains(at),
    ensures
        out matches Ok(texts) ==> text_view(texts.0) == visible(*searcher)[at].get(url) && text_view(
            texts.1,
        ) == visible(*searcher)[at].get(keywords),
{
    let document: tantivy::TantivyDocument = searcher.doc(tantivy::DocAddress::new(at.0, at.1))?;
    let source = document.get_first(tantivy::schema::Field::from_field_id(url));
    let tags = document.get_first(tantivy::schema::Field::from_field_id(keywords));
    Ok((
        source.and_then(|v| v.as_str()).map(String::from),
        tags.and_then(|v| v.as_str()).map(String::from),
    ))
}

} // verus!
