//! The catalog as bytes: what is written to the snapshot file and read back.
//!
//! The bytes are an rkyv archive of the records as pairs of a source and its
//! tags. The two wrappers are believed; the conversions around them are proved.

use crate::error::CatalogError;
use crate::nub::{records, texts, Nub, NubView};
use vstd::prelude::*;

verus! {

/// A record as it is archived: the source and the tags.
pub type Pair = (String, Vec<String>);

#[verifier::external_type_specification]
#[verifier::external_body]
pub struct ExArchiveError(rkyv::rancor::Error);

/// What `rkyv::from_bytes` reads from the bytes as a list of pairs, or nothing
/// where it refuses them.
pub uninterp spec fn unarchived(bytes: Seq<u8>) -> Option<Seq<(Seq<char>, Seq<Seq<char>>)>>;

/// The bytes that `rkyv::to_bytes` makes of a list of pairs, or nothing where
/// it gives none.
pub uninterp spec fn archived(pairs: Seq<(Seq<char>, Seq<Seq<char>>)>) -> Option<Seq<u8>>;

/// The pairs of texts that a list of pairs stands for.
pub open spec fn pair_views(pairs: Seq<Pair>) -> Seq<(Seq<char>, Seq<Seq<char>>)> {
    Seq::new(pairs.len(), |i: int| (pairs[i].0@, texts(pairs[i].1@)))
}

/// The records that a list of pairs of texts stands for.
pub open spec fn records_of(pairs: Seq<(Seq<char>, Seq<Seq<char>>)>) -> Seq<NubView> {
    Seq::new(pairs.len(), |i: int| NubView { source: pairs[i].0, tags: pairs[i].1 })
}

/// The pairs of texts that are archived for a catalog.
pub open spec fn pairs_of(nubs: Seq<NubView>) -> Seq<(Seq<char>, Seq<Seq<char>>)> {
    Seq::new(nubs.len(), |i: int| (nubs[i].source, nubs[i].tags))
}

/// The bytes of the snapshot of a catalog, or nothing where none can be made.
pub open spec fn snapshot_bytes(nubs: Seq<NubView>) -> Option<Seq<u8>> {
    archived(pairs_of(nubs))
}

/// What saving a catalog gives.
pub open spec fn save_result(nubs: Seq<NubView>) -> Result<Seq<u8>, CatalogError> {
    match snapshot_bytes(nubs) {
        Some(bytes) => Ok(bytes),
        None => Err(CatalogError::Storage),
    }
}

/// The bytes that the outcome of saving stands for.
pub open spec fn saved_view(out: Result<Vec<u8>, CatalogError>) -> Result<Seq<u8>, CatalogError> {
    match out {
        Ok(bytes) => Ok(bytes@),
        Err(e) => Err(e),
    }
}

/// The catalog that the bytes of a snapshot hold, or nothing where they are
/// no snapshot.
pub open spec fn snapshot_of(bytes: Seq<u8>) -> Option<Seq<NubView>> {
    match unarchived(bytes) {
        Some(pairs) => Some(records_of(pairs)),
        None => None,
    }
}

/// What loading the bytes gives.
pub open spec fn load_result(bytes: Seq<u8>) -> Result<Seq<NubView>, CatalogError> {
    match snapshot_of(bytes) {
        Some(nubs) => Ok(nubs),
        None => Err(CatalogError::Storage),
    }
}

/// Calls `rkyv::to_bytes`, whose outcome depends on the pairs alone. Where it
/// succeeds, `rkyv::from_bytes` reads the same pairs back from the bytes, as
/// the archive format promises.
#[verifier::external_body]
fn archive(pairs: &Vec<Pair>) -> (out: Result<Vec<u8>, rkyv::rancor::Error>)
    ensures
        match out {
            Ok(bytes) => archived(pair_views(pairs@)) == Some(bytes@) && unarchived(bytes@) == Some(
                pair_views(pairs@),
            ),
            Err(_) => archived(pair_views(pairs@)) is None,
        },
{
    Ok(rkyv::to_bytes::<rkyv::rancor::Error>(pairs)?.into_vec())
}

/// Calls `rkyv::from_bytes` on a copy of the bytes that is aligned as the
/// archive format asks, so that the outcome depends on the bytes alone.
#[verifier::external_body]
fn unarchive(bytes: &[u8]) -> (out: Result<Vec<Pair>, rkyv::rancor::Error>)
    ensures
        match out {
            Ok(pairs) => unarchived(bytes@) == Some(pair_views(pairs@)),
            Err(_) => unarchived(bytes@) is None,
        },
{
    let mut aligned = rkyv::util::AlignedVec::<16>::with_capacity(bytes.len());
    aligned.extend_from_slice(bytes);
    rkyv::from_bytes::<Vec<Pair>, rkyv::rancor::Error>(&aligned)
}

/// A copy of a list of texts.
fn copy_texts(list: &Vec<String>) -> (out: Vec<String>)
    ensures
        texts(out@) == texts(list@),
{
    let mut out: Vec<String> = Vec::new();
    let mut i: usize = 0;
    while i < list.len()
        invariant
            i <= list.len(),
            out@.len() == i,
            forall|k: int| 0 <= k < i ==> (#[trigger] out@[k])@ == list@[k]@,
        decreases list.len() - i,
    {
        out.push(list[i].clone());
        i += 1;
    }
    proof {
        assert(texts(out@) =~= texts(list@));
    }
    out
}

/// The bytes of a snapshot of the catalog: exactly those that the archive
/// format makes of its records, or a refusal where it makes none. Loading
/// the bytes gives the same records in the same order.
pub fn save_nubs(nubs: &Vec<Nub>) -> (out: Result<Vec<u8>, CatalogError>)
    ensures
        saved_view(out) == save_result(records(nubs@)),
        out matches Ok(bytes) ==> snapshot_of(bytes@) == Some(records(nubs@)),
{
    let mut pairs: Vec<Pair> = Vec::new();
    let mut i: usize = 0;
    while i < nubs.len()
        invariant
            i <= nubs.len(),
            pairs@.len() == i,
            forall|k: int|
                0 <= k < i ==> (#[trigger] pairs@[k]).0@ == nubs@[k].source@ && texts(pairs@[k].1@)
                    == texts(nubs@[k].tags@),
        decreases nubs.len() - i,
    {
        let tags = copy_texts(&nubs[i].tags);
        pairs.push((nubs[i].source.clone(), tags));
        i += 1;
    }
    proof {
        assert(pair_views(pairs@) =~= pairs_of(records(nubs@)));
        assert(records_of(pair_views(pairs@)) =~= records(nubs@));
    }
    match archive(&pairs) {
        Ok(bytes) => Ok(bytes),
        Err(_) => Err(CatalogError::Storage),
    }
}

/// The catalog that the bytes of a snapshot hold. Bytes that are no snapshot
/// are refused.
pub fn load_nubs(bytes: &[u8]) -> (out: Result<Vec<Nub>, CatalogError>)
    ensures
        match out {
            Ok(nubs) => load_result(bytes@) == Ok::<Seq<NubView>, CatalogError>(records(nubs@)),
            Err(e) => load_result(bytes@) == Err::<Seq<NubView>, CatalogError>(e),
        },
{
    let pairs = match unarchive(bytes) {
        Ok(pairs) => pairs,
        Err(_) => {
            return Err(CatalogError::Storage);
        },
    };
    let mut nubs: Vec<Nub> = Vec::new();
    let mut i: usize = 0;
    while i < pairs.len()
        invariant
            i <= pairs.len(),
            nubs@.len() == i,
            forall|k: int|
                0 <= k < i ==> (#[trigger] nubs@[k]).source@ == pairs@[k].0@ && texts(nubs@[k].tags@)
                    == texts(pairs@[k].1@),
        decreases pairs.len() - i,
    {
        let tags = copy_texts(&pairs[i].1);
        nubs.push(Nub { source: pairs[i].0.clone(), tags });
        i += 1;
    }
    proof {
        assert(records_of(pair_views(pairs@)) =~= records(nubs@));
    }
    Ok(nubs)
}

/// Loading what was saved gives back the catalog that was saved: the same
/// records in the same order, and never a failure.
pub proof fn lemma_load_after_save(saved: Seq<NubView>, bytes: Seq<u8>)
    requires
        snapshot_of(bytes) == Some(saved),
    ensures
        load_result(bytes) == Ok::<Seq<NubView>, CatalogError>(saved),
{
}

} // verus!
