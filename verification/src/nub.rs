//! The catalog's record and the text under which the index files it.

use vstd::prelude::*;
use vstd::string::*;

verus! {

/// One catalog record: a locator and the keywords that describe it.
#[derive(Clone, Debug)]
pub struct Nub {
    pub source: String,
    pub tags: Vec<String>,
}

/// What a `Nub` stands for.
pub ghost struct NubView {
    pub source: Seq<char>,
    pub tags: Seq<Seq<char>>,
}

/// A document's two stored texts: the source and the joined tags.
pub type Row = (Seq<char>, Seq<char>);

/// The texts that a list of strings stands for.
pub open spec fn texts(list: Seq<String>) -> Seq<Seq<char>> {
    Seq::new(list.len(), |i: int| list[i]@)
}

impl View for Nub {
    type V = NubView;

    open spec fn view(&self) -> NubView {
        NubView { source: self.source@, tags: texts(self.tags@) }
    }
}

/// The records that a list of `Nub`s stands for, in order.
pub open spec fn records(nubs: Seq<Nub>) -> Seq<NubView> {
    Seq::new(nubs.len(), |i: int| nubs[i]@)
}

/// What stands between two tags in a document.
pub open spec fn separator() -> Seq<char> {
    seq![',', ' ']
}

/// The tags in order, with the separator between each two.
pub open spec fn joined(tags: Seq<Seq<char>>) -> Seq<char>
    decreases tags.len(),
{
    if tags.len() == 0 {
        Seq::empty()
    } else if tags.len() == 1 {
        tags[0]
    } else {
        joined(tags.drop_last()) + separator() + tags.last()
    }
}

/// The row under which the index files a record: its source as it is, and
/// its tags joined.
pub open spec fn row_of(nub: NubView) -> Row {
    (nub.source, joined(nub.tags))
}

/// The rows of a whole catalog.
pub open spec fn catalog_rows(nubs: Seq<NubView>) -> Set<Row> {
    Set::new(|row: Row| exists|i: int| 0 <= i < nubs.len() && row == row_of(#[trigger] nubs[i]))
}

/// Joins the tags with a comma and a space.
pub fn join_tags(tags: &Vec<String>) -> (out: String)
    ensures
        out@ == joined(texts(tags@)),
{
    let mut out = String::new();
    let mut i: usize = 0;
    while i < tags.len()
        invariant
            i <= tags.len(),
            out@ == joined(texts(tags@).take(i as int)),
        decreases tags.len() - i,
    {
        proof {
            reveal_strlit(", ");
            let before = texts(tags@).take(i as int);
            let after = texts(tags@).take(i as int + 1);
            assert(after.drop_last() =~= before);
            assert(after.last() == tags@[i as int]@);
            assert(", "@ =~= separator());
            assert(before.len() == 0 ==> joined(before) =~= Seq::<char>::empty());
        }
        if i > 0 {
            out.append(", ");
        }
        out.append(tags[i].as_str());
        i += 1;
        proof {
            let after = texts(tags@).take(i as int);
            assert(after.len() == 1 ==> after[0] == after.last());
            assert(out@ =~= joined(after));
        }
    }
    proof {
        assert(texts(tags@).take(tags@.len() as int) =~= texts(tags@));
    }
    out
}

} // verus!
