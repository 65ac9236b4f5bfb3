//! The ways in which the catalog's operations fail.

use vstd::prelude::*;

verus! {

/// Why an operation of the catalog failed.
#[derive(Clone, Copy, Debug, PartialEq, Eq, Structural)]
pub enum CatalogError {
    /// The remote feed could not be reached.
    Network,
    /// The feed answered with something that is not a list of items.
    Decode,
    /// The snapshot could not be read, written or understood.
    Storage,
    /// The index refused a document or a commit.
    IndexWrite,
    /// The query is empty or malformed, or the lookup did not finish.
    Query,
}

impl CatalogError {
    /// A short description for a log line or a reply.
    pub fn message(&self) -> (out: &'static str)
        ensures
            out@ == self.message_spec(),
    {
        match self {
            CatalogError::Network => "the feed could not be reached",
            CatalogError::Decode => "the feed's answer is not a list of items",
            CatalogError::Storage => "the snapshot could not be read or written",
            CatalogError::IndexWrite => "the index could not be rebuilt",
            CatalogError::Query => "the query could not be understood",
        }
    }

    /// The description that `message` returns.
    pub open spec fn message_spec(self) -> Seq<char> {
        match self {
            CatalogError::Network => "the feed could not be reached"@,
            CatalogError::Decode => "the feed's answer is not a list of items"@,
            CatalogError::Storage => "the snapshot could not be read or written"@,
            CatalogError::IndexWrite => "the index could not be rebuilt"@,
            CatalogError::Query => "the query could not be understood"@,
        }
    }
}

} // verus!
