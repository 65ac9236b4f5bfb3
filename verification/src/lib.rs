//! A keyword-searchable catalog of short media records.
//!
//! A record (`nub::Nub`) is a locator with free-form tags. The catalog is kept
//! in a search index in memory (`finder::NubFinder`) that is rebuilt whole
//! from each new list of records and answers text queries with its ten best
//! matches. The last list is kept as a snapshot (`snapshot`), so that the
//! service can answer at once after a restart, and is renewed from a remote
//! feed on a fixed interval (`scheduler`). `dispatch` says what the service
//! answers to each of its commands.
//!
//! The library computes and decides; reading the disk, asking the feed and
//! talking to the chat platform are left to the program around it. The calls
//! into the search engine and into the archive format stand behind the
//! wrappers of `engine` and `snapshot`, whose contracts are believed; all
//! other code is proved against its contract.


pub mod dispatch;
pub mod engine;
pub mod error;
pub mod finder;
pub mod nub;
pub mod reply;
pub mod scheduler;
pub mod snapshot;
