//! A community dictionary's record model: identifiers in binary and text form,
//! users, words, comments and votes, the mapping from stored rows to records,
//! the statements that the repository issues, and vote counting.

pub mod comment;
pub mod error;
pub mod ident;
pub mod repo;
pub mod reqs;
pub mod row;
pub mod tally;
pub mod user;
pub mod vote;
pub mod word;
