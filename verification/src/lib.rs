//! Federation-protocol core of a link aggregator: the inbound `Page` object
//! and its compatibility shims, community resolution from addressing fields,
//! moderator-action inference, and idempotent application of post votes.
//!
//! Every function here is verified against a contract stated over the
//! mathematical content of the data it handles. Four calls leave the
//! verified code, each behind a wrapper whose contract is taken on trust:
//! the URL parser of `url`, the date parser of `chrono`, and the prefix test
//! and the equality of `str`.

pub mod error;
pub mod uri;
pub mod text;
pub mod time;
pub mod wire;
pub mod records;
pub mod page;
pub mod parse;
pub mod likes;
pub mod seqs;
pub mod site;
pub mod like;
pub mod community;
pub mod handler;
