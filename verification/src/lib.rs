//! Query construction and result shaping for a social-network API gateway.
//!
//! The library renders typed values into the graph store's literal syntax
//! (escaping every untrusted string), builds one parameterized query per
//! logical operation, and defines the shape of the documents a read query
//! projects, including capped relation previews with independent counts and
//! transitively resolved location chains.

pub mod dispatch;
pub mod encode;
pub mod query;
pub mod shape;
