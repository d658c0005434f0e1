//! Release and issue operations against an issue tracker's REST API.
//!
//! The library holds the decisions: how requests are built, how responses are
//! classified, how pages of a collection are walked, how a name is resolved to
//! an id, and how the "release completed issues" workflow proceeds. Sending the
//! requests and decoding JSON is left to the caller, which feeds the results
//! back into the state machines here.

pub mod compositions;
pub mod error;
pub mod issues;
pub mod pagination;
pub mod releases;
pub mod request;
pub mod util;
