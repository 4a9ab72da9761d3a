//! A small verified search front end: a user-supplied query is forwarded to an
//! upstream issue-search API, the JSON reply is decoded against a fixed shape,
//! and the outcome is rendered as an HTML page.
//!
//! The library holds everything with a contract: the response-shape decode, the
//! HTML escaping and page building, the error taxonomy, and the routing
//! decision. The surrounding process (HTTP server, the one outbound call) hands
//! plain values in and takes the rendered page back.

use vstd::prelude::*;

pub mod client;
pub mod github;
pub mod html;
pub mod json;
pub mod num;
pub mod render;
pub mod router;

verus! {

/// Wrapper for a requested asset path; the host turns it into a file response.
pub struct StaticFile<T>(pub T);

} // verus!
