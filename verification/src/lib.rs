//! Client-side pipeline for a media-download resolver: decoding the resolver's
//! replies, choosing the endpoint to fetch, accumulating the streamed bytes,
//! classifying them by their leading bytes and naming the file they go to.
//!
//! Every function carries a contract, and Verus proves it. The exceptions are
//! the few items that say what is taken on trust of `serde_json`, of `url` and
//! of one function of the standard library; they stand in `json`, `address`
//! and `text`. Network and disk access are left to the caller, which feeds
//! the pipeline with events.

pub mod address;
pub mod client;
pub mod decode;
pub mod json;
pub mod model;
pub mod pipeline;
pub mod text;
pub mod util;
