//! The data that travels through the pipeline.

pub mod error;
pub mod request;
pub mod response;
