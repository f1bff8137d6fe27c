//! Byte-level helpers: content classification, accumulation of a streamed
//! body, naming of the output file.

pub mod filetype;
pub mod stream;
pub mod write;
