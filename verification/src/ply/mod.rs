//! Stanford PLY files: the in-memory model of a file and the grammar of its header.

pub mod body;
pub mod error;
pub mod header;
pub mod types;
