//! Decoding of the identification block and the file header of ELF objects.
//!
//! The identification block (the first sixteen bytes) fixes the word-size
//! class and the byte order; both then drive the decoding of the file header
//! through one class-indexed layout table and one generic integer reader.

pub mod error;
pub mod file;
pub mod header;
pub mod ident;
pub mod layout;
pub mod names;
pub mod pager;
pub mod reader;
pub mod report;
pub mod text;
