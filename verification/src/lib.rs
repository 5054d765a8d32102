//! Verified building blocks of an SMB2/SMB3 client library: protocol
//! constants and data shapes, status tables, URL and option parsing, simple
//! cryptographic framing helpers and in-memory transport plumbing.

pub mod headers;
pub mod text;
pub mod engine;
