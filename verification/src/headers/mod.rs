//! Header-level definitions: byte order helpers, lists and SMB2 protocol shapes.

pub mod portable_endian;
pub mod slist;
pub mod smb2;
