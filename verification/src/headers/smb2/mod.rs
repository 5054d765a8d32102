//! SMB2 protocol headers: public client API shapes, raw command shapes,
//! DCE/RPC interfaces and status codes.

pub mod libsmb2;
pub mod lsa;
pub mod libsmb2_raw;
pub mod protocol;
pub mod smb2_errors;
pub mod srvsvc;
pub mod dcerpc;
