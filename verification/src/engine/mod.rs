//! The client library proper: transports, crypto helpers, URL parsing,
//! DCE/RPC state and the in-memory stores.

pub mod compat;
pub mod dcerpc;
pub mod init;
pub mod context;
pub mod asn1_ber;
pub mod aes128ccm;
pub mod aes_reference;
pub mod aes;
pub mod aes_apple;
pub mod md4;
pub mod hmac;
pub mod hmac_md5;
pub mod arena;
pub mod errors;
pub mod krb5;
pub mod lsa_client;
pub mod srvsvc_client;
pub mod client;
pub mod client_ops;
pub mod vfs;
