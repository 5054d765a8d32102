//! The internal record of a client connection: receive state, credit and
//! message accounting, the header being assembled, and the byte vectors of
//! the PDU being read.
use vstd::prelude::*;

verus! {

/// Maximum number of byte vectors in one vector list.
pub const SMB2_MAX_VECTORS: usize = 256;

/// Size of an SMB2 message signature in bytes.
pub const SMB2_SIGNATURE_SIZE: usize = 16;

/// Phase of reading an incoming PDU.
#[derive(Debug, Clone, Copy, PartialEq, Eq)]
pub enum RecvState {
    /// Reading the stream protocol length prefix.
    Spl,
    /// Reading the SMB2 header.
    Header,
    /// Reading the fixed part of the command body.
    Fixed,
    /// Reading the variable part of the command body.
    Variable,
    /// Reading padding up to the next command.
    Pad,
    /// Reading an SMB3 transform header.
    Transform,
}

/// One owned byte vector.
#[derive(Debug, Clone, PartialEq, Eq, Default)]
pub struct IoVec {
    /// The bytes of the vector.
    pub buf: Vec<u8>,
}

/// A list of byte vectors with the count of bytes already processed and the
/// total size of all vectors.
#[derive(Debug, Clone, PartialEq, Eq, Default)]
pub struct IoVectors {
    /// The vectors in order.
    pub vectors: Vec<IoVec>,
    /// Bytes already processed.
    pub done: usize,
    /// Sum of the lengths of all vectors.
    pub total_size: usize,
}

/// The fixed SMB2 header fields.
#[derive(Debug, Clone, PartialEq, Eq)]
pub struct Smb2Header {
    /// Protocol identifier bytes.
    pub protocol_id: [u8; 4],
    /// Header structure size.
    pub struct_size: u16,
    /// Credit charge.
    pub credit_charge: u16,
    /// NT status.
    pub status: u32,
    /// Command code.
    pub command: u16,
    /// Credits requested or granted.
    pub credit_request_response: u16,
    /// Header flags.
    pub flags: u32,
    /// Offset of the next command in a compound chain.
    pub next_command: u32,
    /// Message identifier.
    pub message_id: u64,
    /// Process identifier.
    pub process_id: u32,
    /// Tree identifier.
    pub tree_id: u32,
    /// Asynchronous identifier.
    pub async_id: u64,
    /// Session identifier.
    pub session_id: u64,
    /// Message signature.
    pub signature: [u8; 16],
}

/// The internal connection record.
#[derive(Debug, Clone, PartialEq, Eq)]
pub struct Context {
    /// Phase of reading the incoming PDU.
    pub recv_state: RecvState,
    /// Credits granted by the server.
    pub credits: u16,
    /// Next message identifier.
    pub message_id: u64,
    /// Session identifier.
    pub session_id: u64,
    /// Connected tree identifiers.
    pub tree_ids: Vec<u32>,
    /// Vectors of the PDU being read.
    pub input: IoVectors,
    /// Header of the PDU being read.
    pub header: Smb2Header,
    /// Message identifiers of PDUs waiting to be sent.
    pub outqueue: Vec<u64>,
    /// Message identifiers of PDUs waiting for a reply.
    pub waitqueue: Vec<u64>,
}

} // verus!
