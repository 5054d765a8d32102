//! DCE/RPC transport state: PDU headers and bodies, bind negotiation over
//! the NDR32 and NDR64 transfer syntaxes, deferred NDR pointers, data
//! representation flags and alignment.
use std::collections::VecDeque;
use vstd::prelude::*;

verus! {

/// Maximum number of deferred NDR pointers tracked by a PDU.
pub const MAX_DEFERRED_PTR: usize = 1024;

/// Maximum number of bind acknowledgement results retained by a PDU.
pub const MAX_ACK_RESULTS: usize = 4;

/// Default named-pipe transmit buffer size.
pub const NSE_BUF_SIZE: usize = 131072;

/// Data representation bit for little-endian NDR payloads.
pub const DCERPC_DR_LITTLE_ENDIAN: u8 = 0x10;

/// Data representation bit for ASCII character encoding.
pub const DCERPC_DR_ASCII: u8 = 0x00;

/// Pointer marker used by reference pointers.
pub const RPTR: u64 = 0x5270_7472_7274_7052;

/// Pointer marker used by unique pointers.
pub const UPTR: u64 = 0x5570_7472_7274_7055;

/// Bind acknowledgement result: acceptance.
pub const ACK_RESULT_ACCEPTANCE: u16 = 0;

/// Bind acknowledgement result: user rejection.
pub const ACK_RESULT_USER_REJECTION: u16 = 1;

/// Bind acknowledgement result: provider rejection.
pub const ACK_RESULT_PROVIDER_REJECTION: u16 = 2;

/// Bind acknowledgement reason: not specified.
pub const ACK_REASON_REASON_NOT_SPECIFIED: u16 = 0;

/// Bind acknowledgement reason: abstract syntax unsupported.
pub const ACK_REASON_ABSTRACT_SYNTAX_NOT_SUPPORTED: u16 = 1;

/// Bind acknowledgement reason: transfer syntaxes unsupported.
pub const ACK_REASON_PROPOSED_TRANSFER_SYNTAXES_NOT_SUPPORTED: u16 = 2;

/// Bind acknowledgement reason: protocol version unsupported.
pub const ACK_REASON_PROTOCOL_VERSION_NOT_SUPPORTED: u16 = 4;

/// DCE/RPC UUID layout used by presentation syntaxes and context handles.
#[derive(Debug, Clone, Copy, Default, PartialEq, Eq)]
pub struct DceRpcUuid {
    /// First UUID component.
    pub v1: u32,
    /// Second UUID component.
    pub v2: u16,
    /// Third UUID component.
    pub v3: u16,
    /// Final eight UUID bytes.
    pub v4: [u8; 8],
}

/// Presentation syntax identifier.
#[derive(Debug, Clone, Copy, Default, PartialEq, Eq)]
pub struct PSyntaxId {
    /// Syntax UUID.
    pub uuid: DceRpcUuid,
    /// Major syntax version.
    pub vers: u16,
    /// Minor syntax version.
    pub vers_minor: u16,
}

/// The NDR32 transfer syntax UUID.
pub open spec fn ndr32_uuid_spec() -> DceRpcUuid {
    DceRpcUuid { v1: 0x8a88_5d04, v2: 0x1ceb, v3: 0x11c9, v4: [0x9f, 0xe8, 0x08, 0x00, 0x2b, 0x10, 0x48, 0x60] }
}

/// The NDR64 transfer syntax UUID.
pub open spec fn ndr64_uuid_spec() -> DceRpcUuid {
    DceRpcUuid { v1: 0x7171_0533, v2: 0xbeba, v3: 0x4937, v4: [0x83, 0x19, 0xb5, 0xdb, 0xef, 0x9c, 0xcc, 0x36] }
}

/// Returns the NDR32 transfer syntax UUID.
pub fn ndr32_uuid() -> (r: DceRpcUuid)
    ensures
        r == ndr32_uuid_spec(),
{
    DceRpcUuid { v1: 0x8a88_5d04, v2: 0x1ceb, v3: 0x11c9, v4: [0x9f, 0xe8, 0x08, 0x00, 0x2b, 0x10, 0x48, 0x60] }
}

/// Returns the NDR64 transfer syntax UUID.
pub fn ndr64_uuid() -> (r: DceRpcUuid)
    ensures
        r == ndr64_uuid_spec(),
{
    DceRpcUuid { v1: 0x7171_0533, v2: 0xbeba, v3: 0x4937, v4: [0x83, 0x19, 0xb5, 0xdb, 0xef, 0x9c, 0xcc, 0x36] }
}

/// Returns the NDR32 presentation syntax (version 2.0).
pub fn ndr32_syntax() -> (r: PSyntaxId)
    ensures
        r == (PSyntaxId { uuid: ndr32_uuid_spec(), vers: 2, vers_minor: 0 }),
{
    PSyntaxId { uuid: ndr32_uuid(), vers: 2, vers_minor: 0 }
}

/// Returns the NDR64 presentation syntax (version 1.0).
pub fn ndr64_syntax() -> (r: PSyntaxId)
    ensures
        r == (PSyntaxId { uuid: ndr64_uuid_spec(), vers: 1, vers_minor: 0 }),
{
    PSyntaxId { uuid: ndr64_uuid(), vers: 1, vers_minor: 0 }
}

/// DCE/RPC PDU types.
#[derive(Debug, Clone, Copy, PartialEq, Eq)]
pub enum PduType {
    /// Request PDU (0).
    Request,
    /// Ping PDU (1).
    Ping,
    /// Response PDU (2).
    Response,
    /// Fault PDU (3).
    Fault,
    /// Working PDU (4).
    Working,
    /// No-call PDU (5).
    NoCall,
    /// Reject PDU (6).
    Reject,
    /// Acknowledgement PDU (7).
    Ack,
    /// Client cancel PDU (8).
    ClientCancel,
    /// Fragment acknowledgement PDU (9).
    FragmentAck,
    /// Cancel acknowledgement PDU (10).
    CancelAck,
    /// Bind PDU (11).
    Bind,
    /// Bind acknowledgement PDU (12).
    BindAck,
    /// Bind negative acknowledgement PDU (13).
    BindNak,
    /// Alter-context PDU (14).
    AlterContext,
    /// Alter-context response PDU (15).
    AlterContextResponse,
    /// Shutdown PDU (17).
    Shutdown,
    /// Connection-oriented cancel PDU (18).
    ConnectionOrientedCancel,
    /// Orphaned PDU (19).
    Orphaned,
}

/// The wire value of each PDU type.
pub open spec fn pdu_type_value(t: PduType) -> u8 {
    match t {
        PduType::Request => 0,
        PduType::Ping => 1,
        PduType::Response => 2,
        PduType::Fault => 3,
        PduType::Working => 4,
        PduType::NoCall => 5,
        PduType::Reject => 6,
        PduType::Ack => 7,
        PduType::ClientCancel => 8,
        PduType::FragmentAck => 9,
        PduType::CancelAck => 10,
        PduType::Bind => 11,
        PduType::BindAck => 12,
        PduType::BindNak => 13,
        PduType::AlterContext => 14,
        PduType::AlterContextResponse => 15,
        PduType::Shutdown => 17,
        PduType::ConnectionOrientedCancel => 18,
        PduType::Orphaned => 19,
    }
}

impl PduType {
    /// Returns the wire value of the PDU type.
    pub fn value(self) -> (r: u8)
        ensures
            r == pdu_type_value(self),
    {
        match self {
            PduType::Request => 0,
            PduType::Ping => 1,
            PduType::Response => 2,
            PduType::Fault => 3,
            PduType::Working => 4,
            PduType::NoCall => 5,
            PduType::Reject => 6,
            PduType::Ack => 7,
            PduType::ClientCancel => 8,
            PduType::FragmentAck => 9,
            PduType::CancelAck => 10,
            PduType::Bind => 11,
            PduType::BindAck => 12,
            PduType::BindNak => 13,
            PduType::AlterContext => 14,
            PduType::AlterContextResponse => 15,
            PduType::Shutdown => 17,
            PduType::ConnectionOrientedCancel => 18,
            PduType::Orphaned => 19,
        }
    }
}

/// Packet flags of the common PDU header.
#[derive(Debug, Clone, Copy, PartialEq, Eq)]
pub struct PfcFlags(pub u8);

/// First fragment flag.
pub const PFC_FIRST_FRAG: u8 = 0x01;

/// Last fragment flag.
pub const PFC_LAST_FRAG: u8 = 0x02;

/// Pending cancel flag.
pub const PFC_PENDING_CANCEL: u8 = 0x04;

/// Reserved flag bit one.
pub const PFC_RESERVED_1: u8 = 0x08;

/// Concurrent multiplexing flag.
pub const PFC_CONC_MPX: u8 = 0x10;

/// Did-not-execute flag.
pub const PFC_DID_NOT_EXECUTE: u8 = 0x20;

/// Maybe flag.
pub const PFC_MAYBE: u8 = 0x40;

/// Object UUID flag.
pub const PFC_OBJECT_UUID: u8 = 0x80;

impl PfcFlags {
    /// Returns empty flags.
    pub fn empty() -> (r: Self)
        ensures
            r.0 == 0,
    {
        PfcFlags(0)
    }

    /// Returns flags holding both the first-fragment and last-fragment bits.
    pub fn first_and_last() -> (r: Self)
        ensures
            r.0 == 3,
    {
        assert((1u8 | 2u8) == 3u8) by (bit_vector);
        PfcFlags(PFC_FIRST_FRAG | PFC_LAST_FRAG)
    }

    /// Returns the raw bit representation.
    pub fn bits(self) -> (r: u8)
        ensures
            r == self.0,
    {
        self.0
    }

    /// Returns true when all bits from `other` are present.
    pub fn contains(self, other: Self) -> (r: bool)
        ensures
            r == (self.0 & other.0 == other.0),
    {
        (self.0 & other.0) == other.0
    }
}

impl Default for PfcFlags {
    fn default() -> (r: Self)
        ensures
            r.0 == 0,
    {
        PfcFlags::empty()
    }
}

/// Packet coding direction.
#[derive(Debug, Clone, Copy, PartialEq, Eq)]
pub enum Direction {
    /// Decode bytes from the server into owned structures.
    Decode,
    /// Encode owned structures into bytes for the server.
    Encode,
    /// Client to server request.
    Request,
    /// Server to client response.
    Response,
}

/// Transfer syntax selected for variable-width NDR words.
#[derive(Debug, Clone, Copy, Default, PartialEq, Eq)]
pub enum TransferSyntax {
    /// NDR32 transfer syntax.
    #[default]
    Ndr32,
    /// NDR64 transfer syntax.
    Ndr64,
}

impl TransferSyntax {
    /// Returns the presentation context identifier of the syntax.
    pub fn context_id(self) -> (r: u8)
        ensures
            r == (match self {
                TransferSyntax::Ndr32 => 0u8,
                TransferSyntax::Ndr64 => 1u8,
            }),
    {
        match self {
            TransferSyntax::Ndr32 => 0,
            TransferSyntax::Ndr64 => 1,
        }
    }

    /// Returns the pointer-width alignment of the syntax.
    pub fn pointer_alignment(self) -> (r: usize)
        ensures
            r == (match self {
                TransferSyntax::Ndr32 => 4usize,
                TransferSyntax::Ndr64 => 8usize,
            }),
    {
        match self {
            TransferSyntax::Ndr32 => 4,
            TransferSyntax::Ndr64 => 8,
        }
    }
}

/// NDR pointer flavor used by pointer coders.
#[derive(Debug, Clone, Copy, PartialEq, Eq)]
pub enum PtrType {
    /// Reference pointer.
    Ref,
    /// Full pointer.
    Full,
    /// Unique pointer.
    Unique,
}

/// Errors of the DCE/RPC helpers.
#[derive(Debug, Clone, PartialEq, Eq)]
pub enum DceRpcError {
    /// The named operation needs the byte-level protocol, which is not provided.
    ProtocolNotImplemented(&'static str),
    /// The requested buffer access would exceed the backing storage.
    BufferTooSmall { needed: usize, available: usize },
    /// The deferred pointer queue reached its fixed limit.
    TooManyDeferredPointers { max: usize },
    /// The response allocation hint exceeded the safety limit.
    AllocHintOutOfRange { alloc_hint: u32, max: u32 },
}

/// Result type of the DCE/RPC helpers.
pub type DceRpcResult<T> = Result<T, DceRpcError>;

/// NDR context handle payload.
#[derive(Debug, Clone, Copy, Default, PartialEq, Eq)]
pub struct NdrContextHandle {
    /// Context-handle attributes.
    pub context_handle_attributes: u32,
    /// Context-handle UUID.
    pub context_handle_uuid: DceRpcUuid,
}

/// UTF-16 string accounting used by the UTF-16 coders.
#[derive(Debug, Clone, Default, PartialEq, Eq)]
pub struct DceRpcUtf16 {
    /// UTF-8 view used before encoding or after decoding.
    pub utf8: Option<String>,
    /// UTF-16 units used while encoding or decoding.
    pub utf16: Vec<u16>,
    /// Maximum conformant array element count.
    pub max_count: u32,
    /// Conformant-varying array offset.
    pub offset: u32,
    /// Actual conformant-varying array element count.
    pub actual_count: u32,
}

/// Common DCE/RPC PDU header.
#[derive(Debug, Clone, PartialEq, Eq)]
pub struct DceRpcHeader {
    /// RPC major version.
    pub rpc_vers: u8,
    /// RPC minor version.
    pub rpc_vers_minor: u8,
    /// PDU packet type.
    pub ptype: PduType,
    /// PDU flags.
    pub pfc_flags: PfcFlags,
    /// Packed data representation bytes.
    pub packed_drep: [u8; 4],
    /// Fragment length.
    pub frag_length: u16,
    /// Authentication verifier length.
    pub auth_length: u16,
    /// Call identifier.
    pub call_id: u32,
}

/// The header a new PDU starts from: version 5.0, a request, no flags,
/// little-endian data representation, call id `call_id`.
pub open spec fn fresh_header(call_id: u32) -> DceRpcHeader {
    DceRpcHeader {
        rpc_vers: 5,
        rpc_vers_minor: 0,
        ptype: PduType::Request,
        pfc_flags: PfcFlags(0),
        packed_drep: [DCERPC_DR_LITTLE_ENDIAN, 0, 0, 0],
        frag_length: 0,
        auth_length: 0,
        call_id,
    }
}

impl Default for DceRpcHeader {
    fn default() -> (r: Self)
        ensures
            r == fresh_header(0),
    {
        DceRpcHeader {
            rpc_vers: 5,
            rpc_vers_minor: 0,
            ptype: PduType::Request,
            pfc_flags: PfcFlags::empty(),
            packed_drep: [DCERPC_DR_LITTLE_ENDIAN, 0, 0, 0],
            frag_length: 0,
            auth_length: 0,
            call_id: 0,
        }
    }
}

/// Presentation context element of a bind PDU.
#[derive(Debug, Clone, Default, PartialEq, Eq)]
pub struct PContElem {
    /// Presentation context identifier.
    pub p_cont_id: u16,
    /// Number of transfer syntaxes proposed.
    pub n_transfer_syn: u8,
    /// Reserved alignment byte.
    pub reserved: u8,
    /// Abstract syntax for this context.
    pub abstract_syntax: Option<PSyntaxId>,
    /// Transfer syntaxes proposed for this context.
    pub transfer_syntaxes: Vec<PSyntaxId>,
}

/// Bind PDU body.
#[derive(Debug, Clone, PartialEq, Eq)]
pub struct DceRpcBindPdu {
    /// Maximum transmit fragment size.
    pub max_xmit_frag: u16,
    /// Maximum receive fragment size.
    pub max_recv_frag: u16,
    /// Association group identifier.
    pub assoc_group_id: u32,
    /// Presentation context list.
    pub p_cont_elem: Vec<PContElem>,
}

impl Default for DceRpcBindPdu {
    fn default() -> (r: Self)
        ensures
            r.max_xmit_frag == 32768,
            r.max_recv_frag == 32768,
            r.assoc_group_id == 0,
            r.p_cont_elem@.len() == 0,
    {
        DceRpcBindPdu { max_xmit_frag: 32_768, max_recv_frag: 32_768, assoc_group_id: 0, p_cont_elem: Vec::new() }
    }
}

impl DceRpcBindPdu {
    /// Returns the number of presentation contexts, capped at 255.
    pub fn n_context_elem(&self) -> (r: u8)
        ensures
            r == (if self.p_cont_elem@.len() > 255 { 255 } else { self.p_cont_elem@.len() }),
    {
        let len = self.p_cont_elem.len();
        if len > 255 {
            255
        } else {
            len as u8
        }
    }
}

/// Bind acknowledgement result item.
#[derive(Debug, Clone, Copy, Default, PartialEq, Eq)]
pub struct DceRpcBindContextResult {
    /// Acknowledgement result.
    pub ack_result: u16,
    /// Acknowledgement reason.
    pub ack_reason: u16,
    /// Accepted transfer syntax UUID.
    pub uuid: DceRpcUuid,
    /// Accepted transfer syntax version.
    pub syntax_version: u32,
}

/// Bind acknowledgement PDU body.
#[derive(Debug, Clone, PartialEq, Eq)]
pub struct DceRpcBindAckPdu {
    /// Maximum transmit fragment size.
    pub max_xmit_frag: u16,
    /// Maximum receive fragment size.
    pub max_recv_frag: u16,
    /// Association group identifier.
    pub assoc_group_id: u32,
    /// Presentation context results.
    pub results: Vec<DceRpcBindContextResult>,
}

impl Default for DceRpcBindAckPdu {
    fn default() -> (r: Self)
        ensures
            r.max_xmit_frag == 0,
            r.max_recv_frag == 0,
            r.assoc_group_id == 0,
            r.results@.len() == 0,
    {
        DceRpcBindAckPdu {
            max_xmit_frag: 0,
            max_recv_frag: 0,
            assoc_group_id: 0,
            results: Vec::with_capacity(MAX_ACK_RESULTS),
        }
    }
}

/// Request PDU body.
#[derive(Debug, Clone, Copy, Default, PartialEq, Eq)]
pub struct DceRpcRequestPdu {
    /// Allocation hint for stub data.
    pub alloc_hint: u32,
    /// Presentation context identifier.
    pub context_id: u16,
    /// Operation number.
    pub opnum: u16,
}

/// Response PDU body.
#[derive(Debug, Clone, Copy, Default, PartialEq, Eq)]
pub struct DceRpcResponsePdu {
    /// Allocation hint for stub data.
    pub alloc_hint: u32,
    /// Presentation context identifier.
    pub context_id: u16,
    /// Cancel count from the response header body.
    pub cancel_count: u8,
    /// Reserved alignment byte.
    pub reserved: u8,
}

/// PDU body variants.
#[derive(Debug, Clone, PartialEq, Eq)]
pub enum DceRpcPduBody {
    /// Bind PDU body.
    Bind(DceRpcBindPdu),
    /// Bind acknowledgement PDU body.
    BindAck(DceRpcBindAckPdu),
    /// Request PDU body.
    Request(DceRpcRequestPdu),
    /// Response PDU body.
    Response(DceRpcResponsePdu),
}

/// The body a new PDU starts with: an empty request.
pub open spec fn fresh_body() -> DceRpcPduBody {
    DceRpcPduBody::Request(DceRpcRequestPdu { alloc_hint: 0, context_id: 0, opnum: 0 })
}

impl Default for DceRpcPduBody {
    fn default() -> (r: Self)
        ensures
            r == fresh_body(),
    {
        DceRpcPduBody::Request(DceRpcRequestPdu { alloc_hint: 0, context_id: 0, opnum: 0 })
    }
}

/// Deferred pointer entry recorded while walking NDR data.
#[derive(Debug, Clone, PartialEq, Eq)]
pub struct DceRpcDeferredPointer {
    /// Pointer flavor represented by the queued item.
    pub ptr_type: PtrType,
    /// Name of the coder the pointer is deferred to.
    pub coder_name: &'static str,
}

/// DCE/RPC PDU state used by encoders and decoders.
#[derive(Debug, Clone, PartialEq, Eq)]
pub struct DceRpcPdu {
    /// Common PDU header.
    pub hdr: DceRpcHeader,
    /// PDU body selected by `hdr.ptype`.
    pub body: DceRpcPduBody,
    /// Decode or encode direction.
    pub direction: Direction,
    /// Stub payload storage.
    pub payload: Vec<u8>,
    /// Expected decode payload size.
    pub decode_size: usize,
    /// Whether the current coder is handling top-level data.
    pub top_level: bool,
    /// Next pointer identifier for full pointers.
    pub ptr_id: u64,
    /// Deferred pointers queued during NDR pointer traversal, oldest first.
    pub ptrs: VecDeque<DceRpcDeferredPointer>,
    /// Whether the coder is in the conformance pass.
    pub is_conformance_run: bool,
    /// Maximum alignment observed during the conformance pass.
    pub max_alignment: usize,
    /// Last `size_is()` value passed through pointer decoding.
    pub size_is: i32,
}

impl DceRpcPdu {
    /// Creates a PDU for the requested direction with a zeroed payload of
    /// `payload_size` bytes.
    pub fn new(call_id: u32, direction: Direction, payload_size: usize) -> (r: Self)
        ensures
            r.hdr == fresh_header(call_id),
            r.body == fresh_body(),
            r.direction == direction,
            r.payload@ == Seq::new(payload_size as nat, |i: int| 0u8),
            r.decode_size == 0,
            r.top_level,
            r.ptr_id == 0,
            r.ptrs@.len() == 0,
            !r.is_conformance_run,
            r.max_alignment == 1,
            r.size_is == 0,
    {
        let mut hdr = DceRpcHeader::default();
        hdr.call_id = call_id;
        let mut payload: Vec<u8> = Vec::new();
        let mut i: usize = 0;
        while i < payload_size
            invariant
                i <= payload_size,
                payload@ == Seq::new(i as nat, |k: int| 0u8),
            decreases payload_size - i,
        {
            payload.push(0);
            i = i + 1;
            assert(payload@ =~= Seq::new(i as nat, |k: int| 0u8));
        }
        DceRpcPdu {
            hdr,
            body: DceRpcPduBody::default(),
            direction,
            payload,
            decode_size: 0,
            top_level: true,
            ptr_id: 0,
            ptrs: VecDeque::new(),
            is_conformance_run: false,
            max_alignment: 1,
            size_is: 0,
        }
    }

    /// Returns a shared view of the PDU payload buffer.
    pub fn payload(&self) -> (r: &[u8])
        ensures
            r@ == self.payload@,
    {
        self.payload.as_slice()
    }

    /// Returns a mutable view of the PDU payload buffer.
    pub fn payload_mut(&mut self) -> (r: &mut [u8])
        ensures
            r@ == old(self).payload@,
            final(self).payload@ == final(r)@,
            final(self).hdr == old(self).hdr,
            final(self).ptrs == old(self).ptrs,
            final(self).size_is == old(self).size_is,
    {
        self.payload.as_mut_slice()
    }

    /// Returns the current coding direction.
    pub fn direction(&self) -> (r: Direction)
        ensures
            r == self.direction,
    {
        self.direction
    }

    /// Sets or clears the little-endian bit of the data representation.
    pub fn set_endian(&mut self, little_endian: bool)
        ensures
            final(self).hdr.packed_drep[0] == (if little_endian {
                old(self).hdr.packed_drep[0] | DCERPC_DR_LITTLE_ENDIAN
            } else {
                old(self).hdr.packed_drep[0] & !DCERPC_DR_LITTLE_ENDIAN
            }),
            forall|i: int| 1 <= i < 4 ==> final(self).hdr.packed_drep[i] == old(self).hdr.packed_drep[i],
            final(self).hdr.call_id == old(self).hdr.call_id,
            final(self).hdr.ptype == old(self).hdr.ptype,
            final(self).payload@ == old(self).payload@,
            final(self).ptrs@ == old(self).ptrs@,
            final(self).size_is == old(self).size_is,
            final(self).direction == old(self).direction,
    {
        let b = self.hdr.packed_drep[0];
        let nb = if little_endian {
            b | DCERPC_DR_LITTLE_ENDIAN
        } else {
            b & !DCERPC_DR_LITTLE_ENDIAN
        };
        self.hdr.packed_drep[0] = nb;
    }

    /// Returns true when primitive coders use little-endian layout.
    pub fn is_little_endian(&self) -> (r: bool)
        ensures
            r == (self.hdr.packed_drep[0] & DCERPC_DR_LITTLE_ENDIAN != 0),
    {
        (self.hdr.packed_drep[0] & DCERPC_DR_LITTLE_ENDIAN) != 0
    }

    /// Stores the `size_is()` value used by pointer-aware array coders.
    pub fn set_size_is(&mut self, size_is: i32)
        ensures
            *final(self) == (DceRpcPdu { size_is, ..*old(self) }),
    {
        self.size_is = size_is;
    }

    /// Returns the last `size_is()` value.
    pub fn size_is(&self) -> (r: i32)
        ensures
            r == self.size_is,
    {
        self.size_is
    }

    /// Queues a deferred pointer entry, refusing once the queue holds
    /// [`MAX_DEFERRED_PTR`] entries.
    pub fn add_deferred_pointer(&mut self, ptr_type: PtrType, coder_name: &'static str) -> (r: DceRpcResult<()>)
        ensures
            old(self).ptrs@.len() >= MAX_DEFERRED_PTR ==> r == Err::<(), DceRpcError>(
                DceRpcError::TooManyDeferredPointers { max: MAX_DEFERRED_PTR },
            ) && final(self).ptrs@ == old(self).ptrs@,
            old(self).ptrs@.len() < MAX_DEFERRED_PTR ==> r == Ok::<(), DceRpcError>(())
                && final(self).ptrs@ == old(self).ptrs@.push(
                DceRpcDeferredPointer { ptr_type, coder_name },
            ),
            final(self).hdr == old(self).hdr,
            final(self).payload@ == old(self).payload@,
            final(self).size_is == old(self).size_is,
    {
        if self.ptrs.len() >= MAX_DEFERRED_PTR {
            return Err(DceRpcError::TooManyDeferredPointers { max: MAX_DEFERRED_PTR });
        }
        self.ptrs.push_back(DceRpcDeferredPointer { ptr_type, coder_name });
        Ok(())
    }

    /// Removes and returns all deferred pointer entries, oldest first.
    pub fn drain_deferred_pointers(&mut self) -> (r: Vec<DceRpcDeferredPointer>)
        ensures
            r@ == old(self).ptrs@,
            final(self).ptrs@.len() == 0,
            final(self).hdr == old(self).hdr,
            final(self).payload@ == old(self).payload@,
            final(self).size_is == old(self).size_is,
    {
        let mut out: Vec<DceRpcDeferredPointer> = Vec::new();
        let ghost all = self.ptrs@;
        while self.ptrs.len() > 0
            invariant
                out@ + self.ptrs@ == all,
                self.hdr == old(self).hdr,
                self.payload@ == old(self).payload@,
                self.size_is == old(self).size_is,
            decreases self.ptrs@.len(),
        {
            let ghost before = self.ptrs@;
            match self.ptrs.pop_front() {
                Some(p) => {
                    out.push(p);
                    assert(out@ + self.ptrs@ =~= all);
                },
                None => {},
            }
        }
        assert(out@ =~= all);
        out
    }
}

/// NDR transfer syntax preference used when building bind contexts.
#[derive(Debug, Clone, Copy, PartialEq, Eq)]
pub enum NdrPreference {
    /// Offer both NDR32 and NDR64.
    Any,
    /// Offer only NDR32.
    Ndr32,
    /// Offer only NDR64.
    Ndr64,
}

/// DCE/RPC connection state of one named pipe.
#[derive(Debug, Clone, PartialEq, Eq)]
pub struct DceRpcContext {
    /// Named pipe path used for the transport.
    pub path: Option<String>,
    /// Abstract syntax requested during bind.
    pub syntax: Option<PSyntaxId>,
    /// SMB2 file identifier of the opened named pipe.
    pub file_id: [u8; 16],
    /// Selected transfer syntax.
    pub transfer_syntax: TransferSyntax,
    /// Packed data representation bytes.
    pub packed_drep: [u8; 4],
    /// Next call identifier.
    pub call_id: u32,
}

impl Default for DceRpcContext {
    fn default() -> (r: Self)
        ensures
            r.path is None,
            r.syntax is None,
            r.file_id@ == Seq::new(16, |i: int| 0u8),
            r.transfer_syntax == TransferSyntax::Ndr32,
            r.packed_drep == [DCERPC_DR_LITTLE_ENDIAN, 0u8, 0u8, 0u8],
            r.call_id == 1,
    {
        DceRpcContext {
            path: None,
            syntax: None,
            file_id: [0u8; 16],
            transfer_syntax: TransferSyntax::Ndr32,
            packed_drep: [DCERPC_DR_LITTLE_ENDIAN, 0, 0, 0],
            call_id: 1,
        }
    }
}

impl DceRpcContext {
    /// Creates a new DCE/RPC context.
    pub fn new() -> (r: Self)
        ensures
            r.path is None,
            r.syntax is None,
            r.file_id@ == Seq::new(16, |i: int| 0u8),
            r.transfer_syntax == TransferSyntax::Ndr32,
            r.packed_drep == [DCERPC_DR_LITTLE_ENDIAN, 0u8, 0u8, 0u8],
            r.call_id == 1,
    {
        DceRpcContext::default()
    }

    /// Prepares the context for a named-pipe connection: records the path
    /// and syntax, restarts call ids at 2 and selects ASCII little-endian
    /// data representation.
    pub fn connect_context(&mut self, path: &str, syntax: PSyntaxId)
        ensures
            final(self).call_id == 2,
            final(self).path matches Some(p) && p@ == path@,
            final(self).syntax == Some(syntax),
            final(self).packed_drep[0] == DCERPC_DR_ASCII | DCERPC_DR_LITTLE_ENDIAN,
            forall|i: int| 1 <= i < 4 ==> final(self).packed_drep[i] == old(self).packed_drep[i],
            final(self).file_id == old(self).file_id,
            final(self).transfer_syntax == old(self).transfer_syntax,
    {
        self.call_id = 2;
        self.path = Some(path.to_string());
        self.syntax = Some(syntax);
        self.packed_drep[0] = DCERPC_DR_ASCII | DCERPC_DR_LITTLE_ENDIAN;
    }

    /// Allocates a PDU carrying the current call id and advances the call
    /// id, stopping at `u32::MAX`.
    pub fn allocate_pdu(&mut self, direction: Direction, payload_size: usize) -> (r: DceRpcPdu)
        ensures
            r.hdr == fresh_header(old(self).call_id),
            r.body == fresh_body(),
            r.direction == direction,
            r.payload@ == Seq::new(payload_size as nat, |i: int| 0u8),
            r.ptrs@.len() == 0,
            r.size_is == 0,
            final(self).call_id == (if old(self).call_id == u32::MAX { u32::MAX } else { (old(self).call_id + 1) as u32 }),
            final(self).path == old(self).path,
            final(self).syntax == old(self).syntax,
            final(self).transfer_syntax == old(self).transfer_syntax,
            final(self).packed_drep == old(self).packed_drep,
            final(self).file_id == old(self).file_id,
    {
        let pdu = DceRpcPdu::new(self.call_id, direction, payload_size);
        self.call_id = if self.call_id == u32::MAX {
            u32::MAX
        } else {
            self.call_id + 1
        };
        pdu
    }

    /// Builds the bind PDU body: an NDR32 context (id 0) unless only NDR64
    /// is preferred, then an NDR64 context (id 1) unless only NDR32 is.
    pub fn build_bind_pdu(&self, prefer: NdrPreference) -> (r: DceRpcBindPdu)
        ensures
            r.max_xmit_frag == 32768,
            r.max_recv_frag == 32768,
            r.assoc_group_id == 0,
            r.p_cont_elem@.len() == (if prefer == NdrPreference::Any { 2int } else { 1int }),
            prefer != NdrPreference::Ndr64 ==> {
                let e = r.p_cont_elem@[0];
                &&& e.p_cont_id == 0
                &&& e.n_transfer_syn == 1
                &&& e.reserved == 0
                &&& e.abstract_syntax == self.syntax
                &&& e.transfer_syntaxes@ == seq![PSyntaxId { uuid: ndr32_uuid_spec(), vers: 2, vers_minor: 0 }]
            },
            prefer != NdrPreference::Ndr32 ==> {
                let e = r.p_cont_elem@[r.p_cont_elem@.len() - 1];
                &&& e.p_cont_id == 1
                &&& e.n_transfer_syn == 1
                &&& e.reserved == 0
                &&& e.abstract_syntax == self.syntax
                &&& e.transfer_syntaxes@ == seq![PSyntaxId { uuid: ndr64_uuid_spec(), vers: 1, vers_minor: 0 }]
            },
    {
        let mut bind = DceRpcBindPdu::default();
        let syntax = self.syntax;
        let want32 = match prefer {
            NdrPreference::Any | NdrPreference::Ndr32 => true,
            NdrPreference::Ndr64 => false,
        };
        let want64 = match prefer {
            NdrPreference::Any | NdrPreference::Ndr64 => true,
            NdrPreference::Ndr32 => false,
        };
        if want32 {
            let mut ts: Vec<PSyntaxId> = Vec::new();
            ts.push(ndr32_syntax());
            bind.p_cont_elem.push(
                PContElem { p_cont_id: 0, n_transfer_syn: 1, reserved: 0, abstract_syntax: syntax, transfer_syntaxes: ts },
            );
        }
        if want64 {
            let mut ts: Vec<PSyntaxId> = Vec::new();
            ts.push(ndr64_syntax());
            bind.p_cont_elem.push(
                PContElem { p_cont_id: 1, n_transfer_syn: 1, reserved: 0, abstract_syntax: syntax, transfer_syntaxes: ts },
            );
        }
        proof {
            if want32 {
                assert(bind.p_cont_elem@[0].transfer_syntaxes@ =~= seq![PSyntaxId { uuid: ndr32_uuid_spec(), vers: 2, vers_minor: 0 }]);
            }
            if want64 {
                assert(bind.p_cont_elem@[bind.p_cont_elem@.len() - 1].transfer_syntaxes@ =~= seq![PSyntaxId { uuid: ndr64_uuid_spec(), vers: 1, vers_minor: 0 }]);
            }
        }
        bind
    }

    /// Selects the transfer syntax by presentation context id: id 1 selects
    /// NDR64, anything else NDR32.
    pub fn set_tctx(&mut self, tctx: u8)
        ensures
            final(self).transfer_syntax == (if tctx == 1 { TransferSyntax::Ndr64 } else { TransferSyntax::Ndr32 }),
            final(self).call_id == old(self).call_id,
            final(self).path == old(self).path,
            final(self).syntax == old(self).syntax,
            final(self).packed_drep == old(self).packed_drep,
            final(self).file_id == old(self).file_id,
    {
        self.transfer_syntax = if tctx == TransferSyntax::Ndr64.context_id() {
            TransferSyntax::Ndr64
        } else {
            TransferSyntax::Ndr32
        };
    }

    /// Aligns an offset to the pointer width of the selected syntax.
    pub fn align_3264(&self, offset: usize) -> (r: usize)
        requires
            offset + 7 <= usize::MAX,
        ensures
            r == align_spec(offset, match self.transfer_syntax {
                TransferSyntax::Ndr32 => 4usize,
                TransferSyntax::Ndr64 => 8usize,
            }),
    {
        align_offset(offset, self.transfer_syntax.pointer_alignment())
    }

    /// Returns the selected presentation context identifier.
    pub fn tctx_id(&self) -> (r: u8)
        ensures
            r == (match self.transfer_syntax {
                TransferSyntax::Ndr32 => 0u8,
                TransferSyntax::Ndr64 => 1u8,
            }),
    {
        self.transfer_syntax.context_id()
    }

    /// Opening the named pipe needs SMB2 I/O, which is not provided here.
    pub fn open_async(&self) -> (r: DceRpcResult<()>)
        ensures
            r == Err::<(), DceRpcError>(DceRpcError::ProtocolNotImplemented("dcerpc_open_async")),
    {
        Err(DceRpcError::ProtocolNotImplemented("dcerpc_open_async"))
    }

    /// Binding needs SMB2 I/O, which is not provided here.
    pub fn bind_async(&self) -> (r: DceRpcResult<()>)
        ensures
            r == Err::<(), DceRpcError>(DceRpcError::ProtocolNotImplemented("dcerpc_bind_async")),
    {
        Err(DceRpcError::ProtocolNotImplemented("dcerpc_bind_async"))
    }

    /// Calling needs SMB2 I/O, which is not provided here.
    pub fn call_async(&self, _opnum: u16) -> (r: DceRpcResult<()>)
        ensures
            r == Err::<(), DceRpcError>(DceRpcError::ProtocolNotImplemented("dcerpc_call_async")),
    {
        Err(DceRpcError::ProtocolNotImplemented("dcerpc_call_async"))
    }
}

/// The bit-mask alignment of `offset` to `alignment`.
pub open spec fn align_spec(offset: usize, alignment: usize) -> usize {
    if alignment <= 1 {
        offset
    } else {
        ((offset + (alignment - 1)) as usize) & !((alignment - 1) as usize)
    }
}

/// Aligns `offset` to `alignment` with the bit-mask pattern.
pub fn align_offset(offset: usize, alignment: usize) -> (r: usize)
    requires
        alignment <= 1 || offset + (alignment - 1) <= usize::MAX,
    ensures
        r == align_spec(offset, alignment),
{
    if alignment <= 1 {
        offset
    } else {
        (offset + (alignment - 1)) & !(alignment - 1)
    }
}

/// For a power-of-two alignment the bit-mask alignment is the least
/// multiple of the alignment that is not below the offset.
pub proof fn lemma_align_power_of_two(offset: usize, alignment: usize)
    requires
        alignment > 1,
        alignment & ((alignment - 1) as usize) == 0,
        offset + (alignment - 1) <= usize::MAX,
    ensures
        align_spec(offset, alignment) & ((alignment - 1) as usize) == 0,
        offset <= align_spec(offset, alignment),
        align_spec(offset, alignment) < offset + alignment,
{
    let m = (alignment - 1) as usize;
    let s = (offset + m) as usize;
    assert(s & !m & m == 0) by (bit_vector);
    assert(s & !m <= s) by (bit_vector);
    assert(s - (s & !m) == s & m) by (bit_vector);
    assert(s & m <= m) by (bit_vector);
    assert(alignment & m == 0 && m == alignment - 1 && alignment > 1 && offset + m == s ==> offset <= (s & !m)) by (bit_vector);
}

/// The byte-level NDR coder of an unsigned 8-bit integer is not provided.
pub fn dcerpc_uint8_coder() -> (r: DceRpcResult<()>)
    ensures
        r == Err::<(), DceRpcError>(DceRpcError::ProtocolNotImplemented("dcerpc_uint8_coder")),
{
    Err(DceRpcError::ProtocolNotImplemented("dcerpc_uint8_coder"))
}

/// The byte-level NDR coder of an unsigned 16-bit integer is not provided.
pub fn dcerpc_uint16_coder() -> (r: DceRpcResult<()>)
    ensures
        r == Err::<(), DceRpcError>(DceRpcError::ProtocolNotImplemented("dcerpc_uint16_coder")),
{
    Err(DceRpcError::ProtocolNotImplemented("dcerpc_uint16_coder"))
}

/// The byte-level NDR coder of an unsigned 32-bit integer is not provided.
pub fn dcerpc_uint32_coder() -> (r: DceRpcResult<()>)
    ensures
        r == Err::<(), DceRpcError>(DceRpcError::ProtocolNotImplemented("dcerpc_uint32_coder")),
{
    Err(DceRpcError::ProtocolNotImplemented("dcerpc_uint32_coder"))
}

/// The byte-level NDR coder of an unsigned 64-bit integer is not provided.
pub fn dcerpc_uint64_coder() -> (r: DceRpcResult<()>)
    ensures
        r == Err::<(), DceRpcError>(DceRpcError::ProtocolNotImplemented("dcerpc_uint64_coder")),
{
    Err(DceRpcError::ProtocolNotImplemented("dcerpc_uint64_coder"))
}

/// The byte-level NDR coder of a pointer-width integer is not provided.
pub fn dcerpc_uint3264_coder() -> (r: DceRpcResult<()>)
    ensures
        r == Err::<(), DceRpcError>(DceRpcError::ProtocolNotImplemented("dcerpc_uint3264_coder")),
{
    Err(DceRpcError::ProtocolNotImplemented("dcerpc_uint3264_coder"))
}

/// The byte-level NDR conformance coder is not provided.
pub fn dcerpc_conformance_coder() -> (r: DceRpcResult<()>)
    ensures
        r == Err::<(), DceRpcError>(DceRpcError::ProtocolNotImplemented("dcerpc_conformance_coder")),
{
    Err(DceRpcError::ProtocolNotImplemented("dcerpc_conformance_coder"))
}

/// The byte-level NDR pointer coder is not provided.
pub fn dcerpc_ptr_coder(_ptr_type: PtrType) -> (r: DceRpcResult<()>)
    ensures
        r == Err::<(), DceRpcError>(DceRpcError::ProtocolNotImplemented("dcerpc_ptr_coder")),
{
    Err(DceRpcError::ProtocolNotImplemented("dcerpc_ptr_coder"))
}

/// The byte-level NDR conformant-array coder is not provided.
pub fn dcerpc_carray_coder() -> (r: DceRpcResult<()>)
    ensures
        r == Err::<(), DceRpcError>(DceRpcError::ProtocolNotImplemented("dcerpc_carray_coder")),
{
    Err(DceRpcError::ProtocolNotImplemented("dcerpc_carray_coder"))
}

/// The byte-level NDR UTF-16 string coder is not provided.
pub fn dcerpc_utf16_coder() -> (r: DceRpcResult<()>)
    ensures
        r == Err::<(), DceRpcError>(DceRpcError::ProtocolNotImplemented("dcerpc_utf16_coder")),
{
    Err(DceRpcError::ProtocolNotImplemented("dcerpc_utf16_coder"))
}

/// The byte-level NDR zero-terminated UTF-16 string coder is not provided.
pub fn dcerpc_utf16z_coder() -> (r: DceRpcResult<()>)
    ensures
        r == Err::<(), DceRpcError>(DceRpcError::ProtocolNotImplemented("dcerpc_utf16z_coder")),
{
    Err(DceRpcError::ProtocolNotImplemented("dcerpc_utf16z_coder"))
}

/// The byte-level PDU header coder is not provided.
pub fn dcerpc_header_coder() -> (r: DceRpcResult<()>)
    ensures
        r == Err::<(), DceRpcError>(DceRpcError::ProtocolNotImplemented("dcerpc_header_coder")),
{
    Err(DceRpcError::ProtocolNotImplemented("dcerpc_header_coder"))
}

/// The byte-level UUID coder is not provided.
pub fn dcerpc_uuid_coder() -> (r: DceRpcResult<()>)
    ensures
        r == Err::<(), DceRpcError>(DceRpcError::ProtocolNotImplemented("dcerpc_uuid_coder")),
{
    Err(DceRpcError::ProtocolNotImplemented("dcerpc_uuid_coder"))
}

/// The byte-level context-handle coder is not provided.
pub fn dcerpc_context_handle_coder() -> (r: DceRpcResult<()>)
    ensures
        r == Err::<(), DceRpcError>(DceRpcError::ProtocolNotImplemented("dcerpc_context_handle_coder")),
{
    Err(DceRpcError::ProtocolNotImplemented("dcerpc_context_handle_coder"))
}

} // verus!
