//! The DCE/RPC interface of the client: data representation flags, NDR
//! value shapes, the DCE/RPC context bound to an SMB2 client, PDUs and the
//! coder entry points.

use vstd::prelude::*;

use super::libsmb2::{ErrorCode, Result, EINVAL};
use super::srvsvc::ERROR_FUNCTION_NOT_IMPLEMENTED;
use crate::engine::client::{opt_str_view, opt_string_view, Smb2Client};
use crate::engine::context::IoVec;

verus! {

/// DCE/RPC data-representation flag for big-endian integer encoding.
pub const DCERPC_DR_BIG_ENDIAN: u8 = 0x00;

/// DCE/RPC data-representation flag for little-endian integer encoding.
pub const DCERPC_DR_LITTLE_ENDIAN: u8 = 0x10;

/// DCE/RPC data-representation flag for ASCII character encoding.
pub const DCERPC_DR_ASCII: u8 = 0x00;

/// DCE/RPC data-representation flag for EBCDIC character encoding.
pub const DCERPC_DR_EBCDIC: u8 = 0x01;

/// Direction value used when decoding a PDU.
pub const DCERPC_DECODE: i32 = 0;

/// Direction value used when encoding a PDU.
pub const DCERPC_ENCODE: i32 = 1;

/// The byte vector that DCE/RPC coders read from and write to.
pub type Smb2Iovec = IoVec;

/// Payload passed to DCE/RPC coder functions.
#[derive(Debug, Clone, PartialEq, Eq, Default)]
pub struct DceRpcPayload {
    /// Raw payload bytes.
    pub bytes: Vec<u8>,
}

/// NDR pointer flavor selected by `dcerpc_ptr_coder`.
#[derive(Debug, Clone, Copy, PartialEq, Eq)]
pub enum PtrType {
    /// Reference pointer (`PTR_REF`).
    Ref,
    /// Unique pointer (`PTR_UNIQUE`).
    Unique,
    /// Full pointer (`PTR_FULL`).
    Full,
}

impl PtrType {
    /// The wire number of the pointer flavor.
    pub fn value(self) -> (r: u8)
        ensures
            r == (match self {
                PtrType::Ref => 0u8,
                PtrType::Unique => 1u8,
                PtrType::Full => 2u8,
            }),
    {
        match self {
            PtrType::Ref => 0,
            PtrType::Unique => 1,
            PtrType::Full => 2,
        }
    }
}

/// DCE/RPC UUID layout used by presentation syntaxes and context handles.
#[derive(Debug, Clone, Copy, PartialEq, Eq, Default)]
pub struct DceRpcUuid {
    /// First UUID component.
    pub v1: u32,
    /// Second UUID component.
    pub v2: u16,
    /// Third UUID component.
    pub v3: u16,
    /// Final eight UUID bytes.
    pub v4: [u8; 8],
}

/// Presentation syntax identifier (`p_syntax_id_t`).
#[derive(Debug, Clone, Copy, PartialEq, Eq, Default)]
pub struct PSyntaxId {
    /// Interface or transfer-syntax UUID.
    pub uuid: DceRpcUuid,
    /// Major syntax version.
    pub vers: u16,
    /// Minor syntax version.
    pub vers_minor: u16,
}

/// NDR transfer syntax descriptor.
#[derive(Debug, Clone, Copy, PartialEq, Eq, Default)]
pub struct NdrTransferSyntax {
    /// Transfer-syntax UUID.
    pub uuid: DceRpcUuid,
    /// Transfer-syntax version.
    pub vers: u16,
}

/// Opaque NDR context handle returned by remote DCE/RPC services.
#[derive(Debug, Clone, Copy, PartialEq, Eq, Default)]
pub struct NdrContextHandle {
    /// Context-handle attributes.
    pub context_handle_attributes: u32,
    /// Context-handle UUID.
    pub context_handle_uuid: DceRpcUuid,
}

/// UTF-16 string accounting used by DCE/RPC string coders.
#[derive(Debug, Clone, PartialEq, Eq, Default)]
pub struct DceRpcUtf16 {
    /// Maximum conformant array element count.
    pub max_count: u32,
    /// Conformant-varying array offset.
    pub offset: u32,
    /// Actual conformant-varying array element count.
    pub actual_count: u32,
    /// UTF-16 code units.
    pub utf16: Vec<u16>,
    /// UTF-8 form supplied by or returned to callers.
    pub utf8: Option<String>,
}

/// Counted byte array used by conformant-array helpers.
#[derive(Debug, Clone, PartialEq, Eq, Default)]
pub struct DceRpcCarray {
    /// Maximum number of bytes represented by `data`.
    pub max_count: u32,
    /// Raw array bytes.
    pub data: Vec<u8>,
}

/// The presentation syntax of the LSA interface.
pub open spec fn spec_lsa_interface() -> PSyntaxId {
    PSyntaxId {
        uuid: DceRpcUuid {
            v1: 0x1234_5778,
            v2: 0x1234,
            v3: 0xabcd,
            v4: [0xef, 0x00, 0x01, 0x23, 0x45, 0x67, 0xcf, 0xfb],
        },
        vers: 0,
        vers_minor: 0,
    }
}

/// The presentation syntax of the SRVSVC interface.
pub open spec fn spec_srvsvc_interface() -> PSyntaxId {
    PSyntaxId {
        uuid: DceRpcUuid {
            v1: 0x4b32_4fc8,
            v2: 0x1670,
            v3: 0x01d3,
            v4: [0x12, 0x78, 0x5a, 0x47, 0xbf, 0x6e, 0xe1, 0x88],
        },
        vers: 3,
        vers_minor: 0,
    }
}

/// The presentation syntax of the LSA interface.
pub fn lsa_interface() -> (r: PSyntaxId)
    ensures
        r == spec_lsa_interface(),
{
    PSyntaxId {
        uuid: DceRpcUuid {
            v1: 0x1234_5778,
            v2: 0x1234,
            v3: 0xabcd,
            v4: [0xef, 0x00, 0x01, 0x23, 0x45, 0x67, 0xcf, 0xfb],
        },
        vers: 0,
        vers_minor: 0,
    }
}

/// The presentation syntax of the SRVSVC interface.
pub fn srvsvc_interface() -> (r: PSyntaxId)
    ensures
        r == spec_srvsvc_interface(),
{
    PSyntaxId {
        uuid: DceRpcUuid {
            v1: 0x4b32_4fc8,
            v2: 0x1670,
            v3: 0x01d3,
            v4: [0x12, 0x78, 0x5a, 0x47, 0xbf, 0x6e, 0xe1, 0x88],
        },
        vers: 3,
        vers_minor: 0,
    }
}

/// Data passed to DCE/RPC completion callbacks.
#[derive(Debug, Clone, PartialEq, Eq, Default)]
pub struct DceRpcCommandData {
    /// Raw command payload.
    pub payload: DceRpcPayload,
}

/// A DCE/RPC PDU: its direction, payload and the current `size_is`.
#[derive(Debug, Clone, PartialEq, Eq)]
pub struct DceRpcPdu {
    /// Encode or decode direction associated with this PDU.
    pub direction: i32,
    /// Payload buffer reserved for command data.
    pub payload: DceRpcPayload,
    /// Current `size_is` value used by conformant-array coders.
    pub size_is: i32,
}

impl Default for DceRpcPdu {
    fn default() -> (r: Self)
        ensures
            r.direction == DCERPC_DECODE,
            r.payload.bytes@.len() == 0,
            r.size_is == 0,
    {
        Self { direction: DCERPC_DECODE, payload: DceRpcPayload { bytes: Vec::new() }, size_is: 0 }
    }
}

/// A DCE/RPC context: the SMB2 client it runs over, the last error, and
/// the pipe path and presentation syntax it was connected with.
#[derive(Debug, Default)]
pub struct DceRpcContext {
    smb2: Option<Smb2Client>,
    error: Option<String>,
    path: Option<String>,
    syntax: Option<PSyntaxId>,
}

impl DceRpcContext {
    /// The SMB2 client owned by the context.
    pub closed spec fn spec_smb2(&self) -> Option<Smb2Client> {
        self.smb2
    }

    /// The last error of the context.
    pub closed spec fn spec_error(&self) -> Option<Seq<char>> {
        opt_string_view(self.error)
    }

    /// The named-pipe path of the context.
    pub closed spec fn spec_path(&self) -> Option<Seq<char>> {
        opt_string_view(self.path)
    }

    /// The presentation syntax of the context.
    pub closed spec fn spec_syntax(&self) -> Option<PSyntaxId> {
        self.syntax
    }

    /// Creates a context with no client, error, path or syntax.
    #[must_use]
    pub fn new() -> (r: Self)
        ensures
            r.spec_smb2() is None,
            r.spec_error() is None,
            r.spec_path() is None,
            r.spec_syntax() is None,
    {
        Self { smb2: None, error: None, path: None, syntax: None }
    }

    /// Returns the named-pipe path selected for this context, if any.
    #[must_use]
    pub fn path(&self) -> (r: Option<&str>)
        ensures
            opt_str_view(r) == self.spec_path(),
    {
        match &self.path {
            Some(p) => Some(p.as_str()),
            None => None,
        }
    }

    /// Returns the presentation syntax selected for this context, if any.
    #[must_use]
    pub fn syntax(&self) -> (r: Option<PSyntaxId>)
        ensures
            r == self.spec_syntax(),
    {
        self.syntax
    }
}

/// Creates a DCE/RPC context that owns an SMB2 client.
#[must_use]
pub fn dcerpc_create_context(smb2: Smb2Client) -> (r: DceRpcContext)
    ensures
        r.spec_smb2() == Some(smb2),
        r.spec_error() is None,
        r.spec_path() is None,
        r.spec_syntax() is None,
{
    DceRpcContext { smb2: Some(smb2), error: None, path: None, syntax: None }
}

/// Releases DCE/RPC command data; the context is left as it was.
pub fn dcerpc_free_data(_dce: &mut DceRpcContext, _data: DceRpcCommandData)
    ensures
        *final(_dce) == *old(_dce),
{
}

/// Returns the last DCE/RPC error string, if any.
#[must_use]
pub fn dcerpc_get_error(dce: &DceRpcContext) -> (r: Option<&str>)
    ensures
        opt_str_view(r) == dce.spec_error(),
{
    match &dce.error {
        Some(e) => Some(e.as_str()),
        None => None,
    }
}

/// Records the pipe path and presentation syntax of a connection. No
/// transport binding is available, so the connection itself is reported
/// as `ErrorCode(-38)` and the callback is never invoked.
pub fn dcerpc_connect_context_async<F: FnOnce(&mut DceRpcContext, Result<DceRpcCommandData>)>(
    dce: &mut DceRpcContext,
    path: &str,
    syntax: PSyntaxId,
    _callback: F,
) -> (r: Result<()>)
    ensures
        r == Err::<(), ErrorCode>(ErrorCode(ERROR_FUNCTION_NOT_IMPLEMENTED)),
        final(dce).spec_path() == Some(path@),
        final(dce).spec_syntax() == Some(syntax),
        final(dce).spec_smb2() == old(dce).spec_smb2(),
        final(dce).spec_error() == old(dce).spec_error(),
{
    dce.path = Some(String::from_str(path));
    dce.syntax = Some(syntax);
    Err(ErrorCode(ERROR_FUNCTION_NOT_IMPLEMENTED))
}

/// Destroys a DCE/RPC context.
pub fn dcerpc_destroy_context(_dce: DceRpcContext) {
}

/// Returns the SMB2 client associated with a DCE/RPC context, if present.
#[must_use]
pub fn dcerpc_get_smb2_context(dce: &DceRpcContext) -> (r: Option<&Smb2Client>)
    ensures
        match dce.spec_smb2() {
            Some(c) => r == Some(&c),
            None => r is None,
        },
{
    match &dce.smb2 {
        Some(c) => Some(c),
        None => None,
    }
}

/// Returns the raw payload bytes of a PDU.
#[must_use]
pub fn dcerpc_get_pdu_payload(pdu: &DceRpcPdu) -> (r: &[u8])
    ensures
        r@ == pdu.payload.bytes@,
{
    pdu.payload.bytes.as_slice()
}

/// Opens the named-pipe transport; no transport is available, so this
/// reports `ErrorCode(-38)` and never invokes the callback.
pub fn dcerpc_open_async<F: FnOnce(&mut DceRpcContext, Result<DceRpcCommandData>)>(
    _dce: &mut DceRpcContext,
    _callback: F,
) -> (r: Result<()>)
    ensures
        r == Err::<(), ErrorCode>(ErrorCode(ERROR_FUNCTION_NOT_IMPLEMENTED)),
        *final(_dce) == *old(_dce),
{
    Err(ErrorCode(ERROR_FUNCTION_NOT_IMPLEMENTED))
}

/// Starts a request/response call; no transport or NDR coding is
/// available, so this reports `ErrorCode(-38)` and never invokes the
/// callback.
pub fn dcerpc_call_async<Q, P, F: FnOnce(&mut DceRpcContext, Result<DceRpcCommandData>)>(
    _dce: &mut DceRpcContext,
    _opnum: i32,
    _req_coder: Q,
    _req: &mut DceRpcPayload,
    _rep_coder: P,
    _decode_size: usize,
    _callback: F,
) -> (r: Result<()>)
    ensures
        r == Err::<(), ErrorCode>(ErrorCode(ERROR_FUNCTION_NOT_IMPLEMENTED)),
        *final(_dce) == *old(_dce),
        *final(_req) == *old(_req),
{
    Err(ErrorCode(ERROR_FUNCTION_NOT_IMPLEMENTED))
}

/// Invokes a coder on its arguments and hands back what the coder returns;
/// the arguments end up as the coder leaves them.
pub fn dcerpc_do_coder<C: FnOnce(&mut DceRpcContext, &mut DceRpcPdu, &mut Smb2Iovec, &mut usize, &mut DceRpcPayload) -> Result<()>>(
    ctx: &mut DceRpcContext,
    pdu: &mut DceRpcPdu,
    iov: &mut Smb2Iovec,
    offset: &mut usize,
    ptr: &mut DceRpcPayload,
    coder: C,
) -> (r: Result<()>)
    requires
        forall|a: &mut DceRpcContext, b: &mut DceRpcPdu, c: &mut Smb2Iovec, d: &mut usize, e: &mut DceRpcPayload|
            #[trigger] call_requires(coder, (a, b, c, d, e)),
    ensures
        exists|a: &mut DceRpcContext, b: &mut DceRpcPdu, c: &mut Smb2Iovec, d: &mut usize, e: &mut DceRpcPayload|
            #[trigger] call_ensures(coder, (a, b, c, d, e), r)
            && *a == *old(ctx) && *b == *old(pdu) && *c == *old(iov) && *d == *old(offset) && *e == *old(ptr)
            && *final(a) == *final(ctx) && *final(b) == *final(pdu) && *final(c) == *final(iov)
            && *final(d) == *final(offset) && *final(e) == *final(ptr),
{
    coder(ctx, pdu, iov, offset, ptr)
}

/// Encodes or decodes an NDR pointer value; reports `ErrorCode(-38)`.
pub fn dcerpc_ptr_coder<C>(
    _dce: &mut DceRpcContext,
    _pdu: &mut DceRpcPdu,
    _iov: &mut Smb2Iovec,
    _offset: &mut usize,
    _ptr: &mut DceRpcPayload,
    _ptr_type: PtrType,
    _coder: C,
) -> (r: Result<()>)
    ensures
        r == Err::<(), ErrorCode>(ErrorCode(ERROR_FUNCTION_NOT_IMPLEMENTED)),
        *final(_dce) == *old(_dce),
        *final(_pdu) == *old(_pdu),
        *final(_offset) == *old(_offset),
        *final(_ptr) == *old(_ptr),
{
    Err(ErrorCode(ERROR_FUNCTION_NOT_IMPLEMENTED))
}

/// Encodes or decodes an NDR conformant array; reports `ErrorCode(-38)`.
pub fn dcerpc_carray_coder<C>(
    _ctx: &mut DceRpcContext,
    _pdu: &mut DceRpcPdu,
    _iov: &mut Smb2Iovec,
    _offset: &mut usize,
    _num: usize,
    _ptr: &mut DceRpcPayload,
    _elem_size: usize,
    _coder: C,
) -> (r: Result<()>)
    ensures
        r == Err::<(), ErrorCode>(ErrorCode(ERROR_FUNCTION_NOT_IMPLEMENTED)),
        *final(_ctx) == *old(_ctx),
        *final(_pdu) == *old(_pdu),
        *final(_offset) == *old(_offset),
        *final(_ptr) == *old(_ptr),
{
    Err(ErrorCode(ERROR_FUNCTION_NOT_IMPLEMENTED))
}

/// Encodes or decodes an unsigned 8-bit integer. NDR coding is not provided, so this reports `ErrorCode(-38)`
/// and changes nothing.
pub fn dcerpc_uint8_coder(
    _ctx: &mut DceRpcContext,
    _pdu: &mut DceRpcPdu,
    _iov: &mut Smb2Iovec,
    _offset: &mut usize,
    _ptr: &mut u8,
) -> (r: Result<()>)
    ensures
        r == Err::<(), ErrorCode>(ErrorCode(ERROR_FUNCTION_NOT_IMPLEMENTED)),
        *final(_ctx) == *old(_ctx),
        *final(_pdu) == *old(_pdu),
        *final(_offset) == *old(_offset),
        *final(_ptr) == *old(_ptr),
{
    Err(ErrorCode(ERROR_FUNCTION_NOT_IMPLEMENTED))
}

/// Encodes or decodes an unsigned 16-bit integer. NDR coding is not provided, so this reports `ErrorCode(-38)`
/// and changes nothing.
pub fn dcerpc_uint16_coder(
    _ctx: &mut DceRpcContext,
    _pdu: &mut DceRpcPdu,
    _iov: &mut Smb2Iovec,
    _offset: &mut usize,
    _ptr: &mut u16,
) -> (r: Result<()>)
    ensures
        r == Err::<(), ErrorCode>(ErrorCode(ERROR_FUNCTION_NOT_IMPLEMENTED)),
        *final(_ctx) == *old(_ctx),
        *final(_pdu) == *old(_pdu),
        *final(_offset) == *old(_offset),
        *final(_ptr) == *old(_ptr),
{
    Err(ErrorCode(ERROR_FUNCTION_NOT_IMPLEMENTED))
}

/// Encodes or decodes an unsigned 32-bit integer. NDR coding is not provided, so this reports `ErrorCode(-38)`
/// and changes nothing.
pub fn dcerpc_uint32_coder(
    _ctx: &mut DceRpcContext,
    _pdu: &mut DceRpcPdu,
    _iov: &mut Smb2Iovec,
    _offset: &mut usize,
    _ptr: &mut u32,
) -> (r: Result<()>)
    ensures
        r == Err::<(), ErrorCode>(ErrorCode(ERROR_FUNCTION_NOT_IMPLEMENTED)),
        *final(_ctx) == *old(_ctx),
        *final(_pdu) == *old(_pdu),
        *final(_offset) == *old(_offset),
        *final(_ptr) == *old(_ptr),
{
    Err(ErrorCode(ERROR_FUNCTION_NOT_IMPLEMENTED))
}

/// Encodes or decodes a width-dependent unsigned integer. NDR coding is not provided, so this reports `ErrorCode(-38)`
/// and changes nothing.
pub fn dcerpc_uint3264_coder(
    _ctx: &mut DceRpcContext,
    _pdu: &mut DceRpcPdu,
    _iov: &mut Smb2Iovec,
    _offset: &mut usize,
    _ptr: &mut u64,
) -> (r: Result<()>)
    ensures
        r == Err::<(), ErrorCode>(ErrorCode(ERROR_FUNCTION_NOT_IMPLEMENTED)),
        *final(_ctx) == *old(_ctx),
        *final(_pdu) == *old(_pdu),
        *final(_offset) == *old(_offset),
        *final(_ptr) == *old(_ptr),
{
    Err(ErrorCode(ERROR_FUNCTION_NOT_IMPLEMENTED))
}

/// Encodes or decodes a conformant-array count. NDR coding is not provided, so this reports `ErrorCode(-38)`
/// and changes nothing.
pub fn dcerpc_conformance_coder(
    _ctx: &mut DceRpcContext,
    _pdu: &mut DceRpcPdu,
    _iov: &mut Smb2Iovec,
    _offset: &mut usize,
    _ptr: &mut u32,
) -> (r: Result<()>)
    ensures
        r == Err::<(), ErrorCode>(ErrorCode(ERROR_FUNCTION_NOT_IMPLEMENTED)),
        *final(_ctx) == *old(_ctx),
        *final(_pdu) == *old(_pdu),
        *final(_offset) == *old(_offset),
        *final(_ptr) == *old(_ptr),
{
    Err(ErrorCode(ERROR_FUNCTION_NOT_IMPLEMENTED))
}

/// Encodes or decodes a UTF-16 string value. NDR coding is not provided, so this reports `ErrorCode(-38)`
/// and changes nothing.
pub fn dcerpc_utf16_coder(
    _ctx: &mut DceRpcContext,
    _pdu: &mut DceRpcPdu,
    _iov: &mut Smb2Iovec,
    _offset: &mut usize,
    _ptr: &mut DceRpcUtf16,
) -> (r: Result<()>)
    ensures
        r == Err::<(), ErrorCode>(ErrorCode(ERROR_FUNCTION_NOT_IMPLEMENTED)),
        *final(_ctx) == *old(_ctx),
        *final(_pdu) == *old(_pdu),
        *final(_offset) == *old(_offset),
        *final(_ptr) == *old(_ptr),
{
    Err(ErrorCode(ERROR_FUNCTION_NOT_IMPLEMENTED))
}

/// Encodes or decodes a NUL-terminated UTF-16 string value. NDR coding is not provided, so this reports `ErrorCode(-38)`
/// and changes nothing.
pub fn dcerpc_utf16z_coder(
    _ctx: &mut DceRpcContext,
    _pdu: &mut DceRpcPdu,
    _iov: &mut Smb2Iovec,
    _offset: &mut usize,
    _ptr: &mut DceRpcUtf16,
) -> (r: Result<()>)
    ensures
        r == Err::<(), ErrorCode>(ErrorCode(ERROR_FUNCTION_NOT_IMPLEMENTED)),
        *final(_ctx) == *old(_ctx),
        *final(_pdu) == *old(_pdu),
        *final(_offset) == *old(_offset),
        *final(_ptr) == *old(_ptr),
{
    Err(ErrorCode(ERROR_FUNCTION_NOT_IMPLEMENTED))
}

/// Encodes or decodes an NDR context handle. NDR coding is not provided, so this reports `ErrorCode(-38)`
/// and changes nothing.
pub fn dcerpc_context_handle_coder(
    _dce: &mut DceRpcContext,
    _pdu: &mut DceRpcPdu,
    _iov: &mut Smb2Iovec,
    _offset: &mut usize,
    _ptr: &mut NdrContextHandle,
) -> (r: Result<()>)
    ensures
        r == Err::<(), ErrorCode>(ErrorCode(ERROR_FUNCTION_NOT_IMPLEMENTED)),
        *final(_dce) == *old(_dce),
        *final(_pdu) == *old(_pdu),
        *final(_offset) == *old(_offset),
        *final(_ptr) == *old(_ptr),
{
    Err(ErrorCode(ERROR_FUNCTION_NOT_IMPLEMENTED))
}

/// Encodes or decodes a DCE/RPC UUID. NDR coding is not provided, so this reports `ErrorCode(-38)`
/// and changes nothing.
pub fn dcerpc_uuid_coder(
    _dce: &mut DceRpcContext,
    _pdu: &mut DceRpcPdu,
    _iov: &mut Smb2Iovec,
    _offset: &mut usize,
    _uuid: &mut DceRpcUuid,
) -> (r: Result<()>)
    ensures
        r == Err::<(), ErrorCode>(ErrorCode(ERROR_FUNCTION_NOT_IMPLEMENTED)),
        *final(_dce) == *old(_dce),
        *final(_pdu) == *old(_pdu),
        *final(_offset) == *old(_offset),
        *final(_uuid) == *old(_uuid),
{
    Err(ErrorCode(ERROR_FUNCTION_NOT_IMPLEMENTED))
}

/// Allocates a PDU with a zeroed payload of `payload_size` bytes; a
/// negative size is refused with `ErrorCode(-22)`.
pub fn dcerpc_allocate_pdu(_dce: &mut DceRpcContext, direction: i32, payload_size: i32) -> (r:
    Result<DceRpcPdu>)
    ensures
        *final(_dce) == *old(_dce),
        payload_size < 0 ==> r == Err::<DceRpcPdu, ErrorCode>(ErrorCode(EINVAL)),
        payload_size >= 0 ==> (r matches Ok(p) && p.direction == direction && p.size_is == 0
            && p.payload.bytes@ == Seq::new(payload_size as nat, |i: int| 0u8)),
{
    if payload_size < 0 {
        return Err(ErrorCode(EINVAL));
    }
    let bytes: Vec<u8> = vec![0u8; payload_size as usize];
    assert(bytes@ =~= Seq::new(payload_size as nat, |i: int| 0u8));
    Ok(DceRpcPdu { direction, payload: DceRpcPayload { bytes }, size_is: 0 })
}

/// Releases a PDU; the context is left as it was.
pub fn dcerpc_free_pdu(_dce: &mut DceRpcContext, _pdu: DceRpcPdu)
    ensures
        *final(_dce) == *old(_dce),
{
}

/// Stores the current `size_is` value used by conformant-array coders.
pub fn dcerpc_set_size_is(pdu: &mut DceRpcPdu, size_is: i32)
    ensures
        *final(pdu) == (DceRpcPdu { size_is: size_is, ..*old(pdu) }),
{
    pdu.size_is = size_is;
}

/// Returns the current `size_is` value used by conformant-array coders.
#[must_use]
pub fn dcerpc_get_size_is(pdu: &DceRpcPdu) -> (r: i32)
    ensures
        r == pdu.size_is,
{
    pdu.size_is
}

} // verus!
