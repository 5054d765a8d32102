//! LSA interface shapes: operation numbers, policy access rights, SIDs,
//! translated names, referenced domains and the request and reply records
//! of `Close`, `OpenPolicy2` and `LookupSids2`.
use vstd::prelude::*;

verus! {

/// LSA `Close` operation number.
pub const LSA_CLOSE: u16 = 0x00;

/// LSA `OpenPolicy2` operation number.
pub const LSA_OPENPOLICY2: u16 = 0x2c;

/// LSA `LookupSids2` operation number.
pub const LSA_LOOKUPSIDS2: u16 = 0x39;

/// Allows viewing local policy information.
pub const POLICY_VIEW_LOCAL_INFORMATION: u32 = 0x0000_0001;

/// Allows viewing audit policy information.
pub const POLICY_VIEW_AUDIT_INFORMATION: u32 = 0x0000_0002;

/// Allows retrieving private policy information.
pub const POLICY_GET_PRIVATE_INFORMATION: u32 = 0x0000_0004;

/// Allows administering trusted domains.
pub const POLICY_TRUST_ADMIN: u32 = 0x0000_0008;

/// Allows creating accounts.
pub const POLICY_CREATE_ACCOUNT: u32 = 0x0000_0010;

/// Allows creating secrets.
pub const POLICY_CREATE_SECRET: u32 = 0x0000_0020;

/// Allows creating privileges.
pub const POLICY_CREATE_PRIVILEGE: u32 = 0x0000_0040;

/// Allows setting default quota limits.
pub const POLICY_SET_DEFAULT_QUOTA_LIMITS: u32 = 0x0000_0080;

/// Allows setting audit requirements.
pub const POLICY_SET_AUDIT_REQUIREMENTS: u32 = 0x0000_0100;

/// Allows administering the audit log.
pub const POLICY_AUDIT_LOG_ADMIN: u32 = 0x0000_0200;

/// Allows administering the policy server.
pub const POLICY_SERVER_ADMIN: u32 = 0x0000_0400;

/// Allows looking up names and SIDs.
pub const POLICY_LOOKUP_NAMES: u32 = 0x0000_0800;

/// Allows receiving policy notifications.
pub const POLICY_NOTIFICATION: u32 = 0x0000_1000;

/// NT SID identifier authority value.
pub const NT_SID_AUTHORITY: [u8; 6] = [0, 0, 0, 0, 0, 5];

/// LSA status reported by the operations whose encoding is not provided.
pub const LSA_STATUS_NOT_IMPLEMENTED: u32 = 0xc000_0002;

/// Opaque NDR context handle used by LSA policy operations.
#[derive(Debug, Clone, PartialEq, Eq, Default)]
pub struct NdrContextHandle {
    /// Raw context handle bytes as carried by DCERPC/NDR.
    pub bytes: [u8; 20],
}

/// Security identifier (`RPC_SID`).
#[derive(Debug, Clone, PartialEq, Eq, Default)]
pub struct RpcSid {
    /// SID revision.
    pub revision: u8,
    /// Identifier authority bytes.
    pub identifier_authority: [u8; 6],
    /// SID sub-authorities.
    pub sub_authority: Vec<u32>,
}

/// Short name of [`RpcSid`].
pub type Sid = RpcSid;

/// Translated account name returned by `LookupSids2`.
#[derive(Debug, Clone, PartialEq, Eq, Default)]
pub struct LsaprTranslatedNameEx {
    /// SID name-use discriminator.
    pub use_: u32,
    /// Translated name, when present.
    pub name: Option<String>,
    /// Index into the referenced domain list.
    pub domain_index: u32,
    /// Name flags returned by the server.
    pub flags: u32,
}

/// Collection of translated names returned by LSA lookup calls.
#[derive(Debug, Clone, PartialEq, Eq, Default)]
pub struct LsaprTranslatedNamesEx {
    /// Translated name entries.
    pub names: Vec<LsaprTranslatedNameEx>,
}

/// SID enumeration buffer supplied to `LookupSids2`.
#[derive(Debug, Clone, PartialEq, Eq, Default)]
pub struct LsaprSidEnumBuffer {
    /// SIDs to look up.
    pub sid_info: Vec<RpcSid>,
}

/// Lookup level used by LSA SID and name translation operations.
#[derive(Debug, Clone, Copy, PartialEq, Eq)]
pub enum LsapLookupLevel {
    /// Workstation lookup (1).
    Wksta,
    /// Primary domain controller lookup (2).
    Pdc,
    /// Trusted domain list lookup (3).
    Tdl,
    /// Global catalog lookup (4).
    Gc,
    /// Cross-forest referral lookup (5).
    XForestReferral,
    /// Cross-forest resolve lookup (6).
    XForestResolve,
    /// Read-only domain controller referral to a full domain controller (7).
    RodcReferralToFullDc,
}

/// The wire value of each lookup level.
pub open spec fn lookup_level_value(l: LsapLookupLevel) -> u32 {
    match l {
        LsapLookupLevel::Wksta => 1,
        LsapLookupLevel::Pdc => 2,
        LsapLookupLevel::Tdl => 3,
        LsapLookupLevel::Gc => 4,
        LsapLookupLevel::XForestReferral => 5,
        LsapLookupLevel::XForestResolve => 6,
        LsapLookupLevel::RodcReferralToFullDc => 7,
    }
}

impl LsapLookupLevel {
    /// Returns the wire value of the lookup level.
    pub fn value(self) -> (r: u32)
        ensures
            r == lookup_level_value(self),
    {
        match self {
            LsapLookupLevel::Wksta => 1,
            LsapLookupLevel::Pdc => 2,
            LsapLookupLevel::Tdl => 3,
            LsapLookupLevel::Gc => 4,
            LsapLookupLevel::XForestReferral => 5,
            LsapLookupLevel::XForestResolve => 6,
            LsapLookupLevel::RodcReferralToFullDc => 7,
        }
    }
}

impl Default for LsapLookupLevel {
    fn default() -> (r: Self)
        ensures
            r == LsapLookupLevel::Wksta,
    {
        LsapLookupLevel::Wksta
    }
}

/// Trust information entry in an LSA referenced domain list.
#[derive(Debug, Clone, PartialEq, Eq, Default)]
pub struct LsaprTrustInformation {
    /// Referenced domain name, when present.
    pub name: Option<String>,
    /// Referenced domain SID.
    pub sid: RpcSid,
}

/// Referenced domains returned by LSA lookup calls.
#[derive(Debug, Clone, PartialEq, Eq, Default)]
pub struct LsaprReferencedDomainList {
    /// Domain entries referenced by translated names.
    pub domains: Vec<LsaprTrustInformation>,
    /// Server-provided maximum entry count; consumers should ignore this value.
    pub max_entries: u32,
}

/// Object attributes supplied to `OpenPolicy2`.
#[derive(Debug, Clone, PartialEq, Eq, Default)]
pub struct LsaprObjectAttributes {
    /// Structure length from the wire representation.
    pub length: u32,
    /// Root directory handle bytes; `OpenPolicy2` requires this to be absent.
    pub root_directory: Option<Vec<u8>>,
    /// Object name bytes.
    pub object_name: Option<Vec<u8>>,
    /// Object attribute flags.
    pub attributes: u32,
    /// Security descriptor bytes.
    pub security_descriptor: Option<Vec<u8>>,
    /// Security quality-of-service bytes.
    pub security_quality_of_service: Option<Vec<u8>>,
}

/// Request body for LSA `Close`.
#[derive(Debug, Clone, PartialEq, Eq, Default)]
pub struct LsaCloseReq {
    /// Policy handle to close.
    pub policy_handle: NdrContextHandle,
}

/// Response body for LSA `Close`.
#[derive(Debug, Clone, PartialEq, Eq, Default)]
pub struct LsaCloseRep {
    /// NTSTATUS result.
    pub status: u32,
    /// Policy handle returned by the server.
    pub policy_handle: NdrContextHandle,
}

/// Request body for LSA `OpenPolicy2`.
#[derive(Debug, Clone, PartialEq, Eq, Default)]
pub struct LsaOpenPolicy2Req {
    /// Optional target system name.
    pub system_name: Option<String>,
    /// Object attributes for the policy object.
    pub object_attributes: LsaprObjectAttributes,
    /// Desired policy access mask.
    pub desired_access: u32,
}

/// Response body for LSA `OpenPolicy2`.
#[derive(Debug, Clone, PartialEq, Eq, Default)]
pub struct LsaOpenPolicy2Rep {
    /// NTSTATUS result.
    pub status: u32,
    /// Opened policy handle.
    pub policy_handle: NdrContextHandle,
}

/// Request body for LSA `LookupSids2`.
#[derive(Debug, Clone, PartialEq, Eq, Default)]
pub struct LsaLookupSids2Req {
    /// Policy handle used for lookup.
    pub policy_handle: NdrContextHandle,
    /// SID enumeration buffer.
    pub sid_enum_buffer: LsaprSidEnumBuffer,
    /// Client-provided translated-name buffer.
    pub translated_names: LsaprTranslatedNamesEx,
    /// Lookup level requested by the caller.
    pub lookup_level: LsapLookupLevel,
}

/// Response body for LSA `LookupSids2`.
#[derive(Debug, Clone, PartialEq, Eq, Default)]
pub struct LsaLookupSids2Rep {
    /// NTSTATUS result.
    pub status: u32,
    /// Referenced domain list returned by the server.
    pub referenced_domains: LsaprReferencedDomainList,
    /// Translated names returned by the server.
    pub translated_names: LsaprTranslatedNamesEx,
    /// Number of successfully mapped SIDs.
    pub mapped_count: u32,
}

/// DCE/RPC context argument of the LSA coders.
#[derive(Debug, Default)]
pub struct DceRpcContext;

/// DCE/RPC PDU argument of the LSA coders.
#[derive(Debug, Default)]
pub struct DceRpcPdu;

/// I/O vector argument of the LSA coders.
#[derive(Debug, Default)]
pub struct Smb2Iovec;

/// Error returned by the LSA coders.
#[derive(Debug, Clone, Copy, PartialEq, Eq)]
pub struct LsaCoderError {
    /// NTSTATUS-style status associated with the failed operation.
    pub status: u32,
}

impl LsaCoderError {
    /// Creates the error reported when encoding or decoding is not provided.
    pub fn not_implemented() -> (r: Self)
        ensures
            r.status == LSA_STATUS_NOT_IMPLEMENTED,
    {
        LsaCoderError { status: LSA_STATUS_NOT_IMPLEMENTED }
    }
}

/// Result type returned by LSA coders.
pub type LsaCoderResult = Result<(), LsaCoderError>;

/// Decoder for an LSA `Close` reply; the NDR encoding is not provided, so it reports
/// [`LSA_STATUS_NOT_IMPLEMENTED`].
pub fn lsa_close_rep_coder(
    _dce: &mut DceRpcContext,
    _pdu: &mut DceRpcPdu,
    _iov: &mut Smb2Iovec,
    _offset: &mut usize,
    _rep: &mut LsaCloseRep,
) -> (r: LsaCoderResult)
    ensures
        r == Err::<(), LsaCoderError>(LsaCoderError { status: LSA_STATUS_NOT_IMPLEMENTED }),
{
    Err(LsaCoderError::not_implemented())
}

/// Encoder for an LSA `Close` request; the NDR encoding is not provided, so it reports
/// [`LSA_STATUS_NOT_IMPLEMENTED`].
pub fn lsa_close_req_coder(
    _dce: &mut DceRpcContext,
    _pdu: &mut DceRpcPdu,
    _iov: &mut Smb2Iovec,
    _offset: &mut usize,
    _req: &LsaCloseReq,
) -> (r: LsaCoderResult)
    ensures
        r == Err::<(), LsaCoderError>(LsaCoderError { status: LSA_STATUS_NOT_IMPLEMENTED }),
{
    Err(LsaCoderError::not_implemented())
}

/// Decoder for an LSA `LookupSids2` reply; the NDR encoding is not provided, so it reports
/// [`LSA_STATUS_NOT_IMPLEMENTED`].
pub fn lsa_lookup_sids2_rep_coder(
    _dce: &mut DceRpcContext,
    _pdu: &mut DceRpcPdu,
    _iov: &mut Smb2Iovec,
    _offset: &mut usize,
    _rep: &mut LsaLookupSids2Rep,
) -> (r: LsaCoderResult)
    ensures
        r == Err::<(), LsaCoderError>(LsaCoderError { status: LSA_STATUS_NOT_IMPLEMENTED }),
{
    Err(LsaCoderError::not_implemented())
}

/// Encoder for an LSA `LookupSids2` request; the NDR encoding is not provided, so it reports
/// [`LSA_STATUS_NOT_IMPLEMENTED`].
pub fn lsa_lookup_sids2_req_coder(
    _dce: &mut DceRpcContext,
    _pdu: &mut DceRpcPdu,
    _iov: &mut Smb2Iovec,
    _offset: &mut usize,
    _req: &LsaLookupSids2Req,
) -> (r: LsaCoderResult)
    ensures
        r == Err::<(), LsaCoderError>(LsaCoderError { status: LSA_STATUS_NOT_IMPLEMENTED }),
{
    Err(LsaCoderError::not_implemented())
}

/// Decoder for an LSA `OpenPolicy2` reply; the NDR encoding is not provided, so it reports
/// [`LSA_STATUS_NOT_IMPLEMENTED`].
pub fn lsa_open_policy2_rep_coder(
    _dce: &mut DceRpcContext,
    _pdu: &mut DceRpcPdu,
    _iov: &mut Smb2Iovec,
    _offset: &mut usize,
    _rep: &mut LsaOpenPolicy2Rep,
) -> (r: LsaCoderResult)
    ensures
        r == Err::<(), LsaCoderError>(LsaCoderError { status: LSA_STATUS_NOT_IMPLEMENTED }),
{
    Err(LsaCoderError::not_implemented())
}

/// Encoder for an LSA `OpenPolicy2` request; the NDR encoding is not provided, so it reports
/// [`LSA_STATUS_NOT_IMPLEMENTED`].
pub fn lsa_open_policy2_req_coder(
    _dce: &mut DceRpcContext,
    _pdu: &mut DceRpcPdu,
    _iov: &mut Smb2Iovec,
    _offset: &mut usize,
    _req: &LsaOpenPolicy2Req,
) -> (r: LsaCoderResult)
    ensures
        r == Err::<(), LsaCoderError>(LsaCoderError { status: LSA_STATUS_NOT_IMPLEMENTED }),
{
    Err(LsaCoderError::not_implemented())
}

/// Encoder and decoder for an `RPC_SID` value; the NDR encoding is not provided, so it reports
/// [`LSA_STATUS_NOT_IMPLEMENTED`].
pub fn lsa_rpc_sid_coder(
    _dce: &mut DceRpcContext,
    _pdu: &mut DceRpcPdu,
    _iov: &mut Smb2Iovec,
    _offset: &mut usize,
    _sid: &mut RpcSid,
) -> (r: LsaCoderResult)
    ensures
        r == Err::<(), LsaCoderError>(LsaCoderError { status: LSA_STATUS_NOT_IMPLEMENTED }),
{
    Err(LsaCoderError::not_implemented())
}

} // verus!
