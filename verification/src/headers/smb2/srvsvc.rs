//! SRVSVC interface shapes: share types and info levels, the share
//! information records and containers, and the request and reply records of
//! `NetrShareEnum` and `NetrShareGetInfo`.
use vstd::prelude::*;

use super::libsmb2::{ErrorCode, Result};
use crate::engine::client::Smb2Client;

verus! {

/// SRVSVC operation number for `NetrShareEnum`.
pub const SRVSVC_NETR_SHARE_ENUM: u16 = 0x0f;

/// SRVSVC operation number for `NetrShareGetInfo`.
pub const SRVSVC_NETR_SHARE_GET_INFO: u16 = 0x10;

/// Low-bit share type value for a disk tree share.
pub const SHARE_TYPE_DISK_TREE: u32 = 0;

/// Low-bit share type value for a print queue share.
pub const SHARE_TYPE_PRINT_QUEUE: u32 = 1;

/// Low-bit share type value for a communication device share.
pub const SHARE_TYPE_DEVICE: u32 = 2;

/// Low-bit share type value for the IPC share.
pub const SHARE_TYPE_IPC: u32 = 3;

/// Share type flag for a temporary share.
pub const SHARE_TYPE_TEMPORARY: u32 = 0x4000_0000;

/// Share type flag for a hidden administrative share.
pub const SHARE_TYPE_HIDDEN: u32 = 0x8000_0000;

/// Status of SRVSVC operations whose encoding is not provided.
pub const ERROR_FUNCTION_NOT_IMPLEMENTED: i32 = -38;

/// Share information detail level used by SRVSVC share APIs.
#[derive(Debug, Clone, Copy, PartialEq, Eq, Default)]
pub enum ShareInfoLevel {
    /// Level 0 contains only the share network name.
    Level0,
    /// Level 1 contains the share network name, type, and remark.
    #[default]
    Level1,
    /// Any other level value.
    Unknown(u32),
}

/// The level a raw value names.
pub open spec fn share_info_level_of(level: u32) -> ShareInfoLevel {
    if level == 0 {
        ShareInfoLevel::Level0
    } else if level == 1 {
        ShareInfoLevel::Level1
    } else {
        ShareInfoLevel::Unknown(level)
    }
}

/// The raw value of a level.
pub open spec fn share_info_level_raw(level: ShareInfoLevel) -> u32 {
    match level {
        ShareInfoLevel::Level0 => 0,
        ShareInfoLevel::Level1 => 1,
        ShareInfoLevel::Unknown(v) => v,
    }
}

impl From<u32> for ShareInfoLevel {
    fn from(level: u32) -> (r: Self) {
        match level {
            0 => ShareInfoLevel::Level0,
            1 => ShareInfoLevel::Level1,
            value => ShareInfoLevel::Unknown(value),
        }
    }
}

impl vstd::std_specs::convert::FromSpecImpl<u32> for ShareInfoLevel {
    open spec fn obeys_from_spec() -> bool {
        true
    }

    open spec fn from_spec(v: u32) -> ShareInfoLevel {
        share_info_level_of(v)
    }
}

impl From<ShareInfoLevel> for u32 {
    fn from(level: ShareInfoLevel) -> (r: Self) {
        match level {
            ShareInfoLevel::Level0 => 0,
            ShareInfoLevel::Level1 => 1,
            ShareInfoLevel::Unknown(value) => value,
        }
    }
}

impl vstd::std_specs::convert::FromSpecImpl<ShareInfoLevel> for u32 {
    open spec fn obeys_from_spec() -> bool {
        true
    }

    open spec fn from_spec(v: ShareInfoLevel) -> u32 {
        share_info_level_raw(v)
    }
}

/// A raw level survives the trip through [`ShareInfoLevel`] unchanged; a
/// level survives the trip through its raw value unless it is an `Unknown`
/// that holds 0 or 1.
pub proof fn lemma_share_info_level_round_trip(raw: u32, level: ShareInfoLevel)
    ensures
        share_info_level_raw(share_info_level_of(raw)) == raw,
        !(level matches ShareInfoLevel::Unknown(v) && (v == 0 || v == 1))
            ==> share_info_level_of(share_info_level_raw(level)) == level,
{
}

/// Level 0 and level 1 name `SHARE_INFO_0` and `SHARE_INFO_1`; other
/// levels stay `Unknown`.
pub proof fn lemma_share_info_level_codes(raw: u32)
    ensures
        share_info_level_of(0) == ShareInfoLevel::Level0,
        share_info_level_of(1) == ShareInfoLevel::Level1,
        share_info_level_raw(ShareInfoLevel::Level0) == 0,
        share_info_level_raw(ShareInfoLevel::Level1) == 1,
        raw > 1 ==> share_info_level_of(raw) == ShareInfoLevel::Unknown(raw),
{
}

/// SRVSVC share kind encoded in the low two bits of the share type.
#[derive(Debug, Clone, Copy, PartialEq, Eq, Default)]
pub enum ShareKind {
    /// Disk tree share.
    #[default]
    DiskTree,
    /// Print queue share.
    PrintQueue,
    /// Communication device share.
    Device,
    /// IPC share.
    Ipc,
}

/// Decoded SRVSVC share type and flags.
#[derive(Debug, Clone, Copy, PartialEq, Eq, Default)]
pub struct ShareType {
    /// Share kind encoded by the low two bits.
    pub kind: ShareKind,
    /// Whether the temporary share flag is set.
    pub temporary: bool,
    /// Whether the hidden administrative share flag is set.
    pub hidden: bool,
    /// The bits other than the kind and the two flags.
    pub raw_flags: u32,
}

/// The share kind of the low two bits.
pub open spec fn share_kind_of(bits: u32) -> ShareKind {
    if bits & 3 == SHARE_TYPE_PRINT_QUEUE {
        ShareKind::PrintQueue
    } else if bits & 3 == SHARE_TYPE_DEVICE {
        ShareKind::Device
    } else if bits & 3 == SHARE_TYPE_IPC {
        ShareKind::Ipc
    } else {
        ShareKind::DiskTree
    }
}

/// The low-bit value of a share kind.
pub open spec fn share_kind_bits(kind: ShareKind) -> u32 {
    match kind {
        ShareKind::DiskTree => SHARE_TYPE_DISK_TREE,
        ShareKind::PrintQueue => SHARE_TYPE_PRINT_QUEUE,
        ShareKind::Device => SHARE_TYPE_DEVICE,
        ShareKind::Ipc => SHARE_TYPE_IPC,
    }
}

/// The mask of the bits the decoded fields do not name.
pub open spec fn other_share_bits(bits: u32) -> u32 {
    bits & !(3u32 | SHARE_TYPE_TEMPORARY | SHARE_TYPE_HIDDEN)
}

/// The decoded form of a raw share type.
pub open spec fn share_type_of(bits: u32) -> ShareType {
    ShareType {
        kind: share_kind_of(bits),
        temporary: bits & SHARE_TYPE_TEMPORARY != 0,
        hidden: bits & SHARE_TYPE_HIDDEN != 0,
        raw_flags: other_share_bits(bits),
    }
}

/// The raw form of a decoded share type.
pub open spec fn share_type_bits(t: ShareType) -> u32 {
    share_kind_bits(t.kind) | (if t.temporary { SHARE_TYPE_TEMPORARY } else { 0 }) | (if t.hidden {
        SHARE_TYPE_HIDDEN
    } else {
        0
    }) | t.raw_flags
}

impl ShareType {
    /// Creates a decoded share type from the raw SRVSVC bit field.
    pub fn from_bits(bits: u32) -> (r: Self)
        ensures
            r == share_type_of(bits),
    {
        let low = bits & 0x3;
        let kind = if low == SHARE_TYPE_PRINT_QUEUE {
            ShareKind::PrintQueue
        } else if low == SHARE_TYPE_DEVICE {
            ShareKind::Device
        } else if low == SHARE_TYPE_IPC {
            ShareKind::Ipc
        } else {
            ShareKind::DiskTree
        };
        ShareType {
            kind,
            temporary: bits & SHARE_TYPE_TEMPORARY != 0,
            hidden: bits & SHARE_TYPE_HIDDEN != 0,
            raw_flags: bits & !(0x3u32 | SHARE_TYPE_TEMPORARY | SHARE_TYPE_HIDDEN),
        }
    }

    /// Encodes this share type into the SRVSVC bit field.
    pub fn to_bits(self) -> (r: u32)
        ensures
            r == share_type_bits(self),
    {
        let kind = match self.kind {
            ShareKind::DiskTree => SHARE_TYPE_DISK_TREE,
            ShareKind::PrintQueue => SHARE_TYPE_PRINT_QUEUE,
            ShareKind::Device => SHARE_TYPE_DEVICE,
            ShareKind::Ipc => SHARE_TYPE_IPC,
        };
        let temporary = if self.temporary {
            SHARE_TYPE_TEMPORARY
        } else {
            0
        };
        let hidden = if self.hidden {
            SHARE_TYPE_HIDDEN
        } else {
            0
        };
        kind | temporary | hidden | self.raw_flags
    }
}

/// The low two bits of a share type name its kind by the `STYPE_*` codes:
/// disk tree, print queue, communication device or IPC; the encoding of a
/// share type carries the code of its kind in those bits.
pub proof fn lemma_share_kind_codes(bits: u32, t: ShareType)
    ensures
        bits & 3 == SHARE_TYPE_DISK_TREE <==> share_type_of(bits).kind == ShareKind::DiskTree,
        bits & 3 == SHARE_TYPE_PRINT_QUEUE <==> share_type_of(bits).kind == ShareKind::PrintQueue,
        bits & 3 == SHARE_TYPE_DEVICE <==> share_type_of(bits).kind == ShareKind::Device,
        bits & 3 == SHARE_TYPE_IPC <==> share_type_of(bits).kind == ShareKind::Ipc,
        share_kind_bits(ShareKind::DiskTree) == SHARE_TYPE_DISK_TREE,
        share_kind_bits(ShareKind::PrintQueue) == SHARE_TYPE_PRINT_QUEUE,
        share_kind_bits(ShareKind::Device) == SHARE_TYPE_DEVICE,
        share_kind_bits(ShareKind::Ipc) == SHARE_TYPE_IPC,
        t.raw_flags & 3 == 0 ==> share_type_bits(t) & 3 == match t.kind {
            ShareKind::DiskTree => SHARE_TYPE_DISK_TREE,
            ShareKind::PrintQueue => SHARE_TYPE_PRINT_QUEUE,
            ShareKind::Device => SHARE_TYPE_DEVICE,
            ShareKind::Ipc => SHARE_TYPE_IPC,
        },
{
    let low = bits & 3;
    assert(low < 4) by (bit_vector)
        requires
            low == bits & 3,
    ;
    let k = share_kind_bits(t.kind);
    let tb = if t.temporary { 0x4000_0000u32 } else { 0u32 };
    let hb = if t.hidden { 0x8000_0000u32 } else { 0u32 };
    let f = t.raw_flags;
    if f & 3 == 0 {
        assert((k | tb | hb | f) & 3 == k) by (bit_vector)
            requires
                k < 4,
                tb == 0 || tb == 0x4000_0000u32,
                hb == 0 || hb == 0x8000_0000u32,
                f & 3 == 0,
        ;
    }
}

/// Decoding and re-encoding a raw share type gives the same bits back; and
/// a decoded share type whose other bits avoid the kind and flag bits comes
/// back unchanged from a trip through its raw form.
pub proof fn lemma_share_type_round_trip(bits: u32, t: ShareType)
    ensures
        share_type_bits(share_type_of(bits)) == bits,
        t.raw_flags & (3u32 | SHARE_TYPE_TEMPORARY | SHARE_TYPE_HIDDEN) == 0
            ==> share_type_of(share_type_bits(t)) == t,
{
    let low = bits & 3;
    assert(low < 4) by (bit_vector)
        requires
            low == bits & 3,
    ;
    assert(bits == (bits & 3) | (bits & 0x4000_0000) | (bits & 0x8000_0000) | (bits & !(3u32
        | 0x4000_0000u32 | 0x8000_0000u32))) by (bit_vector);
    let tb = if bits & 0x4000_0000 != 0 { 0x4000_0000u32 } else { 0u32 };
    let hb = if bits & 0x8000_0000 != 0 { 0x8000_0000u32 } else { 0u32 };
    assert(bits & 0x4000_0000 != 0 ==> bits & 0x4000_0000 == 0x4000_0000) by (bit_vector);
    assert(bits & 0x8000_0000 != 0 ==> bits & 0x8000_0000 == 0x8000_0000) by (bit_vector);
    if t.raw_flags & (3u32 | SHARE_TYPE_TEMPORARY | SHARE_TYPE_HIDDEN) == 0 {
        let k = share_kind_bits(t.kind);
        let x = t.raw_flags;
        let tt = if t.temporary { 0x4000_0000u32 } else { 0u32 };
        let hh = if t.hidden { 0x8000_0000u32 } else { 0u32 };
        assert(k < 4);
        assert((k | tt | hh | x) & 3 == k && ((k | tt | hh | x) & 0x4000_0000 != 0) == (tt != 0)
            && ((k | tt | hh | x) & 0x8000_0000 != 0) == (hh != 0) && (k | tt | hh | x) & !(3u32
            | 0x4000_0000u32 | 0x8000_0000u32) == x) by (bit_vector)
            requires
                k < 4,
                tt == 0 || tt == 0x4000_0000,
                hh == 0 || hh == 0x8000_0000,
                x & (3u32 | 0x4000_0000u32 | 0x8000_0000u32) == 0,
        ;
    }
}

/// Share information returned by SRVSVC enumeration.
#[derive(Debug, Clone, PartialEq, Eq, Default)]
pub struct ShareInfo {
    /// Share name.
    pub name: String,
    /// Share type, if returned by the selected info level.
    pub share_type: Option<ShareType>,
    /// Optional share comment.
    pub comment: Option<String>,
}

/// Level 0 share information: the network name.
#[derive(Debug, Clone, PartialEq, Eq, Default)]
pub struct SrvsvcShareInfo0 {
    /// Share network name.
    pub netname: String,
}

/// Level 0 share information entries.
#[derive(Debug, Clone, PartialEq, Eq, Default)]
pub struct SrvsvcShareInfo0Container {
    /// Number of level 0 entries returned by the server.
    pub entries_read: u32,
    /// Level 0 share entries.
    pub shares: Vec<SrvsvcShareInfo0>,
}

/// Level 1 share information: name, type and remark.
#[derive(Debug, Clone, PartialEq, Eq, Default)]
pub struct SrvsvcShareInfo1 {
    /// Share network name.
    pub netname: String,
    /// Raw SRVSVC share type bit field.
    pub share_type: u32,
    /// Share remark.
    pub remark: String,
}

/// Level 1 share information entries.
#[derive(Debug, Clone, PartialEq, Eq, Default)]
pub struct SrvsvcShareInfo1Container {
    /// Number of level 1 entries returned by the server.
    pub entries_read: u32,
    /// Level 1 share entries.
    pub shares: Vec<SrvsvcShareInfo1>,
}

/// Share enumeration payload selected by level.
#[derive(Debug, Clone, PartialEq, Eq)]
pub enum SrvsvcShareEnumUnion {
    /// Level 0 share enumeration container.
    Level0(SrvsvcShareInfo0Container),
    /// Level 1 share enumeration container.
    Level1(SrvsvcShareInfo1Container),
    /// Any other level.
    Unsupported { level: u32 },
}

impl Default for SrvsvcShareEnumUnion {
    fn default() -> (r: Self)
        ensures
            r matches SrvsvcShareEnumUnion::Level1(c) && c.entries_read == 0 && c.shares@.len() == 0,
    {
        SrvsvcShareEnumUnion::Level1(SrvsvcShareInfo1Container { entries_read: 0, shares: Vec::new() })
    }
}

/// Share enumeration selector and payload.
#[derive(Debug, Clone, PartialEq, Eq)]
pub struct SrvsvcShareEnumStruct {
    /// Requested or returned share information level.
    pub level: ShareInfoLevel,
    /// Level-selected share information payload.
    pub share_info: SrvsvcShareEnumUnion,
}

impl Default for SrvsvcShareEnumStruct {
    fn default() -> (r: Self)
        ensures
            r.level == ShareInfoLevel::Level1,
            r.share_info matches SrvsvcShareEnumUnion::Level1(c) && c.entries_read == 0
                && c.shares@.len() == 0,
    {
        SrvsvcShareEnumStruct { level: ShareInfoLevel::Level1, share_info: SrvsvcShareEnumUnion::default() }
    }
}

/// `NetrShareEnum` request.
#[derive(Debug, Clone, PartialEq, Eq)]
pub struct NetrShareEnumRequest {
    /// Target server name.
    pub server_name: String,
    /// Share enumeration selector and container.
    pub share_enum: SrvsvcShareEnumStruct,
    /// Preferred maximum response length in bytes.
    pub preferred_maximum_length: u32,
    /// Resume handle for paged enumeration.
    pub resume_handle: u32,
}

impl Default for NetrShareEnumRequest {
    fn default() -> (r: Self)
        ensures
            r.server_name@ == Seq::<char>::empty(),
            r.share_enum.level == ShareInfoLevel::Level1,
            r.share_enum.share_info matches SrvsvcShareEnumUnion::Level1(c) && c.entries_read == 0
                && c.shares@.len() == 0,
            r.preferred_maximum_length == u32::MAX,
            r.resume_handle == 0,
    {
        NetrShareEnumRequest {
            server_name: String::new(),
            share_enum: SrvsvcShareEnumStruct::default(),
            preferred_maximum_length: u32::MAX,
            resume_handle: 0,
        }
    }
}

/// `NetrShareEnum` reply.
#[derive(Debug, Clone, PartialEq, Eq, Default)]
pub struct NetrShareEnumResponse {
    /// SRVSVC status code.
    pub status: u32,
    /// Returned share enumeration selector and container.
    pub share_enum: SrvsvcShareEnumStruct,
    /// Total number of entries available on the server.
    pub total_entries: u32,
    /// Resume handle for a subsequent enumeration call.
    pub resume_handle: u32,
}

/// Share information payload selected by level.
#[derive(Debug, Clone, PartialEq, Eq)]
pub enum SrvsvcShareInfoUnion {
    /// Level 1 share information.
    Level1(SrvsvcShareInfo1),
    /// Any other level.
    Unsupported { level: u32 },
}

impl Default for SrvsvcShareInfoUnion {
    fn default() -> (r: Self)
        ensures
            r matches SrvsvcShareInfoUnion::Level1(i) && i.netname@ == Seq::<char>::empty()
                && i.share_type == 0 && i.remark@ == Seq::<char>::empty(),
    {
        SrvsvcShareInfoUnion::Level1(
            SrvsvcShareInfo1 { netname: String::new(), share_type: 0, remark: String::new() },
        )
    }
}

/// Share information selector and payload.
#[derive(Debug, Clone, PartialEq, Eq, Default)]
pub struct SrvsvcShareInfo {
    /// Requested or returned share information level.
    pub level: ShareInfoLevel,
    /// Level-selected share information payload.
    pub info: SrvsvcShareInfoUnion,
}

/// `NetrShareGetInfo` request.
#[derive(Debug, Clone, PartialEq, Eq)]
pub struct NetrShareGetInfoRequest {
    /// Target server name.
    pub server_name: String,
    /// Share name to query.
    pub netname: String,
    /// Requested share information level.
    pub level: ShareInfoLevel,
}

impl Default for NetrShareGetInfoRequest {
    fn default() -> (r: Self)
        ensures
            r.server_name@ == Seq::<char>::empty(),
            r.netname@ == Seq::<char>::empty(),
            r.level == ShareInfoLevel::Level1,
    {
        NetrShareGetInfoRequest {
            server_name: String::new(),
            netname: String::new(),
            level: ShareInfoLevel::Level1,
        }
    }
}

/// `NetrShareGetInfo` reply.
#[derive(Debug, Clone, PartialEq, Eq, Default)]
pub struct NetrShareGetInfoResponse {
    /// SRVSVC status code.
    pub status: u32,
    /// Returned share information payload.
    pub info: SrvsvcShareInfo,
}

/// SRVSVC reply holding only a status code.
#[derive(Debug, Clone, Copy, PartialEq, Eq, Default)]
pub struct SrvsvcResponse {
    /// SRVSVC status code.
    pub status: u32,
}

/// Encodes or decodes a level 0 share information structure; no NDR
/// encoding is provided, so this reports `ErrorCode(-38)`.
pub fn srvsvc_share_info_0_coder(_value: &mut SrvsvcShareInfo0) -> (r: Result<()>)
    ensures
        r == Err::<(), ErrorCode>(ErrorCode(ERROR_FUNCTION_NOT_IMPLEMENTED)),
{
    Err(ErrorCode(ERROR_FUNCTION_NOT_IMPLEMENTED))
}

/// Encodes or decodes a level 1 share information structure; reports
/// `ErrorCode(-38)`.
pub fn srvsvc_share_info_1_coder(_value: &mut SrvsvcShareInfo1) -> (r: Result<()>)
    ensures
        r == Err::<(), ErrorCode>(ErrorCode(ERROR_FUNCTION_NOT_IMPLEMENTED)),
{
    Err(ErrorCode(ERROR_FUNCTION_NOT_IMPLEMENTED))
}

/// Encodes or decodes a level 1 share information container; reports
/// `ErrorCode(-38)`.
pub fn srvsvc_share_info_1_container_coder(_value: &mut SrvsvcShareInfo1Container) -> (r: Result<()>)
    ensures
        r == Err::<(), ErrorCode>(ErrorCode(ERROR_FUNCTION_NOT_IMPLEMENTED)),
{
    Err(ErrorCode(ERROR_FUNCTION_NOT_IMPLEMENTED))
}

/// Encodes or decodes a `NetrShareEnum` reply; reports `ErrorCode(-38)`.
pub fn srvsvc_netr_share_enum_response_coder(_value: &mut NetrShareEnumResponse) -> (r: Result<()>)
    ensures
        r == Err::<(), ErrorCode>(ErrorCode(ERROR_FUNCTION_NOT_IMPLEMENTED)),
{
    Err(ErrorCode(ERROR_FUNCTION_NOT_IMPLEMENTED))
}

/// Encodes or decodes a `NetrShareEnum` request; reports `ErrorCode(-38)`.
pub fn srvsvc_netr_share_enum_request_coder(_value: &mut NetrShareEnumRequest) -> (r: Result<()>)
    ensures
        r == Err::<(), ErrorCode>(ErrorCode(ERROR_FUNCTION_NOT_IMPLEMENTED)),
{
    Err(ErrorCode(ERROR_FUNCTION_NOT_IMPLEMENTED))
}

/// Encodes or decodes a `NetrShareGetInfo` reply; reports `ErrorCode(-38)`.
pub fn srvsvc_netr_share_get_info_response_coder(_value: &mut NetrShareGetInfoResponse) -> (r: Result<()>)
    ensures
        r == Err::<(), ErrorCode>(ErrorCode(ERROR_FUNCTION_NOT_IMPLEMENTED)),
{
    Err(ErrorCode(ERROR_FUNCTION_NOT_IMPLEMENTED))
}

/// Encodes or decodes a `NetrShareGetInfo` request; reports `ErrorCode(-38)`.
pub fn srvsvc_netr_share_get_info_request_coder(_value: &mut NetrShareGetInfoRequest) -> (r: Result<()>)
    ensures
        r == Err::<(), ErrorCode>(ErrorCode(ERROR_FUNCTION_NOT_IMPLEMENTED)),
{
    Err(ErrorCode(ERROR_FUNCTION_NOT_IMPLEMENTED))
}

/// Completion callback of an SRVSVC request; the asynchronous requests
/// accept it, or any other callable of the same shape.
pub type SrvsvcCommandCallback<T> = Box<dyn FnOnce(&mut Smb2Client, Result<T>)>;

impl Smb2Client {
    /// Starts an asynchronous share enumeration on an IPC$ connection. No
    /// SRVSVC binding is available, so this reports `ErrorCode(-38)` and the
    /// callback is never invoked.
    pub fn share_enum_async<F: FnOnce(&mut Smb2Client, Result<NetrShareEnumResponse>)>(
        &mut self,
        _level: ShareInfoLevel,
        _callback: F,
    ) -> (r: Result<()>)
        ensures
            r == Err::<(), ErrorCode>(ErrorCode(ERROR_FUNCTION_NOT_IMPLEMENTED)),
            final(self)@ == old(self)@,
    {
        Err(ErrorCode(ERROR_FUNCTION_NOT_IMPLEMENTED))
    }

    /// Performs a synchronous share enumeration; reports `ErrorCode(-38)`.
    pub fn share_enum_sync(&mut self, _level: ShareInfoLevel) -> (r: Result<NetrShareEnumResponse>)
        ensures
            r == Err::<NetrShareEnumResponse, ErrorCode>(ErrorCode(ERROR_FUNCTION_NOT_IMPLEMENTED)),
            final(self)@ == old(self)@,
    {
        Err(ErrorCode(ERROR_FUNCTION_NOT_IMPLEMENTED))
    }

    /// Starts an asynchronous share information query; reports
    /// `ErrorCode(-38)` and never invokes the callback.
    pub fn share_get_info_async<F: FnOnce(&mut Smb2Client, Result<NetrShareGetInfoResponse>)>(
        &mut self,
        _netname: &str,
        _level: ShareInfoLevel,
        _callback: F,
    ) -> (r: Result<()>)
        ensures
            r == Err::<(), ErrorCode>(ErrorCode(ERROR_FUNCTION_NOT_IMPLEMENTED)),
            final(self)@ == old(self)@,
    {
        Err(ErrorCode(ERROR_FUNCTION_NOT_IMPLEMENTED))
    }

    /// Performs a synchronous share information query; reports
    /// `ErrorCode(-38)`.
    pub fn share_get_info_sync(
        &mut self,
        _netname: &str,
        _level: ShareInfoLevel,
    ) -> (r: Result<NetrShareGetInfoResponse>)
        ensures
            r == Err::<NetrShareGetInfoResponse, ErrorCode>(ErrorCode(ERROR_FUNCTION_NOT_IMPLEMENTED)),
            final(self)@ == old(self)@,
    {
        Err(ErrorCode(ERROR_FUNCTION_NOT_IMPLEMENTED))
    }
}

} // verus!
