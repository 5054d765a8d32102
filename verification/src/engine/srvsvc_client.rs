//! SRVSVC client records: share information levels, the share records and
//! containers, the `NetrShareEnum` and `NetrShareGetInfo` requests and
//! replies, and their coders (whose NDR encoding is not provided).
use vstd::prelude::*;
use vstd::string::*;

use crate::engine::krb5::{decimal_digits, u32_to_decimal};

verus! {

/// SRVSVC interface UUID .
pub const SRVSVC_UUID: [u8; 16] = [
    0xc8, 0x4f, 0x32, 0x4b, 0x70, 0x16, 0xd3, 0x01, 0x12, 0x78, 0x5a, 0x47, 0xbf, 0x6e, 0xe1, 0x88,
];

/// SRVSVC interface major version.
pub const SRVSVC_INTERFACE_VERSION_MAJOR: u16 = 3;

/// SRVSVC interface minor version.
pub const SRVSVC_INTERFACE_VERSION_MINOR: u16 = 0;

/// Operation number for `NetrShareEnum`.
pub const SRVSVC_NETR_SHARE_ENUM: u16 = 0x0f;

/// Operation number for `NetrShareGetInfo`.
pub const SRVSVC_NETR_SHARE_GET_INFO: u16 = 0x10;

/// Share type for disk-tree shares.
pub const SHARE_TYPE_DISKTREE: u32 = 0;

/// Share type for print queues.
pub const SHARE_TYPE_PRINTQ: u32 = 1;

/// Share type for device shares.
pub const SHARE_TYPE_DEVICE: u32 = 2;

/// Share type for IPC shares.
pub const SHARE_TYPE_IPC: u32 = 3;

/// Share type flag for temporary shares.
pub const SHARE_TYPE_TEMPORARY: u32 = 0x4000_0000;

/// Share type flag for hidden shares.
pub const SHARE_TYPE_HIDDEN: u32 = 0x8000_0000;

/// Result type of the SRVSVC coders.
pub type SrvsvcResult<T> = Result<T, SrvsvcCodecError>;

/// Errors of the SRVSVC coders.
#[derive(Debug, Clone, Copy, PartialEq, Eq)]
pub enum SrvsvcCodecError {
    /// The NDR encoding is not provided.
    ProtocolLogicNotImplemented,
    /// The share information level is neither 0 nor 1.
    UnsupportedShareInfoLevel(u32),
}

impl SrvsvcCodecError {
    /// Returns the human-readable description of the error.
    pub fn message(&self) -> (r: String)
        ensures
            r@ == match self {
                SrvsvcCodecError::ProtocolLogicNotImplemented => "SRVSVC protocol encoding is not implemented"@,
                SrvsvcCodecError::UnsupportedShareInfoLevel(l) => "unsupported SRVSVC share information level "@
                    + decimal_digits(*l as nat),
            },
    {
        match self {
            SrvsvcCodecError::ProtocolLogicNotImplemented => String::from_str("SRVSVC protocol encoding is not implemented"),
            SrvsvcCodecError::UnsupportedShareInfoLevel(level) => {
                let d = u32_to_decimal(*level);
                String::from_str("unsupported SRVSVC share information level ").concat(d.as_str())
            },
        }
    }
}

/// Direction of a SRVSVC coder.
#[derive(Debug, Clone, Copy, PartialEq, Eq)]
pub enum SrvsvcCoderDirection {
    /// Encode into a payload.
    Encode,
    /// Decode from a payload.
    Decode,
}

/// Share information levels.
#[derive(Debug, Clone, Copy, PartialEq, Eq)]
pub enum ShareInfoLevel {
    /// `SHARE_INFO_0`: the share name.
    Level0,
    /// `SHARE_INFO_1`: the share name, type and remark.
    Level1,
}

impl ShareInfoLevel {
    /// Returns the numeric level.
    pub fn as_u32(self) -> (r: u32)
        ensures
            r == (match self {
                ShareInfoLevel::Level0 => 0u32,
                ShareInfoLevel::Level1 => 1u32,
            }),
    {
        match self {
            ShareInfoLevel::Level0 => 0,
            ShareInfoLevel::Level1 => 1,
        }
    }

    /// Converts a numeric level, refusing levels other than 0 and 1.
    pub fn try_from_u32(level: u32) -> (r: SrvsvcResult<Self>)
        ensures
            r == (if level == 0 {
                Ok::<ShareInfoLevel, SrvsvcCodecError>(ShareInfoLevel::Level0)
            } else if level == 1 {
                Ok(ShareInfoLevel::Level1)
            } else {
                Err(SrvsvcCodecError::UnsupportedShareInfoLevel(level))
            }),
    {
        match level {
            0 => Ok(ShareInfoLevel::Level0),
            1 => Ok(ShareInfoLevel::Level1),
            other => Err(SrvsvcCodecError::UnsupportedShareInfoLevel(other)),
        }
    }
}

/// Level 0 share information.
#[derive(Debug, Clone, PartialEq, Eq, Default)]
pub struct SrvsvcShareInfo0 {
    /// Share name.
    pub netname: Option<String>,
}

impl SrvsvcShareInfo0 {
    /// Creates level 0 share information.
    pub fn new(netname: &str) -> (r: Self)
        ensures
            r.netname matches Some(n) && n@ == netname@,
    {
        SrvsvcShareInfo0 { netname: Some(String::from_str(netname)) }
    }
}

/// Level 1 share information.
#[derive(Debug, Clone, PartialEq, Eq, Default)]
pub struct SrvsvcShareInfo1 {
    /// Share name.
    pub netname: Option<String>,
    /// Share type and share type flags.
    pub share_type: u32,
    /// Optional share remark.
    pub remark: Option<String>,
}

impl SrvsvcShareInfo1 {
    /// Creates level 1 share information.
    pub fn new(netname: &str, share_type: u32, remark: Option<String>) -> (r: Self)
        ensures
            r.netname matches Some(n) && n@ == netname@,
            r.share_type == share_type,
            r.remark == remark,
    {
        SrvsvcShareInfo1 { netname: Some(String::from_str(netname)), share_type, remark }
    }
}

/// Level 0 share entries.
#[derive(Debug, Clone, PartialEq, Eq, Default)]
pub struct SrvsvcShareInfo0Container {
    /// Number of entries read (the entry count, truncated to 32 bits).
    pub entries_read: u32,
    /// Level 0 share entries.
    pub share_info_0: Vec<SrvsvcShareInfo0>,
}

impl SrvsvcShareInfo0Container {
    /// Creates a level 0 container.
    pub fn new(share_info_0: Vec<SrvsvcShareInfo0>) -> (r: Self)
        ensures
            r.entries_read == share_info_0@.len() as u32,
            r.share_info_0@ == share_info_0@,
    {
        SrvsvcShareInfo0Container { entries_read: share_info_0.len() as u32, share_info_0 }
    }
}

/// Level 1 share entries.
#[derive(Debug, Clone, PartialEq, Eq, Default)]
pub struct SrvsvcShareInfo1Container {
    /// Number of entries read (the entry count, truncated to 32 bits).
    pub entries_read: u32,
    /// Level 1 share entries.
    pub share_info_1: Vec<SrvsvcShareInfo1>,
}

impl SrvsvcShareInfo1Container {
    /// Creates a level 1 container.
    pub fn new(share_info_1: Vec<SrvsvcShareInfo1>) -> (r: Self)
        ensures
            r.entries_read == share_info_1@.len() as u32,
            r.share_info_1@ == share_info_1@,
    {
        SrvsvcShareInfo1Container { entries_read: share_info_1.len() as u32, share_info_1 }
    }
}

/// Share enumeration payload by level.
#[derive(Debug, Clone, PartialEq, Eq)]
pub enum SrvsvcShareEnumUnion {
    /// Level 0 entries.
    Level0(SrvsvcShareInfo0Container),
    /// Level 1 entries.
    Level1(SrvsvcShareInfo1Container),
}

/// The level of an enumeration payload.
pub open spec fn enum_union_level(u: SrvsvcShareEnumUnion) -> ShareInfoLevel {
    match u {
        SrvsvcShareEnumUnion::Level0(_) => ShareInfoLevel::Level0,
        SrvsvcShareEnumUnion::Level1(_) => ShareInfoLevel::Level1,
    }
}

impl SrvsvcShareEnumUnion {
    /// Returns the level of this payload.
    pub fn level(&self) -> (r: ShareInfoLevel)
        ensures
            r == enum_union_level(*self),
    {
        match self {
            SrvsvcShareEnumUnion::Level0(_) => ShareInfoLevel::Level0,
            SrvsvcShareEnumUnion::Level1(_) => ShareInfoLevel::Level1,
        }
    }
}

impl Default for SrvsvcShareEnumUnion {
    fn default() -> (r: Self)
        ensures
            r matches SrvsvcShareEnumUnion::Level1(c) && c.entries_read == 0 && c.share_info_1@.len() == 0,
    {
        SrvsvcShareEnumUnion::Level1(SrvsvcShareInfo1Container { entries_read: 0, share_info_1: Vec::new() })
    }
}

/// Share enumeration selector.
#[derive(Debug, Clone, PartialEq, Eq, Default)]
pub struct SrvsvcShareEnumStruct {
    /// Share information payload.
    pub share_info: SrvsvcShareEnumUnion,
}

impl SrvsvcShareEnumStruct {
    /// Creates an empty enumeration payload of the requested level.
    pub fn for_level(level: ShareInfoLevel) -> (r: Self)
        ensures
            enum_union_level(r.share_info) == level,
            match r.share_info {
                SrvsvcShareEnumUnion::Level0(c) => c.entries_read == 0 && c.share_info_0@.len() == 0,
                SrvsvcShareEnumUnion::Level1(c) => c.entries_read == 0 && c.share_info_1@.len() == 0,
            },
    {
        let share_info = match level {
            ShareInfoLevel::Level0 => SrvsvcShareEnumUnion::Level0(
                SrvsvcShareInfo0Container { entries_read: 0, share_info_0: Vec::new() },
            ),
            ShareInfoLevel::Level1 => SrvsvcShareEnumUnion::Level1(
                SrvsvcShareInfo1Container { entries_read: 0, share_info_1: Vec::new() },
            ),
        };
        SrvsvcShareEnumStruct { share_info }
    }

    /// Returns the level of the payload.
    pub fn level(&self) -> (r: ShareInfoLevel)
        ensures
            r == enum_union_level(self.share_info),
    {
        self.share_info.level()
    }
}

/// `NetrShareEnum` request.
#[derive(Debug, Clone, PartialEq, Eq)]
pub struct SrvsvcNetrShareEnumReq {
    /// Optional target server name.
    pub server_name: Option<String>,
    /// Requested share information structure.
    pub share_enum: SrvsvcShareEnumStruct,
    /// Preferred maximum response length.
    pub preferred_maximum_length: u32,
    /// Optional resume handle.
    pub resume_handle: Option<u32>,
}

impl SrvsvcNetrShareEnumReq {
    /// Creates a `NetrShareEnum` request for a level: no server name, an
    /// empty payload of that level, no length limit, no resume handle.
    pub fn new(level: ShareInfoLevel) -> (r: Self)
        ensures
            r.server_name is None,
            enum_union_level(r.share_enum.share_info) == level,
            r.preferred_maximum_length == u32::MAX,
            r.resume_handle is None,
    {
        SrvsvcNetrShareEnumReq {
            server_name: None,
            share_enum: SrvsvcShareEnumStruct::for_level(level),
            preferred_maximum_length: u32::MAX,
            resume_handle: None,
        }
    }
}

/// `NetrShareEnum` reply.
#[derive(Debug, Clone, PartialEq, Eq, Default)]
pub struct SrvsvcNetrShareEnumRep {
    /// Share enumeration data.
    pub share_enum: SrvsvcShareEnumStruct,
    /// Total number of entries available on the server.
    pub total_entries: u32,
    /// Optional resume handle.
    pub resume_handle: Option<u32>,
    /// NET_API_STATUS value.
    pub status: u32,
}

impl SrvsvcNetrShareEnumRep {
    /// Returns whether the status is success.
    pub fn is_success(&self) -> (r: bool)
        ensures
            r == (self.status == 0),
    {
        self.status == 0
    }
}

/// Share information payload by level.
#[derive(Debug, Clone, PartialEq, Eq)]
pub enum SrvsvcShareInfo {
    /// Level 1 share information.
    Level1(SrvsvcShareInfo1),
}

impl SrvsvcShareInfo {
    /// Returns the level of this payload.
    pub fn level(&self) -> (r: ShareInfoLevel)
        ensures
            r == ShareInfoLevel::Level1,
    {
        match self {
            SrvsvcShareInfo::Level1(_) => ShareInfoLevel::Level1,
        }
    }
}

impl Default for SrvsvcShareInfo {
    fn default() -> (r: Self)
        ensures
            r matches SrvsvcShareInfo::Level1(i) && i.netname is None && i.share_type == 0 && i.remark is None,
    {
        SrvsvcShareInfo::Level1(SrvsvcShareInfo1 { netname: None, share_type: 0, remark: None })
    }
}

/// `NetrShareGetInfo` request.
#[derive(Debug, Clone, PartialEq, Eq)]
pub struct SrvsvcNetrShareGetInfoReq {
    /// Optional target server name.
    pub server_name: Option<String>,
    /// Share name to query.
    pub net_name: String,
    /// Requested share information level.
    pub level: ShareInfoLevel,
}

impl SrvsvcNetrShareGetInfoReq {
    /// Creates a `NetrShareGetInfo` request.
    pub fn new(net_name: &str, level: ShareInfoLevel) -> (r: Self)
        ensures
            r.server_name is None,
            r.net_name@ == net_name@,
            r.level == level,
    {
        SrvsvcNetrShareGetInfoReq { server_name: None, net_name: String::from_str(net_name), level }
    }
}

/// `NetrShareGetInfo` reply.
#[derive(Debug, Clone, PartialEq, Eq, Default)]
pub struct SrvsvcNetrShareGetInfoRep {
    /// Share information.
    pub info_struct: SrvsvcShareInfo,
    /// NET_API_STATUS value.
    pub status: u32,
}

impl SrvsvcNetrShareGetInfoRep {
    /// Returns whether the status is success.
    pub fn is_success(&self) -> (r: bool)
        ensures
            r == (self.status == 0),
    {
        self.status == 0
    }
}

/// Status-only SRVSVC reply.
#[derive(Debug, Clone, Copy, PartialEq, Eq, Default)]
pub struct SrvsvcRep {
    /// NET_API_STATUS value.
    pub status: u32,
}

impl SrvsvcRep {
    /// Returns whether the status is success.
    pub fn is_success(self) -> (r: bool)
        ensures
            r == (self.status == 0),
    {
        self.status == 0
    }
}

/// Codes level 0 share information; the NDR encoding is not provided, so this reports
/// `ProtocolLogicNotImplemented` and leaves the value alone.
pub fn srvsvc_share_info_0_coder(_direction: SrvsvcCoderDirection, _value: &mut SrvsvcShareInfo0) -> (r: SrvsvcResult<()>)
    ensures
        r == Err::<(), SrvsvcCodecError>(SrvsvcCodecError::ProtocolLogicNotImplemented),
        *final(_value) == *old(_value),
{
    Err(SrvsvcCodecError::ProtocolLogicNotImplemented)
}

/// Codes a level 0 container; the NDR encoding is not provided, so this reports
/// `ProtocolLogicNotImplemented` and leaves the value alone.
pub fn srvsvc_share_info_0_container_coder(_direction: SrvsvcCoderDirection, _value: &mut SrvsvcShareInfo0Container) -> (r: SrvsvcResult<()>)
    ensures
        r == Err::<(), SrvsvcCodecError>(SrvsvcCodecError::ProtocolLogicNotImplemented),
        *final(_value) == *old(_value),
{
    Err(SrvsvcCodecError::ProtocolLogicNotImplemented)
}

/// Codes level 1 share information; the NDR encoding is not provided, so this reports
/// `ProtocolLogicNotImplemented` and leaves the value alone.
pub fn srvsvc_share_info_1_coder(_direction: SrvsvcCoderDirection, _value: &mut SrvsvcShareInfo1) -> (r: SrvsvcResult<()>)
    ensures
        r == Err::<(), SrvsvcCodecError>(SrvsvcCodecError::ProtocolLogicNotImplemented),
        *final(_value) == *old(_value),
{
    Err(SrvsvcCodecError::ProtocolLogicNotImplemented)
}

/// Codes a level 1 container; the NDR encoding is not provided, so this reports
/// `ProtocolLogicNotImplemented` and leaves the value alone.
pub fn srvsvc_share_info_1_container_coder(_direction: SrvsvcCoderDirection, _value: &mut SrvsvcShareInfo1Container) -> (r: SrvsvcResult<()>)
    ensures
        r == Err::<(), SrvsvcCodecError>(SrvsvcCodecError::ProtocolLogicNotImplemented),
        *final(_value) == *old(_value),
{
    Err(SrvsvcCodecError::ProtocolLogicNotImplemented)
}

/// Codes an enumeration payload; the NDR encoding is not provided, so this reports
/// `ProtocolLogicNotImplemented` and leaves the value alone.
pub fn srvsvc_share_enum_union_coder(_direction: SrvsvcCoderDirection, _value: &mut SrvsvcShareEnumUnion) -> (r: SrvsvcResult<()>)
    ensures
        r == Err::<(), SrvsvcCodecError>(SrvsvcCodecError::ProtocolLogicNotImplemented),
        *final(_value) == *old(_value),
{
    Err(SrvsvcCodecError::ProtocolLogicNotImplemented)
}

/// Codes an enumeration selector; the NDR encoding is not provided, so this reports
/// `ProtocolLogicNotImplemented` and leaves the value alone.
pub fn srvsvc_share_enum_struct_coder(_direction: SrvsvcCoderDirection, _value: &mut SrvsvcShareEnumStruct) -> (r: SrvsvcResult<()>)
    ensures
        r == Err::<(), SrvsvcCodecError>(SrvsvcCodecError::ProtocolLogicNotImplemented),
        *final(_value) == *old(_value),
{
    Err(SrvsvcCodecError::ProtocolLogicNotImplemented)
}

/// Codes a `NetrShareEnum` request; the NDR encoding is not provided, so this reports
/// `ProtocolLogicNotImplemented` and leaves the value alone.
pub fn srvsvc_netr_share_enum_req_coder(_direction: SrvsvcCoderDirection, _value: &mut SrvsvcNetrShareEnumReq) -> (r: SrvsvcResult<()>)
    ensures
        r == Err::<(), SrvsvcCodecError>(SrvsvcCodecError::ProtocolLogicNotImplemented),
        *final(_value) == *old(_value),
{
    Err(SrvsvcCodecError::ProtocolLogicNotImplemented)
}

/// Codes a `NetrShareEnum` reply; the NDR encoding is not provided, so this reports
/// `ProtocolLogicNotImplemented` and leaves the value alone.
pub fn srvsvc_netr_share_enum_rep_coder(_direction: SrvsvcCoderDirection, _value: &mut SrvsvcNetrShareEnumRep) -> (r: SrvsvcResult<()>)
    ensures
        r == Err::<(), SrvsvcCodecError>(SrvsvcCodecError::ProtocolLogicNotImplemented),
        *final(_value) == *old(_value),
{
    Err(SrvsvcCodecError::ProtocolLogicNotImplemented)
}

/// Codes a share information payload; the NDR encoding is not provided, so this reports
/// `ProtocolLogicNotImplemented` and leaves the value alone.
pub fn srvsvc_share_info_coder(_direction: SrvsvcCoderDirection, _value: &mut SrvsvcShareInfo) -> (r: SrvsvcResult<()>)
    ensures
        r == Err::<(), SrvsvcCodecError>(SrvsvcCodecError::ProtocolLogicNotImplemented),
        *final(_value) == *old(_value),
{
    Err(SrvsvcCodecError::ProtocolLogicNotImplemented)
}

/// Codes a `NetrShareGetInfo` request; the NDR encoding is not provided, so this reports
/// `ProtocolLogicNotImplemented` and leaves the value alone.
pub fn srvsvc_netr_share_get_info_req_coder(_direction: SrvsvcCoderDirection, _value: &mut SrvsvcNetrShareGetInfoReq) -> (r: SrvsvcResult<()>)
    ensures
        r == Err::<(), SrvsvcCodecError>(SrvsvcCodecError::ProtocolLogicNotImplemented),
        *final(_value) == *old(_value),
{
    Err(SrvsvcCodecError::ProtocolLogicNotImplemented)
}

/// Codes a `NetrShareGetInfo` reply; the NDR encoding is not provided, so this reports
/// `ProtocolLogicNotImplemented` and leaves the value alone.
pub fn srvsvc_netr_share_get_info_rep_coder(_direction: SrvsvcCoderDirection, _value: &mut SrvsvcNetrShareGetInfoRep) -> (r: SrvsvcResult<()>)
    ensures
        r == Err::<(), SrvsvcCodecError>(SrvsvcCodecError::ProtocolLogicNotImplemented),
        *final(_value) == *old(_value),
{
    Err(SrvsvcCodecError::ProtocolLogicNotImplemented)
}

} // verus!
