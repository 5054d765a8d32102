//! LSA client records: SIDs, Unicode strings, SID and name buffers, the
//! object attributes and policy requests, and for each record the ordered
//! plan of fields its NDR coder walks.
use vstd::prelude::*;
use vstd::string::*;

use crate::text::{encode_utf16, utf16_encode};

verus! {

/// Identifier authority bytes used by NT SIDs.
pub const NT_SID_AUTHORITY: [u8; 6] = [0x00, 0x00, 0x00, 0x00, 0x00, 0x05];

/// LSA `Close` operation number.
pub const LSA_OPNUM_CLOSE: u16 = 0x00;

/// LSA `OpenPolicy2` operation number.
pub const LSA_OPNUM_OPEN_POLICY2: u16 = 0x2c;

/// LSA `LookupSids2` operation number.
pub const LSA_OPNUM_LOOKUP_SIDS2: u16 = 0x39;

/// Client revision sent by a `LookupSids2` request.
pub const LSA_LOOKUP_SIDS2_CLIENT_REVISION: u32 = 2;

/// Lookup options sent by a `LookupSids2` request.
pub const LSA_LOOKUP_SIDS2_LOOKUP_OPTIONS: u32 = 0;

/// Maximum count of LSA SID and translated-name arrays.
pub const LSA_MAX_ENUM_ENTRIES: u32 = 20_480;

/// Minimal UUID representation used by DCERPC syntax identifiers.
#[derive(Debug, Clone, Copy, PartialEq, Eq, Hash)]
pub struct Uuid {
    /// First 32 bits of the UUID.
    pub time_low: u32,
    /// Middle 16 bits of the UUID.
    pub time_mid: u16,
    /// Versioned high 16 bits of the UUID.
    pub time_hi_and_version: u16,
    /// Remaining clock sequence and node bytes.
    pub clock_seq_and_node: [u8; 8],
}

/// DCERPC presentation syntax identifier.
#[derive(Debug, Clone, Copy, PartialEq, Eq, Hash)]
pub struct SyntaxId {
    /// Interface UUID.
    pub uuid: Uuid,
    /// Major interface version.
    pub version_major: u16,
    /// Minor interface version.
    pub version_minor: u16,
}

/// The LSA interface UUID.
pub fn lsa_uuid() -> (r: Uuid)
    ensures
        r == (Uuid {
            time_low: 0x1234_5778,
            time_mid: 0x1234,
            time_hi_and_version: 0xabcd,
            clock_seq_and_node: [0xefu8, 0x00, 0x01, 0x23, 0x45, 0x67, 0x89, 0xab],
        }),
{
    Uuid {
        time_low: 0x1234_5778,
        time_mid: 0x1234,
        time_hi_and_version: 0xabcd,
        clock_seq_and_node: [0xef, 0x00, 0x01, 0x23, 0x45, 0x67, 0x89, 0xab],
    }
}

/// The LSA interface syntax: the LSA UUID, version 0.0.
pub fn lsa_interface() -> (r: SyntaxId)
    ensures
        r.version_major == 0,
        r.version_minor == 0,
        r.uuid.time_low == 0x1234_5778,
        r.uuid.time_mid == 0x1234,
        r.uuid.time_hi_and_version == 0xabcd,
{
    SyntaxId { uuid: lsa_uuid(), version_major: 0, version_minor: 0 }
}

/// NDR context handle used by LSA calls.
#[derive(Debug, Default, Clone, Copy, PartialEq, Eq, Hash)]
pub struct ContextHandle {
    /// Handle attributes field.
    pub attributes: u32,
    /// Handle UUID bytes.
    pub uuid: [u8; 16],
}

/// Security identifier (`RPC_SID`).
#[derive(Debug, Clone, PartialEq, Eq)]
pub struct RpcSid {
    /// SID revision.
    pub revision: u8,
    /// Six-byte identifier authority.
    pub identifier_authority: [u8; 6],
    /// Variable sub-authority list.
    pub sub_authority: Vec<u32>,
}

/// A length clamped to `max`.
pub open spec fn clamp(len: int, max: int) -> int {
    if len > max { max } else { len }
}

impl RpcSid {
    /// Creates a SID.
    pub fn new(revision: u8, identifier_authority: [u8; 6], sub_authority: Vec<u32>) -> (r: Self)
        ensures
            r.revision == revision,
            r.identifier_authority == identifier_authority,
            r.sub_authority@ == sub_authority@,
    {
        RpcSid { revision, identifier_authority, sub_authority }
    }

    /// Creates an NT-authority SID.
    pub fn nt_authority(revision: u8, sub_authority: Vec<u32>) -> (r: Self)
        ensures
            r.revision == revision,
            r.identifier_authority == NT_SID_AUTHORITY,
            r.sub_authority@ == sub_authority@,
    {
        RpcSid::new(revision, NT_SID_AUTHORITY, sub_authority)
    }

    /// Returns the sub-authority count, saturating at 255.
    pub fn sub_authority_count(&self) -> (r: u8)
        ensures
            r == clamp(self.sub_authority@.len() as int, 255),
    {
        len_to_u8_saturating(self.sub_authority.len())
    }

    /// The field plan of the `RPC_SID` coder.
    pub fn coder_plan(&self) -> (r: CoderPlan)
        ensures
            r.coder == CoderName::RpcSid,
            r.steps@ == seq![
                CoderStep::Uint3264Count(self.sub_authority@.len() as u64),
                CoderStep::Uint8("Revision"),
                CoderStep::Uint8("SubAuthorityCount"),
                CoderStep::FixedBytes("IdentifierAuthority", 6),
                CoderStep::Uint32Array("SubAuthority", self.sub_authority@.len() as usize),
            ],
    {
        let n = self.sub_authority.len();
        let r = CoderPlan::new(CoderName::RpcSid)
            .with_step(CoderStep::Uint3264Count(n as u64))
            .with_step(CoderStep::Uint8("Revision"))
            .with_step(CoderStep::Uint8("SubAuthorityCount"))
            .with_step(CoderStep::FixedBytes("IdentifierAuthority", 6))
            .with_step(CoderStep::Uint32Array("SubAuthority", n));
        assert(r.steps@ =~= seq![
            CoderStep::Uint3264Count(n as u64),
            CoderStep::Uint8("Revision"),
            CoderStep::Uint8("SubAuthorityCount"),
            CoderStep::FixedBytes("IdentifierAuthority", 6),
            CoderStep::Uint32Array("SubAuthority", n),
        ]);
        r
    }
}

/// Unicode string (`RPC_UNICODE_STRING`).
#[derive(Debug, Default, Clone, PartialEq, Eq)]
pub struct RpcUnicodeString {
    /// The text.
    pub value: String,
}

/// The byte length of a text in UTF-16, saturating at `u16::MAX`.
pub open spec fn utf16_byte_len(s: Seq<char>) -> u16 {
    clamp((encode_utf16(s).len() * 2) as int, 0xffff) as u16
}

/// The `MaximumLength` of a string with `len` bytes: two more when bit 1
/// of the length is set, saturating.
pub open spec fn maximum_length(len: u16) -> u16 {
    if len & 2 != 0 { clamp(len + 2, 0xffff) as u16 } else { len }
}

impl RpcUnicodeString {
    /// Creates a Unicode string from text.
    pub fn new(value: &str) -> (r: Self)
        ensures
            r.value@ == value@,
    {
        RpcUnicodeString { value: String::from_str(value) }
    }

    /// Returns the `Length` value: the UTF-16 byte length, saturating.
    pub fn length_bytes(&self) -> (r: u16)
        ensures
            r == utf16_byte_len(self.value@),
    {
        utf16_len_bytes_saturating(self.value.as_str())
    }

    /// Returns the `MaximumLength` value.
    pub fn maximum_length_bytes(&self) -> (r: u16)
        ensures
            r == maximum_length(utf16_byte_len(self.value@)),
    {
        let len = self.length_bytes();
        if len & 0x02 != 0 {
            if len > 0xffff - 2 {
                0xffff
            } else {
                len + 2
            }
        } else {
            len
        }
    }

    /// The field plan of the `RPC_UNICODE_STRING` coder.
    pub fn coder_plan(&self) -> (r: CoderPlan)
        ensures
            r.coder == CoderName::RpcUnicodeString,
            r.steps@ == seq![
                CoderStep::Align3264,
                CoderStep::Uint16("Length"),
                CoderStep::Uint16("MaximumLength"),
                CoderStep::Pointer { field: "Buffer", kind: PointerKind::Unique, coder: CoderName::Utf16 },
            ],
    {
        let r = CoderPlan::new(CoderName::RpcUnicodeString)
            .with_step(CoderStep::Align3264)
            .with_step(CoderStep::Uint16("Length"))
            .with_step(CoderStep::Uint16("MaximumLength"))
            .with_step(CoderStep::Pointer { field: "Buffer", kind: PointerKind::Unique, coder: CoderName::Utf16 });
        assert(r.steps@ =~= seq![
            CoderStep::Align3264,
            CoderStep::Uint16("Length"),
            CoderStep::Uint16("MaximumLength"),
            CoderStep::Pointer { field: "Buffer", kind: PointerKind::Unique, coder: CoderName::Utf16 },
        ]);
        r
    }
}

/// SID buffer of a `LookupSids2` request (`LSAPR_SID_ENUM_BUFFER`).
#[derive(Debug, Default, Clone, PartialEq, Eq)]
pub struct LsaprSidEnumBuffer {
    /// SIDs to look up.
    pub sid_info: Vec<RpcSid>,
}

impl LsaprSidEnumBuffer {
    /// Creates a SID buffer.
    pub fn new(sid_info: Vec<RpcSid>) -> (r: Self)
        ensures
            r.sid_info@ == sid_info@,
    {
        LsaprSidEnumBuffer { sid_info }
    }

    /// Returns the `Entries` value, saturating at `u32::MAX`.
    pub fn entries(&self) -> (r: u32)
        ensures
            r == clamp(self.sid_info@.len() as int, 0xffff_ffff),
    {
        len_to_u32_saturating(self.sid_info.len())
    }

    /// The field plan of the SID buffer coder.
    pub fn coder_plan(&self) -> (r: CoderPlan)
        ensures
            r.coder == CoderName::SidEnumBuffer,
            r.steps@ == seq![
                CoderStep::Uint32("Entries"),
                CoderStep::Pointer { field: "SidInfo", kind: PointerKind::Unique, coder: CoderName::PrpcSidArray },
            ],
    {
        let r = CoderPlan::new(CoderName::SidEnumBuffer)
            .with_step(CoderStep::Uint32("Entries"))
            .with_step(CoderStep::Pointer { field: "SidInfo", kind: PointerKind::Unique, coder: CoderName::PrpcSidArray });
        assert(r.steps@ =~= seq![
            CoderStep::Uint32("Entries"),
            CoderStep::Pointer { field: "SidInfo", kind: PointerKind::Unique, coder: CoderName::PrpcSidArray },
        ]);
        r
    }
}

/// `SidTypeUser` of the `SID_NAME_USE` enumeration.
pub const SID_TYPE_USER: u32 = 1;

/// `SidTypeGroup` of the `SID_NAME_USE` enumeration.
pub const SID_TYPE_GROUP: u32 = 2;

/// `SidTypeDomain` of the `SID_NAME_USE` enumeration.
pub const SID_TYPE_DOMAIN: u32 = 3;

/// `SidTypeAlias` of the `SID_NAME_USE` enumeration.
pub const SID_TYPE_ALIAS: u32 = 4;

/// `SidTypeWellKnownGroup` of the `SID_NAME_USE` enumeration.
pub const SID_TYPE_WELL_KNOWN_GROUP: u32 = 5;

/// `SidTypeDeletedAccount` of the `SID_NAME_USE` enumeration.
pub const SID_TYPE_DELETED_ACCOUNT: u32 = 6;

/// `SidTypeInvalid` of the `SID_NAME_USE` enumeration.
pub const SID_TYPE_INVALID: u32 = 7;

/// `SidTypeUnknown` of the `SID_NAME_USE` enumeration.
pub const SID_TYPE_UNKNOWN: u32 = 8;

/// `SidTypeComputer` of the `SID_NAME_USE` enumeration.
pub const SID_TYPE_COMPUTER: u32 = 9;

/// `SidTypeLabel` of the `SID_NAME_USE` enumeration.
pub const SID_TYPE_LABEL: u32 = 10;

/// SID name-use classification of a translated name.
#[derive(Debug, Clone, Copy, PartialEq, Eq)]
pub enum SidNameUse {
    /// User SID (1).
    User,
    /// Group SID (2).
    Group,
    /// Domain SID (3).
    Domain,
    /// Alias SID (4).
    Alias,
    /// Well-known group SID (5).
    WellKnownGroup,
    /// Deleted account SID (6).
    DeletedAccount,
    /// Invalid SID (7).
    Invalid,
    /// Unknown SID type (8).
    Unknown,
    /// Computer SID (9).
    Computer,
    /// Label SID (10).
    Label,
    /// Any other value.
    Other(u32),
}

impl Default for SidNameUse {
    fn default() -> (r: Self)
        ensures
            r == SidNameUse::Unknown,
    {
        SidNameUse::Unknown
    }
}

/// The name-use of a wire value.
pub open spec fn sid_name_use_of(v: u32) -> SidNameUse {
    if v == 1 {
        SidNameUse::User
    } else if v == 2 {
        SidNameUse::Group
    } else if v == 3 {
        SidNameUse::Domain
    } else if v == 4 {
        SidNameUse::Alias
    } else if v == 5 {
        SidNameUse::WellKnownGroup
    } else if v == 6 {
        SidNameUse::DeletedAccount
    } else if v == 7 {
        SidNameUse::Invalid
    } else if v == 8 {
        SidNameUse::Unknown
    } else if v == 9 {
        SidNameUse::Computer
    } else if v == 10 {
        SidNameUse::Label
    } else {
        SidNameUse::Other(v)
    }
}

/// The wire value of a name-use.
pub open spec fn sid_name_use_raw(u: SidNameUse) -> u32 {
    match u {
        SidNameUse::User => 1,
        SidNameUse::Group => 2,
        SidNameUse::Domain => 3,
        SidNameUse::Alias => 4,
        SidNameUse::WellKnownGroup => 5,
        SidNameUse::DeletedAccount => 6,
        SidNameUse::Invalid => 7,
        SidNameUse::Unknown => 8,
        SidNameUse::Computer => 9,
        SidNameUse::Label => 10,
        SidNameUse::Other(v) => v,
    }
}

impl SidNameUse {
    /// Converts a wire value into a name-use.
    pub fn from_raw(value: u32) -> (r: Self)
        ensures
            r == sid_name_use_of(value),
    {
        match value {
            1 => SidNameUse::User,
            2 => SidNameUse::Group,
            3 => SidNameUse::Domain,
            4 => SidNameUse::Alias,
            5 => SidNameUse::WellKnownGroup,
            6 => SidNameUse::DeletedAccount,
            7 => SidNameUse::Invalid,
            8 => SidNameUse::Unknown,
            9 => SidNameUse::Computer,
            10 => SidNameUse::Label,
            other => SidNameUse::Other(other),
        }
    }

    /// Converts a name-use into its wire value.
    pub fn as_raw(self) -> (r: u32)
        ensures
            r == sid_name_use_raw(self),
    {
        match self {
            SidNameUse::User => 1,
            SidNameUse::Group => 2,
            SidNameUse::Domain => 3,
            SidNameUse::Alias => 4,
            SidNameUse::WellKnownGroup => 5,
            SidNameUse::DeletedAccount => 6,
            SidNameUse::Invalid => 7,
            SidNameUse::Unknown => 8,
            SidNameUse::Computer => 9,
            SidNameUse::Label => 10,
            SidNameUse::Other(other) => other,
        }
    }
}

/// A wire value survives the trip through [`SidNameUse`]; a name-use
/// survives the trip through its wire value unless it is an `Other` holding
/// one of the named values 1 to 10.
pub proof fn lemma_sid_name_use_round_trip(v: u32, u: SidNameUse)
    ensures
        sid_name_use_raw(sid_name_use_of(v)) == v,
        !(u matches SidNameUse::Other(x) && 1 <= x <= 10) ==> sid_name_use_of(sid_name_use_raw(u)) == u,
{
}

/// Each `SID_NAME_USE` wire value decodes to the name-use it stands for,
/// and each name-use encodes to its wire value; any value outside the
/// enumeration is kept as `Other`.
pub proof fn lemma_sid_name_use_wire_values(v: u32)
    ensures
        sid_name_use_of(SID_TYPE_USER) == SidNameUse::User,
        sid_name_use_of(SID_TYPE_GROUP) == SidNameUse::Group,
        sid_name_use_of(SID_TYPE_DOMAIN) == SidNameUse::Domain,
        sid_name_use_of(SID_TYPE_ALIAS) == SidNameUse::Alias,
        sid_name_use_of(SID_TYPE_WELL_KNOWN_GROUP) == SidNameUse::WellKnownGroup,
        sid_name_use_of(SID_TYPE_DELETED_ACCOUNT) == SidNameUse::DeletedAccount,
        sid_name_use_of(SID_TYPE_INVALID) == SidNameUse::Invalid,
        sid_name_use_of(SID_TYPE_UNKNOWN) == SidNameUse::Unknown,
        sid_name_use_of(SID_TYPE_COMPUTER) == SidNameUse::Computer,
        sid_name_use_of(SID_TYPE_LABEL) == SidNameUse::Label,
        sid_name_use_raw(SidNameUse::User) == SID_TYPE_USER,
        sid_name_use_raw(SidNameUse::Group) == SID_TYPE_GROUP,
        sid_name_use_raw(SidNameUse::Domain) == SID_TYPE_DOMAIN,
        sid_name_use_raw(SidNameUse::Alias) == SID_TYPE_ALIAS,
        sid_name_use_raw(SidNameUse::WellKnownGroup) == SID_TYPE_WELL_KNOWN_GROUP,
        sid_name_use_raw(SidNameUse::DeletedAccount) == SID_TYPE_DELETED_ACCOUNT,
        sid_name_use_raw(SidNameUse::Invalid) == SID_TYPE_INVALID,
        sid_name_use_raw(SidNameUse::Unknown) == SID_TYPE_UNKNOWN,
        sid_name_use_raw(SidNameUse::Computer) == SID_TYPE_COMPUTER,
        sid_name_use_raw(SidNameUse::Label) == SID_TYPE_LABEL,
        !(SID_TYPE_USER <= v <= SID_TYPE_LABEL) ==> sid_name_use_of(v) == SidNameUse::Other(v),
{
}

/// Translated account name (`LSAPR_TRANSLATED_NAME_EX`).
#[derive(Debug, Default, Clone, PartialEq, Eq)]
pub struct LsaprTranslatedNameEx {
    /// SID name-use classification.
    pub use_kind: SidNameUse,
    /// Translated account name.
    pub name: RpcUnicodeString,
    /// Referenced domain index.
    pub domain_index: u32,
    /// Translation flags.
    pub flags: u32,
}

impl LsaprTranslatedNameEx {
    /// The field plan of the translated-name coder.
    pub fn coder_plan(&self) -> (r: CoderPlan)
        ensures
            r.coder == CoderName::TranslatedNameEx,
            r.steps@ == seq![
                CoderStep::Uint32("Use"),
                CoderStep::Nested(CoderName::RpcUnicodeString),
                CoderStep::Uint32("DomainIndex"),
                CoderStep::Uint32("Flags"),
            ],
    {
        let r = CoderPlan::new(CoderName::TranslatedNameEx)
            .with_step(CoderStep::Uint32("Use"))
            .with_step(CoderStep::Nested(CoderName::RpcUnicodeString))
            .with_step(CoderStep::Uint32("DomainIndex"))
            .with_step(CoderStep::Uint32("Flags"));
        assert(r.steps@ =~= seq![
            CoderStep::Uint32("Use"),
            CoderStep::Nested(CoderName::RpcUnicodeString),
            CoderStep::Uint32("DomainIndex"),
            CoderStep::Uint32("Flags"),
        ]);
        r
    }
}

/// Translated names (`LSAPR_TRANSLATED_NAMES_EX`).
#[derive(Debug, Default, Clone, PartialEq, Eq)]
pub struct LsaprTranslatedNamesEx {
    /// Translated-name array.
    pub names: Vec<LsaprTranslatedNameEx>,
}

impl LsaprTranslatedNamesEx {
    /// Creates a translated-names buffer.
    pub fn new(names: Vec<LsaprTranslatedNameEx>) -> (r: Self)
        ensures
            r.names@ == names@,
    {
        LsaprTranslatedNamesEx { names }
    }

    /// Returns the `Entries` value, saturating at `u32::MAX`.
    pub fn entries(&self) -> (r: u32)
        ensures
            r == clamp(self.names@.len() as int, 0xffff_ffff),
    {
        len_to_u32_saturating(self.names.len())
    }

    /// The field plan of the translated-names coder.
    pub fn coder_plan(&self) -> (r: CoderPlan)
        ensures
            r.coder == CoderName::TranslatedNamesEx,
            r.steps@ == seq![
                CoderStep::Uint32("Entries"),
                CoderStep::Pointer { field: "Names", kind: PointerKind::Unique, coder: CoderName::TranslatedNameArray },
            ],
    {
        let r = CoderPlan::new(CoderName::TranslatedNamesEx)
            .with_step(CoderStep::Uint32("Entries"))
            .with_step(CoderStep::Pointer { field: "Names", kind: PointerKind::Unique, coder: CoderName::TranslatedNameArray });
        assert(r.steps@ =~= seq![
            CoderStep::Uint32("Entries"),
            CoderStep::Pointer { field: "Names", kind: PointerKind::Unique, coder: CoderName::TranslatedNameArray },
        ]);
        r
    }
}

/// Object attributes of an `OpenPolicy2` request.
#[derive(Debug, Default, Clone, Copy, PartialEq, Eq)]
pub struct LsaprObjectAttributes {
    /// Object attribute length.
    pub length: u32,
    /// Attribute bitset.
    pub attributes: u32,
}

impl LsaprObjectAttributes {
    /// The empty attributes `OpenPolicy2` sends: length 24, no attributes.
    pub fn empty_for_open_policy2() -> (r: Self)
        ensures
            r.length == 24,
            r.attributes == 0,
    {
        LsaprObjectAttributes { length: 24, attributes: 0 }
    }

    /// The field plan of the object-attributes coder.
    pub fn coder_plan(&self) -> (r: CoderPlan)
        ensures
            r.coder == CoderName::ObjectAttributes,
            r.steps@ == seq![
                CoderStep::Uint32("Length"),
                CoderStep::Uint3264("RootDirectory"),
                CoderStep::Uint3264("ObjectName"),
                CoderStep::Uint32("Attributes"),
                CoderStep::Uint3264("SecurityDescriptor"),
                CoderStep::Uint3264("SecurityQualityOfService"),
            ],
    {
        let r = CoderPlan::new(CoderName::ObjectAttributes)
            .with_step(CoderStep::Uint32("Length"))
            .with_step(CoderStep::Uint3264("RootDirectory"))
            .with_step(CoderStep::Uint3264("ObjectName"))
            .with_step(CoderStep::Uint32("Attributes"))
            .with_step(CoderStep::Uint3264("SecurityDescriptor"))
            .with_step(CoderStep::Uint3264("SecurityQualityOfService"));
        assert(r.steps@ =~= seq![
            CoderStep::Uint32("Length"),
            CoderStep::Uint3264("RootDirectory"),
            CoderStep::Uint3264("ObjectName"),
            CoderStep::Uint32("Attributes"),
            CoderStep::Uint3264("SecurityDescriptor"),
            CoderStep::Uint3264("SecurityQualityOfService"),
        ]);
        r
    }
}

/// LSA `Close` request.
#[derive(Debug, Default, Clone, Copy, PartialEq, Eq)]
pub struct LsaCloseRequest {
    /// Policy context handle to close.
    pub policy_handle: ContextHandle,
}

/// LSA `Close` reply.
#[derive(Debug, Default, Clone, Copy, PartialEq, Eq)]
pub struct LsaCloseReply {
    /// Returned policy context handle.
    pub policy_handle: ContextHandle,
    /// NTSTATUS result.
    pub status: u32,
}

/// LSA `OpenPolicy2` request.
#[derive(Debug, Clone, PartialEq, Eq)]
pub struct LsaOpenPolicy2Request {
    /// Optional remote system name.
    pub system_name: Option<RpcUnicodeString>,
    /// Object attributes passed by reference.
    pub object_attributes: LsaprObjectAttributes,
    /// Desired policy access mask.
    pub desired_access: u32,
}

impl LsaOpenPolicy2Request {
    /// Creates an `OpenPolicy2` request for the given access mask.
    pub fn new(desired_access: u32) -> (r: Self)
        ensures
            r.system_name is None,
            r.object_attributes == (LsaprObjectAttributes { length: 24, attributes: 0 }),
            r.desired_access == desired_access,
    {
        LsaOpenPolicy2Request {
            system_name: None,
            object_attributes: LsaprObjectAttributes::empty_for_open_policy2(),
            desired_access,
        }
    }

    /// The field plan of the `OpenPolicy2` request coder.
    pub fn coder_plan(&self) -> (r: CoderPlan)
        ensures
            r.coder == CoderName::OpenPolicy2Request,
            r.steps@ == seq![
                CoderStep::Pointer { field: "SystemName", kind: PointerKind::Unique, coder: CoderName::Utf16z },
                CoderStep::Pointer { field: "ObjectAttributes", kind: PointerKind::Ref, coder: CoderName::ObjectAttributes },
                CoderStep::Uint32("DesiredAccess"),
            ],
    {
        let r = CoderPlan::new(CoderName::OpenPolicy2Request)
            .with_step(CoderStep::Pointer { field: "SystemName", kind: PointerKind::Unique, coder: CoderName::Utf16z })
            .with_step(CoderStep::Pointer { field: "ObjectAttributes", kind: PointerKind::Ref, coder: CoderName::ObjectAttributes })
            .with_step(CoderStep::Uint32("DesiredAccess"));
        assert(r.steps@ =~= seq![
            CoderStep::Pointer { field: "SystemName", kind: PointerKind::Unique, coder: CoderName::Utf16z },
            CoderStep::Pointer { field: "ObjectAttributes", kind: PointerKind::Ref, coder: CoderName::ObjectAttributes },
            CoderStep::Uint32("DesiredAccess"),
        ]);
        r
    }
}

/// LSA `OpenPolicy2` reply.
#[derive(Debug, Default, Clone, Copy, PartialEq, Eq)]
pub struct LsaOpenPolicy2Reply {
    /// Returned policy context handle.
    pub policy_handle: ContextHandle,
    /// NTSTATUS result.
    pub status: u32,
}

/// Trust information entry (`LSAPR_TRUST_INFORMATION`).
#[derive(Debug, Default, Clone, PartialEq, Eq)]
pub struct LsaprTrustInformation {
    /// Domain name.
    pub name: RpcUnicodeString,
    /// Optional domain SID.
    pub sid: Option<RpcSid>,
}

/// Referenced domains (`LSAPR_REFERENCED_DOMAIN_LIST`).
#[derive(Debug, Default, Clone, PartialEq, Eq)]
pub struct LsaprReferencedDomainList {
    /// Referenced domains.
    pub domains: Vec<LsaprTrustInformation>,
    /// Maximum entries field as received.
    pub max_entries: u32,
}

impl LsaprReferencedDomainList {
    /// Returns the `Entries` value, saturating at `u32::MAX`.
    pub fn entries(&self) -> (r: u32)
        ensures
            r == clamp(self.domains@.len() as int, 0xffff_ffff),
    {
        len_to_u32_saturating(self.domains.len())
    }

    /// The field plan of the referenced-domain-list coder.
    pub fn coder_plan(&self) -> (r: CoderPlan)
        ensures
            r.coder == CoderName::ReferencedDomainList,
            r.steps@ == seq![
                CoderStep::Uint32("Entries"),
                CoderStep::Pointer { field: "Domains", kind: PointerKind::Unique, coder: CoderName::ReferencedDomainArray },
                CoderStep::Uint32("MaxEntries"),
            ],
    {
        let r = CoderPlan::new(CoderName::ReferencedDomainList)
            .with_step(CoderStep::Uint32("Entries"))
            .with_step(CoderStep::Pointer { field: "Domains", kind: PointerKind::Unique, coder: CoderName::ReferencedDomainArray })
            .with_step(CoderStep::Uint32("MaxEntries"));
        assert(r.steps@ =~= seq![
            CoderStep::Uint32("Entries"),
            CoderStep::Pointer { field: "Domains", kind: PointerKind::Unique, coder: CoderName::ReferencedDomainArray },
            CoderStep::Uint32("MaxEntries"),
        ]);
        r
    }
}

/// Lookup levels of `LsarLookupSids2`.
#[derive(Debug, Clone, Copy, PartialEq, Eq)]
pub enum LsapLookupLevel {
    /// Translate isolated names (1).
    Wksta,
    /// Translate names from a primary domain context (2).
    Pdc,
    /// Translate names from a trusted-domain context (3).
    Tdl,
    /// Translate names with global-catalog semantics (4).
    Gc,
    /// Translate names from a cross-forest referral context (5).
    XForestReferral,
    /// Translate names from a cross-forest resolve context (6).
    XForestResolve,
    /// Translate names from a read-only domain controller referral (7).
    RodcReferral,
}

impl Default for LsapLookupLevel {
    fn default() -> (r: Self)
        ensures
            r == LsapLookupLevel::Wksta,
    {
        LsapLookupLevel::Wksta
    }
}

impl LsapLookupLevel {
    /// Returns the wire value of the lookup level.
    pub fn value(self) -> (r: u32)
        ensures
            r == match self {
                LsapLookupLevel::Wksta => 1u32,
                LsapLookupLevel::Pdc => 2u32,
                LsapLookupLevel::Tdl => 3u32,
                LsapLookupLevel::Gc => 4u32,
                LsapLookupLevel::XForestReferral => 5u32,
                LsapLookupLevel::XForestResolve => 6u32,
                LsapLookupLevel::RodcReferral => 7u32,
            },
    {
        match self {
            LsapLookupLevel::Wksta => 1,
            LsapLookupLevel::Pdc => 2,
            LsapLookupLevel::Tdl => 3,
            LsapLookupLevel::Gc => 4,
            LsapLookupLevel::XForestReferral => 5,
            LsapLookupLevel::XForestResolve => 6,
            LsapLookupLevel::RodcReferral => 7,
        }
    }
}

/// LSA `LookupSids2` request.
#[derive(Debug, Default, Clone, PartialEq, Eq)]
pub struct LsaLookupSids2Request {
    /// Policy context handle.
    pub policy_handle: ContextHandle,
    /// SID enum buffer passed by reference.
    pub sid_enum_buffer: LsaprSidEnumBuffer,
    /// Translated names passed in/out by reference.
    pub translated_names: LsaprTranslatedNamesEx,
    /// Lookup level.
    pub lookup_level: LsapLookupLevel,
    /// Mapped-count input value.
    pub mapped_count: u32,
    /// Lookup options.
    pub lookup_options: u32,
    /// Client revision.
    pub client_revision: u32,
}

impl LsaLookupSids2Request {
    /// Creates a `LookupSids2` request with no translated names, mapped
    /// count 0, lookup options 0 and client revision 2.
    pub fn new(policy_handle: ContextHandle, sid_enum_buffer: LsaprSidEnumBuffer, lookup_level: LsapLookupLevel) -> (r: Self)
        ensures
            r.policy_handle == policy_handle,
            r.sid_enum_buffer.sid_info@ == sid_enum_buffer.sid_info@,
            r.translated_names.names@.len() == 0,
            r.lookup_level == lookup_level,
            r.mapped_count == 0,
            r.lookup_options == LSA_LOOKUP_SIDS2_LOOKUP_OPTIONS,
            r.client_revision == LSA_LOOKUP_SIDS2_CLIENT_REVISION,
    {
        LsaLookupSids2Request {
            policy_handle,
            sid_enum_buffer,
            translated_names: LsaprTranslatedNamesEx { names: Vec::new() },
            lookup_level,
            mapped_count: 0,
            lookup_options: LSA_LOOKUP_SIDS2_LOOKUP_OPTIONS,
            client_revision: LSA_LOOKUP_SIDS2_CLIENT_REVISION,
        }
    }

    /// The field plan of the `LookupSids2` request coder.
    pub fn coder_plan(&self) -> (r: CoderPlan)
        ensures
            r.coder == CoderName::LookupSids2Request,
            r.steps@ == seq![
                CoderStep::Pointer { field: "PolicyHandle", kind: PointerKind::Ref, coder: CoderName::ContextHandle },
                CoderStep::Pointer { field: "SidEnumBuffer", kind: PointerKind::Ref, coder: CoderName::SidEnumBuffer },
                CoderStep::Pointer { field: "TranslatedNames", kind: PointerKind::Ref, coder: CoderName::TranslatedNamesEx },
                CoderStep::Uint32("LookupLevel"),
                CoderStep::Uint32("MappedCount"),
                CoderStep::Uint32("LookupOptions"),
                CoderStep::Uint32("ClientRevision"),
            ],
    {
        let r = CoderPlan::new(CoderName::LookupSids2Request)
            .with_step(CoderStep::Pointer { field: "PolicyHandle", kind: PointerKind::Ref, coder: CoderName::ContextHandle })
            .with_step(CoderStep::Pointer { field: "SidEnumBuffer", kind: PointerKind::Ref, coder: CoderName::SidEnumBuffer })
            .with_step(CoderStep::Pointer { field: "TranslatedNames", kind: PointerKind::Ref, coder: CoderName::TranslatedNamesEx })
            .with_step(CoderStep::Uint32("LookupLevel"))
            .with_step(CoderStep::Uint32("MappedCount"))
            .with_step(CoderStep::Uint32("LookupOptions"))
            .with_step(CoderStep::Uint32("ClientRevision"));
        assert(r.steps@ =~= seq![
            CoderStep::Pointer { field: "PolicyHandle", kind: PointerKind::Ref, coder: CoderName::ContextHandle },
            CoderStep::Pointer { field: "SidEnumBuffer", kind: PointerKind::Ref, coder: CoderName::SidEnumBuffer },
            CoderStep::Pointer { field: "TranslatedNames", kind: PointerKind::Ref, coder: CoderName::TranslatedNamesEx },
            CoderStep::Uint32("LookupLevel"),
            CoderStep::Uint32("MappedCount"),
            CoderStep::Uint32("LookupOptions"),
            CoderStep::Uint32("ClientRevision"),
        ]);
        r
    }
}

/// LSA `LookupSids2` reply.
#[derive(Debug, Default, Clone, PartialEq, Eq)]
pub struct LsaLookupSids2Reply {
    /// Optional referenced-domain list.
    pub referenced_domains: Option<LsaprReferencedDomainList>,
    /// Translated names returned by reference.
    pub translated_names: LsaprTranslatedNamesEx,
    /// Mapped SID count.
    pub mapped_count: u32,
    /// NTSTATUS result.
    pub status: u32,
}

impl LsaLookupSids2Reply {
    /// The field plan of the `LookupSids2` reply coder.
    pub fn coder_plan(&self) -> (r: CoderPlan)
        ensures
            r.coder == CoderName::LookupSids2Reply,
            r.steps@ == seq![
                CoderStep::Pointer { field: "ReferencedDomains", kind: PointerKind::Unique, coder: CoderName::ReferencedDomainList },
                CoderStep::Pointer { field: "TranslatedNames", kind: PointerKind::Ref, coder: CoderName::TranslatedNamesEx },
                CoderStep::Uint32("MappedCount"),
                CoderStep::Uint32("Status"),
            ],
    {
        let r = CoderPlan::new(CoderName::LookupSids2Reply)
            .with_step(CoderStep::Pointer { field: "ReferencedDomains", kind: PointerKind::Unique, coder: CoderName::ReferencedDomainList })
            .with_step(CoderStep::Pointer { field: "TranslatedNames", kind: PointerKind::Ref, coder: CoderName::TranslatedNamesEx })
            .with_step(CoderStep::Uint32("MappedCount"))
            .with_step(CoderStep::Uint32("Status"));
        assert(r.steps@ =~= seq![
            CoderStep::Pointer { field: "ReferencedDomains", kind: PointerKind::Unique, coder: CoderName::ReferencedDomainList },
            CoderStep::Pointer { field: "TranslatedNames", kind: PointerKind::Ref, coder: CoderName::TranslatedNamesEx },
            CoderStep::Uint32("MappedCount"),
            CoderStep::Uint32("Status"),
        ]);
        r
    }
}

/// DCE/RPC pointer flavor of a plan step.
#[derive(Debug, Clone, Copy, PartialEq, Eq)]
pub enum PointerKind {
    /// Non-null reference pointer.
    Ref,
    /// Nullable unique pointer.
    Unique,
}

/// Coders named by plan steps.
#[derive(Debug, Clone, Copy, PartialEq, Eq)]
pub enum CoderName {
    /// `dcerpc_context_handle_coder`.
    ContextHandle,
    /// `dcerpc_utf16_coder`.
    Utf16,
    /// `dcerpc_utf16z_coder`.
    Utf16z,
    /// `lsa_RPC_SID_coder`.
    RpcSid,
    /// `lsa_PRPC_SID_array_coder`.
    PrpcSidArray,
    /// `lsa_SID_ENUM_BUFFER_coder`.
    SidEnumBuffer,
    /// `lsa_RPC_UNICODE_STRING_coder`.
    RpcUnicodeString,
    /// `lsa_TRANSLATED_NAME_EX_coder`.
    TranslatedNameEx,
    /// `TN_array_coder`.
    TranslatedNameArray,
    /// `lsa_TRANSLATED_NAMES_EX_coder`.
    TranslatedNamesEx,
    /// `lsa_ObjectAttributes_coder`.
    ObjectAttributes,
    /// `lsa_OpenPolicy2_req_coder`.
    OpenPolicy2Request,
    /// `lsa_TRUST_INFORMATION_coder`.
    TrustInformation,
    /// `RDL_DOMAINS_array_coder`.
    ReferencedDomainArray,
    /// `lsa_REFERENCED_DOMAIN_LIST_coder`.
    ReferencedDomainList,
    /// `lsa_LookupSids2_req_coder`.
    LookupSids2Request,
    /// `lsa_LookupSids2_rep_coder`.
    LookupSids2Reply,
}

/// One field-level action of an NDR coder.
#[derive(Debug, Clone, Copy, PartialEq, Eq)]
pub enum CoderStep {
    /// Align to the 32/64-bit boundary.
    Align3264,
    /// Encode or decode an unsigned 8-bit field.
    Uint8(&'static str),
    /// Encode or decode an unsigned 16-bit field.
    Uint16(&'static str),
    /// Encode or decode an unsigned 32-bit field.
    Uint32(&'static str),
    /// Encode or decode an unsigned pointer-sized scalar field.
    Uint3264(&'static str),
    /// Encode or decode a conformance count.
    Uint3264Count(u64),
    /// Encode or decode fixed-size bytes.
    FixedBytes(&'static str, usize),
    /// Encode or decode an array of `u32` values.
    Uint32Array(&'static str, usize),
    /// Delegate to another coder without pointer wrapping.
    Nested(CoderName),
    /// Delegate to another coder through a DCERPC pointer wrapper.
    Pointer {
        /// Field being wrapped.
        field: &'static str,
        /// Pointer flavor.
        kind: PointerKind,
        /// Delegate coder.
        coder: CoderName,
    },
}

/// The ordered field actions of one NDR coder.
#[derive(Debug, Clone, PartialEq, Eq)]
pub struct CoderPlan {
    /// Coder the plan describes.
    pub coder: CoderName,
    /// Ordered field-level actions.
    pub steps: Vec<CoderStep>,
}

impl CoderPlan {
    /// Creates an empty plan.
    pub fn new(coder: CoderName) -> (r: Self)
        ensures
            r.coder == coder,
            r.steps@.len() == 0,
    {
        CoderPlan { coder, steps: Vec::new() }
    }

    /// Appends a field action.
    pub fn with_step(self, step: CoderStep) -> (r: Self)
        ensures
            r.coder == self.coder,
            r.steps@ == self.steps@.push(step),
    {
        let mut s = self;
        s.steps.push(step);
        s
    }
}

/// The field plan of the `Close` request coder.
pub fn lsa_close_req_coder_plan() -> (r: CoderPlan)
    ensures
        r.coder == CoderName::ContextHandle,
        r.steps@ == seq![CoderStep::Pointer { field: "PolicyHandle", kind: PointerKind::Ref, coder: CoderName::ContextHandle }],
{
    let r = CoderPlan::new(CoderName::ContextHandle)
        .with_step(CoderStep::Pointer { field: "PolicyHandle", kind: PointerKind::Ref, coder: CoderName::ContextHandle });
    assert(r.steps@ =~= seq![CoderStep::Pointer { field: "PolicyHandle", kind: PointerKind::Ref, coder: CoderName::ContextHandle }]);
    r
}

/// The field plan of the `Close` reply coder.
pub fn lsa_close_rep_coder_plan() -> (r: CoderPlan)
    ensures
        r.coder == CoderName::ContextHandle,
        r.steps@ == seq![
            CoderStep::Pointer { field: "PolicyHandle", kind: PointerKind::Ref, coder: CoderName::ContextHandle },
            CoderStep::Uint32("Status"),
        ],
{
    let r = lsa_close_req_coder_plan().with_step(CoderStep::Uint32("Status"));
    assert(r.steps@ =~= seq![
        CoderStep::Pointer { field: "PolicyHandle", kind: PointerKind::Ref, coder: CoderName::ContextHandle },
        CoderStep::Uint32("Status"),
    ]);
    r
}

fn len_to_u8_saturating(len: usize) -> (r: u8)
    ensures
        r == clamp(len as int, 255),
{
    if len > 255 {
        255
    } else {
        len as u8
    }
}

fn len_to_u32_saturating(len: usize) -> (r: u32)
    ensures
        r == clamp(len as int, 0xffff_ffff),
{
    if len > 0xffff_ffff {
        0xffff_ffff
    } else {
        len as u32
    }
}

fn utf16_len_bytes_saturating(value: &str) -> (r: u16)
    ensures
        r == utf16_byte_len(value@),
{
    let units = utf16_encode(value).len();
    let bytes = match units.checked_mul(2) {
        Some(b) => b,
        None => usize::MAX,
    };
    if bytes > 0xffff {
        0xffff
    } else {
        bytes as u16
    }
}

} // verus!
