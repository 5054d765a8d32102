//! NTSTATUS values: the named status constants, the severity, customer and
//! facility fields of a status, and lookups from a status to its name and to
//! an errno value.

use vstd::prelude::*;

verus! {

/// NTSTATUS field constant `SMB2_STATUS_SEVERITY_MASK`.
pub const SMB2_STATUS_SEVERITY_MASK: u32 = 0xC000_0000;
/// NTSTATUS field constant `SMB2_STATUS_SEVERITY_SUCCESS`.
pub const SMB2_STATUS_SEVERITY_SUCCESS: u32 = 0x0000_0000;
/// NTSTATUS field constant `SMB2_STATUS_SEVERITY_INFO`.
pub const SMB2_STATUS_SEVERITY_INFO: u32 = 0x4000_0000;
/// NTSTATUS field constant `SMB2_STATUS_SEVERITY_WARNING`.
pub const SMB2_STATUS_SEVERITY_WARNING: u32 = 0x8000_0000;
/// NTSTATUS field constant `SMB2_STATUS_SEVERITY_ERROR`.
pub const SMB2_STATUS_SEVERITY_ERROR: u32 = 0xC000_0000;
/// NTSTATUS field constant `SMB2_STATUS_CUSTOMER_MASK`.
pub const SMB2_STATUS_CUSTOMER_MASK: u32 = 0x2000_0000;
/// NTSTATUS field constant `SMB2_STATUS_FACILITY_MASK`.
pub const SMB2_STATUS_FACILITY_MASK: u32 = 0x0FFF_0000;
/// NTSTATUS field constant `SMB2_STATUS_CODE_MASK`.
pub const SMB2_STATUS_CODE_MASK: u32 = 0x0000_FFFF;
/// SMB2 error status constant `SMB2_STATUS_SUCCESS`.
pub const SMB2_STATUS_SUCCESS: u32 = 0x0000_0000;
/// SMB2 error status constant `SMB2_STATUS_SHUTDOWN`.
pub const SMB2_STATUS_SHUTDOWN: u32 = 0xFFFF_FFFF;
/// SMB2 error status constant `SMB2_STATUS_PENDING`.
pub const SMB2_STATUS_PENDING: u32 = 0x0000_0103;
/// SMB2 error status constant `SMB2_STATUS_SMB_BAD_FID`.
pub const SMB2_STATUS_SMB_BAD_FID: u32 = 0x0006_0001;
/// SMB2 error status constant `SMB2_STATUS_NO_MORE_FILES`.
pub const SMB2_STATUS_NO_MORE_FILES: u32 = 0x8000_0006;
/// SMB2 error status constant `SMB2_STATUS_UNSUCCESSFUL`.
pub const SMB2_STATUS_UNSUCCESSFUL: u32 = 0xC000_0001;
/// SMB2 error status constant `SMB2_STATUS_NOT_IMPLEMENTED`.
pub const SMB2_STATUS_NOT_IMPLEMENTED: u32 = 0xC000_0002;
/// SMB2 error status constant `SMB2_STATUS_INVALID_INFO_CLASS`.
pub const SMB2_STATUS_INVALID_INFO_CLASS: u32 = 0xC000_0003;
/// SMB2 error status constant `SMB2_STATUS_INFO_LENGTH_MISMATCH`.
pub const SMB2_STATUS_INFO_LENGTH_MISMATCH: u32 = 0xC000_0004;
/// SMB2 error status constant `SMB2_STATUS_ACCESS_VIOLATION`.
pub const SMB2_STATUS_ACCESS_VIOLATION: u32 = 0xC000_0005;
/// SMB2 error status constant `SMB2_STATUS_IN_PAGE_ERROR`.
pub const SMB2_STATUS_IN_PAGE_ERROR: u32 = 0xC000_0006;
/// SMB2 error status constant `SMB2_STATUS_PAGEFILE_QUOTA`.
pub const SMB2_STATUS_PAGEFILE_QUOTA: u32 = 0xC000_0007;
/// SMB2 error status constant `SMB2_STATUS_INVALID_HANDLE`.
pub const SMB2_STATUS_INVALID_HANDLE: u32 = 0xC000_0008;
/// SMB2 error status constant `SMB2_STATUS_BAD_INITIAL_STACK`.
pub const SMB2_STATUS_BAD_INITIAL_STACK: u32 = 0xC000_0009;
/// SMB2 error status constant `SMB2_STATUS_BAD_INITIAL_PC`.
pub const SMB2_STATUS_BAD_INITIAL_PC: u32 = 0xC000_000A;
/// SMB2 error status constant `SMB2_STATUS_INVALID_CID`.
pub const SMB2_STATUS_INVALID_CID: u32 = 0xC000_000B;
/// SMB2 error status constant `SMB2_STATUS_TIMER_NOT_CANCELED`.
pub const SMB2_STATUS_TIMER_NOT_CANCELED: u32 = 0xC000_000C;
/// SMB2 error status constant `SMB2_STATUS_INVALID_PARAMETER`.
pub const SMB2_STATUS_INVALID_PARAMETER: u32 = 0xC000_000D;
/// SMB2 error status constant `SMB2_STATUS_NO_SUCH_DEVICE`.
pub const SMB2_STATUS_NO_SUCH_DEVICE: u32 = 0xC000_000E;
/// SMB2 error status constant `SMB2_STATUS_NO_SUCH_FILE`.
pub const SMB2_STATUS_NO_SUCH_FILE: u32 = 0xC000_000F;
/// SMB2 error status constant `SMB2_STATUS_INVALID_DEVICE_REQUEST`.
pub const SMB2_STATUS_INVALID_DEVICE_REQUEST: u32 = 0xC000_0010;
/// SMB2 error status constant `SMB2_STATUS_END_OF_FILE`.
pub const SMB2_STATUS_END_OF_FILE: u32 = 0xC000_0011;
/// SMB2 error status constant `SMB2_STATUS_WRONG_VOLUME`.
pub const SMB2_STATUS_WRONG_VOLUME: u32 = 0xC000_0012;
/// SMB2 error status constant `SMB2_STATUS_NO_MEDIA_IN_DEVICE`.
pub const SMB2_STATUS_NO_MEDIA_IN_DEVICE: u32 = 0xC000_0013;
/// SMB2 error status constant `SMB2_STATUS_UNRECOGNIZED_MEDIA`.
pub const SMB2_STATUS_UNRECOGNIZED_MEDIA: u32 = 0xC000_0014;
/// SMB2 error status constant `SMB2_STATUS_NONEXISTENT_SECTOR`.
pub const SMB2_STATUS_NONEXISTENT_SECTOR: u32 = 0xC000_0015;
/// SMB2 error status constant `SMB2_STATUS_MORE_PROCESSING_REQUIRED`.
pub const SMB2_STATUS_MORE_PROCESSING_REQUIRED: u32 = 0xC000_0016;
/// SMB2 error status constant `SMB2_STATUS_NO_MEMORY`.
pub const SMB2_STATUS_NO_MEMORY: u32 = 0xC000_0017;
/// SMB2 error status constant `SMB2_STATUS_CONFLICTING_ADDRESSES`.
pub const SMB2_STATUS_CONFLICTING_ADDRESSES: u32 = 0xC000_0018;
/// SMB2 error status constant `SMB2_STATUS_NOT_MAPPED_VIEW`.
pub const SMB2_STATUS_NOT_MAPPED_VIEW: u32 = 0xC000_0019;
/// SMB2 error status constant `SMB2_STATUS_UNABLE_TO_FREE_VM`.
pub const SMB2_STATUS_UNABLE_TO_FREE_VM: u32 = 0xC000_001A;
/// SMB2 error status constant `SMB2_STATUS_UNABLE_TO_DELETE_SECTION`.
pub const SMB2_STATUS_UNABLE_TO_DELETE_SECTION: u32 = 0xC000_001B;
/// SMB2 error status constant `SMB2_STATUS_INVALID_SYSTEM_SERVICE`.
pub const SMB2_STATUS_INVALID_SYSTEM_SERVICE: u32 = 0xC000_001C;
/// SMB2 error status constant `SMB2_STATUS_ILLEGAL_INSTRUCTION`.
pub const SMB2_STATUS_ILLEGAL_INSTRUCTION: u32 = 0xC000_001D;
/// SMB2 error status constant `SMB2_STATUS_INVALID_LOCK_SEQUENCE`.
pub const SMB2_STATUS_INVALID_LOCK_SEQUENCE: u32 = 0xC000_001E;
/// SMB2 error status constant `SMB2_STATUS_INVALID_VIEW_SIZE`.
pub const SMB2_STATUS_INVALID_VIEW_SIZE: u32 = 0xC000_001F;
/// SMB2 error status constant `SMB2_STATUS_INVALID_FILE_FOR_SECTION`.
pub const SMB2_STATUS_INVALID_FILE_FOR_SECTION: u32 = 0xC000_0020;
/// SMB2 error status constant `SMB2_STATUS_ALREADY_COMMITTED`.
pub const SMB2_STATUS_ALREADY_COMMITTED: u32 = 0xC000_0021;
/// SMB2 error status constant `SMB2_STATUS_ACCESS_DENIED`.
pub const SMB2_STATUS_ACCESS_DENIED: u32 = 0xC000_0022;
/// SMB2 error status constant `SMB2_STATUS_BUFFER_TOO_SMALL`.
pub const SMB2_STATUS_BUFFER_TOO_SMALL: u32 = 0xC000_0023;
/// SMB2 error status constant `SMB2_STATUS_OBJECT_TYPE_MISMATCH`.
pub const SMB2_STATUS_OBJECT_TYPE_MISMATCH: u32 = 0xC000_0024;
/// SMB2 error status constant `SMB2_STATUS_NONCONTINUABLE_EXCEPTION`.
pub const SMB2_STATUS_NONCONTINUABLE_EXCEPTION: u32 = 0xC000_0025;
/// SMB2 error status constant `SMB2_STATUS_INVALID_DISPOSITION`.
pub const SMB2_STATUS_INVALID_DISPOSITION: u32 = 0xC000_0026;
/// SMB2 error status constant `SMB2_STATUS_UNWIND`.
pub const SMB2_STATUS_UNWIND: u32 = 0xC000_0027;
/// SMB2 error status constant `SMB2_STATUS_BAD_STACK`.
pub const SMB2_STATUS_BAD_STACK: u32 = 0xC000_0028;
/// SMB2 error status constant `SMB2_STATUS_INVALID_UNWIND_TARGET`.
pub const SMB2_STATUS_INVALID_UNWIND_TARGET: u32 = 0xC000_0029;
/// SMB2 error status constant `SMB2_STATUS_NOT_LOCKED`.
pub const SMB2_STATUS_NOT_LOCKED: u32 = 0xC000_002A;
/// SMB2 error status constant `SMB2_STATUS_PARITY_ERROR`.
pub const SMB2_STATUS_PARITY_ERROR: u32 = 0xC000_002B;
/// SMB2 error status constant `SMB2_STATUS_UNABLE_TO_DECOMMIT_VM`.
pub const SMB2_STATUS_UNABLE_TO_DECOMMIT_VM: u32 = 0xC000_002C;
/// SMB2 error status constant `SMB2_STATUS_NOT_COMMITTED`.
pub const SMB2_STATUS_NOT_COMMITTED: u32 = 0xC000_002D;
/// SMB2 error status constant `SMB2_STATUS_INVALID_PORT_ATTRIBUTES`.
pub const SMB2_STATUS_INVALID_PORT_ATTRIBUTES: u32 = 0xC000_002E;
/// SMB2 error status constant `SMB2_STATUS_PORT_MESSAGE_TOO_LONG`.
pub const SMB2_STATUS_PORT_MESSAGE_TOO_LONG: u32 = 0xC000_002F;
/// SMB2 error status constant `SMB2_STATUS_INVALID_PARAMETER_MIX`.
pub const SMB2_STATUS_INVALID_PARAMETER_MIX: u32 = 0xC000_0030;
/// SMB2 error status constant `SMB2_STATUS_INVALID_QUOTA_LOWER`.
pub const SMB2_STATUS_INVALID_QUOTA_LOWER: u32 = 0xC000_0031;
/// SMB2 error status constant `SMB2_STATUS_DISK_CORRUPT_ERROR`.
pub const SMB2_STATUS_DISK_CORRUPT_ERROR: u32 = 0xC000_0032;
/// SMB2 error status constant `SMB2_STATUS_OBJECT_NAME_INVALID`.
pub const SMB2_STATUS_OBJECT_NAME_INVALID: u32 = 0xC000_0033;
/// SMB2 error status constant `SMB2_STATUS_OBJECT_NAME_NOT_FOUND`.
pub const SMB2_STATUS_OBJECT_NAME_NOT_FOUND: u32 = 0xC000_0034;
/// SMB2 error status constant `SMB2_STATUS_OBJECT_NAME_COLLISION`.
pub const SMB2_STATUS_OBJECT_NAME_COLLISION: u32 = 0xC000_0035;
/// SMB2 error status constant `SMB2_STATUS_HANDLE_NOT_WAITABLE`.
pub const SMB2_STATUS_HANDLE_NOT_WAITABLE: u32 = 0xC000_0036;
/// SMB2 error status constant `SMB2_STATUS_PORT_DISCONNECTED`.
pub const SMB2_STATUS_PORT_DISCONNECTED: u32 = 0xC000_0037;
/// SMB2 error status constant `SMB2_STATUS_DEVICE_ALREADY_ATTACHED`.
pub const SMB2_STATUS_DEVICE_ALREADY_ATTACHED: u32 = 0xC000_0038;
/// SMB2 error status constant `SMB2_STATUS_OBJECT_PATH_INVALID`.
pub const SMB2_STATUS_OBJECT_PATH_INVALID: u32 = 0xC000_0039;
/// SMB2 error status constant `SMB2_STATUS_OBJECT_PATH_NOT_FOUND`.
pub const SMB2_STATUS_OBJECT_PATH_NOT_FOUND: u32 = 0xC000_003A;
/// SMB2 error status constant `SMB2_STATUS_OBJECT_PATH_SYNTAX_BAD`.
pub const SMB2_STATUS_OBJECT_PATH_SYNTAX_BAD: u32 = 0xC000_003B;
/// SMB2 error status constant `SMB2_STATUS_DATA_OVERRUN`.
pub const SMB2_STATUS_DATA_OVERRUN: u32 = 0xC000_003C;
/// SMB2 error status constant `SMB2_STATUS_DATA_LATE_ERROR`.
pub const SMB2_STATUS_DATA_LATE_ERROR: u32 = 0xC000_003D;
/// SMB2 error status constant `SMB2_STATUS_DATA_ERROR`.
pub const SMB2_STATUS_DATA_ERROR: u32 = 0xC000_003E;
/// SMB2 error status constant `SMB2_STATUS_CRC_ERROR`.
pub const SMB2_STATUS_CRC_ERROR: u32 = 0xC000_003F;
/// SMB2 error status constant `SMB2_STATUS_SECTION_TOO_BIG`.
pub const SMB2_STATUS_SECTION_TOO_BIG: u32 = 0xC000_0040;
/// SMB2 error status constant `SMB2_STATUS_PORT_CONNECTION_REFUSED`.
pub const SMB2_STATUS_PORT_CONNECTION_REFUSED: u32 = 0xC000_0041;
/// SMB2 error status constant `SMB2_STATUS_INVALID_PORT_HANDLE`.
pub const SMB2_STATUS_INVALID_PORT_HANDLE: u32 = 0xC000_0042;
/// SMB2 error status constant `SMB2_STATUS_SHARING_VIOLATION`.
pub const SMB2_STATUS_SHARING_VIOLATION: u32 = 0xC000_0043;
/// SMB2 error status constant `SMB2_STATUS_QUOTA_EXCEEDED`.
pub const SMB2_STATUS_QUOTA_EXCEEDED: u32 = 0xC000_0044;
/// SMB2 error status constant `SMB2_STATUS_INVALID_PAGE_PROTECTION`.
pub const SMB2_STATUS_INVALID_PAGE_PROTECTION: u32 = 0xC000_0045;
/// SMB2 error status constant `SMB2_STATUS_MUTANT_NOT_OWNED`.
pub const SMB2_STATUS_MUTANT_NOT_OWNED: u32 = 0xC000_0046;
/// SMB2 error status constant `SMB2_STATUS_SEMAPHORE_LIMIT_EXCEEDED`.
pub const SMB2_STATUS_SEMAPHORE_LIMIT_EXCEEDED: u32 = 0xC000_0047;
/// SMB2 error status constant `SMB2_STATUS_PORT_ALREADY_SET`.
pub const SMB2_STATUS_PORT_ALREADY_SET: u32 = 0xC000_0048;
/// SMB2 error status constant `SMB2_STATUS_SECTION_NOT_IMAGE`.
pub const SMB2_STATUS_SECTION_NOT_IMAGE: u32 = 0xC000_0049;
/// SMB2 error status constant `SMB2_STATUS_SUSPEND_COUNT_EXCEEDED`.
pub const SMB2_STATUS_SUSPEND_COUNT_EXCEEDED: u32 = 0xC000_004A;
/// SMB2 error status constant `SMB2_STATUS_THREAD_IS_TERMINATING`.
pub const SMB2_STATUS_THREAD_IS_TERMINATING: u32 = 0xC000_004B;
/// SMB2 error status constant `SMB2_STATUS_BAD_WORKING_SET_LIMIT`.
pub const SMB2_STATUS_BAD_WORKING_SET_LIMIT: u32 = 0xC000_004C;
/// SMB2 error status constant `SMB2_STATUS_INCOMPATIBLE_FILE_MAP`.
pub const SMB2_STATUS_INCOMPATIBLE_FILE_MAP: u32 = 0xC000_004D;
/// SMB2 error status constant `SMB2_STATUS_SECTION_PROTECTION`.
pub const SMB2_STATUS_SECTION_PROTECTION: u32 = 0xC000_004E;
/// SMB2 error status constant `SMB2_STATUS_EAS_NOT_SUPPORTED`.
pub const SMB2_STATUS_EAS_NOT_SUPPORTED: u32 = 0xC000_004F;
/// SMB2 error status constant `SMB2_STATUS_EA_TOO_LARGE`.
pub const SMB2_STATUS_EA_TOO_LARGE: u32 = 0xC000_0050;
/// SMB2 error status constant `SMB2_STATUS_NONEXISTENT_EA_ENTRY`.
pub const SMB2_STATUS_NONEXISTENT_EA_ENTRY: u32 = 0xC000_0051;
/// SMB2 error status constant `SMB2_STATUS_NO_EAS_ON_FILE`.
pub const SMB2_STATUS_NO_EAS_ON_FILE: u32 = 0xC000_0052;
/// SMB2 error status constant `SMB2_STATUS_EA_CORRUPT_ERROR`.
pub const SMB2_STATUS_EA_CORRUPT_ERROR: u32 = 0xC000_0053;
/// SMB2 error status constant `SMB2_STATUS_FILE_LOCK_CONFLICT`.
pub const SMB2_STATUS_FILE_LOCK_CONFLICT: u32 = 0xC000_0054;
/// SMB2 error status constant `SMB2_STATUS_LOCK_NOT_GRANTED`.
pub const SMB2_STATUS_LOCK_NOT_GRANTED: u32 = 0xC000_0055;
/// SMB2 error status constant `SMB2_STATUS_DELETE_PENDING`.
pub const SMB2_STATUS_DELETE_PENDING: u32 = 0xC000_0056;
/// SMB2 error status constant `SMB2_STATUS_CTL_FILE_NOT_SUPPORTED`.
pub const SMB2_STATUS_CTL_FILE_NOT_SUPPORTED: u32 = 0xC000_0057;
/// SMB2 error status constant `SMB2_STATUS_UNKNOWN_REVISION`.
pub const SMB2_STATUS_UNKNOWN_REVISION: u32 = 0xC000_0058;
/// SMB2 error status constant `SMB2_STATUS_REVISION_MISMATCH`.
pub const SMB2_STATUS_REVISION_MISMATCH: u32 = 0xC000_0059;
/// SMB2 error status constant `SMB2_STATUS_INVALID_OWNER`.
pub const SMB2_STATUS_INVALID_OWNER: u32 = 0xC000_005A;
/// SMB2 error status constant `SMB2_STATUS_INVALID_PRIMARY_GROUP`.
pub const SMB2_STATUS_INVALID_PRIMARY_GROUP: u32 = 0xC000_005B;
/// SMB2 error status constant `SMB2_STATUS_NO_IMPERSONATION_TOKEN`.
pub const SMB2_STATUS_NO_IMPERSONATION_TOKEN: u32 = 0xC000_005C;
/// SMB2 error status constant `SMB2_STATUS_CANT_DISABLE_MANDATORY`.
pub const SMB2_STATUS_CANT_DISABLE_MANDATORY: u32 = 0xC000_005D;
/// SMB2 error status constant `SMB2_STATUS_NO_LOGON_SERVERS`.
pub const SMB2_STATUS_NO_LOGON_SERVERS: u32 = 0xC000_005E;
/// SMB2 error status constant `SMB2_STATUS_NO_SUCH_LOGON_SESSION`.
pub const SMB2_STATUS_NO_SUCH_LOGON_SESSION: u32 = 0xC000_005F;
/// SMB2 error status constant `SMB2_STATUS_NO_SUCH_PRIVILEGE`.
pub const SMB2_STATUS_NO_SUCH_PRIVILEGE: u32 = 0xC000_0060;
/// SMB2 error status constant `SMB2_STATUS_PRIVILEGE_NOT_HELD`.
pub const SMB2_STATUS_PRIVILEGE_NOT_HELD: u32 = 0xC000_0061;
/// SMB2 error status constant `SMB2_STATUS_INVALID_ACCOUNT_NAME`.
pub const SMB2_STATUS_INVALID_ACCOUNT_NAME: u32 = 0xC000_0062;
/// SMB2 error status constant `SMB2_STATUS_USER_EXISTS`.
pub const SMB2_STATUS_USER_EXISTS: u32 = 0xC000_0063;
/// SMB2 error status constant `SMB2_STATUS_NO_SUCH_USER`.
pub const SMB2_STATUS_NO_SUCH_USER: u32 = 0xC000_0064;
/// SMB2 error status constant `SMB2_STATUS_GROUP_EXISTS`.
pub const SMB2_STATUS_GROUP_EXISTS: u32 = 0xC000_0065;
/// SMB2 error status constant `SMB2_STATUS_NO_SUCH_GROUP`.
pub const SMB2_STATUS_NO_SUCH_GROUP: u32 = 0xC000_0066;
/// SMB2 error status constant `SMB2_STATUS_MEMBER_IN_GROUP`.
pub const SMB2_STATUS_MEMBER_IN_GROUP: u32 = 0xC000_0067;
/// SMB2 error status constant `SMB2_STATUS_MEMBER_NOT_IN_GROUP`.
pub const SMB2_STATUS_MEMBER_NOT_IN_GROUP: u32 = 0xC000_0068;
/// SMB2 error status constant `SMB2_STATUS_LAST_ADMIN`.
pub const SMB2_STATUS_LAST_ADMIN: u32 = 0xC000_0069;
/// SMB2 error status constant `SMB2_STATUS_WRONG_PASSWORD`.
pub const SMB2_STATUS_WRONG_PASSWORD: u32 = 0xC000_006A;
/// SMB2 error status constant `SMB2_STATUS_ILL_FORMED_PASSWORD`.
pub const SMB2_STATUS_ILL_FORMED_PASSWORD: u32 = 0xC000_006B;
/// SMB2 error status constant `SMB2_STATUS_PASSWORD_RESTRICTION`.
pub const SMB2_STATUS_PASSWORD_RESTRICTION: u32 = 0xC000_006C;
/// SMB2 error status constant `SMB2_STATUS_LOGON_FAILURE`.
pub const SMB2_STATUS_LOGON_FAILURE: u32 = 0xC000_006D;
/// SMB2 error status constant `SMB2_STATUS_ACCOUNT_RESTRICTION`.
pub const SMB2_STATUS_ACCOUNT_RESTRICTION: u32 = 0xC000_006E;
/// SMB2 error status constant `SMB2_STATUS_INVALID_LOGON_HOURS`.
pub const SMB2_STATUS_INVALID_LOGON_HOURS: u32 = 0xC000_006F;
/// SMB2 error status constant `SMB2_STATUS_INVALID_WORKSTATION`.
pub const SMB2_STATUS_INVALID_WORKSTATION: u32 = 0xC000_0070;
/// SMB2 error status constant `SMB2_STATUS_PASSWORD_EXPIRED`.
pub const SMB2_STATUS_PASSWORD_EXPIRED: u32 = 0xC000_0071;
/// SMB2 error status constant `SMB2_STATUS_ACCOUNT_DISABLED`.
pub const SMB2_STATUS_ACCOUNT_DISABLED: u32 = 0xC000_0072;
/// SMB2 error status constant `SMB2_STATUS_NONE_MAPPED`.
pub const SMB2_STATUS_NONE_MAPPED: u32 = 0xC000_0073;
/// SMB2 error status constant `SMB2_STATUS_TOO_MANY_LUIDS_REQUESTED`.
pub const SMB2_STATUS_TOO_MANY_LUIDS_REQUESTED: u32 = 0xC000_0074;
/// SMB2 error status constant `SMB2_STATUS_LUIDS_EXHAUSTED`.
pub const SMB2_STATUS_LUIDS_EXHAUSTED: u32 = 0xC000_0075;
/// SMB2 error status constant `SMB2_STATUS_INVALID_SUB_AUTHORITY`.
pub const SMB2_STATUS_INVALID_SUB_AUTHORITY: u32 = 0xC000_0076;
/// SMB2 error status constant `SMB2_STATUS_INVALID_ACL`.
pub const SMB2_STATUS_INVALID_ACL: u32 = 0xC000_0077;
/// SMB2 error status constant `SMB2_STATUS_INVALID_SID`.
pub const SMB2_STATUS_INVALID_SID: u32 = 0xC000_0078;
/// SMB2 error status constant `SMB2_STATUS_INVALID_SECURITY_DESCR`.
pub const SMB2_STATUS_INVALID_SECURITY_DESCR: u32 = 0xC000_0079;
/// SMB2 error status constant `SMB2_STATUS_PROCEDURE_NOT_FOUND`.
pub const SMB2_STATUS_PROCEDURE_NOT_FOUND: u32 = 0xC000_007A;
/// SMB2 error status constant `SMB2_STATUS_INVALID_IMAGE_FORMAT`.
pub const SMB2_STATUS_INVALID_IMAGE_FORMAT: u32 = 0xC000_007B;
/// SMB2 error status constant `SMB2_STATUS_NO_TOKEN`.
pub const SMB2_STATUS_NO_TOKEN: u32 = 0xC000_007C;
/// SMB2 error status constant `SMB2_STATUS_BAD_INHERITANCE_ACL`.
pub const SMB2_STATUS_BAD_INHERITANCE_ACL: u32 = 0xC000_007D;
/// SMB2 error status constant `SMB2_STATUS_RANGE_NOT_LOCKED`.
pub const SMB2_STATUS_RANGE_NOT_LOCKED: u32 = 0xC000_007E;
/// SMB2 error status constant `SMB2_STATUS_DISK_FULL`.
pub const SMB2_STATUS_DISK_FULL: u32 = 0xC000_007F;
/// SMB2 error status constant `SMB2_STATUS_SERVER_DISABLED`.
pub const SMB2_STATUS_SERVER_DISABLED: u32 = 0xC000_0080;
/// SMB2 error status constant `SMB2_STATUS_SERVER_NOT_DISABLED`.
pub const SMB2_STATUS_SERVER_NOT_DISABLED: u32 = 0xC000_0081;
/// SMB2 error status constant `SMB2_STATUS_TOO_MANY_GUIDS_REQUESTED`.
pub const SMB2_STATUS_TOO_MANY_GUIDS_REQUESTED: u32 = 0xC000_0082;
/// SMB2 error status constant `SMB2_STATUS_GUIDS_EXHAUSTED`.
pub const SMB2_STATUS_GUIDS_EXHAUSTED: u32 = 0xC000_0083;
/// SMB2 error status constant `SMB2_STATUS_INVALID_ID_AUTHORITY`.
pub const SMB2_STATUS_INVALID_ID_AUTHORITY: u32 = 0xC000_0084;
/// SMB2 error status constant `SMB2_STATUS_AGENTS_EXHAUSTED`.
pub const SMB2_STATUS_AGENTS_EXHAUSTED: u32 = 0xC000_0085;
/// SMB2 error status constant `SMB2_STATUS_INVALID_VOLUME_LABEL`.
pub const SMB2_STATUS_INVALID_VOLUME_LABEL: u32 = 0xC000_0086;
/// SMB2 error status constant `SMB2_STATUS_SECTION_NOT_EXTENDED`.
pub const SMB2_STATUS_SECTION_NOT_EXTENDED: u32 = 0xC000_0087;
/// SMB2 error status constant `SMB2_STATUS_NOT_MAPPED_DATA`.
pub const SMB2_STATUS_NOT_MAPPED_DATA: u32 = 0xC000_0088;
/// SMB2 error status constant `SMB2_STATUS_RESOURCE_DATA_NOT_FOUND`.
pub const SMB2_STATUS_RESOURCE_DATA_NOT_FOUND: u32 = 0xC000_0089;
/// SMB2 error status constant `SMB2_STATUS_RESOURCE_TYPE_NOT_FOUND`.
pub const SMB2_STATUS_RESOURCE_TYPE_NOT_FOUND: u32 = 0xC000_008A;
/// SMB2 error status constant `SMB2_STATUS_RESOURCE_NAME_NOT_FOUND`.
pub const SMB2_STATUS_RESOURCE_NAME_NOT_FOUND: u32 = 0xC000_008B;
/// SMB2 error status constant `SMB2_STATUS_ARRAY_BOUNDS_EXCEEDED`.
pub const SMB2_STATUS_ARRAY_BOUNDS_EXCEEDED: u32 = 0xC000_008C;
/// SMB2 error status constant `SMB2_STATUS_FLOAT_DENORMAL_OPERAND`.
pub const SMB2_STATUS_FLOAT_DENORMAL_OPERAND: u32 = 0xC000_008D;
/// SMB2 error status constant `SMB2_STATUS_FLOAT_DIVIDE_BY_ZERO`.
pub const SMB2_STATUS_FLOAT_DIVIDE_BY_ZERO: u32 = 0xC000_008E;
/// SMB2 error status constant `SMB2_STATUS_FLOAT_INEXACT_RESULT`.
pub const SMB2_STATUS_FLOAT_INEXACT_RESULT: u32 = 0xC000_008F;
/// SMB2 error status constant `SMB2_STATUS_FLOAT_INVALID_OPERATION`.
pub const SMB2_STATUS_FLOAT_INVALID_OPERATION: u32 = 0xC000_0090;
/// SMB2 error status constant `SMB2_STATUS_FLOAT_OVERFLOW`.
pub const SMB2_STATUS_FLOAT_OVERFLOW: u32 = 0xC000_0091;
/// SMB2 error status constant `SMB2_STATUS_FLOAT_STACK_CHECK`.
pub const SMB2_STATUS_FLOAT_STACK_CHECK: u32 = 0xC000_0092;
/// SMB2 error status constant `SMB2_STATUS_FLOAT_UNDERFLOW`.
pub const SMB2_STATUS_FLOAT_UNDERFLOW: u32 = 0xC000_0093;
/// SMB2 error status constant `SMB2_STATUS_INTEGER_DIVIDE_BY_ZERO`.
pub const SMB2_STATUS_INTEGER_DIVIDE_BY_ZERO: u32 = 0xC000_0094;
/// SMB2 error status constant `SMB2_STATUS_INTEGER_OVERFLOW`.
pub const SMB2_STATUS_INTEGER_OVERFLOW: u32 = 0xC000_0095;
/// SMB2 error status constant `SMB2_STATUS_PRIVILEGED_INSTRUCTION`.
pub const SMB2_STATUS_PRIVILEGED_INSTRUCTION: u32 = 0xC000_0096;
/// SMB2 error status constant `SMB2_STATUS_TOO_MANY_PAGING_FILES`.
pub const SMB2_STATUS_TOO_MANY_PAGING_FILES: u32 = 0xC000_0097;
/// SMB2 error status constant `SMB2_STATUS_FILE_INVALID`.
pub const SMB2_STATUS_FILE_INVALID: u32 = 0xC000_0098;
/// SMB2 error status constant `SMB2_STATUS_ALLOTTED_SPACE_EXCEEDED`.
pub const SMB2_STATUS_ALLOTTED_SPACE_EXCEEDED: u32 = 0xC000_0099;
/// SMB2 error status constant `SMB2_STATUS_INSUFFICIENT_RESOURCES`.
pub const SMB2_STATUS_INSUFFICIENT_RESOURCES: u32 = 0xC000_009A;
/// SMB2 error status constant `SMB2_STATUS_DFS_EXIT_PATH_FOUND`.
pub const SMB2_STATUS_DFS_EXIT_PATH_FOUND: u32 = 0xC000_009B;
/// SMB2 error status constant `SMB2_STATUS_DEVICE_DATA_ERROR`.
pub const SMB2_STATUS_DEVICE_DATA_ERROR: u32 = 0xC000_009C;
/// SMB2 error status constant `SMB2_STATUS_DEVICE_NOT_CONNECTED`.
pub const SMB2_STATUS_DEVICE_NOT_CONNECTED: u32 = 0xC000_009D;
/// SMB2 error status constant `SMB2_STATUS_DEVICE_POWER_FAILURE`.
pub const SMB2_STATUS_DEVICE_POWER_FAILURE: u32 = 0xC000_009E;
/// SMB2 error status constant `SMB2_STATUS_FREE_VM_NOT_AT_BASE`.
pub const SMB2_STATUS_FREE_VM_NOT_AT_BASE: u32 = 0xC000_009F;
/// SMB2 error status constant `SMB2_STATUS_MEMORY_NOT_ALLOCATED`.
pub const SMB2_STATUS_MEMORY_NOT_ALLOCATED: u32 = 0xC000_00A0;
/// SMB2 error status constant `SMB2_STATUS_WORKING_SET_QUOTA`.
pub const SMB2_STATUS_WORKING_SET_QUOTA: u32 = 0xC000_00A1;
/// SMB2 error status constant `SMB2_STATUS_MEDIA_WRITE_PROTECTED`.
pub const SMB2_STATUS_MEDIA_WRITE_PROTECTED: u32 = 0xC000_00A2;
/// SMB2 error status constant `SMB2_STATUS_DEVICE_NOT_READY`.
pub const SMB2_STATUS_DEVICE_NOT_READY: u32 = 0xC000_00A3;
/// SMB2 error status constant `SMB2_STATUS_INVALID_GROUP_ATTRIBUTES`.
pub const SMB2_STATUS_INVALID_GROUP_ATTRIBUTES: u32 = 0xC000_00A4;
/// SMB2 error status constant `SMB2_STATUS_BAD_IMPERSONATION_LEVEL`.
pub const SMB2_STATUS_BAD_IMPERSONATION_LEVEL: u32 = 0xC000_00A5;
/// SMB2 error status constant `SMB2_STATUS_CANT_OPEN_ANONYMOUS`.
pub const SMB2_STATUS_CANT_OPEN_ANONYMOUS: u32 = 0xC000_00A6;
/// SMB2 error status constant `SMB2_STATUS_BAD_VALIDATION_CLASS`.
pub const SMB2_STATUS_BAD_VALIDATION_CLASS: u32 = 0xC000_00A7;
/// SMB2 error status constant `SMB2_STATUS_BAD_TOKEN_TYPE`.
pub const SMB2_STATUS_BAD_TOKEN_TYPE: u32 = 0xC000_00A8;
/// SMB2 error status constant `SMB2_STATUS_BAD_MASTER_BOOT_RECORD`.
pub const SMB2_STATUS_BAD_MASTER_BOOT_RECORD: u32 = 0xC000_00A9;
/// SMB2 error status constant `SMB2_STATUS_INSTRUCTION_MISALIGNMENT`.
pub const SMB2_STATUS_INSTRUCTION_MISALIGNMENT: u32 = 0xC000_00AA;
/// SMB2 error status constant `SMB2_STATUS_INSTANCE_NOT_AVAILABLE`.
pub const SMB2_STATUS_INSTANCE_NOT_AVAILABLE: u32 = 0xC000_00AB;
/// SMB2 error status constant `SMB2_STATUS_PIPE_NOT_AVAILABLE`.
pub const SMB2_STATUS_PIPE_NOT_AVAILABLE: u32 = 0xC000_00AC;
/// SMB2 error status constant `SMB2_STATUS_INVALID_PIPE_STATE`.
pub const SMB2_STATUS_INVALID_PIPE_STATE: u32 = 0xC000_00AD;
/// SMB2 error status constant `SMB2_STATUS_PIPE_BUSY`.
pub const SMB2_STATUS_PIPE_BUSY: u32 = 0xC000_00AE;
/// SMB2 error status constant `SMB2_STATUS_ILLEGAL_FUNCTION`.
pub const SMB2_STATUS_ILLEGAL_FUNCTION: u32 = 0xC000_00AF;
/// SMB2 error status constant `SMB2_STATUS_PIPE_DISCONNECTED`.
pub const SMB2_STATUS_PIPE_DISCONNECTED: u32 = 0xC000_00B0;
/// SMB2 error status constant `SMB2_STATUS_PIPE_CLOSING`.
pub const SMB2_STATUS_PIPE_CLOSING: u32 = 0xC000_00B1;
/// SMB2 error status constant `SMB2_STATUS_PIPE_CONNECTED`.
pub const SMB2_STATUS_PIPE_CONNECTED: u32 = 0xC000_00B2;
/// SMB2 error status constant `SMB2_STATUS_PIPE_LISTENING`.
pub const SMB2_STATUS_PIPE_LISTENING: u32 = 0xC000_00B3;
/// SMB2 error status constant `SMB2_STATUS_INVALID_READ_MODE`.
pub const SMB2_STATUS_INVALID_READ_MODE: u32 = 0xC000_00B4;
/// SMB2 error status constant `SMB2_STATUS_IO_TIMEOUT`.
pub const SMB2_STATUS_IO_TIMEOUT: u32 = 0xC000_00B5;
/// SMB2 error status constant `SMB2_STATUS_FILE_FORCED_CLOSED`.
pub const SMB2_STATUS_FILE_FORCED_CLOSED: u32 = 0xC000_00B6;
/// SMB2 error status constant `SMB2_STATUS_PROFILING_NOT_STARTED`.
pub const SMB2_STATUS_PROFILING_NOT_STARTED: u32 = 0xC000_00B7;
/// SMB2 error status constant `SMB2_STATUS_PROFILING_NOT_STOPPED`.
pub const SMB2_STATUS_PROFILING_NOT_STOPPED: u32 = 0xC000_00B8;
/// SMB2 error status constant `SMB2_STATUS_COULD_NOT_INTERPRET`.
pub const SMB2_STATUS_COULD_NOT_INTERPRET: u32 = 0xC000_00B9;
/// SMB2 error status constant `SMB2_STATUS_FILE_IS_A_DIRECTORY`.
pub const SMB2_STATUS_FILE_IS_A_DIRECTORY: u32 = 0xC000_00BA;
/// SMB2 error status constant `SMB2_STATUS_NOT_SUPPORTED`.
pub const SMB2_STATUS_NOT_SUPPORTED: u32 = 0xC000_00BB;
/// SMB2 error status constant `SMB2_STATUS_REMOTE_NOT_LISTENING`.
pub const SMB2_STATUS_REMOTE_NOT_LISTENING: u32 = 0xC000_00BC;
/// SMB2 error status constant `SMB2_STATUS_DUPLICATE_NAME`.
pub const SMB2_STATUS_DUPLICATE_NAME: u32 = 0xC000_00BD;
/// SMB2 error status constant `SMB2_STATUS_BAD_NETWORK_PATH`.
pub const SMB2_STATUS_BAD_NETWORK_PATH: u32 = 0xC000_00BE;
/// SMB2 error status constant `SMB2_STATUS_NETWORK_BUSY`.
pub const SMB2_STATUS_NETWORK_BUSY: u32 = 0xC000_00BF;
/// SMB2 error status constant `SMB2_STATUS_DEVICE_DOES_NOT_EXIST`.
pub const SMB2_STATUS_DEVICE_DOES_NOT_EXIST: u32 = 0xC000_00C0;
/// SMB2 error status constant `SMB2_STATUS_TOO_MANY_COMMANDS`.
pub const SMB2_STATUS_TOO_MANY_COMMANDS: u32 = 0xC000_00C1;
/// SMB2 error status constant `SMB2_STATUS_ADAPTER_HARDWARE_ERROR`.
pub const SMB2_STATUS_ADAPTER_HARDWARE_ERROR: u32 = 0xC000_00C2;
/// SMB2 error status constant `SMB2_STATUS_INVALID_NETWORK_RESPONSE`.
pub const SMB2_STATUS_INVALID_NETWORK_RESPONSE: u32 = 0xC000_00C3;
/// SMB2 error status constant `SMB2_STATUS_UNEXPECTED_NETWORK_ERROR`.
pub const SMB2_STATUS_UNEXPECTED_NETWORK_ERROR: u32 = 0xC000_00C4;
/// SMB2 error status constant `SMB2_STATUS_BAD_REMOTE_ADAPTER`.
pub const SMB2_STATUS_BAD_REMOTE_ADAPTER: u32 = 0xC000_00C5;
/// SMB2 error status constant `SMB2_STATUS_PRINT_QUEUE_FULL`.
pub const SMB2_STATUS_PRINT_QUEUE_FULL: u32 = 0xC000_00C6;
/// SMB2 error status constant `SMB2_STATUS_NO_SPOOL_SPACE`.
pub const SMB2_STATUS_NO_SPOOL_SPACE: u32 = 0xC000_00C7;
/// SMB2 error status constant `SMB2_STATUS_PRINT_CANCELLED`.
pub const SMB2_STATUS_PRINT_CANCELLED: u32 = 0xC000_00C8;
/// SMB2 error status constant `SMB2_STATUS_NETWORK_NAME_DELETED`.
pub const SMB2_STATUS_NETWORK_NAME_DELETED: u32 = 0xC000_00C9;
/// SMB2 error status constant `SMB2_STATUS_NETWORK_ACCESS_DENIED`.
pub const SMB2_STATUS_NETWORK_ACCESS_DENIED: u32 = 0xC000_00CA;
/// SMB2 error status constant `SMB2_STATUS_BAD_DEVICE_TYPE`.
pub const SMB2_STATUS_BAD_DEVICE_TYPE: u32 = 0xC000_00CB;
/// SMB2 error status constant `SMB2_STATUS_BAD_NETWORK_NAME`.
pub const SMB2_STATUS_BAD_NETWORK_NAME: u32 = 0xC000_00CC;
/// SMB2 error status constant `SMB2_STATUS_TOO_MANY_NAMES`.
pub const SMB2_STATUS_TOO_MANY_NAMES: u32 = 0xC000_00CD;
/// SMB2 error status constant `SMB2_STATUS_TOO_MANY_SESSIONS`.
pub const SMB2_STATUS_TOO_MANY_SESSIONS: u32 = 0xC000_00CE;
/// SMB2 error status constant `SMB2_STATUS_SHARING_PAUSED`.
pub const SMB2_STATUS_SHARING_PAUSED: u32 = 0xC000_00CF;
/// SMB2 error status constant `SMB2_STATUS_REQUEST_NOT_ACCEPTED`.
pub const SMB2_STATUS_REQUEST_NOT_ACCEPTED: u32 = 0xC000_00D0;
/// SMB2 error status constant `SMB2_STATUS_REDIRECTOR_PAUSED`.
pub const SMB2_STATUS_REDIRECTOR_PAUSED: u32 = 0xC000_00D1;
/// SMB2 error status constant `SMB2_STATUS_NET_WRITE_FAULT`.
pub const SMB2_STATUS_NET_WRITE_FAULT: u32 = 0xC000_00D2;
/// SMB2 error status constant `SMB2_STATUS_PROFILING_AT_LIMIT`.
pub const SMB2_STATUS_PROFILING_AT_LIMIT: u32 = 0xC000_00D3;
/// SMB2 error status constant `SMB2_STATUS_NOT_SAME_DEVICE`.
pub const SMB2_STATUS_NOT_SAME_DEVICE: u32 = 0xC000_00D4;
/// SMB2 error status constant `SMB2_STATUS_FILE_RENAMED`.
pub const SMB2_STATUS_FILE_RENAMED: u32 = 0xC000_00D5;
/// SMB2 error status constant `SMB2_STATUS_VIRTUAL_CIRCUIT_CLOSED`.
pub const SMB2_STATUS_VIRTUAL_CIRCUIT_CLOSED: u32 = 0xC000_00D6;
/// SMB2 error status constant `SMB2_STATUS_NO_SECURITY_ON_OBJECT`.
pub const SMB2_STATUS_NO_SECURITY_ON_OBJECT: u32 = 0xC000_00D7;
/// SMB2 error status constant `SMB2_STATUS_CANT_WAIT`.
pub const SMB2_STATUS_CANT_WAIT: u32 = 0xC000_00D8;
/// SMB2 error status constant `SMB2_STATUS_PIPE_EMPTY`.
pub const SMB2_STATUS_PIPE_EMPTY: u32 = 0xC000_00D9;
/// SMB2 error status constant `SMB2_STATUS_CANT_ACCESS_DOMAIN_INFO`.
pub const SMB2_STATUS_CANT_ACCESS_DOMAIN_INFO: u32 = 0xC000_00DA;
/// SMB2 error status constant `SMB2_STATUS_CANT_TERMINATE_SELF`.
pub const SMB2_STATUS_CANT_TERMINATE_SELF: u32 = 0xC000_00DB;
/// SMB2 error status constant `SMB2_STATUS_INVALID_SERVER_STATE`.
pub const SMB2_STATUS_INVALID_SERVER_STATE: u32 = 0xC000_00DC;
/// SMB2 error status constant `SMB2_STATUS_INVALID_DOMAIN_STATE`.
pub const SMB2_STATUS_INVALID_DOMAIN_STATE: u32 = 0xC000_00DD;
/// SMB2 error status constant `SMB2_STATUS_INVALID_DOMAIN_ROLE`.
pub const SMB2_STATUS_INVALID_DOMAIN_ROLE: u32 = 0xC000_00DE;
/// SMB2 error status constant `SMB2_STATUS_NO_SUCH_DOMAIN`.
pub const SMB2_STATUS_NO_SUCH_DOMAIN: u32 = 0xC000_00DF;
/// SMB2 error status constant `SMB2_STATUS_DOMAIN_EXISTS`.
pub const SMB2_STATUS_DOMAIN_EXISTS: u32 = 0xC000_00E0;
/// SMB2 error status constant `SMB2_STATUS_DOMAIN_LIMIT_EXCEEDED`.
pub const SMB2_STATUS_DOMAIN_LIMIT_EXCEEDED: u32 = 0xC000_00E1;
/// SMB2 error status constant `SMB2_STATUS_OPLOCK_NOT_GRANTED`.
pub const SMB2_STATUS_OPLOCK_NOT_GRANTED: u32 = 0xC000_00E2;
/// SMB2 error status constant `SMB2_STATUS_INVALID_OPLOCK_PROTOCOL`.
pub const SMB2_STATUS_INVALID_OPLOCK_PROTOCOL: u32 = 0xC000_00E3;
/// SMB2 error status constant `SMB2_STATUS_INTERNAL_DB_CORRUPTION`.
pub const SMB2_STATUS_INTERNAL_DB_CORRUPTION: u32 = 0xC000_00E4;
/// SMB2 error status constant `SMB2_STATUS_INTERNAL_ERROR`.
pub const SMB2_STATUS_INTERNAL_ERROR: u32 = 0xC000_00E5;
/// SMB2 error status constant `SMB2_STATUS_GENERIC_NOT_MAPPED`.
pub const SMB2_STATUS_GENERIC_NOT_MAPPED: u32 = 0xC000_00E6;
/// SMB2 error status constant `SMB2_STATUS_BAD_DESCRIPTOR_FORMAT`.
pub const SMB2_STATUS_BAD_DESCRIPTOR_FORMAT: u32 = 0xC000_00E7;
/// SMB2 error status constant `SMB2_STATUS_INVALID_USER_BUFFER`.
pub const SMB2_STATUS_INVALID_USER_BUFFER: u32 = 0xC000_00E8;
/// SMB2 error status constant `SMB2_STATUS_UNEXPECTED_IO_ERROR`.
pub const SMB2_STATUS_UNEXPECTED_IO_ERROR: u32 = 0xC000_00E9;
/// SMB2 error status constant `SMB2_STATUS_UNEXPECTED_MM_CREATE_ERR`.
pub const SMB2_STATUS_UNEXPECTED_MM_CREATE_ERR: u32 = 0xC000_00EA;
/// SMB2 error status constant `SMB2_STATUS_UNEXPECTED_MM_MAP_ERROR`.
pub const SMB2_STATUS_UNEXPECTED_MM_MAP_ERROR: u32 = 0xC000_00EB;
/// SMB2 error status constant `SMB2_STATUS_UNEXPECTED_MM_EXTEND_ERR`.
pub const SMB2_STATUS_UNEXPECTED_MM_EXTEND_ERR: u32 = 0xC000_00EC;
/// SMB2 error status constant `SMB2_STATUS_NOT_LOGON_PROCESS`.
pub const SMB2_STATUS_NOT_LOGON_PROCESS: u32 = 0xC000_00ED;
/// SMB2 error status constant `SMB2_STATUS_LOGON_SESSION_EXISTS`.
pub const SMB2_STATUS_LOGON_SESSION_EXISTS: u32 = 0xC000_00EE;
/// SMB2 error status constant `SMB2_STATUS_INVALID_PARAMETER_1`.
pub const SMB2_STATUS_INVALID_PARAMETER_1: u32 = 0xC000_00EF;
/// SMB2 error status constant `SMB2_STATUS_INVALID_PARAMETER_2`.
pub const SMB2_STATUS_INVALID_PARAMETER_2: u32 = 0xC000_00F0;
/// SMB2 error status constant `SMB2_STATUS_INVALID_PARAMETER_3`.
pub const SMB2_STATUS_INVALID_PARAMETER_3: u32 = 0xC000_00F1;
/// SMB2 error status constant `SMB2_STATUS_INVALID_PARAMETER_4`.
pub const SMB2_STATUS_INVALID_PARAMETER_4: u32 = 0xC000_00F2;
/// SMB2 error status constant `SMB2_STATUS_INVALID_PARAMETER_5`.
pub const SMB2_STATUS_INVALID_PARAMETER_5: u32 = 0xC000_00F3;
/// SMB2 error status constant `SMB2_STATUS_INVALID_PARAMETER_6`.
pub const SMB2_STATUS_INVALID_PARAMETER_6: u32 = 0xC000_00F4;
/// SMB2 error status constant `SMB2_STATUS_INVALID_PARAMETER_7`.
pub const SMB2_STATUS_INVALID_PARAMETER_7: u32 = 0xC000_00F5;
/// SMB2 error status constant `SMB2_STATUS_INVALID_PARAMETER_8`.
pub const SMB2_STATUS_INVALID_PARAMETER_8: u32 = 0xC000_00F6;
/// SMB2 error status constant `SMB2_STATUS_INVALID_PARAMETER_9`.
pub const SMB2_STATUS_INVALID_PARAMETER_9: u32 = 0xC000_00F7;
/// SMB2 error status constant `SMB2_STATUS_INVALID_PARAMETER_10`.
pub const SMB2_STATUS_INVALID_PARAMETER_10: u32 = 0xC000_00F8;
/// SMB2 error status constant `SMB2_STATUS_INVALID_PARAMETER_11`.
pub const SMB2_STATUS_INVALID_PARAMETER_11: u32 = 0xC000_00F9;
/// SMB2 error status constant `SMB2_STATUS_INVALID_PARAMETER_12`.
pub const SMB2_STATUS_INVALID_PARAMETER_12: u32 = 0xC000_00FA;
/// SMB2 error status constant `SMB2_STATUS_REDIRECTOR_NOT_STARTED`.
pub const SMB2_STATUS_REDIRECTOR_NOT_STARTED: u32 = 0xC000_00FB;
/// SMB2 error status constant `SMB2_STATUS_REDIRECTOR_STARTED`.
pub const SMB2_STATUS_REDIRECTOR_STARTED: u32 = 0xC000_00FC;
/// SMB2 error status constant `SMB2_STATUS_STACK_OVERFLOW`.
pub const SMB2_STATUS_STACK_OVERFLOW: u32 = 0xC000_00FD;
/// SMB2 error status constant `SMB2_STATUS_NO_SUCH_PACKAGE`.
pub const SMB2_STATUS_NO_SUCH_PACKAGE: u32 = 0xC000_00FE;
/// SMB2 error status constant `SMB2_STATUS_BAD_FUNCTION_TABLE`.
pub const SMB2_STATUS_BAD_FUNCTION_TABLE: u32 = 0xC000_00FF;
/// SMB2 error status constant `SMB2_STATUS_DIRECTORY_NOT_EMPTY`.
pub const SMB2_STATUS_DIRECTORY_NOT_EMPTY: u32 = 0xC000_0101;
/// SMB2 error status constant `SMB2_STATUS_FILE_CORRUPT_ERROR`.
pub const SMB2_STATUS_FILE_CORRUPT_ERROR: u32 = 0xC000_0102;
/// SMB2 error status constant `SMB2_STATUS_NOT_A_DIRECTORY`.
pub const SMB2_STATUS_NOT_A_DIRECTORY: u32 = 0xC000_0103;
/// SMB2 error status constant `SMB2_STATUS_BAD_LOGON_SESSION_STATE`.
pub const SMB2_STATUS_BAD_LOGON_SESSION_STATE: u32 = 0xC000_0104;
/// SMB2 error status constant `SMB2_STATUS_LOGON_SESSION_COLLISION`.
pub const SMB2_STATUS_LOGON_SESSION_COLLISION: u32 = 0xC000_0105;
/// SMB2 error status constant `SMB2_STATUS_NAME_TOO_LONG`.
pub const SMB2_STATUS_NAME_TOO_LONG: u32 = 0xC000_0106;
/// SMB2 error status constant `SMB2_STATUS_FILES_OPEN`.
pub const SMB2_STATUS_FILES_OPEN: u32 = 0xC000_0107;
/// SMB2 error status constant `SMB2_STATUS_CONNECTION_IN_USE`.
pub const SMB2_STATUS_CONNECTION_IN_USE: u32 = 0xC000_0108;
/// SMB2 error status constant `SMB2_STATUS_MESSAGE_NOT_FOUND`.
pub const SMB2_STATUS_MESSAGE_NOT_FOUND: u32 = 0xC000_0109;
/// SMB2 error status constant `SMB2_STATUS_PROCESS_IS_TERMINATING`.
pub const SMB2_STATUS_PROCESS_IS_TERMINATING: u32 = 0xC000_010A;
/// SMB2 error status constant `SMB2_STATUS_INVALID_LOGON_TYPE`.
pub const SMB2_STATUS_INVALID_LOGON_TYPE: u32 = 0xC000_010B;
/// SMB2 error status constant `SMB2_STATUS_NO_GUID_TRANSLATION`.
pub const SMB2_STATUS_NO_GUID_TRANSLATION: u32 = 0xC000_010C;
/// SMB2 error status constant `SMB2_STATUS_CANNOT_IMPERSONATE`.
pub const SMB2_STATUS_CANNOT_IMPERSONATE: u32 = 0xC000_010D;
/// SMB2 error status constant `SMB2_STATUS_IMAGE_ALREADY_LOADED`.
pub const SMB2_STATUS_IMAGE_ALREADY_LOADED: u32 = 0xC000_010E;
/// SMB2 error status constant `SMB2_STATUS_ABIOS_NOT_PRESENT`.
pub const SMB2_STATUS_ABIOS_NOT_PRESENT: u32 = 0xC000_010F;
/// SMB2 error status constant `SMB2_STATUS_ABIOS_LID_NOT_EXIST`.
pub const SMB2_STATUS_ABIOS_LID_NOT_EXIST: u32 = 0xC000_0110;
/// SMB2 error status constant `SMB2_STATUS_ABIOS_LID_ALREADY_OWNED`.
pub const SMB2_STATUS_ABIOS_LID_ALREADY_OWNED: u32 = 0xC000_0111;
/// SMB2 error status constant `SMB2_STATUS_ABIOS_NOT_LID_OWNER`.
pub const SMB2_STATUS_ABIOS_NOT_LID_OWNER: u32 = 0xC000_0112;
/// SMB2 error status constant `SMB2_STATUS_ABIOS_INVALID_COMMAND`.
pub const SMB2_STATUS_ABIOS_INVALID_COMMAND: u32 = 0xC000_0113;
/// SMB2 error status constant `SMB2_STATUS_ABIOS_INVALID_LID`.
pub const SMB2_STATUS_ABIOS_INVALID_LID: u32 = 0xC000_0114;
/// SMB2 error status constant `SMB2_STATUS_ABIOS_SELECTOR_NOT_AVAILABLE`.
pub const SMB2_STATUS_ABIOS_SELECTOR_NOT_AVAILABLE: u32 = 0xC000_0115;
/// SMB2 error status constant `SMB2_STATUS_ABIOS_INVALID_SELECTOR`.
pub const SMB2_STATUS_ABIOS_INVALID_SELECTOR: u32 = 0xC000_0116;
/// SMB2 error status constant `SMB2_STATUS_NO_LDT`.
pub const SMB2_STATUS_NO_LDT: u32 = 0xC000_0117;
/// SMB2 error status constant `SMB2_STATUS_INVALID_LDT_SIZE`.
pub const SMB2_STATUS_INVALID_LDT_SIZE: u32 = 0xC000_0118;
/// SMB2 error status constant `SMB2_STATUS_INVALID_LDT_OFFSET`.
pub const SMB2_STATUS_INVALID_LDT_OFFSET: u32 = 0xC000_0119;
/// SMB2 error status constant `SMB2_STATUS_INVALID_LDT_DESCRIPTOR`.
pub const SMB2_STATUS_INVALID_LDT_DESCRIPTOR: u32 = 0xC000_011A;
/// SMB2 error status constant `SMB2_STATUS_INVALID_IMAGE_NE_FORMAT`.
pub const SMB2_STATUS_INVALID_IMAGE_NE_FORMAT: u32 = 0xC000_011B;
/// SMB2 error status constant `SMB2_STATUS_RXACT_INVALID_STATE`.
pub const SMB2_STATUS_RXACT_INVALID_STATE: u32 = 0xC000_011C;
/// SMB2 error status constant `SMB2_STATUS_RXACT_COMMIT_FAILURE`.
pub const SMB2_STATUS_RXACT_COMMIT_FAILURE: u32 = 0xC000_011D;
/// SMB2 error status constant `SMB2_STATUS_MAPPED_FILE_SIZE_ZERO`.
pub const SMB2_STATUS_MAPPED_FILE_SIZE_ZERO: u32 = 0xC000_011E;
/// SMB2 error status constant `SMB2_STATUS_TOO_MANY_OPENED_FILES`.
pub const SMB2_STATUS_TOO_MANY_OPENED_FILES: u32 = 0xC000_011F;
/// SMB2 error status constant `SMB2_STATUS_CANCELLED`.
pub const SMB2_STATUS_CANCELLED: u32 = 0xC000_0120;
/// SMB2 error status constant `SMB2_STATUS_CANNOT_DELETE`.
pub const SMB2_STATUS_CANNOT_DELETE: u32 = 0xC000_0121;
/// SMB2 error status constant `SMB2_STATUS_INVALID_COMPUTER_NAME`.
pub const SMB2_STATUS_INVALID_COMPUTER_NAME: u32 = 0xC000_0122;
/// SMB2 error status constant `SMB2_STATUS_FILE_DELETED`.
pub const SMB2_STATUS_FILE_DELETED: u32 = 0xC000_0123;
/// SMB2 error status constant `SMB2_STATUS_SPECIAL_ACCOUNT`.
pub const SMB2_STATUS_SPECIAL_ACCOUNT: u32 = 0xC000_0124;
/// SMB2 error status constant `SMB2_STATUS_SPECIAL_GROUP`.
pub const SMB2_STATUS_SPECIAL_GROUP: u32 = 0xC000_0125;
/// SMB2 error status constant `SMB2_STATUS_SPECIAL_USER`.
pub const SMB2_STATUS_SPECIAL_USER: u32 = 0xC000_0126;
/// SMB2 error status constant `SMB2_STATUS_MEMBERS_PRIMARY_GROUP`.
pub const SMB2_STATUS_MEMBERS_PRIMARY_GROUP: u32 = 0xC000_0127;
/// SMB2 error status constant `SMB2_STATUS_FILE_CLOSED`.
pub const SMB2_STATUS_FILE_CLOSED: u32 = 0xC000_0128;
/// SMB2 error status constant `SMB2_STATUS_TOO_MANY_THREADS`.
pub const SMB2_STATUS_TOO_MANY_THREADS: u32 = 0xC000_0129;
/// SMB2 error status constant `SMB2_STATUS_THREAD_NOT_IN_PROCESS`.
pub const SMB2_STATUS_THREAD_NOT_IN_PROCESS: u32 = 0xC000_012A;
/// SMB2 error status constant `SMB2_STATUS_TOKEN_ALREADY_IN_USE`.
pub const SMB2_STATUS_TOKEN_ALREADY_IN_USE: u32 = 0xC000_012B;
/// SMB2 error status constant `SMB2_STATUS_PAGEFILE_QUOTA_EXCEEDED`.
pub const SMB2_STATUS_PAGEFILE_QUOTA_EXCEEDED: u32 = 0xC000_012C;
/// SMB2 error status constant `SMB2_STATUS_COMMITMENT_LIMIT`.
pub const SMB2_STATUS_COMMITMENT_LIMIT: u32 = 0xC000_012D;
/// SMB2 error status constant `SMB2_STATUS_INVALID_IMAGE_LE_FORMAT`.
pub const SMB2_STATUS_INVALID_IMAGE_LE_FORMAT: u32 = 0xC000_012E;
/// SMB2 error status constant `SMB2_STATUS_INVALID_IMAGE_NOT_MZ`.
pub const SMB2_STATUS_INVALID_IMAGE_NOT_MZ: u32 = 0xC000_012F;
/// SMB2 error status constant `SMB2_STATUS_INVALID_IMAGE_PROTECT`.
pub const SMB2_STATUS_INVALID_IMAGE_PROTECT: u32 = 0xC000_0130;
/// SMB2 error status constant `SMB2_STATUS_INVALID_IMAGE_WIN_16`.
pub const SMB2_STATUS_INVALID_IMAGE_WIN_16: u32 = 0xC000_0131;
/// SMB2 error status constant `SMB2_STATUS_LOGON_SERVER_CONFLICT`.
pub const SMB2_STATUS_LOGON_SERVER_CONFLICT: u32 = 0xC000_0132;
/// SMB2 error status constant `SMB2_STATUS_TIME_DIFFERENCE_AT_DC`.
pub const SMB2_STATUS_TIME_DIFFERENCE_AT_DC: u32 = 0xC000_0133;
/// SMB2 error status constant `SMB2_STATUS_SYNCHRONIZATION_REQUIRED`.
pub const SMB2_STATUS_SYNCHRONIZATION_REQUIRED: u32 = 0xC000_0134;
/// SMB2 error status constant `SMB2_STATUS_DLL_NOT_FOUND`.
pub const SMB2_STATUS_DLL_NOT_FOUND: u32 = 0xC000_0135;
/// SMB2 error status constant `SMB2_STATUS_OPEN_FAILED`.
pub const SMB2_STATUS_OPEN_FAILED: u32 = 0xC000_0136;
/// SMB2 error status constant `SMB2_STATUS_IO_PRIVILEGE_FAILED`.
pub const SMB2_STATUS_IO_PRIVILEGE_FAILED: u32 = 0xC000_0137;
/// SMB2 error status constant `SMB2_STATUS_ORDINAL_NOT_FOUND`.
pub const SMB2_STATUS_ORDINAL_NOT_FOUND: u32 = 0xC000_0138;
/// SMB2 error status constant `SMB2_STATUS_ENTRYPOINT_NOT_FOUND`.
pub const SMB2_STATUS_ENTRYPOINT_NOT_FOUND: u32 = 0xC000_0139;
/// SMB2 error status constant `SMB2_STATUS_CONTROL_C_EXIT`.
pub const SMB2_STATUS_CONTROL_C_EXIT: u32 = 0xC000_013A;
/// SMB2 error status constant `SMB2_STATUS_LOCAL_DISCONNECT`.
pub const SMB2_STATUS_LOCAL_DISCONNECT: u32 = 0xC000_013B;
/// SMB2 error status constant `SMB2_STATUS_REMOTE_DISCONNECT`.
pub const SMB2_STATUS_REMOTE_DISCONNECT: u32 = 0xC000_013C;
/// SMB2 error status constant `SMB2_STATUS_REMOTE_RESOURCES`.
pub const SMB2_STATUS_REMOTE_RESOURCES: u32 = 0xC000_013D;
/// SMB2 error status constant `SMB2_STATUS_LINK_FAILED`.
pub const SMB2_STATUS_LINK_FAILED: u32 = 0xC000_013E;
/// SMB2 error status constant `SMB2_STATUS_LINK_TIMEOUT`.
pub const SMB2_STATUS_LINK_TIMEOUT: u32 = 0xC000_013F;
/// SMB2 error status constant `SMB2_STATUS_INVALID_CONNECTION`.
pub const SMB2_STATUS_INVALID_CONNECTION: u32 = 0xC000_0140;
/// SMB2 error status constant `SMB2_STATUS_INVALID_ADDRESS`.
pub const SMB2_STATUS_INVALID_ADDRESS: u32 = 0xC000_0141;
/// SMB2 error status constant `SMB2_STATUS_DLL_INIT_FAILED`.
pub const SMB2_STATUS_DLL_INIT_FAILED: u32 = 0xC000_0142;
/// SMB2 error status constant `SMB2_STATUS_MISSING_SYSTEMFILE`.
pub const SMB2_STATUS_MISSING_SYSTEMFILE: u32 = 0xC000_0143;
/// SMB2 error status constant `SMB2_STATUS_UNHANDLED_EXCEPTION`.
pub const SMB2_STATUS_UNHANDLED_EXCEPTION: u32 = 0xC000_0144;
/// SMB2 error status constant `SMB2_STATUS_APP_INIT_FAILURE`.
pub const SMB2_STATUS_APP_INIT_FAILURE: u32 = 0xC000_0145;
/// SMB2 error status constant `SMB2_STATUS_PAGEFILE_CREATE_FAILED`.
pub const SMB2_STATUS_PAGEFILE_CREATE_FAILED: u32 = 0xC000_0146;
/// SMB2 error status constant `SMB2_STATUS_NO_PAGEFILE`.
pub const SMB2_STATUS_NO_PAGEFILE: u32 = 0xC000_0147;
/// SMB2 error status constant `SMB2_STATUS_INVALID_LEVEL`.
pub const SMB2_STATUS_INVALID_LEVEL: u32 = 0xC000_0148;
/// SMB2 error status constant `SMB2_STATUS_WRONG_PASSWORD_CORE`.
pub const SMB2_STATUS_WRONG_PASSWORD_CORE: u32 = 0xC000_0149;
/// SMB2 error status constant `SMB2_STATUS_ILLEGAL_FLOAT_CONTEXT`.
pub const SMB2_STATUS_ILLEGAL_FLOAT_CONTEXT: u32 = 0xC000_014A;
/// SMB2 error status constant `SMB2_STATUS_PIPE_BROKEN`.
pub const SMB2_STATUS_PIPE_BROKEN: u32 = 0xC000_014B;
/// SMB2 error status constant `SMB2_STATUS_REGISTRY_CORRUPT`.
pub const SMB2_STATUS_REGISTRY_CORRUPT: u32 = 0xC000_014C;
/// SMB2 error status constant `SMB2_STATUS_REGISTRY_IO_FAILED`.
pub const SMB2_STATUS_REGISTRY_IO_FAILED: u32 = 0xC000_014D;
/// SMB2 error status constant `SMB2_STATUS_NO_EVENT_PAIR`.
pub const SMB2_STATUS_NO_EVENT_PAIR: u32 = 0xC000_014E;
/// SMB2 error status constant `SMB2_STATUS_UNRECOGNIZED_VOLUME`.
pub const SMB2_STATUS_UNRECOGNIZED_VOLUME: u32 = 0xC000_014F;
/// SMB2 error status constant `SMB2_STATUS_SERIAL_NO_DEVICE_INITED`.
pub const SMB2_STATUS_SERIAL_NO_DEVICE_INITED: u32 = 0xC000_0150;
/// SMB2 error status constant `SMB2_STATUS_NO_SUCH_ALIAS`.
pub const SMB2_STATUS_NO_SUCH_ALIAS: u32 = 0xC000_0151;
/// SMB2 error status constant `SMB2_STATUS_MEMBER_NOT_IN_ALIAS`.
pub const SMB2_STATUS_MEMBER_NOT_IN_ALIAS: u32 = 0xC000_0152;
/// SMB2 error status constant `SMB2_STATUS_MEMBER_IN_ALIAS`.
pub const SMB2_STATUS_MEMBER_IN_ALIAS: u32 = 0xC000_0153;
/// SMB2 error status constant `SMB2_STATUS_ALIAS_EXISTS`.
pub const SMB2_STATUS_ALIAS_EXISTS: u32 = 0xC000_0154;
/// SMB2 error status constant `SMB2_STATUS_LOGON_NOT_GRANTED`.
pub const SMB2_STATUS_LOGON_NOT_GRANTED: u32 = 0xC000_0155;
/// SMB2 error status constant `SMB2_STATUS_TOO_MANY_SECRETS`.
pub const SMB2_STATUS_TOO_MANY_SECRETS: u32 = 0xC000_0156;
/// SMB2 error status constant `SMB2_STATUS_SECRET_TOO_LONG`.
pub const SMB2_STATUS_SECRET_TOO_LONG: u32 = 0xC000_0157;
/// SMB2 error status constant `SMB2_STATUS_INTERNAL_DB_ERROR`.
pub const SMB2_STATUS_INTERNAL_DB_ERROR: u32 = 0xC000_0158;
/// SMB2 error status constant `SMB2_STATUS_FULLSCREEN_MODE`.
pub const SMB2_STATUS_FULLSCREEN_MODE: u32 = 0xC000_0159;
/// SMB2 error status constant `SMB2_STATUS_TOO_MANY_CONTEXT_IDS`.
pub const SMB2_STATUS_TOO_MANY_CONTEXT_IDS: u32 = 0xC000_015A;
/// SMB2 error status constant `SMB2_STATUS_LOGON_TYPE_NOT_GRANTED`.
pub const SMB2_STATUS_LOGON_TYPE_NOT_GRANTED: u32 = 0xC000_015B;
/// SMB2 error status constant `SMB2_STATUS_NOT_REGISTRY_FILE`.
pub const SMB2_STATUS_NOT_REGISTRY_FILE: u32 = 0xC000_015C;
/// SMB2 error status constant `SMB2_STATUS_NT_CROSS_ENCRYPTION_REQUIRED`.
pub const SMB2_STATUS_NT_CROSS_ENCRYPTION_REQUIRED: u32 = 0xC000_015D;
/// SMB2 error status constant `SMB2_STATUS_DOMAIN_CTRLR_CONFIG_ERROR`.
pub const SMB2_STATUS_DOMAIN_CTRLR_CONFIG_ERROR: u32 = 0xC000_015E;
/// SMB2 error status constant `SMB2_STATUS_FT_MISSING_MEMBER`.
pub const SMB2_STATUS_FT_MISSING_MEMBER: u32 = 0xC000_015F;
/// SMB2 error status constant `SMB2_STATUS_ILL_FORMED_SERVICE_ENTRY`.
pub const SMB2_STATUS_ILL_FORMED_SERVICE_ENTRY: u32 = 0xC000_0160;
/// SMB2 error status constant `SMB2_STATUS_ILLEGAL_CHARACTER`.
pub const SMB2_STATUS_ILLEGAL_CHARACTER: u32 = 0xC000_0161;
/// SMB2 error status constant `SMB2_STATUS_UNMAPPABLE_CHARACTER`.
pub const SMB2_STATUS_UNMAPPABLE_CHARACTER: u32 = 0xC000_0162;
/// SMB2 error status constant `SMB2_STATUS_UNDEFINED_CHARACTER`.
pub const SMB2_STATUS_UNDEFINED_CHARACTER: u32 = 0xC000_0163;
/// SMB2 error status constant `SMB2_STATUS_FLOPPY_VOLUME`.
pub const SMB2_STATUS_FLOPPY_VOLUME: u32 = 0xC000_0164;
/// SMB2 error status constant `SMB2_STATUS_FLOPPY_ID_MARK_NOT_FOUND`.
pub const SMB2_STATUS_FLOPPY_ID_MARK_NOT_FOUND: u32 = 0xC000_0165;
/// SMB2 error status constant `SMB2_STATUS_FLOPPY_WRONG_CYLINDER`.
pub const SMB2_STATUS_FLOPPY_WRONG_CYLINDER: u32 = 0xC000_0166;
/// SMB2 error status constant `SMB2_STATUS_FLOPPY_UNKNOWN_ERROR`.
pub const SMB2_STATUS_FLOPPY_UNKNOWN_ERROR: u32 = 0xC000_0167;
/// SMB2 error status constant `SMB2_STATUS_FLOPPY_BAD_REGISTERS`.
pub const SMB2_STATUS_FLOPPY_BAD_REGISTERS: u32 = 0xC000_0168;
/// SMB2 error status constant `SMB2_STATUS_DISK_RECALIBRATE_FAILED`.
pub const SMB2_STATUS_DISK_RECALIBRATE_FAILED: u32 = 0xC000_0169;
/// SMB2 error status constant `SMB2_STATUS_DISK_OPERATION_FAILED`.
pub const SMB2_STATUS_DISK_OPERATION_FAILED: u32 = 0xC000_016A;
/// SMB2 error status constant `SMB2_STATUS_DISK_RESET_FAILED`.
pub const SMB2_STATUS_DISK_RESET_FAILED: u32 = 0xC000_016B;
/// SMB2 error status constant `SMB2_STATUS_SHARED_IRQ_BUSY`.
pub const SMB2_STATUS_SHARED_IRQ_BUSY: u32 = 0xC000_016C;
/// SMB2 error status constant `SMB2_STATUS_FT_ORPHANING`.
pub const SMB2_STATUS_FT_ORPHANING: u32 = 0xC000_016D;
/// SMB2 error status constant `SMB2_STATUS_PARTITION_FAILURE`.
pub const SMB2_STATUS_PARTITION_FAILURE: u32 = 0xC000_0172;
/// SMB2 error status constant `SMB2_STATUS_INVALID_BLOCK_LENGTH`.
pub const SMB2_STATUS_INVALID_BLOCK_LENGTH: u32 = 0xC000_0173;
/// SMB2 error status constant `SMB2_STATUS_DEVICE_NOT_PARTITIONED`.
pub const SMB2_STATUS_DEVICE_NOT_PARTITIONED: u32 = 0xC000_0174;
/// SMB2 error status constant `SMB2_STATUS_UNABLE_TO_LOCK_MEDIA`.
pub const SMB2_STATUS_UNABLE_TO_LOCK_MEDIA: u32 = 0xC000_0175;
/// SMB2 error status constant `SMB2_STATUS_UNABLE_TO_UNLOAD_MEDIA`.
pub const SMB2_STATUS_UNABLE_TO_UNLOAD_MEDIA: u32 = 0xC000_0176;
/// SMB2 error status constant `SMB2_STATUS_EOM_OVERFLOW`.
pub const SMB2_STATUS_EOM_OVERFLOW: u32 = 0xC000_0177;
/// SMB2 error status constant `SMB2_STATUS_NO_MEDIA`.
pub const SMB2_STATUS_NO_MEDIA: u32 = 0xC000_0178;
/// SMB2 error status constant `SMB2_STATUS_NO_SUCH_MEMBER`.
pub const SMB2_STATUS_NO_SUCH_MEMBER: u32 = 0xC000_017A;
/// SMB2 error status constant `SMB2_STATUS_INVALID_MEMBER`.
pub const SMB2_STATUS_INVALID_MEMBER: u32 = 0xC000_017B;
/// SMB2 error status constant `SMB2_STATUS_KEY_DELETED`.
pub const SMB2_STATUS_KEY_DELETED: u32 = 0xC000_017C;
/// SMB2 error status constant `SMB2_STATUS_NO_LOG_SPACE`.
pub const SMB2_STATUS_NO_LOG_SPACE: u32 = 0xC000_017D;
/// SMB2 error status constant `SMB2_STATUS_TOO_MANY_SIDS`.
pub const SMB2_STATUS_TOO_MANY_SIDS: u32 = 0xC000_017E;
/// SMB2 error status constant `SMB2_STATUS_LM_CROSS_ENCRYPTION_REQUIRED`.
pub const SMB2_STATUS_LM_CROSS_ENCRYPTION_REQUIRED: u32 = 0xC000_017F;
/// SMB2 error status constant `SMB2_STATUS_KEY_HAS_CHILDREN`.
pub const SMB2_STATUS_KEY_HAS_CHILDREN: u32 = 0xC000_0180;
/// SMB2 error status constant `SMB2_STATUS_CHILD_MUST_BE_VOLATILE`.
pub const SMB2_STATUS_CHILD_MUST_BE_VOLATILE: u32 = 0xC000_0181;
/// SMB2 error status constant `SMB2_STATUS_DEVICE_CONFIGURATION_ERROR`.
pub const SMB2_STATUS_DEVICE_CONFIGURATION_ERROR: u32 = 0xC000_0182;
/// SMB2 error status constant `SMB2_STATUS_DRIVER_INTERNAL_ERROR`.
pub const SMB2_STATUS_DRIVER_INTERNAL_ERROR: u32 = 0xC000_0183;
/// SMB2 error status constant `SMB2_STATUS_INVALID_DEVICE_STATE`.
pub const SMB2_STATUS_INVALID_DEVICE_STATE: u32 = 0xC000_0184;
/// SMB2 error status constant `SMB2_STATUS_IO_DEVICE_ERROR`.
pub const SMB2_STATUS_IO_DEVICE_ERROR: u32 = 0xC000_0185;
/// SMB2 error status constant `SMB2_STATUS_DEVICE_PROTOCOL_ERROR`.
pub const SMB2_STATUS_DEVICE_PROTOCOL_ERROR: u32 = 0xC000_0186;
/// SMB2 error status constant `SMB2_STATUS_BACKUP_CONTROLLER`.
pub const SMB2_STATUS_BACKUP_CONTROLLER: u32 = 0xC000_0187;
/// SMB2 error status constant `SMB2_STATUS_LOG_FILE_FULL`.
pub const SMB2_STATUS_LOG_FILE_FULL: u32 = 0xC000_0188;
/// SMB2 error status constant `SMB2_STATUS_TOO_LATE`.
pub const SMB2_STATUS_TOO_LATE: u32 = 0xC000_0189;
/// SMB2 error status constant `SMB2_STATUS_NO_TRUST_LSA_SECRET`.
pub const SMB2_STATUS_NO_TRUST_LSA_SECRET: u32 = 0xC000_018A;
/// SMB2 error status constant `SMB2_STATUS_NO_TRUST_SAM_ACCOUNT`.
pub const SMB2_STATUS_NO_TRUST_SAM_ACCOUNT: u32 = 0xC000_018B;
/// SMB2 error status constant `SMB2_STATUS_TRUSTED_DOMAIN_FAILURE`.
pub const SMB2_STATUS_TRUSTED_DOMAIN_FAILURE: u32 = 0xC000_018C;
/// SMB2 error status constant `SMB2_STATUS_TRUSTED_RELATIONSHIP_FAILURE`.
pub const SMB2_STATUS_TRUSTED_RELATIONSHIP_FAILURE: u32 = 0xC000_018D;
/// SMB2 error status constant `SMB2_STATUS_EVENTLOG_FILE_CORRUPT`.
pub const SMB2_STATUS_EVENTLOG_FILE_CORRUPT: u32 = 0xC000_018E;
/// SMB2 error status constant `SMB2_STATUS_EVENTLOG_CANT_START`.
pub const SMB2_STATUS_EVENTLOG_CANT_START: u32 = 0xC000_018F;
/// SMB2 error status constant `SMB2_STATUS_TRUST_FAILURE`.
pub const SMB2_STATUS_TRUST_FAILURE: u32 = 0xC000_0190;
/// SMB2 error status constant `SMB2_STATUS_MUTANT_LIMIT_EXCEEDED`.
pub const SMB2_STATUS_MUTANT_LIMIT_EXCEEDED: u32 = 0xC000_0191;
/// SMB2 error status constant `SMB2_STATUS_NETLOGON_NOT_STARTED`.
pub const SMB2_STATUS_NETLOGON_NOT_STARTED: u32 = 0xC000_0192;
/// SMB2 error status constant `SMB2_STATUS_ACCOUNT_EXPIRED`.
pub const SMB2_STATUS_ACCOUNT_EXPIRED: u32 = 0xC000_0193;
/// SMB2 error status constant `SMB2_STATUS_POSSIBLE_DEADLOCK`.
pub const SMB2_STATUS_POSSIBLE_DEADLOCK: u32 = 0xC000_0194;
/// SMB2 error status constant `SMB2_STATUS_NETWORK_CREDENTIAL_CONFLICT`.
pub const SMB2_STATUS_NETWORK_CREDENTIAL_CONFLICT: u32 = 0xC000_0195;
/// SMB2 error status constant `SMB2_STATUS_REMOTE_SESSION_LIMIT`.
pub const SMB2_STATUS_REMOTE_SESSION_LIMIT: u32 = 0xC000_0196;
/// SMB2 error status constant `SMB2_STATUS_EVENTLOG_FILE_CHANGED`.
pub const SMB2_STATUS_EVENTLOG_FILE_CHANGED: u32 = 0xC000_0197;
/// SMB2 error status constant `SMB2_STATUS_NOLOGON_INTERDOMAIN_TRUST_ACCOUNT`.
pub const SMB2_STATUS_NOLOGON_INTERDOMAIN_TRUST_ACCOUNT: u32 = 0xC000_0198;
/// SMB2 error status constant `SMB2_STATUS_NOLOGON_WORKSTATION_TRUST_ACCOUNT`.
pub const SMB2_STATUS_NOLOGON_WORKSTATION_TRUST_ACCOUNT: u32 = 0xC000_0199;
/// SMB2 error status constant `SMB2_STATUS_NOLOGON_SERVER_TRUST_ACCOUNT`.
pub const SMB2_STATUS_NOLOGON_SERVER_TRUST_ACCOUNT: u32 = 0xC000_019A;
/// SMB2 error status constant `SMB2_STATUS_DOMAIN_TRUST_INCONSISTENT`.
pub const SMB2_STATUS_DOMAIN_TRUST_INCONSISTENT: u32 = 0xC000_019B;
/// SMB2 error status constant `SMB2_STATUS_FS_DRIVER_REQUIRED`.
pub const SMB2_STATUS_FS_DRIVER_REQUIRED: u32 = 0xC000_019C;
/// SMB2 error status constant `SMB2_STATUS_NO_USER_SESSION_KEY`.
pub const SMB2_STATUS_NO_USER_SESSION_KEY: u32 = 0xC000_0202;
/// SMB2 error status constant `SMB2_STATUS_USER_SESSION_DELETED`.
pub const SMB2_STATUS_USER_SESSION_DELETED: u32 = 0xC000_0203;
/// SMB2 error status constant `SMB2_STATUS_RESOURCE_LANG_NOT_FOUND`.
pub const SMB2_STATUS_RESOURCE_LANG_NOT_FOUND: u32 = 0xC000_0204;
/// SMB2 error status constant `SMB2_STATUS_INSUFF_SERVER_RESOURCES`.
pub const SMB2_STATUS_INSUFF_SERVER_RESOURCES: u32 = 0xC000_0205;
/// SMB2 error status constant `SMB2_STATUS_INVALID_BUFFER_SIZE`.
pub const SMB2_STATUS_INVALID_BUFFER_SIZE: u32 = 0xC000_0206;
/// SMB2 error status constant `SMB2_STATUS_INVALID_ADDRESS_COMPONENT`.
pub const SMB2_STATUS_INVALID_ADDRESS_COMPONENT: u32 = 0xC000_0207;
/// SMB2 error status constant `SMB2_STATUS_INVALID_ADDRESS_WILDCARD`.
pub const SMB2_STATUS_INVALID_ADDRESS_WILDCARD: u32 = 0xC000_0208;
/// SMB2 error status constant `SMB2_STATUS_TOO_MANY_ADDRESSES`.
pub const SMB2_STATUS_TOO_MANY_ADDRESSES: u32 = 0xC000_0209;
/// SMB2 error status constant `SMB2_STATUS_ADDRESS_ALREADY_EXISTS`.
pub const SMB2_STATUS_ADDRESS_ALREADY_EXISTS: u32 = 0xC000_020A;
/// SMB2 error status constant `SMB2_STATUS_ADDRESS_CLOSED`.
pub const SMB2_STATUS_ADDRESS_CLOSED: u32 = 0xC000_020B;
/// SMB2 error status constant `SMB2_STATUS_CONNECTION_DISCONNECTED`.
pub const SMB2_STATUS_CONNECTION_DISCONNECTED: u32 = 0xC000_020C;
/// SMB2 error status constant `SMB2_STATUS_CONNECTION_RESET`.
pub const SMB2_STATUS_CONNECTION_RESET: u32 = 0xC000_020D;
/// SMB2 error status constant `SMB2_STATUS_TOO_MANY_NODES`.
pub const SMB2_STATUS_TOO_MANY_NODES: u32 = 0xC000_020E;
/// SMB2 error status constant `SMB2_STATUS_TRANSACTION_ABORTED`.
pub const SMB2_STATUS_TRANSACTION_ABORTED: u32 = 0xC000_020F;
/// SMB2 error status constant `SMB2_STATUS_TRANSACTION_TIMED_OUT`.
pub const SMB2_STATUS_TRANSACTION_TIMED_OUT: u32 = 0xC000_0210;
/// SMB2 error status constant `SMB2_STATUS_TRANSACTION_NO_RELEASE`.
pub const SMB2_STATUS_TRANSACTION_NO_RELEASE: u32 = 0xC000_0211;
/// SMB2 error status constant `SMB2_STATUS_TRANSACTION_NO_MATCH`.
pub const SMB2_STATUS_TRANSACTION_NO_MATCH: u32 = 0xC000_0212;
/// SMB2 error status constant `SMB2_STATUS_TRANSACTION_RESPONDED`.
pub const SMB2_STATUS_TRANSACTION_RESPONDED: u32 = 0xC000_0213;
/// SMB2 error status constant `SMB2_STATUS_TRANSACTION_INVALID_ID`.
pub const SMB2_STATUS_TRANSACTION_INVALID_ID: u32 = 0xC000_0214;
/// SMB2 error status constant `SMB2_STATUS_TRANSACTION_INVALID_TYPE`.
pub const SMB2_STATUS_TRANSACTION_INVALID_TYPE: u32 = 0xC000_0215;
/// SMB2 error status constant `SMB2_STATUS_NOT_SERVER_SESSION`.
pub const SMB2_STATUS_NOT_SERVER_SESSION: u32 = 0xC000_0216;
/// SMB2 error status constant `SMB2_STATUS_NOT_CLIENT_SESSION`.
pub const SMB2_STATUS_NOT_CLIENT_SESSION: u32 = 0xC000_0217;
/// SMB2 error status constant `SMB2_STATUS_CANNOT_LOAD_REGISTRY_FILE`.
pub const SMB2_STATUS_CANNOT_LOAD_REGISTRY_FILE: u32 = 0xC000_0218;
/// SMB2 error status constant `SMB2_STATUS_DEBUG_ATTACH_FAILED`.
pub const SMB2_STATUS_DEBUG_ATTACH_FAILED: u32 = 0xC000_0219;
/// SMB2 error status constant `SMB2_STATUS_SYSTEM_PROCESS_TERMINATED`.
pub const SMB2_STATUS_SYSTEM_PROCESS_TERMINATED: u32 = 0xC000_021A;
/// SMB2 error status constant `SMB2_STATUS_DATA_NOT_ACCEPTED`.
pub const SMB2_STATUS_DATA_NOT_ACCEPTED: u32 = 0xC000_021B;
/// SMB2 error status constant `SMB2_STATUS_NO_BROWSER_SERVERS_FOUND`.
pub const SMB2_STATUS_NO_BROWSER_SERVERS_FOUND: u32 = 0xC000_021C;
/// SMB2 error status constant `SMB2_STATUS_VDM_HARD_ERROR`.
pub const SMB2_STATUS_VDM_HARD_ERROR: u32 = 0xC000_021D;
/// SMB2 error status constant `SMB2_STATUS_DRIVER_CANCEL_TIMEOUT`.
pub const SMB2_STATUS_DRIVER_CANCEL_TIMEOUT: u32 = 0xC000_021E;
/// SMB2 error status constant `SMB2_STATUS_REPLY_MESSAGE_MISMATCH`.
pub const SMB2_STATUS_REPLY_MESSAGE_MISMATCH: u32 = 0xC000_021F;
/// SMB2 error status constant `SMB2_STATUS_MAPPED_ALIGNMENT`.
pub const SMB2_STATUS_MAPPED_ALIGNMENT: u32 = 0xC000_0220;
/// SMB2 error status constant `SMB2_STATUS_IMAGE_CHECKSUM_MISMATCH`.
pub const SMB2_STATUS_IMAGE_CHECKSUM_MISMATCH: u32 = 0xC000_0221;
/// SMB2 error status constant `SMB2_STATUS_LOST_WRITEBEHIND_DATA`.
pub const SMB2_STATUS_LOST_WRITEBEHIND_DATA: u32 = 0xC000_0222;
/// SMB2 error status constant `SMB2_STATUS_CLIENT_SERVER_PARAMETERS_INVALID`.
pub const SMB2_STATUS_CLIENT_SERVER_PARAMETERS_INVALID: u32 = 0xC000_0223;
/// SMB2 error status constant `SMB2_STATUS_PASSWORD_MUST_CHANGE`.
pub const SMB2_STATUS_PASSWORD_MUST_CHANGE: u32 = 0xC000_0224;
/// SMB2 error status constant `SMB2_STATUS_NOT_FOUND`.
pub const SMB2_STATUS_NOT_FOUND: u32 = 0xC000_0225;
/// SMB2 error status constant `SMB2_STATUS_NOT_TINY_STREAM`.
pub const SMB2_STATUS_NOT_TINY_STREAM: u32 = 0xC000_0226;
/// SMB2 error status constant `SMB2_STATUS_RECOVERY_FAILURE`.
pub const SMB2_STATUS_RECOVERY_FAILURE: u32 = 0xC000_0227;
/// SMB2 error status constant `SMB2_STATUS_STACK_OVERFLOW_READ`.
pub const SMB2_STATUS_STACK_OVERFLOW_READ: u32 = 0xC000_0228;
/// SMB2 error status constant `SMB2_STATUS_FAIL_CHECK`.
pub const SMB2_STATUS_FAIL_CHECK: u32 = 0xC000_0229;
/// SMB2 error status constant `SMB2_STATUS_DUPLICATE_OBJECTID`.
pub const SMB2_STATUS_DUPLICATE_OBJECTID: u32 = 0xC000_022A;
/// SMB2 error status constant `SMB2_STATUS_OBJECTID_EXISTS`.
pub const SMB2_STATUS_OBJECTID_EXISTS: u32 = 0xC000_022B;
/// SMB2 error status constant `SMB2_STATUS_CONVERT_TO_LARGE`.
pub const SMB2_STATUS_CONVERT_TO_LARGE: u32 = 0xC000_022C;
/// SMB2 error status constant `SMB2_STATUS_RETRY`.
pub const SMB2_STATUS_RETRY: u32 = 0xC000_022D;
/// SMB2 error status constant `SMB2_STATUS_FOUND_OUT_OF_SCOPE`.
pub const SMB2_STATUS_FOUND_OUT_OF_SCOPE: u32 = 0xC000_022E;
/// SMB2 error status constant `SMB2_STATUS_ALLOCATE_BUCKET`.
pub const SMB2_STATUS_ALLOCATE_BUCKET: u32 = 0xC000_022F;
/// SMB2 error status constant `SMB2_STATUS_PROPSET_NOT_FOUND`.
pub const SMB2_STATUS_PROPSET_NOT_FOUND: u32 = 0xC000_0230;
/// SMB2 error status constant `SMB2_STATUS_MARSHALL_OVERFLOW`.
pub const SMB2_STATUS_MARSHALL_OVERFLOW: u32 = 0xC000_0231;
/// SMB2 error status constant `SMB2_STATUS_INVALID_VARIANT`.
pub const SMB2_STATUS_INVALID_VARIANT: u32 = 0xC000_0232;
/// SMB2 error status constant `SMB2_STATUS_DOMAIN_CONTROLLER_NOT_FOUND`.
pub const SMB2_STATUS_DOMAIN_CONTROLLER_NOT_FOUND: u32 = 0xC000_0233;
/// SMB2 error status constant `SMB2_STATUS_ACCOUNT_LOCKED_OUT`.
pub const SMB2_STATUS_ACCOUNT_LOCKED_OUT: u32 = 0xC000_0234;
/// SMB2 error status constant `SMB2_STATUS_HANDLE_NOT_CLOSABLE`.
pub const SMB2_STATUS_HANDLE_NOT_CLOSABLE: u32 = 0xC000_0235;
/// SMB2 error status constant `SMB2_STATUS_CONNECTION_REFUSED`.
pub const SMB2_STATUS_CONNECTION_REFUSED: u32 = 0xC000_0236;
/// SMB2 error status constant `SMB2_STATUS_GRACEFUL_DISCONNECT`.
pub const SMB2_STATUS_GRACEFUL_DISCONNECT: u32 = 0xC000_0237;
/// SMB2 error status constant `SMB2_STATUS_ADDRESS_ALREADY_ASSOCIATED`.
pub const SMB2_STATUS_ADDRESS_ALREADY_ASSOCIATED: u32 = 0xC000_0238;
/// SMB2 error status constant `SMB2_STATUS_ADDRESS_NOT_ASSOCIATED`.
pub const SMB2_STATUS_ADDRESS_NOT_ASSOCIATED: u32 = 0xC000_0239;
/// SMB2 error status constant `SMB2_STATUS_CONNECTION_INVALID`.
pub const SMB2_STATUS_CONNECTION_INVALID: u32 = 0xC000_023A;
/// SMB2 error status constant `SMB2_STATUS_CONNECTION_ACTIVE`.
pub const SMB2_STATUS_CONNECTION_ACTIVE: u32 = 0xC000_023B;
/// SMB2 error status constant `SMB2_STATUS_NETWORK_UNREACHABLE`.
pub const SMB2_STATUS_NETWORK_UNREACHABLE: u32 = 0xC000_023C;
/// SMB2 error status constant `SMB2_STATUS_HOST_UNREACHABLE`.
pub const SMB2_STATUS_HOST_UNREACHABLE: u32 = 0xC000_023D;
/// SMB2 error status constant `SMB2_STATUS_PROTOCOL_UNREACHABLE`.
pub const SMB2_STATUS_PROTOCOL_UNREACHABLE: u32 = 0xC000_023E;
/// SMB2 error status constant `SMB2_STATUS_PORT_UNREACHABLE`.
pub const SMB2_STATUS_PORT_UNREACHABLE: u32 = 0xC000_023F;
/// SMB2 error status constant `SMB2_STATUS_REQUEST_ABORTED`.
pub const SMB2_STATUS_REQUEST_ABORTED: u32 = 0xC000_0240;
/// SMB2 error status constant `SMB2_STATUS_CONNECTION_ABORTED`.
pub const SMB2_STATUS_CONNECTION_ABORTED: u32 = 0xC000_0241;
/// SMB2 error status constant `SMB2_STATUS_BAD_COMPRESSION_BUFFER`.
pub const SMB2_STATUS_BAD_COMPRESSION_BUFFER: u32 = 0xC000_0242;
/// SMB2 error status constant `SMB2_STATUS_USER_MAPPED_FILE`.
pub const SMB2_STATUS_USER_MAPPED_FILE: u32 = 0xC000_0243;
/// SMB2 error status constant `SMB2_STATUS_AUDIT_FAILED`.
pub const SMB2_STATUS_AUDIT_FAILED: u32 = 0xC000_0244;
/// SMB2 error status constant `SMB2_STATUS_TIMER_RESOLUTION_NOT_SET`.
pub const SMB2_STATUS_TIMER_RESOLUTION_NOT_SET: u32 = 0xC000_0245;
/// SMB2 error status constant `SMB2_STATUS_CONNECTION_COUNT_LIMIT`.
pub const SMB2_STATUS_CONNECTION_COUNT_LIMIT: u32 = 0xC000_0246;
/// SMB2 error status constant `SMB2_STATUS_LOGIN_TIME_RESTRICTION`.
pub const SMB2_STATUS_LOGIN_TIME_RESTRICTION: u32 = 0xC000_0247;
/// SMB2 error status constant `SMB2_STATUS_LOGIN_WKSTA_RESTRICTION`.
pub const SMB2_STATUS_LOGIN_WKSTA_RESTRICTION: u32 = 0xC000_0248;
/// SMB2 error status constant `SMB2_STATUS_IMAGE_MP_UP_MISMATCH`.
pub const SMB2_STATUS_IMAGE_MP_UP_MISMATCH: u32 = 0xC000_0249;
/// SMB2 error status constant `SMB2_STATUS_INSUFFICIENT_LOGON_INFO`.
pub const SMB2_STATUS_INSUFFICIENT_LOGON_INFO: u32 = 0xC000_0250;
/// SMB2 error status constant `SMB2_STATUS_BAD_DLL_ENTRYPOINT`.
pub const SMB2_STATUS_BAD_DLL_ENTRYPOINT: u32 = 0xC000_0251;
/// SMB2 error status constant `SMB2_STATUS_BAD_SERVICE_ENTRYPOINT`.
pub const SMB2_STATUS_BAD_SERVICE_ENTRYPOINT: u32 = 0xC000_0252;
/// SMB2 error status constant `SMB2_STATUS_LPC_REPLY_LOST`.
pub const SMB2_STATUS_LPC_REPLY_LOST: u32 = 0xC000_0253;
/// SMB2 error status constant `SMB2_STATUS_IP_ADDRESS_CONFLICT1`.
pub const SMB2_STATUS_IP_ADDRESS_CONFLICT1: u32 = 0xC000_0254;
/// SMB2 error status constant `SMB2_STATUS_IP_ADDRESS_CONFLICT2`.
pub const SMB2_STATUS_IP_ADDRESS_CONFLICT2: u32 = 0xC000_0255;
/// SMB2 error status constant `SMB2_STATUS_REGISTRY_QUOTA_LIMIT`.
pub const SMB2_STATUS_REGISTRY_QUOTA_LIMIT: u32 = 0xC000_0256;
/// SMB2 error status constant `SMB2_STATUS_PATH_NOT_COVERED`.
pub const SMB2_STATUS_PATH_NOT_COVERED: u32 = 0xC000_0257;
/// SMB2 error status constant `SMB2_STATUS_NO_CALLBACK_ACTIVE`.
pub const SMB2_STATUS_NO_CALLBACK_ACTIVE: u32 = 0xC000_0258;
/// SMB2 error status constant `SMB2_STATUS_LICENSE_QUOTA_EXCEEDED`.
pub const SMB2_STATUS_LICENSE_QUOTA_EXCEEDED: u32 = 0xC000_0259;
/// SMB2 error status constant `SMB2_STATUS_PWD_TOO_SHORT`.
pub const SMB2_STATUS_PWD_TOO_SHORT: u32 = 0xC000_025A;
/// SMB2 error status constant `SMB2_STATUS_PWD_TOO_RECENT`.
pub const SMB2_STATUS_PWD_TOO_RECENT: u32 = 0xC000_025B;
/// SMB2 error status constant `SMB2_STATUS_PWD_HISTORY_CONFLICT`.
pub const SMB2_STATUS_PWD_HISTORY_CONFLICT: u32 = 0xC000_025C;
/// SMB2 error status constant `SMB2_STATUS_PLUGPLAY_NO_DEVICE`.
pub const SMB2_STATUS_PLUGPLAY_NO_DEVICE: u32 = 0xC000_025E;
/// SMB2 error status constant `SMB2_STATUS_UNSUPPORTED_COMPRESSION`.
pub const SMB2_STATUS_UNSUPPORTED_COMPRESSION: u32 = 0xC000_025F;
/// SMB2 error status constant `SMB2_STATUS_INVALID_HW_PROFILE`.
pub const SMB2_STATUS_INVALID_HW_PROFILE: u32 = 0xC000_0260;
/// SMB2 error status constant `SMB2_STATUS_INVALID_PLUGPLAY_DEVICE_PATH`.
pub const SMB2_STATUS_INVALID_PLUGPLAY_DEVICE_PATH: u32 = 0xC000_0261;
/// SMB2 error status constant `SMB2_STATUS_DRIVER_ORDINAL_NOT_FOUND`.
pub const SMB2_STATUS_DRIVER_ORDINAL_NOT_FOUND: u32 = 0xC000_0262;
/// SMB2 error status constant `SMB2_STATUS_DRIVER_ENTRYPOINT_NOT_FOUND`.
pub const SMB2_STATUS_DRIVER_ENTRYPOINT_NOT_FOUND: u32 = 0xC000_0263;
/// SMB2 error status constant `SMB2_STATUS_RESOURCE_NOT_OWNED`.
pub const SMB2_STATUS_RESOURCE_NOT_OWNED: u32 = 0xC000_0264;
/// SMB2 error status constant `SMB2_STATUS_TOO_MANY_LINKS`.
pub const SMB2_STATUS_TOO_MANY_LINKS: u32 = 0xC000_0265;
/// SMB2 error status constant `SMB2_STATUS_QUOTA_LIST_INCONSISTENT`.
pub const SMB2_STATUS_QUOTA_LIST_INCONSISTENT: u32 = 0xC000_0266;
/// SMB2 error status constant `SMB2_STATUS_FILE_IS_OFFLINE`.
pub const SMB2_STATUS_FILE_IS_OFFLINE: u32 = 0xC000_0267;
/// SMB2 error status constant `SMB2_STATUS_VOLUME_DISMOUNTED`.
pub const SMB2_STATUS_VOLUME_DISMOUNTED: u32 = 0xC000_026E;
/// SMB2 error status constant `SMB2_STATUS_NOT_A_REPARSE_POINT`.
pub const SMB2_STATUS_NOT_A_REPARSE_POINT: u32 = 0xC000_0275;
/// SMB2 error status constant `SMB2_STATUS_SERVER_UNAVAILABLE`.
pub const SMB2_STATUS_SERVER_UNAVAILABLE: u32 = 0xC000_0466;
/// SMB2 warning status constant `SMB2_STATUS_BUFFER_OVERFLOW`.
pub const SMB2_STATUS_BUFFER_OVERFLOW: u32 = 0x8000_0005;
/// SMB2 warning status constant `SMB2_STATUS_STOPPED_ON_SYMLINK`.
pub const SMB2_STATUS_STOPPED_ON_SYMLINK: u32 = 0x8000_002D;

/// Backwards-compatible shorthand alias for `SMB2_STATUS_SUCCESS`.
pub const STATUS_SUCCESS: u32 = SMB2_STATUS_SUCCESS;
/// Backwards-compatible shorthand alias for `SMB2_STATUS_UNSUCCESSFUL`.
pub const STATUS_UNSUCCESSFUL: u32 = SMB2_STATUS_UNSUCCESSFUL;

/// Severity bits extracted from an NTSTATUS value.
#[derive(Debug, Clone, Copy, PartialEq, Eq)]
pub enum NtStatusSeverity {
    /// Successful completion severity.
    Success,
    /// Informational severity.
    Informational,
    /// Warning severity.
    Warning,
    /// Error severity.
    Error,
    /// Reserved or otherwise unknown severity bit pattern.
    Unknown(u32),
}

/// Wrapper for a raw SMB2 NTSTATUS value.
#[derive(Debug, Clone, Copy, PartialEq, Eq, Hash)]
pub struct NtStatus(u32);

/// Severity class of a raw NTSTATUS value: its top two bits.
pub open spec fn severity_of(status: u32) -> NtStatusSeverity {
    let bits = status & SMB2_STATUS_SEVERITY_MASK;
    if bits == SMB2_STATUS_SEVERITY_SUCCESS {
        NtStatusSeverity::Success
    } else if bits == SMB2_STATUS_SEVERITY_INFO {
        NtStatusSeverity::Informational
    } else if bits == SMB2_STATUS_SEVERITY_WARNING {
        NtStatusSeverity::Warning
    } else if bits == SMB2_STATUS_SEVERITY_ERROR {
        NtStatusSeverity::Error
    } else {
        NtStatusSeverity::Unknown(bits)
    }
}

impl NtStatus {
    /// The raw 32-bit value held by the wrapper.
    pub closed spec fn value(self) -> u32 {
        self.0
    }

    /// Creates a wrapper from the raw 32-bit NTSTATUS value.
    #[must_use]
    pub fn new(raw: u32) -> (r: Self)
        ensures
            r.value() == raw,
    {
        Self(raw)
    }

    /// Returns the raw 32-bit NTSTATUS value.
    #[must_use]
    pub fn raw(self) -> (r: u32)
        ensures
            r == self.value(),
    {
        self.0
    }

    /// Returns the severity field for this NTSTATUS value.
    #[must_use]
    pub fn severity(self) -> (r: NtStatusSeverity)
        ensures
            r == severity_of(self.value()),
    {
        ntstatus_severity(self.0)
    }

    /// Returns `true` when the customer-defined bit is set.
    #[must_use]
    pub fn is_customer_defined(self) -> (r: bool)
        ensures
            r == (self.value() & SMB2_STATUS_CUSTOMER_MASK != 0),
    {
        ntstatus_customer(self.0)
    }

    /// Returns the facility field for this NTSTATUS value.
    #[must_use]
    pub fn facility(self) -> (r: u32)
        ensures
            r == self.value() & SMB2_STATUS_FACILITY_MASK,
    {
        ntstatus_facility(self.0)
    }

    /// Returns the code field for this NTSTATUS value.
    #[must_use]
    pub fn code(self) -> (r: u32)
        ensures
            r == self.value() & SMB2_STATUS_CODE_MASK,
    {
        ntstatus_code(self.0)
    }

    /// Returns `true` when this value is `SMB2_STATUS_SUCCESS`.
    #[must_use]
    pub fn is_success(self) -> (r: bool)
        ensures
            r == (self.value() == SMB2_STATUS_SUCCESS),
    {
        self.0 == SMB2_STATUS_SUCCESS
    }
}

impl From<u32> for NtStatus {
    fn from(value: u32) -> (r: Self)
        ensures
            r.value() == value,
    {
        Self::new(value)
    }
}

impl vstd::std_specs::convert::FromSpecImpl<u32> for NtStatus {
    open spec fn obeys_from_spec() -> bool {
        true
    }

    closed spec fn from_spec(v: u32) -> Self {
        NtStatus(v)
    }
}

/// Returns the severity field for a raw NTSTATUS value.
#[must_use]
pub fn ntstatus_severity(status: u32) -> (r: NtStatusSeverity)
    ensures
        r == severity_of(status),
{
    let bits = status & SMB2_STATUS_SEVERITY_MASK;
    if bits == SMB2_STATUS_SEVERITY_SUCCESS {
        NtStatusSeverity::Success
    } else if bits == SMB2_STATUS_SEVERITY_INFO {
        NtStatusSeverity::Informational
    } else if bits == SMB2_STATUS_SEVERITY_WARNING {
        NtStatusSeverity::Warning
    } else if bits == SMB2_STATUS_SEVERITY_ERROR {
        NtStatusSeverity::Error
    } else {
        NtStatusSeverity::Unknown(bits)
    }
}

/// The severity of a status is one of the four defined classes.
pub proof fn lemma_severity_is_known(status: u32)
    ensures
        !(severity_of(status) is Unknown),
{
    let bits = status & 0xC000_0000u32;
    assert(bits == 0 || bits == 0x4000_0000 || bits == 0x8000_0000 || bits == 0xC000_0000)
        by (bit_vector)
        requires
            bits == status & 0xC000_0000u32,
    ;
}

/// Returns `true` when the customer-defined bit is set in a raw NTSTATUS value.
#[must_use]
pub fn ntstatus_customer(status: u32) -> (r: bool)
    ensures
        r == (status & SMB2_STATUS_CUSTOMER_MASK != 0),
{
    (status & SMB2_STATUS_CUSTOMER_MASK) != 0
}

/// Returns the facility field from a raw NTSTATUS value.
#[must_use]
pub fn ntstatus_facility(status: u32) -> (r: u32)
    ensures
        r == status & SMB2_STATUS_FACILITY_MASK,
{
    status & SMB2_STATUS_FACILITY_MASK
}

/// Returns the code field from a raw NTSTATUS value.
#[must_use]
pub fn ntstatus_code(status: u32) -> (r: u32)
    ensures
        r == status & SMB2_STATUS_CODE_MASK,
{
    status & SMB2_STATUS_CODE_MASK
}

/// A known NTSTATUS value with its constant name.
#[derive(Debug, Clone, Copy, PartialEq, Eq)]
pub struct NtStatusEntry {
    /// Numeric NTSTATUS value.
    pub status: NtStatus,
    /// Constant name of the value.
    pub name: &'static str,
}

impl NtStatusEntry {
    /// Creates a status-name entry.
    #[must_use]
    pub fn new(status: u32, name: &'static str) -> (r: Self)
        ensures
            r.status.value() == status,
            r.name == name,
    {
        Self {
            status: NtStatus::new(status),
            name,
        }
    }

    /// Returns `true` when this entry matches the supplied raw status value.
    #[must_use]
    pub fn matches(self, status: u32) -> (r: bool)
        ensures
            r == (self.status.value() == status),
    {
        self.status.raw() == status
    }
}

/// The constant name of each known NTSTATUS value; when two names
/// share a value, the first listed name.
pub open spec fn status_name(status: u32) -> Option<Seq<char>> {
    match status {
        SMB2_STATUS_SEVERITY_MASK => Some("SMB2_STATUS_SEVERITY_MASK"@),
        SMB2_STATUS_SEVERITY_SUCCESS => Some("SMB2_STATUS_SEVERITY_SUCCESS"@),
        SMB2_STATUS_SEVERITY_INFO => Some("SMB2_STATUS_SEVERITY_INFO"@),
        SMB2_STATUS_SEVERITY_WARNING => Some("SMB2_STATUS_SEVERITY_WARNING"@),
        SMB2_STATUS_CUSTOMER_MASK => Some("SMB2_STATUS_CUSTOMER_MASK"@),
        SMB2_STATUS_FACILITY_MASK => Some("SMB2_STATUS_FACILITY_MASK"@),
        SMB2_STATUS_CODE_MASK => Some("SMB2_STATUS_CODE_MASK"@),
        SMB2_STATUS_SHUTDOWN => Some("SMB2_STATUS_SHUTDOWN"@),
        SMB2_STATUS_PENDING => Some("SMB2_STATUS_PENDING"@),
        SMB2_STATUS_SMB_BAD_FID => Some("SMB2_STATUS_SMB_BAD_FID"@),
        SMB2_STATUS_NO_MORE_FILES => Some("SMB2_STATUS_NO_MORE_FILES"@),
        SMB2_STATUS_UNSUCCESSFUL => Some("SMB2_STATUS_UNSUCCESSFUL"@),
        SMB2_STATUS_NOT_IMPLEMENTED => Some("SMB2_STATUS_NOT_IMPLEMENTED"@),
        SMB2_STATUS_INVALID_INFO_CLASS => Some("SMB2_STATUS_INVALID_INFO_CLASS"@),
        SMB2_STATUS_INFO_LENGTH_MISMATCH => Some("SMB2_STATUS_INFO_LENGTH_MISMATCH"@),
        SMB2_STATUS_ACCESS_VIOLATION => Some("SMB2_STATUS_ACCESS_VIOLATION"@),
        SMB2_STATUS_IN_PAGE_ERROR => Some("SMB2_STATUS_IN_PAGE_ERROR"@),
        SMB2_STATUS_PAGEFILE_QUOTA => Some("SMB2_STATUS_PAGEFILE_QUOTA"@),
        SMB2_STATUS_INVALID_HANDLE => Some("SMB2_STATUS_INVALID_HANDLE"@),
        SMB2_STATUS_BAD_INITIAL_STACK => Some("SMB2_STATUS_BAD_INITIAL_STACK"@),
        SMB2_STATUS_BAD_INITIAL_PC => Some("SMB2_STATUS_BAD_INITIAL_PC"@),
        SMB2_STATUS_INVALID_CID => Some("SMB2_STATUS_INVALID_CID"@),
        SMB2_STATUS_TIMER_NOT_CANCELED => Some("SMB2_STATUS_TIMER_NOT_CANCELED"@),
        SMB2_STATUS_INVALID_PARAMETER => Some("SMB2_STATUS_INVALID_PARAMETER"@),
        SMB2_STATUS_NO_SUCH_DEVICE => Some("SMB2_STATUS_NO_SUCH_DEVICE"@),
        SMB2_STATUS_NO_SUCH_FILE => Some("SMB2_STATUS_NO_SUCH_FILE"@),
        SMB2_STATUS_INVALID_DEVICE_REQUEST => Some("SMB2_STATUS_INVALID_DEVICE_REQUEST"@),
        SMB2_STATUS_END_OF_FILE => Some("SMB2_STATUS_END_OF_FILE"@),
        SMB2_STATUS_WRONG_VOLUME => Some("SMB2_STATUS_WRONG_VOLUME"@),
        SMB2_STATUS_NO_MEDIA_IN_DEVICE => Some("SMB2_STATUS_NO_MEDIA_IN_DEVICE"@),
        SMB2_STATUS_UNRECOGNIZED_MEDIA => Some("SMB2_STATUS_UNRECOGNIZED_MEDIA"@),
        SMB2_STATUS_NONEXISTENT_SECTOR => Some("SMB2_STATUS_NONEXISTENT_SECTOR"@),
        SMB2_STATUS_MORE_PROCESSING_REQUIRED => Some("SMB2_STATUS_MORE_PROCESSING_REQUIRED"@),
        SMB2_STATUS_NO_MEMORY => Some("SMB2_STATUS_NO_MEMORY"@),
        SMB2_STATUS_CONFLICTING_ADDRESSES => Some("SMB2_STATUS_CONFLICTING_ADDRESSES"@),
        SMB2_STATUS_NOT_MAPPED_VIEW => Some("SMB2_STATUS_NOT_MAPPED_VIEW"@),
        SMB2_STATUS_UNABLE_TO_FREE_VM => Some("SMB2_STATUS_UNABLE_TO_FREE_VM"@),
        SMB2_STATUS_UNABLE_TO_DELETE_SECTION => Some("SMB2_STATUS_UNABLE_TO_DELETE_SECTION"@),
        SMB2_STATUS_INVALID_SYSTEM_SERVICE => Some("SMB2_STATUS_INVALID_SYSTEM_SERVICE"@),
        SMB2_STATUS_ILLEGAL_INSTRUCTION => Some("SMB2_STATUS_ILLEGAL_INSTRUCTION"@),
        SMB2_STATUS_INVALID_LOCK_SEQUENCE => Some("SMB2_STATUS_INVALID_LOCK_SEQUENCE"@),
        SMB2_STATUS_INVALID_VIEW_SIZE => Some("SMB2_STATUS_INVALID_VIEW_SIZE"@),
        SMB2_STATUS_INVALID_FILE_FOR_SECTION => Some("SMB2_STATUS_INVALID_FILE_FOR_SECTION"@),
        SMB2_STATUS_ALREADY_COMMITTED => Some("SMB2_STATUS_ALREADY_COMMITTED"@),
        SMB2_STATUS_ACCESS_DENIED => Some("SMB2_STATUS_ACCESS_DENIED"@),
        SMB2_STATUS_BUFFER_TOO_SMALL => Some("SMB2_STATUS_BUFFER_TOO_SMALL"@),
        SMB2_STATUS_OBJECT_TYPE_MISMATCH => Some("SMB2_STATUS_OBJECT_TYPE_MISMATCH"@),
        SMB2_STATUS_NONCONTINUABLE_EXCEPTION => Some("SMB2_STATUS_NONCONTINUABLE_EXCEPTION"@),
        SMB2_STATUS_INVALID_DISPOSITION => Some("SMB2_STATUS_INVALID_DISPOSITION"@),
        SMB2_STATUS_UNWIND => Some("SMB2_STATUS_UNWIND"@),
        SMB2_STATUS_BAD_STACK => Some("SMB2_STATUS_BAD_STACK"@),
        SMB2_STATUS_INVALID_UNWIND_TARGET => Some("SMB2_STATUS_INVALID_UNWIND_TARGET"@),
        SMB2_STATUS_NOT_LOCKED => Some("SMB2_STATUS_NOT_LOCKED"@),
        SMB2_STATUS_PARITY_ERROR => Some("SMB2_STATUS_PARITY_ERROR"@),
        SMB2_STATUS_UNABLE_TO_DECOMMIT_VM => Some("SMB2_STATUS_UNABLE_TO_DECOMMIT_VM"@),
        SMB2_STATUS_NOT_COMMITTED => Some("SMB2_STATUS_NOT_COMMITTED"@),
        SMB2_STATUS_INVALID_PORT_ATTRIBUTES => Some("SMB2_STATUS_INVALID_PORT_ATTRIBUTES"@),
        SMB2_STATUS_PORT_MESSAGE_TOO_LONG => Some("SMB2_STATUS_PORT_MESSAGE_TOO_LONG"@),
        SMB2_STATUS_INVALID_PARAMETER_MIX => Some("SMB2_STATUS_INVALID_PARAMETER_MIX"@),
        SMB2_STATUS_INVALID_QUOTA_LOWER => Some("SMB2_STATUS_INVALID_QUOTA_LOWER"@),
        SMB2_STATUS_DISK_CORRUPT_ERROR => Some("SMB2_STATUS_DISK_CORRUPT_ERROR"@),
        SMB2_STATUS_OBJECT_NAME_INVALID => Some("SMB2_STATUS_OBJECT_NAME_INVALID"@),
        SMB2_STATUS_OBJECT_NAME_NOT_FOUND => Some("SMB2_STATUS_OBJECT_NAME_NOT_FOUND"@),
        SMB2_STATUS_OBJECT_NAME_COLLISION => Some("SMB2_STATUS_OBJECT_NAME_COLLISION"@),
        SMB2_STATUS_HANDLE_NOT_WAITABLE => Some("SMB2_STATUS_HANDLE_NOT_WAITABLE"@),
        SMB2_STATUS_PORT_DISCONNECTED => Some("SMB2_STATUS_PORT_DISCONNECTED"@),
        SMB2_STATUS_DEVICE_ALREADY_ATTACHED => Some("SMB2_STATUS_DEVICE_ALREADY_ATTACHED"@),
        SMB2_STATUS_OBJECT_PATH_INVALID => Some("SMB2_STATUS_OBJECT_PATH_INVALID"@),
        SMB2_STATUS_OBJECT_PATH_NOT_FOUND => Some("SMB2_STATUS_OBJECT_PATH_NOT_FOUND"@),
        SMB2_STATUS_OBJECT_PATH_SYNTAX_BAD => Some("SMB2_STATUS_OBJECT_PATH_SYNTAX_BAD"@),
        SMB2_STATUS_DATA_OVERRUN => Some("SMB2_STATUS_DATA_OVERRUN"@),
        SMB2_STATUS_DATA_LATE_ERROR => Some("SMB2_STATUS_DATA_LATE_ERROR"@),
        SMB2_STATUS_DATA_ERROR => Some("SMB2_STATUS_DATA_ERROR"@),
        SMB2_STATUS_CRC_ERROR => Some("SMB2_STATUS_CRC_ERROR"@),
        SMB2_STATUS_SECTION_TOO_BIG => Some("SMB2_STATUS_SECTION_TOO_BIG"@),
        SMB2_STATUS_PORT_CONNECTION_REFUSED => Some("SMB2_STATUS_PORT_CONNECTION_REFUSED"@),
        SMB2_STATUS_INVALID_PORT_HANDLE => Some("SMB2_STATUS_INVALID_PORT_HANDLE"@),
        SMB2_STATUS_SHARING_VIOLATION => Some("SMB2_STATUS_SHARING_VIOLATION"@),
        SMB2_STATUS_QUOTA_EXCEEDED => Some("SMB2_STATUS_QUOTA_EXCEEDED"@),
        SMB2_STATUS_INVALID_PAGE_PROTECTION => Some("SMB2_STATUS_INVALID_PAGE_PROTECTION"@),
        SMB2_STATUS_MUTANT_NOT_OWNED => Some("SMB2_STATUS_MUTANT_NOT_OWNED"@),
        SMB2_STATUS_SEMAPHORE_LIMIT_EXCEEDED => Some("SMB2_STATUS_SEMAPHORE_LIMIT_EXCEEDED"@),
        SMB2_STATUS_PORT_ALREADY_SET => Some("SMB2_STATUS_PORT_ALREADY_SET"@),
        SMB2_STATUS_SECTION_NOT_IMAGE => Some("SMB2_STATUS_SECTION_NOT_IMAGE"@),
        SMB2_STATUS_SUSPEND_COUNT_EXCEEDED => Some("SMB2_STATUS_SUSPEND_COUNT_EXCEEDED"@),
        SMB2_STATUS_THREAD_IS_TERMINATING => Some("SMB2_STATUS_THREAD_IS_TERMINATING"@),
        SMB2_STATUS_BAD_WORKING_SET_LIMIT => Some("SMB2_STATUS_BAD_WORKING_SET_LIMIT"@),
        SMB2_STATUS_INCOMPATIBLE_FILE_MAP => Some("SMB2_STATUS_INCOMPATIBLE_FILE_MAP"@),
        SMB2_STATUS_SECTION_PROTECTION => Some("SMB2_STATUS_SECTION_PROTECTION"@),
        SMB2_STATUS_EAS_NOT_SUPPORTED => Some("SMB2_STATUS_EAS_NOT_SUPPORTED"@),
        SMB2_STATUS_EA_TOO_LARGE => Some("SMB2_STATUS_EA_TOO_LARGE"@),
        SMB2_STATUS_NONEXISTENT_EA_ENTRY => Some("SMB2_STATUS_NONEXISTENT_EA_ENTRY"@),
        SMB2_STATUS_NO_EAS_ON_FILE => Some("SMB2_STATUS_NO_EAS_ON_FILE"@),
        SMB2_STATUS_EA_CORRUPT_ERROR => Some("SMB2_STATUS_EA_CORRUPT_ERROR"@),
        SMB2_STATUS_FILE_LOCK_CONFLICT => Some("SMB2_STATUS_FILE_LOCK_CONFLICT"@),
        SMB2_STATUS_LOCK_NOT_GRANTED => Some("SMB2_STATUS_LOCK_NOT_GRANTED"@),
        SMB2_STATUS_DELETE_PENDING => Some("SMB2_STATUS_DELETE_PENDING"@),
        SMB2_STATUS_CTL_FILE_NOT_SUPPORTED => Some("SMB2_STATUS_CTL_FILE_NOT_SUPPORTED"@),
        SMB2_STATUS_UNKNOWN_REVISION => Some("SMB2_STATUS_UNKNOWN_REVISION"@),
        SMB2_STATUS_REVISION_MISMATCH => Some("SMB2_STATUS_REVISION_MISMATCH"@),
        SMB2_STATUS_INVALID_OWNER => Some("SMB2_STATUS_INVALID_OWNER"@),
        SMB2_STATUS_INVALID_PRIMARY_GROUP => Some("SMB2_STATUS_INVALID_PRIMARY_GROUP"@),
        SMB2_STATUS_NO_IMPERSONATION_TOKEN => Some("SMB2_STATUS_NO_IMPERSONATION_TOKEN"@),
        SMB2_STATUS_CANT_DISABLE_MANDATORY => Some("SMB2_STATUS_CANT_DISABLE_MANDATORY"@),
        SMB2_STATUS_NO_LOGON_SERVERS => Some("SMB2_STATUS_NO_LOGON_SERVERS"@),
        SMB2_STATUS_NO_SUCH_LOGON_SESSION => Some("SMB2_STATUS_NO_SUCH_LOGON_SESSION"@),
        SMB2_STATUS_NO_SUCH_PRIVILEGE => Some("SMB2_STATUS_NO_SUCH_PRIVILEGE"@),
        SMB2_STATUS_PRIVILEGE_NOT_HELD => Some("SMB2_STATUS_PRIVILEGE_NOT_HELD"@),
        SMB2_STATUS_INVALID_ACCOUNT_NAME => Some("SMB2_STATUS_INVALID_ACCOUNT_NAME"@),
        SMB2_STATUS_USER_EXISTS => Some("SMB2_STATUS_USER_EXISTS"@),
        SMB2_STATUS_NO_SUCH_USER => Some("SMB2_STATUS_NO_SUCH_USER"@),
        SMB2_STATUS_GROUP_EXISTS => Some("SMB2_STATUS_GROUP_EXISTS"@),
        SMB2_STATUS_NO_SUCH_GROUP => Some("SMB2_STATUS_NO_SUCH_GROUP"@),
        SMB2_STATUS_MEMBER_IN_GROUP => Some("SMB2_STATUS_MEMBER_IN_GROUP"@),
        SMB2_STATUS_MEMBER_NOT_IN_GROUP => Some("SMB2_STATUS_MEMBER_NOT_IN_GROUP"@),
        SMB2_STATUS_LAST_ADMIN => Some("SMB2_STATUS_LAST_ADMIN"@),
        SMB2_STATUS_WRONG_PASSWORD => Some("SMB2_STATUS_WRONG_PASSWORD"@),
        SMB2_STATUS_ILL_FORMED_PASSWORD => Some("SMB2_STATUS_ILL_FORMED_PASSWORD"@),
        SMB2_STATUS_PASSWORD_RESTRICTION => Some("SMB2_STATUS_PASSWORD_RESTRICTION"@),
        SMB2_STATUS_LOGON_FAILURE => Some("SMB2_STATUS_LOGON_FAILURE"@),
        SMB2_STATUS_ACCOUNT_RESTRICTION => Some("SMB2_STATUS_ACCOUNT_RESTRICTION"@),
        SMB2_STATUS_INVALID_LOGON_HOURS => Some("SMB2_STATUS_INVALID_LOGON_HOURS"@),
        SMB2_STATUS_INVALID_WORKSTATION => Some("SMB2_STATUS_INVALID_WORKSTATION"@),
        SMB2_STATUS_PASSWORD_EXPIRED => Some("SMB2_STATUS_PASSWORD_EXPIRED"@),
        SMB2_STATUS_ACCOUNT_DISABLED => Some("SMB2_STATUS_ACCOUNT_DISABLED"@),
        SMB2_STATUS_NONE_MAPPED => Some("SMB2_STATUS_NONE_MAPPED"@),
        SMB2_STATUS_TOO_MANY_LUIDS_REQUESTED => Some("SMB2_STATUS_TOO_MANY_LUIDS_REQUESTED"@),
        SMB2_STATUS_LUIDS_EXHAUSTED => Some("SMB2_STATUS_LUIDS_EXHAUSTED"@),
        SMB2_STATUS_INVALID_SUB_AUTHORITY => Some("SMB2_STATUS_INVALID_SUB_AUTHORITY"@),
        SMB2_STATUS_INVALID_ACL => Some("SMB2_STATUS_INVALID_ACL"@),
        SMB2_STATUS_INVALID_SID => Some("SMB2_STATUS_INVALID_SID"@),
        SMB2_STATUS_INVALID_SECURITY_DESCR => Some("SMB2_STATUS_INVALID_SECURITY_DESCR"@),
        SMB2_STATUS_PROCEDURE_NOT_FOUND => Some("SMB2_STATUS_PROCEDURE_NOT_FOUND"@),
        SMB2_STATUS_INVALID_IMAGE_FORMAT => Some("SMB2_STATUS_INVALID_IMAGE_FORMAT"@),
        SMB2_STATUS_NO_TOKEN => Some("SMB2_STATUS_NO_TOKEN"@),
        SMB2_STATUS_BAD_INHERITANCE_ACL => Some("SMB2_STATUS_BAD_INHERITANCE_ACL"@),
        SMB2_STATUS_RANGE_NOT_LOCKED => Some("SMB2_STATUS_RANGE_NOT_LOCKED"@),
        SMB2_STATUS_DISK_FULL => Some("SMB2_STATUS_DISK_FULL"@),
        SMB2_STATUS_SERVER_DISABLED => Some("SMB2_STATUS_SERVER_DISABLED"@),
        SMB2_STATUS_SERVER_NOT_DISABLED => Some("SMB2_STATUS_SERVER_NOT_DISABLED"@),
        SMB2_STATUS_TOO_MANY_GUIDS_REQUESTED => Some("SMB2_STATUS_TOO_MANY_GUIDS_REQUESTED"@),
        SMB2_STATUS_GUIDS_EXHAUSTED => Some("SMB2_STATUS_GUIDS_EXHAUSTED"@),
        SMB2_STATUS_INVALID_ID_AUTHORITY => Some("SMB2_STATUS_INVALID_ID_AUTHORITY"@),
        SMB2_STATUS_AGENTS_EXHAUSTED => Some("SMB2_STATUS_AGENTS_EXHAUSTED"@),
        SMB2_STATUS_INVALID_VOLUME_LABEL => Some("SMB2_STATUS_INVALID_VOLUME_LABEL"@),
        SMB2_STATUS_SECTION_NOT_EXTENDED => Some("SMB2_STATUS_SECTION_NOT_EXTENDED"@),
        SMB2_STATUS_NOT_MAPPED_DATA => Some("SMB2_STATUS_NOT_MAPPED_DATA"@),
        SMB2_STATUS_RESOURCE_DATA_NOT_FOUND => Some("SMB2_STATUS_RESOURCE_DATA_NOT_FOUND"@),
        SMB2_STATUS_RESOURCE_TYPE_NOT_FOUND => Some("SMB2_STATUS_RESOURCE_TYPE_NOT_FOUND"@),
        SMB2_STATUS_RESOURCE_NAME_NOT_FOUND => Some("SMB2_STATUS_RESOURCE_NAME_NOT_FOUND"@),
        SMB2_STATUS_ARRAY_BOUNDS_EXCEEDED => Some("SMB2_STATUS_ARRAY_BOUNDS_EXCEEDED"@),
        SMB2_STATUS_FLOAT_DENORMAL_OPERAND => Some("SMB2_STATUS_FLOAT_DENORMAL_OPERAND"@),
        SMB2_STATUS_FLOAT_DIVIDE_BY_ZERO => Some("SMB2_STATUS_FLOAT_DIVIDE_BY_ZERO"@),
        SMB2_STATUS_FLOAT_INEXACT_RESULT => Some("SMB2_STATUS_FLOAT_INEXACT_RESULT"@),
        SMB2_STATUS_FLOAT_INVALID_OPERATION => Some("SMB2_STATUS_FLOAT_INVALID_OPERATION"@),
        SMB2_STATUS_FLOAT_OVERFLOW => Some("SMB2_STATUS_FLOAT_OVERFLOW"@),
        SMB2_STATUS_FLOAT_STACK_CHECK => Some("SMB2_STATUS_FLOAT_STACK_CHECK"@),
        SMB2_STATUS_FLOAT_UNDERFLOW => Some("SMB2_STATUS_FLOAT_UNDERFLOW"@),
        SMB2_STATUS_INTEGER_DIVIDE_BY_ZERO => Some("SMB2_STATUS_INTEGER_DIVIDE_BY_ZERO"@),
        SMB2_STATUS_INTEGER_OVERFLOW => Some("SMB2_STATUS_INTEGER_OVERFLOW"@),
        SMB2_STATUS_PRIVILEGED_INSTRUCTION => Some("SMB2_STATUS_PRIVILEGED_INSTRUCTION"@),
        SMB2_STATUS_TOO_MANY_PAGING_FILES => Some("SMB2_STATUS_TOO_MANY_PAGING_FILES"@),
        SMB2_STATUS_FILE_INVALID => Some("SMB2_STATUS_FILE_INVALID"@),
        SMB2_STATUS_ALLOTTED_SPACE_EXCEEDED => Some("SMB2_STATUS_ALLOTTED_SPACE_EXCEEDED"@),
        SMB2_STATUS_INSUFFICIENT_RESOURCES => Some("SMB2_STATUS_INSUFFICIENT_RESOURCES"@),
        SMB2_STATUS_DFS_EXIT_PATH_FOUND => Some("SMB2_STATUS_DFS_EXIT_PATH_FOUND"@),
        SMB2_STATUS_DEVICE_DATA_ERROR => Some("SMB2_STATUS_DEVICE_DATA_ERROR"@),
        SMB2_STATUS_DEVICE_NOT_CONNECTED => Some("SMB2_STATUS_DEVICE_NOT_CONNECTED"@),
        SMB2_STATUS_DEVICE_POWER_FAILURE => Some("SMB2_STATUS_DEVICE_POWER_FAILURE"@),
        SMB2_STATUS_FREE_VM_NOT_AT_BASE => Some("SMB2_STATUS_FREE_VM_NOT_AT_BASE"@),
        SMB2_STATUS_MEMORY_NOT_ALLOCATED => Some("SMB2_STATUS_MEMORY_NOT_ALLOCATED"@),
        SMB2_STATUS_WORKING_SET_QUOTA => Some("SMB2_STATUS_WORKING_SET_QUOTA"@),
        SMB2_STATUS_MEDIA_WRITE_PROTECTED => Some("SMB2_STATUS_MEDIA_WRITE_PROTECTED"@),
        SMB2_STATUS_DEVICE_NOT_READY => Some("SMB2_STATUS_DEVICE_NOT_READY"@),
        SMB2_STATUS_INVALID_GROUP_ATTRIBUTES => Some("SMB2_STATUS_INVALID_GROUP_ATTRIBUTES"@),
        SMB2_STATUS_BAD_IMPERSONATION_LEVEL => Some("SMB2_STATUS_BAD_IMPERSONATION_LEVEL"@),
        SMB2_STATUS_CANT_OPEN_ANONYMOUS => Some("SMB2_STATUS_CANT_OPEN_ANONYMOUS"@),
        SMB2_STATUS_BAD_VALIDATION_CLASS => Some("SMB2_STATUS_BAD_VALIDATION_CLASS"@),
        SMB2_STATUS_BAD_TOKEN_TYPE => Some("SMB2_STATUS_BAD_TOKEN_TYPE"@),
        SMB2_STATUS_BAD_MASTER_BOOT_RECORD => Some("SMB2_STATUS_BAD_MASTER_BOOT_RECORD"@),
        SMB2_STATUS_INSTRUCTION_MISALIGNMENT => Some("SMB2_STATUS_INSTRUCTION_MISALIGNMENT"@),
        SMB2_STATUS_INSTANCE_NOT_AVAILABLE => Some("SMB2_STATUS_INSTANCE_NOT_AVAILABLE"@),
        SMB2_STATUS_PIPE_NOT_AVAILABLE => Some("SMB2_STATUS_PIPE_NOT_AVAILABLE"@),
        SMB2_STATUS_INVALID_PIPE_STATE => Some("SMB2_STATUS_INVALID_PIPE_STATE"@),
        SMB2_STATUS_PIPE_BUSY => Some("SMB2_STATUS_PIPE_BUSY"@),
        SMB2_STATUS_ILLEGAL_FUNCTION => Some("SMB2_STATUS_ILLEGAL_FUNCTION"@),
        SMB2_STATUS_PIPE_DISCONNECTED => Some("SMB2_STATUS_PIPE_DISCONNECTED"@),
        SMB2_STATUS_PIPE_CLOSING => Some("SMB2_STATUS_PIPE_CLOSING"@),
        SMB2_STATUS_PIPE_CONNECTED => Some("SMB2_STATUS_PIPE_CONNECTED"@),
        SMB2_STATUS_PIPE_LISTENING => Some("SMB2_STATUS_PIPE_LISTENING"@),
        SMB2_STATUS_INVALID_READ_MODE => Some("SMB2_STATUS_INVALID_READ_MODE"@),
        SMB2_STATUS_IO_TIMEOUT => Some("SMB2_STATUS_IO_TIMEOUT"@),
        SMB2_STATUS_FILE_FORCED_CLOSED => Some("SMB2_STATUS_FILE_FORCED_CLOSED"@),
        SMB2_STATUS_PROFILING_NOT_STARTED => Some("SMB2_STATUS_PROFILING_NOT_STARTED"@),
        SMB2_STATUS_PROFILING_NOT_STOPPED => Some("SMB2_STATUS_PROFILING_NOT_STOPPED"@),
        SMB2_STATUS_COULD_NOT_INTERPRET => Some("SMB2_STATUS_COULD_NOT_INTERPRET"@),
        SMB2_STATUS_FILE_IS_A_DIRECTORY => Some("SMB2_STATUS_FILE_IS_A_DIRECTORY"@),
        SMB2_STATUS_NOT_SUPPORTED => Some("SMB2_STATUS_NOT_SUPPORTED"@),
        SMB2_STATUS_REMOTE_NOT_LISTENING => Some("SMB2_STATUS_REMOTE_NOT_LISTENING"@),
        SMB2_STATUS_DUPLICATE_NAME => Some("SMB2_STATUS_DUPLICATE_NAME"@),
        SMB2_STATUS_BAD_NETWORK_PATH => Some("SMB2_STATUS_BAD_NETWORK_PATH"@),
        SMB2_STATUS_NETWORK_BUSY => Some("SMB2_STATUS_NETWORK_BUSY"@),
        SMB2_STATUS_DEVICE_DOES_NOT_EXIST => Some("SMB2_STATUS_DEVICE_DOES_NOT_EXIST"@),
        SMB2_STATUS_TOO_MANY_COMMANDS => Some("SMB2_STATUS_TOO_MANY_COMMANDS"@),
        SMB2_STATUS_ADAPTER_HARDWARE_ERROR => Some("SMB2_STATUS_ADAPTER_HARDWARE_ERROR"@),
        SMB2_STATUS_INVALID_NETWORK_RESPONSE => Some("SMB2_STATUS_INVALID_NETWORK_RESPONSE"@),
        SMB2_STATUS_UNEXPECTED_NETWORK_ERROR => Some("SMB2_STATUS_UNEXPECTED_NETWORK_ERROR"@),
        SMB2_STATUS_BAD_REMOTE_ADAPTER => Some("SMB2_STATUS_BAD_REMOTE_ADAPTER"@),
        SMB2_STATUS_PRINT_QUEUE_FULL => Some("SMB2_STATUS_PRINT_QUEUE_FULL"@),
        SMB2_STATUS_NO_SPOOL_SPACE => Some("SMB2_STATUS_NO_SPOOL_SPACE"@),
        SMB2_STATUS_PRINT_CANCELLED => Some("SMB2_STATUS_PRINT_CANCELLED"@),
        SMB2_STATUS_NETWORK_NAME_DELETED => Some("SMB2_STATUS_NETWORK_NAME_DELETED"@),
        SMB2_STATUS_NETWORK_ACCESS_DENIED => Some("SMB2_STATUS_NETWORK_ACCESS_DENIED"@),
        SMB2_STATUS_BAD_DEVICE_TYPE => Some("SMB2_STATUS_BAD_DEVICE_TYPE"@),
        SMB2_STATUS_BAD_NETWORK_NAME => Some("SMB2_STATUS_BAD_NETWORK_NAME"@),
        SMB2_STATUS_TOO_MANY_NAMES => Some("SMB2_STATUS_TOO_MANY_NAMES"@),
        SMB2_STATUS_TOO_MANY_SESSIONS => Some("SMB2_STATUS_TOO_MANY_SESSIONS"@),
        SMB2_STATUS_SHARING_PAUSED => Some("SMB2_STATUS_SHARING_PAUSED"@),
        SMB2_STATUS_REQUEST_NOT_ACCEPTED => Some("SMB2_STATUS_REQUEST_NOT_ACCEPTED"@),
        SMB2_STATUS_REDIRECTOR_PAUSED => Some("SMB2_STATUS_REDIRECTOR_PAUSED"@),
        SMB2_STATUS_NET_WRITE_FAULT => Some("SMB2_STATUS_NET_WRITE_FAULT"@),
        SMB2_STATUS_PROFILING_AT_LIMIT => Some("SMB2_STATUS_PROFILING_AT_LIMIT"@),
        SMB2_STATUS_NOT_SAME_DEVICE => Some("SMB2_STATUS_NOT_SAME_DEVICE"@),
        SMB2_STATUS_FILE_RENAMED => Some("SMB2_STATUS_FILE_RENAMED"@),
        SMB2_STATUS_VIRTUAL_CIRCUIT_CLOSED => Some("SMB2_STATUS_VIRTUAL_CIRCUIT_CLOSED"@),
        SMB2_STATUS_NO_SECURITY_ON_OBJECT => Some("SMB2_STATUS_NO_SECURITY_ON_OBJECT"@),
        SMB2_STATUS_CANT_WAIT => Some("SMB2_STATUS_CANT_WAIT"@),
        SMB2_STATUS_PIPE_EMPTY => Some("SMB2_STATUS_PIPE_EMPTY"@),
        SMB2_STATUS_CANT_ACCESS_DOMAIN_INFO => Some("SMB2_STATUS_CANT_ACCESS_DOMAIN_INFO"@),
        SMB2_STATUS_CANT_TERMINATE_SELF => Some("SMB2_STATUS_CANT_TERMINATE_SELF"@),
        SMB2_STATUS_INVALID_SERVER_STATE => Some("SMB2_STATUS_INVALID_SERVER_STATE"@),
        SMB2_STATUS_INVALID_DOMAIN_STATE => Some("SMB2_STATUS_INVALID_DOMAIN_STATE"@),
        SMB2_STATUS_INVALID_DOMAIN_ROLE => Some("SMB2_STATUS_INVALID_DOMAIN_ROLE"@),
        SMB2_STATUS_NO_SUCH_DOMAIN => Some("SMB2_STATUS_NO_SUCH_DOMAIN"@),
        SMB2_STATUS_DOMAIN_EXISTS => Some("SMB2_STATUS_DOMAIN_EXISTS"@),
        SMB2_STATUS_DOMAIN_LIMIT_EXCEEDED => Some("SMB2_STATUS_DOMAIN_LIMIT_EXCEEDED"@),
        SMB2_STATUS_OPLOCK_NOT_GRANTED => Some("SMB2_STATUS_OPLOCK_NOT_GRANTED"@),
        SMB2_STATUS_INVALID_OPLOCK_PROTOCOL => Some("SMB2_STATUS_INVALID_OPLOCK_PROTOCOL"@),
        SMB2_STATUS_INTERNAL_DB_CORRUPTION => Some("SMB2_STATUS_INTERNAL_DB_CORRUPTION"@),
        SMB2_STATUS_INTERNAL_ERROR => Some("SMB2_STATUS_INTERNAL_ERROR"@),
        SMB2_STATUS_GENERIC_NOT_MAPPED => Some("SMB2_STATUS_GENERIC_NOT_MAPPED"@),
        SMB2_STATUS_BAD_DESCRIPTOR_FORMAT => Some("SMB2_STATUS_BAD_DESCRIPTOR_FORMAT"@),
        SMB2_STATUS_INVALID_USER_BUFFER => Some("SMB2_STATUS_INVALID_USER_BUFFER"@),
        SMB2_STATUS_UNEXPECTED_IO_ERROR => Some("SMB2_STATUS_UNEXPECTED_IO_ERROR"@),
        SMB2_STATUS_UNEXPECTED_MM_CREATE_ERR => Some("SMB2_STATUS_UNEXPECTED_MM_CREATE_ERR"@),
        SMB2_STATUS_UNEXPECTED_MM_MAP_ERROR => Some("SMB2_STATUS_UNEXPECTED_MM_MAP_ERROR"@),
        SMB2_STATUS_UNEXPECTED_MM_EXTEND_ERR => Some("SMB2_STATUS_UNEXPECTED_MM_EXTEND_ERR"@),
        SMB2_STATUS_NOT_LOGON_PROCESS => Some("SMB2_STATUS_NOT_LOGON_PROCESS"@),
        SMB2_STATUS_LOGON_SESSION_EXISTS => Some("SMB2_STATUS_LOGON_SESSION_EXISTS"@),
        SMB2_STATUS_INVALID_PARAMETER_1 => Some("SMB2_STATUS_INVALID_PARAMETER_1"@),
        SMB2_STATUS_INVALID_PARAMETER_2 => Some("SMB2_STATUS_INVALID_PARAMETER_2"@),
        SMB2_STATUS_INVALID_PARAMETER_3 => Some("SMB2_STATUS_INVALID_PARAMETER_3"@),
        SMB2_STATUS_INVALID_PARAMETER_4 => Some("SMB2_STATUS_INVALID_PARAMETER_4"@),
        SMB2_STATUS_INVALID_PARAMETER_5 => Some("SMB2_STATUS_INVALID_PARAMETER_5"@),
        SMB2_STATUS_INVALID_PARAMETER_6 => Some("SMB2_STATUS_INVALID_PARAMETER_6"@),
        SMB2_STATUS_INVALID_PARAMETER_7 => Some("SMB2_STATUS_INVALID_PARAMETER_7"@),
        SMB2_STATUS_INVALID_PARAMETER_8 => Some("SMB2_STATUS_INVALID_PARAMETER_8"@),
        SMB2_STATUS_INVALID_PARAMETER_9 => Some("SMB2_STATUS_INVALID_PARAMETER_9"@),
        SMB2_STATUS_INVALID_PARAMETER_10 => Some("SMB2_STATUS_INVALID_PARAMETER_10"@),
        SMB2_STATUS_INVALID_PARAMETER_11 => Some("SMB2_STATUS_INVALID_PARAMETER_11"@),
        SMB2_STATUS_INVALID_PARAMETER_12 => Some("SMB2_STATUS_INVALID_PARAMETER_12"@),
        SMB2_STATUS_REDIRECTOR_NOT_STARTED => Some("SMB2_STATUS_REDIRECTOR_NOT_STARTED"@),
        SMB2_STATUS_REDIRECTOR_STARTED => Some("SMB2_STATUS_REDIRECTOR_STARTED"@),
        SMB2_STATUS_STACK_OVERFLOW => Some("SMB2_STATUS_STACK_OVERFLOW"@),
        SMB2_STATUS_NO_SUCH_PACKAGE => Some("SMB2_STATUS_NO_SUCH_PACKAGE"@),
        SMB2_STATUS_BAD_FUNCTION_TABLE => Some("SMB2_STATUS_BAD_FUNCTION_TABLE"@),
        SMB2_STATUS_DIRECTORY_NOT_EMPTY => Some("SMB2_STATUS_DIRECTORY_NOT_EMPTY"@),
        SMB2_STATUS_FILE_CORRUPT_ERROR => Some("SMB2_STATUS_FILE_CORRUPT_ERROR"@),
        SMB2_STATUS_NOT_A_DIRECTORY => Some("SMB2_STATUS_NOT_A_DIRECTORY"@),
        SMB2_STATUS_BAD_LOGON_SESSION_STATE => Some("SMB2_STATUS_BAD_LOGON_SESSION_STATE"@),
        SMB2_STATUS_LOGON_SESSION_COLLISION => Some("SMB2_STATUS_LOGON_SESSION_COLLISION"@),
        SMB2_STATUS_NAME_TOO_LONG => Some("SMB2_STATUS_NAME_TOO_LONG"@),
        SMB2_STATUS_FILES_OPEN => Some("SMB2_STATUS_FILES_OPEN"@),
        SMB2_STATUS_CONNECTION_IN_USE => Some("SMB2_STATUS_CONNECTION_IN_USE"@),
        SMB2_STATUS_MESSAGE_NOT_FOUND => Some("SMB2_STATUS_MESSAGE_NOT_FOUND"@),
        SMB2_STATUS_PROCESS_IS_TERMINATING => Some("SMB2_STATUS_PROCESS_IS_TERMINATING"@),
        SMB2_STATUS_INVALID_LOGON_TYPE => Some("SMB2_STATUS_INVALID_LOGON_TYPE"@),
        SMB2_STATUS_NO_GUID_TRANSLATION => Some("SMB2_STATUS_NO_GUID_TRANSLATION"@),
        SMB2_STATUS_CANNOT_IMPERSONATE => Some("SMB2_STATUS_CANNOT_IMPERSONATE"@),
        SMB2_STATUS_IMAGE_ALREADY_LOADED => Some("SMB2_STATUS_IMAGE_ALREADY_LOADED"@),
        SMB2_STATUS_ABIOS_NOT_PRESENT => Some("SMB2_STATUS_ABIOS_NOT_PRESENT"@),
        SMB2_STATUS_ABIOS_LID_NOT_EXIST => Some("SMB2_STATUS_ABIOS_LID_NOT_EXIST"@),
        SMB2_STATUS_ABIOS_LID_ALREADY_OWNED => Some("SMB2_STATUS_ABIOS_LID_ALREADY_OWNED"@),
        SMB2_STATUS_ABIOS_NOT_LID_OWNER => Some("SMB2_STATUS_ABIOS_NOT_LID_OWNER"@),
        SMB2_STATUS_ABIOS_INVALID_COMMAND => Some("SMB2_STATUS_ABIOS_INVALID_COMMAND"@),
        SMB2_STATUS_ABIOS_INVALID_LID => Some("SMB2_STATUS_ABIOS_INVALID_LID"@),
        SMB2_STATUS_ABIOS_SELECTOR_NOT_AVAILABLE => Some("SMB2_STATUS_ABIOS_SELECTOR_NOT_AVAILABLE"@),
        SMB2_STATUS_ABIOS_INVALID_SELECTOR => Some("SMB2_STATUS_ABIOS_INVALID_SELECTOR"@),
        SMB2_STATUS_NO_LDT => Some("SMB2_STATUS_NO_LDT"@),
        SMB2_STATUS_INVALID_LDT_SIZE => Some("SMB2_STATUS_INVALID_LDT_SIZE"@),
        SMB2_STATUS_INVALID_LDT_OFFSET => Some("SMB2_STATUS_INVALID_LDT_OFFSET"@),
        SMB2_STATUS_INVALID_LDT_DESCRIPTOR => Some("SMB2_STATUS_INVALID_LDT_DESCRIPTOR"@),
        SMB2_STATUS_INVALID_IMAGE_NE_FORMAT => Some("SMB2_STATUS_INVALID_IMAGE_NE_FORMAT"@),
        SMB2_STATUS_RXACT_INVALID_STATE => Some("SMB2_STATUS_RXACT_INVALID_STATE"@),
        SMB2_STATUS_RXACT_COMMIT_FAILURE => Some("SMB2_STATUS_RXACT_COMMIT_FAILURE"@),
        SMB2_STATUS_MAPPED_FILE_SIZE_ZERO => Some("SMB2_STATUS_MAPPED_FILE_SIZE_ZERO"@),
        SMB2_STATUS_TOO_MANY_OPENED_FILES => Some("SMB2_STATUS_TOO_MANY_OPENED_FILES"@),
        SMB2_STATUS_CANCELLED => Some("SMB2_STATUS_CANCELLED"@),
        SMB2_STATUS_CANNOT_DELETE => Some("SMB2_STATUS_CANNOT_DELETE"@),
        SMB2_STATUS_INVALID_COMPUTER_NAME => Some("SMB2_STATUS_INVALID_COMPUTER_NAME"@),
        SMB2_STATUS_FILE_DELETED => Some("SMB2_STATUS_FILE_DELETED"@),
        SMB2_STATUS_SPECIAL_ACCOUNT => Some("SMB2_STATUS_SPECIAL_ACCOUNT"@),
        SMB2_STATUS_SPECIAL_GROUP => Some("SMB2_STATUS_SPECIAL_GROUP"@),
        SMB2_STATUS_SPECIAL_USER => Some("SMB2_STATUS_SPECIAL_USER"@),
        SMB2_STATUS_MEMBERS_PRIMARY_GROUP => Some("SMB2_STATUS_MEMBERS_PRIMARY_GROUP"@),
        SMB2_STATUS_FILE_CLOSED => Some("SMB2_STATUS_FILE_CLOSED"@),
        SMB2_STATUS_TOO_MANY_THREADS => Some("SMB2_STATUS_TOO_MANY_THREADS"@),
        SMB2_STATUS_THREAD_NOT_IN_PROCESS => Some("SMB2_STATUS_THREAD_NOT_IN_PROCESS"@),
        SMB2_STATUS_TOKEN_ALREADY_IN_USE => Some("SMB2_STATUS_TOKEN_ALREADY_IN_USE"@),
        SMB2_STATUS_PAGEFILE_QUOTA_EXCEEDED => Some("SMB2_STATUS_PAGEFILE_QUOTA_EXCEEDED"@),
        SMB2_STATUS_COMMITMENT_LIMIT => Some("SMB2_STATUS_COMMITMENT_LIMIT"@),
        SMB2_STATUS_INVALID_IMAGE_LE_FORMAT => Some("SMB2_STATUS_INVALID_IMAGE_LE_FORMAT"@),
        SMB2_STATUS_INVALID_IMAGE_NOT_MZ => Some("SMB2_STATUS_INVALID_IMAGE_NOT_MZ"@),
        SMB2_STATUS_INVALID_IMAGE_PROTECT => Some("SMB2_STATUS_INVALID_IMAGE_PROTECT"@),
        SMB2_STATUS_INVALID_IMAGE_WIN_16 => Some("SMB2_STATUS_INVALID_IMAGE_WIN_16"@),
        SMB2_STATUS_LOGON_SERVER_CONFLICT => Some("SMB2_STATUS_LOGON_SERVER_CONFLICT"@),
        SMB2_STATUS_TIME_DIFFERENCE_AT_DC => Some("SMB2_STATUS_TIME_DIFFERENCE_AT_DC"@),
        SMB2_STATUS_SYNCHRONIZATION_REQUIRED => Some("SMB2_STATUS_SYNCHRONIZATION_REQUIRED"@),
        SMB2_STATUS_DLL_NOT_FOUND => Some("SMB2_STATUS_DLL_NOT_FOUND"@),
        SMB2_STATUS_OPEN_FAILED => Some("SMB2_STATUS_OPEN_FAILED"@),
        SMB2_STATUS_IO_PRIVILEGE_FAILED => Some("SMB2_STATUS_IO_PRIVILEGE_FAILED"@),
        SMB2_STATUS_ORDINAL_NOT_FOUND => Some("SMB2_STATUS_ORDINAL_NOT_FOUND"@),
        SMB2_STATUS_ENTRYPOINT_NOT_FOUND => Some("SMB2_STATUS_ENTRYPOINT_NOT_FOUND"@),
        SMB2_STATUS_CONTROL_C_EXIT => Some("SMB2_STATUS_CONTROL_C_EXIT"@),
        SMB2_STATUS_LOCAL_DISCONNECT => Some("SMB2_STATUS_LOCAL_DISCONNECT"@),
        SMB2_STATUS_REMOTE_DISCONNECT => Some("SMB2_STATUS_REMOTE_DISCONNECT"@),
        SMB2_STATUS_REMOTE_RESOURCES => Some("SMB2_STATUS_REMOTE_RESOURCES"@),
        SMB2_STATUS_LINK_FAILED => Some("SMB2_STATUS_LINK_FAILED"@),
        SMB2_STATUS_LINK_TIMEOUT => Some("SMB2_STATUS_LINK_TIMEOUT"@),
        SMB2_STATUS_INVALID_CONNECTION => Some("SMB2_STATUS_INVALID_CONNECTION"@),
        SMB2_STATUS_INVALID_ADDRESS => Some("SMB2_STATUS_INVALID_ADDRESS"@),
        SMB2_STATUS_DLL_INIT_FAILED => Some("SMB2_STATUS_DLL_INIT_FAILED"@),
        SMB2_STATUS_MISSING_SYSTEMFILE => Some("SMB2_STATUS_MISSING_SYSTEMFILE"@),
        SMB2_STATUS_UNHANDLED_EXCEPTION => Some("SMB2_STATUS_UNHANDLED_EXCEPTION"@),
        SMB2_STATUS_APP_INIT_FAILURE => Some("SMB2_STATUS_APP_INIT_FAILURE"@),
        SMB2_STATUS_PAGEFILE_CREATE_FAILED => Some("SMB2_STATUS_PAGEFILE_CREATE_FAILED"@),
        SMB2_STATUS_NO_PAGEFILE => Some("SMB2_STATUS_NO_PAGEFILE"@),
        SMB2_STATUS_INVALID_LEVEL => Some("SMB2_STATUS_INVALID_LEVEL"@),
        SMB2_STATUS_WRONG_PASSWORD_CORE => Some("SMB2_STATUS_WRONG_PASSWORD_CORE"@),
        SMB2_STATUS_ILLEGAL_FLOAT_CONTEXT => Some("SMB2_STATUS_ILLEGAL_FLOAT_CONTEXT"@),
        SMB2_STATUS_PIPE_BROKEN => Some("SMB2_STATUS_PIPE_BROKEN"@),
        SMB2_STATUS_REGISTRY_CORRUPT => Some("SMB2_STATUS_REGISTRY_CORRUPT"@),
        SMB2_STATUS_REGISTRY_IO_FAILED => Some("SMB2_STATUS_REGISTRY_IO_FAILED"@),
        SMB2_STATUS_NO_EVENT_PAIR => Some("SMB2_STATUS_NO_EVENT_PAIR"@),
        SMB2_STATUS_UNRECOGNIZED_VOLUME => Some("SMB2_STATUS_UNRECOGNIZED_VOLUME"@),
        SMB2_STATUS_SERIAL_NO_DEVICE_INITED => Some("SMB2_STATUS_SERIAL_NO_DEVICE_INITED"@),
        SMB2_STATUS_NO_SUCH_ALIAS => Some("SMB2_STATUS_NO_SUCH_ALIAS"@),
        SMB2_STATUS_MEMBER_NOT_IN_ALIAS => Some("SMB2_STATUS_MEMBER_NOT_IN_ALIAS"@),
        SMB2_STATUS_MEMBER_IN_ALIAS => Some("SMB2_STATUS_MEMBER_IN_ALIAS"@),
        SMB2_STATUS_ALIAS_EXISTS => Some("SMB2_STATUS_ALIAS_EXISTS"@),
        SMB2_STATUS_LOGON_NOT_GRANTED => Some("SMB2_STATUS_LOGON_NOT_GRANTED"@),
        SMB2_STATUS_TOO_MANY_SECRETS => Some("SMB2_STATUS_TOO_MANY_SECRETS"@),
        SMB2_STATUS_SECRET_TOO_LONG => Some("SMB2_STATUS_SECRET_TOO_LONG"@),
        SMB2_STATUS_INTERNAL_DB_ERROR => Some("SMB2_STATUS_INTERNAL_DB_ERROR"@),
        SMB2_STATUS_FULLSCREEN_MODE => Some("SMB2_STATUS_FULLSCREEN_MODE"@),
        SMB2_STATUS_TOO_MANY_CONTEXT_IDS => Some("SMB2_STATUS_TOO_MANY_CONTEXT_IDS"@),
        SMB2_STATUS_LOGON_TYPE_NOT_GRANTED => Some("SMB2_STATUS_LOGON_TYPE_NOT_GRANTED"@),
        SMB2_STATUS_NOT_REGISTRY_FILE => Some("SMB2_STATUS_NOT_REGISTRY_FILE"@),
        SMB2_STATUS_NT_CROSS_ENCRYPTION_REQUIRED => Some("SMB2_STATUS_NT_CROSS_ENCRYPTION_REQUIRED"@),
        SMB2_STATUS_DOMAIN_CTRLR_CONFIG_ERROR => Some("SMB2_STATUS_DOMAIN_CTRLR_CONFIG_ERROR"@),
        SMB2_STATUS_FT_MISSING_MEMBER => Some("SMB2_STATUS_FT_MISSING_MEMBER"@),
        SMB2_STATUS_ILL_FORMED_SERVICE_ENTRY => Some("SMB2_STATUS_ILL_FORMED_SERVICE_ENTRY"@),
        SMB2_STATUS_ILLEGAL_CHARACTER => Some("SMB2_STATUS_ILLEGAL_CHARACTER"@),
        SMB2_STATUS_UNMAPPABLE_CHARACTER => Some("SMB2_STATUS_UNMAPPABLE_CHARACTER"@),
        SMB2_STATUS_UNDEFINED_CHARACTER => Some("SMB2_STATUS_UNDEFINED_CHARACTER"@),
        SMB2_STATUS_FLOPPY_VOLUME => Some("SMB2_STATUS_FLOPPY_VOLUME"@),
        SMB2_STATUS_FLOPPY_ID_MARK_NOT_FOUND => Some("SMB2_STATUS_FLOPPY_ID_MARK_NOT_FOUND"@),
        SMB2_STATUS_FLOPPY_WRONG_CYLINDER => Some("SMB2_STATUS_FLOPPY_WRONG_CYLINDER"@),
        SMB2_STATUS_FLOPPY_UNKNOWN_ERROR => Some("SMB2_STATUS_FLOPPY_UNKNOWN_ERROR"@),
        SMB2_STATUS_FLOPPY_BAD_REGISTERS => Some("SMB2_STATUS_FLOPPY_BAD_REGISTERS"@),
        SMB2_STATUS_DISK_RECALIBRATE_FAILED => Some("SMB2_STATUS_DISK_RECALIBRATE_FAILED"@),
        SMB2_STATUS_DISK_OPERATION_FAILED => Some("SMB2_STATUS_DISK_OPERATION_FAILED"@),
        SMB2_STATUS_DISK_RESET_FAILED => Some("SMB2_STATUS_DISK_RESET_FAILED"@),
        SMB2_STATUS_SHARED_IRQ_BUSY => Some("SMB2_STATUS_SHARED_IRQ_BUSY"@),
        SMB2_STATUS_FT_ORPHANING => Some("SMB2_STATUS_FT_ORPHANING"@),
        SMB2_STATUS_PARTITION_FAILURE => Some("SMB2_STATUS_PARTITION_FAILURE"@),
        SMB2_STATUS_INVALID_BLOCK_LENGTH => Some("SMB2_STATUS_INVALID_BLOCK_LENGTH"@),
        SMB2_STATUS_DEVICE_NOT_PARTITIONED => Some("SMB2_STATUS_DEVICE_NOT_PARTITIONED"@),
        SMB2_STATUS_UNABLE_TO_LOCK_MEDIA => Some("SMB2_STATUS_UNABLE_TO_LOCK_MEDIA"@),
        SMB2_STATUS_UNABLE_TO_UNLOAD_MEDIA => Some("SMB2_STATUS_UNABLE_TO_UNLOAD_MEDIA"@),
        SMB2_STATUS_EOM_OVERFLOW => Some("SMB2_STATUS_EOM_OVERFLOW"@),
        SMB2_STATUS_NO_MEDIA => Some("SMB2_STATUS_NO_MEDIA"@),
        SMB2_STATUS_NO_SUCH_MEMBER => Some("SMB2_STATUS_NO_SUCH_MEMBER"@),
        SMB2_STATUS_INVALID_MEMBER => Some("SMB2_STATUS_INVALID_MEMBER"@),
        SMB2_STATUS_KEY_DELETED => Some("SMB2_STATUS_KEY_DELETED"@),
        SMB2_STATUS_NO_LOG_SPACE => Some("SMB2_STATUS_NO_LOG_SPACE"@),
        SMB2_STATUS_TOO_MANY_SIDS => Some("SMB2_STATUS_TOO_MANY_SIDS"@),
        SMB2_STATUS_LM_CROSS_ENCRYPTION_REQUIRED => Some("SMB2_STATUS_LM_CROSS_ENCRYPTION_REQUIRED"@),
        SMB2_STATUS_KEY_HAS_CHILDREN => Some("SMB2_STATUS_KEY_HAS_CHILDREN"@),
        SMB2_STATUS_CHILD_MUST_BE_VOLATILE => Some("SMB2_STATUS_CHILD_MUST_BE_VOLATILE"@),
        SMB2_STATUS_DEVICE_CONFIGURATION_ERROR => Some("SMB2_STATUS_DEVICE_CONFIGURATION_ERROR"@),
        SMB2_STATUS_DRIVER_INTERNAL_ERROR => Some("SMB2_STATUS_DRIVER_INTERNAL_ERROR"@),
        SMB2_STATUS_INVALID_DEVICE_STATE => Some("SMB2_STATUS_INVALID_DEVICE_STATE"@),
        SMB2_STATUS_IO_DEVICE_ERROR => Some("SMB2_STATUS_IO_DEVICE_ERROR"@),
        SMB2_STATUS_DEVICE_PROTOCOL_ERROR => Some("SMB2_STATUS_DEVICE_PROTOCOL_ERROR"@),
        SMB2_STATUS_BACKUP_CONTROLLER => Some("SMB2_STATUS_BACKUP_CONTROLLER"@),
        SMB2_STATUS_LOG_FILE_FULL => Some("SMB2_STATUS_LOG_FILE_FULL"@),
        SMB2_STATUS_TOO_LATE => Some("SMB2_STATUS_TOO_LATE"@),
        SMB2_STATUS_NO_TRUST_LSA_SECRET => Some("SMB2_STATUS_NO_TRUST_LSA_SECRET"@),
        SMB2_STATUS_NO_TRUST_SAM_ACCOUNT => Some("SMB2_STATUS_NO_TRUST_SAM_ACCOUNT"@),
        SMB2_STATUS_TRUSTED_DOMAIN_FAILURE => Some("SMB2_STATUS_TRUSTED_DOMAIN_FAILURE"@),
        SMB2_STATUS_TRUSTED_RELATIONSHIP_FAILURE => Some("SMB2_STATUS_TRUSTED_RELATIONSHIP_FAILURE"@),
        SMB2_STATUS_EVENTLOG_FILE_CORRUPT => Some("SMB2_STATUS_EVENTLOG_FILE_CORRUPT"@),
        SMB2_STATUS_EVENTLOG_CANT_START => Some("SMB2_STATUS_EVENTLOG_CANT_START"@),
        SMB2_STATUS_TRUST_FAILURE => Some("SMB2_STATUS_TRUST_FAILURE"@),
        SMB2_STATUS_MUTANT_LIMIT_EXCEEDED => Some("SMB2_STATUS_MUTANT_LIMIT_EXCEEDED"@),
        SMB2_STATUS_NETLOGON_NOT_STARTED => Some("SMB2_STATUS_NETLOGON_NOT_STARTED"@),
        SMB2_STATUS_ACCOUNT_EXPIRED => Some("SMB2_STATUS_ACCOUNT_EXPIRED"@),
        SMB2_STATUS_POSSIBLE_DEADLOCK => Some("SMB2_STATUS_POSSIBLE_DEADLOCK"@),
        SMB2_STATUS_NETWORK_CREDENTIAL_CONFLICT => Some("SMB2_STATUS_NETWORK_CREDENTIAL_CONFLICT"@),
        SMB2_STATUS_REMOTE_SESSION_LIMIT => Some("SMB2_STATUS_REMOTE_SESSION_LIMIT"@),
        SMB2_STATUS_EVENTLOG_FILE_CHANGED => Some("SMB2_STATUS_EVENTLOG_FILE_CHANGED"@),
        SMB2_STATUS_NOLOGON_INTERDOMAIN_TRUST_ACCOUNT => Some("SMB2_STATUS_NOLOGON_INTERDOMAIN_TRUST_ACCOUNT"@),
        SMB2_STATUS_NOLOGON_WORKSTATION_TRUST_ACCOUNT => Some("SMB2_STATUS_NOLOGON_WORKSTATION_TRUST_ACCOUNT"@),
        SMB2_STATUS_NOLOGON_SERVER_TRUST_ACCOUNT => Some("SMB2_STATUS_NOLOGON_SERVER_TRUST_ACCOUNT"@),
        SMB2_STATUS_DOMAIN_TRUST_INCONSISTENT => Some("SMB2_STATUS_DOMAIN_TRUST_INCONSISTENT"@),
        SMB2_STATUS_FS_DRIVER_REQUIRED => Some("SMB2_STATUS_FS_DRIVER_REQUIRED"@),
        SMB2_STATUS_NO_USER_SESSION_KEY => Some("SMB2_STATUS_NO_USER_SESSION_KEY"@),
        SMB2_STATUS_USER_SESSION_DELETED => Some("SMB2_STATUS_USER_SESSION_DELETED"@),
        SMB2_STATUS_RESOURCE_LANG_NOT_FOUND => Some("SMB2_STATUS_RESOURCE_LANG_NOT_FOUND"@),
        SMB2_STATUS_INSUFF_SERVER_RESOURCES => Some("SMB2_STATUS_INSUFF_SERVER_RESOURCES"@),
        SMB2_STATUS_INVALID_BUFFER_SIZE => Some("SMB2_STATUS_INVALID_BUFFER_SIZE"@),
        SMB2_STATUS_INVALID_ADDRESS_COMPONENT => Some("SMB2_STATUS_INVALID_ADDRESS_COMPONENT"@),
        SMB2_STATUS_INVALID_ADDRESS_WILDCARD => Some("SMB2_STATUS_INVALID_ADDRESS_WILDCARD"@),
        SMB2_STATUS_TOO_MANY_ADDRESSES => Some("SMB2_STATUS_TOO_MANY_ADDRESSES"@),
        SMB2_STATUS_ADDRESS_ALREADY_EXISTS => Some("SMB2_STATUS_ADDRESS_ALREADY_EXISTS"@),
        SMB2_STATUS_ADDRESS_CLOSED => Some("SMB2_STATUS_ADDRESS_CLOSED"@),
        SMB2_STATUS_CONNECTION_DISCONNECTED => Some("SMB2_STATUS_CONNECTION_DISCONNECTED"@),
        SMB2_STATUS_CONNECTION_RESET => Some("SMB2_STATUS_CONNECTION_RESET"@),
        SMB2_STATUS_TOO_MANY_NODES => Some("SMB2_STATUS_TOO_MANY_NODES"@),
        SMB2_STATUS_TRANSACTION_ABORTED => Some("SMB2_STATUS_TRANSACTION_ABORTED"@),
        SMB2_STATUS_TRANSACTION_TIMED_OUT => Some("SMB2_STATUS_TRANSACTION_TIMED_OUT"@),
        SMB2_STATUS_TRANSACTION_NO_RELEASE => Some("SMB2_STATUS_TRANSACTION_NO_RELEASE"@),
        SMB2_STATUS_TRANSACTION_NO_MATCH => Some("SMB2_STATUS_TRANSACTION_NO_MATCH"@),
        SMB2_STATUS_TRANSACTION_RESPONDED => Some("SMB2_STATUS_TRANSACTION_RESPONDED"@),
        SMB2_STATUS_TRANSACTION_INVALID_ID => Some("SMB2_STATUS_TRANSACTION_INVALID_ID"@),
        SMB2_STATUS_TRANSACTION_INVALID_TYPE => Some("SMB2_STATUS_TRANSACTION_INVALID_TYPE"@),
        SMB2_STATUS_NOT_SERVER_SESSION => Some("SMB2_STATUS_NOT_SERVER_SESSION"@),
        SMB2_STATUS_NOT_CLIENT_SESSION => Some("SMB2_STATUS_NOT_CLIENT_SESSION"@),
        SMB2_STATUS_CANNOT_LOAD_REGISTRY_FILE => Some("SMB2_STATUS_CANNOT_LOAD_REGISTRY_FILE"@),
        SMB2_STATUS_DEBUG_ATTACH_FAILED => Some("SMB2_STATUS_DEBUG_ATTACH_FAILED"@),
        SMB2_STATUS_SYSTEM_PROCESS_TERMINATED => Some("SMB2_STATUS_SYSTEM_PROCESS_TERMINATED"@),
        SMB2_STATUS_DATA_NOT_ACCEPTED => Some("SMB2_STATUS_DATA_NOT_ACCEPTED"@),
        SMB2_STATUS_NO_BROWSER_SERVERS_FOUND => Some("SMB2_STATUS_NO_BROWSER_SERVERS_FOUND"@),
        SMB2_STATUS_VDM_HARD_ERROR => Some("SMB2_STATUS_VDM_HARD_ERROR"@),
        SMB2_STATUS_DRIVER_CANCEL_TIMEOUT => Some("SMB2_STATUS_DRIVER_CANCEL_TIMEOUT"@),
        SMB2_STATUS_REPLY_MESSAGE_MISMATCH => Some("SMB2_STATUS_REPLY_MESSAGE_MISMATCH"@),
        SMB2_STATUS_MAPPED_ALIGNMENT => Some("SMB2_STATUS_MAPPED_ALIGNMENT"@),
        SMB2_STATUS_IMAGE_CHECKSUM_MISMATCH => Some("SMB2_STATUS_IMAGE_CHECKSUM_MISMATCH"@),
        SMB2_STATUS_LOST_WRITEBEHIND_DATA => Some("SMB2_STATUS_LOST_WRITEBEHIND_DATA"@),
        SMB2_STATUS_CLIENT_SERVER_PARAMETERS_INVALID => Some("SMB2_STATUS_CLIENT_SERVER_PARAMETERS_INVALID"@),
        SMB2_STATUS_PASSWORD_MUST_CHANGE => Some("SMB2_STATUS_PASSWORD_MUST_CHANGE"@),
        SMB2_STATUS_NOT_FOUND => Some("SMB2_STATUS_NOT_FOUND"@),
        SMB2_STATUS_NOT_TINY_STREAM => Some("SMB2_STATUS_NOT_TINY_STREAM"@),
        SMB2_STATUS_RECOVERY_FAILURE => Some("SMB2_STATUS_RECOVERY_FAILURE"@),
        SMB2_STATUS_STACK_OVERFLOW_READ => Some("SMB2_STATUS_STACK_OVERFLOW_READ"@),
        SMB2_STATUS_FAIL_CHECK => Some("SMB2_STATUS_FAIL_CHECK"@),
        SMB2_STATUS_DUPLICATE_OBJECTID => Some("SMB2_STATUS_DUPLICATE_OBJECTID"@),
        SMB2_STATUS_OBJECTID_EXISTS => Some("SMB2_STATUS_OBJECTID_EXISTS"@),
        SMB2_STATUS_CONVERT_TO_LARGE => Some("SMB2_STATUS_CONVERT_TO_LARGE"@),
        SMB2_STATUS_RETRY => Some("SMB2_STATUS_RETRY"@),
        SMB2_STATUS_FOUND_OUT_OF_SCOPE => Some("SMB2_STATUS_FOUND_OUT_OF_SCOPE"@),
        SMB2_STATUS_ALLOCATE_BUCKET => Some("SMB2_STATUS_ALLOCATE_BUCKET"@),
        SMB2_STATUS_PROPSET_NOT_FOUND => Some("SMB2_STATUS_PROPSET_NOT_FOUND"@),
        SMB2_STATUS_MARSHALL_OVERFLOW => Some("SMB2_STATUS_MARSHALL_OVERFLOW"@),
        SMB2_STATUS_INVALID_VARIANT => Some("SMB2_STATUS_INVALID_VARIANT"@),
        SMB2_STATUS_DOMAIN_CONTROLLER_NOT_FOUND => Some("SMB2_STATUS_DOMAIN_CONTROLLER_NOT_FOUND"@),
        SMB2_STATUS_ACCOUNT_LOCKED_OUT => Some("SMB2_STATUS_ACCOUNT_LOCKED_OUT"@),
        SMB2_STATUS_HANDLE_NOT_CLOSABLE => Some("SMB2_STATUS_HANDLE_NOT_CLOSABLE"@),
        SMB2_STATUS_CONNECTION_REFUSED => Some("SMB2_STATUS_CONNECTION_REFUSED"@),
        SMB2_STATUS_GRACEFUL_DISCONNECT => Some("SMB2_STATUS_GRACEFUL_DISCONNECT"@),
        SMB2_STATUS_ADDRESS_ALREADY_ASSOCIATED => Some("SMB2_STATUS_ADDRESS_ALREADY_ASSOCIATED"@),
        SMB2_STATUS_ADDRESS_NOT_ASSOCIATED => Some("SMB2_STATUS_ADDRESS_NOT_ASSOCIATED"@),
        SMB2_STATUS_CONNECTION_INVALID => Some("SMB2_STATUS_CONNECTION_INVALID"@),
        SMB2_STATUS_CONNECTION_ACTIVE => Some("SMB2_STATUS_CONNECTION_ACTIVE"@),
        SMB2_STATUS_NETWORK_UNREACHABLE => Some("SMB2_STATUS_NETWORK_UNREACHABLE"@),
        SMB2_STATUS_HOST_UNREACHABLE => Some("SMB2_STATUS_HOST_UNREACHABLE"@),
        SMB2_STATUS_PROTOCOL_UNREACHABLE => Some("SMB2_STATUS_PROTOCOL_UNREACHABLE"@),
        SMB2_STATUS_PORT_UNREACHABLE => Some("SMB2_STATUS_PORT_UNREACHABLE"@),
        SMB2_STATUS_REQUEST_ABORTED => Some("SMB2_STATUS_REQUEST_ABORTED"@),
        SMB2_STATUS_CONNECTION_ABORTED => Some("SMB2_STATUS_CONNECTION_ABORTED"@),
        SMB2_STATUS_BAD_COMPRESSION_BUFFER => Some("SMB2_STATUS_BAD_COMPRESSION_BUFFER"@),
        SMB2_STATUS_USER_MAPPED_FILE => Some("SMB2_STATUS_USER_MAPPED_FILE"@),
        SMB2_STATUS_AUDIT_FAILED => Some("SMB2_STATUS_AUDIT_FAILED"@),
        SMB2_STATUS_TIMER_RESOLUTION_NOT_SET => Some("SMB2_STATUS_TIMER_RESOLUTION_NOT_SET"@),
        SMB2_STATUS_CONNECTION_COUNT_LIMIT => Some("SMB2_STATUS_CONNECTION_COUNT_LIMIT"@),
        SMB2_STATUS_LOGIN_TIME_RESTRICTION => Some("SMB2_STATUS_LOGIN_TIME_RESTRICTION"@),
        SMB2_STATUS_LOGIN_WKSTA_RESTRICTION => Some("SMB2_STATUS_LOGIN_WKSTA_RESTRICTION"@),
        SMB2_STATUS_IMAGE_MP_UP_MISMATCH => Some("SMB2_STATUS_IMAGE_MP_UP_MISMATCH"@),
        SMB2_STATUS_INSUFFICIENT_LOGON_INFO => Some("SMB2_STATUS_INSUFFICIENT_LOGON_INFO"@),
        SMB2_STATUS_BAD_DLL_ENTRYPOINT => Some("SMB2_STATUS_BAD_DLL_ENTRYPOINT"@),
        SMB2_STATUS_BAD_SERVICE_ENTRYPOINT => Some("SMB2_STATUS_BAD_SERVICE_ENTRYPOINT"@),
        SMB2_STATUS_LPC_REPLY_LOST => Some("SMB2_STATUS_LPC_REPLY_LOST"@),
        SMB2_STATUS_IP_ADDRESS_CONFLICT1 => Some("SMB2_STATUS_IP_ADDRESS_CONFLICT1"@),
        SMB2_STATUS_IP_ADDRESS_CONFLICT2 => Some("SMB2_STATUS_IP_ADDRESS_CONFLICT2"@),
        SMB2_STATUS_REGISTRY_QUOTA_LIMIT => Some("SMB2_STATUS_REGISTRY_QUOTA_LIMIT"@),
        SMB2_STATUS_PATH_NOT_COVERED => Some("SMB2_STATUS_PATH_NOT_COVERED"@),
        SMB2_STATUS_NO_CALLBACK_ACTIVE => Some("SMB2_STATUS_NO_CALLBACK_ACTIVE"@),
        SMB2_STATUS_LICENSE_QUOTA_EXCEEDED => Some("SMB2_STATUS_LICENSE_QUOTA_EXCEEDED"@),
        SMB2_STATUS_PWD_TOO_SHORT => Some("SMB2_STATUS_PWD_TOO_SHORT"@),
        SMB2_STATUS_PWD_TOO_RECENT => Some("SMB2_STATUS_PWD_TOO_RECENT"@),
        SMB2_STATUS_PWD_HISTORY_CONFLICT => Some("SMB2_STATUS_PWD_HISTORY_CONFLICT"@),
        SMB2_STATUS_PLUGPLAY_NO_DEVICE => Some("SMB2_STATUS_PLUGPLAY_NO_DEVICE"@),
        SMB2_STATUS_UNSUPPORTED_COMPRESSION => Some("SMB2_STATUS_UNSUPPORTED_COMPRESSION"@),
        SMB2_STATUS_INVALID_HW_PROFILE => Some("SMB2_STATUS_INVALID_HW_PROFILE"@),
        SMB2_STATUS_INVALID_PLUGPLAY_DEVICE_PATH => Some("SMB2_STATUS_INVALID_PLUGPLAY_DEVICE_PATH"@),
        SMB2_STATUS_DRIVER_ORDINAL_NOT_FOUND => Some("SMB2_STATUS_DRIVER_ORDINAL_NOT_FOUND"@),
        SMB2_STATUS_DRIVER_ENTRYPOINT_NOT_FOUND => Some("SMB2_STATUS_DRIVER_ENTRYPOINT_NOT_FOUND"@),
        SMB2_STATUS_RESOURCE_NOT_OWNED => Some("SMB2_STATUS_RESOURCE_NOT_OWNED"@),
        SMB2_STATUS_TOO_MANY_LINKS => Some("SMB2_STATUS_TOO_MANY_LINKS"@),
        SMB2_STATUS_QUOTA_LIST_INCONSISTENT => Some("SMB2_STATUS_QUOTA_LIST_INCONSISTENT"@),
        SMB2_STATUS_FILE_IS_OFFLINE => Some("SMB2_STATUS_FILE_IS_OFFLINE"@),
        SMB2_STATUS_VOLUME_DISMOUNTED => Some("SMB2_STATUS_VOLUME_DISMOUNTED"@),
        SMB2_STATUS_NOT_A_REPARSE_POINT => Some("SMB2_STATUS_NOT_A_REPARSE_POINT"@),
        SMB2_STATUS_SERVER_UNAVAILABLE => Some("SMB2_STATUS_SERVER_UNAVAILABLE"@),
        SMB2_STATUS_BUFFER_OVERFLOW => Some("SMB2_STATUS_BUFFER_OVERFLOW"@),
        SMB2_STATUS_STOPPED_ON_SYMLINK => Some("SMB2_STATUS_STOPPED_ON_SYMLINK"@),
        _ => None,
    }
}

/// Returns the constant name for a raw NTSTATUS value when it is known.
#[must_use]
pub fn ntstatus_name(status: u32) -> (r: Option<&'static str>)
    ensures
        r is Some <==> status_name(status) is Some,
        r matches Some(name) ==> name@ == status_name(status).unwrap(),
{
    match status {
        SMB2_STATUS_SEVERITY_MASK => Some("SMB2_STATUS_SEVERITY_MASK"),
        SMB2_STATUS_SEVERITY_SUCCESS => Some("SMB2_STATUS_SEVERITY_SUCCESS"),
        SMB2_STATUS_SEVERITY_INFO => Some("SMB2_STATUS_SEVERITY_INFO"),
        SMB2_STATUS_SEVERITY_WARNING => Some("SMB2_STATUS_SEVERITY_WARNING"),
        SMB2_STATUS_CUSTOMER_MASK => Some("SMB2_STATUS_CUSTOMER_MASK"),
        SMB2_STATUS_FACILITY_MASK => Some("SMB2_STATUS_FACILITY_MASK"),
        SMB2_STATUS_CODE_MASK => Some("SMB2_STATUS_CODE_MASK"),
        SMB2_STATUS_SHUTDOWN => Some("SMB2_STATUS_SHUTDOWN"),
        SMB2_STATUS_PENDING => Some("SMB2_STATUS_PENDING"),
        SMB2_STATUS_SMB_BAD_FID => Some("SMB2_STATUS_SMB_BAD_FID"),
        SMB2_STATUS_NO_MORE_FILES => Some("SMB2_STATUS_NO_MORE_FILES"),
        SMB2_STATUS_UNSUCCESSFUL => Some("SMB2_STATUS_UNSUCCESSFUL"),
        SMB2_STATUS_NOT_IMPLEMENTED => Some("SMB2_STATUS_NOT_IMPLEMENTED"),
        SMB2_STATUS_INVALID_INFO_CLASS => Some("SMB2_STATUS_INVALID_INFO_CLASS"),
        SMB2_STATUS_INFO_LENGTH_MISMATCH => Some("SMB2_STATUS_INFO_LENGTH_MISMATCH"),
        SMB2_STATUS_ACCESS_VIOLATION => Some("SMB2_STATUS_ACCESS_VIOLATION"),
        SMB2_STATUS_IN_PAGE_ERROR => Some("SMB2_STATUS_IN_PAGE_ERROR"),
        SMB2_STATUS_PAGEFILE_QUOTA => Some("SMB2_STATUS_PAGEFILE_QUOTA"),
        SMB2_STATUS_INVALID_HANDLE => Some("SMB2_STATUS_INVALID_HANDLE"),
        SMB2_STATUS_BAD_INITIAL_STACK => Some("SMB2_STATUS_BAD_INITIAL_STACK"),
        SMB2_STATUS_BAD_INITIAL_PC => Some("SMB2_STATUS_BAD_INITIAL_PC"),
        SMB2_STATUS_INVALID_CID => Some("SMB2_STATUS_INVALID_CID"),
        SMB2_STATUS_TIMER_NOT_CANCELED => Some("SMB2_STATUS_TIMER_NOT_CANCELED"),
        SMB2_STATUS_INVALID_PARAMETER => Some("SMB2_STATUS_INVALID_PARAMETER"),
        SMB2_STATUS_NO_SUCH_DEVICE => Some("SMB2_STATUS_NO_SUCH_DEVICE"),
        SMB2_STATUS_NO_SUCH_FILE => Some("SMB2_STATUS_NO_SUCH_FILE"),
        SMB2_STATUS_INVALID_DEVICE_REQUEST => Some("SMB2_STATUS_INVALID_DEVICE_REQUEST"),
        SMB2_STATUS_END_OF_FILE => Some("SMB2_STATUS_END_OF_FILE"),
        SMB2_STATUS_WRONG_VOLUME => Some("SMB2_STATUS_WRONG_VOLUME"),
        SMB2_STATUS_NO_MEDIA_IN_DEVICE => Some("SMB2_STATUS_NO_MEDIA_IN_DEVICE"),
        SMB2_STATUS_UNRECOGNIZED_MEDIA => Some("SMB2_STATUS_UNRECOGNIZED_MEDIA"),
        SMB2_STATUS_NONEXISTENT_SECTOR => Some("SMB2_STATUS_NONEXISTENT_SECTOR"),
        SMB2_STATUS_MORE_PROCESSING_REQUIRED => Some("SMB2_STATUS_MORE_PROCESSING_REQUIRED"),
        SMB2_STATUS_NO_MEMORY => Some("SMB2_STATUS_NO_MEMORY"),
        SMB2_STATUS_CONFLICTING_ADDRESSES => Some("SMB2_STATUS_CONFLICTING_ADDRESSES"),
        SMB2_STATUS_NOT_MAPPED_VIEW => Some("SMB2_STATUS_NOT_MAPPED_VIEW"),
        SMB2_STATUS_UNABLE_TO_FREE_VM => Some("SMB2_STATUS_UNABLE_TO_FREE_VM"),
        SMB2_STATUS_UNABLE_TO_DELETE_SECTION => Some("SMB2_STATUS_UNABLE_TO_DELETE_SECTION"),
        SMB2_STATUS_INVALID_SYSTEM_SERVICE => Some("SMB2_STATUS_INVALID_SYSTEM_SERVICE"),
        SMB2_STATUS_ILLEGAL_INSTRUCTION => Some("SMB2_STATUS_ILLEGAL_INSTRUCTION"),
        SMB2_STATUS_INVALID_LOCK_SEQUENCE => Some("SMB2_STATUS_INVALID_LOCK_SEQUENCE"),
        SMB2_STATUS_INVALID_VIEW_SIZE => Some("SMB2_STATUS_INVALID_VIEW_SIZE"),
        SMB2_STATUS_INVALID_FILE_FOR_SECTION => Some("SMB2_STATUS_INVALID_FILE_FOR_SECTION"),
        SMB2_STATUS_ALREADY_COMMITTED => Some("SMB2_STATUS_ALREADY_COMMITTED"),
        SMB2_STATUS_ACCESS_DENIED => Some("SMB2_STATUS_ACCESS_DENIED"),
        SMB2_STATUS_BUFFER_TOO_SMALL => Some("SMB2_STATUS_BUFFER_TOO_SMALL"),
        SMB2_STATUS_OBJECT_TYPE_MISMATCH => Some("SMB2_STATUS_OBJECT_TYPE_MISMATCH"),
        SMB2_STATUS_NONCONTINUABLE_EXCEPTION => Some("SMB2_STATUS_NONCONTINUABLE_EXCEPTION"),
        SMB2_STATUS_INVALID_DISPOSITION => Some("SMB2_STATUS_INVALID_DISPOSITION"),
        SMB2_STATUS_UNWIND => Some("SMB2_STATUS_UNWIND"),
        SMB2_STATUS_BAD_STACK => Some("SMB2_STATUS_BAD_STACK"),
        SMB2_STATUS_INVALID_UNWIND_TARGET => Some("SMB2_STATUS_INVALID_UNWIND_TARGET"),
        SMB2_STATUS_NOT_LOCKED => Some("SMB2_STATUS_NOT_LOCKED"),
        SMB2_STATUS_PARITY_ERROR => Some("SMB2_STATUS_PARITY_ERROR"),
        SMB2_STATUS_UNABLE_TO_DECOMMIT_VM => Some("SMB2_STATUS_UNABLE_TO_DECOMMIT_VM"),
        SMB2_STATUS_NOT_COMMITTED => Some("SMB2_STATUS_NOT_COMMITTED"),
        SMB2_STATUS_INVALID_PORT_ATTRIBUTES => Some("SMB2_STATUS_INVALID_PORT_ATTRIBUTES"),
        SMB2_STATUS_PORT_MESSAGE_TOO_LONG => Some("SMB2_STATUS_PORT_MESSAGE_TOO_LONG"),
        SMB2_STATUS_INVALID_PARAMETER_MIX => Some("SMB2_STATUS_INVALID_PARAMETER_MIX"),
        SMB2_STATUS_INVALID_QUOTA_LOWER => Some("SMB2_STATUS_INVALID_QUOTA_LOWER"),
        SMB2_STATUS_DISK_CORRUPT_ERROR => Some("SMB2_STATUS_DISK_CORRUPT_ERROR"),
        SMB2_STATUS_OBJECT_NAME_INVALID => Some("SMB2_STATUS_OBJECT_NAME_INVALID"),
        SMB2_STATUS_OBJECT_NAME_NOT_FOUND => Some("SMB2_STATUS_OBJECT_NAME_NOT_FOUND"),
        SMB2_STATUS_OBJECT_NAME_COLLISION => Some("SMB2_STATUS_OBJECT_NAME_COLLISION"),
        SMB2_STATUS_HANDLE_NOT_WAITABLE => Some("SMB2_STATUS_HANDLE_NOT_WAITABLE"),
        SMB2_STATUS_PORT_DISCONNECTED => Some("SMB2_STATUS_PORT_DISCONNECTED"),
        SMB2_STATUS_DEVICE_ALREADY_ATTACHED => Some("SMB2_STATUS_DEVICE_ALREADY_ATTACHED"),
        SMB2_STATUS_OBJECT_PATH_INVALID => Some("SMB2_STATUS_OBJECT_PATH_INVALID"),
        SMB2_STATUS_OBJECT_PATH_NOT_FOUND => Some("SMB2_STATUS_OBJECT_PATH_NOT_FOUND"),
        SMB2_STATUS_OBJECT_PATH_SYNTAX_BAD => Some("SMB2_STATUS_OBJECT_PATH_SYNTAX_BAD"),
        SMB2_STATUS_DATA_OVERRUN => Some("SMB2_STATUS_DATA_OVERRUN"),
        SMB2_STATUS_DATA_LATE_ERROR => Some("SMB2_STATUS_DATA_LATE_ERROR"),
        SMB2_STATUS_DATA_ERROR => Some("SMB2_STATUS_DATA_ERROR"),
        SMB2_STATUS_CRC_ERROR => Some("SMB2_STATUS_CRC_ERROR"),
        SMB2_STATUS_SECTION_TOO_BIG => Some("SMB2_STATUS_SECTION_TOO_BIG"),
        SMB2_STATUS_PORT_CONNECTION_REFUSED => Some("SMB2_STATUS_PORT_CONNECTION_REFUSED"),
        SMB2_STATUS_INVALID_PORT_HANDLE => Some("SMB2_STATUS_INVALID_PORT_HANDLE"),
        SMB2_STATUS_SHARING_VIOLATION => Some("SMB2_STATUS_SHARING_VIOLATION"),
        SMB2_STATUS_QUOTA_EXCEEDED => Some("SMB2_STATUS_QUOTA_EXCEEDED"),
        SMB2_STATUS_INVALID_PAGE_PROTECTION => Some("SMB2_STATUS_INVALID_PAGE_PROTECTION"),
        SMB2_STATUS_MUTANT_NOT_OWNED => Some("SMB2_STATUS_MUTANT_NOT_OWNED"),
        SMB2_STATUS_SEMAPHORE_LIMIT_EXCEEDED => Some("SMB2_STATUS_SEMAPHORE_LIMIT_EXCEEDED"),
        SMB2_STATUS_PORT_ALREADY_SET => Some("SMB2_STATUS_PORT_ALREADY_SET"),
        SMB2_STATUS_SECTION_NOT_IMAGE => Some("SMB2_STATUS_SECTION_NOT_IMAGE"),
        SMB2_STATUS_SUSPEND_COUNT_EXCEEDED => Some("SMB2_STATUS_SUSPEND_COUNT_EXCEEDED"),
        SMB2_STATUS_THREAD_IS_TERMINATING => Some("SMB2_STATUS_THREAD_IS_TERMINATING"),
        SMB2_STATUS_BAD_WORKING_SET_LIMIT => Some("SMB2_STATUS_BAD_WORKING_SET_LIMIT"),
        SMB2_STATUS_INCOMPATIBLE_FILE_MAP => Some("SMB2_STATUS_INCOMPATIBLE_FILE_MAP"),
        SMB2_STATUS_SECTION_PROTECTION => Some("SMB2_STATUS_SECTION_PROTECTION"),
        SMB2_STATUS_EAS_NOT_SUPPORTED => Some("SMB2_STATUS_EAS_NOT_SUPPORTED"),
        SMB2_STATUS_EA_TOO_LARGE => Some("SMB2_STATUS_EA_TOO_LARGE"),
        SMB2_STATUS_NONEXISTENT_EA_ENTRY => Some("SMB2_STATUS_NONEXISTENT_EA_ENTRY"),
        SMB2_STATUS_NO_EAS_ON_FILE => Some("SMB2_STATUS_NO_EAS_ON_FILE"),
        SMB2_STATUS_EA_CORRUPT_ERROR => Some("SMB2_STATUS_EA_CORRUPT_ERROR"),
        SMB2_STATUS_FILE_LOCK_CONFLICT => Some("SMB2_STATUS_FILE_LOCK_CONFLICT"),
        SMB2_STATUS_LOCK_NOT_GRANTED => Some("SMB2_STATUS_LOCK_NOT_GRANTED"),
        SMB2_STATUS_DELETE_PENDING => Some("SMB2_STATUS_DELETE_PENDING"),
        SMB2_STATUS_CTL_FILE_NOT_SUPPORTED => Some("SMB2_STATUS_CTL_FILE_NOT_SUPPORTED"),
        SMB2_STATUS_UNKNOWN_REVISION => Some("SMB2_STATUS_UNKNOWN_REVISION"),
        SMB2_STATUS_REVISION_MISMATCH => Some("SMB2_STATUS_REVISION_MISMATCH"),
        SMB2_STATUS_INVALID_OWNER => Some("SMB2_STATUS_INVALID_OWNER"),
        SMB2_STATUS_INVALID_PRIMARY_GROUP => Some("SMB2_STATUS_INVALID_PRIMARY_GROUP"),
        SMB2_STATUS_NO_IMPERSONATION_TOKEN => Some("SMB2_STATUS_NO_IMPERSONATION_TOKEN"),
        SMB2_STATUS_CANT_DISABLE_MANDATORY => Some("SMB2_STATUS_CANT_DISABLE_MANDATORY"),
        SMB2_STATUS_NO_LOGON_SERVERS => Some("SMB2_STATUS_NO_LOGON_SERVERS"),
        SMB2_STATUS_NO_SUCH_LOGON_SESSION => Some("SMB2_STATUS_NO_SUCH_LOGON_SESSION"),
        SMB2_STATUS_NO_SUCH_PRIVILEGE => Some("SMB2_STATUS_NO_SUCH_PRIVILEGE"),
        SMB2_STATUS_PRIVILEGE_NOT_HELD => Some("SMB2_STATUS_PRIVILEGE_NOT_HELD"),
        SMB2_STATUS_INVALID_ACCOUNT_NAME => Some("SMB2_STATUS_INVALID_ACCOUNT_NAME"),
        SMB2_STATUS_USER_EXISTS => Some("SMB2_STATUS_USER_EXISTS"),
        SMB2_STATUS_NO_SUCH_USER => Some("SMB2_STATUS_NO_SUCH_USER"),
        SMB2_STATUS_GROUP_EXISTS => Some("SMB2_STATUS_GROUP_EXISTS"),
        SMB2_STATUS_NO_SUCH_GROUP => Some("SMB2_STATUS_NO_SUCH_GROUP"),
        SMB2_STATUS_MEMBER_IN_GROUP => Some("SMB2_STATUS_MEMBER_IN_GROUP"),
        SMB2_STATUS_MEMBER_NOT_IN_GROUP => Some("SMB2_STATUS_MEMBER_NOT_IN_GROUP"),
        SMB2_STATUS_LAST_ADMIN => Some("SMB2_STATUS_LAST_ADMIN"),
        SMB2_STATUS_WRONG_PASSWORD => Some("SMB2_STATUS_WRONG_PASSWORD"),
        SMB2_STATUS_ILL_FORMED_PASSWORD => Some("SMB2_STATUS_ILL_FORMED_PASSWORD"),
        SMB2_STATUS_PASSWORD_RESTRICTION => Some("SMB2_STATUS_PASSWORD_RESTRICTION"),
        SMB2_STATUS_LOGON_FAILURE => Some("SMB2_STATUS_LOGON_FAILURE"),
        SMB2_STATUS_ACCOUNT_RESTRICTION => Some("SMB2_STATUS_ACCOUNT_RESTRICTION"),
        SMB2_STATUS_INVALID_LOGON_HOURS => Some("SMB2_STATUS_INVALID_LOGON_HOURS"),
        SMB2_STATUS_INVALID_WORKSTATION => Some("SMB2_STATUS_INVALID_WORKSTATION"),
        SMB2_STATUS_PASSWORD_EXPIRED => Some("SMB2_STATUS_PASSWORD_EXPIRED"),
        SMB2_STATUS_ACCOUNT_DISABLED => Some("SMB2_STATUS_ACCOUNT_DISABLED"),
        SMB2_STATUS_NONE_MAPPED => Some("SMB2_STATUS_NONE_MAPPED"),
        SMB2_STATUS_TOO_MANY_LUIDS_REQUESTED => Some("SMB2_STATUS_TOO_MANY_LUIDS_REQUESTED"),
        SMB2_STATUS_LUIDS_EXHAUSTED => Some("SMB2_STATUS_LUIDS_EXHAUSTED"),
        SMB2_STATUS_INVALID_SUB_AUTHORITY => Some("SMB2_STATUS_INVALID_SUB_AUTHORITY"),
        SMB2_STATUS_INVALID_ACL => Some("SMB2_STATUS_INVALID_ACL"),
        SMB2_STATUS_INVALID_SID => Some("SMB2_STATUS_INVALID_SID"),
        SMB2_STATUS_INVALID_SECURITY_DESCR => Some("SMB2_STATUS_INVALID_SECURITY_DESCR"),
        SMB2_STATUS_PROCEDURE_NOT_FOUND => Some("SMB2_STATUS_PROCEDURE_NOT_FOUND"),
        SMB2_STATUS_INVALID_IMAGE_FORMAT => Some("SMB2_STATUS_INVALID_IMAGE_FORMAT"),
        SMB2_STATUS_NO_TOKEN => Some("SMB2_STATUS_NO_TOKEN"),
        SMB2_STATUS_BAD_INHERITANCE_ACL => Some("SMB2_STATUS_BAD_INHERITANCE_ACL"),
        SMB2_STATUS_RANGE_NOT_LOCKED => Some("SMB2_STATUS_RANGE_NOT_LOCKED"),
        SMB2_STATUS_DISK_FULL => Some("SMB2_STATUS_DISK_FULL"),
        SMB2_STATUS_SERVER_DISABLED => Some("SMB2_STATUS_SERVER_DISABLED"),
        SMB2_STATUS_SERVER_NOT_DISABLED => Some("SMB2_STATUS_SERVER_NOT_DISABLED"),
        SMB2_STATUS_TOO_MANY_GUIDS_REQUESTED => Some("SMB2_STATUS_TOO_MANY_GUIDS_REQUESTED"),
        SMB2_STATUS_GUIDS_EXHAUSTED => Some("SMB2_STATUS_GUIDS_EXHAUSTED"),
        SMB2_STATUS_INVALID_ID_AUTHORITY => Some("SMB2_STATUS_INVALID_ID_AUTHORITY"),
        SMB2_STATUS_AGENTS_EXHAUSTED => Some("SMB2_STATUS_AGENTS_EXHAUSTED"),
        SMB2_STATUS_INVALID_VOLUME_LABEL => Some("SMB2_STATUS_INVALID_VOLUME_LABEL"),
        SMB2_STATUS_SECTION_NOT_EXTENDED => Some("SMB2_STATUS_SECTION_NOT_EXTENDED"),
        SMB2_STATUS_NOT_MAPPED_DATA => Some("SMB2_STATUS_NOT_MAPPED_DATA"),
        SMB2_STATUS_RESOURCE_DATA_NOT_FOUND => Some("SMB2_STATUS_RESOURCE_DATA_NOT_FOUND"),
        SMB2_STATUS_RESOURCE_TYPE_NOT_FOUND => Some("SMB2_STATUS_RESOURCE_TYPE_NOT_FOUND"),
        SMB2_STATUS_RESOURCE_NAME_NOT_FOUND => Some("SMB2_STATUS_RESOURCE_NAME_NOT_FOUND"),
        SMB2_STATUS_ARRAY_BOUNDS_EXCEEDED => Some("SMB2_STATUS_ARRAY_BOUNDS_EXCEEDED"),
        SMB2_STATUS_FLOAT_DENORMAL_OPERAND => Some("SMB2_STATUS_FLOAT_DENORMAL_OPERAND"),
        SMB2_STATUS_FLOAT_DIVIDE_BY_ZERO => Some("SMB2_STATUS_FLOAT_DIVIDE_BY_ZERO"),
        SMB2_STATUS_FLOAT_INEXACT_RESULT => Some("SMB2_STATUS_FLOAT_INEXACT_RESULT"),
        SMB2_STATUS_FLOAT_INVALID_OPERATION => Some("SMB2_STATUS_FLOAT_INVALID_OPERATION"),
        SMB2_STATUS_FLOAT_OVERFLOW => Some("SMB2_STATUS_FLOAT_OVERFLOW"),
        SMB2_STATUS_FLOAT_STACK_CHECK => Some("SMB2_STATUS_FLOAT_STACK_CHECK"),
        SMB2_STATUS_FLOAT_UNDERFLOW => Some("SMB2_STATUS_FLOAT_UNDERFLOW"),
        SMB2_STATUS_INTEGER_DIVIDE_BY_ZERO => Some("SMB2_STATUS_INTEGER_DIVIDE_BY_ZERO"),
        SMB2_STATUS_INTEGER_OVERFLOW => Some("SMB2_STATUS_INTEGER_OVERFLOW"),
        SMB2_STATUS_PRIVILEGED_INSTRUCTION => Some("SMB2_STATUS_PRIVILEGED_INSTRUCTION"),
        SMB2_STATUS_TOO_MANY_PAGING_FILES => Some("SMB2_STATUS_TOO_MANY_PAGING_FILES"),
        SMB2_STATUS_FILE_INVALID => Some("SMB2_STATUS_FILE_INVALID"),
        SMB2_STATUS_ALLOTTED_SPACE_EXCEEDED => Some("SMB2_STATUS_ALLOTTED_SPACE_EXCEEDED"),
        SMB2_STATUS_INSUFFICIENT_RESOURCES => Some("SMB2_STATUS_INSUFFICIENT_RESOURCES"),
        SMB2_STATUS_DFS_EXIT_PATH_FOUND => Some("SMB2_STATUS_DFS_EXIT_PATH_FOUND"),
        SMB2_STATUS_DEVICE_DATA_ERROR => Some("SMB2_STATUS_DEVICE_DATA_ERROR"),
        SMB2_STATUS_DEVICE_NOT_CONNECTED => Some("SMB2_STATUS_DEVICE_NOT_CONNECTED"),
        SMB2_STATUS_DEVICE_POWER_FAILURE => Some("SMB2_STATUS_DEVICE_POWER_FAILURE"),
        SMB2_STATUS_FREE_VM_NOT_AT_BASE => Some("SMB2_STATUS_FREE_VM_NOT_AT_BASE"),
        SMB2_STATUS_MEMORY_NOT_ALLOCATED => Some("SMB2_STATUS_MEMORY_NOT_ALLOCATED"),
        SMB2_STATUS_WORKING_SET_QUOTA => Some("SMB2_STATUS_WORKING_SET_QUOTA"),
        SMB2_STATUS_MEDIA_WRITE_PROTECTED => Some("SMB2_STATUS_MEDIA_WRITE_PROTECTED"),
        SMB2_STATUS_DEVICE_NOT_READY => Some("SMB2_STATUS_DEVICE_NOT_READY"),
        SMB2_STATUS_INVALID_GROUP_ATTRIBUTES => Some("SMB2_STATUS_INVALID_GROUP_ATTRIBUTES"),
        SMB2_STATUS_BAD_IMPERSONATION_LEVEL => Some("SMB2_STATUS_BAD_IMPERSONATION_LEVEL"),
        SMB2_STATUS_CANT_OPEN_ANONYMOUS => Some("SMB2_STATUS_CANT_OPEN_ANONYMOUS"),
        SMB2_STATUS_BAD_VALIDATION_CLASS => Some("SMB2_STATUS_BAD_VALIDATION_CLASS"),
        SMB2_STATUS_BAD_TOKEN_TYPE => Some("SMB2_STATUS_BAD_TOKEN_TYPE"),
        SMB2_STATUS_BAD_MASTER_BOOT_RECORD => Some("SMB2_STATUS_BAD_MASTER_BOOT_RECORD"),
        SMB2_STATUS_INSTRUCTION_MISALIGNMENT => Some("SMB2_STATUS_INSTRUCTION_MISALIGNMENT"),
        SMB2_STATUS_INSTANCE_NOT_AVAILABLE => Some("SMB2_STATUS_INSTANCE_NOT_AVAILABLE"),
        SMB2_STATUS_PIPE_NOT_AVAILABLE => Some("SMB2_STATUS_PIPE_NOT_AVAILABLE"),
        SMB2_STATUS_INVALID_PIPE_STATE => Some("SMB2_STATUS_INVALID_PIPE_STATE"),
        SMB2_STATUS_PIPE_BUSY => Some("SMB2_STATUS_PIPE_BUSY"),
        SMB2_STATUS_ILLEGAL_FUNCTION => Some("SMB2_STATUS_ILLEGAL_FUNCTION"),
        SMB2_STATUS_PIPE_DISCONNECTED => Some("SMB2_STATUS_PIPE_DISCONNECTED"),
        SMB2_STATUS_PIPE_CLOSING => Some("SMB2_STATUS_PIPE_CLOSING"),
        SMB2_STATUS_PIPE_CONNECTED => Some("SMB2_STATUS_PIPE_CONNECTED"),
        SMB2_STATUS_PIPE_LISTENING => Some("SMB2_STATUS_PIPE_LISTENING"),
        SMB2_STATUS_INVALID_READ_MODE => Some("SMB2_STATUS_INVALID_READ_MODE"),
        SMB2_STATUS_IO_TIMEOUT => Some("SMB2_STATUS_IO_TIMEOUT"),
        SMB2_STATUS_FILE_FORCED_CLOSED => Some("SMB2_STATUS_FILE_FORCED_CLOSED"),
        SMB2_STATUS_PROFILING_NOT_STARTED => Some("SMB2_STATUS_PROFILING_NOT_STARTED"),
        SMB2_STATUS_PROFILING_NOT_STOPPED => Some("SMB2_STATUS_PROFILING_NOT_STOPPED"),
        SMB2_STATUS_COULD_NOT_INTERPRET => Some("SMB2_STATUS_COULD_NOT_INTERPRET"),
        SMB2_STATUS_FILE_IS_A_DIRECTORY => Some("SMB2_STATUS_FILE_IS_A_DIRECTORY"),
        SMB2_STATUS_NOT_SUPPORTED => Some("SMB2_STATUS_NOT_SUPPORTED"),
        SMB2_STATUS_REMOTE_NOT_LISTENING => Some("SMB2_STATUS_REMOTE_NOT_LISTENING"),
        SMB2_STATUS_DUPLICATE_NAME => Some("SMB2_STATUS_DUPLICATE_NAME"),
        SMB2_STATUS_BAD_NETWORK_PATH => Some("SMB2_STATUS_BAD_NETWORK_PATH"),
        SMB2_STATUS_NETWORK_BUSY => Some("SMB2_STATUS_NETWORK_BUSY"),
        SMB2_STATUS_DEVICE_DOES_NOT_EXIST => Some("SMB2_STATUS_DEVICE_DOES_NOT_EXIST"),
        SMB2_STATUS_TOO_MANY_COMMANDS => Some("SMB2_STATUS_TOO_MANY_COMMANDS"),
        SMB2_STATUS_ADAPTER_HARDWARE_ERROR => Some("SMB2_STATUS_ADAPTER_HARDWARE_ERROR"),
        SMB2_STATUS_INVALID_NETWORK_RESPONSE => Some("SMB2_STATUS_INVALID_NETWORK_RESPONSE"),
        SMB2_STATUS_UNEXPECTED_NETWORK_ERROR => Some("SMB2_STATUS_UNEXPECTED_NETWORK_ERROR"),
        SMB2_STATUS_BAD_REMOTE_ADAPTER => Some("SMB2_STATUS_BAD_REMOTE_ADAPTER"),
        SMB2_STATUS_PRINT_QUEUE_FULL => Some("SMB2_STATUS_PRINT_QUEUE_FULL"),
        SMB2_STATUS_NO_SPOOL_SPACE => Some("SMB2_STATUS_NO_SPOOL_SPACE"),
        SMB2_STATUS_PRINT_CANCELLED => Some("SMB2_STATUS_PRINT_CANCELLED"),
        SMB2_STATUS_NETWORK_NAME_DELETED => Some("SMB2_STATUS_NETWORK_NAME_DELETED"),
        SMB2_STATUS_NETWORK_ACCESS_DENIED => Some("SMB2_STATUS_NETWORK_ACCESS_DENIED"),
        SMB2_STATUS_BAD_DEVICE_TYPE => Some("SMB2_STATUS_BAD_DEVICE_TYPE"),
        SMB2_STATUS_BAD_NETWORK_NAME => Some("SMB2_STATUS_BAD_NETWORK_NAME"),
        SMB2_STATUS_TOO_MANY_NAMES => Some("SMB2_STATUS_TOO_MANY_NAMES"),
        SMB2_STATUS_TOO_MANY_SESSIONS => Some("SMB2_STATUS_TOO_MANY_SESSIONS"),
        SMB2_STATUS_SHARING_PAUSED => Some("SMB2_STATUS_SHARING_PAUSED"),
        SMB2_STATUS_REQUEST_NOT_ACCEPTED => Some("SMB2_STATUS_REQUEST_NOT_ACCEPTED"),
        SMB2_STATUS_REDIRECTOR_PAUSED => Some("SMB2_STATUS_REDIRECTOR_PAUSED"),
        SMB2_STATUS_NET_WRITE_FAULT => Some("SMB2_STATUS_NET_WRITE_FAULT"),
        SMB2_STATUS_PROFILING_AT_LIMIT => Some("SMB2_STATUS_PROFILING_AT_LIMIT"),
        SMB2_STATUS_NOT_SAME_DEVICE => Some("SMB2_STATUS_NOT_SAME_DEVICE"),
        SMB2_STATUS_FILE_RENAMED => Some("SMB2_STATUS_FILE_RENAMED"),
        SMB2_STATUS_VIRTUAL_CIRCUIT_CLOSED => Some("SMB2_STATUS_VIRTUAL_CIRCUIT_CLOSED"),
        SMB2_STATUS_NO_SECURITY_ON_OBJECT => Some("SMB2_STATUS_NO_SECURITY_ON_OBJECT"),
        SMB2_STATUS_CANT_WAIT => Some("SMB2_STATUS_CANT_WAIT"),
        SMB2_STATUS_PIPE_EMPTY => Some("SMB2_STATUS_PIPE_EMPTY"),
        SMB2_STATUS_CANT_ACCESS_DOMAIN_INFO => Some("SMB2_STATUS_CANT_ACCESS_DOMAIN_INFO"),
        SMB2_STATUS_CANT_TERMINATE_SELF => Some("SMB2_STATUS_CANT_TERMINATE_SELF"),
        SMB2_STATUS_INVALID_SERVER_STATE => Some("SMB2_STATUS_INVALID_SERVER_STATE"),
        SMB2_STATUS_INVALID_DOMAIN_STATE => Some("SMB2_STATUS_INVALID_DOMAIN_STATE"),
        SMB2_STATUS_INVALID_DOMAIN_ROLE => Some("SMB2_STATUS_INVALID_DOMAIN_ROLE"),
        SMB2_STATUS_NO_SUCH_DOMAIN => Some("SMB2_STATUS_NO_SUCH_DOMAIN"),
        SMB2_STATUS_DOMAIN_EXISTS => Some("SMB2_STATUS_DOMAIN_EXISTS"),
        SMB2_STATUS_DOMAIN_LIMIT_EXCEEDED => Some("SMB2_STATUS_DOMAIN_LIMIT_EXCEEDED"),
        SMB2_STATUS_OPLOCK_NOT_GRANTED => Some("SMB2_STATUS_OPLOCK_NOT_GRANTED"),
        SMB2_STATUS_INVALID_OPLOCK_PROTOCOL => Some("SMB2_STATUS_INVALID_OPLOCK_PROTOCOL"),
        SMB2_STATUS_INTERNAL_DB_CORRUPTION => Some("SMB2_STATUS_INTERNAL_DB_CORRUPTION"),
        SMB2_STATUS_INTERNAL_ERROR => Some("SMB2_STATUS_INTERNAL_ERROR"),
        SMB2_STATUS_GENERIC_NOT_MAPPED => Some("SMB2_STATUS_GENERIC_NOT_MAPPED"),
        SMB2_STATUS_BAD_DESCRIPTOR_FORMAT => Some("SMB2_STATUS_BAD_DESCRIPTOR_FORMAT"),
        SMB2_STATUS_INVALID_USER_BUFFER => Some("SMB2_STATUS_INVALID_USER_BUFFER"),
        SMB2_STATUS_UNEXPECTED_IO_ERROR => Some("SMB2_STATUS_UNEXPECTED_IO_ERROR"),
        SMB2_STATUS_UNEXPECTED_MM_CREATE_ERR => Some("SMB2_STATUS_UNEXPECTED_MM_CREATE_ERR"),
        SMB2_STATUS_UNEXPECTED_MM_MAP_ERROR => Some("SMB2_STATUS_UNEXPECTED_MM_MAP_ERROR"),
        SMB2_STATUS_UNEXPECTED_MM_EXTEND_ERR => Some("SMB2_STATUS_UNEXPECTED_MM_EXTEND_ERR"),
        SMB2_STATUS_NOT_LOGON_PROCESS => Some("SMB2_STATUS_NOT_LOGON_PROCESS"),
        SMB2_STATUS_LOGON_SESSION_EXISTS => Some("SMB2_STATUS_LOGON_SESSION_EXISTS"),
        SMB2_STATUS_INVALID_PARAMETER_1 => Some("SMB2_STATUS_INVALID_PARAMETER_1"),
        SMB2_STATUS_INVALID_PARAMETER_2 => Some("SMB2_STATUS_INVALID_PARAMETER_2"),
        SMB2_STATUS_INVALID_PARAMETER_3 => Some("SMB2_STATUS_INVALID_PARAMETER_3"),
        SMB2_STATUS_INVALID_PARAMETER_4 => Some("SMB2_STATUS_INVALID_PARAMETER_4"),
        SMB2_STATUS_INVALID_PARAMETER_5 => Some("SMB2_STATUS_INVALID_PARAMETER_5"),
        SMB2_STATUS_INVALID_PARAMETER_6 => Some("SMB2_STATUS_INVALID_PARAMETER_6"),
        SMB2_STATUS_INVALID_PARAMETER_7 => Some("SMB2_STATUS_INVALID_PARAMETER_7"),
        SMB2_STATUS_INVALID_PARAMETER_8 => Some("SMB2_STATUS_INVALID_PARAMETER_8"),
        SMB2_STATUS_INVALID_PARAMETER_9 => Some("SMB2_STATUS_INVALID_PARAMETER_9"),
        SMB2_STATUS_INVALID_PARAMETER_10 => Some("SMB2_STATUS_INVALID_PARAMETER_10"),
        SMB2_STATUS_INVALID_PARAMETER_11 => Some("SMB2_STATUS_INVALID_PARAMETER_11"),
        SMB2_STATUS_INVALID_PARAMETER_12 => Some("SMB2_STATUS_INVALID_PARAMETER_12"),
        SMB2_STATUS_REDIRECTOR_NOT_STARTED => Some("SMB2_STATUS_REDIRECTOR_NOT_STARTED"),
        SMB2_STATUS_REDIRECTOR_STARTED => Some("SMB2_STATUS_REDIRECTOR_STARTED"),
        SMB2_STATUS_STACK_OVERFLOW => Some("SMB2_STATUS_STACK_OVERFLOW"),
        SMB2_STATUS_NO_SUCH_PACKAGE => Some("SMB2_STATUS_NO_SUCH_PACKAGE"),
        SMB2_STATUS_BAD_FUNCTION_TABLE => Some("SMB2_STATUS_BAD_FUNCTION_TABLE"),
        SMB2_STATUS_DIRECTORY_NOT_EMPTY => Some("SMB2_STATUS_DIRECTORY_NOT_EMPTY"),
        SMB2_STATUS_FILE_CORRUPT_ERROR => Some("SMB2_STATUS_FILE_CORRUPT_ERROR"),
        SMB2_STATUS_NOT_A_DIRECTORY => Some("SMB2_STATUS_NOT_A_DIRECTORY"),
        SMB2_STATUS_BAD_LOGON_SESSION_STATE => Some("SMB2_STATUS_BAD_LOGON_SESSION_STATE"),
        SMB2_STATUS_LOGON_SESSION_COLLISION => Some("SMB2_STATUS_LOGON_SESSION_COLLISION"),
        SMB2_STATUS_NAME_TOO_LONG => Some("SMB2_STATUS_NAME_TOO_LONG"),
        SMB2_STATUS_FILES_OPEN => Some("SMB2_STATUS_FILES_OPEN"),
        SMB2_STATUS_CONNECTION_IN_USE => Some("SMB2_STATUS_CONNECTION_IN_USE"),
        SMB2_STATUS_MESSAGE_NOT_FOUND => Some("SMB2_STATUS_MESSAGE_NOT_FOUND"),
        SMB2_STATUS_PROCESS_IS_TERMINATING => Some("SMB2_STATUS_PROCESS_IS_TERMINATING"),
        SMB2_STATUS_INVALID_LOGON_TYPE => Some("SMB2_STATUS_INVALID_LOGON_TYPE"),
        SMB2_STATUS_NO_GUID_TRANSLATION => Some("SMB2_STATUS_NO_GUID_TRANSLATION"),
        SMB2_STATUS_CANNOT_IMPERSONATE => Some("SMB2_STATUS_CANNOT_IMPERSONATE"),
        SMB2_STATUS_IMAGE_ALREADY_LOADED => Some("SMB2_STATUS_IMAGE_ALREADY_LOADED"),
        SMB2_STATUS_ABIOS_NOT_PRESENT => Some("SMB2_STATUS_ABIOS_NOT_PRESENT"),
        SMB2_STATUS_ABIOS_LID_NOT_EXIST => Some("SMB2_STATUS_ABIOS_LID_NOT_EXIST"),
        SMB2_STATUS_ABIOS_LID_ALREADY_OWNED => Some("SMB2_STATUS_ABIOS_LID_ALREADY_OWNED"),
        SMB2_STATUS_ABIOS_NOT_LID_OWNER => Some("SMB2_STATUS_ABIOS_NOT_LID_OWNER"),
        SMB2_STATUS_ABIOS_INVALID_COMMAND => Some("SMB2_STATUS_ABIOS_INVALID_COMMAND"),
        SMB2_STATUS_ABIOS_INVALID_LID => Some("SMB2_STATUS_ABIOS_INVALID_LID"),
        SMB2_STATUS_ABIOS_SELECTOR_NOT_AVAILABLE => Some("SMB2_STATUS_ABIOS_SELECTOR_NOT_AVAILABLE"),
        SMB2_STATUS_ABIOS_INVALID_SELECTOR => Some("SMB2_STATUS_ABIOS_INVALID_SELECTOR"),
        SMB2_STATUS_NO_LDT => Some("SMB2_STATUS_NO_LDT"),
        SMB2_STATUS_INVALID_LDT_SIZE => Some("SMB2_STATUS_INVALID_LDT_SIZE"),
        SMB2_STATUS_INVALID_LDT_OFFSET => Some("SMB2_STATUS_INVALID_LDT_OFFSET"),
        SMB2_STATUS_INVALID_LDT_DESCRIPTOR => Some("SMB2_STATUS_INVALID_LDT_DESCRIPTOR"),
        SMB2_STATUS_INVALID_IMAGE_NE_FORMAT => Some("SMB2_STATUS_INVALID_IMAGE_NE_FORMAT"),
        SMB2_STATUS_RXACT_INVALID_STATE => Some("SMB2_STATUS_RXACT_INVALID_STATE"),
        SMB2_STATUS_RXACT_COMMIT_FAILURE => Some("SMB2_STATUS_RXACT_COMMIT_FAILURE"),
        SMB2_STATUS_MAPPED_FILE_SIZE_ZERO => Some("SMB2_STATUS_MAPPED_FILE_SIZE_ZERO"),
        SMB2_STATUS_TOO_MANY_OPENED_FILES => Some("SMB2_STATUS_TOO_MANY_OPENED_FILES"),
        SMB2_STATUS_CANCELLED => Some("SMB2_STATUS_CANCELLED"),
        SMB2_STATUS_CANNOT_DELETE => Some("SMB2_STATUS_CANNOT_DELETE"),
        SMB2_STATUS_INVALID_COMPUTER_NAME => Some("SMB2_STATUS_INVALID_COMPUTER_NAME"),
        SMB2_STATUS_FILE_DELETED => Some("SMB2_STATUS_FILE_DELETED"),
        SMB2_STATUS_SPECIAL_ACCOUNT => Some("SMB2_STATUS_SPECIAL_ACCOUNT"),
        SMB2_STATUS_SPECIAL_GROUP => Some("SMB2_STATUS_SPECIAL_GROUP"),
        SMB2_STATUS_SPECIAL_USER => Some("SMB2_STATUS_SPECIAL_USER"),
        SMB2_STATUS_MEMBERS_PRIMARY_GROUP => Some("SMB2_STATUS_MEMBERS_PRIMARY_GROUP"),
        SMB2_STATUS_FILE_CLOSED => Some("SMB2_STATUS_FILE_CLOSED"),
        SMB2_STATUS_TOO_MANY_THREADS => Some("SMB2_STATUS_TOO_MANY_THREADS"),
        SMB2_STATUS_THREAD_NOT_IN_PROCESS => Some("SMB2_STATUS_THREAD_NOT_IN_PROCESS"),
        SMB2_STATUS_TOKEN_ALREADY_IN_USE => Some("SMB2_STATUS_TOKEN_ALREADY_IN_USE"),
        SMB2_STATUS_PAGEFILE_QUOTA_EXCEEDED => Some("SMB2_STATUS_PAGEFILE_QUOTA_EXCEEDED"),
        SMB2_STATUS_COMMITMENT_LIMIT => Some("SMB2_STATUS_COMMITMENT_LIMIT"),
        SMB2_STATUS_INVALID_IMAGE_LE_FORMAT => Some("SMB2_STATUS_INVALID_IMAGE_LE_FORMAT"),
        SMB2_STATUS_INVALID_IMAGE_NOT_MZ => Some("SMB2_STATUS_INVALID_IMAGE_NOT_MZ"),
        SMB2_STATUS_INVALID_IMAGE_PROTECT => Some("SMB2_STATUS_INVALID_IMAGE_PROTECT"),
        SMB2_STATUS_INVALID_IMAGE_WIN_16 => Some("SMB2_STATUS_INVALID_IMAGE_WIN_16"),
        SMB2_STATUS_LOGON_SERVER_CONFLICT => Some("SMB2_STATUS_LOGON_SERVER_CONFLICT"),
        SMB2_STATUS_TIME_DIFFERENCE_AT_DC => Some("SMB2_STATUS_TIME_DIFFERENCE_AT_DC"),
        SMB2_STATUS_SYNCHRONIZATION_REQUIRED => Some("SMB2_STATUS_SYNCHRONIZATION_REQUIRED"),
        SMB2_STATUS_DLL_NOT_FOUND => Some("SMB2_STATUS_DLL_NOT_FOUND"),
        SMB2_STATUS_OPEN_FAILED => Some("SMB2_STATUS_OPEN_FAILED"),
        SMB2_STATUS_IO_PRIVILEGE_FAILED => Some("SMB2_STATUS_IO_PRIVILEGE_FAILED"),
        SMB2_STATUS_ORDINAL_NOT_FOUND => Some("SMB2_STATUS_ORDINAL_NOT_FOUND"),
        SMB2_STATUS_ENTRYPOINT_NOT_FOUND => Some("SMB2_STATUS_ENTRYPOINT_NOT_FOUND"),
        SMB2_STATUS_CONTROL_C_EXIT => Some("SMB2_STATUS_CONTROL_C_EXIT"),
        SMB2_STATUS_LOCAL_DISCONNECT => Some("SMB2_STATUS_LOCAL_DISCONNECT"),
        SMB2_STATUS_REMOTE_DISCONNECT => Some("SMB2_STATUS_REMOTE_DISCONNECT"),
        SMB2_STATUS_REMOTE_RESOURCES => Some("SMB2_STATUS_REMOTE_RESOURCES"),
        SMB2_STATUS_LINK_FAILED => Some("SMB2_STATUS_LINK_FAILED"),
        SMB2_STATUS_LINK_TIMEOUT => Some("SMB2_STATUS_LINK_TIMEOUT"),
        SMB2_STATUS_INVALID_CONNECTION => Some("SMB2_STATUS_INVALID_CONNECTION"),
        SMB2_STATUS_INVALID_ADDRESS => Some("SMB2_STATUS_INVALID_ADDRESS"),
        SMB2_STATUS_DLL_INIT_FAILED => Some("SMB2_STATUS_DLL_INIT_FAILED"),
        SMB2_STATUS_MISSING_SYSTEMFILE => Some("SMB2_STATUS_MISSING_SYSTEMFILE"),
        SMB2_STATUS_UNHANDLED_EXCEPTION => Some("SMB2_STATUS_UNHANDLED_EXCEPTION"),
        SMB2_STATUS_APP_INIT_FAILURE => Some("SMB2_STATUS_APP_INIT_FAILURE"),
        SMB2_STATUS_PAGEFILE_CREATE_FAILED => Some("SMB2_STATUS_PAGEFILE_CREATE_FAILED"),
        SMB2_STATUS_NO_PAGEFILE => Some("SMB2_STATUS_NO_PAGEFILE"),
        SMB2_STATUS_INVALID_LEVEL => Some("SMB2_STATUS_INVALID_LEVEL"),
        SMB2_STATUS_WRONG_PASSWORD_CORE => Some("SMB2_STATUS_WRONG_PASSWORD_CORE"),
        SMB2_STATUS_ILLEGAL_FLOAT_CONTEXT => Some("SMB2_STATUS_ILLEGAL_FLOAT_CONTEXT"),
        SMB2_STATUS_PIPE_BROKEN => Some("SMB2_STATUS_PIPE_BROKEN"),
        SMB2_STATUS_REGISTRY_CORRUPT => Some("SMB2_STATUS_REGISTRY_CORRUPT"),
        SMB2_STATUS_REGISTRY_IO_FAILED => Some("SMB2_STATUS_REGISTRY_IO_FAILED"),
        SMB2_STATUS_NO_EVENT_PAIR => Some("SMB2_STATUS_NO_EVENT_PAIR"),
        SMB2_STATUS_UNRECOGNIZED_VOLUME => Some("SMB2_STATUS_UNRECOGNIZED_VOLUME"),
        SMB2_STATUS_SERIAL_NO_DEVICE_INITED => Some("SMB2_STATUS_SERIAL_NO_DEVICE_INITED"),
        SMB2_STATUS_NO_SUCH_ALIAS => Some("SMB2_STATUS_NO_SUCH_ALIAS"),
        SMB2_STATUS_MEMBER_NOT_IN_ALIAS => Some("SMB2_STATUS_MEMBER_NOT_IN_ALIAS"),
        SMB2_STATUS_MEMBER_IN_ALIAS => Some("SMB2_STATUS_MEMBER_IN_ALIAS"),
        SMB2_STATUS_ALIAS_EXISTS => Some("SMB2_STATUS_ALIAS_EXISTS"),
        SMB2_STATUS_LOGON_NOT_GRANTED => Some("SMB2_STATUS_LOGON_NOT_GRANTED"),
        SMB2_STATUS_TOO_MANY_SECRETS => Some("SMB2_STATUS_TOO_MANY_SECRETS"),
        SMB2_STATUS_SECRET_TOO_LONG => Some("SMB2_STATUS_SECRET_TOO_LONG"),
        SMB2_STATUS_INTERNAL_DB_ERROR => Some("SMB2_STATUS_INTERNAL_DB_ERROR"),
        SMB2_STATUS_FULLSCREEN_MODE => Some("SMB2_STATUS_FULLSCREEN_MODE"),
        SMB2_STATUS_TOO_MANY_CONTEXT_IDS => Some("SMB2_STATUS_TOO_MANY_CONTEXT_IDS"),
        SMB2_STATUS_LOGON_TYPE_NOT_GRANTED => Some("SMB2_STATUS_LOGON_TYPE_NOT_GRANTED"),
        SMB2_STATUS_NOT_REGISTRY_FILE => Some("SMB2_STATUS_NOT_REGISTRY_FILE"),
        SMB2_STATUS_NT_CROSS_ENCRYPTION_REQUIRED => Some("SMB2_STATUS_NT_CROSS_ENCRYPTION_REQUIRED"),
        SMB2_STATUS_DOMAIN_CTRLR_CONFIG_ERROR => Some("SMB2_STATUS_DOMAIN_CTRLR_CONFIG_ERROR"),
        SMB2_STATUS_FT_MISSING_MEMBER => Some("SMB2_STATUS_FT_MISSING_MEMBER"),
        SMB2_STATUS_ILL_FORMED_SERVICE_ENTRY => Some("SMB2_STATUS_ILL_FORMED_SERVICE_ENTRY"),
        SMB2_STATUS_ILLEGAL_CHARACTER => Some("SMB2_STATUS_ILLEGAL_CHARACTER"),
        SMB2_STATUS_UNMAPPABLE_CHARACTER => Some("SMB2_STATUS_UNMAPPABLE_CHARACTER"),
        SMB2_STATUS_UNDEFINED_CHARACTER => Some("SMB2_STATUS_UNDEFINED_CHARACTER"),
        SMB2_STATUS_FLOPPY_VOLUME => Some("SMB2_STATUS_FLOPPY_VOLUME"),
        SMB2_STATUS_FLOPPY_ID_MARK_NOT_FOUND => Some("SMB2_STATUS_FLOPPY_ID_MARK_NOT_FOUND"),
        SMB2_STATUS_FLOPPY_WRONG_CYLINDER => Some("SMB2_STATUS_FLOPPY_WRONG_CYLINDER"),
        SMB2_STATUS_FLOPPY_UNKNOWN_ERROR => Some("SMB2_STATUS_FLOPPY_UNKNOWN_ERROR"),
        SMB2_STATUS_FLOPPY_BAD_REGISTERS => Some("SMB2_STATUS_FLOPPY_BAD_REGISTERS"),
        SMB2_STATUS_DISK_RECALIBRATE_FAILED => Some("SMB2_STATUS_DISK_RECALIBRATE_FAILED"),
        SMB2_STATUS_DISK_OPERATION_FAILED => Some("SMB2_STATUS_DISK_OPERATION_FAILED"),
        SMB2_STATUS_DISK_RESET_FAILED => Some("SMB2_STATUS_DISK_RESET_FAILED"),
        SMB2_STATUS_SHARED_IRQ_BUSY => Some("SMB2_STATUS_SHARED_IRQ_BUSY"),
        SMB2_STATUS_FT_ORPHANING => Some("SMB2_STATUS_FT_ORPHANING"),
        SMB2_STATUS_PARTITION_FAILURE => Some("SMB2_STATUS_PARTITION_FAILURE"),
        SMB2_STATUS_INVALID_BLOCK_LENGTH => Some("SMB2_STATUS_INVALID_BLOCK_LENGTH"),
        SMB2_STATUS_DEVICE_NOT_PARTITIONED => Some("SMB2_STATUS_DEVICE_NOT_PARTITIONED"),
        SMB2_STATUS_UNABLE_TO_LOCK_MEDIA => Some("SMB2_STATUS_UNABLE_TO_LOCK_MEDIA"),
        SMB2_STATUS_UNABLE_TO_UNLOAD_MEDIA => Some("SMB2_STATUS_UNABLE_TO_UNLOAD_MEDIA"),
        SMB2_STATUS_EOM_OVERFLOW => Some("SMB2_STATUS_EOM_OVERFLOW"),
        SMB2_STATUS_NO_MEDIA => Some("SMB2_STATUS_NO_MEDIA"),
        SMB2_STATUS_NO_SUCH_MEMBER => Some("SMB2_STATUS_NO_SUCH_MEMBER"),
        SMB2_STATUS_INVALID_MEMBER => Some("SMB2_STATUS_INVALID_MEMBER"),
        SMB2_STATUS_KEY_DELETED => Some("SMB2_STATUS_KEY_DELETED"),
        SMB2_STATUS_NO_LOG_SPACE => Some("SMB2_STATUS_NO_LOG_SPACE"),
        SMB2_STATUS_TOO_MANY_SIDS => Some("SMB2_STATUS_TOO_MANY_SIDS"),
        SMB2_STATUS_LM_CROSS_ENCRYPTION_REQUIRED => Some("SMB2_STATUS_LM_CROSS_ENCRYPTION_REQUIRED"),
        SMB2_STATUS_KEY_HAS_CHILDREN => Some("SMB2_STATUS_KEY_HAS_CHILDREN"),
        SMB2_STATUS_CHILD_MUST_BE_VOLATILE => Some("SMB2_STATUS_CHILD_MUST_BE_VOLATILE"),
        SMB2_STATUS_DEVICE_CONFIGURATION_ERROR => Some("SMB2_STATUS_DEVICE_CONFIGURATION_ERROR"),
        SMB2_STATUS_DRIVER_INTERNAL_ERROR => Some("SMB2_STATUS_DRIVER_INTERNAL_ERROR"),
        SMB2_STATUS_INVALID_DEVICE_STATE => Some("SMB2_STATUS_INVALID_DEVICE_STATE"),
        SMB2_STATUS_IO_DEVICE_ERROR => Some("SMB2_STATUS_IO_DEVICE_ERROR"),
        SMB2_STATUS_DEVICE_PROTOCOL_ERROR => Some("SMB2_STATUS_DEVICE_PROTOCOL_ERROR"),
        SMB2_STATUS_BACKUP_CONTROLLER => Some("SMB2_STATUS_BACKUP_CONTROLLER"),
        SMB2_STATUS_LOG_FILE_FULL => Some("SMB2_STATUS_LOG_FILE_FULL"),
        SMB2_STATUS_TOO_LATE => Some("SMB2_STATUS_TOO_LATE"),
        SMB2_STATUS_NO_TRUST_LSA_SECRET => Some("SMB2_STATUS_NO_TRUST_LSA_SECRET"),
        SMB2_STATUS_NO_TRUST_SAM_ACCOUNT => Some("SMB2_STATUS_NO_TRUST_SAM_ACCOUNT"),
        SMB2_STATUS_TRUSTED_DOMAIN_FAILURE => Some("SMB2_STATUS_TRUSTED_DOMAIN_FAILURE"),
        SMB2_STATUS_TRUSTED_RELATIONSHIP_FAILURE => Some("SMB2_STATUS_TRUSTED_RELATIONSHIP_FAILURE"),
        SMB2_STATUS_EVENTLOG_FILE_CORRUPT => Some("SMB2_STATUS_EVENTLOG_FILE_CORRUPT"),
        SMB2_STATUS_EVENTLOG_CANT_START => Some("SMB2_STATUS_EVENTLOG_CANT_START"),
        SMB2_STATUS_TRUST_FAILURE => Some("SMB2_STATUS_TRUST_FAILURE"),
        SMB2_STATUS_MUTANT_LIMIT_EXCEEDED => Some("SMB2_STATUS_MUTANT_LIMIT_EXCEEDED"),
        SMB2_STATUS_NETLOGON_NOT_STARTED => Some("SMB2_STATUS_NETLOGON_NOT_STARTED"),
        SMB2_STATUS_ACCOUNT_EXPIRED => Some("SMB2_STATUS_ACCOUNT_EXPIRED"),
        SMB2_STATUS_POSSIBLE_DEADLOCK => Some("SMB2_STATUS_POSSIBLE_DEADLOCK"),
        SMB2_STATUS_NETWORK_CREDENTIAL_CONFLICT => Some("SMB2_STATUS_NETWORK_CREDENTIAL_CONFLICT"),
        SMB2_STATUS_REMOTE_SESSION_LIMIT => Some("SMB2_STATUS_REMOTE_SESSION_LIMIT"),
        SMB2_STATUS_EVENTLOG_FILE_CHANGED => Some("SMB2_STATUS_EVENTLOG_FILE_CHANGED"),
        SMB2_STATUS_NOLOGON_INTERDOMAIN_TRUST_ACCOUNT => Some("SMB2_STATUS_NOLOGON_INTERDOMAIN_TRUST_ACCOUNT"),
        SMB2_STATUS_NOLOGON_WORKSTATION_TRUST_ACCOUNT => Some("SMB2_STATUS_NOLOGON_WORKSTATION_TRUST_ACCOUNT"),
        SMB2_STATUS_NOLOGON_SERVER_TRUST_ACCOUNT => Some("SMB2_STATUS_NOLOGON_SERVER_TRUST_ACCOUNT"),
        SMB2_STATUS_DOMAIN_TRUST_INCONSISTENT => Some("SMB2_STATUS_DOMAIN_TRUST_INCONSISTENT"),
        SMB2_STATUS_FS_DRIVER_REQUIRED => Some("SMB2_STATUS_FS_DRIVER_REQUIRED"),
        SMB2_STATUS_NO_USER_SESSION_KEY => Some("SMB2_STATUS_NO_USER_SESSION_KEY"),
        SMB2_STATUS_USER_SESSION_DELETED => Some("SMB2_STATUS_USER_SESSION_DELETED"),
        SMB2_STATUS_RESOURCE_LANG_NOT_FOUND => Some("SMB2_STATUS_RESOURCE_LANG_NOT_FOUND"),
        SMB2_STATUS_INSUFF_SERVER_RESOURCES => Some("SMB2_STATUS_INSUFF_SERVER_RESOURCES"),
        SMB2_STATUS_INVALID_BUFFER_SIZE => Some("SMB2_STATUS_INVALID_BUFFER_SIZE"),
        SMB2_STATUS_INVALID_ADDRESS_COMPONENT => Some("SMB2_STATUS_INVALID_ADDRESS_COMPONENT"),
        SMB2_STATUS_INVALID_ADDRESS_WILDCARD => Some("SMB2_STATUS_INVALID_ADDRESS_WILDCARD"),
        SMB2_STATUS_TOO_MANY_ADDRESSES => Some("SMB2_STATUS_TOO_MANY_ADDRESSES"),
        SMB2_STATUS_ADDRESS_ALREADY_EXISTS => Some("SMB2_STATUS_ADDRESS_ALREADY_EXISTS"),
        SMB2_STATUS_ADDRESS_CLOSED => Some("SMB2_STATUS_ADDRESS_CLOSED"),
        SMB2_STATUS_CONNECTION_DISCONNECTED => Some("SMB2_STATUS_CONNECTION_DISCONNECTED"),
        SMB2_STATUS_CONNECTION_RESET => Some("SMB2_STATUS_CONNECTION_RESET"),
        SMB2_STATUS_TOO_MANY_NODES => Some("SMB2_STATUS_TOO_MANY_NODES"),
        SMB2_STATUS_TRANSACTION_ABORTED => Some("SMB2_STATUS_TRANSACTION_ABORTED"),
        SMB2_STATUS_TRANSACTION_TIMED_OUT => Some("SMB2_STATUS_TRANSACTION_TIMED_OUT"),
        SMB2_STATUS_TRANSACTION_NO_RELEASE => Some("SMB2_STATUS_TRANSACTION_NO_RELEASE"),
        SMB2_STATUS_TRANSACTION_NO_MATCH => Some("SMB2_STATUS_TRANSACTION_NO_MATCH"),
        SMB2_STATUS_TRANSACTION_RESPONDED => Some("SMB2_STATUS_TRANSACTION_RESPONDED"),
        SMB2_STATUS_TRANSACTION_INVALID_ID => Some("SMB2_STATUS_TRANSACTION_INVALID_ID"),
        SMB2_STATUS_TRANSACTION_INVALID_TYPE => Some("SMB2_STATUS_TRANSACTION_INVALID_TYPE"),
        SMB2_STATUS_NOT_SERVER_SESSION => Some("SMB2_STATUS_NOT_SERVER_SESSION"),
        SMB2_STATUS_NOT_CLIENT_SESSION => Some("SMB2_STATUS_NOT_CLIENT_SESSION"),
        SMB2_STATUS_CANNOT_LOAD_REGISTRY_FILE => Some("SMB2_STATUS_CANNOT_LOAD_REGISTRY_FILE"),
        SMB2_STATUS_DEBUG_ATTACH_FAILED => Some("SMB2_STATUS_DEBUG_ATTACH_FAILED"),
        SMB2_STATUS_SYSTEM_PROCESS_TERMINATED => Some("SMB2_STATUS_SYSTEM_PROCESS_TERMINATED"),
        SMB2_STATUS_DATA_NOT_ACCEPTED => Some("SMB2_STATUS_DATA_NOT_ACCEPTED"),
        SMB2_STATUS_NO_BROWSER_SERVERS_FOUND => Some("SMB2_STATUS_NO_BROWSER_SERVERS_FOUND"),
        SMB2_STATUS_VDM_HARD_ERROR => Some("SMB2_STATUS_VDM_HARD_ERROR"),
        SMB2_STATUS_DRIVER_CANCEL_TIMEOUT => Some("SMB2_STATUS_DRIVER_CANCEL_TIMEOUT"),
        SMB2_STATUS_REPLY_MESSAGE_MISMATCH => Some("SMB2_STATUS_REPLY_MESSAGE_MISMATCH"),
        SMB2_STATUS_MAPPED_ALIGNMENT => Some("SMB2_STATUS_MAPPED_ALIGNMENT"),
        SMB2_STATUS_IMAGE_CHECKSUM_MISMATCH => Some("SMB2_STATUS_IMAGE_CHECKSUM_MISMATCH"),
        SMB2_STATUS_LOST_WRITEBEHIND_DATA => Some("SMB2_STATUS_LOST_WRITEBEHIND_DATA"),
        SMB2_STATUS_CLIENT_SERVER_PARAMETERS_INVALID => Some("SMB2_STATUS_CLIENT_SERVER_PARAMETERS_INVALID"),
        SMB2_STATUS_PASSWORD_MUST_CHANGE => Some("SMB2_STATUS_PASSWORD_MUST_CHANGE"),
        SMB2_STATUS_NOT_FOUND => Some("SMB2_STATUS_NOT_FOUND"),
        SMB2_STATUS_NOT_TINY_STREAM => Some("SMB2_STATUS_NOT_TINY_STREAM"),
        SMB2_STATUS_RECOVERY_FAILURE => Some("SMB2_STATUS_RECOVERY_FAILURE"),
        SMB2_STATUS_STACK_OVERFLOW_READ => Some("SMB2_STATUS_STACK_OVERFLOW_READ"),
        SMB2_STATUS_FAIL_CHECK => Some("SMB2_STATUS_FAIL_CHECK"),
        SMB2_STATUS_DUPLICATE_OBJECTID => Some("SMB2_STATUS_DUPLICATE_OBJECTID"),
        SMB2_STATUS_OBJECTID_EXISTS => Some("SMB2_STATUS_OBJECTID_EXISTS"),
        SMB2_STATUS_CONVERT_TO_LARGE => Some("SMB2_STATUS_CONVERT_TO_LARGE"),
        SMB2_STATUS_RETRY => Some("SMB2_STATUS_RETRY"),
        SMB2_STATUS_FOUND_OUT_OF_SCOPE => Some("SMB2_STATUS_FOUND_OUT_OF_SCOPE"),
        SMB2_STATUS_ALLOCATE_BUCKET => Some("SMB2_STATUS_ALLOCATE_BUCKET"),
        SMB2_STATUS_PROPSET_NOT_FOUND => Some("SMB2_STATUS_PROPSET_NOT_FOUND"),
        SMB2_STATUS_MARSHALL_OVERFLOW => Some("SMB2_STATUS_MARSHALL_OVERFLOW"),
        SMB2_STATUS_INVALID_VARIANT => Some("SMB2_STATUS_INVALID_VARIANT"),
        SMB2_STATUS_DOMAIN_CONTROLLER_NOT_FOUND => Some("SMB2_STATUS_DOMAIN_CONTROLLER_NOT_FOUND"),
        SMB2_STATUS_ACCOUNT_LOCKED_OUT => Some("SMB2_STATUS_ACCOUNT_LOCKED_OUT"),
        SMB2_STATUS_HANDLE_NOT_CLOSABLE => Some("SMB2_STATUS_HANDLE_NOT_CLOSABLE"),
        SMB2_STATUS_CONNECTION_REFUSED => Some("SMB2_STATUS_CONNECTION_REFUSED"),
        SMB2_STATUS_GRACEFUL_DISCONNECT => Some("SMB2_STATUS_GRACEFUL_DISCONNECT"),
        SMB2_STATUS_ADDRESS_ALREADY_ASSOCIATED => Some("SMB2_STATUS_ADDRESS_ALREADY_ASSOCIATED"),
        SMB2_STATUS_ADDRESS_NOT_ASSOCIATED => Some("SMB2_STATUS_ADDRESS_NOT_ASSOCIATED"),
        SMB2_STATUS_CONNECTION_INVALID => Some("SMB2_STATUS_CONNECTION_INVALID"),
        SMB2_STATUS_CONNECTION_ACTIVE => Some("SMB2_STATUS_CONNECTION_ACTIVE"),
        SMB2_STATUS_NETWORK_UNREACHABLE => Some("SMB2_STATUS_NETWORK_UNREACHABLE"),
        SMB2_STATUS_HOST_UNREACHABLE => Some("SMB2_STATUS_HOST_UNREACHABLE"),
        SMB2_STATUS_PROTOCOL_UNREACHABLE => Some("SMB2_STATUS_PROTOCOL_UNREACHABLE"),
        SMB2_STATUS_PORT_UNREACHABLE => Some("SMB2_STATUS_PORT_UNREACHABLE"),
        SMB2_STATUS_REQUEST_ABORTED => Some("SMB2_STATUS_REQUEST_ABORTED"),
        SMB2_STATUS_CONNECTION_ABORTED => Some("SMB2_STATUS_CONNECTION_ABORTED"),
        SMB2_STATUS_BAD_COMPRESSION_BUFFER => Some("SMB2_STATUS_BAD_COMPRESSION_BUFFER"),
        SMB2_STATUS_USER_MAPPED_FILE => Some("SMB2_STATUS_USER_MAPPED_FILE"),
        SMB2_STATUS_AUDIT_FAILED => Some("SMB2_STATUS_AUDIT_FAILED"),
        SMB2_STATUS_TIMER_RESOLUTION_NOT_SET => Some("SMB2_STATUS_TIMER_RESOLUTION_NOT_SET"),
        SMB2_STATUS_CONNECTION_COUNT_LIMIT => Some("SMB2_STATUS_CONNECTION_COUNT_LIMIT"),
        SMB2_STATUS_LOGIN_TIME_RESTRICTION => Some("SMB2_STATUS_LOGIN_TIME_RESTRICTION"),
        SMB2_STATUS_LOGIN_WKSTA_RESTRICTION => Some("SMB2_STATUS_LOGIN_WKSTA_RESTRICTION"),
        SMB2_STATUS_IMAGE_MP_UP_MISMATCH => Some("SMB2_STATUS_IMAGE_MP_UP_MISMATCH"),
        SMB2_STATUS_INSUFFICIENT_LOGON_INFO => Some("SMB2_STATUS_INSUFFICIENT_LOGON_INFO"),
        SMB2_STATUS_BAD_DLL_ENTRYPOINT => Some("SMB2_STATUS_BAD_DLL_ENTRYPOINT"),
        SMB2_STATUS_BAD_SERVICE_ENTRYPOINT => Some("SMB2_STATUS_BAD_SERVICE_ENTRYPOINT"),
        SMB2_STATUS_LPC_REPLY_LOST => Some("SMB2_STATUS_LPC_REPLY_LOST"),
        SMB2_STATUS_IP_ADDRESS_CONFLICT1 => Some("SMB2_STATUS_IP_ADDRESS_CONFLICT1"),
        SMB2_STATUS_IP_ADDRESS_CONFLICT2 => Some("SMB2_STATUS_IP_ADDRESS_CONFLICT2"),
        SMB2_STATUS_REGISTRY_QUOTA_LIMIT => Some("SMB2_STATUS_REGISTRY_QUOTA_LIMIT"),
        SMB2_STATUS_PATH_NOT_COVERED => Some("SMB2_STATUS_PATH_NOT_COVERED"),
        SMB2_STATUS_NO_CALLBACK_ACTIVE => Some("SMB2_STATUS_NO_CALLBACK_ACTIVE"),
        SMB2_STATUS_LICENSE_QUOTA_EXCEEDED => Some("SMB2_STATUS_LICENSE_QUOTA_EXCEEDED"),
        SMB2_STATUS_PWD_TOO_SHORT => Some("SMB2_STATUS_PWD_TOO_SHORT"),
        SMB2_STATUS_PWD_TOO_RECENT => Some("SMB2_STATUS_PWD_TOO_RECENT"),
        SMB2_STATUS_PWD_HISTORY_CONFLICT => Some("SMB2_STATUS_PWD_HISTORY_CONFLICT"),
        SMB2_STATUS_PLUGPLAY_NO_DEVICE => Some("SMB2_STATUS_PLUGPLAY_NO_DEVICE"),
        SMB2_STATUS_UNSUPPORTED_COMPRESSION => Some("SMB2_STATUS_UNSUPPORTED_COMPRESSION"),
        SMB2_STATUS_INVALID_HW_PROFILE => Some("SMB2_STATUS_INVALID_HW_PROFILE"),
        SMB2_STATUS_INVALID_PLUGPLAY_DEVICE_PATH => Some("SMB2_STATUS_INVALID_PLUGPLAY_DEVICE_PATH"),
        SMB2_STATUS_DRIVER_ORDINAL_NOT_FOUND => Some("SMB2_STATUS_DRIVER_ORDINAL_NOT_FOUND"),
        SMB2_STATUS_DRIVER_ENTRYPOINT_NOT_FOUND => Some("SMB2_STATUS_DRIVER_ENTRYPOINT_NOT_FOUND"),
        SMB2_STATUS_RESOURCE_NOT_OWNED => Some("SMB2_STATUS_RESOURCE_NOT_OWNED"),
        SMB2_STATUS_TOO_MANY_LINKS => Some("SMB2_STATUS_TOO_MANY_LINKS"),
        SMB2_STATUS_QUOTA_LIST_INCONSISTENT => Some("SMB2_STATUS_QUOTA_LIST_INCONSISTENT"),
        SMB2_STATUS_FILE_IS_OFFLINE => Some("SMB2_STATUS_FILE_IS_OFFLINE"),
        SMB2_STATUS_VOLUME_DISMOUNTED => Some("SMB2_STATUS_VOLUME_DISMOUNTED"),
        SMB2_STATUS_NOT_A_REPARSE_POINT => Some("SMB2_STATUS_NOT_A_REPARSE_POINT"),
        SMB2_STATUS_SERVER_UNAVAILABLE => Some("SMB2_STATUS_SERVER_UNAVAILABLE"),
        SMB2_STATUS_BUFFER_OVERFLOW => Some("SMB2_STATUS_BUFFER_OVERFLOW"),
        SMB2_STATUS_STOPPED_ON_SYMLINK => Some("SMB2_STATUS_STOPPED_ON_SYMLINK"),
        _ => None,
    }
}

/// Maps an NTSTATUS to a negative errno-style value at the coarsest grain:
/// success maps to `0`, pending to `-11`, and every other status to `-1`.
/// The per-status errno table lives with the NT status names.
#[must_use]
pub fn nterror_to_errno(status: u32) -> (r: i32)
    ensures
        r == (if status == SMB2_STATUS_SUCCESS {
            0
        } else if status == SMB2_STATUS_PENDING {
            -11
        } else {
            -1
        }),
{
    match status {
        SMB2_STATUS_SUCCESS => 0,
        SMB2_STATUS_PENDING => -11,
        _ => -1,
    }
}

} // verus!
