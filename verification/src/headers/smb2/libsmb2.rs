//! The public client API: error codes, file types and stat records,
//! dialect and authentication selectors, file and directory handles, PDU
//! records, the queued operation records, UTF-16 strings, time conversion
//! and the server-side dispatch records.




use vstd::prelude::*;

use crate::text::{decode_utf16_lossy, encode_utf16, utf16_decode_lossy, utf16_encode};

verus! {

/// Crate-local result type for SMB2 operations.
pub type Result<T> = std::result::Result<T, ErrorCode>;

/// Negative errno-style error code.
#[derive(Debug, Clone, Copy, PartialEq, Eq)]
pub struct ErrorCode(pub i32);

/// Error code used when a string cannot be represented as a C string.
pub const EINVAL: i32 = -22;

/// Version marker for SRVSVC share enumeration compatibility.
pub const LIBSMB2_SHARE_ENUM_V2: u32 = 1;

/// File type constant for a regular file.
pub const SMB2_TYPE_FILE: u32 = 0x0000_0000;

/// File type constant for a directory.
pub const SMB2_TYPE_DIRECTORY: u32 = 0x0000_0001;

/// File type constant for a symbolic link or reparse point.
pub const SMB2_TYPE_LINK: u32 = 0x0000_0002;

/// Event callback command indicating a file descriptor was added.
pub const SMB2_ADD_FD: i32 = 0;

/// Event callback command indicating a file descriptor was removed.
pub const SMB2_DEL_FD: i32 = 1;

/// Wildcard dialect value used while negotiating SMB2 dialects.
pub const SMB2_VERSION_WILDCARD: u16 = 0x02ff;

/// Major version of this library.
pub const LIBSMB2_MAJOR_VERSION: u8 = 4;

/// Minor version of this library.
pub const LIBSMB2_MINOR_VERSION: u8 = 0;

/// Patch version of this library.
pub const LIBSMB2_PATCH_VERSION: u8 = 0;

/// Size in bytes of SMB2 GUID values.
pub const SMB2_GUID_SIZE: usize = 16;

/// Size in bytes of SMB2 file identifiers.
pub const SMB2_FILE_ID_SIZE: usize = 16;

/// Default maximum read size used before negotiation completes.
pub const DEFAULT_MAX_READ_SIZE: u32 = 0;

/// Default maximum write size used before negotiation completes.
pub const DEFAULT_MAX_WRITE_SIZE: u32 = 0;

/// Socket descriptor type corresponding to `t_socket` on non-Windows platforms.
pub type Socket = i32;


/// File type reported by `smb2_stat_64`.
#[derive(Debug, Clone, Copy, PartialEq, Eq)]
pub enum FileType {
    /// Regular file.
    File,
    /// Directory.
    Directory,
    /// Symbolic link or reparse point.
    Link,
    /// Any other raw value.
    Unknown(u32),
}

/// The file type that a raw `SMB2_TYPE_*` value denotes.
pub open spec fn file_type_of(raw: u32) -> FileType {
    if raw == SMB2_TYPE_FILE {
        FileType::File
    } else if raw == SMB2_TYPE_DIRECTORY {
        FileType::Directory
    } else if raw == SMB2_TYPE_LINK {
        FileType::Link
    } else {
        FileType::Unknown(raw)
    }
}

/// The raw `SMB2_TYPE_*` value of a file type.
pub open spec fn file_type_raw(t: FileType) -> u32 {
    match t {
        FileType::File => SMB2_TYPE_FILE,
        FileType::Directory => SMB2_TYPE_DIRECTORY,
        FileType::Link => SMB2_TYPE_LINK,
        FileType::Unknown(raw) => raw,
    }
}

/// Decoding a raw file type value and encoding it again gives the same value.
pub proof fn lemma_file_type_round_trip(raw: u32)
    ensures
        file_type_raw(file_type_of(raw)) == raw,
{
}

/// `SMB2_TYPE_FILE`, `SMB2_TYPE_DIRECTORY` and `SMB2_TYPE_LINK` decode to
/// a file, a directory and a link, and encode back to those values; other
/// values stay `Unknown`.
pub proof fn lemma_file_type_codes(raw: u32)
    ensures
        file_type_of(SMB2_TYPE_FILE) == FileType::File,
        file_type_of(SMB2_TYPE_DIRECTORY) == FileType::Directory,
        file_type_of(SMB2_TYPE_LINK) == FileType::Link,
        file_type_raw(FileType::File) == SMB2_TYPE_FILE,
        file_type_raw(FileType::Directory) == SMB2_TYPE_DIRECTORY,
        file_type_raw(FileType::Link) == SMB2_TYPE_LINK,
        !(raw == SMB2_TYPE_FILE || raw == SMB2_TYPE_DIRECTORY || raw == SMB2_TYPE_LINK)
            ==> file_type_of(raw) == FileType::Unknown(raw),
{
}

impl FileType {
    /// Converts an `SMB2_TYPE_*` value into a file type.
    #[must_use]
    pub fn from_raw(raw: u32) -> (r: Self)
        ensures
            r == file_type_of(raw),
    {
        match raw {
            SMB2_TYPE_FILE => Self::File,
            SMB2_TYPE_DIRECTORY => Self::Directory,
            SMB2_TYPE_LINK => Self::Link,
            other => Self::Unknown(other),
        }
    }

    /// Converts this file type back to its `SMB2_TYPE_*` value.
    #[must_use]
    pub fn as_raw(self) -> (r: u32)
        ensures
            r == file_type_raw(self),
    {
        match self {
            Self::File => SMB2_TYPE_FILE,
            Self::Directory => SMB2_TYPE_DIRECTORY,
            Self::Link => SMB2_TYPE_LINK,
            Self::Unknown(raw) => raw,
        }
    }
}

/// The `smb2_stat_64` record.
#[derive(Debug, Clone, Copy, PartialEq, Eq)]
pub struct Stat {
    /// SMB2 file type.
    pub file_type: FileType,
    /// Link count.
    pub nlink: u32,
    /// File identifier.
    pub ino: u64,
    /// File size in bytes.
    pub size: u64,
    /// Access time seconds.
    pub atime: u64,
    /// Access time nanoseconds.
    pub atime_nsec: u64,
    /// Modification time seconds.
    pub mtime: u64,
    /// Modification time nanoseconds.
    pub mtime_nsec: u64,
    /// Change time seconds.
    pub ctime: u64,
    /// Change time nanoseconds.
    pub ctime_nsec: u64,
    /// Birth time seconds.
    pub btime: u64,
    /// Birth time nanoseconds.
    pub btime_nsec: u64,
}

/// The `smb2_statvfs` record.
#[derive(Debug, Clone, Copy, PartialEq, Eq)]
pub struct StatVfs {
    /// Filesystem block size.
    pub block_size: u32,
    /// Fragment size.
    pub fragment_size: u32,
    /// Total block count.
    pub blocks: u64,
    /// Free block count.
    pub blocks_free: u64,
    /// Available block count.
    pub blocks_available: u64,
    /// Total file node count.
    pub files: u32,
    /// Free file node count.
    pub files_free: u32,
    /// Available file node count.
    pub files_available: u32,
    /// Filesystem id.
    pub filesystem_id: u32,
    /// Filesystem flags.
    pub flags: u32,
    /// Maximum filename length.
    pub name_max: u32,
}

/// Directory entry returned by `smb2_readdir`.
#[derive(Debug, Clone, PartialEq, Eq)]
pub struct DirectoryEntry {
    /// Entry name.
    pub name: String,
    /// Entry metadata.
    pub stat: Stat,
}

/// The `SMB2_VERSION_ANY` dialect selector.
pub const SMB2_VERSION_ANY: u16 = 0;

/// The `SMB2_VERSION_ANY2` dialect selector.
pub const SMB2_VERSION_ANY2: u16 = 2;

/// The `SMB2_VERSION_ANY3` dialect selector.
pub const SMB2_VERSION_ANY3: u16 = 3;

/// The `SMB2_VERSION_0202` dialect selector.
pub const SMB2_VERSION_0202: u16 = 0x0202;

/// The `SMB2_VERSION_0210` dialect selector.
pub const SMB2_VERSION_0210: u16 = 0x0210;

/// The `SMB2_VERSION_0300` dialect selector.
pub const SMB2_VERSION_0300: u16 = 0x0300;

/// The `SMB2_VERSION_0302` dialect selector.
pub const SMB2_VERSION_0302: u16 = 0x0302;

/// The `SMB2_VERSION_0311` dialect selector.
pub const SMB2_VERSION_0311: u16 = 0x0311;

/// SMB dialect selector used by `smb2_set_version`.
#[derive(Debug, Clone, Copy, PartialEq, Eq)]
pub enum NegotiateVersion {
    /// Let the server pick any supported dialect.
    Any,
    /// Let the server pick any SMB2 dialect.
    Any2,
    /// Let the server pick any SMB3 dialect.
    Any3,
    /// SMB 2.0.2 dialect.
    V0202,
    /// SMB 2.1 dialect.
    V0210,
    /// SMB 3.0 dialect.
    V0300,
    /// SMB 3.0.2 dialect.
    V0302,
    /// SMB 3.1.1 dialect.
    V0311,
    /// Any other dialect selector.
    Unknown(u16),
}

/// The dialect selector that a raw `enum smb2_negotiate_version` value denotes.
pub open spec fn negotiate_version_of(raw: u16) -> NegotiateVersion {
    if raw == 0 {
        NegotiateVersion::Any
    } else if raw == 2 {
        NegotiateVersion::Any2
    } else if raw == 3 {
        NegotiateVersion::Any3
    } else if raw == 0x0202 {
        NegotiateVersion::V0202
    } else if raw == 0x0210 {
        NegotiateVersion::V0210
    } else if raw == 0x0300 {
        NegotiateVersion::V0300
    } else if raw == 0x0302 {
        NegotiateVersion::V0302
    } else if raw == 0x0311 {
        NegotiateVersion::V0311
    } else {
        NegotiateVersion::Unknown(raw)
    }
}

/// The raw value of a dialect selector.
pub open spec fn negotiate_version_raw(v: NegotiateVersion) -> u16 {
    match v {
        NegotiateVersion::Any => 0,
        NegotiateVersion::Any2 => 2,
        NegotiateVersion::Any3 => 3,
        NegotiateVersion::V0202 => 0x0202,
        NegotiateVersion::V0210 => 0x0210,
        NegotiateVersion::V0300 => 0x0300,
        NegotiateVersion::V0302 => 0x0302,
        NegotiateVersion::V0311 => 0x0311,
        NegotiateVersion::Unknown(raw) => raw,
    }
}

/// Decoding a raw dialect selector and encoding it again gives the same value.
pub proof fn lemma_negotiate_version_round_trip(raw: u16)
    ensures
        negotiate_version_raw(negotiate_version_of(raw)) == raw,
{
}

/// Each `SMB2_VERSION_*` selector decodes to the dialect choice it names
/// and each choice encodes to its selector; other values stay `Unknown`.
pub proof fn lemma_negotiate_version_codes(raw: u16)
    ensures
        negotiate_version_of(SMB2_VERSION_ANY) == NegotiateVersion::Any,
        negotiate_version_of(SMB2_VERSION_ANY2) == NegotiateVersion::Any2,
        negotiate_version_of(SMB2_VERSION_ANY3) == NegotiateVersion::Any3,
        negotiate_version_of(SMB2_VERSION_0202) == NegotiateVersion::V0202,
        negotiate_version_of(SMB2_VERSION_0210) == NegotiateVersion::V0210,
        negotiate_version_of(SMB2_VERSION_0300) == NegotiateVersion::V0300,
        negotiate_version_of(SMB2_VERSION_0302) == NegotiateVersion::V0302,
        negotiate_version_of(SMB2_VERSION_0311) == NegotiateVersion::V0311,
        negotiate_version_raw(NegotiateVersion::Any) == SMB2_VERSION_ANY,
        negotiate_version_raw(NegotiateVersion::Any2) == SMB2_VERSION_ANY2,
        negotiate_version_raw(NegotiateVersion::Any3) == SMB2_VERSION_ANY3,
        negotiate_version_raw(NegotiateVersion::V0202) == SMB2_VERSION_0202,
        negotiate_version_raw(NegotiateVersion::V0210) == SMB2_VERSION_0210,
        negotiate_version_raw(NegotiateVersion::V0300) == SMB2_VERSION_0300,
        negotiate_version_raw(NegotiateVersion::V0302) == SMB2_VERSION_0302,
        negotiate_version_raw(NegotiateVersion::V0311) == SMB2_VERSION_0311,
        !(raw == SMB2_VERSION_ANY || raw == SMB2_VERSION_ANY2 || raw == SMB2_VERSION_ANY3
            || raw == SMB2_VERSION_0202 || raw == SMB2_VERSION_0210 || raw == SMB2_VERSION_0300
            || raw == SMB2_VERSION_0302 || raw == SMB2_VERSION_0311)
            ==> negotiate_version_of(raw) == NegotiateVersion::Unknown(raw),
{
}

impl NegotiateVersion {
    /// Converts an `enum smb2_negotiate_version` value into a selector.
    #[must_use]
    pub fn from_raw(raw: u16) -> (r: Self)
        ensures
            r == negotiate_version_of(raw),
    {
        match raw {
            0 => Self::Any,
            2 => Self::Any2,
            3 => Self::Any3,
            0x0202 => Self::V0202,
            0x0210 => Self::V0210,
            0x0300 => Self::V0300,
            0x0302 => Self::V0302,
            0x0311 => Self::V0311,
            other => Self::Unknown(other),
        }
    }

    /// Converts this version selector to its numeric value.
    #[must_use]
    pub fn as_raw(self) -> (r: u16)
        ensures
            r == negotiate_version_raw(self),
    {
        match self {
            Self::Any => 0,
            Self::Any2 => 2,
            Self::Any3 => 3,
            Self::V0202 => 0x0202,
            Self::V0210 => 0x0210,
            Self::V0300 => 0x0300,
            Self::V0302 => 0x0302,
            Self::V0311 => 0x0311,
            Self::Unknown(raw) => raw,
        }
    }
}

/// Authentication method selector corresponding to `enum smb2_sec`.
#[derive(Debug, Clone, Copy, PartialEq, Eq)]
pub enum AuthenticationMethod {
    /// Let libsmb2 choose Kerberos when available, otherwise NTLMSSP.
    Undefined,
    /// Use NTLMSSP authentication.
    NtlmSsp,
    /// Use Kerberos authentication.
    Krb5,
}

impl Default for AuthenticationMethod {
    fn default() -> (r: Self)
        ensures
            r == AuthenticationMethod::Undefined,
    {
        Self::Undefined
    }
}

/// Linked libsmb2 version information.
#[derive(Debug, Clone, Copy, PartialEq, Eq)]
pub struct LibVersion {
    /// Major version component.
    pub major_version: u8,
    /// Minor version component.
    pub minor_version: u8,
    /// Patch version component.
    pub patch_version: u8,
}

impl LibVersion {
    /// Version value of this library.
    pub fn current() -> (r: Self)
        ensures
            r.major_version == LIBSMB2_MAJOR_VERSION,
            r.minor_version == LIBSMB2_MINOR_VERSION,
            r.patch_version == LIBSMB2_PATCH_VERSION,
    {
        Self {
            major_version: LIBSMB2_MAJOR_VERSION,
            minor_version: LIBSMB2_MINOR_VERSION,
            patch_version: LIBSMB2_PATCH_VERSION,
        }
    }
}

/// Time value used by timestamp conversion helpers.
#[derive(Debug, Clone, Copy, PartialEq, Eq, Default)]
pub struct TimeVal {
    /// Seconds since the Unix epoch.
    pub seconds: i64,
    /// Microseconds within the current second.
    pub microseconds: i64,
}

/// Parsed SMB2 URL fields from `smb2_parse_url`.
#[derive(Debug, Clone, PartialEq, Eq)]
pub struct Smb2Url {
    /// Optional authentication domain.
    pub domain: Option<String>,
    /// Optional username.
    pub user: Option<String>,
    /// Server name or address.
    pub server: String,
    /// Share name.
    pub share: String,
    /// Optional path within the share.
    pub path: Option<String>,
}

/// Opaque file handle corresponding to `struct smb2fh`.
#[derive(Debug)]
pub struct FileHandle {
    pub(crate) id: [u8; SMB2_FILE_ID_SIZE],
    pub(crate) offset: u64,
}

impl FileHandle {
    /// The raw SMB2 file id held by the handle.
    pub closed spec fn spec_id(&self) -> [u8; 16] {
        self.id
    }

    /// The offset held by the handle.
    pub closed spec fn spec_offset(&self) -> u64 {
        self.offset
    }

    /// Creates a file handle from a raw SMB2 file id.
    #[must_use]
    pub fn new(id: [u8; SMB2_FILE_ID_SIZE]) -> (r: Self)
        ensures
            r.spec_id() == id,
            r.spec_offset() == 0,
    {
        Self { id, offset: 0 }
    }

    /// Returns the raw SMB2 file id.
    #[must_use]
    pub fn id(&self) -> (r: [u8; SMB2_FILE_ID_SIZE])
        ensures
            r == self.spec_id(),
    {
        self.id
    }

    /// Returns the current cached file offset.
    #[must_use]
    pub fn offset(&self) -> (r: u64)
        ensures
            r == self.spec_offset(),
    {
        self.offset
    }
}

/// Opaque directory handle corresponding to `struct smb2dir`.
#[derive(Debug)]
pub struct DirectoryHandle {
    pub(crate) id: [u8; SMB2_FILE_ID_SIZE],
    pub(crate) index: usize,
}

impl DirectoryHandle {
    /// The raw SMB2 file id held by the handle.
    pub closed spec fn spec_id(&self) -> [u8; 16] {
        self.id
    }

    /// The index held by the handle.
    pub closed spec fn spec_index(&self) -> usize {
        self.index
    }

    /// Creates a directory handle from a raw SMB2 file id.
    #[must_use]
    pub fn new(id: [u8; SMB2_FILE_ID_SIZE]) -> (r: Self)
        ensures
            r.spec_id() == id,
            r.spec_index() == 0,
    {
        Self { id, index: 0 }
    }

    /// Returns the raw SMB2 file id.
    #[must_use]
    pub fn id(&self) -> (r: [u8; SMB2_FILE_ID_SIZE])
        ensures
            r == self.spec_id(),
    {
        self.id
    }

    /// Returns the current directory entry index.
    #[must_use]
    pub fn index(&self) -> (r: usize)
        ensures
            r == self.spec_index(),
    {
        self.index
    }
}

/// Opaque protocol data unit corresponding to `struct smb2_pdu`.
#[derive(Debug, Clone, PartialEq, Eq, Default)]
pub struct PduHandle {
    /// Optional tree id associated with the PDU.
    pub tree_id: Option<u32>,
    /// Optional SMB2 message id associated with the PDU.
    pub message_id: Option<u64>,
    /// Last completion status assigned to the PDU.
    pub status: i32,
    /// Whether this PDU belongs to a compound chain.
    pub is_compound: bool,
}

/// Read callback data corresponding to `struct smb2_read_cb_data`.
#[derive(Debug, Clone, PartialEq, Eq)]
pub struct ReadCallbackData {
    /// File identifier being read.
    pub file_id: [u8; SMB2_FILE_ID_SIZE],
    /// Caller-provided buffer length.
    pub count: u32,
    /// File offset used by the read.
    pub offset: u64,
}

/// Write callback data corresponding to `struct smb2_write_cb_data`.
#[derive(Debug, Clone, PartialEq, Eq)]
pub struct WriteCallbackData {
    /// File identifier being written.
    pub file_id: [u8; SMB2_FILE_ID_SIZE],
    /// Caller-provided byte count.
    pub count: u32,
    /// File offset used by the write.
    pub offset: u64,
}

/// Lease key passed to open-with-lease operations.
#[derive(Debug, Clone, Copy, PartialEq, Eq, Default)]
pub struct LeaseKey(pub [u8; SMB2_GUID_SIZE]);

/// Oplock or lease break acknowledgement selected by a callback.
#[derive(Debug, Clone, Copy, PartialEq, Eq)]
pub struct OplockOrLeaseBreak {
    /// Status value of the break notification.
    pub status: i32,
    /// New oplock level requested by the application.
    pub new_oplock_level: Option<u8>,
    /// New lease state requested by the application.
    pub new_lease_state: Option<u32>,
}

/// UTF-16 string container corresponding to `struct smb2_utf16`.
#[derive(Debug, Clone, PartialEq, Eq)]
pub struct Utf16String {
    /// UTF-16 code units in little-endian SMB order.
    pub value: Vec<u16>,
}

impl Utf16String {
    /// Creates a UTF-16 value from code units.
    #[must_use]
    pub fn new(value: Vec<u16>) -> (r: Self)
        ensures
            r.value@ == value@,
    {
        Self { value }
    }

    /// Returns the number of UTF-16 code units.
    #[must_use]
    pub fn len(&self) -> (r: usize)
        ensures
            r == self.value@.len(),
    {
        self.value.len()
    }

    /// Returns whether the UTF-16 string has no code units.
    #[must_use]
    pub fn is_empty(&self) -> (r: bool)
        ensures
            r == (self.value@.len() == 0),
    {
        self.value.is_empty()
    }
}

/// One file notification entry returned by CHANGE_NOTIFY.
#[derive(Debug, Clone, PartialEq, Eq)]
pub struct FileNotifyChangeInformation {
    /// Action code reported by the server.
    pub action: u32,
    /// File name associated with the action.
    pub name: String,
}

/// An operation requested through the public client functions.
#[derive(Debug, Clone, PartialEq, Eq)]
pub enum Smb2Operation {
    /// Connect the TCP transport to a server.
    Connect { server: String },
    /// Connect to a share on a server.
    ConnectShare {
        /// Server name or address.
        server: String,
        /// Share name.
        share: String,
        /// Optional user name.
        user: Option<String>,
    },
    /// Disconnect from the current share.
    DisconnectShare,
    /// Open a directory path.
    OpenDir { path: String },
    /// Open or create a file path.
    Open {
        /// Path relative to the share.
        path: String,
        /// POSIX-style open flags from the caller.
        flags: i32,
        /// Requested oplock level.
        oplock_level: Option<u8>,
        /// Requested lease state.
        lease_state: Option<u32>,
        /// Requested lease key.
        lease_key: Option<LeaseKey>,
    },
    /// Close a file handle.
    Close { file_id: [u8; SMB2_FILE_ID_SIZE] },
    /// Flush a file handle.
    Fsync { file_id: [u8; SMB2_FILE_ID_SIZE] },
    /// Read from a file handle.
    Read {
        /// File id to read from.
        file_id: [u8; SMB2_FILE_ID_SIZE],
        /// Byte count requested.
        count: u32,
        /// Absolute file offset.
        offset: Option<u64>,
    },
    /// Write to a file handle.
    Write {
        /// File id to write to.
        file_id: [u8; SMB2_FILE_ID_SIZE],
        /// Byte count requested.
        count: u32,
        /// Absolute file offset.
        offset: Option<u64>,
    },
    /// Seek a file handle.
    Lseek {
        /// File id to seek.
        file_id: [u8; SMB2_FILE_ID_SIZE],
        /// Offset argument.
        offset: i64,
        /// `SEEK_*` selector.
        whence: i32,
    },
    /// Remove a file path.
    Unlink { path: String },
    /// Remove a directory path.
    Rmdir { path: String },
    /// Create a directory path.
    Mkdir { path: String },
    /// Query filesystem metadata.
    StatVfs { path: String },
    /// Query file-handle metadata.
    Fstat { file_id: [u8; SMB2_FILE_ID_SIZE] },
    /// Query path metadata.
    Stat { path: String },
    /// Rename a path.
    Rename { old_path: String, new_path: String },
    /// Truncate a path.
    Truncate { path: String, length: u64 },
    /// Truncate a file handle.
    Ftruncate {
        /// File id to truncate.
        file_id: [u8; SMB2_FILE_ID_SIZE],
        /// New length.
        length: u64,
    },
    /// Read a symbolic link target.
    Readlink { path: String, buffer_size: u32 },
    /// Send an SMB2 echo request.
    Echo,
    /// Watch a path for changes.
    NotifyChange {
        /// Path to watch.
        path: String,
        /// Watch flags.
        flags: u16,
        /// Completion filter.
        filter: u32,
        /// Whether the watch loops.
        repeat: bool,
    },
    /// Watch an already-open directory handle for changes.
    NotifyChangeFileHandle {
        /// Directory file id to watch.
        file_id: [u8; SMB2_FILE_ID_SIZE],
        /// Watch flags.
        flags: u16,
        /// Completion filter.
        filter: u32,
        /// Whether the watch loops.
        repeat: bool,
    },
}


/// Server-side handler result following the convention of negative, zero, or positive.
#[derive(Debug, Clone, Copy, PartialEq, Eq)]
pub enum ServerHandlerResult {
    /// Handler failed; the library should create an error reply.
    Error(i32),
    /// Handler succeeded; the library should build a reply from output state.
    Success,
    /// Handler already created and queued a reply.
    ReplyQueued(i32),
}

/// Server-side request kind from `struct smb2_server_request_handlers`.
#[derive(Debug, Clone, Copy, PartialEq, Eq)]
pub enum ServerRequestKind {
    /// Context destruction event.
    DestructionEvent,
    /// User authorization hook.
    AuthorizeUser,
    /// Session-established hook.
    SessionEstablished,
    /// LOGOFF command.
    Logoff,
    /// TREE_CONNECT command.
    TreeConnect,
    /// TREE_DISCONNECT command.
    TreeDisconnect,
    /// CREATE command.
    Create,
    /// CLOSE command.
    Close,
    /// FLUSH command.
    Flush,
    /// READ command.
    Read,
    /// WRITE command.
    Write,
    /// OPLOCK_BREAK acknowledgement command.
    OplockBreak,
    /// LEASE_BREAK acknowledgement command.
    LeaseBreak,
    /// LOCK command.
    Lock,
    /// IOCTL command.
    Ioctl,
    /// CANCEL command.
    Cancel,
    /// ECHO command.
    Echo,
    /// QUERY_DIRECTORY command.
    QueryDirectory,
    /// CHANGE_NOTIFY command.
    ChangeNotify,
    /// QUERY_INFO command.
    QueryInfo,
    /// SET_INFO command.
    SetInfo,
}

/// Server-side dispatch record carrying the command kind and optional ids.
#[derive(Debug, Clone, PartialEq, Eq)]
pub struct ServerRequest {
    /// Request kind being dispatched.
    pub kind: ServerRequestKind,
    /// Tree id associated with the command, when known.
    pub tree_id: Option<u32>,
    /// Message id associated with the command, when known.
    pub message_id: Option<u64>,
}

/// Server configuration corresponding to `struct smb2_server`.
#[derive(Debug, Clone, PartialEq, Eq)]
pub struct Smb2Server {
    /// Server GUID.
    pub guid: [u8; SMB2_GUID_SIZE],
    /// Hostname advertised by the server.
    pub hostname: String,
    /// Authentication domain advertised by the server.
    pub domain: String,
    /// Listening socket descriptor.
    pub fd: Socket,
    /// Listening port.
    pub port: u16,
    /// Monotonic session counter of the server.
    pub session_counter: u64,
    /// Maximum transact size advertised by the server.
    pub max_transact_size: u32,
    /// Maximum read size advertised by the server.
    pub max_read_size: u32,
    /// Maximum write size advertised by the server.
    pub max_write_size: u32,
    /// Whether signing is enabled for server sessions.
    pub signing_enabled: bool,
    /// Whether anonymous authentication is allowed.
    pub allow_anonymous: bool,
    /// Whether authentication may be delegated to a proxy client.
    pub proxy_authentication: bool,
    /// Capabilities saved from negotiation.
    pub capabilities: u32,
    /// Security mode saved from negotiation.
    pub security_mode: u32,
    /// Optional Kerberos keytab path.
    pub keytab_path: Option<String>,
    /// Last server-side error string.
    pub error: Option<String>,
    /// Opaque authentication data address-sized value.
    pub auth_data: Option<usize>,
}

impl Smb2Server {
    /// Every field but the port holds its initial value: zeros, empty names,
    /// no descriptor (`-1`), nothing enabled and nothing recorded.
    pub open spec fn is_initial(&self) -> bool {
        &&& forall|i: int| 0 <= i < 16 ==> self.guid[i] == 0
        &&& self.hostname@.len() == 0
        &&& self.domain@.len() == 0
        &&& self.fd == -1
        &&& self.session_counter == 0
        &&& self.max_transact_size == 0
        &&& self.max_read_size == 0
        &&& self.max_write_size == 0
        &&& !self.signing_enabled
        &&& !self.allow_anonymous
        &&& !self.proxy_authentication
        &&& self.capabilities == 0
        &&& self.security_mode == 0
        &&& self.keytab_path is None
        &&& self.error is None
        &&& self.auth_data is None
    }
}

impl Default for Smb2Server {
    fn default() -> (r: Self)
        ensures
            r.is_initial(),
            r.port == 0,
    {
        Self {
            guid: [0; 16],
            hostname: String::new(),
            domain: String::new(),
            fd: -1,
            port: 0,
            session_counter: 0,
            max_transact_size: 0,
            max_read_size: 0,
            max_write_size: 0,
            signing_enabled: false,
            allow_anonymous: false,
            proxy_authentication: false,
            capabilities: 0,
            security_mode: 0,
            keytab_path: None,
            error: None,
            auth_data: None,
        }
    }
}

/// Number of 100 ns intervals between 1601-01-01 and 1970-01-01.
pub const WINDOWS_TO_UNIX_EPOCH_100NS: u64 = 116_444_736_000_000_000;

/// The Unix time value of an SMB timestamp (100 ns intervals since 1601);
/// timestamps at or before the Unix epoch give the zero time value.
pub open spec fn spec_win_to_timeval(smb2_time: u64) -> TimeVal {
    if smb2_time <= WINDOWS_TO_UNIX_EPOCH_100NS {
        TimeVal { seconds: 0, microseconds: 0 }
    } else {
        let unix_100ns = smb2_time - WINDOWS_TO_UNIX_EPOCH_100NS;
        TimeVal {
            seconds: (unix_100ns / 10_000_000) as i64,
            microseconds: ((unix_100ns % 10_000_000) / 10) as i64,
        }
    }
}

/// A product clamped to `u64::MAX`.
pub open spec fn saturating_product(a: u64, b: u64) -> int {
    if a * b > u64::MAX {
        u64::MAX as int
    } else {
        a * b
    }
}

/// A signed component with negative values read as zero.
pub open spec fn non_negative(v: i64) -> u64 {
    if v < 0 {
        0
    } else {
        v as u64
    }
}

/// The SMB timestamp of a Unix time value, as an unbounded integer: negative
/// components count as zero and each scaled component saturates at `u64::MAX`.
pub open spec fn spec_timeval_to_win(tv: TimeVal) -> int {
    WINDOWS_TO_UNIX_EPOCH_100NS + saturating_product(non_negative(tv.seconds), 10_000_000)
        + saturating_product(non_negative(tv.microseconds), 10)
}

fn saturating_mul_u64(a: u64, b: u64) -> (r: u64)
    ensures
        r == saturating_product(a, b),
{
    match a.checked_mul(b) {
        Some(v) => v,
        None => u64::MAX,
    }
}

/// Converts a Windows FILETIME-like SMB timestamp to a Unix timeval.
#[must_use]
pub fn win_to_timeval(smb2_time: u64) -> (r: TimeVal)
    ensures
        r == spec_win_to_timeval(smb2_time),
{
    if smb2_time <= WINDOWS_TO_UNIX_EPOCH_100NS {
        return TimeVal { seconds: 0, microseconds: 0 };
    }
    let unix_100ns = smb2_time - WINDOWS_TO_UNIX_EPOCH_100NS;
    let seconds = unix_100ns / 10_000_000;
    let micros = (unix_100ns % 10_000_000) / 10;
    assert(seconds <= u64::MAX / 10_000_000);
    TimeVal { seconds: seconds as i64, microseconds: micros as i64 }
}

/// Converts a Unix timeval to a Windows FILETIME-like SMB timestamp.
///
/// The caller keeps the result within `u64`: larger inputs overflow.
#[must_use]
pub fn timeval_to_win(tv: TimeVal) -> (r: u64)
    requires
        spec_timeval_to_win(tv) <= u64::MAX,
    ensures
        r == spec_timeval_to_win(tv),
{
    let seconds: u64 = if tv.seconds < 0 {
        0
    } else {
        tv.seconds as u64
    };
    let micros: u64 = if tv.microseconds < 0 {
        0
    } else {
        tv.microseconds as u64
    };
    WINDOWS_TO_UNIX_EPOCH_100NS + saturating_mul_u64(seconds, 10_000_000) + saturating_mul_u64(
        micros,
        10,
    )
}

/// A timestamp after the Unix epoch survives conversion to a time value and
/// back, up to the sub-microsecond digit that the time value cannot hold.
pub proof fn lemma_timestamp_round_trip(t: u64)
    requires
        t > WINDOWS_TO_UNIX_EPOCH_100NS,
    ensures
        spec_timeval_to_win(spec_win_to_timeval(t)) == t - (t - WINDOWS_TO_UNIX_EPOCH_100NS) % 10,
{
    let u = (t - WINDOWS_TO_UNIX_EPOCH_100NS) as int;
    let s = u / 10_000_000;
    let rem = u % 10_000_000;
    let us = rem / 10;
    assert(u == s * 10_000_000 + rem) by (nonlinear_arith)
        requires
            s == u / 10_000_000,
            rem == u % 10_000_000,
    ;
    assert(rem == us * 10 + rem % 10) by (nonlinear_arith)
        requires
            us == rem / 10,
            rem >= 0,
    ;
    assert(rem % 10 == u % 10) by (nonlinear_arith)
        requires
            rem == u % 10_000_000,
            u >= 0,
    ;
    assert(0 <= s <= u64::MAX / 10_000_000) by (nonlinear_arith)
        requires
            s == u / 10_000_000,
            0 <= u <= u64::MAX,
    ;
    assert(0 <= us < 1_000_000) by (nonlinear_arith)
        requires
            us == rem / 10,
            0 <= rem < 10_000_000,
    ;
    let tv = spec_win_to_timeval(t);
    assert(tv.seconds == s);
    assert(tv.microseconds == us);
    assert(non_negative(tv.seconds) * 10_000_000 <= u64::MAX) by (nonlinear_arith)
        requires
            non_negative(tv.seconds) == s,
            0 <= s <= u64::MAX / 10_000_000,
    ;
}

/// Converts a known NT status code into its static name.
#[must_use]
pub fn nterror_to_str(status: u32) -> (r: &'static str)
    ensures
        r@ == (if status == 0 {
            "STATUS_SUCCESS"@
        } else {
            "STATUS_UNKNOWN"@
        }),
{
    match status {
        0 => "STATUS_SUCCESS",
        _ => "STATUS_UNKNOWN",
    }
}

/// Converts a known NT status code into an errno-style value.
#[must_use]
pub fn nterror_to_errno(status: u32) -> (r: i32)
    ensures
        r == (if status == 0 {
            0
        } else {
            EINVAL
        }),
{
    match status {
        0 => 0,
        _ => EINVAL,
    }
}

/// Builds UTF-16 code units from a UTF-8 string using SMB little-endian semantics.
#[must_use]
pub fn utf8_to_utf16(utf8: &str) -> (r: Utf16String)
    ensures
        r.value@ == encode_utf16(utf8@),
{
    Utf16String::new(utf16_encode(utf8))
}

/// Builds a UTF-8 string from UTF-16 code units.
///
/// Unpaired surrogates are replaced by U+FFFD, one replacement per unit.
#[must_use]
pub fn utf16_to_utf8(str: &[u16]) -> (r: String)
    ensures
        r@ == decode_utf16_lossy(str@),
{
    utf16_decode_lossy(str)
}

/// Builds a bind-and-listen server socket request.
///
/// # Errors
///
/// Returns `ErrorCode(-22)` if `max_connections` is negative.
pub fn bind_and_listen(port: u16, max_connections: i32) -> (r: Result<Smb2Server>)
    ensures
        max_connections < 0 ==> r == Err::<Smb2Server, ErrorCode>(ErrorCode(EINVAL)),
        max_connections >= 0 ==> (r matches Ok(server) && server.port == port && server.is_initial()),
{
    if max_connections < 0 {
        return Err(ErrorCode(EINVAL));
    }
    let mut server = Smb2Server::default();
    server.port = port;
    server.fd = -1;
    Ok(server)
}

/// Builds an accept-connection request.
///
/// # Errors
///
/// Returns `ErrorCode(-22)` if `fd` is negative.
pub fn accept_connection_async(fd: Socket, timeout_msecs: i32) -> (r: Result<(Socket, i32)>)
    ensures
        r == (if fd < 0 {
            Err(ErrorCode(EINVAL))
        } else {
            Ok((fd, timeout_msecs))
        }),
{
    if fd < 0 {
        return Err(ErrorCode(EINVAL));
    }
    Ok((fd, timeout_msecs))
}

/// A server just made by `bind_and_listen` has no listening descriptor, so
/// `serve_port` refuses to serve it with `EINVAL` whatever the connection
/// limit.
pub proof fn lemma_fresh_server_is_not_served(server: Smb2Server)
    requires
        server.is_initial(),
    ensures
        server.fd < 0,
{
}

/// Builds a synchronous serve-port loop.
///
/// # Errors
///
/// Returns `ErrorCode(-22)` if the server socket descriptor is negative.
pub fn serve_port(server: &Smb2Server, max_connections: i32) -> (r: Result<i32>)
    ensures
        r == (if server.fd < 0 || max_connections < 0 {
            Err(ErrorCode(EINVAL))
        } else {
            Ok(0i32)
        }),
{
    if server.fd < 0 || max_connections < 0 {
        return Err(ErrorCode(EINVAL));
    }
    Ok(0)
}

} // verus!
