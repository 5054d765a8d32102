//! NT status names and the errno categories of NT status values.
use vstd::prelude::*;

verus! {

/// NT status value carried by SMB2 responses.
#[derive(Debug, Clone, Copy, PartialEq, Eq, Hash)]
pub struct NtStatus(pub u32);

impl NtStatus {
    /// Creates an NT status from its raw 32-bit value.
    pub fn new(raw: u32) -> (r: Self)
        ensures
            r.0 == raw,
    {
        NtStatus(raw)
    }

    /// Returns the raw 32-bit value.
    pub fn raw(self) -> (r: u32)
        ensures
            r == self.0,
    {
        self.0
    }
}

impl From<u32> for NtStatus {
    fn from(value: u32) -> (r: Self) {
        NtStatus::new(value)
    }
}

impl vstd::std_specs::convert::FromSpecImpl<u32> for NtStatus {
    open spec fn obeys_from_spec() -> bool {
        true
    }

    open spec fn from_spec(v: u32) -> NtStatus {
        NtStatus(v)
    }
}

/// A status value with its name.
#[derive(Debug, Clone, Copy, PartialEq, Eq)]
pub struct NtStatusName {
    /// Status value.
    pub status: NtStatus,
    /// Status name.
    pub name: &'static str,
}

impl NtStatusName {
    /// Creates a status-name entry.
    pub fn new(status: u32, name: &'static str) -> (r: Self)
        ensures
            r.status.0 == status,
            r.name == name,
    {
        NtStatusName { status: NtStatus::new(status), name }
    }

    /// Returns `true` when this entry is for `status`.
    pub fn matches(self, status: u32) -> (r: bool)
        ensures
            r == (self.status.0 == status),
    {
        self.status.raw() == status
    }
}

/// POSIX `EAGAIN` (try again).
pub const POSIX_EAGAIN: i32 = 11;

/// POSIX `ENOENT` (no such file or directory).
pub const POSIX_ENOENT: i32 = 2;

/// POSIX `EBADF` (bad file descriptor).
pub const POSIX_EBADF: i32 = 9;

/// POSIX `EACCES` (permission denied).
pub const POSIX_EACCES: i32 = 13;

/// POSIX `EPERM` (operation not permitted).
pub const POSIX_EPERM: i32 = 1;

/// POSIX `ENOTEMPTY` (directory not empty).
pub const POSIX_ENOTEMPTY: i32 = 39;

/// POSIX `ENODATA` (no data available).
pub const POSIX_ENODATA: i32 = 61;

/// POSIX `ECONNREFUSED` (connection refused).
pub const POSIX_ECONNREFUSED: i32 = 111;

/// POSIX `ENOTDIR` (not a directory).
pub const POSIX_ENOTDIR: i32 = 20;

/// POSIX `EINVAL` (invalid argument).
pub const POSIX_EINVAL: i32 = 22;

/// POSIX `ENOLINK` (link has been severed).
pub const POSIX_ENOLINK: i32 = 67;

/// POSIX `EMFILE` (too many open files).
pub const POSIX_EMFILE: i32 = 24;

/// POSIX `ENOMEM` (out of memory).
pub const POSIX_ENOMEM: i32 = 12;

/// POSIX `EXDEV` (cross-device link).
pub const POSIX_EXDEV: i32 = 18;

/// POSIX `ETXTBSY` (text file busy).
pub const POSIX_ETXTBSY: i32 = 26;

/// POSIX `EDEADLK` (resource deadlock would occur).
pub const POSIX_EDEADLK: i32 = 35;

/// POSIX `EEXIST` (file exists).
pub const POSIX_EEXIST: i32 = 17;

/// POSIX `EPIPE` (broken pipe).
pub const POSIX_EPIPE: i32 = 32;

/// POSIX `EROFS` (read-only file system).
pub const POSIX_EROFS: i32 = 30;

/// POSIX `ENODEV` (no such device).
pub const POSIX_ENODEV: i32 = 19;

/// POSIX `EIO` (input/output error).
pub const POSIX_EIO: i32 = 5;

/// POSIX `ENOSPC` (no space left on device).
pub const POSIX_ENOSPC: i32 = 28;

/// POSIX `ENETRESET` (network dropped connection on reset).
pub const POSIX_ENETRESET: i32 = 102;

/// POSIX `ENOEXEC` (exec format error).
pub const POSIX_ENOEXEC: i32 = 8;

/// POSIX `ETIMEDOUT` (connection timed out).
pub const POSIX_ETIMEDOUT: i32 = 110;

/// POSIX `EBUSY` (device or resource busy).
pub const POSIX_EBUSY: i32 = 16;

/// Errno-style category used by `nterror_to_errno`.
#[derive(Debug, Clone, Copy, PartialEq, Eq)]
pub enum Smb2Errno {
    /// Operation completed successfully.
    Success,
    /// Operation should be retried later.
    Again,
    /// The shutdown status, reported as its negated value.
    Shutdown(NtStatus),
    /// No such file, path, or device.
    NoEntry,
    /// Bad or stale file descriptor/handle.
    BadFileDescriptor,
    /// Permission or authentication denied.
    AccessDenied,
    /// Operation is not permitted for this state or object.
    PermissionDenied,
    /// Directory is not empty.
    NotEmpty,
    /// No more directory data is available.
    NoData,
    /// Connection or logon was refused.
    ConnectionRefused,
    /// Path component is not a directory.
    NotDirectory,
    /// Invalid argument or unsupported request.
    InvalidArgument,
    /// Symbolic link traversal cannot continue.
    NoLink,
    /// Too many open files.
    TooManyOpenFiles,
    /// Memory or server resources are exhausted.
    NoMemory,
    /// Cross-device operation.
    CrossDevice,
    /// Text file or shared object is busy.
    TextBusy,
    /// Lock conflict or deadlock condition.
    Deadlock,
    /// Object already exists.
    Exists,
    /// Pipe is closed or disconnected.
    Pipe,
    /// Read-only media or filesystem.
    ReadOnly,
    /// Device is missing or unavailable.
    NoDevice,
    /// Input/output failure.
    Io,
    /// No space is available on the target.
    NoSpace,
    /// Network state was reset and the caller may retry.
    NetworkReset,
    /// No exact POSIX errno exists for the NTSTATUS.
    NoExec,
    /// I/O operation timed out.
    TimedOut,
    /// Resource is busy.
    Busy,
}

/// The errno value of each category.
pub open spec fn errno_code(e: Smb2Errno) -> int {
    match e {
        Smb2Errno::Success => 0,
        Smb2Errno::Again => 11,
        Smb2Errno::Shutdown(status) => -((status.0 as i32) as int),
        Smb2Errno::NoEntry => 2,
        Smb2Errno::BadFileDescriptor => 9,
        Smb2Errno::AccessDenied => 13,
        Smb2Errno::PermissionDenied => 1,
        Smb2Errno::NotEmpty => 39,
        Smb2Errno::NoData => 61,
        Smb2Errno::ConnectionRefused => 111,
        Smb2Errno::NotDirectory => 20,
        Smb2Errno::InvalidArgument => 22,
        Smb2Errno::NoLink => 67,
        Smb2Errno::TooManyOpenFiles => 24,
        Smb2Errno::NoMemory => 12,
        Smb2Errno::CrossDevice => 18,
        Smb2Errno::TextBusy => 26,
        Smb2Errno::Deadlock => 35,
        Smb2Errno::Exists => 17,
        Smb2Errno::Pipe => 32,
        Smb2Errno::ReadOnly => 30,
        Smb2Errno::NoDevice => 19,
        Smb2Errno::Io => 5,
        Smb2Errno::NoSpace => 28,
        Smb2Errno::NetworkReset => 102,
        Smb2Errno::NoExec => 8,
        Smb2Errno::TimedOut => 110,
        Smb2Errno::Busy => 16,
    }
}

impl Smb2Errno {
    /// Returns the errno value of the category.
    pub fn code(self) -> (r: i32)
        requires
            !(self matches Smb2Errno::Shutdown(s) && s.0 as i32 == i32::MIN),
        ensures
            r == errno_code(self),
    {
        match self {
            Smb2Errno::Success => 0,
            Smb2Errno::Again => 11,
            Smb2Errno::Shutdown(status) => -(status.raw() as i32),
            Smb2Errno::NoEntry => 2,
            Smb2Errno::BadFileDescriptor => 9,
            Smb2Errno::AccessDenied => 13,
            Smb2Errno::PermissionDenied => 1,
            Smb2Errno::NotEmpty => 39,
            Smb2Errno::NoData => 61,
            Smb2Errno::ConnectionRefused => 111,
            Smb2Errno::NotDirectory => 20,
            Smb2Errno::InvalidArgument => 22,
            Smb2Errno::NoLink => 67,
            Smb2Errno::TooManyOpenFiles => 24,
            Smb2Errno::NoMemory => 12,
            Smb2Errno::CrossDevice => 18,
            Smb2Errno::TextBusy => 26,
            Smb2Errno::Deadlock => 35,
            Smb2Errno::Exists => 17,
            Smb2Errno::Pipe => 32,
            Smb2Errno::ReadOnly => 30,
            Smb2Errno::NoDevice => 19,
            Smb2Errno::Io => 5,
            Smb2Errno::NoSpace => 28,
            Smb2Errno::NetworkReset => 102,
            Smb2Errno::NoExec => 8,
            Smb2Errno::TimedOut => 110,
            Smb2Errno::Busy => 16,
        }
    }
}

/// A status value with its errno category.
#[derive(Debug, Clone, Copy, PartialEq, Eq)]
pub struct NtStatusErrno {
    /// Status value.
    pub status: NtStatus,
    /// Errno category of the status.
    pub errno: Smb2Errno,
}

impl NtStatusErrno {
    /// Creates a status-to-errno entry.
    pub fn new(status: u32, errno: Smb2Errno) -> (r: Self)
        ensures
            r.status.0 == status,
            r.errno == errno,
    {
        NtStatusErrno { status: NtStatus::new(status), errno }
    }

    /// Returns `true` when this entry is for `status`.
    pub fn matches(self, status: u32) -> (r: bool)
        ensures
            r == (self.status.0 == status),
    {
        self.status.raw() == status
    }
}

/// Successful NTSTATUS value.
pub const SMB2_STATUS_SUCCESS: u32 = 0x0000_0000;

/// Asynchronous operation is still pending.
pub const SMB2_STATUS_PENDING: u32 = 0x0000_0103;

/// No more directory entries are available.
pub const SMB2_STATUS_NO_MORE_FILES: u32 = 0x8000_0006;

/// Symbolic link traversal stopped.
pub const SMB2_STATUS_STOPPED_ON_SYMLINK: u32 = 0x8000_002D;

/// Generic unsuccessful status.
pub const SMB2_STATUS_UNSUCCESSFUL: u32 = 0xC000_0001;

/// Operation is not implemented.
pub const SMB2_STATUS_NOT_IMPLEMENTED: u32 = 0xC000_0002;

/// Invalid handle status.
pub const SMB2_STATUS_INVALID_HANDLE: u32 = 0xC000_0008;

/// Invalid parameter status.
pub const SMB2_STATUS_INVALID_PARAMETER: u32 = 0xC000_000D;

/// No such device status.
pub const SMB2_STATUS_NO_SUCH_DEVICE: u32 = 0xC000_000E;

/// No such file status.
pub const SMB2_STATUS_NO_SUCH_FILE: u32 = 0xC000_000F;

/// Invalid device request status.
pub const SMB2_STATUS_INVALID_DEVICE_REQUEST: u32 = 0xC000_0010;

/// End of file status.
pub const SMB2_STATUS_END_OF_FILE: u32 = 0xC000_0011;

/// No media in device status.
pub const SMB2_STATUS_NO_MEDIA_IN_DEVICE: u32 = 0xC000_0013;

/// More processing is required.
pub const SMB2_STATUS_MORE_PROCESSING_REQUIRED: u32 = 0xC000_0016;

/// Invalid lock sequence status.
pub const SMB2_STATUS_INVALID_LOCK_SEQUENCE: u32 = 0xC000_001E;

/// Invalid view size status.
pub const SMB2_STATUS_INVALID_VIEW_SIZE: u32 = 0xC000_001F;

/// Memory has already been committed.
pub const SMB2_STATUS_ALREADY_COMMITTED: u32 = 0xC000_0021;

/// Access denied status.
pub const SMB2_STATUS_ACCESS_DENIED: u32 = 0xC000_0022;

/// Object type mismatch status.
pub const SMB2_STATUS_OBJECT_TYPE_MISMATCH: u32 = 0xC000_0024;

/// Object name was not found.
pub const SMB2_STATUS_OBJECT_NAME_NOT_FOUND: u32 = 0xC000_0034;

/// Object name collision status.
pub const SMB2_STATUS_OBJECT_NAME_COLLISION: u32 = 0xC000_0035;

/// Port disconnected status.
pub const SMB2_STATUS_PORT_DISCONNECTED: u32 = 0xC000_0037;

/// Object path is invalid.
pub const SMB2_STATUS_OBJECT_PATH_INVALID: u32 = 0xC000_0039;

/// Object path was not found.
pub const SMB2_STATUS_OBJECT_PATH_NOT_FOUND: u32 = 0xC000_003A;

/// Object path syntax is invalid.
pub const SMB2_STATUS_OBJECT_PATH_SYNTAX_BAD: u32 = 0xC000_003B;

/// Data error status.
pub const SMB2_STATUS_DATA_ERROR: u32 = 0xC000_003E;

/// CRC error status.
pub const SMB2_STATUS_CRC_ERROR: u32 = 0xC000_003F;

/// Section too big status.
pub const SMB2_STATUS_SECTION_TOO_BIG: u32 = 0xC000_0040;

/// Port connection refused status.
pub const SMB2_STATUS_PORT_CONNECTION_REFUSED: u32 = 0xC000_0041;

/// Invalid port handle status.
pub const SMB2_STATUS_INVALID_PORT_HANDLE: u32 = 0xC000_0042;

/// Sharing violation status.
pub const SMB2_STATUS_SHARING_VIOLATION: u32 = 0xC000_0043;

/// Thread is terminating status.
pub const SMB2_STATUS_THREAD_IS_TERMINATING: u32 = 0xC000_004B;

/// File lock conflict status.
pub const SMB2_STATUS_FILE_LOCK_CONFLICT: u32 = 0xC000_0054;

/// Lock not granted status.
pub const SMB2_STATUS_LOCK_NOT_GRANTED: u32 = 0xC000_0055;

/// Delete pending status.
pub const SMB2_STATUS_DELETE_PENDING: u32 = 0xC000_0056;

/// Privilege not held status.
pub const SMB2_STATUS_PRIVILEGE_NOT_HELD: u32 = 0xC000_0061;

/// Logon failure status.
pub const SMB2_STATUS_LOGON_FAILURE: u32 = 0xC000_006D;

/// Account restriction status.
pub const SMB2_STATUS_ACCOUNT_RESTRICTION: u32 = 0xC000_006E;

/// Invalid logon hours status.
pub const SMB2_STATUS_INVALID_LOGON_HOURS: u32 = 0xC000_006F;

/// Password expired status.
pub const SMB2_STATUS_PASSWORD_EXPIRED: u32 = 0xC000_0071;

/// Account disabled status.
pub const SMB2_STATUS_ACCOUNT_DISABLED: u32 = 0xC000_0072;

/// Disk full status.
pub const SMB2_STATUS_DISK_FULL: u32 = 0xC000_007F;

/// Too many paging files status.
pub const SMB2_STATUS_TOO_MANY_PAGING_FILES: u32 = 0xC000_0097;

/// Insufficient resources status.
pub const SMB2_STATUS_INSUFFICIENT_RESOURCES: u32 = 0xC000_009A;

/// DFS exit path found status.
pub const SMB2_STATUS_DFS_EXIT_PATH_FOUND: u32 = 0xC000_009B;

/// Device data error status.
pub const SMB2_STATUS_DEVICE_DATA_ERROR: u32 = 0xC000_009C;

/// Media is write protected.
pub const SMB2_STATUS_MEDIA_WRITE_PROTECTED: u32 = 0xC000_00A2;

/// Illegal function status.
pub const SMB2_STATUS_ILLEGAL_FUNCTION: u32 = 0xC000_00AF;

/// Pipe disconnected status.
pub const SMB2_STATUS_PIPE_DISCONNECTED: u32 = 0xC000_00B0;

/// I/O timeout status.
pub const SMB2_STATUS_IO_TIMEOUT: u32 = 0xC000_00B5;

/// File is a directory status.
pub const SMB2_STATUS_FILE_IS_A_DIRECTORY: u32 = 0xC000_00BA;

/// Request not supported status.
pub const SMB2_STATUS_NOT_SUPPORTED: u32 = 0xC000_00BB;

/// Invalid network response status.
pub const SMB2_STATUS_INVALID_NETWORK_RESPONSE: u32 = 0xC000_00C3;

/// Network name deleted status.
pub const SMB2_STATUS_NETWORK_NAME_DELETED: u32 = 0xC000_00C9;

/// Network access denied status.
pub const SMB2_STATUS_NETWORK_ACCESS_DENIED: u32 = 0xC000_00CA;

/// Bad network name status.
pub const SMB2_STATUS_BAD_NETWORK_NAME: u32 = 0xC000_00CC;

/// Not the same device status.
pub const SMB2_STATUS_NOT_SAME_DEVICE: u32 = 0xC000_00D4;

/// File renamed status.
pub const SMB2_STATUS_FILE_RENAMED: u32 = 0xC000_00D5;

/// Internal error status.
pub const SMB2_STATUS_INTERNAL_ERROR: u32 = 0xC000_00E5;

/// Redirector not started status.
pub const SMB2_STATUS_REDIRECTOR_NOT_STARTED: u32 = 0xC000_00FB;

/// Directory is not empty.
pub const SMB2_STATUS_DIRECTORY_NOT_EMPTY: u32 = 0xC000_0101;

/// Path component is not a directory.
pub const SMB2_STATUS_NOT_A_DIRECTORY: u32 = 0xC000_0103;

/// Process is terminating status.
pub const SMB2_STATUS_PROCESS_IS_TERMINATING: u32 = 0xC000_010A;

/// Too many opened files status.
pub const SMB2_STATUS_TOO_MANY_OPENED_FILES: u32 = 0xC000_011F;

/// Operation was cancelled.
pub const SMB2_STATUS_CANCELLED: u32 = 0xC000_0120;

/// Cannot delete status.
pub const SMB2_STATUS_CANNOT_DELETE: u32 = 0xC000_0121;

/// File was deleted.
pub const SMB2_STATUS_FILE_DELETED: u32 = 0xC000_0123;

/// File was closed.
pub const SMB2_STATUS_FILE_CLOSED: u32 = 0xC000_0128;

/// I/O device error status.
pub const SMB2_STATUS_IO_DEVICE_ERROR: u32 = 0xC000_0185;

/// Insufficient server resources status.
pub const SMB2_STATUS_INSUFF_SERVER_RESOURCES: u32 = 0xC000_0205;

/// Connection disconnected status.
pub const SMB2_STATUS_CONNECTION_DISCONNECTED: u32 = 0xC000_020C;

/// Connection reset status.
pub const SMB2_STATUS_CONNECTION_RESET: u32 = 0xC000_020D;

/// Status not found.
pub const SMB2_STATUS_NOT_FOUND: u32 = 0xC000_0225;

/// Handle cannot be closed.
pub const SMB2_STATUS_HANDLE_NOT_CLOSABLE: u32 = 0xC000_0235;

/// Connection invalid status.
pub const SMB2_STATUS_CONNECTION_INVALID: u32 = 0xC000_023A;

/// Connection aborted status.
pub const SMB2_STATUS_CONNECTION_ABORTED: u32 = 0xC000_0241;

/// Path was not covered.
pub const SMB2_STATUS_PATH_NOT_COVERED: u32 = 0xC000_0257;

/// Volume dismounted status.
pub const SMB2_STATUS_VOLUME_DISMOUNTED: u32 = 0xC000_026E;

/// Status is not a reparse point.
pub const SMB2_STATUS_NOT_A_REPARSE_POINT: u32 = 0xC000_0275;

/// Shutdown status, which maps to its own errno value.
pub const SMB2_STATUS_SHUTDOWN: u32 = 0xC000_02FE;

/// The name of a status, for the named statuses; where a value has two
/// names the first listed wins.
pub open spec fn status_name_of(status: u32) -> Option<Seq<char>> {
    if status == SMB2_STATUS_SUCCESS {
        Some("STATUS_SUCCESS"@)
    } else if status == SMB2_STATUS_SHUTDOWN {
        Some("STATUS_SHUTDOWN"@)
    } else if status == SMB2_STATUS_PENDING {
        Some("STATUS_PENDING"@)
    } else if status == SMB2_STATUS_NO_MORE_FILES {
        Some("STATUS_NO_MORE_FILES"@)
    } else if status == SMB2_STATUS_UNSUCCESSFUL {
        Some("SMB2_STATUS_UNSUCCESSFUL"@)
    } else if status == SMB2_STATUS_NOT_IMPLEMENTED {
        Some("STATUS_NOT_IMPLEMENTED"@)
    } else if status == SMB2_STATUS_INVALID_HANDLE {
        Some("STATUS_INVALID_HANDLE"@)
    } else if status == SMB2_STATUS_INVALID_PARAMETER {
        Some("STATUS_INVALID_PARAMETER"@)
    } else if status == SMB2_STATUS_NO_SUCH_DEVICE {
        Some("STATUS_NO_SUCH_DEVICE"@)
    } else if status == SMB2_STATUS_NO_SUCH_FILE {
        Some("STATUS_NO_SUCH_FILE"@)
    } else if status == SMB2_STATUS_INVALID_DEVICE_REQUEST {
        Some("STATUS_INVALID_DEVICE_REQUEST"@)
    } else if status == SMB2_STATUS_END_OF_FILE {
        Some("STATUS_END_OF_FILE"@)
    } else if status == SMB2_STATUS_MORE_PROCESSING_REQUIRED {
        Some("STATUS_MORE_PROCESSING_REQUIRED"@)
    } else if status == SMB2_STATUS_ACCESS_DENIED {
        Some("STATUS_ACCESS_DENIED"@)
    } else if status == SMB2_STATUS_OBJECT_NAME_NOT_FOUND {
        Some("STATUS_OBJECT_NAME_NOT_FOUND"@)
    } else if status == SMB2_STATUS_OBJECT_PATH_NOT_FOUND {
        Some("STATUS_OBJECT_PATH_NOT_FOUND"@)
    } else if status == SMB2_STATUS_SHARING_VIOLATION {
        Some("STATUS_SHARING_VIOLATION"@)
    } else if status == SMB2_STATUS_FILE_LOCK_CONFLICT {
        Some("STATUS_FILE_LOCK_CONFLICT"@)
    } else if status == SMB2_STATUS_LOGON_FAILURE {
        Some("STATUS_LOGON_FAILURE"@)
    } else if status == SMB2_STATUS_DISK_FULL {
        Some("STATUS_DISK_FULL"@)
    } else if status == SMB2_STATUS_BAD_NETWORK_NAME {
        Some("STATUS_BAD_NETWORK_NAME"@)
    } else if status == SMB2_STATUS_NOT_SAME_DEVICE {
        Some("STATUS_NOT_SAME_DEVICE"@)
    } else if status == SMB2_STATUS_FILE_RENAMED {
        Some("STATUS_FILE_RENAMED"@)
    } else if status == SMB2_STATUS_DIRECTORY_NOT_EMPTY {
        Some("STATUS_DIRECTORY_NOT_EMPTY"@)
    } else if status == SMB2_STATUS_NOT_A_DIRECTORY {
        Some("STATUS_NOT_A_DIRECTORY"@)
    } else if status == SMB2_STATUS_TOO_MANY_OPENED_FILES {
        Some("STATUS_TOO_MANY_OPENED_FILES"@)
    } else if status == SMB2_STATUS_CANCELLED {
        Some("STATUS_CANCELLED"@)
    } else if status == SMB2_STATUS_CANNOT_DELETE {
        Some("STATUS_CANNOT_DELETE"@)
    } else if status == SMB2_STATUS_FILE_DELETED {
        Some("STATUS_FILE_DELETED"@)
    } else if status == SMB2_STATUS_FILE_CLOSED {
        Some("STATUS_FILE_CLOSED"@)
    } else if status == SMB2_STATUS_NOT_FOUND {
        Some("SMB2_STATUS_NOT_FOUND"@)
    } else if status == SMB2_STATUS_NOT_A_REPARSE_POINT {
        Some("STATUS_NOT_A_REPARSE_POINT"@)
    } else if status == SMB2_STATUS_STOPPED_ON_SYMLINK {
        Some("SMB2_STATUS_STOPPED_ON_SYMLINK"@)
    } else {
        None
    }
}

/// Looks up the name of a status.
pub fn nterror_name(status: u32) -> (r: Option<&'static str>)
    ensures
        match status_name_of(status) {
            Some(n) => r matches Some(s) && s@ == n,
            None => r is None,
        },
{
    if status == SMB2_STATUS_SUCCESS {
        Some("STATUS_SUCCESS")
    } else if status == SMB2_STATUS_SHUTDOWN {
        Some("STATUS_SHUTDOWN")
    } else if status == SMB2_STATUS_PENDING {
        Some("STATUS_PENDING")
    } else if status == SMB2_STATUS_NO_MORE_FILES {
        Some("STATUS_NO_MORE_FILES")
    } else if status == SMB2_STATUS_UNSUCCESSFUL {
        Some("SMB2_STATUS_UNSUCCESSFUL")
    } else if status == SMB2_STATUS_NOT_IMPLEMENTED {
        Some("STATUS_NOT_IMPLEMENTED")
    } else if status == SMB2_STATUS_INVALID_HANDLE {
        Some("STATUS_INVALID_HANDLE")
    } else if status == SMB2_STATUS_INVALID_PARAMETER {
        Some("STATUS_INVALID_PARAMETER")
    } else if status == SMB2_STATUS_NO_SUCH_DEVICE {
        Some("STATUS_NO_SUCH_DEVICE")
    } else if status == SMB2_STATUS_NO_SUCH_FILE {
        Some("STATUS_NO_SUCH_FILE")
    } else if status == SMB2_STATUS_INVALID_DEVICE_REQUEST {
        Some("STATUS_INVALID_DEVICE_REQUEST")
    } else if status == SMB2_STATUS_END_OF_FILE {
        Some("STATUS_END_OF_FILE")
    } else if status == SMB2_STATUS_MORE_PROCESSING_REQUIRED {
        Some("STATUS_MORE_PROCESSING_REQUIRED")
    } else if status == SMB2_STATUS_ACCESS_DENIED {
        Some("STATUS_ACCESS_DENIED")
    } else if status == SMB2_STATUS_OBJECT_NAME_NOT_FOUND {
        Some("STATUS_OBJECT_NAME_NOT_FOUND")
    } else if status == SMB2_STATUS_OBJECT_PATH_NOT_FOUND {
        Some("STATUS_OBJECT_PATH_NOT_FOUND")
    } else if status == SMB2_STATUS_SHARING_VIOLATION {
        Some("STATUS_SHARING_VIOLATION")
    } else if status == SMB2_STATUS_FILE_LOCK_CONFLICT {
        Some("STATUS_FILE_LOCK_CONFLICT")
    } else if status == SMB2_STATUS_LOGON_FAILURE {
        Some("STATUS_LOGON_FAILURE")
    } else if status == SMB2_STATUS_DISK_FULL {
        Some("STATUS_DISK_FULL")
    } else if status == SMB2_STATUS_BAD_NETWORK_NAME {
        Some("STATUS_BAD_NETWORK_NAME")
    } else if status == SMB2_STATUS_NOT_SAME_DEVICE {
        Some("STATUS_NOT_SAME_DEVICE")
    } else if status == SMB2_STATUS_FILE_RENAMED {
        Some("STATUS_FILE_RENAMED")
    } else if status == SMB2_STATUS_DIRECTORY_NOT_EMPTY {
        Some("STATUS_DIRECTORY_NOT_EMPTY")
    } else if status == SMB2_STATUS_NOT_A_DIRECTORY {
        Some("STATUS_NOT_A_DIRECTORY")
    } else if status == SMB2_STATUS_TOO_MANY_OPENED_FILES {
        Some("STATUS_TOO_MANY_OPENED_FILES")
    } else if status == SMB2_STATUS_CANCELLED {
        Some("STATUS_CANCELLED")
    } else if status == SMB2_STATUS_CANNOT_DELETE {
        Some("STATUS_CANNOT_DELETE")
    } else if status == SMB2_STATUS_FILE_DELETED {
        Some("STATUS_FILE_DELETED")
    } else if status == SMB2_STATUS_FILE_CLOSED {
        Some("STATUS_FILE_CLOSED")
    } else if status == SMB2_STATUS_NOT_FOUND {
        Some("SMB2_STATUS_NOT_FOUND")
    } else if status == SMB2_STATUS_NOT_A_REPARSE_POINT {
        Some("STATUS_NOT_A_REPARSE_POINT")
    } else if status == SMB2_STATUS_STOPPED_ON_SYMLINK {
        Some("SMB2_STATUS_STOPPED_ON_SYMLINK")
    } else {
        None
    }
}

/// Converts an NT status to its name, `Unknown` for others.
pub fn nterror_to_str(status: u32) -> (r: &'static str)
    ensures
        r@ == match status_name_of(status) {
            Some(n) => n,
            None => "Unknown"@,
        },
{
    match nterror_name(status) {
        Some(name) => name,
        None => "Unknown",
    }
}

/// The errno category of a status; statuses without one are I/O errors.
pub open spec fn status_errno_of(status: u32) -> Smb2Errno {
    if status == SMB2_STATUS_SUCCESS {
        Smb2Errno::Success
    } else if status == SMB2_STATUS_END_OF_FILE {
        Smb2Errno::Success
    } else if status == SMB2_STATUS_PENDING {
        Smb2Errno::Again
    } else if status == SMB2_STATUS_SHUTDOWN {
        Smb2Errno::Shutdown(NtStatus(SMB2_STATUS_SHUTDOWN))
    } else if status == SMB2_STATUS_NO_SUCH_FILE {
        Smb2Errno::NoEntry
    } else if status == SMB2_STATUS_NO_SUCH_DEVICE {
        Smb2Errno::NoEntry
    } else if status == SMB2_STATUS_BAD_NETWORK_NAME {
        Smb2Errno::NoEntry
    } else if status == SMB2_STATUS_OBJECT_NAME_NOT_FOUND {
        Smb2Errno::NoEntry
    } else if status == SMB2_STATUS_OBJECT_PATH_INVALID {
        Smb2Errno::NoEntry
    } else if status == SMB2_STATUS_OBJECT_PATH_NOT_FOUND {
        Smb2Errno::NoEntry
    } else if status == SMB2_STATUS_OBJECT_PATH_SYNTAX_BAD {
        Smb2Errno::NoEntry
    } else if status == SMB2_STATUS_DFS_EXIT_PATH_FOUND {
        Smb2Errno::NoEntry
    } else if status == SMB2_STATUS_DELETE_PENDING {
        Smb2Errno::NoEntry
    } else if status == SMB2_STATUS_REDIRECTOR_NOT_STARTED {
        Smb2Errno::NoEntry
    } else if status == SMB2_STATUS_NOT_FOUND {
        Smb2Errno::NoEntry
    } else if status == SMB2_STATUS_INVALID_HANDLE {
        Smb2Errno::BadFileDescriptor
    } else if status == SMB2_STATUS_OBJECT_TYPE_MISMATCH {
        Smb2Errno::BadFileDescriptor
    } else if status == SMB2_STATUS_PORT_DISCONNECTED {
        Smb2Errno::BadFileDescriptor
    } else if status == SMB2_STATUS_INVALID_PORT_HANDLE {
        Smb2Errno::BadFileDescriptor
    } else if status == SMB2_STATUS_HANDLE_NOT_CLOSABLE {
        Smb2Errno::BadFileDescriptor
    } else if status == SMB2_STATUS_MORE_PROCESSING_REQUIRED {
        Smb2Errno::Again
    } else if status == SMB2_STATUS_ACCESS_DENIED {
        Smb2Errno::AccessDenied
    } else if status == SMB2_STATUS_NETWORK_ACCESS_DENIED {
        Smb2Errno::AccessDenied
    } else if status == SMB2_STATUS_ACCOUNT_RESTRICTION {
        Smb2Errno::AccessDenied
    } else if status == SMB2_STATUS_INVALID_LOGON_HOURS {
        Smb2Errno::AccessDenied
    } else if status == SMB2_STATUS_PASSWORD_EXPIRED {
        Smb2Errno::AccessDenied
    } else if status == SMB2_STATUS_ACCOUNT_DISABLED {
        Smb2Errno::AccessDenied
    } else if status == SMB2_STATUS_INVALID_LOCK_SEQUENCE {
        Smb2Errno::PermissionDenied
    } else if status == SMB2_STATUS_INVALID_VIEW_SIZE {
        Smb2Errno::PermissionDenied
    } else if status == SMB2_STATUS_ALREADY_COMMITTED {
        Smb2Errno::PermissionDenied
    } else if status == SMB2_STATUS_PORT_CONNECTION_REFUSED {
        Smb2Errno::PermissionDenied
    } else if status == SMB2_STATUS_THREAD_IS_TERMINATING {
        Smb2Errno::PermissionDenied
    } else if status == SMB2_STATUS_PRIVILEGE_NOT_HELD {
        Smb2Errno::PermissionDenied
    } else if status == SMB2_STATUS_FILE_IS_A_DIRECTORY {
        Smb2Errno::PermissionDenied
    } else if status == SMB2_STATUS_FILE_RENAMED {
        Smb2Errno::PermissionDenied
    } else if status == SMB2_STATUS_PROCESS_IS_TERMINATING {
        Smb2Errno::PermissionDenied
    } else if status == SMB2_STATUS_CANNOT_DELETE {
        Smb2Errno::PermissionDenied
    } else if status == SMB2_STATUS_FILE_DELETED {
        Smb2Errno::PermissionDenied
    } else if status == SMB2_STATUS_DIRECTORY_NOT_EMPTY {
        Smb2Errno::NotEmpty
    } else if status == SMB2_STATUS_NO_MORE_FILES {
        Smb2Errno::NoData
    } else if status == SMB2_STATUS_LOGON_FAILURE {
        Smb2Errno::ConnectionRefused
    } else if status == SMB2_STATUS_NOT_A_DIRECTORY {
        Smb2Errno::NotDirectory
    } else if status == SMB2_STATUS_NOT_IMPLEMENTED {
        Smb2Errno::InvalidArgument
    } else if status == SMB2_STATUS_INVALID_DEVICE_REQUEST {
        Smb2Errno::InvalidArgument
    } else if status == SMB2_STATUS_ILLEGAL_FUNCTION {
        Smb2Errno::InvalidArgument
    } else if status == SMB2_STATUS_INVALID_PARAMETER {
        Smb2Errno::InvalidArgument
    } else if status == SMB2_STATUS_NOT_SUPPORTED {
        Smb2Errno::InvalidArgument
    } else if status == SMB2_STATUS_NOT_A_REPARSE_POINT {
        Smb2Errno::InvalidArgument
    } else if status == SMB2_STATUS_STOPPED_ON_SYMLINK {
        Smb2Errno::NoLink
    } else if status == SMB2_STATUS_TOO_MANY_OPENED_FILES {
        Smb2Errno::TooManyOpenFiles
    } else if status == SMB2_STATUS_SECTION_TOO_BIG {
        Smb2Errno::NoMemory
    } else if status == SMB2_STATUS_TOO_MANY_PAGING_FILES {
        Smb2Errno::NoMemory
    } else if status == SMB2_STATUS_INSUFF_SERVER_RESOURCES {
        Smb2Errno::NoMemory
    } else if status == SMB2_STATUS_NOT_SAME_DEVICE {
        Smb2Errno::CrossDevice
    } else if status == SMB2_STATUS_SHARING_VIOLATION {
        Smb2Errno::TextBusy
    } else if status == SMB2_STATUS_FILE_LOCK_CONFLICT {
        Smb2Errno::Deadlock
    } else if status == SMB2_STATUS_LOCK_NOT_GRANTED {
        Smb2Errno::Deadlock
    } else if status == SMB2_STATUS_OBJECT_NAME_COLLISION {
        Smb2Errno::Exists
    } else if status == SMB2_STATUS_PIPE_DISCONNECTED {
        Smb2Errno::Pipe
    } else if status == SMB2_STATUS_MEDIA_WRITE_PROTECTED {
        Smb2Errno::ReadOnly
    } else if status == SMB2_STATUS_NO_MEDIA_IN_DEVICE {
        Smb2Errno::NoDevice
    } else if status == SMB2_STATUS_DATA_ERROR {
        Smb2Errno::Io
    } else if status == SMB2_STATUS_CRC_ERROR {
        Smb2Errno::Io
    } else if status == SMB2_STATUS_DEVICE_DATA_ERROR {
        Smb2Errno::Io
    } else if status == SMB2_STATUS_IO_DEVICE_ERROR {
        Smb2Errno::Io
    } else if status == SMB2_STATUS_DISK_FULL {
        Smb2Errno::NoSpace
    } else if status == SMB2_STATUS_CANCELLED {
        Smb2Errno::NetworkReset
    } else if status == SMB2_STATUS_FILE_CLOSED {
        Smb2Errno::NetworkReset
    } else if status == SMB2_STATUS_VOLUME_DISMOUNTED {
        Smb2Errno::NetworkReset
    } else if status == SMB2_STATUS_CONNECTION_DISCONNECTED {
        Smb2Errno::NetworkReset
    } else if status == SMB2_STATUS_CONNECTION_RESET {
        Smb2Errno::NetworkReset
    } else if status == SMB2_STATUS_CONNECTION_INVALID {
        Smb2Errno::NetworkReset
    } else if status == SMB2_STATUS_CONNECTION_ABORTED {
        Smb2Errno::NetworkReset
    } else if status == SMB2_STATUS_NETWORK_NAME_DELETED {
        Smb2Errno::NetworkReset
    } else if status == SMB2_STATUS_INVALID_NETWORK_RESPONSE {
        Smb2Errno::NetworkReset
    } else if status == SMB2_STATUS_PATH_NOT_COVERED {
        Smb2Errno::NoExec
    } else if status == SMB2_STATUS_IO_TIMEOUT {
        Smb2Errno::TimedOut
    } else if status == SMB2_STATUS_INSUFFICIENT_RESOURCES {
        Smb2Errno::Busy
    } else {
        Smb2Errno::Io
    }
}

/// Whether a status has its own entry in the status-to-errno table.
pub open spec fn has_errno_entry(status: u32) -> bool {
    status == SMB2_STATUS_SUCCESS || status == SMB2_STATUS_END_OF_FILE || status == SMB2_STATUS_PENDING || status == SMB2_STATUS_MORE_PROCESSING_REQUIRED || status == SMB2_STATUS_SHUTDOWN || status == SMB2_STATUS_NO_SUCH_FILE || status == SMB2_STATUS_NO_SUCH_DEVICE || status == SMB2_STATUS_BAD_NETWORK_NAME || status == SMB2_STATUS_OBJECT_NAME_NOT_FOUND || status == SMB2_STATUS_OBJECT_PATH_INVALID || status == SMB2_STATUS_OBJECT_PATH_NOT_FOUND || status == SMB2_STATUS_OBJECT_PATH_SYNTAX_BAD || status == SMB2_STATUS_DFS_EXIT_PATH_FOUND || status == SMB2_STATUS_DELETE_PENDING || status == SMB2_STATUS_REDIRECTOR_NOT_STARTED || status == SMB2_STATUS_NOT_FOUND || status == SMB2_STATUS_INVALID_HANDLE || status == SMB2_STATUS_OBJECT_TYPE_MISMATCH || status == SMB2_STATUS_PORT_DISCONNECTED || status == SMB2_STATUS_INVALID_PORT_HANDLE || status == SMB2_STATUS_HANDLE_NOT_CLOSABLE || status == SMB2_STATUS_ACCESS_DENIED || status == SMB2_STATUS_NETWORK_ACCESS_DENIED || status == SMB2_STATUS_ACCOUNT_RESTRICTION || status == SMB2_STATUS_INVALID_LOGON_HOURS || status == SMB2_STATUS_PASSWORD_EXPIRED || status == SMB2_STATUS_ACCOUNT_DISABLED || status == SMB2_STATUS_INVALID_LOCK_SEQUENCE || status == SMB2_STATUS_INVALID_VIEW_SIZE || status == SMB2_STATUS_ALREADY_COMMITTED || status == SMB2_STATUS_PORT_CONNECTION_REFUSED || status == SMB2_STATUS_THREAD_IS_TERMINATING || status == SMB2_STATUS_PRIVILEGE_NOT_HELD || status == SMB2_STATUS_FILE_IS_A_DIRECTORY || status == SMB2_STATUS_FILE_RENAMED || status == SMB2_STATUS_PROCESS_IS_TERMINATING || status == SMB2_STATUS_CANNOT_DELETE || status == SMB2_STATUS_FILE_DELETED || status == SMB2_STATUS_DIRECTORY_NOT_EMPTY || status == SMB2_STATUS_NO_MORE_FILES || status == SMB2_STATUS_LOGON_FAILURE || status == SMB2_STATUS_NOT_A_DIRECTORY || status == SMB2_STATUS_NOT_IMPLEMENTED || status == SMB2_STATUS_INVALID_DEVICE_REQUEST || status == SMB2_STATUS_ILLEGAL_FUNCTION || status == SMB2_STATUS_INVALID_PARAMETER || status == SMB2_STATUS_NOT_SUPPORTED || status == SMB2_STATUS_NOT_A_REPARSE_POINT || status == SMB2_STATUS_STOPPED_ON_SYMLINK || status == SMB2_STATUS_TOO_MANY_OPENED_FILES || status == SMB2_STATUS_SECTION_TOO_BIG || status == SMB2_STATUS_TOO_MANY_PAGING_FILES || status == SMB2_STATUS_INSUFF_SERVER_RESOURCES || status == SMB2_STATUS_NOT_SAME_DEVICE || status == SMB2_STATUS_SHARING_VIOLATION || status == SMB2_STATUS_FILE_LOCK_CONFLICT || status == SMB2_STATUS_LOCK_NOT_GRANTED || status == SMB2_STATUS_OBJECT_NAME_COLLISION || status == SMB2_STATUS_PIPE_DISCONNECTED || status == SMB2_STATUS_MEDIA_WRITE_PROTECTED || status == SMB2_STATUS_NO_MEDIA_IN_DEVICE || status == SMB2_STATUS_DATA_ERROR || status == SMB2_STATUS_CRC_ERROR || status == SMB2_STATUS_DEVICE_DATA_ERROR || status == SMB2_STATUS_IO_DEVICE_ERROR || status == SMB2_STATUS_DISK_FULL || status == SMB2_STATUS_CANCELLED || status == SMB2_STATUS_FILE_CLOSED || status == SMB2_STATUS_VOLUME_DISMOUNTED || status == SMB2_STATUS_CONNECTION_DISCONNECTED || status == SMB2_STATUS_CONNECTION_RESET || status == SMB2_STATUS_CONNECTION_INVALID || status == SMB2_STATUS_CONNECTION_ABORTED || status == SMB2_STATUS_NETWORK_NAME_DELETED || status == SMB2_STATUS_INVALID_NETWORK_RESPONSE || status == SMB2_STATUS_PATH_NOT_COVERED || status == SMB2_STATUS_IO_TIMEOUT || status == SMB2_STATUS_INSUFFICIENT_RESOURCES
}

/// Each status the table names gets the POSIX errno of its meaning: the
/// "not found" statuses give `ENOENT`, the denied ones `EACCES` or `EPERM`,
/// the connection losses `ENETRESET`, and so on; success and end of file
/// give 0, the shutdown status its negated value, and any status without
/// an entry gives `EIO`.
pub proof fn lemma_nterror_posix_errno(status: u32)
    ensures
        (status == SMB2_STATUS_SUCCESS || status == SMB2_STATUS_END_OF_FILE)
            ==> status_errno_of(status) == Smb2Errno::Success && errno_code(status_errno_of(status)) == 0,
        (status == SMB2_STATUS_PENDING || status == SMB2_STATUS_MORE_PROCESSING_REQUIRED)
            ==> status_errno_of(status) == Smb2Errno::Again && errno_code(status_errno_of(status)) == POSIX_EAGAIN,
        status == SMB2_STATUS_SHUTDOWN ==> status_errno_of(status) == Smb2Errno::Shutdown(NtStatus(SMB2_STATUS_SHUTDOWN))
            && errno_code(status_errno_of(status)) == -((SMB2_STATUS_SHUTDOWN as i32) as int),
        (status == SMB2_STATUS_NO_SUCH_FILE || status == SMB2_STATUS_NO_SUCH_DEVICE || status == SMB2_STATUS_BAD_NETWORK_NAME || status == SMB2_STATUS_OBJECT_NAME_NOT_FOUND || status == SMB2_STATUS_OBJECT_PATH_INVALID || status == SMB2_STATUS_OBJECT_PATH_NOT_FOUND || status == SMB2_STATUS_OBJECT_PATH_SYNTAX_BAD || status == SMB2_STATUS_DFS_EXIT_PATH_FOUND || status == SMB2_STATUS_DELETE_PENDING || status == SMB2_STATUS_REDIRECTOR_NOT_STARTED || status == SMB2_STATUS_NOT_FOUND)
            ==> status_errno_of(status) == Smb2Errno::NoEntry && errno_code(status_errno_of(status)) == POSIX_ENOENT,
        (status == SMB2_STATUS_INVALID_HANDLE || status == SMB2_STATUS_OBJECT_TYPE_MISMATCH || status == SMB2_STATUS_PORT_DISCONNECTED || status == SMB2_STATUS_INVALID_PORT_HANDLE || status == SMB2_STATUS_HANDLE_NOT_CLOSABLE)
            ==> status_errno_of(status) == Smb2Errno::BadFileDescriptor && errno_code(status_errno_of(status)) == POSIX_EBADF,
        (status == SMB2_STATUS_ACCESS_DENIED || status == SMB2_STATUS_NETWORK_ACCESS_DENIED || status == SMB2_STATUS_ACCOUNT_RESTRICTION || status == SMB2_STATUS_INVALID_LOGON_HOURS || status == SMB2_STATUS_PASSWORD_EXPIRED || status == SMB2_STATUS_ACCOUNT_DISABLED)
            ==> status_errno_of(status) == Smb2Errno::AccessDenied && errno_code(status_errno_of(status)) == POSIX_EACCES,
        (status == SMB2_STATUS_INVALID_LOCK_SEQUENCE || status == SMB2_STATUS_INVALID_VIEW_SIZE || status == SMB2_STATUS_ALREADY_COMMITTED || status == SMB2_STATUS_PORT_CONNECTION_REFUSED || status == SMB2_STATUS_THREAD_IS_TERMINATING || status == SMB2_STATUS_PRIVILEGE_NOT_HELD || status == SMB2_STATUS_FILE_IS_A_DIRECTORY || status == SMB2_STATUS_FILE_RENAMED || status == SMB2_STATUS_PROCESS_IS_TERMINATING || status == SMB2_STATUS_CANNOT_DELETE || status == SMB2_STATUS_FILE_DELETED)
            ==> status_errno_of(status) == Smb2Errno::PermissionDenied && errno_code(status_errno_of(status)) == POSIX_EPERM,
        (status == SMB2_STATUS_DIRECTORY_NOT_EMPTY)
            ==> status_errno_of(status) == Smb2Errno::NotEmpty && errno_code(status_errno_of(status)) == POSIX_ENOTEMPTY,
        (status == SMB2_STATUS_NO_MORE_FILES)
            ==> status_errno_of(status) == Smb2Errno::NoData && errno_code(status_errno_of(status)) == POSIX_ENODATA,
        (status == SMB2_STATUS_LOGON_FAILURE)
            ==> status_errno_of(status) == Smb2Errno::ConnectionRefused && errno_code(status_errno_of(status)) == POSIX_ECONNREFUSED,
        (status == SMB2_STATUS_NOT_A_DIRECTORY)
            ==> status_errno_of(status) == Smb2Errno::NotDirectory && errno_code(status_errno_of(status)) == POSIX_ENOTDIR,
        (status == SMB2_STATUS_NOT_IMPLEMENTED || status == SMB2_STATUS_INVALID_DEVICE_REQUEST || status == SMB2_STATUS_ILLEGAL_FUNCTION || status == SMB2_STATUS_INVALID_PARAMETER || status == SMB2_STATUS_NOT_SUPPORTED || status == SMB2_STATUS_NOT_A_REPARSE_POINT)
            ==> status_errno_of(status) == Smb2Errno::InvalidArgument && errno_code(status_errno_of(status)) == POSIX_EINVAL,
        (status == SMB2_STATUS_STOPPED_ON_SYMLINK)
            ==> status_errno_of(status) == Smb2Errno::NoLink && errno_code(status_errno_of(status)) == POSIX_ENOLINK,
        (status == SMB2_STATUS_TOO_MANY_OPENED_FILES)
            ==> status_errno_of(status) == Smb2Errno::TooManyOpenFiles && errno_code(status_errno_of(status)) == POSIX_EMFILE,
        (status == SMB2_STATUS_SECTION_TOO_BIG || status == SMB2_STATUS_TOO_MANY_PAGING_FILES || status == SMB2_STATUS_INSUFF_SERVER_RESOURCES)
            ==> status_errno_of(status) == Smb2Errno::NoMemory && errno_code(status_errno_of(status)) == POSIX_ENOMEM,
        (status == SMB2_STATUS_NOT_SAME_DEVICE)
            ==> status_errno_of(status) == Smb2Errno::CrossDevice && errno_code(status_errno_of(status)) == POSIX_EXDEV,
        (status == SMB2_STATUS_SHARING_VIOLATION)
            ==> status_errno_of(status) == Smb2Errno::TextBusy && errno_code(status_errno_of(status)) == POSIX_ETXTBSY,
        (status == SMB2_STATUS_FILE_LOCK_CONFLICT || status == SMB2_STATUS_LOCK_NOT_GRANTED)
            ==> status_errno_of(status) == Smb2Errno::Deadlock && errno_code(status_errno_of(status)) == POSIX_EDEADLK,
        (status == SMB2_STATUS_OBJECT_NAME_COLLISION)
            ==> status_errno_of(status) == Smb2Errno::Exists && errno_code(status_errno_of(status)) == POSIX_EEXIST,
        (status == SMB2_STATUS_PIPE_DISCONNECTED)
            ==> status_errno_of(status) == Smb2Errno::Pipe && errno_code(status_errno_of(status)) == POSIX_EPIPE,
        (status == SMB2_STATUS_MEDIA_WRITE_PROTECTED)
            ==> status_errno_of(status) == Smb2Errno::ReadOnly && errno_code(status_errno_of(status)) == POSIX_EROFS,
        (status == SMB2_STATUS_NO_MEDIA_IN_DEVICE)
            ==> status_errno_of(status) == Smb2Errno::NoDevice && errno_code(status_errno_of(status)) == POSIX_ENODEV,
        (status == SMB2_STATUS_DATA_ERROR || status == SMB2_STATUS_CRC_ERROR || status == SMB2_STATUS_DEVICE_DATA_ERROR || status == SMB2_STATUS_IO_DEVICE_ERROR)
            ==> status_errno_of(status) == Smb2Errno::Io && errno_code(status_errno_of(status)) == POSIX_EIO,
        (status == SMB2_STATUS_DISK_FULL)
            ==> status_errno_of(status) == Smb2Errno::NoSpace && errno_code(status_errno_of(status)) == POSIX_ENOSPC,
        (status == SMB2_STATUS_CANCELLED || status == SMB2_STATUS_FILE_CLOSED || status == SMB2_STATUS_VOLUME_DISMOUNTED || status == SMB2_STATUS_CONNECTION_DISCONNECTED || status == SMB2_STATUS_CONNECTION_RESET || status == SMB2_STATUS_CONNECTION_INVALID || status == SMB2_STATUS_CONNECTION_ABORTED || status == SMB2_STATUS_NETWORK_NAME_DELETED || status == SMB2_STATUS_INVALID_NETWORK_RESPONSE)
            ==> status_errno_of(status) == Smb2Errno::NetworkReset && errno_code(status_errno_of(status)) == POSIX_ENETRESET,
        (status == SMB2_STATUS_PATH_NOT_COVERED)
            ==> status_errno_of(status) == Smb2Errno::NoExec && errno_code(status_errno_of(status)) == POSIX_ENOEXEC,
        (status == SMB2_STATUS_IO_TIMEOUT)
            ==> status_errno_of(status) == Smb2Errno::TimedOut && errno_code(status_errno_of(status)) == POSIX_ETIMEDOUT,
        (status == SMB2_STATUS_INSUFFICIENT_RESOURCES)
            ==> status_errno_of(status) == Smb2Errno::Busy && errno_code(status_errno_of(status)) == POSIX_EBUSY,
        !has_errno_entry(status) ==> status_errno_of(status) == Smb2Errno::Io
            && errno_code(status_errno_of(status)) == POSIX_EIO,
{
}

/// Looks up the errno category of a status.
pub fn nterror_errno(status: u32) -> (r: Smb2Errno)
    ensures
        r == status_errno_of(status),
{
    if status == SMB2_STATUS_SUCCESS {
        Smb2Errno::Success
    } else if status == SMB2_STATUS_END_OF_FILE {
        Smb2Errno::Success
    } else if status == SMB2_STATUS_PENDING {
        Smb2Errno::Again
    } else if status == SMB2_STATUS_SHUTDOWN {
        Smb2Errno::Shutdown(NtStatus(SMB2_STATUS_SHUTDOWN))
    } else if status == SMB2_STATUS_NO_SUCH_FILE {
        Smb2Errno::NoEntry
    } else if status == SMB2_STATUS_NO_SUCH_DEVICE {
        Smb2Errno::NoEntry
    } else if status == SMB2_STATUS_BAD_NETWORK_NAME {
        Smb2Errno::NoEntry
    } else if status == SMB2_STATUS_OBJECT_NAME_NOT_FOUND {
        Smb2Errno::NoEntry
    } else if status == SMB2_STATUS_OBJECT_PATH_INVALID {
        Smb2Errno::NoEntry
    } else if status == SMB2_STATUS_OBJECT_PATH_NOT_FOUND {
        Smb2Errno::NoEntry
    } else if status == SMB2_STATUS_OBJECT_PATH_SYNTAX_BAD {
        Smb2Errno::NoEntry
    } else if status == SMB2_STATUS_DFS_EXIT_PATH_FOUND {
        Smb2Errno::NoEntry
    } else if status == SMB2_STATUS_DELETE_PENDING {
        Smb2Errno::NoEntry
    } else if status == SMB2_STATUS_REDIRECTOR_NOT_STARTED {
        Smb2Errno::NoEntry
    } else if status == SMB2_STATUS_NOT_FOUND {
        Smb2Errno::NoEntry
    } else if status == SMB2_STATUS_INVALID_HANDLE {
        Smb2Errno::BadFileDescriptor
    } else if status == SMB2_STATUS_OBJECT_TYPE_MISMATCH {
        Smb2Errno::BadFileDescriptor
    } else if status == SMB2_STATUS_PORT_DISCONNECTED {
        Smb2Errno::BadFileDescriptor
    } else if status == SMB2_STATUS_INVALID_PORT_HANDLE {
        Smb2Errno::BadFileDescriptor
    } else if status == SMB2_STATUS_HANDLE_NOT_CLOSABLE {
        Smb2Errno::BadFileDescriptor
    } else if status == SMB2_STATUS_MORE_PROCESSING_REQUIRED {
        Smb2Errno::Again
    } else if status == SMB2_STATUS_ACCESS_DENIED {
        Smb2Errno::AccessDenied
    } else if status == SMB2_STATUS_NETWORK_ACCESS_DENIED {
        Smb2Errno::AccessDenied
    } else if status == SMB2_STATUS_ACCOUNT_RESTRICTION {
        Smb2Errno::AccessDenied
    } else if status == SMB2_STATUS_INVALID_LOGON_HOURS {
        Smb2Errno::AccessDenied
    } else if status == SMB2_STATUS_PASSWORD_EXPIRED {
        Smb2Errno::AccessDenied
    } else if status == SMB2_STATUS_ACCOUNT_DISABLED {
        Smb2Errno::AccessDenied
    } else if status == SMB2_STATUS_INVALID_LOCK_SEQUENCE {
        Smb2Errno::PermissionDenied
    } else if status == SMB2_STATUS_INVALID_VIEW_SIZE {
        Smb2Errno::PermissionDenied
    } else if status == SMB2_STATUS_ALREADY_COMMITTED {
        Smb2Errno::PermissionDenied
    } else if status == SMB2_STATUS_PORT_CONNECTION_REFUSED {
        Smb2Errno::PermissionDenied
    } else if status == SMB2_STATUS_THREAD_IS_TERMINATING {
        Smb2Errno::PermissionDenied
    } else if status == SMB2_STATUS_PRIVILEGE_NOT_HELD {
        Smb2Errno::PermissionDenied
    } else if status == SMB2_STATUS_FILE_IS_A_DIRECTORY {
        Smb2Errno::PermissionDenied
    } else if status == SMB2_STATUS_FILE_RENAMED {
        Smb2Errno::PermissionDenied
    } else if status == SMB2_STATUS_PROCESS_IS_TERMINATING {
        Smb2Errno::PermissionDenied
    } else if status == SMB2_STATUS_CANNOT_DELETE {
        Smb2Errno::PermissionDenied
    } else if status == SMB2_STATUS_FILE_DELETED {
        Smb2Errno::PermissionDenied
    } else if status == SMB2_STATUS_DIRECTORY_NOT_EMPTY {
        Smb2Errno::NotEmpty
    } else if status == SMB2_STATUS_NO_MORE_FILES {
        Smb2Errno::NoData
    } else if status == SMB2_STATUS_LOGON_FAILURE {
        Smb2Errno::ConnectionRefused
    } else if status == SMB2_STATUS_NOT_A_DIRECTORY {
        Smb2Errno::NotDirectory
    } else if status == SMB2_STATUS_NOT_IMPLEMENTED {
        Smb2Errno::InvalidArgument
    } else if status == SMB2_STATUS_INVALID_DEVICE_REQUEST {
        Smb2Errno::InvalidArgument
    } else if status == SMB2_STATUS_ILLEGAL_FUNCTION {
        Smb2Errno::InvalidArgument
    } else if status == SMB2_STATUS_INVALID_PARAMETER {
        Smb2Errno::InvalidArgument
    } else if status == SMB2_STATUS_NOT_SUPPORTED {
        Smb2Errno::InvalidArgument
    } else if status == SMB2_STATUS_NOT_A_REPARSE_POINT {
        Smb2Errno::InvalidArgument
    } else if status == SMB2_STATUS_STOPPED_ON_SYMLINK {
        Smb2Errno::NoLink
    } else if status == SMB2_STATUS_TOO_MANY_OPENED_FILES {
        Smb2Errno::TooManyOpenFiles
    } else if status == SMB2_STATUS_SECTION_TOO_BIG {
        Smb2Errno::NoMemory
    } else if status == SMB2_STATUS_TOO_MANY_PAGING_FILES {
        Smb2Errno::NoMemory
    } else if status == SMB2_STATUS_INSUFF_SERVER_RESOURCES {
        Smb2Errno::NoMemory
    } else if status == SMB2_STATUS_NOT_SAME_DEVICE {
        Smb2Errno::CrossDevice
    } else if status == SMB2_STATUS_SHARING_VIOLATION {
        Smb2Errno::TextBusy
    } else if status == SMB2_STATUS_FILE_LOCK_CONFLICT {
        Smb2Errno::Deadlock
    } else if status == SMB2_STATUS_LOCK_NOT_GRANTED {
        Smb2Errno::Deadlock
    } else if status == SMB2_STATUS_OBJECT_NAME_COLLISION {
        Smb2Errno::Exists
    } else if status == SMB2_STATUS_PIPE_DISCONNECTED {
        Smb2Errno::Pipe
    } else if status == SMB2_STATUS_MEDIA_WRITE_PROTECTED {
        Smb2Errno::ReadOnly
    } else if status == SMB2_STATUS_NO_MEDIA_IN_DEVICE {
        Smb2Errno::NoDevice
    } else if status == SMB2_STATUS_DATA_ERROR {
        Smb2Errno::Io
    } else if status == SMB2_STATUS_CRC_ERROR {
        Smb2Errno::Io
    } else if status == SMB2_STATUS_DEVICE_DATA_ERROR {
        Smb2Errno::Io
    } else if status == SMB2_STATUS_IO_DEVICE_ERROR {
        Smb2Errno::Io
    } else if status == SMB2_STATUS_DISK_FULL {
        Smb2Errno::NoSpace
    } else if status == SMB2_STATUS_CANCELLED {
        Smb2Errno::NetworkReset
    } else if status == SMB2_STATUS_FILE_CLOSED {
        Smb2Errno::NetworkReset
    } else if status == SMB2_STATUS_VOLUME_DISMOUNTED {
        Smb2Errno::NetworkReset
    } else if status == SMB2_STATUS_CONNECTION_DISCONNECTED {
        Smb2Errno::NetworkReset
    } else if status == SMB2_STATUS_CONNECTION_RESET {
        Smb2Errno::NetworkReset
    } else if status == SMB2_STATUS_CONNECTION_INVALID {
        Smb2Errno::NetworkReset
    } else if status == SMB2_STATUS_CONNECTION_ABORTED {
        Smb2Errno::NetworkReset
    } else if status == SMB2_STATUS_NETWORK_NAME_DELETED {
        Smb2Errno::NetworkReset
    } else if status == SMB2_STATUS_INVALID_NETWORK_RESPONSE {
        Smb2Errno::NetworkReset
    } else if status == SMB2_STATUS_PATH_NOT_COVERED {
        Smb2Errno::NoExec
    } else if status == SMB2_STATUS_IO_TIMEOUT {
        Smb2Errno::TimedOut
    } else if status == SMB2_STATUS_INSUFFICIENT_RESOURCES {
        Smb2Errno::Busy
    } else {
        Smb2Errno::Io
    }
}

/// Converts an NT status to its errno value.
pub fn nterror_to_errno(status: u32) -> (r: i32)
    ensures
        r == errno_code(status_errno_of(status)),
{
    let e = nterror_errno(status);
    assert((0xC000_02FEu32 as i32) != i32::MIN) by (bit_vector);
    e.code()
}

} // verus!
