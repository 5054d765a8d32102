//! Client operations: the state that share connection, handle management,
//! directory iteration, compound file operations, notifications and server
//! dispatch carry, and the request records that the client builds for them
//! before anything is sent.

use vstd::prelude::*;

use crate::engine::client::{opt_str_view, opt_string_view, queued_one, ClientModel, Smb2Client};
use crate::headers::smb2::libsmb2::{
    DirectoryEntry, DirectoryHandle, ErrorCode, FileHandle, Result, Smb2Operation, Stat, StatVfs,
    EINVAL,
};
use crate::text::{encode_utf16, string_push, utf16_encode};

verus! {

/// Size of an SMB2 file id in bytes.
pub const SMB2_FILE_ID_SIZE: usize = 16;

/// File id that stands for "the file opened earlier in this compound chain",
/// used by create/set-info/close chains.
pub const COMPOUND_FILE_ID: [u8; SMB2_FILE_ID_SIZE] = [
    0xff, 0xff, 0xff, 0xff, 0xff, 0xff, 0xff, 0xff,
    0xff, 0xff, 0xff, 0xff, 0xff, 0xff, 0xff, 0xff,
];

/// Status recorded by operations that have not reached the server yet.
pub const SMB2_STATUS_LOCAL_PLACEHOLDER: u32 = 0;

/// The UNC path `\\server\share`.
pub open spec fn unc_path(server: Seq<char>, share: Seq<char>) -> Seq<char> {
    seq!['\\', '\\'] + server + seq!['\\'] + share
}

/// Connection state carried through share connection callbacks.
#[derive(Debug, Clone, PartialEq, Eq, Default)]
pub struct ConnectData {
    /// Server name or address.
    pub server: String,
    /// Share name being connected.
    pub share: String,
    /// Optional user name for authentication.
    pub user: Option<String>,
    /// UTF-8 UNC form for the share.
    pub utf8_unc: Option<String>,
    /// UTF-16 UNC form for the share.
    pub utf16_unc: Vec<u16>,
    /// Whether the connection is owned by an embedded server context.
    pub server_context: bool,
}

impl ConnectData {
    /// Creates connection callback state for a server/share pair.
    #[must_use]
    pub fn new(server: &str, share: &str) -> (r: Self)
        ensures
            r.server@ == server@,
            r.share@ == share@,
            r.user is None,
            r.utf8_unc is None,
            r.utf16_unc@.len() == 0,
            !r.server_context,
    {
        Self {
            server: String::from_str(server),
            share: String::from_str(share),
            user: None,
            utf8_unc: None,
            utf16_unc: Vec::new(),
            server_context: false,
        }
    }

    /// Returns the UNC path `\\server\share`.
    #[must_use]
    pub fn unc(&self) -> (r: String)
        ensures
            r@ == unc_path(self.server@, self.share@),
    {
        let r = String::from_str("\\\\").concat(self.server.as_str()).concat("\\").concat(
            self.share.as_str(),
        );
        proof {
            reveal_strlit("\\\\");
            reveal_strlit("\\");
            assert(r@ =~= unc_path(self.server@, self.share@));
        }
        r
    }
}

/// The cached state of an open file.
#[derive(Debug, Clone, PartialEq, Eq)]
pub struct Smb2FileHandle {
    /// Raw SMB2 file id.
    pub file_id: [u8; SMB2_FILE_ID_SIZE],
    /// Cached sequential file offset.
    pub offset: u64,
    /// Cached end-of-file value when known.
    pub end_of_file: Option<u64>,
}

impl Smb2FileHandle {
    /// Creates the state of a file just opened with `file_id`.
    #[must_use]
    pub fn new(file_id: [u8; SMB2_FILE_ID_SIZE]) -> (r: Self)
        ensures
            r == (Smb2FileHandle { file_id: file_id, offset: 0, end_of_file: None }),
    {
        Self { file_id, offset: 0, end_of_file: None }
    }

    /// Converts this state into the public file handle type.
    #[must_use]
    pub fn into_file_handle(self) -> (r: FileHandle)
        ensures
            r.spec_id() == self.file_id,
            r.spec_offset() == 0,
    {
        FileHandle::new(self.file_id)
    }

    /// Advances the cached sequential offset after a read or write, stopping
    /// at the largest offset.
    pub fn advance_offset(&mut self, count: u64)
        ensures
            final(self).offset == (if old(self).offset + count > u64::MAX {
                u64::MAX as int
            } else {
                old(self).offset + count
            }),
            final(self).file_id == old(self).file_id,
            final(self).end_of_file == old(self).end_of_file,
    {
        self.offset = self.offset.saturating_add(count);
    }
}

/// Directory state backing `readdir`, `seekdir` and friends: the decoded
/// entries and a cursor into them.
#[derive(Debug, PartialEq, Eq, Default)]
pub struct Smb2Directory {
    entries: Vec<DirectoryEntry>,
    index: usize,
}

impl View for Smb2Directory {
    type V = (Seq<DirectoryEntry>, nat);

    closed spec fn view(&self) -> (Seq<DirectoryEntry>, nat) {
        (self.entries@, self.index as nat)
    }
}

impl Clone for Smb2Directory {
    fn clone(&self) -> (r: Self)
        ensures
            r@.0.len() == self@.0.len(),
            r@.1 == self@.1,
    {
        proof {
            use_type_invariant(self);
        }
        Smb2Directory { entries: self.entries.clone(), index: self.index }
    }
}

impl Smb2Directory {
    /// The cursor never passes the end of the entries.
    #[verifier::type_invariant]
    spec fn cursor_in_range(&self) -> bool {
        self.index <= self.entries@.len()
    }

    /// Creates a cursor at the first of `entries`.
    #[must_use]
    pub fn new(entries: Vec<DirectoryEntry>) -> (r: Self)
        ensures
            r@ == (entries@, 0nat),
    {
        Self { entries, index: 0 }
    }

    /// Moves the cursor to `loc`, clamped to the number of entries.
    pub fn seekdir(&mut self, loc: usize)
        ensures
            final(self)@ == (old(self)@.0, if loc < old(self)@.0.len() {
                loc as nat
            } else {
                old(self)@.0.len()
            }),
    {
        let n = self.entries.len();
        self.index = if loc < n {
            loc
        } else {
            n
        };
    }

    /// Returns the cursor position.
    #[must_use]
    pub fn telldir(&self) -> (r: usize)
        ensures
            r == self@.1,
            r <= self@.0.len(),
    {
        proof {
            use_type_invariant(self);
        }
        self.index
    }

    /// Moves the cursor back to the first entry.
    pub fn rewinddir(&mut self)
        ensures
            final(self)@ == (old(self)@.0, 0nat),
    {
        self.index = 0;
    }

    /// Returns the entry under the cursor and advances the cursor past it;
    /// past the last entry it returns `None` and the cursor stays.
    #[must_use]
    pub fn readdir(&mut self) -> (r: Option<&DirectoryEntry>)
        ensures
            old(self)@.1 < old(self)@.0.len() ==> r == Some(&old(self)@.0[old(self)@.1 as int])
                && final(self)@ == (old(self)@.0, old(self)@.1 + 1),
            old(self)@.1 >= old(self)@.0.len() ==> r is None && final(self)@ == old(self)@,
    {
        let i = self.index;
        if i < self.entries.len() {
            self.index = i + 1;
            Some(&self.entries[i])
        } else {
            None
        }
    }

    /// Returns the number of entries.
    #[must_use]
    pub fn len(&self) -> (r: usize)
        ensures
            r == self@.0.len(),
    {
        self.entries.len()
    }

    /// Returns whether there are no entries.
    #[must_use]
    pub fn is_empty(&self) -> (r: bool)
        ensures
            r == (self@.0.len() == 0),
    {
        self.entries.len() == 0
    }
}

/// Open disposition requested by the create/open helpers.
#[derive(Debug, Clone, Copy, PartialEq, Eq)]
pub enum CreateDisposition {
    /// Open an existing object.
    Open,
    /// Create a new object and fail if it exists.
    Create,
    /// Open an existing object or create it when missing.
    OpenIf,
    /// Replace an existing object.
    Overwrite,
}

/// Kind of object addressed by create/unlink/truncate.
#[derive(Debug, Clone, Copy, PartialEq, Eq)]
pub enum ObjectKind {
    /// Regular file object.
    File,
    /// Directory object.
    Directory,
    /// Symbolic link or reparse point.
    ReparsePoint,
}

/// An open request, with its oplock level and lease.
#[derive(Debug, Clone, PartialEq, Eq)]
pub struct OpenRequest {
    /// Path relative to the connected share.
    pub path: String,
    /// POSIX-style open flags passed by callers.
    pub flags: i32,
    /// Requested oplock level.
    pub oplock_level: u8,
    /// Requested lease state.
    pub lease_state: u32,
    /// Optional lease key.
    pub lease_key: Option<[u8; 16]>,
}

impl OpenRequest {
    /// Creates an open request without oplock or lease.
    #[must_use]
    pub fn new(path: &str, flags: i32) -> (r: Self)
        ensures
            r.path@ == path@,
            r.flags == flags,
            r.oplock_level == 0,
            r.lease_state == 0,
            r.lease_key is None,
    {
        Self { path: String::from_str(path), flags, oplock_level: 0, lease_state: 0, lease_key: None }
    }
}

/// A positioned read request.
#[derive(Debug, Clone, PartialEq, Eq)]
pub struct ReadRequest {
    /// File handle to read from.
    pub file_id: [u8; SMB2_FILE_ID_SIZE],
    /// Requested byte count.
    pub count: u32,
    /// Absolute file offset.
    pub offset: u64,
}

/// A positioned write request.
#[derive(Debug, Clone, PartialEq, Eq)]
pub struct WriteRequest {
    /// File handle to write to.
    pub file_id: [u8; SMB2_FILE_ID_SIZE],
    /// Bytes to write.
    pub data: Vec<u8>,
    /// Absolute file offset.
    pub offset: u64,
}

/// Callback state of a read.
#[derive(Debug, Clone, PartialEq, Eq)]
pub struct ReadData {
    /// The read request.
    pub request: ReadRequest,
    /// Number of bytes completed so far.
    pub completed: u32,
}

/// Callback state of a write.
#[derive(Debug, Clone, PartialEq, Eq)]
pub struct WriteData {
    /// The write request.
    pub request: WriteRequest,
    /// Number of bytes completed so far.
    pub completed: u32,
}

/// Callback state shared by create, mkdir, unlink and rmdir.
#[derive(Debug, Clone, PartialEq, Eq)]
pub struct CreateCallbackData {
    /// Path being created, opened, or deleted.
    pub path: String,
    /// Kind of object addressed by the request.
    pub kind: ObjectKind,
    /// Create disposition requested by the helper.
    pub disposition: CreateDisposition,
}

/// Query-info state of stat, fstat and statvfs.
#[derive(Debug, Clone, PartialEq, Eq)]
pub struct StatCallbackData {
    /// Information type requested by the caller.
    pub info_type: u8,
    /// File information class requested by the caller.
    pub file_info_class: u8,
    /// Last NT status observed by the callback chain.
    pub status: u32,
    /// Decoded stat payload, when available.
    pub stat: Option<Stat>,
    /// Decoded filesystem stat payload, when available.
    pub statvfs: Option<StatVfs>,
}

/// `s` with every `/` replaced by `\`.
pub open spec fn backslashed(s: Seq<char>) -> Seq<char> {
    Seq::new(s.len(), |i: int| if s[i] == '/' { '\\' } else { s[i] })
}

/// A rename target never holds a `/`: every separator is a `\`, and
/// nothing else changes.
pub proof fn lemma_backslashed_has_no_slash(s: Seq<char>)
    ensures
        backslashed(s).len() == s.len(),
        !backslashed(s).contains('/'),
        forall|i: int| 0 <= i < s.len() && s[i] != '/' ==> backslashed(s)[i] == s[i],
{
}

/// Rename compound state.
#[derive(Debug, Clone, PartialEq, Eq)]
pub struct RenameCallbackData {
    /// Source path opened by the CREATE leg.
    pub old_path: String,
    /// Destination path passed to SET_INFO using SMB backslash separators.
    pub new_path: String,
    /// Last NT status observed by the compound chain.
    pub status: u32,
}

impl RenameCallbackData {
    /// Creates rename state; the target path gets `\` for every `/`.
    #[must_use]
    pub fn new(old_path: &str, new_path: &str) -> (r: Self)
        ensures
            r.old_path@ == old_path@,
            r.new_path@ == backslashed(new_path@),
            r.status == SMB2_STATUS_LOCAL_PLACEHOLDER,
    {
        let n = new_path.unicode_len();
        let mut out = String::new();
        let mut i: usize = 0;
        while i < n
            invariant
                n == new_path@.len(),
                i <= n,
                out@ =~= backslashed(new_path@).subrange(0, i as int),
            decreases n - i,
        {
            let c = new_path.get_char(i);
            if c == '/' {
                string_push(&mut out, '\\');
            } else {
                string_push(&mut out, c);
            }
            i = i + 1;
        }
        assert(out@ =~= backslashed(new_path@));
        Self {
            old_path: String::from_str(old_path),
            new_path: out,
            status: SMB2_STATUS_LOCAL_PLACEHOLDER,
        }
    }
}

/// Readlink compound state.
#[derive(Debug, Clone, PartialEq, Eq)]
pub struct ReadlinkCallbackData {
    /// Path being opened and queried.
    pub path: String,
    /// Last NT status observed by the compound chain.
    pub status: u32,
    /// Reparse target decoded from the IOCTL leg, when available.
    pub target: Option<String>,
}

/// Disconnect state: which of the two legs have been queued.
#[derive(Debug, Clone, PartialEq, Eq, Default)]
pub struct DisconnectData {
    /// Whether tree disconnect has been queued.
    pub tree_disconnect_queued: bool,
    /// Whether logoff has been queued.
    pub logoff_queued: bool,
}

/// Echo state.
#[derive(Debug, Clone, Copy, PartialEq, Eq, Default)]
pub struct EchoData {
    /// Last NT status returned by echo completion.
    pub status: u32,
}

/// File notification entry decoded from CHANGE_NOTIFY output.
#[derive(Debug, Clone, PartialEq, Eq)]
pub struct FileNotifyChangeInformation {
    /// Action code reported by the server.
    pub action: u32,
    /// File name affected by the action.
    pub name: String,
}

/// Callback state of a change notification.
#[derive(Debug, Clone, PartialEq, Eq)]
pub struct NotifyChangeCallbackData {
    /// Directory handle being watched.
    pub directory_file_id: [u8; SMB2_FILE_ID_SIZE],
    /// Completion filter flags.
    pub filter: u32,
    /// CHANGE_NOTIFY flags such as watch-tree.
    pub flags: u16,
    /// Whether the notification should be re-armed after completion.
    pub repeat: bool,
    /// Decoded changes from the current completion.
    pub changes: Vec<FileNotifyChangeInformation>,
}

/// Oplock or lease break response selected by the notification handler.
#[derive(Debug, Clone, Copy, PartialEq, Eq)]
pub enum OplockBreakResponse {
    /// No response PDU is needed.
    NoReply,
    /// Reply with a new oplock level.
    Oplock { file_id: [u8; SMB2_FILE_ID_SIZE], level: u8 },
    /// Reply with a new lease state.
    Lease { lease_key: [u8; 16], state: u32, flags: u32 },
}

/// Server-side request kind dispatched by the server callback table.
#[derive(Debug, Clone, Copy, PartialEq, Eq)]
pub enum ServerRequestKind {
    /// LOGOFF request.
    Logoff,
    /// TREE_CONNECT request.
    TreeConnect,
    /// TREE_DISCONNECT request.
    TreeDisconnect,
    /// CREATE request.
    Create,
    /// CLOSE request.
    Close,
    /// FLUSH request.
    Flush,
    /// READ request.
    Read,
    /// WRITE request.
    Write,
    /// OPLOCK_BREAK request.
    OplockBreak,
    /// LOCK request.
    Lock,
    /// IOCTL request.
    Ioctl,
    /// CANCEL request.
    Cancel,
    /// ECHO request.
    Echo,
    /// QUERY_DIRECTORY request.
    QueryDirectory,
    /// CHANGE_NOTIFY request.
    ChangeNotify,
    /// QUERY_INFO request.
    QueryInfo,
    /// SET_INFO request.
    SetInfo,
    /// SESSION_SETUP request.
    SessionSetup,
    /// NEGOTIATE request.
    Negotiate,
}

/// Server-side dispatch record.
#[derive(Debug, Clone, PartialEq, Eq)]
pub struct ServerRequest {
    /// Request kind being dispatched.
    pub kind: ServerRequestKind,
    /// Message id associated with the request when known.
    pub message_id: Option<u64>,
}

/// The lowercase hexadecimal digit of `v`.
pub open spec fn hex_digit(v: u8) -> char {
    if v < 10 {
        ((v + 48) as u8) as char
    } else {
        ((v + 87) as u8) as char
    }
}

/// `bytes` written as `[b0, b1, ...]`, each byte as two lowercase hex digits.
pub open spec fn hex_list(bytes: Seq<u8>) -> Seq<char> {
    seq!['['] + hex_items(bytes) + seq![']']
}

/// The items of `hex_list`, separated by `", "`.
pub open spec fn hex_items(bytes: Seq<u8>) -> Seq<char>
    decreases bytes.len(),
{
    if bytes.len() == 0 {
        Seq::empty()
    } else {
        let last = bytes.last();
        let item = seq![hex_digit(last / 16), hex_digit(last % 16)];
        if bytes.len() == 1 {
            item
        } else {
            hex_items(bytes.drop_last()) + seq![',', ' '] + item
        }
    }
}

fn hex_char(v: u8) -> (c: char)
    requires
        v < 16,
    ensures
        c == hex_digit(v),
{
    if v < 10 {
        (v + 48) as char
    } else {
        (v + 87) as char
    }
}

/// The path under which a file handle is addressed: `file-id:` followed by
/// its id written as a list of hex bytes.
pub open spec fn file_id_path(id: [u8; 16]) -> Seq<char> {
    "file-id:"@ + hex_list(id@)
}

fn file_id_text(id: [u8; SMB2_FILE_ID_SIZE]) -> (r: String)
    ensures
        r@ == file_id_path(id),
{
    let mut out = String::from_str("file-id:[");
    let mut i: usize = 0;
    proof {
        reveal_strlit("file-id:[");
        reveal_strlit("file-id:");
        assert(id@.subrange(0, 0) =~= Seq::<u8>::empty());
        assert(out@ =~= "file-id:"@ + seq!['['] + hex_items(id@.subrange(0, 0)));
    }
    while i < SMB2_FILE_ID_SIZE
        invariant
            i <= 16,
            out@ == "file-id:"@ + seq!['['] + hex_items(id@.subrange(0, i as int)),
        decreases 16 - i,
    {
        let b = id[i];
        if i > 0 {
            string_push(&mut out, ',');
            string_push(&mut out, ' ');
        }
        string_push(&mut out, hex_char(b / 16));
        string_push(&mut out, hex_char(b % 16));
        proof {
            let s = id@.subrange(0, i + 1);
            assert(s.drop_last() =~= id@.subrange(0, i as int));
            assert(s.last() == b);
        }
        i = i + 1;
    }
    string_push(&mut out, ']');
    proof {
        assert(id@.subrange(0, 16) =~= id@);
        assert(out@ =~= file_id_path(id));
    }
    out
}

/// A path is usable when it is not empty.
fn validate_path(path: &str) -> (r: Result<()>)
    ensures
        path@.len() == 0 ==> r == Err::<(), ErrorCode>(ErrorCode(EINVAL)),
        path@.len() != 0 ==> r is Ok,
{
    if path.unicode_len() == 0 {
        return Err(ErrorCode(EINVAL));
    }
    Ok(())
}

impl Smb2Client {
    /// Closing a context queues nothing: neither leg of a disconnect.
    pub fn close_context_skeleton(&mut self) -> (r: DisconnectData)
        ensures
            r == (DisconnectData { tree_disconnect_queued: false, logoff_queued: false }),
            final(self)@ == old(self)@,
    {
        DisconnectData { tree_disconnect_queued: false, logoff_queued: false }
    }

    /// Connects a share (see `connect_share`) and builds its callback state,
    /// with the UNC path in UTF-8 and UTF-16.
    pub fn connect_share_async_skeleton(
        &mut self,
        server: &str,
        share: &str,
        user: Option<&str>,
    ) -> (r: Result<ConnectData>)
        ensures
            queued_one(
                ClientModel { server: Some(server@), share: Some(share@), ..old(self)@ },
                final(self)@,
            ),
            (r matches Ok(d) && d.server@ == server@ && d.share@ == share@ && opt_string_view(
                d.user,
            ) == opt_str_view(user) && opt_string_view(d.utf8_unc) == Some(unc_path(server@, share@))
                && d.utf16_unc@ == encode_utf16(unc_path(server@, share@)) && !d.server_context),
    {
        let connected = self.connect_share(server, share);
        match connected {
            Ok(()) => {},
            Err(e) => {
                return Err(e);
            },
        }
        let mut data = ConnectData::new(server, share);
        data.user = match user {
            Some(u) => Some(String::from_str(u)),
            None => None,
        };
        let unc = data.unc();
        data.utf16_unc = utf16_encode(unc.as_str());
        data.utf8_unc = Some(unc);
        Ok(data)
    }

    /// Builds an open request for a non-empty path; an empty path is refused
    /// with `EINVAL`.
    pub fn open_async_skeleton(&mut self, path: &str, flags: i32) -> (r: Result<OpenRequest>)
        ensures
            final(self)@ == old(self)@,
            path@.len() == 0 ==> r == Err::<OpenRequest, ErrorCode>(ErrorCode(EINVAL)),
            path@.len() != 0 ==> (r matches Ok(q) && q.path@ == path@ && q.flags == flags
                && q.oplock_level == 0 && q.lease_state == 0 && q.lease_key is None),
    {
        match validate_path(path) {
            Ok(()) => {},
            Err(e) => {
                return Err(e);
            },
        }
        Ok(OpenRequest::new(path, flags))
    }

    /// Builds a close request: the id of the handle to close.
    pub fn close_async_skeleton(&mut self, handle: &FileHandle) -> (r: Result<[u8; SMB2_FILE_ID_SIZE]>)
        ensures
            final(self)@ == old(self)@,
            r == Ok::<[u8; SMB2_FILE_ID_SIZE], ErrorCode>(handle.spec_id()),
    {
        Ok(handle.id())
    }

    /// Builds a flush request: the id of the handle to flush.
    pub fn fsync_async_skeleton(&mut self, handle: &FileHandle) -> (r: Result<[u8; SMB2_FILE_ID_SIZE]>)
        ensures
            final(self)@ == old(self)@,
            r == Ok::<[u8; SMB2_FILE_ID_SIZE], ErrorCode>(handle.spec_id()),
    {
        Ok(handle.id())
    }

    /// Builds the callback state of a positioned read.
    pub fn pread_async_skeleton(&mut self, handle: &FileHandle, count: u32, offset: u64) -> (r:
        Result<ReadData>)
        ensures
            final(self)@ == old(self)@,
            r == Ok::<ReadData, ErrorCode>(ReadData {
                request: ReadRequest { file_id: handle.spec_id(), count: count, offset: offset },
                completed: 0,
            }),
    {
        Ok(ReadData { request: ReadRequest { file_id: handle.id(), count, offset }, completed: 0 })
    }

    /// Builds the callback state of a read at the handle's offset.
    pub fn read_async_skeleton(&mut self, handle: &FileHandle, count: u32) -> (r: Result<ReadData>)
        ensures
            final(self)@ == old(self)@,
            r == Ok::<ReadData, ErrorCode>(ReadData {
                request: ReadRequest {
                    file_id: handle.spec_id(),
                    count: count,
                    offset: handle.spec_offset(),
                },
                completed: 0,
            }),
    {
        self.pread_async_skeleton(handle, count, handle.offset())
    }

    /// Builds the callback state of a positioned write of a copy of `data`.
    pub fn pwrite_async_skeleton(&mut self, handle: &FileHandle, data: &[u8], offset: u64) -> (r:
        Result<WriteData>)
        ensures
            final(self)@ == old(self)@,
            (r matches Ok(w) && w.request.file_id == handle.spec_id() && w.request.data@ == data@
                && w.request.offset == offset && w.completed == 0),
    {
        Ok(
            WriteData {
                request: WriteRequest { file_id: handle.id(), data: vstd::slice::slice_to_vec(data), offset },
                completed: 0,
            },
        )
    }

    /// Builds the callback state of a write at the handle's offset.
    pub fn write_async_skeleton(&mut self, handle: &FileHandle, data: &[u8]) -> (r: Result<WriteData>)
        ensures
            final(self)@ == old(self)@,
            (r matches Ok(w) && w.request.file_id == handle.spec_id() && w.request.data@ == data@
                && w.request.offset == handle.spec_offset() && w.completed == 0),
    {
        self.pwrite_async_skeleton(handle, data, handle.offset())
    }

    /// Builds a directory cursor over `entries` for a non-empty path; an
    /// empty path is refused with `EINVAL`.
    pub fn opendir_async_skeleton(&mut self, path: &str, entries: Vec<DirectoryEntry>) -> (r:
        Result<Smb2Directory>)
        ensures
            final(self)@ == old(self)@,
            path@.len() == 0 ==> r is Err && r->Err_0 == ErrorCode(EINVAL),
            path@.len() != 0 ==> (r matches Ok(d) && d@ == (entries@, 0nat)),
    {
        match validate_path(path) {
            Ok(()) => {},
            Err(e) => {
                return Err(e);
            },
        }
        Ok(Smb2Directory::new(entries))
    }

    /// Builds a directory handle from a known SMB2 file id.
    #[must_use]
    pub fn directory_handle_from_file_id(&self, file_id: [u8; SMB2_FILE_ID_SIZE]) -> (r:
        DirectoryHandle)
        ensures
            r.spec_id() == file_id,
            r.spec_index() == 0,
    {
        DirectoryHandle::new(file_id)
    }

    /// Builds the create state of a mkdir: a directory, created.
    pub fn mkdir_async_skeleton(&mut self, path: &str) -> (r: Result<CreateCallbackData>)
        ensures
            final(self)@ == old(self)@,
            path@.len() == 0 ==> r is Err && r->Err_0 == ErrorCode(EINVAL),
            path@.len() != 0 ==> (r matches Ok(c) && c.path@ == path@ && c.kind
                == ObjectKind::Directory && c.disposition == CreateDisposition::Create),
    {
        match validate_path(path) {
            Ok(()) => {},
            Err(e) => {
                return Err(e);
            },
        }
        Ok(
            CreateCallbackData {
                path: String::from_str(path),
                kind: ObjectKind::Directory,
                disposition: CreateDisposition::Create,
            },
        )
    }

    /// Builds the create state of an unlink: a file, opened for deletion.
    pub fn unlink_async_skeleton(&mut self, path: &str) -> (r: Result<CreateCallbackData>)
        ensures
            final(self)@ == old(self)@,
            path@.len() == 0 ==> r is Err && r->Err_0 == ErrorCode(EINVAL),
            path@.len() != 0 ==> (r matches Ok(c) && c.path@ == path@ && c.kind == ObjectKind::File
                && c.disposition == CreateDisposition::Open),
    {
        self.unlink_internal_skeleton(path, ObjectKind::File)
    }

    /// Builds the create state of an rmdir: a directory, opened for deletion.
    pub fn rmdir_async_skeleton(&mut self, path: &str) -> (r: Result<CreateCallbackData>)
        ensures
            final(self)@ == old(self)@,
            path@.len() == 0 ==> r is Err && r->Err_0 == ErrorCode(EINVAL),
            path@.len() != 0 ==> (r matches Ok(c) && c.path@ == path@ && c.kind
                == ObjectKind::Directory && c.disposition == CreateDisposition::Open),
    {
        self.unlink_internal_skeleton(path, ObjectKind::Directory)
    }

    /// Builds the query state of an fstat: file information (type 1), the
    /// all-information class (18).
    pub fn fstat_async_skeleton(&mut self, handle: &FileHandle) -> (r: Result<StatCallbackData>)
        ensures
            final(self)@ == old(self)@,
            r == Ok::<StatCallbackData, ErrorCode>(StatCallbackData {
                info_type: 1,
                file_info_class: 18,
                status: SMB2_STATUS_LOCAL_PLACEHOLDER,
                stat: None,
                statvfs: None,
            }),
    {
        Ok(
            StatCallbackData {
                info_type: 1,
                file_info_class: 18,
                status: SMB2_STATUS_LOCAL_PLACEHOLDER,
                stat: None,
                statvfs: None,
            },
        )
    }

    /// Builds the query state of a stat on a non-empty path: that of an
    /// fstat on the compound file id.
    pub fn stat_async_skeleton(&mut self, path: &str) -> (r: Result<StatCallbackData>)
        ensures
            final(self)@ == old(self)@,
            path@.len() == 0 ==> r is Err && r->Err_0 == ErrorCode(EINVAL),
            path@.len() != 0 ==> r == Ok::<StatCallbackData, ErrorCode>(StatCallbackData {
                info_type: 1,
                file_info_class: 18,
                status: SMB2_STATUS_LOCAL_PLACEHOLDER,
                stat: None,
                statvfs: None,
            }),
    {
        match validate_path(path) {
            Ok(()) => {},
            Err(e) => {
                return Err(e);
            },
        }
        self.fstat_async_skeleton(&FileHandle::new(COMPOUND_FILE_ID))
    }

    /// Builds the query state of a statvfs: filesystem information (type 2).
    pub fn statvfs_async_skeleton(&mut self, path: &str) -> (r: Result<StatCallbackData>)
        ensures
            final(self)@ == old(self)@,
            path@.len() == 0 ==> r is Err && r->Err_0 == ErrorCode(EINVAL),
            path@.len() != 0 ==> r == Ok::<StatCallbackData, ErrorCode>(StatCallbackData {
                info_type: 2,
                file_info_class: 0,
                status: SMB2_STATUS_LOCAL_PLACEHOLDER,
                stat: None,
                statvfs: None,
            }),
    {
        match validate_path(path) {
            Ok(()) => {},
            Err(e) => {
                return Err(e);
            },
        }
        Ok(
            StatCallbackData {
                info_type: 2,
                file_info_class: 0,
                status: SMB2_STATUS_LOCAL_PLACEHOLDER,
                stat: None,
                statvfs: None,
            },
        )
    }

    /// Builds the create state of a truncate: a file, opened.
    pub fn truncate_async_skeleton(&mut self, path: &str, length: u64) -> (r: Result<
        CreateCallbackData,
    >)
        ensures
            final(self)@ == old(self)@,
            path@.len() == 0 ==> r is Err && r->Err_0 == ErrorCode(EINVAL),
            path@.len() != 0 ==> (r matches Ok(c) && c.path@ == path@ && c.kind == ObjectKind::File
                && c.disposition == CreateDisposition::Open),
    {
        match validate_path(path) {
            Ok(()) => {},
            Err(e) => {
                return Err(e);
            },
        }
        Ok(
            CreateCallbackData {
                path: String::from_str(path),
                kind: ObjectKind::File,
                disposition: CreateDisposition::Open,
            },
        )
    }

    /// Builds rename state when both paths are non-empty; otherwise refuses
    /// with `EINVAL`.
    pub fn rename_async_skeleton(&mut self, old_path: &str, new_path: &str) -> (r: Result<
        RenameCallbackData,
    >)
        ensures
            final(self)@ == old(self)@,
            (old_path@.len() == 0 || new_path@.len() == 0) ==> r is Err && r->Err_0 == ErrorCode(
                EINVAL,
            ),
            (old_path@.len() != 0 && new_path@.len() != 0) ==> (r matches Ok(d) && d.old_path@
                == old_path@ && d.new_path@ == backslashed(new_path@) && d.status
                == SMB2_STATUS_LOCAL_PLACEHOLDER),
    {
        match validate_path(old_path) {
            Ok(()) => {},
            Err(e) => {
                return Err(e);
            },
        }
        match validate_path(new_path) {
            Ok(()) => {},
            Err(e) => {
                return Err(e);
            },
        }
        Ok(RenameCallbackData::new(old_path, new_path))
    }

    /// Builds the create state of an ftruncate: the file addressed by its
    /// id, opened.
    pub fn ftruncate_async_skeleton(&mut self, handle: &FileHandle, length: u64) -> (r: Result<
        CreateCallbackData,
    >)
        ensures
            final(self)@ == old(self)@,
            (r matches Ok(c) && c.path@ == file_id_path(handle.spec_id()) && c.kind
                == ObjectKind::File && c.disposition == CreateDisposition::Open),
    {
        Ok(
            CreateCallbackData {
                path: file_id_text(handle.id()),
                kind: ObjectKind::File,
                disposition: CreateDisposition::Open,
            },
        )
    }

    /// Builds readlink state for a non-empty path.
    pub fn readlink_async_skeleton(&mut self, path: &str) -> (r: Result<ReadlinkCallbackData>)
        ensures
            final(self)@ == old(self)@,
            path@.len() == 0 ==> r is Err && r->Err_0 == ErrorCode(EINVAL),
            path@.len() != 0 ==> (r matches Ok(d) && d.path@ == path@ && d.status
                == SMB2_STATUS_LOCAL_PLACEHOLDER && d.target is None),
    {
        match validate_path(path) {
            Ok(()) => {},
            Err(e) => {
                return Err(e);
            },
        }
        Ok(
            ReadlinkCallbackData {
                path: String::from_str(path),
                status: SMB2_STATUS_LOCAL_PLACEHOLDER,
                target: None,
            },
        )
    }

    /// Disconnects the share (see `disconnect_share`); both legs, tree
    /// disconnect and logoff, are then queued.
    pub fn disconnect_share_async_skeleton(&mut self) -> (r: Result<DisconnectData>)
        ensures
            queued_one(ClientModel { share: None, ..old(self)@ }, final(self)@),
            final(self)@.queued_operations.last() == Smb2Operation::DisconnectShare,
            r == Ok::<DisconnectData, ErrorCode>(DisconnectData {
                tree_disconnect_queued: true,
                logoff_queued: true,
            }),
    {
        match self.disconnect_share() {
            Ok(()) => {},
            Err(e) => {
                return Err(e);
            },
        }
        Ok(DisconnectData { tree_disconnect_queued: true, logoff_queued: true })
    }

    /// Builds echo state.
    pub fn echo_async_skeleton(&mut self) -> (r: Result<EchoData>)
        ensures
            final(self)@ == old(self)@,
            r == Ok::<EchoData, ErrorCode>(EchoData { status: 0 }),
    {
        Ok(EchoData { status: 0 })
    }

    /// The maximum read size before any negotiation: zero.
    #[must_use]
    pub fn max_read_size_skeleton(&self) -> (r: u32)
        ensures
            r == 0,
    {
        0
    }

    /// The maximum write size before any negotiation: zero.
    #[must_use]
    pub fn max_write_size_skeleton(&self) -> (r: u32)
        ensures
            r == 0,
    {
        0
    }

    /// Builds a file handle from a known SMB2 file id.
    #[must_use]
    pub fn file_handle_from_file_id(&self, file_id: [u8; SMB2_FILE_ID_SIZE]) -> (r: FileHandle)
        ensures
            r.spec_id() == file_id,
            r.spec_offset() == 0,
    {
        FileHandle::new(file_id)
    }

    /// Builds the callback state of a change notification on a directory.
    pub fn notify_change_async_skeleton(
        &mut self,
        directory: &DirectoryHandle,
        flags: u16,
        filter: u32,
        repeat: bool,
    ) -> (r: Result<NotifyChangeCallbackData>)
        ensures
            final(self)@ == old(self)@,
            (r matches Ok(d) && d.directory_file_id == directory.spec_id() && d.filter == filter
                && d.flags == flags && d.repeat == repeat && d.changes@.len() == 0),
    {
        Ok(
            NotifyChangeCallbackData {
                directory_file_id: directory.id(),
                filter,
                flags,
                repeat,
                changes: Vec::new(),
            },
        )
    }

    /// Records the selected oplock/lease response and hands it back.
    pub fn oplock_break_notify_skeleton(&mut self, response: OplockBreakResponse) -> (r: Result<
        OplockBreakResponse,
    >)
        ensures
            final(self)@ == old(self)@,
            r == Ok::<OplockBreakResponse, ErrorCode>(response),
    {
        Ok(response)
    }

    /// Builds a server request dispatch record.
    #[must_use]
    pub fn server_request_skeleton(&self, kind: ServerRequestKind, message_id: Option<u64>) -> (r:
        ServerRequest)
        ensures
            r == (ServerRequest { kind: kind, message_id: message_id }),
    {
        ServerRequest { kind, message_id }
    }

    fn unlink_internal_skeleton(&mut self, path: &str, kind: ObjectKind) -> (r: Result<
        CreateCallbackData,
    >)
        ensures
            final(self)@ == old(self)@,
            path@.len() == 0 ==> r is Err && r->Err_0 == ErrorCode(EINVAL),
            path@.len() != 0 ==> (r matches Ok(c) && c.path@ == path@ && c.kind == kind
                && c.disposition == CreateDisposition::Open),
    {
        match validate_path(path) {
            Ok(()) => {},
            Err(e) => {
                return Err(e);
            },
        }
        Ok(
            CreateCallbackData {
                path: String::from_str(path),
                kind,
                disposition: CreateDisposition::Open,
            },
        )
    }
}

} // verus!
