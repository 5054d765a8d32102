//! The SMB file system handler of the Dreamcast port: descriptors, the
//! directory entries and stat records it hands to KallistiOS, the mount
//! state and the handler's lifecycle.

use vstd::prelude::*;
use vstd::std_specs::convert::FromSpecImpl;

use crate::engine::client::{initial_client_model, Smb2Client};
use crate::headers::smb2::libsmb2::{
    DirectoryEntry, DirectoryHandle, ErrorCode, FileHandle, FileType, Result, Smb2Url, Stat,
    EINVAL,
};

verus! {

const EIO: i32 = -5;

/// Mount point of the SMB handler.
pub const SMB_VFS_MOUNT: &'static str = "/smb";

/// Version value of the handler.
pub const SMB_VFS_VERSION: u32 = 0x0001_0000;

/// Bound on the UTF-8 length of a name in a directory entry, the
/// terminating NUL included.
pub const DREAMCAST_NAME_MAX: usize = 256;

/// Open-mode bit with which callers ask for a directory.
pub const O_DIR: i32 = 0x4000;

/// Kind of an open descriptor.
#[derive(Debug, Clone, Copy, PartialEq, Eq)]
pub enum SmbFdKind {
    /// A regular file.
    File,
    /// A directory, with a cached directory entry.
    Directory,
}

impl SmbFdKind {
    /// The kind that open flags ask for: a directory when `O_DIR` is set.
    #[must_use]
    pub fn from_open_mode(mode: i32) -> (r: Self)
        ensures
            r == (if mode & O_DIR != 0 {
                SmbFdKind::Directory
            } else {
                SmbFdKind::File
            }),
    {
        if mode & O_DIR != 0 {
            SmbFdKind::Directory
        } else {
            SmbFdKind::File
        }
    }

    /// Returns whether this kind is a directory.
    #[must_use]
    pub fn is_dir(self) -> (r: bool)
        ensures
            r == (self == SmbFdKind::Directory),
    {
        match self {
            SmbFdKind::Directory => true,
            SmbFdKind::File => false,
        }
    }
}

/// An open descriptor of the handler.
#[derive(Debug)]
pub struct SmbFd {
    kind: SmbFdKind,
    file: Option<FileHandle>,
    directory: Option<DirectoryHandle>,
    dirent: Option<DreamcastDirent>,
}

impl SmbFd {
    /// The kind of the descriptor.
    pub closed spec fn spec_kind(&self) -> SmbFdKind {
        self.kind
    }

    /// The file handle held by the descriptor.
    pub closed spec fn spec_file(&self) -> Option<FileHandle> {
        self.file
    }

    /// The directory handle held by the descriptor.
    pub closed spec fn spec_directory(&self) -> Option<DirectoryHandle> {
        self.directory
    }

    /// The cached directory entry of the descriptor.
    pub closed spec fn spec_dirent(&self) -> Option<DreamcastDirent> {
        self.dirent
    }

    /// Creates a file descriptor around an open file.
    #[must_use]
    pub fn file(handle: FileHandle) -> (r: Self)
        ensures
            r.spec_kind() == SmbFdKind::File,
            r.spec_file() == Some(handle),
            r.spec_directory() is None,
            r.spec_dirent() is None,
    {
        Self { kind: SmbFdKind::File, file: Some(handle), directory: None, dirent: None }
    }

    /// Creates a directory descriptor around an open directory.
    #[must_use]
    pub fn directory(handle: DirectoryHandle) -> (r: Self)
        ensures
            r.spec_kind() == SmbFdKind::Directory,
            r.spec_file() is None,
            r.spec_directory() == Some(handle),
            r.spec_dirent() is None,
    {
        Self { kind: SmbFdKind::Directory, file: None, directory: Some(handle), dirent: None }
    }

    /// Creates a descriptor whose handle is not open yet.
    #[must_use]
    pub fn pending(kind: SmbFdKind) -> (r: Self)
        ensures
            r.spec_kind() == kind,
            r.spec_file() is None,
            r.spec_directory() is None,
            r.spec_dirent() is None,
    {
        Self { kind, file: None, directory: None, dirent: None }
    }

    /// Returns the descriptor kind.
    #[must_use]
    pub fn kind(&self) -> (r: SmbFdKind)
        ensures
            r == self.spec_kind(),
    {
        self.kind
    }

    /// Returns whether this descriptor is a directory.
    #[must_use]
    pub fn is_dir(&self) -> (r: bool)
        ensures
            r == (self.spec_kind() == SmbFdKind::Directory),
    {
        self.kind.is_dir()
    }

    /// Returns the file handle, if the descriptor holds one.
    #[must_use]
    pub fn file_handle(&self) -> (r: Option<&FileHandle>)
        ensures
            match self.spec_file() {
                Some(h) => r == Some(&h),
                None => r is None,
            },
    {
        match &self.file {
            Some(h) => Some(h),
            None => None,
        }
    }

    /// Returns the directory handle, if the descriptor holds one.
    #[must_use]
    pub fn directory_handle(&self) -> (r: Option<&DirectoryHandle>)
        ensures
            match self.spec_directory() {
                Some(h) => r == Some(&h),
                None => r is None,
            },
    {
        match &self.directory {
            Some(h) => Some(h),
            None => None,
        }
    }

    /// Returns the cached directory entry.
    #[must_use]
    pub fn dirent(&self) -> (r: Option<&DreamcastDirent>)
        ensures
            match self.spec_dirent() {
                Some(d) => r == Some(&d),
                None => r is None,
            },
    {
        match &self.dirent {
            Some(d) => Some(d),
            None => None,
        }
    }

    /// Caches the handler's form of a directory entry and returns it. Only a
    /// directory descriptor caches entries; any other refuses with `EINVAL`.
    pub fn cache_dirent(&mut self, entry: &DirectoryEntry) -> (r: Result<&DreamcastDirent>)
        ensures
            final(self).spec_kind() == old(self).spec_kind(),
            final(self).spec_file() == old(self).spec_file(),
            final(self).spec_directory() == old(self).spec_directory(),
            old(self).spec_kind() != SmbFdKind::Directory ==> r is Err && r->Err_0 == ErrorCode(
                EINVAL,
            ) && final(self).spec_dirent() == old(self).spec_dirent(),
            old(self).spec_kind() == SmbFdKind::Directory ==> (r matches Ok(d)
                && dirent_of(*d, *entry) && final(self).spec_dirent() == Some(*d)),
    {
        if !self.is_dir() {
            return Err(ErrorCode(EINVAL));
        }
        self.dirent = Some(DreamcastDirent::from_directory_entry(entry));
        match &self.dirent {
            Some(d) => Ok(d),
            None => Err(ErrorCode(EIO)),
        }
    }
}

/// Number of bytes of the UTF-8 encoding of `c`.
pub open spec fn utf8_len(c: char) -> int {
    let v = c as u32;
    if v < 0x80 {
        1
    } else if v < 0x800 {
        2
    } else if v < 0x10000 {
        3
    } else {
        4
    }
}

/// The longest prefix of `s` whose UTF-8 encoding is shorter than `budget`
/// bytes, taken character by character.
pub open spec fn take_within(s: Seq<char>, budget: int) -> Seq<char>
    decreases s.len(),
{
    if s.len() == 0 {
        Seq::empty()
    } else if utf8_len(s[0]) < budget {
        seq![s[0]] + take_within(s.drop_first(), budget - utf8_len(s[0]))
    } else {
        Seq::empty()
    }
}

/// Number of bytes of the UTF-8 encoding of `s`.
pub open spec fn utf8_size(s: Seq<char>) -> int
    decreases s.len(),
{
    if s.len() == 0 {
        0
    } else {
        utf8_len(s[0]) + utf8_size(s.drop_first())
    }
}

/// A cut name is a prefix of the name whose UTF-8 encoding is shorter than
/// the budget; so a directory entry name, with its terminating NUL, always
/// fits in `DREAMCAST_NAME_MAX` bytes.
pub proof fn lemma_take_within_fits(s: Seq<char>, budget: int)
    requires
        budget > 0,
    ensures
        take_within(s, budget).len() <= s.len(),
        take_within(s, budget) == s.subrange(0, take_within(s, budget).len() as int),
        utf8_size(take_within(s, budget)) < budget,
    decreases s.len(),
{
    if s.len() == 0 {
        assert(s.subrange(0, 0) =~= Seq::<char>::empty());
    } else if utf8_len(s[0]) < budget {
        let rest = s.drop_first();
        lemma_take_within_fits(rest, budget - utf8_len(s[0]));
        let t = take_within(rest, budget - utf8_len(s[0]));
        let whole = seq![s[0]] + t;
        assert(whole.drop_first() =~= t);
        assert(whole =~= s.subrange(0, whole.len() as int)) by {
            assert forall|i: int| 0 <= i < whole.len() implies whole[i] == s[i] by {
                if i > 0 {
                    assert(whole[i] == t[i - 1]);
                    assert(t[i - 1] == rest[i - 1]);
                }
            }
        }
    } else {
        assert(s.subrange(0, 0) =~= Seq::<char>::empty());
    }
}

fn char_utf8_len(c: char) -> (r: usize)
    ensures
        r == utf8_len(c),
{
    let v = c as u32;
    if v < 0x80 {
        1
    } else if v < 0x800 {
        2
    } else if v < 0x10000 {
        3
    } else {
        4
    }
}

/// `name` cut to the characters whose UTF-8 encoding, with room for a
/// terminating NUL, fits in `DREAMCAST_NAME_MAX` bytes.
pub fn truncate_name(name: &str) -> (r: String)
    ensures
        r@ == take_within(name@, DREAMCAST_NAME_MAX as int),
{
    let n = name.unicode_len();
    let mut out = String::new();
    let mut used: usize = 0;
    let mut i: usize = 0;
    proof {
        assert(name@.skip(0) =~= name@);
        assert(out@ + take_within(name@.skip(0), DREAMCAST_NAME_MAX - 0) =~= take_within(
            name@,
            DREAMCAST_NAME_MAX as int,
        ));
    }
    while i < n
        invariant_except_break
            n == name@.len(),
            i <= n,
            used < DREAMCAST_NAME_MAX,
            out@ + take_within(name@.skip(i as int), DREAMCAST_NAME_MAX - used) == take_within(
                name@,
                DREAMCAST_NAME_MAX as int,
            ),
        ensures
            out@ == take_within(name@, DREAMCAST_NAME_MAX as int),
        decreases n - i,
    {
        let c = name.get_char(i);
        let len = char_utf8_len(c);
        proof {
            let rest = name@.skip(i as int);
            assert(rest[0] == c);
            assert(rest.drop_first() =~= name@.skip(i + 1));
        }
        if used + len >= DREAMCAST_NAME_MAX {
            proof {
                let rest = name@.skip(i as int);
                assert(take_within(rest, DREAMCAST_NAME_MAX - used) =~= Seq::<char>::empty());
                assert(out@ =~= out@ + take_within(rest, DREAMCAST_NAME_MAX - used));
            }
            break;
        }
        proof {
            let rest = name@.skip(i as int);
            assert(take_within(rest, DREAMCAST_NAME_MAX - used) == seq![c] + take_within(
                name@.skip(i + 1),
                DREAMCAST_NAME_MAX - used - len,
            ));
            assert(out@.push(c) + take_within(name@.skip(i + 1), DREAMCAST_NAME_MAX - (used + len))
                =~= out@ + take_within(rest, DREAMCAST_NAME_MAX - used));
        }
        crate::text::string_push(&mut out, c);
        used = used + len;
        i = i + 1;
        proof {
            if i == n {
                assert(name@.skip(i as int) =~= Seq::<char>::empty());
                assert(out@ =~= out@ + take_within(name@.skip(i as int), DREAMCAST_NAME_MAX - used));
            }
        }
    }
    out
}

/// Directory entry handed out by the handler's `readdir`.
#[derive(Debug, Clone, PartialEq, Eq)]
pub struct DreamcastDirent {
    /// Entry size in bytes.
    pub size: u64,
    /// Entry name, cut to what fits in the platform's name buffer.
    pub name: String,
    /// Platform attribute flags; always zero.
    pub attr: u32,
    /// Platform timestamp; always zero.
    pub time: u64,
}

/// `d` is the handler's form of the directory entry `e`.
pub open spec fn dirent_of(d: DreamcastDirent, e: DirectoryEntry) -> bool {
    &&& d.size == e.stat.size
    &&& d.name@ == take_within(e.name@, DREAMCAST_NAME_MAX as int)
    &&& d.attr == 0
    &&& d.time == 0
}

impl DreamcastDirent {
    /// Builds the handler's form of a directory entry.
    #[must_use]
    pub fn from_directory_entry(entry: &DirectoryEntry) -> (r: Self)
        ensures
            dirent_of(r, *entry),
    {
        Self { size: entry.stat.size, name: truncate_name(entry.name.as_str()), attr: 0, time: 0 }
    }
}

/// File mode of a handler stat record.
#[derive(Debug, Clone, Copy, PartialEq, Eq)]
pub enum DreamcastFileMode {
    /// Regular file mode, `S_IFREG`.
    Regular,
    /// Directory mode, `S_IFDIR`.
    Directory,
    /// Symbolic link mode, `S_IFLNK`.
    Symlink,
}

/// The mode of a file type: links and unknown types count as symbolic links.
pub open spec fn mode_of(file_type: FileType) -> DreamcastFileMode {
    match file_type {
        FileType::File => DreamcastFileMode::Regular,
        FileType::Directory => DreamcastFileMode::Directory,
        FileType::Link => DreamcastFileMode::Symlink,
        FileType::Unknown(_) => DreamcastFileMode::Symlink,
    }
}

impl From<FileType> for DreamcastFileMode {
    fn from(file_type: FileType) -> (r: Self) {
        match file_type {
            FileType::File => DreamcastFileMode::Regular,
            FileType::Directory => DreamcastFileMode::Directory,
            FileType::Link => DreamcastFileMode::Symlink,
            FileType::Unknown(_) => DreamcastFileMode::Symlink,
        }
    }
}

impl FromSpecImpl<FileType> for DreamcastFileMode {
    open spec fn obeys_from_spec() -> bool {
        true
    }

    open spec fn from_spec(file_type: FileType) -> DreamcastFileMode {
        mode_of(file_type)
    }
}

/// The stat fields that the handler fills.
#[derive(Debug, Clone, Copy, PartialEq, Eq)]
pub struct DreamcastStat {
    /// File identifier.
    pub ino: u64,
    /// Link count.
    pub nlink: u32,
    /// File size in bytes.
    pub size: u64,
    /// Access time seconds.
    pub atime: u64,
    /// Modification time seconds.
    pub mtime: u64,
    /// Change time seconds.
    pub ctime: u64,
    /// File mode derived from the SMB2 file type.
    pub mode: DreamcastFileMode,
}

/// The handler's stat record of an SMB2 stat.
pub open spec fn stat_of(stat: Stat) -> DreamcastStat {
    DreamcastStat {
        ino: stat.ino,
        nlink: stat.nlink,
        size: stat.size,
        atime: stat.atime,
        mtime: stat.mtime,
        ctime: stat.ctime,
        mode: mode_of(stat.file_type),
    }
}

impl DreamcastStat {
    /// Converts an SMB2 stat into the handler's stat record.
    #[must_use]
    pub fn from_smb2_stat(stat: &Stat) -> (r: Self)
        ensures
            r == stat_of(*stat),
    {
        Self {
            ino: stat.ino,
            nlink: stat.nlink,
            size: stat.size,
            atime: stat.atime,
            mtime: stat.mtime,
            ctime: stat.ctime,
            mode: DreamcastFileMode::from(stat.file_type),
        }
    }
}

/// Metadata of the registered handler.
#[derive(Debug, Clone, PartialEq, Eq)]
pub struct VfsHandlerInfo {
    /// Handler mount path.
    pub mount: String,
    /// Handler version.
    pub version: u32,
    /// Whether directory cache support is enabled.
    pub cache: bool,
}

impl Default for VfsHandlerInfo {
    fn default() -> (r: Self)
        ensures
            r.mount@ == "/smb"@,
            r.version == SMB_VFS_VERSION,
            r.cache,
    {
        Self { mount: String::from_str("/smb"), version: SMB_VFS_VERSION, cache: true }
    }
}

/// Mount state: the URL given to `kos_smb_init` and its parsed fields.
#[derive(Debug, Clone, PartialEq, Eq)]
pub struct SmbMount {
    /// URL text passed to `kos_smb_init`.
    pub url: String,
    /// Parsed SMB URL fields.
    pub smb_url: Option<Smb2Url>,
}

impl SmbMount {
    /// Creates mount state for a URL; an empty URL is refused with `EINVAL`.
    pub fn new(url: &str) -> (r: Result<Self>)
        ensures
            url@.len() == 0 ==> r is Err && r->Err_0 == ErrorCode(EINVAL),
            url@.len() != 0 ==> (r matches Ok(m) && m.url@ == url@ && m.smb_url is None),
    {
        if url.unicode_len() == 0 {
            return Err(ErrorCode(EINVAL));
        }
        Ok(SmbMount { url: String::from_str(url), smb_url: None })
    }

    /// Attaches the parsed URL fields.
    #[must_use]
    pub fn with_smb_url(self, smb_url: Smb2Url) -> (r: Self)
        ensures
            r == (SmbMount { smb_url: Some(smb_url), ..self }),
    {
        SmbMount { url: self.url, smb_url: Some(smb_url) }
    }
}

/// State of the handler: the client and mount created at initialisation,
/// the handler metadata and whether it is registered.
#[derive(Debug, Default)]
pub struct DreamcastVfs {
    client: Option<Smb2Client>,
    mount: Option<SmbMount>,
    handler: VfsHandlerInfo,
    registered: bool,
}

impl DreamcastVfs {
    /// The client of the handler.
    pub closed spec fn spec_client(&self) -> Option<Smb2Client> {
        self.client
    }

    /// The mount state of the handler.
    pub closed spec fn spec_mount(&self) -> Option<SmbMount> {
        self.mount
    }

    /// The handler metadata.
    pub closed spec fn spec_handler(&self) -> VfsHandlerInfo {
        self.handler
    }

    /// Whether the handler is registered.
    pub closed spec fn spec_registered(&self) -> bool {
        self.registered
    }

    /// Creates an uninitialised handler.
    #[must_use]
    pub fn new() -> (r: Self)
        ensures
            r.spec_client() is None,
            r.spec_mount() is None,
            !r.spec_registered(),
            r.spec_handler().mount@ == "/smb"@,
            r.spec_handler().version == SMB_VFS_VERSION,
            r.spec_handler().cache,
    {
        DreamcastVfs { client: None, mount: None, handler: VfsHandlerInfo::default(), registered: false }
    }

    /// Returns the handler metadata.
    #[must_use]
    pub fn handler(&self) -> (r: &VfsHandlerInfo)
        ensures
            *r == self.spec_handler(),
    {
        &self.handler
    }

    /// Returns whether `kos_smb_init` has registered the handler.
    #[must_use]
    pub fn is_registered(&self) -> (r: bool)
        ensures
            r == self.spec_registered(),
    {
        self.registered
    }

    /// Returns the mount state, if initialised.
    #[must_use]
    pub fn mount(&self) -> (r: Option<&SmbMount>)
        ensures
            match self.spec_mount() {
                Some(m) => r == Some(&m),
                None => r is None,
            },
    {
        match &self.mount {
            Some(m) => Some(m),
            None => None,
        }
    }

    /// Returns the client, if initialised.
    #[must_use]
    pub fn client(&self) -> (r: Option<&Smb2Client>)
        ensures
            match self.spec_client() {
                Some(c) => r == Some(&c),
                None => r is None,
            },
    {
        match &self.client {
            Some(c) => Some(c),
            None => None,
        }
    }

    /// Initialises the handler for a URL: a fresh client, the mount state,
    /// and registration. An empty URL is refused with `EINVAL` and nothing
    /// changes.
    pub fn kos_smb_init(&mut self, url: &str) -> (r: Result<()>)
        ensures
            final(self).spec_handler() == old(self).spec_handler(),
            url@.len() == 0 ==> r is Err && r->Err_0 == ErrorCode(EINVAL) && final(self).spec_client()
                == old(self).spec_client() && final(self).spec_mount() == old(self).spec_mount()
                && final(self).spec_registered() == old(self).spec_registered(),
            url@.len() != 0 ==> r is Ok && final(self).spec_registered(),
            url@.len() != 0 ==> (final(self).spec_client() matches Some(c)
                && c@ == initial_client_model()),
            url@.len() != 0 ==> (final(self).spec_mount() matches Some(m) && m.url@ == url@
                && m.smb_url is None),
    {
        let mount = match SmbMount::new(url) {
            Ok(m) => m,
            Err(e) => {
                return Err(e);
            },
        };
        self.client = Some(Smb2Client::new());
        self.mount = Some(mount);
        self.registered = true;
        Ok(())
    }

    /// Shuts the handler down: unregistered, no mount, no client.
    pub fn kos_smb_shutdown(&mut self)
        ensures
            !final(self).spec_registered(),
            final(self).spec_mount() is None,
            final(self).spec_client() is None,
            final(self).spec_handler() == old(self).spec_handler(),
    {
        self.registered = false;
        self.mount = None;
        self.client = None;
    }

    /// Caches and returns the handler's form of a directory entry on a
    /// directory descriptor. An uninitialised handler refuses with `EIO`, a
    /// descriptor that is no directory with `EINVAL`.
    pub fn smb_readdir<'a>(&self, fd: &'a mut SmbFd, entry: &DirectoryEntry) -> (r: Result<
        &'a DreamcastDirent,
    >)
        ensures
            final(fd).spec_kind() == old(fd).spec_kind(),
            final(fd).spec_file() == old(fd).spec_file(),
            final(fd).spec_directory() == old(fd).spec_directory(),
            self.spec_client() is None ==> r is Err && r->Err_0 == ErrorCode(-5i32)
                && final(fd).spec_dirent() == old(fd).spec_dirent(),
            self.spec_client() is Some && old(fd).spec_kind() != SmbFdKind::Directory ==> r is Err
                && r->Err_0 == ErrorCode(EINVAL) && final(fd).spec_dirent() == old(fd).spec_dirent(),
            self.spec_client() is Some && old(fd).spec_kind() == SmbFdKind::Directory ==> (
            r matches Ok(d) && dirent_of(*d, *entry) && final(fd).spec_dirent() == Some(*d)),
    {
        match self.required_client() {
            Ok(_) => {},
            Err(e) => {
                return Err(e);
            },
        }
        fd.cache_dirent(entry)
    }

    /// Converts an SMB2 stat into the handler's stat record.
    #[must_use]
    pub fn smb2_stat_convert(stat: &Stat) -> (r: DreamcastStat)
        ensures
            r == stat_of(*stat),
    {
        DreamcastStat::from_smb2_stat(stat)
    }

    /// Builds the seek request of a file descriptor. An uninitialised handler
    /// or a descriptor without a file handle refuses with `EIO`.
    pub fn smb_seek64(&self, fd: &SmbFd, offset: i64, whence: SeekWhence) -> (r: Result<
        Seek64Request,
    >)
        ensures
            (self.spec_client() is None || fd.spec_file() is None) ==> r is Err && r->Err_0
                == ErrorCode(-5i32),
            (self.spec_client() is Some && fd.spec_file() is Some) ==> r == Ok::<
                Seek64Request,
                ErrorCode,
            >(Seek64Request { offset: offset, whence: whence }),
    {
        match self.required_client() {
            Ok(_) => {},
            Err(e) => {
                return Err(e);
            },
        }
        match fd.file_handle() {
            Some(_) => {},
            None => {
                return Err(ErrorCode(EIO));
            },
        }
        Ok(Seek64Request { offset, whence })
    }

    /// Builds the request that reports the current offset of a file
    /// descriptor: a seek by zero from the current position. An
    /// uninitialised handler or a descriptor without a file handle refuses
    /// with `EIO`.
    pub fn smb_tell64(&self, fd: &SmbFd) -> (r: Result<Seek64Request>)
        ensures
            (self.spec_client() is None || fd.spec_file() is None) ==> r is Err && r->Err_0
                == ErrorCode(-5i32),
            (self.spec_client() is Some && fd.spec_file() is Some) ==> r == Ok::<
                Seek64Request,
                ErrorCode,
            >(Seek64Request { offset: 0, whence: SeekWhence::Current }),
    {
        match self.required_client() {
            Ok(_) => {},
            Err(e) => {
                return Err(e);
            },
        }
        match fd.file_handle() {
            Some(_) => {},
            None => {
                return Err(ErrorCode(EIO));
            },
        }
        Ok(Seek64Request { offset: 0, whence: SeekWhence::Current })
    }

    /// Builds the rewind request of a directory descriptor. An uninitialised
    /// handler refuses with `EIO`, a descriptor without a directory handle
    /// with `EINVAL`.
    pub fn smb_rewinddir(&self, fd: &SmbFd) -> (r: Result<DirectoryRequest>)
        ensures
            self.spec_client() is None ==> r is Err && r->Err_0 == ErrorCode(-5i32),
            self.spec_client() is Some && fd.spec_directory() is None ==> r is Err && r->Err_0
                == ErrorCode(EINVAL),
            self.spec_client() is Some ==> (fd.spec_directory() matches Some(h) ==> r == Ok::<
                DirectoryRequest,
                ErrorCode,
            >(DirectoryRequest { file_id: h.spec_id(), operation: DirectoryOperation::Rewind })),
    {
        match self.required_client() {
            Ok(_) => {},
            Err(e) => {
                return Err(e);
            },
        }
        match fd.directory_handle() {
            Some(h) => Ok(DirectoryRequest { file_id: h.id(), operation: DirectoryOperation::Rewind }),
            None => Err(ErrorCode(EINVAL)),
        }
    }

    fn required_client(&self) -> (r: Result<&Smb2Client>)
        ensures
            match self.spec_client() {
                Some(c) => r == Ok::<&Smb2Client, ErrorCode>(&c),
                None => r is Err && r->Err_0 == ErrorCode(-5i32),
            },
    {
        match &self.client {
            Some(c) => Ok(c),
            None => Err(ErrorCode(EIO)),
        }
    }
}

/// Origin of a seek.
#[derive(Debug, Clone, Copy, PartialEq, Eq)]
pub enum SeekWhence {
    /// Seek from the beginning of the file.
    Start,
    /// Seek from the current file offset.
    Current,
    /// Seek from the end of the file.
    End,
}

/// A seek request.
#[derive(Debug, Clone, Copy, PartialEq, Eq)]
pub struct Seek64Request {
    /// Signed seek offset.
    pub offset: i64,
    /// Seek origin.
    pub whence: SeekWhence,
}

/// Operations on an open directory stream.
#[derive(Debug, Clone, Copy, PartialEq, Eq)]
pub enum DirectoryOperation {
    /// Rewind an open directory stream.
    Rewind,
}

/// A request on an open directory stream.
#[derive(Debug, Clone, Copy, PartialEq, Eq)]
pub struct DirectoryRequest {
    /// SMB2 file id of the directory stream.
    pub file_id: [u8; 16],
    /// Directory operation to perform.
    pub operation: DirectoryOperation,
}

} // verus!
