use lib::engine::vfs::{
    truncate_name, DirectoryOperation, DreamcastDirent, DreamcastFileMode, DreamcastStat,
    DreamcastVfs, SeekWhence, SmbFd, SmbFdKind, SmbMount, O_DIR, SMB_VFS_VERSION,
};
use lib::headers::smb2::libsmb2::{
    DirectoryEntry, DirectoryHandle, ErrorCode, FileHandle, FileType, Smb2Url, Stat,
};

fn stat(file_type: FileType) -> Stat {
    Stat {
        file_type,
        nlink: 2,
        ino: 99,
        size: 1234,
        atime: 10,
        atime_nsec: 1,
        mtime: 20,
        mtime_nsec: 2,
        ctime: 30,
        ctime_nsec: 3,
        btime: 40,
        btime_nsec: 4,
    }
}

#[test]
fn open_mode_selects_kind() {
    assert_eq!(SmbFdKind::from_open_mode(O_DIR), SmbFdKind::Directory);
    assert_eq!(SmbFdKind::from_open_mode(O_DIR | 1), SmbFdKind::Directory);
    assert_eq!(SmbFdKind::from_open_mode(2), SmbFdKind::File);
    assert!(SmbFdKind::Directory.is_dir());
}

#[test]
fn names_are_cut_to_the_platform_buffer() {
    assert_eq!(truncate_name("short"), "short");
    let long = "a".repeat(300);
    assert_eq!(truncate_name(&long).len(), 255);
    let wide = "é".repeat(200);
    let cut = truncate_name(&wide);
    assert_eq!(cut.chars().count(), 127);
    assert!(cut.len() < 256);
    assert_eq!(truncate_name(""), "");
}

#[test]
fn stat_conversion() {
    let s = DreamcastStat::from_smb2_stat(&stat(FileType::Directory));
    assert_eq!(s.mode, DreamcastFileMode::Directory);
    assert_eq!((s.ino, s.nlink, s.size, s.atime, s.mtime, s.ctime), (99, 2, 1234, 10, 20, 30));
    assert_eq!(DreamcastFileMode::from(FileType::Unknown(7)), DreamcastFileMode::Symlink);
    assert_eq!(DreamcastFileMode::from(FileType::Link), DreamcastFileMode::Symlink);
    assert_eq!(DreamcastVfs::smb2_stat_convert(&stat(FileType::File)).mode, DreamcastFileMode::Regular);
}

#[test]
fn dirent_from_entry() {
    let e = DirectoryEntry { name: "file.txt".to_string(), stat: stat(FileType::File) };
    let d = DreamcastDirent::from_directory_entry(&e);
    assert_eq!(d.name, "file.txt");
    assert_eq!(d.size, 1234);
    assert_eq!((d.attr, d.time), (0, 0));
}

#[test]
fn descriptors_cache_entries_only_for_directories() {
    let e = DirectoryEntry { name: "x".to_string(), stat: stat(FileType::File) };
    let mut f = SmbFd::file(FileHandle::new([1u8; 16]));
    assert_eq!(f.cache_dirent(&e).err(), Some(ErrorCode(-22)));
    assert!(f.dirent().is_none());
    let mut d = SmbFd::directory(DirectoryHandle::new([2u8; 16]));
    assert_eq!(d.cache_dirent(&e).unwrap().name, "x");
    assert_eq!(d.dirent().map(|x| x.size), Some(1234));
    assert!(d.file_handle().is_none());
    assert_eq!(d.directory_handle().map(|h| h.id()), Some([2u8; 16]));
    let p = SmbFd::pending(SmbFdKind::File);
    assert_eq!(p.kind(), SmbFdKind::File);
    assert!(!p.is_dir());
}

#[test]
fn mount_state() {
    assert_eq!(SmbMount::new("").err(), Some(ErrorCode(-22)));
    let m = SmbMount::new("smb://h/s").unwrap();
    assert_eq!(m.url, "smb://h/s");
    let url = Smb2Url {
        domain: None,
        user: None,
        server: "h".to_string(),
        share: "s".to_string(),
        path: None,
    };
    let m = m.with_smb_url(url.clone());
    assert_eq!(m.smb_url, Some(url));
}

#[test]
fn handler_lifecycle() {
    let mut v = DreamcastVfs::new();
    assert!(!v.is_registered());
    assert_eq!(v.handler().mount, "/smb");
    assert_eq!(v.handler().version, SMB_VFS_VERSION);
    let fd = SmbFd::file(FileHandle::new([3u8; 16]));
    assert_eq!(v.smb_tell64(&fd).err(), Some(ErrorCode(-5)));
    assert_eq!(v.kos_smb_init("").err(), Some(ErrorCode(-22)));
    assert!(!v.is_registered());
    v.kos_smb_init("smb://h/s").unwrap();
    assert!(v.is_registered());
    assert!(v.client().is_some());
    assert_eq!(v.mount().map(|m| m.url.clone()), Some("smb://h/s".to_string()));
    let seek = v.smb_seek64(&fd, -4, SeekWhence::End).unwrap();
    assert_eq!((seek.offset, seek.whence), (-4, SeekWhence::End));
    let tell = v.smb_tell64(&fd).unwrap();
    assert_eq!((tell.offset, tell.whence), (0, SeekWhence::Current));
    let pending = SmbFd::pending(SmbFdKind::File);
    assert_eq!(v.smb_seek64(&pending, 0, SeekWhence::Start).err(), Some(ErrorCode(-5)));
    assert_eq!(v.smb_rewinddir(&fd).err(), Some(ErrorCode(-22)));
    let dir = SmbFd::directory(DirectoryHandle::new([4u8; 16]));
    let r = v.smb_rewinddir(&dir).unwrap();
    assert_eq!(r.file_id, [4u8; 16]);
    assert_eq!(r.operation, DirectoryOperation::Rewind);
    v.kos_smb_shutdown();
    assert!(!v.is_registered());
    assert!(v.client().is_none());
    assert!(v.mount().is_none());
}

#[test]
fn readdir_through_the_handler() {
    let v = DreamcastVfs::new();
    let e = DirectoryEntry { name: "n".to_string(), stat: stat(FileType::File) };
    let mut dir = SmbFd::directory(DirectoryHandle::new([0u8; 16]));
    assert_eq!(v.smb_readdir(&mut dir, &e).err(), Some(ErrorCode(-5)));
    let mut w = DreamcastVfs::new();
    w.kos_smb_init("smb://a/b").unwrap();
    assert_eq!(w.smb_readdir(&mut dir, &e).unwrap().name, "n");
}
