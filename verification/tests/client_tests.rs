use lib::engine::client::{serve_port_async, Smb2Client};
use lib::engine::client_ops::{
    ConnectData, CreateDisposition, ObjectKind, OplockBreakResponse, RenameCallbackData,
    ServerRequestKind, Smb2Directory, Smb2FileHandle, COMPOUND_FILE_ID,
};
use lib::headers::smb2::libsmb2::{
    AuthenticationMethod, DirectoryEntry, DirectoryHandle, ErrorCode, FileHandle, FileType,
    LeaseKey, NegotiateVersion, PduHandle, Smb2Operation, Stat,
};

fn stat(size: u64) -> Stat {
    Stat {
        file_type: FileType::File,
        nlink: 1,
        ino: 7,
        size,
        atime: 0,
        atime_nsec: 0,
        mtime: 0,
        mtime_nsec: 0,
        ctime: 0,
        ctime_nsec: 0,
        btime: 0,
        btime_nsec: 0,
    }
}

fn entry(name: &str, size: u64) -> DirectoryEntry {
    DirectoryEntry { name: name.to_string(), stat: stat(size) }
}

#[test]
fn new_client_has_initial_state() {
    let c = Smb2Client::new();
    assert!(c.is_active());
    assert_eq!(c.fd(), -1);
    assert!(c.fds().is_empty());
    assert_eq!(c.timeout(), 0);
    assert_eq!(c.version(), NegotiateVersion::Any);
    assert_eq!(c.authentication(), AuthenticationMethod::Undefined);
    assert_eq!(c.user(), None);
    assert!(!c.has_password());
    assert_eq!(c.max_read_size(), 0);
    assert!(c.queued_operations().is_empty());
}

#[test]
fn setters_are_read_back_by_getters() {
    let mut c = Smb2Client::new();
    c.set_user("alice");
    c.set_domain("CORP");
    c.set_workstation("ws1");
    c.set_timeout(30);
    c.set_seal(true);
    c.set_sign(true);
    c.set_dialect(0x0311);
    c.set_security_mode(2);
    c.set_version(NegotiateVersion::Any3);
    c.set_authentication(AuthenticationMethod::Krb5);
    c.set_client_guid([9u8; 16]);
    c.set_opaque(Some(42));
    c.set_nterror(-5);
    c.set_passthrough(true);
    assert_eq!(c.user(), Some("alice"));
    assert_eq!(c.domain(), Some("CORP"));
    assert_eq!(c.workstation(), Some("ws1"));
    assert_eq!(c.timeout(), 30);
    assert!(c.seal() && c.sign() && c.passthrough());
    assert_eq!(c.dialect(), 0x0311);
    assert_eq!(c.security_mode(), 2);
    assert_eq!(c.version(), NegotiateVersion::Any3);
    assert_eq!(c.authentication(), AuthenticationMethod::Krb5);
    assert_eq!(c.client_guid(), Some([9u8; 16]));
    assert_eq!(c.opaque(), Some(42));
    assert_eq!(c.nterror(), -5);
}

#[test]
fn password_with_nul_is_refused() {
    let mut c = Smb2Client::new();
    assert_eq!(c.set_password("a\0b"), Err(ErrorCode(-22)));
    assert!(!c.has_password());
    assert_eq!(c.set_password("secret"), Ok(()));
    assert!(c.has_password());
    c.set_password_from_file();
    assert!(!c.has_password());
}

#[test]
fn set_fd_tracks_valid_descriptors_only() {
    let mut c = Smb2Client::new();
    c.set_fd(5);
    assert_eq!(c.fd(), 5);
    assert_eq!(c.fds(), &[5]);
    c.set_fd(-1);
    assert_eq!(c.fd(), -1);
    assert!(c.fds().is_empty());
}

#[test]
fn service_on_inactive_context_fails() {
    let mut c = Smb2Client::new();
    assert_eq!(c.service(4), Ok(()));
    assert_eq!(c.which_events(), 4);
    c.destroy_context();
    assert!(!c.is_active());
    assert_eq!(c.service(1), Err(ErrorCode(-22)));
    assert_eq!(c.error(), Some("context is not active"));
}

#[test]
fn service_fd_rejects_unknown_descriptor() {
    let mut c = Smb2Client::new();
    c.set_fd(3);
    assert_eq!(c.service_fd(9, 1), Err(ErrorCode(-22)));
    assert_eq!(c.error(), Some("unknown file descriptor"));
    assert_eq!(c.service_fd(3, 1), Ok(()));
    assert_eq!(c.service_fd(-1, 2), Ok(()));
    assert_eq!(c.which_events(), 2);
}

#[test]
fn close_context_resets_descriptors() {
    let mut c = Smb2Client::new();
    c.set_fd(8);
    c.set_events(1);
    c.close_context();
    assert_eq!(c.fd(), -1);
    assert!(c.fds().is_empty());
    assert_eq!(c.which_events(), 0);
    assert!(c.is_active());
}

#[test]
fn delegate_credentials_moves_password() {
    let mut src = Smb2Client::new();
    let mut dst = Smb2Client::new();
    assert_eq!(src.delegate_credentials(&mut dst), Err(ErrorCode(-22)));
    src.set_user("bob");
    src.set_password("pw").unwrap();
    assert_eq!(src.delegate_credentials(&mut dst), Ok(()));
    assert_eq!(dst.user(), Some("bob"));
    assert!(dst.has_password());
    assert!(!src.has_password());
    assert_eq!(src.user(), Some("bob"));
}

#[test]
fn operations_are_queued_in_order() {
    let mut c = Smb2Client::new();
    let h = FileHandle::new([1u8; 16]);
    c.connect_share("srv", "share").unwrap();
    c.mkdir_async("dir");
    c.pread_async(&h, 10, 20);
    c.echo_async();
    let ops = c.queued_operations();
    assert_eq!(ops.len(), 4);
    assert_eq!(
        ops[0],
        Smb2Operation::ConnectShare { server: "srv".to_string(), share: "share".to_string(), user: None }
    );
    assert_eq!(ops[1], Smb2Operation::Mkdir { path: "dir".to_string() });
    assert_eq!(ops[2], Smb2Operation::Read { file_id: [1u8; 16], count: 10, offset: Some(20) });
    assert_eq!(ops[3], Smb2Operation::Echo);
    c.clear_queued_operations();
    assert!(c.queued_operations().is_empty());
}

#[test]
fn connect_share_async_keeps_user_when_none_given() {
    let mut c = Smb2Client::new();
    c.set_user("carol");
    c.connect_share_async("s", "h", None);
    assert_eq!(c.user(), Some("carol"));
    c.connect_share_async("s", "h", Some("dave"));
    assert_eq!(c.user(), Some("dave"));
}

#[test]
fn open_with_lease_records_lease() {
    let mut c = Smb2Client::new();
    c.open_async_with_oplock_or_lease("f", 2, 8, 7, LeaseKey([3u8; 16]));
    assert_eq!(
        c.queued_operations()[0],
        Smb2Operation::Open {
            path: "f".to_string(),
            flags: 2,
            oplock_level: Some(8),
            lease_state: Some(7),
            lease_key: Some(LeaseKey([3u8; 16])),
        }
    );
}

#[test]
fn lseek_reports_non_negative_offsets() {
    let mut c = Smb2Client::new();
    let h = FileHandle::new([0u8; 16]);
    assert_eq!(c.lseek(&h, 12, 0), Some(12));
    assert_eq!(c.lseek(&h, -1, 1), None);
    assert_eq!(c.queued_operations().len(), 2);
}

#[test]
fn queue_pdu_assigns_increasing_message_ids() {
    let mut c = Smb2Client::new();
    let mut a = PduHandle::default();
    let mut b = PduHandle::default();
    c.queue_pdu(&mut a);
    c.queue_pdu(&mut b);
    assert_eq!(a.message_id, Some(1));
    assert_eq!(b.message_id, Some(2));
    assert_eq!(c.last_request_message_id(), 2);
    c.add_compound_pdu(&mut a, &mut b);
    assert!(c.pdu_is_compound(&a) && c.pdu_is_compound(&b));
    c.set_tree_id_for_pdu(&mut a, 77);
    assert_eq!(c.tree_id_for_pdu(&a), Some(77));
}

#[test]
fn disconnect_share_forgets_share() {
    let mut c = Smb2Client::new();
    c.connect_share("srv", "share").unwrap();
    let d = c.disconnect_share_async_skeleton().unwrap();
    assert!(d.tree_disconnect_queued && d.logoff_queued);
    assert_eq!(c.queued_operations().last(), Some(&Smb2Operation::DisconnectShare));
}

#[test]
fn serve_port_async_builds_context() {
    assert_eq!(serve_port_async(-1, 5).err(), Some(ErrorCode(-22)));
    let c = serve_port_async(4, 5).unwrap();
    assert_eq!(c.fd(), 4);
    assert_eq!(c.fds(), &[4]);
    assert_eq!(c.timeout(), 5);
}

#[test]
fn connect_data_builds_unc() {
    let d = ConnectData::new("server", "share");
    assert_eq!(d.unc(), "\\\\server\\share");
    let mut c = Smb2Client::new();
    let d = c.connect_share_async_skeleton("srv", "sh", Some("u")).unwrap();
    assert_eq!(d.utf8_unc.as_deref(), Some("\\\\srv\\sh"));
    let expected: Vec<u16> = "\\\\srv\\sh".encode_utf16().collect();
    assert_eq!(d.utf16_unc, expected);
    assert_eq!(d.user.as_deref(), Some("u"));
}

#[test]
fn file_handle_offset_saturates() {
    let mut h = Smb2FileHandle::new([2u8; 16]);
    h.advance_offset(10);
    assert_eq!(h.offset, 10);
    h.advance_offset(u64::MAX);
    assert_eq!(h.offset, u64::MAX);
    let fh = h.into_file_handle();
    assert_eq!(fh.id(), [2u8; 16]);
    assert_eq!(fh.offset(), 0);
}

#[test]
fn directory_cursor_walks_entries() {
    let mut d = Smb2Directory::new(vec![entry("a", 1), entry("b", 2)]);
    assert_eq!(d.len(), 2);
    assert!(!d.is_empty());
    assert_eq!(d.readdir().map(|e| e.name.clone()), Some("a".to_string()));
    assert_eq!(d.telldir(), 1);
    assert_eq!(d.readdir().map(|e| e.name.clone()), Some("b".to_string()));
    assert!(d.readdir().is_none());
    assert_eq!(d.telldir(), 2);
    d.seekdir(10);
    assert_eq!(d.telldir(), 2);
    d.seekdir(1);
    assert_eq!(d.readdir().map(|e| e.stat.size), Some(2));
    d.rewinddir();
    assert_eq!(d.telldir(), 0);
}

#[test]
fn rename_target_uses_backslashes() {
    let r = RenameCallbackData::new("a/b", "dir/sub/file");
    assert_eq!(r.old_path, "a/b");
    assert_eq!(r.new_path, "dir\\sub\\file");
    let mut c = Smb2Client::new();
    assert_eq!(c.rename_async_skeleton("", "x").err(), Some(ErrorCode(-22)));
    assert_eq!(c.rename_async_skeleton("x", "").err(), Some(ErrorCode(-22)));
    assert_eq!(c.rename_async_skeleton("x", "y/z").unwrap().new_path, "y\\z");
}

#[test]
fn empty_paths_are_refused() {
    let mut c = Smb2Client::new();
    assert_eq!(c.open_async_skeleton("", 0).err(), Some(ErrorCode(-22)));
    assert_eq!(c.mkdir_async_skeleton("").err(), Some(ErrorCode(-22)));
    assert_eq!(c.stat_async_skeleton("").err(), Some(ErrorCode(-22)));
    assert_eq!(c.readlink_async_skeleton("").err(), Some(ErrorCode(-22)));
    let m = c.mkdir_async_skeleton("d").unwrap();
    assert_eq!(m.kind, ObjectKind::Directory);
    assert_eq!(m.disposition, CreateDisposition::Create);
    let u = c.unlink_async_skeleton("f").unwrap();
    assert_eq!(u.kind, ObjectKind::File);
    assert_eq!(u.disposition, CreateDisposition::Open);
    let r = c.rmdir_async_skeleton("d").unwrap();
    assert_eq!(r.kind, ObjectKind::Directory);
}

#[test]
fn stat_requests_use_expected_classes() {
    let mut c = Smb2Client::new();
    let s = c.stat_async_skeleton("p").unwrap();
    assert_eq!((s.info_type, s.file_info_class), (1, 18));
    let v = c.statvfs_async_skeleton("p").unwrap();
    assert_eq!((v.info_type, v.file_info_class), (2, 0));
    let f = c.fstat_async_skeleton(&FileHandle::new(COMPOUND_FILE_ID)).unwrap();
    assert_eq!(f.file_info_class, 18);
}

#[test]
fn ftruncate_path_lists_file_id_bytes() {
    let mut c = Smb2Client::new();
    let mut id = [0u8; 16];
    id[0] = 0xab;
    id[15] = 0x05;
    let d = c.ftruncate_async_skeleton(&FileHandle::new(id), 9).unwrap();
    assert_eq!(d.path, format!("file-id:{:02x?}", id));
    assert_eq!(
        d.path,
        "file-id:[ab, 00, 00, 00, 00, 00, 00, 00, 00, 00, 00, 00, 00, 00, 00, 05]"
    );
}

#[test]
fn read_and_write_requests_use_handle_offset() {
    let mut c = Smb2Client::new();
    let h = FileHandle::new([4u8; 16]);
    let r = c.read_async_skeleton(&h, 100).unwrap();
    assert_eq!(r.request.offset, 0);
    assert_eq!(r.request.count, 100);
    let w = c.pwrite_async_skeleton(&h, &[1, 2, 3], 50).unwrap();
    assert_eq!(w.request.data, vec![1, 2, 3]);
    assert_eq!(w.request.offset, 50);
}

#[test]
fn notify_and_dispatch_records() {
    let mut c = Smb2Client::new();
    let dir = DirectoryHandle::new([6u8; 16]);
    let n = c.notify_change_async_skeleton(&dir, 1, 0x17, true).unwrap();
    assert_eq!(n.directory_file_id, [6u8; 16]);
    assert_eq!((n.flags, n.filter, n.repeat), (1, 0x17, true));
    let resp = OplockBreakResponse::Oplock { file_id: [1u8; 16], level: 2 };
    assert_eq!(c.oplock_break_notify_skeleton(resp), Ok(resp));
    assert_eq!(c.oplock_break_notify_skeleton(OplockBreakResponse::NoReply), Ok(OplockBreakResponse::NoReply));
    let s = c.server_request_skeleton(ServerRequestKind::Echo, Some(3));
    assert_eq!(s.kind, ServerRequestKind::Echo);
    assert_eq!(s.message_id, Some(3));
    assert_eq!(c.max_read_size_skeleton(), 0);
    assert!(c.close_context_skeleton() == lib::engine::client_ops::DisconnectData::default());
}
