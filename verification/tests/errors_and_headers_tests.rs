use lib::engine::errors::{
    nterror_errno, nterror_name, nterror_to_errno, nterror_to_str, NtStatus, Smb2Errno,
    SMB2_STATUS_ACCESS_DENIED, SMB2_STATUS_END_OF_FILE, SMB2_STATUS_NO_SUCH_FILE,
    SMB2_STATUS_PENDING, SMB2_STATUS_SHUTDOWN, SMB2_STATUS_SUCCESS,
};
use lib::headers::portable_endian::{
    be16_to_host, be32_to_host, be64_to_host, host_to_be16, host_to_be32, host_to_be64,
    host_to_le16, host_to_le32, host_to_le64, le16_to_host, le32_to_host, le64_to_host,
};
use lib::headers::slist::Smb2SList;
use lib::text::{utf16_decode_lossy, utf16_encode};

#[test]
fn status_names() {
    assert_eq!(nterror_to_str(SMB2_STATUS_ACCESS_DENIED), "STATUS_ACCESS_DENIED");
    assert_eq!(nterror_to_str(SMB2_STATUS_NO_SUCH_FILE), "STATUS_NO_SUCH_FILE");
    assert_eq!(nterror_to_str(0x1234_5678), "Unknown");
    assert_eq!(nterror_name(0x1234_5678), None);
}

#[test]
fn status_errno_values() {
    assert_eq!(nterror_to_errno(SMB2_STATUS_SUCCESS), 0);
    assert_eq!(nterror_to_errno(SMB2_STATUS_END_OF_FILE), 0);
    assert_eq!(nterror_to_errno(SMB2_STATUS_PENDING), 11);
    assert_eq!(nterror_to_errno(SMB2_STATUS_NO_SUCH_FILE), 2);
    assert_eq!(nterror_to_errno(SMB2_STATUS_ACCESS_DENIED), 13);
    assert_eq!(nterror_to_errno(0x1234_5678), 5);
    assert_eq!(nterror_errno(SMB2_STATUS_SHUTDOWN), Smb2Errno::Shutdown(NtStatus(SMB2_STATUS_SHUTDOWN)));
    assert_eq!(nterror_to_errno(SMB2_STATUS_SHUTDOWN), -(SMB2_STATUS_SHUTDOWN as i32));
}

#[test]
fn byte_order_conversions() {
    assert_eq!(host_to_be16(0x1234), 0x1234u16.to_be());
    assert_eq!(be16_to_host(host_to_be16(0xbeef)), 0xbeef);
    assert_eq!(host_to_le16(0x1234).to_le_bytes(), [0x34, 0x12]);
    assert_eq!(le16_to_host(host_to_le16(7)), 7);
    assert_eq!(host_to_be32(0x0102_0304).to_ne_bytes(), [1, 2, 3, 4]);
    assert_eq!(be32_to_host(host_to_be32(0xdead_beef)), 0xdead_beef);
    assert_eq!(host_to_le32(0x0102_0304).to_ne_bytes(), [4, 3, 2, 1]);
    assert_eq!(le32_to_host(host_to_le32(9)), 9);
    assert_eq!(host_to_be64(1).to_ne_bytes(), [0, 0, 0, 0, 0, 0, 0, 1]);
    assert_eq!(be64_to_host(host_to_be64(u64::MAX - 3)), u64::MAX - 3);
    assert_eq!(host_to_le64(1).to_ne_bytes(), [1, 0, 0, 0, 0, 0, 0, 0]);
    assert_eq!(le64_to_host(host_to_le64(5)), 5);
}

#[test]
fn slist_front_and_back() {
    let mut l: Smb2SList<u32> = Smb2SList::new();
    assert!(l.is_empty());
    l.add(2);
    l.add(1);
    l.add_end(3);
    assert_eq!(l.len(), 3);
    assert_eq!(l.iter(), vec![&1, &2, &3]);
    assert_eq!(l.remove_first(&2), Some(2));
    assert_eq!(l.remove_first(&9), None);
    assert_eq!(l.pop_front(), Some(1));
    assert_eq!(l.iter(), vec![&3]);
    l.clear();
    assert_eq!(l.pop_front(), None);
}

#[test]
fn slist_add_then_pop_gives_item_back() {
    let mut l = Smb2SList::from_vec(vec![5u8, 6]);
    l.add(4);
    assert_eq!(l.pop_front(), Some(4));
    assert_eq!(l.iter(), vec![&5, &6]);
}

#[test]
fn slist_remove_by_predicate_and_extend() {
    let mut l = Smb2SList::from_vec(vec![1u8, 4, 6, 8]);
    assert_eq!(l.remove_first_by(|x: &u8| *x % 2 == 0), Some(4));
    l.extend(vec![10, 11]);
    assert_eq!(l.iter(), vec![&1, &6, &8, &10, &11]);
}

#[test]
fn utf16_round_trip() {
    let units = utf16_encode("a\u{1F600}é");
    let expected: Vec<u16> = "a\u{1F600}é".encode_utf16().collect();
    assert_eq!(units, expected);
    assert_eq!(utf16_decode_lossy(&units), "a\u{1F600}é");
    assert_eq!(utf16_decode_lossy(&[0x61, 0xD800, 0x62]), "a\u{FFFD}b");
}
